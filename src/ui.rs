use vstd::prelude::*;

verus! {

/// Which screen the game shows.
#[derive(Clone, Copy, Debug, PartialEq, Eq, Structural)]
pub enum GameState {
    MainMenu,
    SettingsMenu,
    KeySettings,
    Ingame,
    Quit,
    Testing,
}

impl Default for GameState {
    fn default() -> (r: Self)
        ensures
            r == GameState::MainMenu,
    {
        GameState::MainMenu
    }
}

/// A clickable button: top-left corner, size, and an optional label.
#[derive(Debug)]
pub struct Button {
    pub position: (i32, i32),
    pub size: (i32, i32),
    pub text: Option<String>,
}

/// A selector that steps through a list of options with arrows.
#[derive(Debug)]
pub struct ArrowSelector {
    pub options: Vec<String>,
    pub position: (i32, i32),
    pub size: (i32, i32),
    pub selected: usize,
}

/// The widgets of one menu screen.
#[derive(Debug)]
pub struct UiScene {
    pub buttons: Vec<Button>,
    pub selectors: Vec<ArrowSelector>,
}

/// A button at `position` of `size` labelled `text`.
pub open spec fn button_is(b: Button, position: (i32, i32), size: (i32, i32), text: Seq<char>) -> bool {
    &&& b.position == position
    &&& b.size == size
    &&& b.text matches Some(t) && t@ == text
}

/// A selector at `position` of `size` offering `options` in order, with the
/// first one selected.
pub open spec fn selector_is(
    s: ArrowSelector,
    options: Seq<Seq<char>>,
    position: (i32, i32),
    size: (i32, i32),
) -> bool {
    &&& s.position == position
    &&& s.size == size
    &&& s.selected == 0
    &&& s.options@.len() == options.len()
    &&& forall|i: int| 0 <= i < options.len() ==> #[trigger] s.options@[i]@ == options[i]
}

/// The main menu: quit, start a game, open the settings.
pub open spec fn is_main_menu(s: UiScene) -> bool {
    &&& s.buttons@.len() == 3
    &&& button_is(s.buttons@[0], (10, 10), (100, 40), "Quit"@)
    &&& button_is(s.buttons@[1], (10, 80), (100, 40), "to game"@)
    &&& button_is(s.buttons@[2], (10, 180), (100, 40), "Settings"@)
    &&& s.selectors@.len() == 0
}

/// Screen resolutions offered in the settings menu.
pub open spec fn resolution_options() -> Seq<Seq<char>> {
    seq!["1920x1080"@, "1280x720"@, "854x360"@]
}

/// Volume levels offered in the settings menu.
pub open spec fn volume_options() -> Seq<Seq<char>> {
    seq!["1"@, "2"@, "3"@, "4"@, "5"@, "6"@, "7"@, "8"@, "9"@, "10"@]
}

/// The settings menu: go back or apply, a resolution and a volume selector.
pub open spec fn is_settings_menu(s: UiScene) -> bool {
    &&& s.buttons@.len() == 2
    &&& button_is(s.buttons@[0], (200, 400), (100, 40), "Go Back"@)
    &&& button_is(s.buttons@[1], (400, 400), (100, 40), "Apply"@)
    &&& s.selectors@.len() == 2
    &&& selector_is(s.selectors@[0], resolution_options(), (200, 100), (400, 100))
    &&& selector_is(s.selectors@[1], volume_options(), (200, 200), (400, 100))
}

impl Button {
    pub fn new(position: (i32, i32), size: (i32, i32), text: Option<String>) -> (r: Self)
        ensures
            r.position == position,
            r.size == size,
            r.text == text,
    {
        Button { position, size, text }
    }
}

impl ArrowSelector {
    /// A selector over `options` with the first one selected.
    pub fn new(options: Vec<String>, position: (i32, i32), size: (i32, i32)) -> (r: Self)
        ensures
            r.options == options,
            r.position == position,
            r.size == size,
            r.selected == 0,
    {
        ArrowSelector { options, position, size, selected: 0 }
    }
}

fn label(text: &str) -> (r: Option<String>)
    ensures
        r matches Some(t) && t@ == text@,
{
    Some(text.to_string())
}

impl Default for UiScene {
    fn default() -> (r: Self)
        ensures
            r.buttons@.len() == 0,
            r.selectors@.len() == 0,
    {
        UiScene { buttons: Vec::new(), selectors: Vec::new() }
    }
}

impl UiScene {
    pub fn init_main() -> (r: Self)
        ensures
            is_main_menu(r),
    {
        let quit = Button::new((10, 10), (100, 40), label("Quit"));
        let go_to_game = Button::new((10, 80), (100, 40), label("to game"));
        let go_to_settings = Button::new((10, 180), (100, 40), label("Settings"));
        let buttons = vec![quit, go_to_game, go_to_settings];
        UiScene { buttons, selectors: Vec::new() }
    }

    pub fn init_settings_menu() -> (r: Self)
        ensures
            is_settings_menu(r),
    {
        let back = Button::new((200, 400), (100, 40), label("Go Back"));
        let submit = Button::new((400, 400), (100, 40), label("Apply"));
        let buttons = vec![back, submit];
        let resolutions = vec![
            "1920x1080".to_string(),
            "1280x720".to_string(),
            "854x360".to_string(),
        ];
        let resolution = ArrowSelector::new(resolutions, (200, 100), (400, 100));
        let levels = vec![
            "1".to_string(),
            "2".to_string(),
            "3".to_string(),
            "4".to_string(),
            "5".to_string(),
            "6".to_string(),
            "7".to_string(),
            "8".to_string(),
            "9".to_string(),
            "10".to_string(),
        ];
        let volume = ArrowSelector::new(levels, (200, 200), (400, 100));
        let selectors = vec![resolution, volume];
        UiScene { buttons, selectors }
    }

    /// The widgets of the screen for `state`; screens without a menu have none.
    pub fn from_game_state(state: &GameState) -> (r: Self)
        ensures
            *state == GameState::MainMenu ==> is_main_menu(r),
            *state == GameState::SettingsMenu ==> is_settings_menu(r),
            *state != GameState::MainMenu && *state != GameState::SettingsMenu ==> r.buttons@.len()
                == 0 && r.selectors@.len() == 0,
    {
        match state {
            GameState::MainMenu => Self::init_main(),
            GameState::SettingsMenu => Self::init_settings_menu(),
            _ => Self::default(),
        }
    }
}

/// Start coordinate that centers content of length `content` in a span of
/// length `extent` that starts at `start`.
pub open spec fn centered(start: int, extent: int, content: int) -> int {
    start + extent / 2 - content / 2
}

/// Start coordinate that centers content of length `content` (as measured
/// by the renderer) in a span of length `extent` starting at `start`.
pub fn center_offset(start: u16, extent: u16, content: i32) -> (r: u16)
    requires
        0 <= content,
        content / 2 <= extent / 2,
        centered(start as int, extent as int, content as int) <= u16::MAX,
    ensures
        r == centered(start as int, extent as int, content as int),
{
    (extent / 2 - (content / 2) as u16) + start
}

/// Height of a line of text drawn at `font_size` with a font whose own size
/// is `base_size`: the font is scaled by a whole factor.
pub fn text_block_height(base_size: i32, font_size: i32) -> (r: i32)
    requires
        base_size > 0,
        font_size >= 0,
    ensures
        r == base_size * (font_size / base_size),
        0 <= r <= font_size,
{
    let scale = font_size / base_size;
    proof {
        assert(base_size * (font_size / base_size) <= font_size) by (nonlinear_arith)
            requires
                base_size > 0,
                font_size >= 0,
        ;
        assert(0 <= base_size * (font_size / base_size)) by (nonlinear_arith)
            requires
                base_size > 0,
                font_size >= 0,
        ;
    }
    base_size * scale
}

} // verus!
