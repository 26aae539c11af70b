//! Combat-timing core of a 2D fighting game: directional input decoding,
//! a fixed-size history of motion codes with gap-tolerant sequence matching,
//! and the frame-exact startup / active / recovery lifecycle of an attack,
//! plus the layout of the menu screens.

pub mod attack;
pub mod direction;
pub mod input;
pub mod instance;
pub mod ui;

pub use attack::{AttackState, AttackType, FrameData, HitBox};
pub use direction::{
    InputKeys, Point, NEUTRAL, inputs_to_numpad, key_to_direction, numpad_to_point,
    point_to_numpad,
};
pub use input::{InputBuffer, DEFAULT_CAPACITY};
pub use instance::Attack;
pub use ui::{ArrowSelector, Button, GameState, UiScene, center_offset, text_block_height};
