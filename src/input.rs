use vstd::prelude::*;
use crate::direction::NEUTRAL;

verus! {

/// Capacity of a buffer made by `InputBuffer::new`.
pub const DEFAULT_CAPACITY: usize = 20;

/// Whether the motion sequence `s` (oldest code first) was entered, in
/// order, within the history `w` (newest code first). Other codes may stand
/// between the codes of `s`.
pub open spec fn entered_within(s: Seq<i32>, w: Seq<i32>) -> bool
    decreases w.len(),
{
    if s.len() == 0 {
        true
    } else if w.len() == 0 {
        false
    } else {
        (w[0] == s.last() && entered_within(s.drop_last(), w.drop_first()))
            || entered_within(s, w.drop_first())
    }
}

/// Number of entries that a lookback of `max_duration` ticks covers in a
/// history of `cap` entries: negative lookbacks cover nothing, long ones are
/// clamped to the whole history.
pub open spec fn window_len(max_duration: int, cap: int) -> int {
    if max_duration < 0 {
        0
    } else if max_duration > cap {
        cap
    } else {
        max_duration
    }
}

/// A fixed-size history of motion codes, newest first. It always holds
/// exactly as many codes as its capacity; a fresh buffer is all neutral.
pub struct InputBuffer {
    inputs: Vec<i32>,
    buffersize: usize,
}

impl View for InputBuffer {
    type V = Seq<i32>;

    closed spec fn view(&self) -> Seq<i32> {
        self.inputs@
    }
}

impl InputBuffer {
    /// The number of codes the buffer holds.
    pub closed spec fn capacity(&self) -> nat {
        self.buffersize as nat
    }

    /// The buffer holds exactly `capacity` codes, and at least one.
    pub closed spec fn wf(&self) -> bool {
        &&& self.buffersize >= 1
        &&& self.inputs@.len() == self.buffersize
    }

    /// The newest `max_duration` codes, newest first (clamped to the buffer).
    pub open spec fn window(&self, max_duration: int) -> Seq<i32> {
        self@.subrange(0, window_len(max_duration, self.capacity() as int))
    }

    /// A buffer of the default capacity, filled with neutral.
    pub fn new() -> (r: Self)
        ensures
            r.wf(),
            r.capacity() == DEFAULT_CAPACITY,
            r@ == Seq::new(DEFAULT_CAPACITY as nat, |i: int| NEUTRAL),
    {
        Self::with_capacity(DEFAULT_CAPACITY)
    }

    /// A buffer of the given capacity, filled with neutral.
    pub fn with_capacity(capacity: usize) -> (r: Self)
        requires
            capacity >= 1,
        ensures
            r.wf(),
            r.capacity() == capacity,
            r@ == Seq::new(capacity as nat, |i: int| NEUTRAL),
    {
        let mut inputs: Vec<i32> = Vec::new();
        let mut i: usize = 0;
        while i < capacity
            invariant
                i <= capacity,
                inputs@ == Seq::new(i as nat, |j: int| NEUTRAL),
            decreases capacity - i,
        {
            inputs.push(NEUTRAL);
            i = i + 1;
        }
        InputBuffer { inputs, buffersize: capacity }
    }

    /// The number of codes the buffer holds.
    pub fn len(&self) -> (r: usize)
        requires
            self.wf(),
        ensures
            r == self@.len(),
            r == self.capacity(),
    {
        self.buffersize
    }

    /// The code at `index`, counted from the newest (index 0).
    pub fn get(&self, index: usize) -> (r: Option<i32>)
        requires
            self.wf(),
        ensures
            index < self@.len() ==> r == Some(self@[index as int]),
            index >= self@.len() ==> r is None,
    {
        if index < self.inputs.len() {
            Some(self.inputs[index])
        } else {
            None
        }
    }

    /// Records the code of this tick: it becomes the newest entry and the
    /// oldest entry is dropped, so the length never changes.
    pub fn new_input(&mut self, input: i32)
        requires
            old(self).wf(),
        ensures
            final(self).wf(),
            final(self).capacity() == old(self).capacity(),
            final(self)@.len() == final(self).capacity(),
            final(self)@ == seq![input] + old(self)@.subrange(0, old(self)@.len() - 1),
    {
        self.inputs.insert(0, input);
        self.inputs.pop();
        proof {
            assert(self.inputs@ =~= seq![input] + old(self)@.subrange(0, old(self)@.len() - 1));
        }
    }

    /// Whether `sequence` (oldest code first) was entered, in order, within
    /// the newest `max_duration` entries; other codes may stand between its
    /// codes. A lookback longer than the buffer covers the whole buffer.
    pub fn check_sequence(&self, sequence: &[i32], max_duration: i32) -> (r: bool)
        requires
            self.wf(),
        ensures
            r == entered_within(sequence@, self.window(max_duration as int)),
    {
        let n: usize = if max_duration < 0 {
            0
        } else if max_duration as usize > self.buffersize {
            self.buffersize
        } else {
            max_duration as usize
        };
        let ghost win = self.window(max_duration as int);
        let mut w: usize = sequence.len();
        let mut i: usize = 0;
        proof {
            assert(sequence@.subrange(0, w as int) =~= sequence@);
            assert(win.subrange(0, n as int) =~= win);
        }
        while i < n
            invariant
                win == self.window(max_duration as int),
                n == win.len(),
                n <= self.inputs@.len(),
                win == self.inputs@.subrange(0, n as int),
                i <= n,
                w <= sequence@.len(),
                entered_within(sequence@, win) == entered_within(
                    sequence@.subrange(0, w as int),
                    win.subrange(i as int, n as int),
                ),
            decreases n - i,
        {
            let ghost s = sequence@.subrange(0, w as int);
            let ghost rest = win.subrange(i as int, n as int);
            if w == 0 {
                assert(entered_within(s, rest));
                return true;
            }
            assert(rest.drop_first() =~= win.subrange(i as int + 1, n as int));
            assert(rest[0] == self.inputs@[i as int]);
            if self.inputs[i] == sequence[w - 1] {
                proof {
                    lemma_entered_greedy(s, rest);
                    assert(s.drop_last() =~= sequence@.subrange(0, w - 1));
                }
                w = w - 1;
            }
            i = i + 1;
        }
        proof {
            assert(win.subrange(n as int, n as int).len() == 0);
        }
        w == 0
    }
}

/// Dropping the newest code of a sequence keeps it entered.
proof fn lemma_entered_drop_last(s: Seq<i32>, w: Seq<i32>)
    requires
        s.len() > 0,
        entered_within(s, w),
    ensures
        entered_within(s.drop_last(), w),
    decreases w.len(),
{
    if s.drop_last().len() > 0 && w.len() > 0 {
        if w[0] == s.last() && entered_within(s.drop_last(), w.drop_first()) {
        } else {
            lemma_entered_drop_last(s, w.drop_first());
        }
    }
}

/// Matching the newest code of the history against the sequence's last code
/// whenever they agree never loses a match.
proof fn lemma_entered_greedy(s: Seq<i32>, w: Seq<i32>)
    requires
        s.len() > 0,
        w.len() > 0,
        w[0] == s.last(),
    ensures
        entered_within(s, w) == entered_within(s.drop_last(), w.drop_first()),
{
    if entered_within(s, w.drop_first()) {
        lemma_entered_drop_last(s, w.drop_first());
    }
}

/// Every buffer holds exactly as many codes as its capacity, after any
/// number of pushes.
pub proof fn lemma_buffer_length(b: InputBuffer)
    requires
        b.wf(),
    ensures
        b@.len() == b.capacity(),
        b.capacity() >= 1,
{
}

} // verus!
