//! Keyboard input with per-frame edge detection.
//!
//! The engine asks three questions about a key: is it down right now, did it
//! go down this frame, did it go up this frame.  The answers come from two
//! snapshots: the current key states and the states as they were when the
//! previous frame ended.  `next_frame` advances the edge detection so that
//! "just pressed" and "just released" reflect only the coming frame.

use vstd::prelude::*;

verus! {

/// The keys the engine reads.
#[derive(Clone, Copy, PartialEq, Eq, Structural, Debug)]
pub enum Key {
    Left,
    Right,
    Up,
    Down,
    W,
    A,
    S,
    D,
    Key1,
    Key2,
    Key3,
    Return,
    Escape,
}

/// Number of distinct keys in `Key`.
pub const KEY_COUNT: usize = 13;

/// Position of a key in the state tables.
pub open spec fn key_index(k: Key) -> int {
    match k {
        Key::Left => 0,
        Key::Right => 1,
        Key::Up => 2,
        Key::Down => 3,
        Key::W => 4,
        Key::A => 5,
        Key::S => 6,
        Key::D => 7,
        Key::Key1 => 8,
        Key::Key2 => 9,
        Key::Key3 => 10,
        Key::Return => 11,
        Key::Escape => 12,
    }
}

/// The model of an input state: current key states and the states at the end
/// of the previous frame.
pub struct InputModel {
    pub now: Seq<bool>,
    pub prev: Seq<bool>,
}

/// The key is down right now.
pub open spec fn key_down(m: InputModel, k: Key) -> bool {
    m.now[key_index(k)]
}

/// The key went down this frame.
pub open spec fn key_pressed(m: InputModel, k: Key) -> bool {
    m.now[key_index(k)] && !m.prev[key_index(k)]
}

/// The key went up this frame.
pub open spec fn key_released(m: InputModel, k: Key) -> bool {
    !m.now[key_index(k)] && m.prev[key_index(k)]
}

/// Keyboard state with one entry per `Key` in both tables.
pub struct Input {
    pub now: Vec<bool>,
    pub prev: Vec<bool>,
}

impl View for Input {
    type V = InputModel;

    open spec fn view(&self) -> InputModel {
        InputModel { now: self.now@, prev: self.prev@ }
    }
}

impl Input {
    /// Both state tables cover every key.
    pub open spec fn wf(&self) -> bool {
        self@.now.len() == KEY_COUNT && self@.prev.len() == KEY_COUNT
    }

    /// All keys up, no edges pending.
    pub fn new() -> (r: Input)
        ensures
            r.wf(),
            forall|k: Key| !(#[trigger] r@.now[key_index(k)]),
            forall|k: Key| !(#[trigger] r@.prev[key_index(k)]),
    {
        let mut now: Vec<bool> = Vec::new();
        let mut i: usize = 0;
        while i < KEY_COUNT
            invariant
                now@.len() == i,
                i <= KEY_COUNT,
                forall|j: int| 0 <= j < i ==> !(#[trigger] now@[j]),
            decreases KEY_COUNT - i,
        {
            now.push(false);
            i = i + 1;
        }
        let prev: Vec<bool> = now.clone();
        Input { now, prev }
    }

    fn index_of(k: Key) -> (i: usize)
        ensures
            i == key_index(k),
            i < KEY_COUNT,
    {
        match k {
            Key::Left => 0,
            Key::Right => 1,
            Key::Up => 2,
            Key::Down => 3,
            Key::W => 4,
            Key::A => 5,
            Key::S => 6,
            Key::D => 7,
            Key::Key1 => 8,
            Key::Key2 => 9,
            Key::Key3 => 10,
            Key::Return => 11,
            Key::Escape => 12,
        }
    }

    /// Records that a key went down (`down == true`) or up, as reported by
    /// the windowing system.
    pub fn handle_key_event(&mut self, k: Key, down: bool)
        requires
            old(self).wf(),
        ensures
            final(self).wf(),
            final(self)@.now == old(self)@.now.update(key_index(k), down),
            final(self)@.prev == old(self)@.prev,
    {
        let i: usize = Self::index_of(k);
        self.now.set(i, down);
    }

    /// Is the key down right now?
    pub fn is_key_down(&self, k: Key) -> (r: bool)
        requires
            self.wf(),
        ensures
            r == key_down(self@, k),
    {
        let i: usize = Self::index_of(k);
        self.now[i]
    }

    /// Did the key go down this frame?
    pub fn is_key_pressed(&self, k: Key) -> (r: bool)
        requires
            self.wf(),
        ensures
            r == key_pressed(self@, k),
    {
        let i: usize = Self::index_of(k);
        self.now[i] && !self.prev[i]
    }

    /// Did the key go up this frame?
    pub fn is_key_released(&self, k: Key) -> (r: bool)
        requires
            self.wf(),
        ensures
            r == key_released(self@, k),
    {
        let i: usize = Self::index_of(k);
        !self.now[i] && self.prev[i]
    }

    /// Ends the frame: from now on "just pressed" and "just released" are
    /// measured against the states as they are at this moment.
    pub fn next_frame(&mut self)
        requires
            old(self).wf(),
        ensures
            final(self).wf(),
            final(self)@.now == old(self)@.now,
            final(self)@.prev == old(self)@.now,
    {
        self.prev = self.now.clone();
    }
}

} // verus!
