//! Logical input actions, their per-frame edge detection, and the way a
//! frame's input events change them.

use vstd::prelude::*;

verus! {

/// One logical input action, remembered over two consecutive frames.
#[derive(Clone, Copy, Debug, PartialEq, Eq, Structural)]
pub struct Control {
    pub last_frame: bool,
    pub this_frame: bool,
}

impl Control {
    /// The action is held during the current frame.
    pub fn down(&self) -> (held: bool)
        ensures
            held == self.this_frame,
    {
        self.this_frame
    }

    /// The action is not held during the current frame.
    pub fn up(&self) -> (released: bool)
        ensures
            released == !self.this_frame,
    {
        !self.this_frame
    }

    /// The action went from released to held between the previous frame and
    /// this one.
    pub fn just_down(&self) -> (pressed: bool)
        ensures
            pressed == (self.this_frame && !self.last_frame),
    {
        self.this_frame && !self.last_frame
    }

    /// The action went from held to released between the previous frame and
    /// this one.
    pub fn just_up(&self) -> (let_go: bool)
        ensures
            let_go == (!self.this_frame && self.last_frame),
    {
        !self.this_frame && self.last_frame
    }

    /// The control at the start of the next frame: what was current becomes
    /// previous, and the level carries over until an event changes it.
    pub open spec fn advanced(self) -> Control {
        Control { last_frame: self.this_frame, this_frame: self.this_frame }
    }

    /// The control with its current level replaced.
    pub open spec fn with_level(self, held: bool) -> Control {
        Control { last_frame: self.last_frame, this_frame: held }
    }

    /// Moves to the next frame.
    pub fn advance(&mut self)
        ensures
            *final(self) == old(self).advanced(),
    {
        self.last_frame = self.this_frame;
    }

    /// Records the level that an event reported for the current frame.
    pub fn set_level(&mut self, held: bool)
        ensures
            *final(self) == old(self).with_level(held),
    {
        self.this_frame = held;
    }
}

/// The control after `frames` frames, when frame `k` ends with the level
/// `levels[k]`: each frame first advances the control, then takes its level.
pub open spec fn control_after(start: Control, levels: Seq<bool>, frames: nat) -> Control
    decreases frames,
{
    if frames == 0 {
        start
    } else {
        control_after(start, levels, (frames - 1) as nat).advanced().with_level(
            levels[frames - 1],
        )
    }
}

/// Edge detection is exact: in frame `k`, `just_down` holds exactly when the
/// level is held in frame `k` and was not held in the frame before, and
/// `just_up` exactly when it is released in frame `k` and was held before.
/// For the first frame the level before is that of the starting control.
pub proof fn lemma_edge_trigger(start: Control, levels: Seq<bool>, k: nat)
    requires
        k < levels.len(),
    ensures
        ({
            let before = if k == 0 {
                start.this_frame
            } else {
                levels[k - 1]
            };
            let now = control_after(start, levels, k + 1);
            &&& now.this_frame == levels[k as int]
            &&& now.last_frame == before
            &&& (now.this_frame && !now.last_frame) == (levels[k as int] && !before)
            &&& (!now.this_frame && now.last_frame) == (!levels[k as int] && before)
        }),
{
    reveal_with_fuel(control_after, 3);
}

/// The five logical actions of the game.
#[derive(Clone, Copy, Debug, PartialEq, Eq, Structural)]
pub struct Controls {
    pub up: Control,
    pub down: Control,
    pub left: Control,
    pub right: Control,
    pub debug: Control,
}

/// Names one of the five controls.
#[derive(Clone, Copy, Debug, PartialEq, Eq, Structural)]
pub enum ControlId {
    Up,
    Down,
    Left,
    Right,
    Debug,
}

/// The keys that the runtime tells apart. Every other key is `Other`.
#[derive(Clone, Copy, Debug, PartialEq, Eq, Structural)]
pub enum Key {
    W,
    Up,
    S,
    Down,
    A,
    Left,
    D,
    Right,
    B,
    Escape,
    Other,
}

/// What happened to a key.
#[derive(Clone, Copy, Debug, PartialEq, Eq, Structural)]
pub enum Action {
    Release,
    Press,
    Repeat,
}

/// One event of the window's event source, reduced to what the runtime reads.
#[derive(Clone, Copy, Debug, PartialEq, Eq, Structural)]
pub enum InputEvent {
    Key { key: Key, action: Action },
    Size { width: i32, height: i32 },
    Other,
}

/// What a frame's events ask of the host, beside the control levels.
#[derive(Clone, Copy, Debug, PartialEq, Eq)]
pub struct FrameInput {
    /// Escape was pressed: the window should close.
    pub close_requested: bool,
    /// The size of the last resize among the events, if there was one.
    pub resized: Option<(i32, i32)>,
}

/// The control that a key is bound to, if any.
pub open spec fn bound_control(key: Key) -> Option<ControlId> {
    match key {
        Key::W | Key::Up => Some(ControlId::Up),
        Key::S | Key::Down => Some(ControlId::Down),
        Key::A | Key::Left => Some(ControlId::Left),
        Key::D | Key::Right => Some(ControlId::Right),
        Key::B => Some(ControlId::Debug),
        Key::Escape | Key::Other => None,
    }
}

/// The level that a key action sets, if it sets one: a repeat changes nothing.
pub open spec fn action_level(action: Action) -> Option<bool> {
    match action {
        Action::Press => Some(true),
        Action::Release => Some(false),
        Action::Repeat => None,
    }
}

/// The event closes the window: Escape going down.
pub open spec fn closes_window(event: InputEvent) -> bool {
    event == (InputEvent::Key { key: Key::Escape, action: Action::Press })
}

/// The size of the last resize among the events.
pub open spec fn last_resize(events: Seq<InputEvent>) -> Option<(i32, i32)>
    decreases events.len(),
{
    if events.len() == 0 {
        None
    } else {
        match events.last() {
            InputEvent::Size { width, height } => Some((width, height)),
            _ => last_resize(events.drop_last()),
        }
    }
}

/// Looks up the control that a key is bound to.
pub fn control_for_key(key: Key) -> (id: Option<ControlId>)
    ensures
        id == bound_control(key),
{
    match key {
        Key::W => Some(ControlId::Up),
        Key::Up => Some(ControlId::Up),
        Key::S => Some(ControlId::Down),
        Key::Down => Some(ControlId::Down),
        Key::A => Some(ControlId::Left),
        Key::Left => Some(ControlId::Left),
        Key::D => Some(ControlId::Right),
        Key::Right => Some(ControlId::Right),
        Key::B => Some(ControlId::Debug),
        _ => None,
    }
}

impl Controls {
    /// All five controls released, in this frame and the one before.
    pub fn new() -> (c: Controls)
        ensures
            c == Controls::released(),
    {
        let idle = Control { last_frame: false, this_frame: false };
        Controls { up: idle, down: idle, left: idle, right: idle, debug: idle }
    }

    /// The controls with nothing held.
    pub open spec fn released() -> Controls {
        let idle = Control { last_frame: false, this_frame: false };
        Controls { up: idle, down: idle, left: idle, right: idle, debug: idle }
    }

    /// The named control.
    pub open spec fn control(self, id: ControlId) -> Control {
        match id {
            ControlId::Up => self.up,
            ControlId::Down => self.down,
            ControlId::Left => self.left,
            ControlId::Right => self.right,
            ControlId::Debug => self.debug,
        }
    }

    /// The controls with the named one replaced.
    pub open spec fn with_control(self, id: ControlId, c: Control) -> Controls {
        match id {
            ControlId::Up => Controls { up: c, ..self },
            ControlId::Down => Controls { down: c, ..self },
            ControlId::Left => Controls { left: c, ..self },
            ControlId::Right => Controls { right: c, ..self },
            ControlId::Debug => Controls { debug: c, ..self },
        }
    }

    /// Every control moved to the next frame.
    pub open spec fn advanced(self) -> Controls {
        Controls {
            up: self.up.advanced(),
            down: self.down.advanced(),
            left: self.left.advanced(),
            right: self.right.advanced(),
            debug: self.debug.advanced(),
        }
    }

    /// The controls after one event. A press or release of a bound key sets
    /// that control's level; every other event leaves the controls alone.
    pub open spec fn after_event(self, event: InputEvent) -> Controls {
        match event {
            InputEvent::Key { key, action } => match (bound_control(key), action_level(action)) {
                (Some(id), Some(held)) => self.with_control(id, self.control(id).with_level(held)),
                _ => self,
            },
            _ => self,
        }
    }

    /// The controls after the events, taken in order.
    pub open spec fn after_events(self, events: Seq<InputEvent>) -> Controls
        decreases events.len(),
    {
        if events.len() == 0 {
            self
        } else {
            self.after_events(events.drop_last()).after_event(events.last())
        }
    }

    /// Reads the named control.
    pub fn get(&self, id: ControlId) -> (c: Control)
        ensures
            c == self.control(id),
    {
        match id {
            ControlId::Up => self.up,
            ControlId::Down => self.down,
            ControlId::Left => self.left,
            ControlId::Right => self.right,
            ControlId::Debug => self.debug,
        }
    }

    /// Replaces the named control.
    pub fn set(&mut self, id: ControlId, c: Control)
        ensures
            *final(self) == old(self).with_control(id, c),
    {
        match id {
            ControlId::Up => {
                self.up = c;
            },
            ControlId::Down => {
                self.down = c;
            },
            ControlId::Left => {
                self.left = c;
            },
            ControlId::Right => {
                self.right = c;
            },
            ControlId::Debug => {
                self.debug = c;
            },
        }
    }

    /// The five controls, open to change, in the order up, down, left, right,
    /// debug. What is written through a reference ends up in the control it
    /// stands for.
    pub fn iter_mut(&mut self) -> (all: Vec<&mut Control>)
        ensures
            all@.len() == 5,
            *all@[0] == old(self).up,
            *all@[1] == old(self).down,
            *all@[2] == old(self).left,
            *all@[3] == old(self).right,
            *all@[4] == old(self).debug,
            final(self).up == *final(all@[0]),
            final(self).down == *final(all@[1]),
            final(self).left == *final(all@[2]),
            final(self).right == *final(all@[3]),
            final(self).debug == *final(all@[4]),
    {
        let mut all: Vec<&mut Control> = Vec::new();
        all.push(&mut self.up);
        all.push(&mut self.down);
        all.push(&mut self.left);
        all.push(&mut self.right);
        all.push(&mut self.debug);
        all
    }

    /// Starts a frame: every control's current level becomes its previous one.
    pub fn advance(&mut self)
        ensures
            *final(self) == old(self).advanced(),
    {
        self.up.advance();
        self.down.advance();
        self.left.advance();
        self.right.advance();
        self.debug.advance();
    }

    /// Applies one event to the controls.
    pub fn handle_event(&mut self, event: InputEvent)
        ensures
            *final(self) == old(self).after_event(event),
    {
        if let InputEvent::Key { key, action } = event {
            if let Some(id) = control_for_key(key) {
                let mut c = self.get(id);
                match action {
                    Action::Press => {
                        c.set_level(true);
                        self.set(id, c);
                    },
                    Action::Release => {
                        c.set_level(false);
                        self.set(id, c);
                    },
                    Action::Repeat => {},
                }
            }
        }
    }

    /// Drains a frame's events in order. The controls take every press and
    /// release of a bound key; the result says whether Escape was pressed and
    /// what the last resize was. Events of no interest are passed over and do
    /// not stop the drain.
    pub fn handle_events(&mut self, events: &Vec<InputEvent>) -> (input: FrameInput)
        ensures
            *final(self) == old(self).after_events(events@),
            input.close_requested == (exists|i: int|
                0 <= i < events@.len() && closes_window(#[trigger] events@[i])),
            input.resized == last_resize(events@),
    {
        let mut close_requested = false;
        let mut resized: Option<(i32, i32)> = None;
        let mut i: usize = 0;
        while i < events.len()
            invariant
                i <= events.len(),
                *self == old(self).after_events(events@.take(i as int)),
                close_requested == (exists|j: int|
                    0 <= j < i && closes_window(#[trigger] events@[j])),
                resized == last_resize(events@.take(i as int)),
            decreases events.len() - i,
        {
            let event = events[i];
            proof {
                let next = events@.take(i + 1);
                assert(next.drop_last() == events@.take(i as int));
                assert(next.last() == event);
            }
            self.handle_event(event);
            match event {
                InputEvent::Key { key: Key::Escape, action: Action::Press } => {
                    close_requested = true;
                },
                InputEvent::Size { width, height } => {
                    resized = Some((width, height));
                },
                _ => {},
            }
            i += 1;
        }
        proof {
            assert(events@.take(i as int) == events@);
        }
        FrameInput { close_requested, resized }
    }
}

} // verus!
