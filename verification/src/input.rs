//! The input event protocol: button state, UI events, and the per-frame
//! resolution of events into gamepad mutations or control commands.

use vstd::prelude::*;

verus! {

/// Eight independent button flags of one gamepad.
#[derive(Clone, Copy, PartialEq, Eq, Structural, Debug)]
pub struct GamepadState {
    pub up: bool,
    pub down: bool,
    pub left: bool,
    pub right: bool,
    pub a: bool,
    pub b: bool,
    pub start: bool,
    pub select: bool,
}

/// The gamepad with every button released.
pub open spec fn gamepad_released() -> GamepadState {
    GamepadState {
        up: false,
        down: false,
        left: false,
        right: false,
        a: false,
        b: false,
        start: false,
        select: false,
    }
}

impl GamepadState {
    /// A gamepad with every button released.
    pub fn new() -> (g: GamepadState)
        ensures
            g == gamepad_released(),
    {
        GamepadState {
            up: false,
            down: false,
            left: false,
            right: false,
            a: false,
            b: false,
            start: false,
            select: false,
        }
    }
}

/// What a UI event refers to: one of the eight buttons, or a control command.
#[derive(Clone, Copy, PartialEq, Eq, Structural, Debug)]
pub enum EventType {
    Up,
    Down,
    Left,
    Right,
    A,
    B,
    Start,
    Select,
    Quit,
    Save,
    Load,
}

/// One discrete UI event: a button or control identifier plus whether it was
/// activated (pressed) or released.
#[derive(Clone, Copy, PartialEq, Eq, Structural, Debug)]
pub struct InputEvent {
    pub event_type: EventType,
    pub active: bool,
}

/// The outcome of resolving events: carry on, or one of the three control
/// commands surfaced to the host.
#[derive(Clone, Copy, PartialEq, Eq, Structural, Debug)]
pub enum InputResult {
    Continue,
    Quit,
    SaveState,
    LoadState,
}

/// Whether an event type is a control command (quit/save/load) rather than a
/// button.
pub open spec fn is_control(t: EventType) -> bool {
    match t {
        EventType::Quit => true,
        EventType::Save => true,
        EventType::Load => true,
        _ => false,
    }
}

/// The control command that a control-class event type resolves to.
pub open spec fn control_result(t: EventType) -> InputResult
    recommends
        is_control(t),
{
    match t {
        EventType::Quit => InputResult::Quit,
        EventType::Save => InputResult::SaveState,
        EventType::Load => InputResult::LoadState,
        _ => InputResult::Continue,
    }
}

/// The gamepad after one event: a button-class event sets the matching flag to
/// the event's `active`; a control-class event leaves every flag unchanged.
pub open spec fn apply_event(g: GamepadState, ev: InputEvent) -> GamepadState {
    match ev.event_type {
        EventType::Up => GamepadState { up: ev.active, ..g },
        EventType::Down => GamepadState { down: ev.active, ..g },
        EventType::Left => GamepadState { left: ev.active, ..g },
        EventType::Right => GamepadState { right: ev.active, ..g },
        EventType::A => GamepadState { a: ev.active, ..g },
        EventType::B => GamepadState { b: ev.active, ..g },
        EventType::Start => GamepadState { start: ev.active, ..g },
        EventType::Select => GamepadState { select: ev.active, ..g },
        _ => g,
    }
}

/// The result of resolving one event: the matching control command for a
/// control-class event, `Continue` for a button-class event.
pub open spec fn event_result(ev: InputEvent) -> InputResult {
    if is_control(ev.event_type) {
        control_result(ev.event_type)
    } else {
        InputResult::Continue
    }
}

/// Applying the same event twice is a no-op after the first application: the
/// flag is simply set to the same value again, and control events touch
/// nothing at all.
pub proof fn lemma_apply_event_idempotent(g: GamepadState, ev: InputEvent)
    ensures
        apply_event(apply_event(g, ev), ev) == apply_event(g, ev),
{
}

/// A control-class event never alters the gamepad.
pub proof fn lemma_control_preserves_gamepad(g: GamepadState, ev: InputEvent)
    requires
        is_control(ev.event_type),
    ensures
        apply_event(g, ev) == g,
{
}

/// The host keyboard keys the shell binds; every other key is `Other` and
/// maps to nothing.
#[derive(Clone, Copy, PartialEq, Eq, Structural, Debug)]
pub enum HostKey {
    Left,
    Down,
    Up,
    Right,
    Z,
    X,
    RShift,
    Return,
    S,
    L,
    Other,
}

/// The button a host key is bound to, if any.
pub open spec fn key_binding(key: HostKey) -> Option<EventType> {
    match key {
        HostKey::Left => Some(EventType::Left),
        HostKey::Down => Some(EventType::Down),
        HostKey::Up => Some(EventType::Up),
        HostKey::Right => Some(EventType::Right),
        HostKey::Z => Some(EventType::A),
        HostKey::X => Some(EventType::B),
        HostKey::RShift => Some(EventType::Start),
        HostKey::Return => Some(EventType::Select),
        _ => None,
    }
}

/// The whole keyboard policy: a press of the save or load key yields its
/// control event, a press or release of a bound key yields the button event
/// with the key's direction, and anything else yields nothing.
pub open spec fn key_policy(key: HostKey, down: bool) -> Option<InputEvent> {
    if down && key == HostKey::S {
        Some(InputEvent { event_type: EventType::Save, active: true })
    } else if down && key == HostKey::L {
        Some(InputEvent { event_type: EventType::Load, active: true })
    } else {
        match key_binding(key) {
            Some(t) => Some(InputEvent { event_type: t, active: down }),
            None => None,
        }
    }
}

/// Turns one key press or release into the button event it is bound to.
pub fn handle_gamepad_event(key: HostKey, down: bool) -> (r: Option<InputEvent>)
    ensures
        r == (match key_binding(key) {
            Some(t) => Some(InputEvent { event_type: t, active: down }),
            None => None::<InputEvent>,
        }),
{
    let event_type = match key {
        HostKey::Left => EventType::Left,
        HostKey::Down => EventType::Down,
        HostKey::Up => EventType::Up,
        HostKey::Right => EventType::Right,
        HostKey::Z => EventType::A,
        HostKey::X => EventType::B,
        HostKey::RShift => EventType::Start,
        HostKey::Return => EventType::Select,
        _ => { return None },
    };
    Some(InputEvent { event_type, active: down })
}

/// Turns one key press or release into the event the shell feeds the
/// emulator, save/load presses included.
pub fn resolve_key(key: HostKey, down: bool) -> (r: Option<InputEvent>)
    ensures
        r == key_policy(key, down),
{
    if down && matches!(key, HostKey::S) {
        Some(InputEvent { event_type: EventType::Save, active: true })
    } else if down && matches!(key, HostKey::L) {
        Some(InputEvent { event_type: EventType::Load, active: true })
    } else {
        handle_gamepad_event(key, down)
    }
}

/// The gamepad after draining a queue of events in arrival order: each
/// button-class event sets its flag, control-class events touch nothing.
pub open spec fn drain_gamepad(g: GamepadState, evs: Seq<InputEvent>) -> GamepadState
    decreases evs.len(),
{
    if evs.len() == 0 {
        g
    } else {
        apply_event(drain_gamepad(g, evs.drop_last()), evs.last())
    }
}

/// The single control command a drain yields: that of the last control-class
/// event in the queue, or `Continue` if the queue holds none. Earlier control
/// events in the same drain are deliberately discarded (last-wins policy).
pub open spec fn drain_result(evs: Seq<InputEvent>) -> InputResult
    decreases evs.len(),
{
    if evs.len() == 0 {
        InputResult::Continue
    } else if is_control(evs.last().event_type) {
        control_result(evs.last().event_type)
    } else {
        drain_result(evs.drop_last())
    }
}

/// Control-class events contribute nothing to the drained gamepad: draining a
/// queue moves the gamepad exactly as draining only its button-class events,
/// in the same arrival order, would.
pub proof fn lemma_drain_ignores_controls(g: GamepadState, evs: Seq<InputEvent>)
    ensures
        drain_gamepad(g, evs) == drain_gamepad(
            g,
            evs.filter(|e: InputEvent| !is_control(e.event_type)),
        ),
    decreases evs.len(),
{
    reveal(Seq::filter);
    let buttons = |e: InputEvent| !is_control(e.event_type);
    if evs.len() > 0 {
        lemma_drain_ignores_controls(g, evs.drop_last());
        if buttons(evs.last()) {
            assert(evs.filter(buttons) == evs.drop_last().filter(buttons).push(evs.last()));
            let fr = evs.drop_last().filter(buttons);
            assert(fr.push(evs.last()).drop_last() =~= fr);
        } else {
            lemma_control_preserves_gamepad(drain_gamepad(g, evs.drop_last()), evs.last());
        }
    }
}

/// The drain policy in full: a queue without control-class events yields
/// `Continue`, and a queue whose last control-class event stands at index `i`
/// yields exactly that event's command.
pub proof fn lemma_drain_policy(evs: Seq<InputEvent>, i: int)
    ensures
        (forall|j: int| 0 <= j < evs.len() ==> !is_control(evs[j].event_type)) ==> drain_result(
            evs,
        ) == InputResult::Continue,
        (0 <= i < evs.len() && is_control(evs[i].event_type) && (forall|j: int|
            i < j < evs.len() ==> !is_control(evs[j].event_type))) ==> drain_result(evs)
            == control_result(evs[i].event_type),
    decreases evs.len(),
{
    if evs.len() > 0 && !is_control(evs.last().event_type) {
        lemma_drain_policy(evs.drop_last(), i);
    }
}

/// Owns the gamepad state and the pending-event boundary. In the synchronous
/// shape the host resolves each event the instant it arrives with
/// [`Input::handle_event`]; in the buffered shape it queues events with
/// [`Input::queue_event`] and drains them once per frame with
/// [`Input::check_input`].
pub struct Input {
    pub gamepad_0: GamepadState,
    pub pending: Vec<InputEvent>,
}

impl Input {
    /// A fresh input boundary: all buttons released, no pending events.
    pub fn new() -> (inp: Input)
        ensures
            inp.gamepad_0 == gamepad_released(),
            inp.pending@ =~= Seq::<InputEvent>::empty(),
    {
        Input { gamepad_0: GamepadState::new(), pending: Vec::new() }
    }

    /// Resolves one event immediately: a button-class event mutates the
    /// gamepad and yields `Continue`; a control-class event yields its
    /// command and never mutates the gamepad. The pending queue is untouched.
    pub fn handle_event(&mut self, ev: InputEvent) -> (r: InputResult)
        ensures
            final(self).gamepad_0 == apply_event(old(self).gamepad_0, ev),
            final(self).pending@ == old(self).pending@,
            r == event_result(ev),
            is_control(ev.event_type) ==> final(self).gamepad_0 == old(self).gamepad_0,
    {
        match ev.event_type {
            EventType::Up => self.gamepad_0.up = ev.active,
            EventType::Down => self.gamepad_0.down = ev.active,
            EventType::Left => self.gamepad_0.left = ev.active,
            EventType::Right => self.gamepad_0.right = ev.active,
            EventType::A => self.gamepad_0.a = ev.active,
            EventType::B => self.gamepad_0.b = ev.active,
            EventType::Start => self.gamepad_0.start = ev.active,
            EventType::Select => self.gamepad_0.select = ev.active,
            EventType::Quit => return InputResult::Quit,
            EventType::Save => return InputResult::SaveState,
            EventType::Load => return InputResult::LoadState,
        }
        InputResult::Continue
    }

    /// Buffers one event from the producer side; nothing is resolved yet.
    pub fn queue_event(&mut self, ev: InputEvent)
        ensures
            final(self).pending@ == old(self).pending@.push(ev),
            final(self).gamepad_0 == old(self).gamepad_0,
    {
        self.pending.push(ev);
    }

    /// Drains every pending event at the per-frame consumption point:
    /// button-class events mutate the gamepad in arrival order, and the
    /// returned result is the command of the last control-class event seen,
    /// or `Continue` if none was queued. An empty queue is not an error.
    pub fn check_input(&mut self) -> (r: InputResult)
        ensures
            final(self).pending@ =~= Seq::<InputEvent>::empty(),
            final(self).gamepad_0 == drain_gamepad(old(self).gamepad_0, old(self).pending@),
            r == drain_result(old(self).pending@),
    {
        let ghost evs = self.pending@;
        let mut result = InputResult::Continue;
        let n = self.pending.len();
        let mut i: usize = 0;
        while i < n
            invariant
                n == evs.len(),
                i <= n,
                self.pending@ == evs,
                self.gamepad_0 == drain_gamepad(old(self).gamepad_0, evs.take(i as int)),
                result == drain_result(evs.take(i as int)),
            decreases n - i,
        {
            let ev = self.pending[i];
            proof {
                assert(evs.take(i + 1).drop_last() =~= evs.take(i as int));
                assert(evs.take(i + 1).last() == ev);
            }
            match self.handle_event(ev) {
                InputResult::Continue => {},
                ctrl => result = ctrl,
            }
            i = i + 1;
        }
        proof {
            assert(evs.take(n as int) =~= evs);
        }
        self.pending.clear();
        result
    }
}

} // verus!
