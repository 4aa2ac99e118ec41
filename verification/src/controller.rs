//! The key-press engine.
//!
//! The controller owns the calibration, the last position reported, the key
//! that is held and the numpad flag. It never touches a device: a touch makes
//! it name the next [`Action`], and [`Controller::on_reply`] tells it how that
//! action went. Only then does it move on, so that the flag and the held key
//! always mirror what the hardware and the virtual keyboard have taken.

use vstd::prelude::*;
use crate::geometry::Geometry;
use crate::keys::{Key, KeyEvent};
use crate::session::SessionError;

verus! {

/// Address of the touchpad controller on the bus.
pub const BUS_ADDRESS: u16 = 0x15;

/// The message that switches the numpad mode of the hardware on or off.
pub open spec fn mode_payload(enable: bool) -> Seq<u8> {
    seq![
        0x05u8,
        0x00u8,
        0x3du8,
        0x03u8,
        0x06u8,
        0x00u8,
        0x07u8,
        0x00u8,
        0x0du8,
        0x14u8,
        0x03u8,
        if enable { 0x01u8 } else { 0x00u8 },
        0xadu8,
    ]
}

/// The thirteen bytes that switch the numpad mode of the hardware on or off.
pub fn mode_command(enable: bool) -> (payload: Vec<u8>)
    ensures
        payload@ == mode_payload(enable),
{
    let flag: u8 = if enable { 0x01 } else { 0x00 };
    let payload = vec![0x05, 0x00, 0x3d, 0x03, 0x06, 0x00, 0x07, 0x00, 0x0d, 0x14, 0x03, flag, 0xad];
    assert(payload@ =~= mode_payload(enable));
    payload
}

/// Events that go to the virtual keyboard in one write.
#[derive(Clone, Copy, Debug, PartialEq, Eq, Structural)]
pub enum Burst {
    /// The NumLock indicator: down when the numpad goes on, up when it goes
    /// off.
    Indicator(bool),
    /// The shortcut key, down and up again within the burst.
    Shortcut,
    /// A key of the grid goes down.
    Press(Key),
    /// The held key comes up.
    Release(Key),
}

impl Burst {
    /// The events of the burst, in the order in which they are written.
    pub open spec fn events(self) -> Seq<KeyEvent> {
        match self {
            Burst::Indicator(on) => if on {
                seq![KeyEvent::Down(Key::NumLock)]
            } else {
                seq![KeyEvent::Up(Key::NumLock)]
            },
            Burst::Shortcut => seq![
                KeyEvent::Down(Key::Calc),
                KeyEvent::Sync,
                KeyEvent::Up(Key::Calc),
            ],
            Burst::Press(key) => if key.shifted() {
                seq![KeyEvent::Down(Key::LeftShift), KeyEvent::Down(key)]
            } else {
                seq![KeyEvent::Down(key)]
            },
            Burst::Release(key) => if key.shifted() {
                seq![KeyEvent::Up(key), KeyEvent::Up(Key::LeftShift)]
            } else {
                seq![KeyEvent::Up(key)]
            },
        }
    }

    /// The events of the burst, in the order in which they are written.
    pub fn to_events(&self) -> (events: Vec<KeyEvent>)
        ensures
            events@ == self.events(),
    {
        let events = match *self {
            Burst::Indicator(on) => if on {
                vec![KeyEvent::Down(Key::NumLock)]
            } else {
                vec![KeyEvent::Up(Key::NumLock)]
            },
            Burst::Shortcut => vec![
                KeyEvent::Down(Key::Calc),
                KeyEvent::Sync,
                KeyEvent::Up(Key::Calc),
            ],
            Burst::Press(key) => if key.needs_shift() {
                vec![KeyEvent::Down(Key::LeftShift), KeyEvent::Down(key)]
            } else {
                vec![KeyEvent::Down(key)]
            },
            Burst::Release(key) => if key.needs_shift() {
                vec![KeyEvent::Up(key), KeyEvent::Up(Key::LeftShift)]
            } else {
                vec![KeyEvent::Up(key)]
            },
        };
        assert(events@ =~= self.events());
        events
    }
}

/// What the controller asks to be done next.
#[derive(Clone, Copy, Debug, PartialEq, Eq, Structural)]
pub enum Action {
    /// Write [`mode_command`] of the flag to the bus.
    Switch(bool),
    /// Write the events of the burst to the virtual keyboard.
    Emit(Burst),
}

/// How the last action went.
#[derive(Clone, Copy, Debug, PartialEq, Eq, Structural)]
pub enum Reply {
    /// The bus transfer returned, reporting this many messages transferred.
    Transferred(u32),
    /// The virtual keyboard took the burst.
    Emitted,
    /// The write failed.
    Failed,
}

/// The action that is under way, if any.
#[derive(Clone, Copy, Debug, PartialEq, Eq, Structural)]
pub enum Stage {
    /// Nothing is under way.
    Idle,
    /// The numpad goes on: the bus has been written to.
    Enabling,
    /// The numpad goes on: the bus has acknowledged, the indicator is being
    /// lit.
    EnableShown,
    /// The numpad goes off: the indicator is being put out.
    DisableShown,
    /// The numpad goes off: the indicator is out, the bus has been written
    /// to.
    Disabling,
    /// The shortcut burst is being written.
    Shortcut,
    /// The key is being pressed.
    Pressing(Key),
    /// The held key is being released.
    Releasing,
}

/// An event of the touchpad, as far as the keypad reads it.
#[derive(Clone, Copy, Debug, PartialEq, Eq, Structural)]
pub enum TouchEvent {
    /// The finger tool, with the value reported: 1 as the finger lands, 0 as
    /// it lifts.
    Finger(i32),
    /// The horizontal position of the touch.
    PositionX(i32),
    /// The vertical position of the touch.
    PositionY(i32),
    /// Anything else.
    Other,
}

/// The key-press engine.
#[derive(Clone, Copy, Debug, PartialEq, Eq, Structural)]
pub struct Controller {
    /// Calibration of the pad and margins of the grid.
    pub geometry: Geometry,
    /// Last horizontal position reported.
    pub x: i32,
    /// Last vertical position reported.
    pub y: i32,
    /// The key that has gone down on the virtual keyboard and not come up
    /// yet.
    pub held: Option<Key>,
    /// Whether the hardware is in numpad mode, as last acknowledged.
    pub numlock: bool,
    /// The action under way.
    pub stage: Stage,
}

impl Controller {
    /// What holds of every controller that a session can reach: a key is
    /// held only while the numpad is on, and the action under way fits the
    /// flag and the held key. At rest this leaves three states: numpad off,
    /// numpad on, and numpad on with a key held.
    pub open spec fn consistent(self) -> bool {
        &&& self.held is Some ==> self.numlock
        &&& match self.stage {
            Stage::Idle => true,
            Stage::Enabling | Stage::EnableShown => !self.numlock && self.held is None,
            Stage::DisableShown | Stage::Disabling => self.numlock && self.held is None,
            Stage::Shortcut => self.held is None,
            Stage::Pressing(_) => self.numlock && self.held is None,
            Stage::Releasing => self.held is Some,
        }
    }

    /// The controller at rest: no action under way.
    pub open spec fn settled(self) -> Controller {
        Controller { stage: Stage::Idle, ..self }
    }

    /// The controller with an action under way.
    pub open spec fn during(self, stage: Stage) -> Controller {
        Controller { stage, ..self }
    }

    /// A finger lands.
    ///
    /// Nothing happens while an action is under way or a key is held. Else
    /// the toggle zone starts to flip the numpad mode, the shortcut zone
    /// fires the shortcut, and with the numpad on the key under the finger,
    /// if there is one, starts to go down.
    pub open spec fn touch_down(self) -> (Controller, Option<Action>) {
        if self.stage != Stage::Idle || self.held is Some {
            (self, None)
        } else if self.geometry.in_toggle_zone(self.x as int, self.y as int) {
            if self.numlock {
                (self.during(Stage::DisableShown), Some(Action::Emit(Burst::Indicator(false))))
            } else {
                (self.during(Stage::Enabling), Some(Action::Switch(true)))
            }
        } else if self.geometry.in_shortcut_zone(self.x as int, self.y as int) {
            (self.during(Stage::Shortcut), Some(Action::Emit(Burst::Shortcut)))
        } else if self.numlock {
            match self.geometry.key_of(self.x as int, self.y as int) {
                Some(key) => (
                    self.during(Stage::Pressing(key)),
                    Some(Action::Emit(Burst::Press(key))),
                ),
                None => (self, None),
            }
        } else {
            (self, None)
        }
    }

    /// The finger lifts: the held key, if there is one and nothing is under
    /// way, starts to come up.
    pub open spec fn touch_up(self) -> (Controller, Option<Action>) {
        if self.stage != Stage::Idle {
            (self, None)
        } else {
            match self.held {
                Some(key) => (
                    self.during(Stage::Releasing),
                    Some(Action::Emit(Burst::Release(key))),
                ),
                None => (self, None),
            }
        }
    }

    /// The position moves.
    pub open spec fn moved_to(self, x: i32, y: i32) -> Controller {
        Controller { x, y, ..self }
    }

    /// One event of the touchpad.
    pub open spec fn apply(self, event: TouchEvent) -> (Controller, Option<Action>) {
        match event {
            TouchEvent::Finger(value) => if value == 0 {
                self.touch_up()
            } else if value == 1 {
                self.touch_down()
            } else {
                (self, None)
            },
            TouchEvent::PositionX(x) => (self.moved_to(x, self.y), None),
            TouchEvent::PositionY(y) => (self.moved_to(self.x, y), None),
            TouchEvent::Other => (self, None),
        }
    }

    /// The outcome of the action under way.
    ///
    /// A bus write counts only where exactly one message was transferred, a
    /// burst only where it was emitted. Anything else ends the action with an
    /// error and leaves the numpad flag and the held key as they were. The
    /// flag flips once both the bus and the indicator have succeeded; a key
    /// is held once its press has been emitted and until its release has.
    pub open spec fn reply(self, reply: Reply) -> (Controller, Result<Option<Action>, SessionError>) {
        match self.stage {
            Stage::Idle => (self, Ok(None)),
            Stage::Enabling => if reply == Reply::Transferred(1) {
                (self.during(Stage::EnableShown), Ok(Some(Action::Emit(Burst::Indicator(true)))))
            } else {
                (self.settled(), Err(SessionError::HardwareWrite))
            },
            Stage::EnableShown => if reply == Reply::Emitted {
                (Controller { numlock: true, ..self.settled() }, Ok(None))
            } else {
                (self.settled(), Err(SessionError::OutputEmit))
            },
            Stage::DisableShown => if reply == Reply::Emitted {
                (self.during(Stage::Disabling), Ok(Some(Action::Switch(false))))
            } else {
                (self.settled(), Err(SessionError::OutputEmit))
            },
            Stage::Disabling => if reply == Reply::Transferred(1) {
                (Controller { numlock: false, ..self.settled() }, Ok(None))
            } else {
                (self.settled(), Err(SessionError::HardwareWrite))
            },
            Stage::Shortcut => if reply == Reply::Emitted {
                (self.settled(), Ok(None))
            } else {
                (self.settled(), Err(SessionError::OutputEmit))
            },
            Stage::Pressing(key) => if reply == Reply::Emitted {
                (Controller { held: Some(key), ..self.settled() }, Ok(None))
            } else {
                (self.settled(), Err(SessionError::OutputEmit))
            },
            Stage::Releasing => if reply == Reply::Emitted {
                (Controller { held: None, ..self.settled() }, Ok(None))
            } else {
                (self.settled(), Err(SessionError::OutputEmit))
            },
        }
    }

    /// The events of a batch from `start` on, up to and including the first
    /// that asks for an action: the controller after them, the index of the
    /// event to go on with, and the action.
    pub open spec fn run(self, events: Seq<TouchEvent>, start: int) -> (Controller, int, Option<Action>)
        decreases events.len() - start,
    {
        if start < 0 || start >= events.len() {
            (self, start, None)
        } else {
            let (next, action) = self.apply(events[start]);
            if action is Some {
                (next, start + 1, action)
            } else {
                next.run(events, start + 1)
            }
        }
    }

    /// What a session undoes as it ends: the held key comes up, the indicator
    /// goes out, the hardware leaves the numpad mode.
    pub open spec fn cleanup(self) -> Seq<Action> {
        let release = match self.held {
            Some(key) => seq![Action::Emit(Burst::Release(key))],
            None => Seq::<Action>::empty(),
        };
        release + seq![Action::Emit(Burst::Indicator(false)), Action::Switch(false)]
    }

    /// The controller after the cleanup: numpad off, no key held, nothing
    /// under way.
    pub open spec fn cleared(self) -> Controller {
        Controller { held: None, numlock: false, stage: Stage::Idle, ..self }
    }

    /// The controller of a new session: numpad off, no key held, position at
    /// the origin.
    pub fn new(geometry: Geometry) -> (c: Controller)
        ensures
            c == (Controller {
                geometry,
                x: 0,
                y: 0,
                held: None,
                numlock: false,
                stage: Stage::Idle,
            }),
            c.consistent(),
    {
        Controller { geometry, x: 0, y: 0, held: None, numlock: false, stage: Stage::Idle }
    }

    /// Whether no action is under way.
    pub fn idle(&self) -> (b: bool)
        ensures
            b == (self.stage == Stage::Idle),
    {
        self.stage == Stage::Idle
    }

    /// Whether the touchpad is to be captured: it is while the numpad is on.
    pub fn wants_grab(&self) -> (b: bool)
        ensures
            b == self.numlock,
    {
        self.numlock
    }

    /// A finger lands. Returns the action to carry out, if any; its outcome
    /// goes to [`Controller::on_reply`].
    pub fn on_touch_down(&mut self) -> (action: Option<Action>)
        ensures
            (*final(self), action) == old(self).touch_down(),
    {
        if !self.idle() || self.held.is_some() {
            return None;
        }
        if self.geometry.numlock_hit(self.x, self.y) {
            if self.numlock {
                self.stage = Stage::DisableShown;
                Some(Action::Emit(Burst::Indicator(false)))
            } else {
                self.stage = Stage::Enabling;
                Some(Action::Switch(true))
            }
        } else if self.geometry.calculator_hit(self.x, self.y) {
            self.stage = Stage::Shortcut;
            Some(Action::Emit(Burst::Shortcut))
        } else if self.numlock {
            match self.geometry.key_at(self.x, self.y) {
                Some(key) => {
                    self.stage = Stage::Pressing(key);
                    Some(Action::Emit(Burst::Press(key)))
                },
                None => None,
            }
        } else {
            None
        }
    }

    /// The finger lifts. Returns the action to carry out, if any; its outcome
    /// goes to [`Controller::on_reply`].
    pub fn on_touch_up(&mut self) -> (action: Option<Action>)
        ensures
            (*final(self), action) == old(self).touch_up(),
    {
        if !self.idle() {
            return None;
        }
        match self.held {
            Some(key) => {
                self.stage = Stage::Releasing;
                Some(Action::Emit(Burst::Release(key)))
            },
            None => None,
        }
    }

    /// The position moves. Nothing is emitted.
    pub fn on_position_update(&mut self, x: i32, y: i32)
        ensures
            *final(self) == old(self).moved_to(x, y),
    {
        self.x = x;
        self.y = y;
    }

    /// The outcome of the action that was returned last. Returns the next
    /// action of the same touch, `None` where the touch is done, or the error
    /// that ends the session.
    pub fn on_reply(&mut self, reply: Reply) -> (next: Result<Option<Action>, SessionError>)
        ensures
            (*final(self), next) == old(self).reply(reply),
    {
        let stage = self.stage;
        let transferred = reply == Reply::Transferred(1);
        let emitted = reply == Reply::Emitted;
        self.stage = Stage::Idle;
        match stage {
            Stage::Idle => Ok(None),
            Stage::Enabling => if transferred {
                self.stage = Stage::EnableShown;
                Ok(Some(Action::Emit(Burst::Indicator(true))))
            } else {
                Err(SessionError::HardwareWrite)
            },
            Stage::EnableShown => if emitted {
                self.numlock = true;
                Ok(None)
            } else {
                Err(SessionError::OutputEmit)
            },
            Stage::DisableShown => if emitted {
                self.stage = Stage::Disabling;
                Ok(Some(Action::Switch(false)))
            } else {
                Err(SessionError::OutputEmit)
            },
            Stage::Disabling => if transferred {
                self.numlock = false;
                Ok(None)
            } else {
                Err(SessionError::HardwareWrite)
            },
            Stage::Shortcut => if emitted {
                Ok(None)
            } else {
                Err(SessionError::OutputEmit)
            },
            Stage::Pressing(key) => if emitted {
                self.held = Some(key);
                Ok(None)
            } else {
                Err(SessionError::OutputEmit)
            },
            Stage::Releasing => if emitted {
                self.held = None;
                Ok(None)
            } else {
                Err(SessionError::OutputEmit)
            },
        }
    }

    /// Applies the events of a batch in the order of arrival, from `start`
    /// on, and stops behind the first that asks for an action. Returns the
    /// index to go on with once that action is settled, which is the length of
    /// the batch where the batch is done, and the action.
    pub fn on_motion_batch(&mut self, events: &Vec<TouchEvent>, start: usize) -> (r: (
        usize,
        Option<Action>,
    ))
        ensures
            (*final(self), r.0 as int, r.1) == old(self).run(events@, start as int),
            start <= events.len() ==> start <= r.0 <= events.len(),
            r.1 is None && start <= events.len() ==> r.0 == events.len(),
    {
        let mut i: usize = start;
        while i < events.len()
            invariant
                start <= i,
                start < events.len() ==> i <= events.len(),
                old(self).run(events@, start as int) == self.run(events@, i as int),
            decreases events.len() - i,
        {
            let action = match events[i] {
                TouchEvent::Finger(value) => if value == 0 {
                    self.on_touch_up()
                } else if value == 1 {
                    self.on_touch_down()
                } else {
                    None
                },
                TouchEvent::PositionX(x) => {
                    self.x = x;
                    None
                },
                TouchEvent::PositionY(y) => {
                    self.y = y;
                    None
                },
                TouchEvent::Other => None,
            };
            i = i + 1;
            if action.is_some() {
                return (i, action);
            }
        }
        (i, None)
    }

    /// Ends the session: returns what is to be undone, each action to be
    /// tried whether or not the one before it succeeded, and puts the
    /// controller back to its first state.
    pub fn shutdown(&mut self) -> (actions: Vec<Action>)
        ensures
            actions@ == old(self).cleanup(),
            *final(self) == old(self).cleared(),
    {
        let mut actions: Vec<Action> = Vec::new();
        if let Some(key) = self.held {
            actions.push(Action::Emit(Burst::Release(key)));
        }
        actions.push(Action::Emit(Burst::Indicator(false)));
        actions.push(Action::Switch(false));
        self.held = None;
        self.numlock = false;
        self.stage = Stage::Idle;
        assert(actions@ =~= old(self).cleanup());
        actions
    }
}

/// Whether the batch holds no lift of the finger.
pub open spec fn no_touch_up(events: Seq<TouchEvent>) -> bool {
    forall|i: int| 0 <= i < events.len() ==> events[i] != TouchEvent::Finger(0)
}

/// Lifting the finger twice in a row, with no finger landing in between, does
/// nothing the second time, whether the release that the first lift asked for
/// is still under way or has been emitted; and where no key is held and
/// nothing is under way, it does nothing either time.
pub proof fn lemma_touch_up_twice(c: Controller)
    ensures
        ({
            let (c1, first) = c.touch_up();
            c1.touch_up() == (c1, None::<Action>)
        }),
        ({
            let (c1, first) = c.touch_up();
            let (c2, next) = c1.reply(Reply::Emitted);
            first is Some ==> next == Ok::<Option<Action>, SessionError>(None) && c2.held is None
                && c2.touch_up() == (c2, None::<Action>)
        }),
        c.held is None ==> c.touch_up() == (c, None::<Action>),
{
}

/// While a key is held, a finger that lands is ignored.
pub proof fn lemma_touch_down_ignored_while_held(c: Controller)
    requires
        c.held is Some,
    ensures
        c.touch_down() == (c, None::<Action>),
{
}

/// At most one key is held: where a touch presses a key, every further
/// landing is ignored, while the press is under way and once it has been
/// emitted, and the key pressed is the one held.
pub proof fn lemma_first_touch_down_wins(c: Controller, key: Key)
    requires
        c.touch_down().1 == Some(Action::Emit(Burst::Press(key))),
    ensures
        ({
            let c1 = c.touch_down().0;
            let (c2, next) = c1.reply(Reply::Emitted);
            &&& c.held is None
            &&& c1.touch_down() == (c1, None::<Action>)
            &&& next == Ok::<Option<Action>, SessionError>(None)
            &&& c2.held == Some(key)
            &&& c2.touch_down() == (c2, None::<Action>)
        }),
{
}

/// While a key is held and nothing is under way, a batch without a lift of
/// the finger asks for no action, whatever else it holds, and leaves the key
/// held and the numpad flag as they were.
pub proof fn lemma_one_key_at_a_time(c: Controller, events: Seq<TouchEvent>, start: int)
    requires
        c.held is Some,
        c.stage == Stage::Idle,
        no_touch_up(events),
        0 <= start <= events.len(),
    ensures
        ({
            let (after, next, action) = c.run(events, start);
            &&& action is None
            &&& next == events.len()
            &&& after.held == c.held
            &&& after.numlock == c.numlock
            &&& after.stage == Stage::Idle
        }),
    decreases events.len() - start,
{
    if start < events.len() {
        let (next, action) = c.apply(events[start]);
        assert(events[start] != TouchEvent::Finger(0));
        lemma_one_key_at_a_time(next, events, start + 1);
    }
}

/// A landing in the toggle zone with the numpad off switches it on, once:
/// the bus is written to, then the indicator is lit, then the flag is set.
/// A bus write that did not transfer exactly one message, or an indicator
/// that was not emitted, ends in an error with the controller as it was
/// before the touch.
pub proof fn lemma_toggle_on(c: Controller)
    requires
        c.stage == Stage::Idle,
        c.held is None,
        !c.numlock,
        c.geometry.in_toggle_zone(c.x as int, c.y as int),
    ensures
        c.touch_down() == (c.during(Stage::Enabling), Some(Action::Switch(true))),
        c.during(Stage::Enabling).reply(Reply::Transferred(1)) == (
            c.during(Stage::EnableShown),
            Ok::<Option<Action>, SessionError>(Some(Action::Emit(Burst::Indicator(true)))),
        ),
        c.during(Stage::EnableShown).reply(Reply::Emitted) == (
            Controller { numlock: true, ..c },
            Ok::<Option<Action>, SessionError>(None),
        ),
        forall|r: Reply|
            r != Reply::Transferred(1) ==> #[trigger] c.during(Stage::Enabling).reply(r) == (
                c,
                Err::<Option<Action>, SessionError>(SessionError::HardwareWrite),
            ),
        forall|r: Reply|
            r != Reply::Emitted ==> #[trigger] c.during(Stage::EnableShown).reply(r) == (
                c,
                Err::<Option<Action>, SessionError>(SessionError::OutputEmit),
            ),
{
}

/// A landing in the toggle zone with the numpad on switches it off, once:
/// the indicator is put out, then the bus is written to, then the flag is
/// cleared. An indicator that was not emitted, or a bus write that did not
/// transfer exactly one message, ends in an error with the controller as it
/// was before the touch.
pub proof fn lemma_toggle_off(c: Controller)
    requires
        c.stage == Stage::Idle,
        c.held is None,
        c.numlock,
        c.geometry.in_toggle_zone(c.x as int, c.y as int),
    ensures
        c.touch_down() == (
            c.during(Stage::DisableShown),
            Some(Action::Emit(Burst::Indicator(false))),
        ),
        c.during(Stage::DisableShown).reply(Reply::Emitted) == (
            c.during(Stage::Disabling),
            Ok::<Option<Action>, SessionError>(Some(Action::Switch(false))),
        ),
        c.during(Stage::Disabling).reply(Reply::Transferred(1)) == (
            Controller { numlock: false, ..c },
            Ok::<Option<Action>, SessionError>(None),
        ),
        forall|r: Reply|
            r != Reply::Emitted ==> #[trigger] c.during(Stage::DisableShown).reply(r) == (
                c,
                Err::<Option<Action>, SessionError>(SessionError::OutputEmit),
            ),
        forall|r: Reply|
            r != Reply::Transferred(1) ==> #[trigger] c.during(Stage::Disabling).reply(r) == (
                c,
                Err::<Option<Action>, SessionError>(SessionError::HardwareWrite),
            ),
{
}

/// Nothing but a successful reply changes the numpad flag or the held key: a
/// touch event leaves both as they were, and so does a reply that ends in an
/// error, after which nothing is under way.
pub proof fn lemma_state_moves_only_on_success(c: Controller, event: TouchEvent, reply: Reply)
    ensures
        c.apply(event).0.numlock == c.numlock,
        c.apply(event).0.held == c.held,
        c.reply(reply).1 is Err ==> c.reply(reply).0 == c.settled(),
{
}

/// The shortcut zone fires the shortcut whether the numpad is on or off, and
/// changes neither the flag nor the held key.
pub proof fn lemma_shortcut_is_stateless(c: Controller)
    requires
        c.stage == Stage::Idle,
        c.held is None,
        !c.geometry.in_toggle_zone(c.x as int, c.y as int),
        c.geometry.in_shortcut_zone(c.x as int, c.y as int),
    ensures
        c.touch_down() == (c.during(Stage::Shortcut), Some(Action::Emit(Burst::Shortcut))),
        c.during(Stage::Shortcut).reply(Reply::Emitted) == (
            c,
            Ok::<Option<Action>, SessionError>(None),
        ),
{
}

/// Every step keeps the controller consistent: a touch event, a reply
/// whatever it says, and the cleanup at the end of a session.
pub proof fn lemma_consistency_is_kept(c: Controller, event: TouchEvent, reply: Reply)
    requires
        c.consistent(),
    ensures
        c.apply(event).0.consistent(),
        c.reply(reply).0.consistent(),
        c.cleared().consistent(),
{
}

/// A batch keeps the controller consistent.
pub proof fn lemma_batch_keeps_consistency(c: Controller, events: Seq<TouchEvent>, start: int)
    requires
        c.consistent(),
    ensures
        c.run(events, start).0.consistent(),
    decreases events.len() - start,
{
    if 0 <= start < events.len() {
        lemma_consistency_is_kept(c, events[start], Reply::Emitted);
        let (next, action) = c.apply(events[start]);
        if action is None {
            lemma_batch_keeps_consistency(next, events, start + 1);
        }
    }
}

} // verus!
