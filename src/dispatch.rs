//! The dispatch bridge: decoding raw host messages into typed events and
//! deciding, per window handle, whether a message goes to the host's default
//! processing, to the handler attached at creation, or is a fault.
//!
//! Each window handle moves through three phases: no state attached yet
//! (only pre-creation codes are expected), active (a state address is held
//! in its slot), and torn down (after the destroy message; its slot is no
//! longer consulted, until the host reuses the handle for a new window and
//! its creation message arrives).

use std::collections::{HashMap, HashSet};
use vstd::prelude::*;

use crate::message::{
    is_left_to_host, left_to_host, CREATE, DESTROY, PAINT, SETTING_CHANGE, SIZE,
};
use crate::words::{hiword, loword};

verus! {

broadcast use vstd::std_specs::hash::group_hash_axioms;

/// The client rectangle announced by a resize message.
#[derive(Clone, Copy, Debug, PartialEq, Eq, Structural)]
pub struct ClientRect {
    pub left: usize,
    pub top: usize,
    pub right: usize,
    pub bottom: usize,
}

/// A host message with its payload decoded according to its code.
#[derive(Clone, Copy, Debug, PartialEq, Eq, Structural)]
pub enum Event {
    /// The window is being created; `create_param` is the opaque creation
    /// parameter that was handed to the host's creation call.
    Create { create_param: usize },
    Paint,
    /// The client area was resized; `kind` is the host's resize kind.
    Size { kind: usize, rect: ClientRect },
    /// A setting changed; `area` addresses the name of the changed area.
    SettingChange { flags: usize, area: usize },
    Destroy,
    /// Any other message, with its payload left raw.
    Other { code: u32, wparam: usize, lparam: usize },
}

/// The rectangle packed into a resize payload: width in the low word,
/// height in the high word, origin at the top-left corner.
pub open spec fn client_rect_of(lparam: usize) -> ClientRect {
    ClientRect {
        left: 0,
        top: 0,
        right: (lparam % 0x1_0000) as usize,
        bottom: ((lparam / 0x1_0000) % 0x1_0000) as usize,
    }
}

/// How each code's payload is read. For the creation message, `lparam` is the
/// creation parameter carried in the creation record.
pub open spec fn event_of(code: u32, wparam: usize, lparam: usize) -> Event {
    if code == CREATE {
        Event::Create { create_param: lparam }
    } else if code == PAINT {
        Event::Paint
    } else if code == SIZE {
        Event::Size { kind: wparam, rect: client_rect_of(lparam) }
    } else if code == SETTING_CHANGE {
        Event::SettingChange { flags: wparam, area: lparam }
    } else if code == DESTROY {
        Event::Destroy
    } else {
        Event::Other { code, wparam, lparam }
    }
}

/// Decodes the payload of a message according to its code.
pub fn translate(code: u32, wparam: usize, lparam: usize) -> (e: Event)
    ensures
        e == event_of(code, wparam, lparam),
{
    if code == CREATE {
        Event::Create { create_param: lparam }
    } else if code == PAINT {
        Event::Paint
    } else if code == SIZE {
        let rect = ClientRect { left: 0, top: 0, right: loword(lparam), bottom: hiword(lparam) };
        Event::Size { kind: wparam, rect }
    } else if code == SETTING_CHANGE {
        Event::SettingChange { flags: wparam, area: lparam }
    } else if code == DESTROY {
        Event::Destroy
    } else {
        Event::Other { code, wparam, lparam }
    }
}

/// A message that breaks the dispatch contract; the host has no way to
/// recover from one.
#[derive(Clone, Copy, Debug, PartialEq, Eq, Structural)]
pub enum Fault {
    /// The creation message carried a null creation parameter.
    MissingCreateParam,
    /// A message that needs the window's state came before its creation.
    NoState,
    /// A second creation message came for a window that already has state.
    AlreadyCreated,
}

/// Where a message goes.
#[derive(Clone, Copy, Debug, PartialEq, Eq, Structural)]
pub enum Route {
    /// To the host's default processing; no handler runs.
    HostDefault,
    /// To the handler whose state lives at address `state`.
    Handle { state: usize },
    /// Nowhere: the message breaks the contract.
    Fault { fault: Fault },
}

/// What the bridge decided for one message.
#[derive(Clone, Copy, Debug, PartialEq, Eq, Structural)]
pub struct Step {
    pub route: Route,
    /// Whether the event loop must now be asked to end.
    pub post_quit: bool,
    pub event: Event,
}

/// The phase of one window handle.
pub enum Phase {
    Uninitialized,
    Active { state: usize },
    TornDown,
}

/// The abstract state of the bridge.
pub struct DispatchState {
    /// The state address attached to each active window.
    pub slots: Map<usize, usize>,
    /// The windows that were destroyed.
    pub closed: Set<usize>,
    /// Whether the end of the event loop has been requested.
    pub quit_posted: bool,
}

impl DispatchState {
    /// Active windows are not torn down, every attached address is non-null,
    /// and a torn-down window means the end of the loop was requested.
    pub open spec fn wf(self) -> bool {
        &&& forall|h: usize| #[trigger]
            self.slots.contains_key(h) ==> !self.closed.contains(h) && self.slots[h] != 0
        &&& forall|h: usize| #[trigger] self.closed.contains(h) ==> self.quit_posted
    }

    pub open spec fn phase(self, h: usize) -> Phase {
        if self.closed.contains(h) {
            Phase::TornDown
        } else if self.slots.contains_key(h) {
            Phase::Active { state: self.slots[h] }
        } else {
            Phase::Uninitialized
        }
    }

    /// The address a slot read returns: the attached one, or `0` when empty.
    pub open spec fn state_of(self, h: usize) -> usize {
        if self.slots.contains_key(h) {
            self.slots[h]
        } else {
            0
        }
    }
}

/// One message for window `h`, with code `code` and payload `wparam`, `lparam`.
pub struct Message {
    pub h: usize,
    pub code: u32,
    pub wparam: usize,
    pub lparam: usize,
}

/// The bridge's transition on one message: the new state and the decision.
/// A creation message for a torn-down handle starts a new window under the
/// reused handle.
pub open spec fn next(s: DispatchState, m: Message) -> (DispatchState, Step) {
    let h = m.h;
    let event = event_of(m.code, m.wparam, m.lparam);
    if left_to_host(m.code) {
        (s, Step { route: Route::HostDefault, post_quit: false, event })
    } else if m.code == CREATE {
        if s.slots.contains_key(h) {
            (
                s,
                Step {
                    route: Route::Fault { fault: Fault::AlreadyCreated },
                    post_quit: false,
                    event,
                },
            )
        } else if m.lparam == 0 {
            (
                s,
                Step {
                    route: Route::Fault { fault: Fault::MissingCreateParam },
                    post_quit: false,
                    event,
                },
            )
        } else {
            let s2 = DispatchState {
                slots: s.slots.insert(h, m.lparam),
                closed: s.closed.remove(h),
                ..s
            };
            (s2, Step { route: Route::Handle { state: m.lparam }, post_quit: false, event })
        }
    } else if s.closed.contains(h) {
        (s, Step { route: Route::HostDefault, post_quit: false, event })
    } else if m.code == DESTROY {
        let s2 = DispatchState {
            slots: s.slots.remove(h),
            closed: s.closed.insert(h),
            quit_posted: true,
        };
        let route = if s.slots.contains_key(h) {
            Route::Handle { state: s.slots[h] }
        } else {
            Route::Fault { fault: Fault::NoState }
        };
        (s2, Step { route, post_quit: !s.quit_posted, event })
    } else if s.slots.contains_key(h) {
        (s, Step { route: Route::Handle { state: s.slots[h] }, post_quit: false, event })
    } else {
        (s, Step { route: Route::Fault { fault: Fault::NoState }, post_quit: false, event })
    }
}

/// The state after delivering `ms` in order.
pub open spec fn run(s: DispatchState, ms: Seq<Message>) -> DispatchState
    decreases ms.len(),
{
    if ms.len() == 0 {
        s
    } else {
        next(run(s, ms.drop_last()), ms.last()).0
    }
}

/// The decision taken for the `k`-th message of `ms`, delivered from `s`.
pub open spec fn step_at(s: DispatchState, ms: Seq<Message>, k: int) -> Step {
    next(run(s, ms.take(k)), ms[k]).1
}

/// Errors of the per-window state slot.
#[derive(Clone, Copy, Debug, PartialEq, Eq, Structural)]
pub enum SlotError {
    /// The window already has state attached.
    AlreadySet,
    /// The address is null.
    NullState,
}

/// The bridge: per-window state slots, torn-down windows, and whether the
/// end of the event loop was requested.
pub struct Dispatcher {
    slots: HashMap<usize, usize>,
    closed: HashSet<usize>,
    quit_posted: bool,
}

impl View for Dispatcher {
    type V = DispatchState;

    closed spec fn view(&self) -> DispatchState {
        DispatchState { slots: self.slots@, closed: self.closed@, quit_posted: self.quit_posted }
    }
}

impl Dispatcher {
    /// A bridge with no window attached and no quit requested.
    pub fn new() -> (d: Dispatcher)
        ensures
            d@.slots == Map::<usize, usize>::empty(),
            d@.closed == Set::<usize>::empty(),
            !d@.quit_posted,
            d@.wf(),
    {
        Dispatcher { slots: HashMap::new(), closed: HashSet::new(), quit_posted: false }
    }

    /// Reads the slot of window `h`: the attached address, or `0` when empty.
    pub fn get_state(&self, h: usize) -> (r: usize)
        ensures
            r == self@.state_of(h),
    {
        match self.slots.get(&h) {
            Some(p) => *p,
            None => 0,
        }
    }

    /// Attaches the state at address `state` to window `h`, once per window;
    /// a torn-down handle becomes a new window again.
    pub fn set_state(&mut self, h: usize, state: usize) -> (r: Result<(), SlotError>)
        requires
            old(self)@.wf(),
        ensures
            final(self)@.wf(),
            r == (if old(self)@.slots.contains_key(h) {
                Err(SlotError::AlreadySet)
            } else if state == 0 {
                Err(SlotError::NullState)
            } else {
                Ok(())
            }),
            r is Ok ==> final(self)@ == (DispatchState {
                slots: old(self)@.slots.insert(h, state),
                closed: old(self)@.closed.remove(h),
                ..old(self)@
            }),
            r is Err ==> final(self)@ == old(self)@,
    {
        if self.slots.contains_key(&h) {
            return Err(SlotError::AlreadySet);
        }
        if state == 0 {
            return Err(SlotError::NullState);
        }
        self.slots.insert(h, state);
        self.closed.remove(&h);
        assert(self@.closed == old(self)@.closed.remove(h));
        assert forall|k: usize| #[trigger] self@.closed.contains(k) implies self@.quit_posted by {
            assert(old(self)@.closed.contains(k));
        }
        assert forall|k: usize| #[trigger] self@.slots.contains_key(k) implies {
            !self@.closed.contains(k) && self@.slots[k] != 0
        } by {
            if k != h {
                assert(old(self)@.slots.contains_key(k));
            }
        }
        Ok(())
    }

    /// Whether the end of the event loop has been requested.
    pub fn quit_posted(&self) -> (r: bool)
        ensures
            r == self@.quit_posted,
    {
        self.quit_posted
    }

    /// Decides what becomes of message `code` with payload `wparam`, `lparam`
    /// for window `h`, and updates the window's phase.
    pub fn dispatch(&mut self, h: usize, code: u32, wparam: usize, lparam: usize) -> (step: Step)
        requires
            old(self)@.wf(),
        ensures
            final(self)@.wf(),
            (final(self)@, step) == next(old(self)@, Message { h, code, wparam, lparam }),
    {
        let event = translate(code, wparam, lparam);
        if is_left_to_host(code) {
            return Step { route: Route::HostDefault, post_quit: false, event };
        }
        if code == CREATE {
            let route = match self.set_state(h, lparam) {
                Ok(()) => Route::Handle { state: lparam },
                Err(SlotError::NullState) => Route::Fault { fault: Fault::MissingCreateParam },
                Err(SlotError::AlreadySet) => Route::Fault { fault: Fault::AlreadyCreated },
            };
            return Step { route, post_quit: false, event };
        }
        if self.closed.contains(&h) {
            return Step { route: Route::HostDefault, post_quit: false, event };
        }
        if code == DESTROY {
            let route = match self.slots.remove(&h) {
                Some(p) => Route::Handle { state: p },
                None => Route::Fault { fault: Fault::NoState },
            };
            self.closed.insert(h);
            let post_quit = !self.quit_posted;
            self.quit_posted = true;
            return Step { route, post_quit, event };
        }
        let route = match self.slots.get(&h) {
            Some(p) => Route::Handle { state: *p },
            None => Route::Fault { fault: Fault::NoState },
        };
        Step { route, post_quit: false, event }
    }
}

} // verus!
