//! The context a program registers its window classes in, and the small
//! values that describe a window before it exists.

use vstd::prelude::*;

use crate::dispatch::ClientRect;
use crate::handler::{HandlerError, MessageAction, WindowHandler};
use crate::theme::Theme;

verus! {

/// The host's marker for "let the host choose this coordinate".
pub const USE_DEFAULT: i32 = -2147483648;

/// A window position.
#[derive(Clone, Copy, Debug, PartialEq, Eq, Structural)]
pub struct Point {
    pub x: i32,
    pub y: i32,
}

impl Default for Point {
    /// A position left to the host.
    fn default() -> (r: Self)
        ensures
            r == (Point { x: USE_DEFAULT, y: USE_DEFAULT }),
    {
        Point { x: USE_DEFAULT, y: USE_DEFAULT }
    }
}

/// A window's state object carrying a line of text, and the handle of its
/// window once created. It decides nothing about any event.
#[derive(Debug)]
pub struct StateInfo {
    pub info: String,
    pub h_window: usize,
}

impl StateInfo {
    /// A state for a window not created yet.
    pub fn new(info: &str) -> (r: StateInfo)
        ensures
            r.info@ == info@,
            r.h_window == 0,
    {
        StateInfo { info: info.to_owned(), h_window: 0 }
    }
}

impl WindowHandler for StateInfo {
    open spec fn window_of(&self) -> usize {
        self.h_window
    }

    open spec fn with_window(self, h: usize) -> Self {
        StateInfo { h_window: h, ..self }
    }

    fn h_window(&self) -> (r: usize) {
        self.h_window
    }

    fn set_h_window(&mut self, h: usize) {
        self.h_window = h;
    }

    open spec fn create_mut_result(&self) -> Result<MessageAction, HandlerError> {
        Ok(MessageAction::Pass)
    }

    open spec fn after_create_mut(self) -> Self {
        self
    }

    fn on_create_mut(&mut self) -> (r: Result<MessageAction, HandlerError>) {
        Ok(MessageAction::Pass)
    }

    open spec fn create_result(&self) -> Result<MessageAction, HandlerError> {
        Ok(MessageAction::Pass)
    }

    fn on_create(&self) -> (r: Result<MessageAction, HandlerError>) {
        Ok(MessageAction::Pass)
    }

    open spec fn paint_result(&self) -> Result<MessageAction, HandlerError> {
        Ok(MessageAction::Pass)
    }

    fn on_paint(&self) -> (r: Result<MessageAction, HandlerError>) {
        Ok(MessageAction::Pass)
    }

    open spec fn size_result(&self, rect: ClientRect) -> Result<MessageAction, HandlerError> {
        Ok(MessageAction::Pass)
    }

    fn on_size(&self, rect: ClientRect) -> (r: Result<MessageAction, HandlerError>) {
        Ok(MessageAction::Pass)
    }

    open spec fn theme_result(&self, theme: Theme) -> Result<MessageAction, HandlerError> {
        Ok(MessageAction::Pass)
    }

    fn on_theme_change(&self, theme: Theme) -> (r: Result<MessageAction, HandlerError>) {
        Ok(MessageAction::Pass)
    }

    open spec fn other_result(&self, code: u32, wparam: usize, lparam: usize) -> Result<
        MessageAction,
        HandlerError,
    > {
        Ok(MessageAction::Continue)
    }

    open spec fn after_other(self, code: u32, wparam: usize, lparam: usize) -> Self {
        self
    }

    fn on_other(&mut self, code: u32, wparam: usize, lparam: usize) -> (r: Result<
        MessageAction,
        HandlerError,
    >) {
        Ok(MessageAction::Continue)
    }
}

/// Errors of the registration context.
#[derive(Clone, Copy, Debug, PartialEq, Eq, Structural)]
pub enum ContextError {
    /// `init` was already called.
    AlreadyInitialized,
    /// The context has no module instance yet.
    NotInitialized,
    /// A class of that name is already registered.
    AlreadyRegistered,
}

/// The module instance a program runs as, set once, and the names of the
/// window classes it registered.
pub struct Context {
    instance: Option<usize>,
    classes: Vec<String>,
}

/// What a context holds: its instance, if set, and its class names in order
/// of registration.
pub struct ContextView {
    pub instance: Option<usize>,
    pub classes: Seq<Seq<char>>,
}

impl View for Context {
    type V = ContextView;

    closed spec fn view(&self) -> ContextView {
        ContextView {
            instance: self.instance,
            classes: self.classes@.map_values(|s: String| s@),
        }
    }
}

impl Context {
    /// A context with no instance and no class.
    pub fn new() -> (c: Context)
        ensures
            c@.instance is None,
            c@.classes.len() == 0,
    {
        let c = Context { instance: None, classes: Vec::new() };
        assert(c@.classes =~= Seq::<Seq<char>>::empty());
        c
    }

    /// Sets the module instance, once.
    pub fn init(&mut self, h_instance: usize) -> (r: Result<(), ContextError>)
        ensures
            old(self)@.instance is Some ==> r == Err::<(), ContextError>(
                ContextError::AlreadyInitialized,
            ) && final(self)@ == old(self)@,
            old(self)@.instance is None ==> r is Ok && final(self)@ == (ContextView {
                instance: Some(h_instance),
                ..old(self)@
            }),
    {
        if self.instance.is_some() {
            return Err(ContextError::AlreadyInitialized);
        }
        self.instance = Some(h_instance);
        Ok(())
    }

    /// The module instance, once set.
    pub fn instance(&self) -> (r: Result<usize, ContextError>)
        ensures
            r == (match self@.instance {
                Some(h) => Ok(h),
                None => Err(ContextError::NotInitialized),
            }),
    {
        match self.instance {
            Some(h) => Ok(h),
            None => Err(ContextError::NotInitialized),
        }
    }

    /// Whether a class named `name` is registered.
    pub fn is_registered(&self, name: &str) -> (r: bool)
        ensures
            r == self@.classes.contains(name@),
    {
        let wanted = name.to_owned();
        let mut i: usize = 0;
        while i < self.classes.len()
            invariant
                0 <= i <= self.classes@.len(),
                wanted@ == name@,
                forall|j: int| 0 <= j < i ==> self@.classes[j] != name@,
            decreases self.classes@.len() - i,
        {
            assert(self@.classes[i as int] == self.classes@[i as int]@);
            if self.classes[i] == wanted {
                return true;
            }
            i = i + 1;
        }
        assert(!self@.classes.contains(name@)) by {
            if self@.classes.contains(name@) {
                let j = choose|j: int| 0 <= j < self@.classes.len() && self@.classes[j] == name@;
                assert(self@.classes[j] != name@);
            }
        }
        false
    }

    /// Records the class `name` under the module instance, and returns the
    /// instance. The context must be initialized and the name new.
    pub fn register_class(&mut self, name: &str) -> (r: Result<usize, ContextError>)
        ensures
            match old(self)@.instance {
                None => r == Err::<usize, ContextError>(ContextError::NotInitialized)
                    && final(self)@ == old(self)@,
                Some(h) => if old(self)@.classes.contains(name@) {
                    r == Err::<usize, ContextError>(ContextError::AlreadyRegistered)
                        && final(self)@ == old(self)@
                } else {
                    r == Ok::<usize, ContextError>(h) && final(self)@ == (ContextView {
                        classes: old(self)@.classes.push(name@),
                        ..old(self)@
                    })
                },
            },
    {
        let h = match self.instance {
            Some(h) => h,
            None => return Err(ContextError::NotInitialized),
        };
        if self.is_registered(name) {
            return Err(ContextError::AlreadyRegistered);
        }
        let owned = name.to_owned();
        self.classes.push(owned);
        assert(self@.classes =~= old(self)@.classes.push(name@));
        Ok(h)
    }
}

} // verus!
