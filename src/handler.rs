//! The typed side of the bridge: what a window's state implements to react
//! to decoded events, and how its outcome is answered to the host.

use vstd::prelude::*;

use crate::dispatch::{ClientRect, Event};
use crate::theme::Theme;

verus! {

/// The outcome of a handler.
#[derive(Clone, Copy, Debug, PartialEq, Eq, Structural)]
pub enum MessageAction {
    /// Nothing decided here; a later handler may decide.
    Pass,
    /// Let the host perform its default processing.
    Continue,
    /// The message is fully handled; suppress default processing.
    FullyHandled,
}

/// A failure raised by a handler.
#[derive(Clone, Debug)]
pub struct HandlerError {
    pub message: String,
}

/// How the trampoline answers the host after a handler ran.
#[derive(Clone, Copy, Debug, PartialEq, Eq, Structural)]
pub enum Reply {
    /// Return what the host's default processing returns.
    HostDefault,
    /// Return `0`: handled.
    Handled,
    /// The handler failed: return `1`, and report the failure.
    Failed,
}

/// The value the trampoline returns to the host for a reply, or `None`
/// where it returns what the host's default processing returns.
pub open spec fn reply_value_of(reply: Reply) -> Option<isize> {
    match reply {
        Reply::HostDefault => None,
        Reply::Handled => Some(0),
        Reply::Failed => Some(1),
    }
}

/// The value returned to the host for `reply`.
pub fn reply_value(reply: Reply) -> (v: Option<isize>)
    ensures
        v == reply_value_of(reply),
{
    match reply {
        Reply::HostDefault => None,
        Reply::Handled => Some(0),
        Reply::Failed => Some(1),
    }
}

/// The reply owed to the host for a handler's outcome.
pub open spec fn reply_of<E>(outcome: Result<MessageAction, E>) -> Reply {
    match outcome {
        Ok(MessageAction::FullyHandled) => Reply::Handled,
        Ok(_) => Reply::HostDefault,
        Err(_) => Reply::Failed,
    }
}

/// Turns a handler's outcome into the reply to the host.
pub fn reply_for<E>(outcome: &Result<MessageAction, E>) -> (r: Reply)
    ensures
        r == reply_of(*outcome),
{
    match outcome {
        Ok(MessageAction::FullyHandled) => Reply::Handled,
        Ok(_) => Reply::HostDefault,
        Err(_) => Reply::Failed,
    }
}

/// A window's state, and its reactions to decoded events. Each reaction's
/// outcome, and for those that take `&mut self` the state it leaves, is
/// named by a spec function. A verified implementation states its own
/// outcomes; the stated defaults are those of a state that decides nothing.
pub trait WindowHandler: Sized {
    /// The window handle the state holds. This and `with_window` have no
    /// meaningful default: a verified implementation states both, as
    /// `set_h_window` requires.
    open spec fn window_of(&self) -> usize {
        0
    }

    /// `self` holding window handle `h`, all else kept.
    open spec fn with_window(self, h: usize) -> Self {
        self
    }

    fn h_window(&self) -> (r: usize)
        ensures
            r == self.window_of(),
    ;

    fn set_h_window(&mut self, h: usize)
        ensures
            *final(self) == old(self).with_window(h),
            final(self).window_of() == h,
    ;

    open spec fn create_mut_result(&self) -> Result<MessageAction, HandlerError> {
        Ok(MessageAction::Pass)
    }

    open spec fn after_create_mut(self) -> Self {
        self
    }

    /// First reaction to creation, with mutable access to the state.
    fn on_create_mut(&mut self) -> (r: Result<MessageAction, HandlerError>)
        ensures
            r == old(self).create_mut_result(),
            *final(self) == old(self).after_create_mut(),
    ;

    open spec fn create_result(&self) -> Result<MessageAction, HandlerError> {
        Ok(MessageAction::Pass)
    }

    /// Reaction to creation, consulted when `on_create_mut` passed.
    fn on_create(&self) -> (r: Result<MessageAction, HandlerError>)
        ensures
            r == self.create_result(),
    ;

    open spec fn paint_result(&self) -> Result<MessageAction, HandlerError> {
        Ok(MessageAction::Pass)
    }

    fn on_paint(&self) -> (r: Result<MessageAction, HandlerError>)
        ensures
            r == self.paint_result(),
    ;

    open spec fn size_result(&self, rect: ClientRect) -> Result<MessageAction, HandlerError> {
        Ok(MessageAction::Pass)
    }

    /// Reaction to a resize, with the new client rectangle.
    fn on_size(&self, rect: ClientRect) -> (r: Result<MessageAction, HandlerError>)
        ensures
            r == self.size_result(rect),
    ;

    open spec fn theme_result(&self, theme: Theme) -> Result<MessageAction, HandlerError> {
        Ok(MessageAction::Pass)
    }

    /// Reaction to a change of the colour theme to `theme`.
    fn on_theme_change(&self, theme: Theme) -> (r: Result<MessageAction, HandlerError>)
        ensures
            r == self.theme_result(theme),
    ;

    /// Reaction to a change of settings: `theme` is `None` when the changed
    /// area is not the colour theme's, and otherwise the theme read for it,
    /// or the failure to read it. Only a theme that was read reaches
    /// `on_theme_change`; other areas continue to the host.
    fn on_setting_change(&self, theme: Option<Result<Theme, HandlerError>>) -> (r: Result<
        MessageAction,
        HandlerError,
    >)
        ensures
            r == (match theme {
                None => Ok(MessageAction::Continue),
                Some(Ok(t)) => self.theme_result(t),
                Some(Err(e)) => Err(e),
            }),
    {
        match theme {
            None => Ok(MessageAction::Continue),
            Some(Ok(t)) => self.on_theme_change(t),
            Some(Err(e)) => Err(e),
        }
    }

    open spec fn other_result(&self, code: u32, wparam: usize, lparam: usize) -> Result<
        MessageAction,
        HandlerError,
    > {
        Ok(MessageAction::Continue)
    }

    open spec fn after_other(self, code: u32, wparam: usize, lparam: usize) -> Self {
        self
    }

    /// Reaction to a message the bridge does not decode, such as a
    /// program's own messages.
    fn on_other(&mut self, code: u32, wparam: usize, lparam: usize) -> (r: Result<
        MessageAction,
        HandlerError,
    >)
        ensures
            r == old(self).other_result(code, wparam, lparam),
            *final(self) == old(self).after_other(code, wparam, lparam),
    ;

    /// Routes a decoded event to its reaction: creation asks `on_create_mut`
    /// first and `on_create` only when it passed; painting, resizing and
    /// undecoded messages go to their reaction with the event's payload;
    /// destroy and setting changes continue to the host.
    fn on_message(&mut self, event: Event) -> (r: Result<MessageAction, HandlerError>)
        ensures
            r == (match event {
                Event::Create { .. } => match old(self).create_mut_result() {
                    Ok(MessageAction::Pass) => old(self).after_create_mut().create_result(),
                    first => first,
                },
                Event::Paint => old(self).paint_result(),
                Event::Size { rect, .. } => old(self).size_result(rect),
                Event::Other { code, wparam, lparam } => old(self).other_result(
                    code,
                    wparam,
                    lparam,
                ),
                _ => Ok(MessageAction::Continue),
            }),
            *final(self) == (match event {
                Event::Create { .. } => old(self).after_create_mut(),
                Event::Other { code, wparam, lparam } => old(self).after_other(
                    code,
                    wparam,
                    lparam,
                ),
                _ => *old(self),
            }),
            (event is Destroy || event is SettingChange) ==> r == Ok::<
                MessageAction,
                HandlerError,
            >(MessageAction::Continue) && *final(self) == *old(self),
    {
        match event {
            Event::Create { .. } => {
                match self.on_create_mut() {
                    Ok(MessageAction::Pass) => self.on_create(),
                    first => first,
                }
            },
            Event::Paint => self.on_paint(),
            Event::Size { rect, .. } => self.on_size(rect),
            Event::Other { code, wparam, lparam } => self.on_other(code, wparam, lparam),
            _ => Ok(MessageAction::Continue),
        }
    }

    /// Delivers `event` for window `h` to the state: on creation the state
    /// first records `h`, then the event is routed as by `on_message`.
    fn deliver(&mut self, h: usize, event: Event) -> (r: Result<MessageAction, HandlerError>)
        ensures
            event is Create ==> {
                let s = old(self).with_window(h);
                &&& s.window_of() == h
                &&& match s.create_mut_result() {
                    Ok(MessageAction::Pass) => r == s.after_create_mut().create_result(),
                    first => r == first,
                }
                &&& *final(self) == s.after_create_mut()
            },
            !(event is Create) ==> (r, *final(self)) == (match event {
                Event::Paint => (old(self).paint_result(), *old(self)),
                Event::Size { rect, .. } => (old(self).size_result(rect), *old(self)),
                Event::Other { code, wparam, lparam } => (
                    old(self).other_result(code, wparam, lparam),
                    old(self).after_other(code, wparam, lparam),
                ),
                _ => (Ok(MessageAction::Continue), *old(self)),
            }),
    {
        if let Event::Create { .. } = event {
            self.set_h_window(h);
        }
        self.on_message(event)
    }
}

} // verus!
