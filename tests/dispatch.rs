use gui::dispatch::{translate, ClientRect, Dispatcher, Event, Fault, Route, SlotError};
use gui::handler::{reply_for, reply_value, HandlerError, MessageAction, Reply, WindowHandler};
use gui::message::{
    is_left_to_host, CREATE, DESTROY, GET_MIN_MAX_INFO, NC_CALC_SIZE, NC_CREATE, NC_HIT_TEST, PAINT,
    SETTING_CHANGE, SIZE,
};
use gui::theme::Theme;
use gui::window::{Context, ContextError, StateInfo};
use std::cell::Cell;

const HWND: usize = 0x0004_0a2c;
const STATE: usize = 0x7ff6_1000;

struct Recorder {
    h_window: usize,
    sizes: Cell<Vec<ClientRect>>,
    calls: Cell<Vec<&'static str>>,
    first: MessageAction,
}

impl Recorder {
    fn new(first: MessageAction) -> Recorder {
        Recorder { h_window: 0, sizes: Cell::new(vec![]), calls: Cell::new(vec![]), first }
    }

    fn note(&self, call: &'static str) {
        let mut calls = self.calls.take();
        calls.push(call);
        self.calls.set(calls);
    }
}

impl WindowHandler for Recorder {
    fn h_window(&self) -> usize {
        self.h_window
    }

    fn set_h_window(&mut self, h: usize) {
        self.h_window = h;
    }

    fn on_create_mut(&mut self) -> Result<MessageAction, HandlerError> {
        self.note("create_mut");
        Ok(self.first)
    }

    fn on_create(&self) -> Result<MessageAction, HandlerError> {
        self.note("create");
        Ok(MessageAction::Continue)
    }

    fn on_paint(&self) -> Result<MessageAction, HandlerError> {
        self.note("paint");
        Ok(MessageAction::Pass)
    }

    fn on_size(&self, rect: ClientRect) -> Result<MessageAction, HandlerError> {
        self.note("size");
        let mut sizes = self.sizes.take();
        sizes.push(rect);
        self.sizes.set(sizes);
        Ok(MessageAction::FullyHandled)
    }

    fn on_theme_change(&self, _theme: Theme) -> Result<MessageAction, HandlerError> {
        self.note("theme");
        Ok(MessageAction::Pass)
    }

    fn on_other(&mut self, _: u32, _: usize, _: usize) -> Result<MessageAction, HandlerError> {
        self.note("other");
        Ok(MessageAction::Continue)
    }
}

#[test]
fn register_create_and_look_up_state() {
    let mut ctx = Context::new();
    assert_eq!(ctx.init(0x4000_0000), Ok(()));
    assert_eq!(ctx.register_class("MainWindow"), Ok(0x4000_0000));

    let mut d = Dispatcher::new();
    assert_eq!(d.get_state(HWND), 0);
    let step = d.dispatch(HWND, CREATE, 0, STATE);
    assert_eq!(step.route, Route::Handle { state: STATE });
    assert_eq!(step.event, Event::Create { create_param: STATE });
    assert!(!step.post_quit);
    assert_eq!(d.get_state(HWND), STATE);
}

#[test]
fn resize_payload_reaches_handler_unchanged() {
    let mut d = Dispatcher::new();
    d.dispatch(HWND, CREATE, 0, STATE);
    let lparam: usize = (300 << 16) | 640;
    let step = d.dispatch(HWND, SIZE, 2, lparam);
    assert_eq!(step.route, Route::Handle { state: STATE });
    assert_eq!(
        step.event,
        Event::Size { kind: 2, rect: ClientRect { left: 0, top: 0, right: 640, bottom: 300 } }
    );

    let mut rec = Recorder::new(MessageAction::Pass);
    let outcome = rec.on_message(step.event);
    assert_eq!(reply_for(&outcome), Reply::Handled);
    assert_eq!(rec.sizes.take(), vec![ClientRect { left: 0, top: 0, right: 640, bottom: 300 }]);
    assert_eq!(rec.calls.take(), vec!["size"]);
}

#[test]
fn destroy_requests_quit_exactly_once() {
    let mut d = Dispatcher::new();
    d.dispatch(HWND, CREATE, 0, STATE);
    let step = d.dispatch(HWND, DESTROY, 0, 0);
    assert_eq!(step.route, Route::Handle { state: STATE });
    assert!(step.post_quit);
    assert!(d.quit_posted());
    let mut quits = 1;
    for code in [DESTROY, PAINT, SIZE, DESTROY, SETTING_CHANGE, 0x0200] {
        let later = d.dispatch(HWND, code, 1, STATE);
        assert_eq!(later.route, Route::HostDefault);
        if later.post_quit {
            quits += 1;
        }
    }
    assert_eq!(quits, 1);
    assert_eq!(d.get_state(HWND), 0);
}

#[test]
fn no_handler_before_creation() {
    let mut d = Dispatcher::new();
    for code in [GET_MIN_MAX_INFO, NC_CREATE, NC_CALC_SIZE] {
        assert_eq!(d.dispatch(HWND, code, 0, 0).route, Route::HostDefault);
    }
    assert_eq!(d.dispatch(HWND, PAINT, 0, 0).route, Route::Fault { fault: Fault::NoState });
    assert_eq!(d.get_state(HWND), 0);
}

#[test]
fn creation_faults() {
    let mut d = Dispatcher::new();
    let step = d.dispatch(HWND, CREATE, 0, 0);
    assert_eq!(step.route, Route::Fault { fault: Fault::MissingCreateParam });
    d.dispatch(HWND, CREATE, 0, STATE);
    let again = d.dispatch(HWND, CREATE, 0, STATE + 8);
    assert_eq!(again.route, Route::Fault { fault: Fault::AlreadyCreated });
    assert_eq!(d.get_state(HWND), STATE);
}

#[test]
fn state_identity_across_windows() {
    let mut d = Dispatcher::new();
    d.dispatch(HWND, CREATE, 0, STATE);
    d.dispatch(HWND + 1, CREATE, 0, STATE + 64);
    for code in [PAINT, SIZE, NC_HIT_TEST, 0x0200] {
        let step = d.dispatch(HWND, code, 0, 0);
        if code != NC_HIT_TEST {
            assert_eq!(step.route, Route::Handle { state: STATE });
        }
        d.dispatch(HWND + 1, code, 0, 0);
        assert_eq!(d.get_state(HWND), STATE);
    }
    d.dispatch(HWND + 1, DESTROY, 0, 0);
    assert_eq!(d.get_state(HWND), STATE);
    assert_eq!(d.dispatch(HWND, PAINT, 0, 0).route, Route::Handle { state: STATE });
}

#[test]
fn destroy_before_creation_still_quits() {
    let mut d = Dispatcher::new();
    let step = d.dispatch(HWND, DESTROY, 0, 0);
    assert_eq!(step.route, Route::Fault { fault: Fault::NoState });
    assert!(step.post_quit);
}

#[test]
fn slot_set_once() {
    let mut d = Dispatcher::new();
    assert_eq!(d.set_state(HWND, 0), Err(SlotError::NullState));
    assert_eq!(d.set_state(HWND, STATE), Ok(()));
    assert_eq!(d.set_state(HWND, STATE + 1), Err(SlotError::AlreadySet));
    assert_eq!(d.get_state(HWND), STATE);
    d.dispatch(HWND, DESTROY, 0, 0);
    assert_eq!(d.set_state(HWND, STATE + 16), Ok(()));
    assert_eq!(d.get_state(HWND), STATE + 16);
}

#[test]
fn reused_handle_starts_a_new_window() {
    let mut d = Dispatcher::new();
    d.dispatch(HWND, CREATE, 0, STATE);
    assert!(d.dispatch(HWND, DESTROY, 0, 0).post_quit);
    assert_eq!(d.dispatch(HWND, PAINT, 0, 0).route, Route::HostDefault);
    let again = d.dispatch(HWND, CREATE, 0, STATE + 32);
    assert_eq!(again.route, Route::Handle { state: STATE + 32 });
    assert_eq!(d.get_state(HWND), STATE + 32);
    assert_eq!(d.dispatch(HWND, PAINT, 0, 0).route, Route::Handle { state: STATE + 32 });
    let second = d.dispatch(HWND, DESTROY, 0, 0);
    assert_eq!(second.route, Route::Handle { state: STATE + 32 });
    assert!(!second.post_quit);
}

#[test]
fn translate_payloads() {
    assert_eq!(translate(PAINT, 1, 2), Event::Paint);
    assert_eq!(translate(DESTROY, 1, 2), Event::Destroy);
    assert_eq!(translate(SETTING_CHANGE, 3, 4), Event::SettingChange { flags: 3, area: 4 });
    assert_eq!(translate(0x0201, 5, 6), Event::Other { code: 0x0201, wparam: 5, lparam: 6 });
    let e = translate(SIZE, 0, 0x1234_ffff_0001_0002);
    let rect = ClientRect { left: 0, top: 0, right: 2, bottom: 1 };
    assert_eq!(e, Event::Size { kind: 0, rect });
    assert!(is_left_to_host(NC_HIT_TEST));
    assert!(!is_left_to_host(PAINT));
}

#[test]
fn reply_values() {
    assert_eq!(reply_value(Reply::HostDefault), None);
    assert_eq!(reply_value(Reply::Handled), Some(0));
    assert_eq!(reply_value(Reply::Failed), Some(1));
}

#[test]
fn setting_change_reaches_theme_only_for_its_area() {
    let rec = Recorder::new(MessageAction::Pass);
    assert_eq!(rec.on_setting_change(None).unwrap(), MessageAction::Continue);
    assert!(rec.calls.take().is_empty());
    assert_eq!(rec.on_setting_change(Some(Ok(Theme::Dark))).unwrap(), MessageAction::Pass);
    assert_eq!(rec.calls.take(), vec!["theme"]);
    let failed = Err(HandlerError { message: String::from("no key") });
    assert_eq!(rec.on_setting_change(Some(failed)).unwrap_err().message, "no key");
    assert!(rec.calls.take().is_empty());
}

#[test]
fn replies_for_outcomes() {
    let handled: Result<MessageAction, HandlerError> = Ok(MessageAction::FullyHandled);
    let cont: Result<MessageAction, HandlerError> = Ok(MessageAction::Continue);
    let pass: Result<MessageAction, HandlerError> = Ok(MessageAction::Pass);
    let failed: Result<MessageAction, HandlerError> =
        Err(HandlerError { message: String::from("boom") });
    assert_eq!(reply_for(&handled), Reply::Handled);
    assert_eq!(reply_for(&cont), Reply::HostDefault);
    assert_eq!(reply_for(&pass), Reply::HostDefault);
    assert_eq!(reply_for(&failed), Reply::Failed);
}

#[test]
fn state_info_routes() {
    let mut p = StateInfo::new("info");
    assert_eq!(p.on_message(Event::Paint).unwrap(), MessageAction::Pass);
    assert_eq!(p.deliver(42, Event::Create { create_param: 1 }).unwrap(), MessageAction::Pass);
    assert_eq!(p.h_window(), 42);
    assert_eq!(p.on_message(Event::Destroy).unwrap(), MessageAction::Continue);
    let other = Event::Other { code: 0x0401, wparam: 0, lparam: 0 };
    assert_eq!(p.on_message(other).unwrap(), MessageAction::Continue);
}

#[test]
fn creation_asks_create_mut_first() {
    let mut rec = Recorder::new(MessageAction::Pass);
    let created = rec.deliver(HWND, Event::Create { create_param: STATE });
    assert_eq!(created.unwrap(), MessageAction::Continue);
    assert_eq!(rec.calls.take(), vec!["create_mut", "create"]);
    assert_eq!(rec.h_window(), HWND);

    let mut decided = Recorder::new(MessageAction::FullyHandled);
    let r = decided.on_message(Event::Create { create_param: STATE });
    assert_eq!(r.unwrap(), MessageAction::FullyHandled);
    assert_eq!(decided.calls.take(), vec!["create_mut"]);
    assert_eq!(decided.h_window(), 0);
}

#[test]
fn destroy_and_settings_continue() {
    let mut rec = Recorder::new(MessageAction::Pass);
    assert_eq!(rec.on_message(Event::Destroy).unwrap(), MessageAction::Continue);
    let setting = Event::SettingChange { flags: 0, area: 0 };
    assert_eq!(rec.on_message(setting).unwrap(), MessageAction::Continue);
    assert!(rec.calls.take().is_empty());
    let other = Event::Other { code: 0x0402, wparam: 1, lparam: 2 };
    assert_eq!(rec.deliver(HWND, other).unwrap(), MessageAction::Continue);
    assert_eq!(rec.calls.take(), vec!["other"]);
    assert_eq!(rec.h_window(), 0);
}

#[test]
fn context_init_once() {
    let mut ctx = Context::new();
    assert_eq!(ctx.instance(), Err(ContextError::NotInitialized));
    assert_eq!(ctx.register_class("MainWindow"), Err(ContextError::NotInitialized));
    assert_eq!(ctx.init(7), Ok(()));
    assert_eq!(ctx.init(8), Err(ContextError::AlreadyInitialized));
    assert_eq!(ctx.instance(), Ok(7));
    assert_eq!(ctx.register_class("MainWindow"), Ok(7));
    assert!(ctx.is_registered("MainWindow"));
    assert!(!ctx.is_registered("Other"));
    assert_eq!(ctx.register_class("MainWindow"), Err(ContextError::AlreadyRegistered));
}
