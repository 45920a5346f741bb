use gui::diagnostics::error_code_page;
use gui::quiz::{Quiz, QuizError};
use gui::message::{CHAR, KEY_DOWN, KEY_UP, PAINT};
use gui::subclass::{
    edit_action, SubclassAction, NOTIFY_ENTER, NOTIFY_ESC, NOTIFY_TAB, VK_ESCAPE, VK_RETURN, VK_TAB,
};
use gui::theme::{is_theme_area, theme_from_setting, Theme};
use gui::window::{Point, StateInfo, USE_DEFAULT};
use gui::words::{hiword, loword, rgb};

#[test]
fn words_of_a_payload() {
    assert_eq!(loword(0x1234_5678), 0x5678);
    assert_eq!(hiword(0x1234_5678), 0x1234);
    assert_eq!(hiword(0xffff_0000_abcd_0001), 0xabcd);
    assert_eq!(loword(0), 0);
}

#[test]
fn colour_reference() {
    assert_eq!(rgb(0x12, 0x34, 0x56), 0x0056_3412);
    assert_eq!(rgb(255, 255, 255), 0x00ff_ffff);
    assert_eq!(rgb(0, 0, 0), 0);
}

#[test]
fn theme_flag() {
    assert_eq!(theme_from_setting([0, 0, 0, 0]), Theme::Dark);
    assert_eq!(theme_from_setting([1, 0, 0, 0]), Theme::Light);
    assert_eq!(theme_from_setting([2, 0, 0, 0]), Theme::Unknown);
    assert_eq!(theme_from_setting([1, 0, 0, 1]), Theme::Unknown);
}

#[test]
fn default_point_left_to_host() {
    let p = Point::default();
    assert_eq!(p, Point { x: USE_DEFAULT, y: USE_DEFAULT });
    assert_eq!(USE_DEFAULT, i32::MIN);
    assert_eq!(StateInfo::new("hello").info, "hello");
    assert_eq!(StateInfo::new("hello").h_window, 0);
}

#[test]
fn quiz_answers_in_order() {
    let mut quiz = Quiz::new("Current mood");
    quiz.add_question("Did you wake up early?")
        .add_question("Did you drink your coffee?")
        .add_question("Did you pet the katzie?");
    assert_eq!(quiz.len(), 3);
    assert_eq!(quiz.title(), "Current mood");
    assert_eq!(quiz.answer(Some(true)), Ok(()));
    assert_eq!(quiz.answer(Some(false)), Ok(()));
    assert_eq!(quiz.current(), 2);
    assert_eq!(quiz.question(2), "Did you pet the katzie?");
    assert_eq!(quiz.answer(None), Err(QuizError::Cancelled));
    assert_eq!(quiz.cancelled_after(), 3);
    assert_eq!(quiz.answer(Some(true)), Ok(()));
    assert_eq!(quiz.answer(Some(true)), Err(QuizError::Finished));
    assert_eq!(
        (quiz.response(0), quiz.response(1), quiz.response(2)),
        (Some(true), Some(false), Some(true))
    );
}

#[test]
fn quiz_cancelled_at_first_question() {
    let mut quiz = Quiz::new("t");
    quiz.add_question("q");
    assert_eq!(quiz.answer(None), Err(QuizError::Cancelled));
    assert_eq!(quiz.cancelled_after(), 1);
    assert_eq!(quiz.response(0), None);
}

#[test]
fn error_code_pages() {
    assert_eq!(error_code_page(0), Some((0, 499)));
    assert_eq!(error_code_page(499), Some((0, 499)));
    assert_eq!(error_code_page(500), Some((500, 999)));
    assert_eq!(error_code_page(1400), Some((1300, 1699)));
    assert_eq!(error_code_page(15999), Some((12000, 15999)));
    assert_eq!(error_code_page(16000), None);
}

#[test]
fn theme_area_name() {
    assert!(is_theme_area(&String::from("ImmersiveColorSet")));
    assert!(!is_theme_area(&String::from("ImmersiveColorSe")));
    assert!(!is_theme_area(&String::from("Policy")));
}

#[test]
fn subclassed_field_keys() {
    assert_eq!(edit_action(KEY_DOWN, VK_TAB), SubclassAction::Notify { code: NOTIFY_TAB });
    assert_eq!(edit_action(KEY_DOWN, VK_ESCAPE), SubclassAction::Notify { code: NOTIFY_ESC });
    assert_eq!(edit_action(KEY_DOWN, VK_RETURN), SubclassAction::Notify { code: NOTIFY_ENTER });
    assert_eq!(NOTIFY_TAB, 0x0400);
    assert_eq!(NOTIFY_ENTER, 0x0402);
    assert_eq!(edit_action(KEY_DOWN, 0x41), SubclassAction::CallSaved);
    assert_eq!(edit_action(KEY_UP, VK_TAB), SubclassAction::Swallow);
    assert_eq!(edit_action(CHAR, VK_RETURN), SubclassAction::Swallow);
    assert_eq!(edit_action(CHAR, 0x61), SubclassAction::CallSaved);
    assert_eq!(edit_action(PAINT, VK_TAB), SubclassAction::CallSaved);
}
