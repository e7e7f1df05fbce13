use shell_commands::window::{step, ShowAction, ShowError, ShowEvent, ShowState, MAIN_WINDOW};

#[test]
fn main_label_is_main() {
    assert_eq!(MAIN_WINDOW, "main");
}

#[test]
fn hidden_main_window_is_shown_on_invocation() {
    let (s, a) = step(ShowState::Idle, ShowEvent::Invoked);
    assert_eq!((s, a), (ShowState::LookingUp, ShowAction::LookUp));
    let (s, a) = step(s, ShowEvent::WindowFound);
    assert_eq!((s, a), (ShowState::Showing, ShowAction::Show));
    let (s, a) = step(s, ShowEvent::Shown);
    assert_eq!((s, a), (ShowState::Done, ShowAction::Finish(Ok(()))));
}

#[test]
fn missing_main_window_is_reported() {
    let (s, _) = step(ShowState::Idle, ShowEvent::Invoked);
    let (s, a) = step(s, ShowEvent::WindowMissing);
    assert_eq!(s, ShowState::Done);
    assert_eq!(a, ShowAction::Finish(Err(ShowError::WindowNotFound)));
}

#[test]
fn refused_show_is_reported() {
    let (s, _) = step(ShowState::Idle, ShowEvent::Invoked);
    let (s, _) = step(s, ShowEvent::WindowFound);
    let (s, a) = step(s, ShowEvent::ShowRefused);
    assert_eq!(s, ShowState::Done);
    assert_eq!(a, ShowAction::Finish(Err(ShowError::ShowFailed)));
}

#[test]
fn done_ignores_every_reply() {
    let events = [
        ShowEvent::Invoked,
        ShowEvent::WindowFound,
        ShowEvent::WindowMissing,
        ShowEvent::Shown,
        ShowEvent::ShowRefused,
    ];
    for e in events {
        assert_eq!(step(ShowState::Done, e), (ShowState::Done, ShowAction::Ignore));
    }
}

#[test]
fn out_of_order_replies_are_ignored() {
    assert_eq!(step(ShowState::Idle, ShowEvent::Shown), (ShowState::Idle, ShowAction::Ignore));
    assert_eq!(
        step(ShowState::LookingUp, ShowEvent::Shown),
        (ShowState::LookingUp, ShowAction::Ignore)
    );
    assert_eq!(
        step(ShowState::Showing, ShowEvent::WindowMissing),
        (ShowState::Showing, ShowAction::Ignore)
    );
    assert_eq!(
        step(ShowState::LookingUp, ShowEvent::Invoked),
        (ShowState::LookingUp, ShowAction::Ignore)
    );
}

#[test]
fn error_messages() {
    assert_eq!(
        ShowError::WindowNotFound.message(),
        "no window is registered under the main label"
    );
    assert_eq!(ShowError::ShowFailed.message(), "the main window could not be shown");
}
