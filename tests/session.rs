use maliit_input::error::DbusMaliitServerError;
use maliit_input::facade::{Command, InputMethodState};
use maliit_input::subscription::Subscription;

#[test]
fn stop_without_subscription_is_a_no_op() {
    let mut s = Subscription::new();
    assert!(!s.is_active());
    assert_eq!(s.take(), None);
    assert!(!s.is_active());
}

#[test]
fn second_start_keeps_first_registration() {
    let mut s = Subscription::new();
    assert!(s.record(4).is_ok());
    assert!(matches!(s.record(9), Err(DbusMaliitServerError::AlreadySubscribed)));
    assert!(s.is_active());
    assert_eq!(s.take(), Some(4));
    assert_eq!(s.take(), None);
}

#[test]
fn show_steps_in_order() {
    let mut st = InputMethodState::new();
    assert!(!st.shown);
    let steps = st.to_shown(Some(("hell".to_string(), 0)));
    assert!(st.shown);
    assert_eq!(steps.len(), 4);
    assert!(matches!(steps[0], Command::ActivateContext));
    assert!(matches!(steps[1], Command::ShowInputMethod));
    assert!(matches!(&steps[2], Command::SetPreedit(t, 0) if t == "hell"));
    assert!(matches!(steps[3], Command::StartEventProcessing));
    let plain = st.to_shown(None);
    assert_eq!(plain.len(), 3);
    assert!(matches!(plain[2], Command::StartEventProcessing));
}

#[test]
fn hide_and_reset_steps() {
    let mut st = InputMethodState::new();
    st.to_shown(None);
    let steps = st.to_hidden();
    assert!(!st.shown);
    assert_eq!(steps.len(), 3);
    assert!(matches!(steps[0], Command::ActivateContext));
    assert!(matches!(steps[1], Command::HideInputMethod));
    assert!(matches!(steps[2], Command::StopEventProcessing));
    let r = st.reset_steps();
    assert_eq!(r.len(), 1);
    assert!(matches!(r[0], Command::Reset));
    assert!(!st.shown);
}
