use rustclr::capture::ClrOutput;
use rustclr::error::ClrError;
use rustclr::value::ClrValue;

#[test]
fn redirect_then_restore_returns_previous_sinks() {
    let mut capture = ClrOutput::new();
    capture.redirect(
        ClrValue::Object(10),
        ClrValue::Object(20),
        ClrValue::Object(30),
    );
    let restored = capture.restore();
    assert_eq!(
        restored,
        Some((ClrValue::Object(20), ClrValue::Object(30)))
    );
}

#[test]
fn second_restore_is_a_no_op() {
    let mut capture = ClrOutput::new();
    capture.redirect(
        ClrValue::Object(10),
        ClrValue::Object(20),
        ClrValue::Object(30),
    );
    assert!(capture.restore().is_some());
    assert_eq!(capture.restore(), None);
    assert_eq!(capture.restore(), None);
}

#[test]
fn restore_without_redirect_is_a_no_op() {
    let mut capture = ClrOutput::new();
    assert_eq!(capture.restore(), None);
}

#[test]
fn capture_requires_engaged_redirect() {
    let capture = ClrOutput::new();
    assert_eq!(
        capture.capture().err(),
        Some(ClrError::ErrorClr("No StringWriter instance found"))
    );
    let mut engaged = ClrOutput::new();
    engaged.redirect(
        ClrValue::Object(1),
        ClrValue::Object(2),
        ClrValue::Object(3),
    );
    assert_eq!(engaged.capture().ok(), Some(&ClrValue::Object(1)));
}
