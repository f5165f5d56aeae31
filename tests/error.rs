use notifications::error::Error;
use notifications::ffi::{
    bridge_trigger, decoded, encoded, parse_void, parse_void_handle, response_text, FFIResult,
};
use notifications::Result;
use std::io;

#[test]
fn test_io_error_conversion() {
    let io_err = io::Error::new(io::ErrorKind::NotFound, "file not found");
    let err: Error = io_err.into();
    assert!(matches!(err, Error::Io(_)));
}

#[test]
fn test_io_error_display() {
    let io_err = io::Error::new(io::ErrorKind::NotFound, "test error");
    let err = Error::from(io_err);
    let display_str = err.to_string();
    assert!(display_str.contains("test error"));
}

#[test]
fn test_result_type_err() {
    let io_err = io::Error::other("test");
    let result: Result<i32> = Err(Error::from(io_err));
    assert!(result.is_err());
}

#[test]
fn error_texts() {
    assert_eq!(Error::Io("disk".to_string()).to_string(), "disk");
    let rejected = Error::InvokeRejected { code: None, message: Some("no".to_string()) };
    assert_eq!(rejected.to_string(), "no");
    let bare = Error::InvokeRejected { code: Some("0x1".to_string()), message: None };
    assert_eq!(bare.to_string(), "invoke rejected");
    assert_eq!(
        Error::CannotDeserializeResponse("eof".to_string()).to_string(),
        "failed to deserialize response: eof"
    );
    assert_eq!(
        Error::CannotSerializePayload("key".to_string()).to_string(),
        "failed to serialize payload: key"
    );
}

fn is_rejection(r: &Result<()>, text: &str) -> bool {
    matches!(r, Err(Error::InvokeRejected { code: None, message: Some(m) }) if m == text)
}

#[test]
fn native_failures_become_rejections() {
    assert!(parse_void(Ok(())).is_ok());
    assert!(is_rejection(&parse_void(Err(FFIResult::Failed("denied".to_string()))), "denied"));
    assert!(parse_void_handle(Ok(17)).is_ok());
    assert!(is_rejection(
        &parse_void_handle(Err(FFIResult::Failed("busy".to_string()))),
        "busy"
    ));
    assert_eq!(response_text(Ok("{}".to_string())).unwrap(), "{}");
    assert!(matches!(
        response_text(Err(FFIResult::Failed("x".to_string()))),
        Err(Error::InvokeRejected { code: None, message: Some(m) }) if m == "x"
    ));
}

#[test]
fn decoding_and_encoding_failures() {
    assert_eq!(decoded::<i32>(Ok(3)).unwrap(), 3);
    assert!(matches!(
        decoded::<i32>(Err("expected value".to_string())),
        Err(Error::CannotDeserializeResponse(d)) if d == "expected value"
    ));
    assert_eq!(encoded(Ok("[]".to_string())).unwrap(), "[]");
    assert!(matches!(
        encoded(Err("bad".to_string())),
        Err(Error::CannotSerializePayload(d)) if d == "bad"
    ));
}

#[test]
fn bridge_trigger_names_the_event() {
    assert!(bridge_trigger("actionPerformed", Ok(())).is_ok());
    match bridge_trigger("notification", Err("closed".to_string())) {
        Err(FFIResult::Failed(m)) => {
            assert_eq!(m, "Failed to trigger event 'notification': closed")
        }
        Ok(()) => panic!("expected a failure"),
    }
}
