use tg_image_hosting::error::{Error, ErrorKind};

#[test]
fn new_keeps_kind_and_text() {
    let e = Error::new(ErrorKind::NotFound, "File not found");
    assert_eq!(e.kind, ErrorKind::NotFound);
    assert_eq!(e.message, "File not found");
}

#[test]
fn to_text_is_the_message() {
    assert_eq!(Error::new(ErrorKind::Store, "boom").to_text(), "boom");
    assert_eq!(Error::new(ErrorKind::Other, "").to_text(), "");
}

#[test]
fn from_text_is_a_failure_known_by_its_text() {
    let e = Error::from("something broke".to_string());
    assert_eq!(e, Error { kind: ErrorKind::Other, message: "something broke".to_string() });
}

#[test]
fn missing_content_is_answered_with_404() {
    assert_eq!(Error::new(ErrorKind::NotFound, "x").status_code(), 404);
    assert_eq!(Error::new(ErrorKind::PathUnavailable, "x").status_code(), 404);
}

#[test]
fn every_other_failure_is_answered_with_500() {
    for kind in [
        ErrorKind::SchemaMissing,
        ErrorKind::UpstreamTransport,
        ErrorKind::StreamCastFailure,
        ErrorKind::Store,
        ErrorKind::Unsupported,
        ErrorKind::Protocol,
        ErrorKind::Other,
    ] {
        assert_eq!(Error::new(kind, "x").status_code(), 500);
    }
}

#[test]
fn error_clone_is_equal() {
    let e = Error::new(ErrorKind::UpstreamTransport, "status code is not 200, but 500, oops");
    assert_eq!(e.clone(), e);
}

#[test]
fn upstream_and_stream_failures_carry_their_kind() {
    assert_eq!(Error::upstream("timeout"), Error::new(ErrorKind::UpstreamTransport, "timeout"));
    assert_eq!(Error::stream_cast("not a stream"), Error::new(ErrorKind::StreamCastFailure, "not a stream"));
    assert_eq!(Error::unexpected(), Error::new(ErrorKind::Protocol, "unexpected event"));
}
