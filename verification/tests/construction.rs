use xcb_util_cursor::{ConstructionError, CursorContext};

#[test]
fn nonnull_handle_means_success() {
    let context = CursorContext::from_native(0, 0x5591d2a0).unwrap();
    assert_eq!(context.raw_handle(), 0x5591d2a0);
}

#[test]
fn null_handle_means_failure_with_the_status_as_payload() {
    let err = CursorContext::from_native(7, 0).unwrap_err();
    assert_eq!(err, ConstructionError { status: 7 });
}

#[test]
fn null_handle_fails_even_with_a_clean_status() {
    // The resolver may signal failure through the handle alone; the
    // handle's nullity is authoritative, not the status code.
    let err = CursorContext::from_native(0, 0).unwrap_err();
    assert_eq!(err, ConstructionError { status: 0 });
}

#[test]
fn nonzero_status_with_a_live_handle_still_succeeds() {
    // The status code is diagnostic payload only: a non-null handle is a
    // live context whatever the code says.
    let context = CursorContext::from_native(-1, 4096).unwrap();
    assert_eq!(context.raw_handle(), 4096);
}
