use std::cell::Cell;

use otf2::error::Status;
use otf2::handle::Handle;
use otf2::handle::NullHandle;
use otf2::handle::OwnedExternHandle;
use otf2::native::ErrorCode;
use otf2::native::OTF2_ERROR_EACCES;
use otf2::native::OTF2_SUCCESS;

#[test]
fn test_handle() {
    let mut handle: Handle<i32> = Handle::from_raw(42).expect("Failed to create handle");
    assert_eq!(handle.as_ptr(), 42);
    assert_eq!(handle.as_mut_ptr(), 42);
    assert!(!handle.is_null());
    let dropped_value = handle.take();
    assert!(handle.is_null());
    assert_eq!(dropped_value, 42);
    let other_handle: Option<Handle<bool>> = Handle::from_raw(0);
    assert!(other_handle.is_none());
}

#[test]
fn take_on_an_empty_handle_returns_null() {
    let mut handle: Handle<u8> = Handle::from_raw_unchecked(0);
    assert!(handle.is_null());
    assert_eq!(handle.take(), 0);
    assert!(handle.is_null());
    let live: Handle<u8> = Handle::from_raw_unchecked(7);
    assert_eq!(live.into_raw(), 7);
}

#[test]
fn acquire_refuses_the_null_address() {
    let acquired = OwnedExternHandle::new(0, |_ptr: usize| ErrorCode(OTF2_SUCCESS));
    assert!(matches!(acquired, Err(NullHandle)));
    let live = OwnedExternHandle::new(16, |_ptr: usize| ErrorCode(OTF2_SUCCESS));
    assert!(live.is_ok());
    let live = live.ok().unwrap();
    assert!(!live.dropped());
    assert_eq!(live.as_raw(), 16);
}

#[test]
fn release_calls_the_release_function_exactly_once() {
    let calls = Cell::new(0u32);
    let seen = Cell::new(0usize);
    let mut handle = OwnedExternHandle::new(4096, |ptr: usize| {
        calls.set(calls.get() + 1);
        seen.set(ptr);
        ErrorCode(OTF2_SUCCESS)
    })
    .ok()
    .unwrap();
    assert!(!handle.dropped());
    assert_eq!(handle.as_raw_mut(), 4096);
    assert_eq!(handle.drop_handle(), Ok(()));
    assert!(handle.dropped());
    assert_eq!(calls.get(), 1);
    assert_eq!(seen.get(), 4096);
    assert_eq!(handle.drop_handle(), Ok(()));
    assert_eq!(handle.drop_handle(), Ok(()));
    assert!(handle.dropped());
    assert_eq!(calls.get(), 1);
}

#[test]
fn release_returns_what_the_release_function_returned() {
    let calls = Cell::new(0u32);
    let mut handle = OwnedExternHandle::new(8, |_ptr: usize| {
        calls.set(calls.get() + 1);
        ErrorCode(OTF2_ERROR_EACCES)
    })
    .ok()
    .unwrap();
    assert_eq!(
        handle.drop_handle(),
        Err(Status::from(ErrorCode(OTF2_ERROR_EACCES)))
    );
    assert!(handle.dropped());
    assert_eq!(handle.drop_handle(), Ok(()));
    assert_eq!(calls.get(), 1);
}

#[test]
fn no_handle_is_made_for_the_null_address_and_nothing_is_called() {
    let calls = Cell::new(0u32);
    {
        let refused = OwnedExternHandle::new(0, |_ptr: usize| {
            calls.set(calls.get() + 1);
            ErrorCode(OTF2_ERROR_EACCES)
        });
        assert!(matches!(refused, Err(NullHandle)));
    }
    assert_eq!(calls.get(), 0);
}

#[test]
fn drop_handle_unsafe_hands_back_any_result_type() {
    let mut handle = OwnedExternHandle::new(24, |ptr: usize| ptr * 2)
        .ok()
        .unwrap();
    assert_eq!(handle.drop_handle_unsafe(), 48);
    assert!(handle.dropped());
}
