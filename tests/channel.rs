use javascriptcore::exception::{
    check_exception, count_or_exception, number_status, string_or_exception, value_or_exception,
};
use javascriptcore::object::object_or_exception;
use javascriptcore::{JSContext, JSException, JSString, JSValue};

#[test]
fn unset_slot_is_success() {
    assert!(check_exception(1, 0).is_ok());
}

#[test]
fn set_slot_is_the_thrown_value() {
    let e = check_exception(1, 42).unwrap_err();
    assert_eq!(e.underlying_value().handle(), Some(42));
    assert_eq!(e.underlying_value().context(), 1);
}

#[test]
fn thrown_value_wins_over_a_result() {
    let e = value_or_exception(1, 7, 9, "failed").unwrap_err();
    assert_eq!(e.underlying_value().handle(), Some(9));
}

#[test]
fn result_handle_is_the_value() {
    let v = value_or_exception(1, 7, 0, "failed").unwrap();
    assert_eq!(v.handle(), Some(7));
    assert_eq!(v.context(), 1);
}

#[test]
fn null_result_without_exception_is_a_host_message() {
    let e = value_or_exception(1, 0, 0, "Failed to make a new array").unwrap_err();
    let v = e.underlying_value();
    assert_eq!(v.handle(), None);
    assert!(v.host_text().unwrap().eq_text("Failed to make a new array"));
}

#[test]
fn null_object_without_exception_is_a_host_message() {
    let e = object_or_exception(3, 0, 0, "not a valid function").unwrap_err();
    assert!(e.underlying_value().host_text().unwrap().eq_text("not a valid function"));
    let o = object_or_exception(3, 5, 0, "not a valid function").unwrap();
    assert_eq!(o.raw(), 5);
    assert_eq!(o.context(), 3);
}

#[test]
fn counts_pass_through_unless_thrown() {
    assert_eq!(count_or_exception(1, 5, 0).unwrap(), 5);
    assert_eq!(count_or_exception(1, 5, 8).unwrap_err().underlying_value().handle(), Some(8));
}

#[test]
fn nan_without_exception_is_a_host_message() {
    assert!(number_status(1, 0, false, "not a number").is_ok());
    let e = number_status(1, 0, true, "not a number").unwrap_err();
    assert!(e.underlying_value().host_text().unwrap().eq_text("not a number"));
    let e = number_status(1, 4, true, "not a number").unwrap_err();
    assert_eq!(e.underlying_value().handle(), Some(4));
}

#[test]
fn string_results() {
    let s = string_or_exception(1, Some(JSString::from("abc")), 0, "no string").unwrap();
    assert_eq!(s, "abc");
    let e = string_or_exception(1, None, 0, "no string").unwrap_err();
    assert!(e.underlying_value().host_text().unwrap().eq_text("no string"));
    let e = string_or_exception(1, Some(JSString::from("abc")), 6, "no string").unwrap_err();
    assert_eq!(e.underlying_value().handle(), Some(6));
}

#[test]
fn exception_wraps_its_value() {
    let e: JSException = JSValue::from_raw(2, 11).into();
    assert_eq!(e.underlying_value().handle(), Some(11));
    assert_eq!(e.into_value().context(), 2);
}

#[test]
fn host_string_value() {
    let ctx = JSContext::from_raw(5);
    let v = JSValue::new_string(&ctx, JSString::from("abc"));
    assert!(v.handle().is_none());
    assert_eq!(v.context(), 5);
    assert!(v.host_text().unwrap().eq_text("abc"));
    assert!(!v.is_null_handle());
}

#[test]
fn invalid_json_is_absent() {
    assert!(JSValue::from_json_handle(1, 0).is_none());
    assert_eq!(JSValue::from_json_handle(1, 12).unwrap().handle(), Some(12));
}

#[test]
fn global_object_null_is_an_error() {
    let ctx = JSContext::from_raw(5);
    assert!(ctx.global_object(0).is_err());
    assert_eq!(ctx.global_object(77).unwrap().raw(), 77);
}
