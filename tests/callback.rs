use javascriptcore::callback::{constructor_trampoline, function_trampoline, reply, CallbackReply};
use javascriptcore::{JSContext, JSException, JSObject, JSString, JSValue};

fn two_arguments(
    ctx: &JSContext,
    _function: Option<&JSObject>,
    _this_object: Option<&JSObject>,
    arguments: &[JSValue],
) -> Result<JSValue, JSException> {
    if arguments.len() != 2 {
        return Err(JSValue::new_string(ctx, JSString::from("must receive 2 arguments")).into());
    }
    Ok(JSValue::from_raw(ctx.raw(), arguments[1].handle().unwrap()))
}

#[test]
fn callback_receives_its_arguments_and_returns() {
    let raw_args = [3usize, 4];
    let r = function_trampoline(100, 0, 0, 2, Some(&raw_args[..]), two_arguments);
    match &r {
        CallbackReply::Return(v) => assert_eq!(v.handle(), Some(4)),
        CallbackReply::Throw(_) => panic!("expected a value"),
    }
    assert_eq!(r.channels(55), (55, 0));
}

#[test]
fn callback_error_is_thrown() {
    let r = function_trampoline(100, 0, 0, 0, None, two_arguments);
    match &r {
        CallbackReply::Throw(e) => assert!(e.host_text().unwrap().eq_text("must receive 2 arguments")),
        CallbackReply::Return(_) => panic!("expected an exception"),
    }
    assert_eq!(r.channels(56), (0, 56));
}

#[test]
fn zero_count_means_no_arguments() {
    let raw_args = [3usize, 4];
    let r = function_trampoline(100, 0, 0, 0, Some(&raw_args[..0]), |_c: &JSContext, _f: Option<&JSObject>, _t: Option<&JSObject>, a: &[JSValue]| {
        assert!(a.is_empty());
        Ok(JSValue::from_raw(100, 1))
    });
    assert!(matches!(r, CallbackReply::Return(_)));
}

#[test]
fn callback_context_is_borrowed_and_null_objects_absent() {
    let r = function_trampoline(100, 0, 8, 0, None, |c: &JSContext, f: Option<&JSObject>, t: Option<&JSObject>, _a: &[JSValue]| {
        assert!(!c.owns_handle());
        assert_eq!(c.raw(), 100);
        assert!(f.is_none());
        assert_eq!(t.unwrap().raw(), 8);
        Ok(JSValue::from_raw(100, 2))
    });
    assert_eq!(r.value().handle(), Some(2));
}

#[test]
fn constructor_callback_gets_the_constructor() {
    let raw_args = [21usize];
    let r = constructor_trampoline(100, 33, 1, Some(&raw_args[..]), |c: &JSContext, o: &JSObject, a: &[JSValue]| {
        assert!(!c.owns_handle());
        assert_eq!(a.len(), 1);
        assert_eq!(a[0].handle(), Some(21));
        Ok(o.as_value())
    });
    assert_eq!(r.value().handle(), Some(33));
}

#[test]
fn reply_of_results() {
    let ok = reply(Ok(JSValue::from_raw(1, 5)));
    assert_eq!(ok.channels(5), (5, 0));
    let err = reply(Err(JSValue::from_raw(1, 6).into()));
    assert_eq!(err.channels(6), (0, 6));
}

#[test]
fn failing_host_function_makes_the_call_throw() {
    let r = function_trampoline(100, 0, 0, 0, None, |c: &JSContext, _f: Option<&JSObject>, _t: Option<&JSObject>, _a: &[JSValue]| {
        Err(JSValue::new_string(c, JSString::from("boom")).into())
    });
    match &r {
        CallbackReply::Throw(e) => assert!(e.host_text().unwrap().eq_text("boom")),
        CallbackReply::Return(_) => panic!("expected an exception"),
    }
    assert_eq!(r.channels(57), (0, 57));
}
