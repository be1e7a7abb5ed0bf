//! The exception channel: the engine reports a thrown value through an
//! out-parameter slot (null when nothing was thrown) and often a null result
//! as well. The functions here turn that pair into one `Result`, and turn a
//! host `Result` back into the pair.
use vstd::prelude::*;

use crate::string::{utf16_encode, JSString};
use crate::value::{engine_value, text_value, JSValue, ValueModel};

verus! {

/// A thrown JavaScript value, wrapped as the error type of this library.
#[derive(Debug)]
pub struct JSException {
    value: JSValue,
}

impl View for JSException {
    type V = ValueModel;

    closed spec fn view(&self) -> ValueModel {
        self.value@
    }
}

/// The model of a result whose error is an exception.
pub open spec fn value_outcome(r: Result<JSValue, JSException>) -> Result<ValueModel, ValueModel> {
    match r {
        Ok(v) => Ok(v@),
        Err(e) => Err(e@),
    }
}

/// What an engine call that yields a value handle amounts to: the thrown
/// value if the slot is set, else the result if it is not null, else an
/// exception carrying `failure`.
pub open spec fn handle_outcome(
    ctx: usize,
    result: usize,
    exception: usize,
    failure: Seq<char>,
) -> Result<ValueModel, ValueModel> {
    if exception != 0 {
        Err(engine_value(ctx, exception))
    } else if result == 0 {
        Err(text_value(ctx, utf16_encode(failure)))
    } else {
        Ok(engine_value(ctx, result))
    }
}

impl JSException {
    /// Wraps `value` as an exception.
    pub fn new(value: JSValue) -> (r: JSException)
        ensures
            r@ == value@,
    {
        JSException { value }
    }

    /// An exception raised on the host side, carrying the string `message`.
    pub fn from_message(ctx: usize, message: &str) -> (r: JSException)
        ensures
            r@ == text_value(ctx, utf16_encode(message@)),
    {
        JSException { value: JSValue::new_string_inner(ctx, JSString::from_text(message)) }
    }

    /// The value backing the exception.
    pub fn underlying_value(&self) -> (r: &JSValue)
        ensures
            r@ == self@,
    {
        &self.value
    }

    /// The value backing the exception, by value.
    pub fn into_value(self) -> (r: JSValue)
        ensures
            r@ == self@,
    {
        self.value
    }
}

impl From<JSValue> for JSException {
    fn from(value: JSValue) -> (r: JSException)
        ensures
            r@ == value@,
    {
        JSException { value }
    }
}

impl vstd::std_specs::convert::FromSpecImpl<JSValue> for JSException {
    open spec fn obeys_from_spec() -> bool {
        true
    }

    closed spec fn from_spec(v: JSValue) -> JSException {
        JSException { value: v }
    }
}

/// The outcome of an engine call whose only failure signal is the slot:
/// `Ok` exactly when nothing was thrown.
pub fn check_exception(ctx: usize, exception: usize) -> (r: Result<(), JSException>)
    ensures
        r is Ok <==> exception == 0,
        r matches Err(e) ==> e@ == engine_value(ctx, exception),
{
    if exception != 0 {
        Err(JSException::new(JSValue::from_raw(ctx, exception)))
    } else {
        Ok(())
    }
}

/// The outcome of an engine call that returns a value handle, null on
/// failure. A thrown value wins over the result; a null result with nothing
/// thrown becomes an exception carrying `failure`.
pub fn value_or_exception(ctx: usize, result: usize, exception: usize, failure: &str) -> (r: Result<
    JSValue,
    JSException,
>)
    ensures
        value_outcome(r) == handle_outcome(ctx, result, exception, failure@),
{
    if exception != 0 {
        Err(JSException::new(JSValue::from_raw(ctx, exception)))
    } else if result == 0 {
        Err(JSException::from_message(ctx, failure))
    } else {
        Ok(JSValue::from_raw(ctx, result))
    }
}

/// The outcome of an engine query that returns a plain number and reports
/// failure through the slot alone.
pub fn count_or_exception(ctx: usize, count: usize, exception: usize) -> (r: Result<
    usize,
    JSException,
>)
    ensures
        r is Ok <==> exception == 0,
        r matches Ok(n) ==> n == count,
        r matches Err(e) ==> e@ == engine_value(ctx, exception),
{
    match check_exception(ctx, exception) {
        Ok(()) => Ok(count),
        Err(e) => Err(e),
    }
}

/// The outcome of a numeric conversion: a thrown value if the slot is set,
/// else an exception carrying `failure` if the engine returned NaN.
pub fn number_status(ctx: usize, exception: usize, is_nan: bool, failure: &str) -> (r: Result<
    (),
    JSException,
>)
    ensures
        r is Ok <==> (exception == 0 && !is_nan),
        r matches Err(e) ==> e@ == (if exception != 0 {
            engine_value(ctx, exception)
        } else {
            text_value(ctx, utf16_encode(failure@))
        }),
{
    if exception != 0 {
        Err(JSException::new(JSValue::from_raw(ctx, exception)))
    } else if is_nan {
        Err(JSException::from_message(ctx, failure))
    } else {
        Ok(())
    }
}

/// The outcome of an engine call that yields a string (copied into `result`
/// when the engine returned one). A thrown value wins over the result; a
/// missing result with nothing thrown becomes an exception carrying `failure`.
pub fn string_or_exception(
    ctx: usize,
    result: Option<JSString>,
    exception: usize,
    failure: &str,
) -> (r: Result<JSString, JSException>)
    ensures
        exception != 0 ==> (r matches Err(e) && e@ == engine_value(ctx, exception)),
        exception == 0 && result is None ==> (r matches Err(e) && e@ == text_value(
            ctx,
            utf16_encode(failure@),
        )),
        exception == 0 && result is Some ==> (r matches Ok(s) && s@ == result->0@),
{
    if exception != 0 {
        return Err(JSException::new(JSValue::from_raw(ctx, exception)));
    }
    match result {
        Some(s) => Ok(s),
        None => Err(JSException::from_message(ctx, failure)),
    }
}

} // verus!
