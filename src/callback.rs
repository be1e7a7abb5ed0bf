//! The bodies of the callbacks the engine invokes: marshal the raw call into
//! host values, run the host function, and hand its `Result` back through the
//! engine's two channels.
use vstd::prelude::*;

use crate::context::{ContextModel, JSContext};
use crate::exception::{handle_outcome, value_outcome, JSException};
use crate::object::{optional_object, JSObject, ObjectModel};
use crate::value::{engine_value, JSValue, ValueModel};

verus! {

/// What a callback hands back, as the contracts see it.
pub enum ReplyModel {
    Return(ValueModel),
    Throw(ValueModel),
}

/// The reply owed for a host result: a value is returned, an exception thrown.
pub open spec fn reply_of(result: Result<ValueModel, ValueModel>) -> ReplyModel {
    match result {
        Ok(v) => ReplyModel::Return(v),
        Err(e) => ReplyModel::Throw(e),
    }
}

/// What a host callback hands back to the engine.
#[derive(Debug)]
pub enum CallbackReply {
    /// The call completed with this value; the exception slot is cleared.
    Return(JSValue),
    /// The call threw this value; the nominal result is null.
    Throw(JSValue),
}

impl View for CallbackReply {
    type V = ReplyModel;

    open spec fn view(&self) -> ReplyModel {
        match self {
            CallbackReply::Return(v) => ReplyModel::Return(v@),
            CallbackReply::Throw(e) => ReplyModel::Throw(e@),
        }
    }
}

/// The two channels for a reply whose value became the engine handle
/// `handle`: the returned handle first, the exception slot second.
pub open spec fn reply_channels(reply: ReplyModel, handle: usize) -> (usize, usize) {
    match reply {
        ReplyModel::Return(_) => (handle, 0),
        ReplyModel::Throw(_) => (0, handle),
    }
}

impl CallbackReply {
    /// The value carried by the reply, returned or thrown.
    pub fn value(&self) -> (r: &JSValue)
        ensures
            match self@ {
                ReplyModel::Return(v) => r@ == v,
                ReplyModel::Throw(e) => r@ == e,
            },
    {
        match self {
            CallbackReply::Return(v) => v,
            CallbackReply::Throw(e) => e,
        }
    }

    /// The returned handle and the exception slot, once the carried value
    /// became the engine handle `handle`. At most one of them is not null.
    pub fn channels(&self, handle: usize) -> (r: (usize, usize))
        ensures
            r == reply_channels(self@, handle),
            r.0 == 0 || r.1 == 0,
    {
        match self {
            CallbackReply::Return(_) => (handle, 0),
            CallbackReply::Throw(_) => (0, handle),
        }
    }
}

/// Turns a host result into the reply for the engine.
pub fn reply(result: Result<JSValue, JSException>) -> (r: CallbackReply)
    ensures
        r@ == reply_of(value_outcome(result)),
{
    match result {
        Ok(v) => CallbackReply::Return(v),
        Err(e) => CallbackReply::Throw(e.into_value()),
    }
}

/// The arguments a callback receives for a raw argument array: none when the
/// count is zero or the array is missing, else one engine value per handle.
pub open spec fn marshalled(ctx: usize, argument_count: usize, arguments: Option<Seq<usize>>) -> Seq<
    ValueModel,
> {
    match arguments {
        Some(a) if argument_count != 0 => a.map_values(|raw: usize| engine_value(ctx, raw)),
        _ => Seq::empty(),
    }
}

/// The models of a sequence of values.
pub open spec fn value_models(values: Seq<JSValue>) -> Seq<ValueModel> {
    values.map_values(|v: JSValue| v@)
}

/// Marshals the raw argument array of a call into values of context `ctx`.
pub fn marshal_arguments(ctx: usize, argument_count: usize, arguments: Option<&[usize]>) -> (r: Vec<
    JSValue,
>)
    requires
        arguments matches Some(a) ==> a@.len() == argument_count,
    ensures
        value_models(r@) == marshalled(
            ctx,
            argument_count,
            match arguments {
                Some(a) => Some(a@),
                None => None,
            },
        ),
{
    let mut out: Vec<JSValue> = Vec::new();
    match arguments {
        Some(a) => {
            if argument_count != 0 {
                let mut i: usize = 0;
                while i < a.len()
                    invariant
                        0 <= i <= a@.len(),
                        out@.len() == i,
                        forall|j: int| 0 <= j < i ==> (#[trigger] out@[j])@ == engine_value(ctx, a@[j]),
                    decreases a@.len() - i,
                {
                    out.push(JSValue::from_raw(ctx, a[i]));
                    i = i + 1;
                }
            }
        },
        None => {},
    }
    assert(value_models(out@) =~= marshalled(
        ctx,
        argument_count,
        match arguments {
            Some(a) => Some(a@),
            None => None,
        },
    ));
    out
}

/// The model of an optional borrowed object.
pub open spec fn optional_model(o: Option<&JSObject>) -> Option<ObjectModel> {
    match o {
        Some(x) => Some(x@),
        None => None,
    }
}

/// The body of a function callback.
///
/// The context is borrowed, never owned: the engine still owns it. Null
/// callee and receiver handles become `None`. The host function's result is
/// turned into the reply, so a host function that fails makes the engine-side
/// call throw.
pub fn function_trampoline<F>(
    raw_ctx: usize,
    function: usize,
    this_object: usize,
    argument_count: usize,
    arguments: Option<&[usize]>,
    callback: F,
) -> (r: CallbackReply) where
    F: Fn(&JSContext, Option<&JSObject>, Option<&JSObject>, &[JSValue]) -> Result<JSValue, JSException>,

    requires
        raw_ctx != 0,
        arguments matches Some(a) ==> a@.len() == argument_count,
        forall|c: &JSContext, f: Option<&JSObject>, t: Option<&JSObject>, a: &[JSValue]|
            callback.requires((c, f, t, a)),
    ensures
        exists|
            c: &JSContext,
            f: Option<&JSObject>,
            t: Option<&JSObject>,
            a: &[JSValue],
            res: Result<JSValue, JSException>,
        |
            {
                &&& #[trigger] callback.ensures((c, f, t, a), res)
                &&& c@ == (ContextModel { raw: raw_ctx, owned: false })
                &&& optional_model(f) == optional_object(raw_ctx, function)
                &&& optional_model(t) == optional_object(raw_ctx, this_object)
                &&& value_models(a@) == marshalled(
                    raw_ctx,
                    argument_count,
                    match arguments {
                        Some(x) => Some(x@),
                        None => None,
                    },
                )
                &&& r@ == reply_of(value_outcome(res))
            },
        (forall|
            c: &JSContext,
            f: Option<&JSObject>,
            t: Option<&JSObject>,
            a: &[JSValue],
            res: Result<JSValue, JSException>,
        | #[trigger] callback.ensures((c, f, t, a), res) ==> res is Err) ==> r is Throw,
{
    let ctx = JSContext::borrowed(raw_ctx);
    let function = JSObject::from_raw_optional(raw_ctx, function);
    let this_object = JSObject::from_raw_optional(raw_ctx, this_object);
    let args = marshal_arguments(raw_ctx, argument_count, arguments);
    let f = function.as_ref();
    let t = this_object.as_ref();
    let a = args.as_slice();
    let result = callback(&ctx, f, t, a);
    let r = reply(result);
    assert(callback.ensures((&ctx, f, t, a), result));
    r
}


/// The body of a constructor callback.
///
/// The context is borrowed, never owned. The constructor object is passed as
/// it is: a constructor call has no separate receiver.
pub fn constructor_trampoline<F>(
    raw_ctx: usize,
    constructor: usize,
    argument_count: usize,
    arguments: Option<&[usize]>,
    callback: F,
) -> (r: CallbackReply) where
    F: Fn(&JSContext, &JSObject, &[JSValue]) -> Result<JSValue, JSException>,

    requires
        raw_ctx != 0,
        arguments matches Some(a) ==> a@.len() == argument_count,
        forall|c: &JSContext, o: &JSObject, a: &[JSValue]| callback.requires((c, o, a)),
    ensures
        exists|c: &JSContext, o: &JSObject, a: &[JSValue], res: Result<JSValue, JSException>|
            {
                &&& #[trigger] callback.ensures((c, o, a), res)
                &&& c@ == (ContextModel { raw: raw_ctx, owned: false })
                &&& o@ == (ObjectModel { ctx: raw_ctx, raw: constructor })
                &&& value_models(a@) == marshalled(
                    raw_ctx,
                    argument_count,
                    match arguments {
                        Some(x) => Some(x@),
                        None => None,
                    },
                )
                &&& r@ == reply_of(value_outcome(res))
            },
        (forall|c: &JSContext, o: &JSObject, a: &[JSValue], res: Result<JSValue, JSException>|
            #[trigger] callback.ensures((c, o, a), res) ==> res is Err) ==> r is Throw,
{
    let ctx = JSContext::borrowed(raw_ctx);
    let object = JSObject::from_raw(raw_ctx, constructor);
    let args = marshal_arguments(raw_ctx, argument_count, arguments);
    let a = args.as_slice();
    let result = callback(&ctx, &object, a);
    let r = reply(result);
    assert(callback.ensures((&ctx, &object, a), result));
    r
}

/// A host result that is an error reaches the engine as a thrown value: the
/// nominal result is null and the exception slot holds the error's handle.
pub proof fn lemma_error_is_thrown(e: ValueModel, handle: usize)
    ensures
        reply_of(Err(e)) == ReplyModel::Throw(e),
        reply_channels(reply_of(Err(e)), handle) == (0usize, handle),
{
}

/// A host result that is a value reaches the engine as that value, with the
/// exception slot cleared.
pub proof fn lemma_value_is_returned(v: ValueModel, handle: usize)
    ensures
        reply_of(Ok(v)) == ReplyModel::Return(v),
        reply_channels(reply_of(Ok(v)), handle) == (handle, 0usize),
{
}

/// A value the engine threw into a host call, passed on as the host
/// callback's error, reaches the engine again as the same thrown handle, with
/// a null nominal result.
pub proof fn lemma_thrown_value_passes_through(
    ctx: usize,
    result: usize,
    exception: usize,
    failure: Seq<char>,
)
    requires
        exception != 0,
    ensures
        reply_of(handle_outcome(ctx, result, exception, failure)) == ReplyModel::Throw(
            engine_value(ctx, exception),
        ),
        reply_channels(reply_of(handle_outcome(ctx, result, exception, failure)), exception) == (
            0usize,
            exception,
        ),
{
}

} // verus!
