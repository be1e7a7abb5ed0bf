//! Objects, and the sequence of an object's property names.
use vstd::prelude::*;

use crate::exception::JSException;
use crate::string::utf16_encode;
use crate::value::{engine_value, text_value, JSValue, ValueModel};

verus! {

/// What an object is, as the contracts see it: its context and its handle.
pub struct ObjectModel {
    pub ctx: usize,
    pub raw: usize,
}

/// A JavaScript object: a value that has properties and may be called.
///
/// An object never owns its handle; it views the value it wraps.
#[derive(Debug)]
pub struct JSObject {
    ctx: usize,
    raw: usize,
}

impl View for JSObject {
    type V = ObjectModel;

    closed spec fn view(&self) -> ObjectModel {
        ObjectModel { ctx: self.ctx, raw: self.raw }
    }
}

/// The model of a result that yields an object.
pub open spec fn object_outcome(r: Result<JSObject, JSException>) -> Result<ObjectModel, ValueModel> {
    match r {
        Ok(o) => Ok(o@),
        Err(e) => Err(e@),
    }
}

/// What an engine call that yields an object handle amounts to: the thrown
/// value if the slot is set, else the object if the result is not null, else
/// an exception carrying `failure`.
pub open spec fn object_handle_outcome(
    ctx: usize,
    result: usize,
    exception: usize,
    failure: Seq<char>,
) -> Result<ObjectModel, ValueModel> {
    if exception != 0 {
        Err(engine_value(ctx, exception))
    } else if result == 0 {
        Err(text_value(ctx, utf16_encode(failure)))
    } else {
        Ok(ObjectModel { ctx, raw: result })
    }
}

/// The model of an optional object handle: the null handle is no object.
pub open spec fn optional_object(ctx: usize, raw: usize) -> Option<ObjectModel> {
    if raw == 0 {
        None
    } else {
        Some(ObjectModel { ctx, raw })
    }
}

impl JSObject {
    /// Wraps the object handle `raw` of context `ctx`.
    pub fn from_raw(ctx: usize, raw: usize) -> (r: JSObject)
        ensures
            r@ == (ObjectModel { ctx, raw }),
    {
        JSObject { ctx, raw }
    }

    /// Wraps an object handle that may be null; null means no object.
    pub fn from_raw_optional(ctx: usize, raw: usize) -> (r: Option<JSObject>)
        ensures
            match optional_object(ctx, raw) {
                None => r is None,
                Some(m) => r matches Some(o) && o@ == m,
            },
    {
        if raw == 0 {
            None
        } else {
            Some(JSObject { ctx, raw })
        }
    }

    /// The engine handle of the object.
    pub fn raw(&self) -> (r: usize)
        ensures
            r == self@.raw,
    {
        self.raw
    }

    /// The handle of the context the object belongs to.
    pub fn context(&self) -> (r: usize)
        ensures
            r == self@.ctx,
    {
        self.ctx
    }

    /// The object seen as a value: the same handle, not a copy.
    pub fn as_value(&self) -> (r: JSValue)
        ensures
            r@ == engine_value(self@.ctx, self@.raw),
    {
        JSValue::from_raw(self.ctx, self.raw)
    }

    /// The handle to pass for an optional `this` object: null for none.
    pub fn this_handle(this: Option<&JSObject>) -> (r: usize)
        ensures
            r == (match this {
                Some(o) => o@.raw,
                None => 0,
            }),
    {
        match this {
            Some(o) => o.raw,
            None => 0,
        }
    }
}

/// The outcome of an engine call that returns an object handle, null on
/// failure. A thrown value wins over the result; a null result with nothing
/// thrown becomes an exception carrying `failure`.
pub fn object_or_exception(ctx: usize, result: usize, exception: usize, failure: &str) -> (r: Result<
    JSObject,
    JSException,
>)
    ensures
        object_outcome(r) == object_handle_outcome(ctx, result, exception, failure@),
{
    if exception != 0 {
        Err(JSException::new(JSValue::from_raw(ctx, exception)))
    } else if result == 0 {
        Err(JSException::from_message(ctx, failure))
    } else {
        Ok(JSObject { ctx, raw: result })
    }
}

/// What a property-name sequence is, as the contracts see it.
pub struct NameSequenceModel {
    /// The engine handle of the name array.
    pub raw: usize,
    /// The index of the next name to yield.
    pub next: nat,
    /// The number of names in the array.
    pub count: nat,
}

/// The names of an object's enumerable properties, yielded once each, in order.
///
/// The sequence owns the engine's name array, handed back once by
/// [`JSObjectPropertyNameIter::release_handle`]. Each name is read by index
/// and retained on its own, so it may outlive the array.
pub struct JSObjectPropertyNameIter {
    raw: usize,
    idx: usize,
    count: usize,
}

impl View for JSObjectPropertyNameIter {
    type V = NameSequenceModel;

    closed spec fn view(&self) -> NameSequenceModel {
        NameSequenceModel { raw: self.raw, next: self.idx as nat, count: self.count as nat }
    }
}

impl JSObjectPropertyNameIter {
    #[verifier::type_invariant]
    spec fn inv(&self) -> bool {
        self.idx <= self.count
    }

    /// A sequence over the name array `raw`, which holds `count` names.
    pub fn new(raw: usize, count: usize) -> (r: JSObjectPropertyNameIter)
        ensures
            r@ == (NameSequenceModel { raw, next: 0, count: count as nat }),
    {
        JSObjectPropertyNameIter { raw, idx: 0, count }
    }

    /// The engine handle of the name array.
    pub fn raw(&self) -> (r: usize)
        ensures
            r == self@.raw,
    {
        self.raw
    }

    /// The index of the next name to read, or `None` once all were yielded.
    pub fn next_index(&mut self) -> (r: Option<usize>)
        ensures
            final(self)@.raw == old(self)@.raw,
            final(self)@.count == old(self)@.count,
            old(self)@.next < old(self)@.count ==> r == Some(old(self)@.next as usize)
                && final(self)@.next == old(self)@.next + 1,
            old(self)@.next >= old(self)@.count ==> r is None && final(self)@.next
                == old(self)@.next,
    {
        proof {
            use_type_invariant(&*self);
        }
        if self.idx < self.count {
            let i = self.idx;
            self.idx = self.idx + 1;
            Some(i)
        } else {
            None
        }
    }

    /// The number of names left, and the total.
    pub fn size_hint(&self) -> (r: (usize, Option<usize>))
        ensures
            self@.next <= self@.count,
            r.0 == self@.count - self@.next,
            r.1 == Some(self@.count as usize),
    {
        proof {
            use_type_invariant(self);
        }
        (self.count - self.idx, Some(self.count))
    }

    /// Ends the sequence: the name array to release.
    pub fn release_handle(self) -> (r: usize)
        ensures
            r == self@.raw,
    {
        self.raw
    }
}

} // verus!
