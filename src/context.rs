//! Execution contexts and context groups: who owns the handle, and who releases it.
use vstd::prelude::*;

use crate::exception::JSException;
use crate::object::{object_handle_outcome, object_or_exception, object_outcome, JSObject};

verus! {

/// The message of the exception raised when a context reports no global object.
pub const NO_GLOBAL_OBJECT: &'static str = "The context has no global object";

/// What a context is, as the contracts see it.
pub struct ContextModel {
    /// The engine handle of the context.
    pub raw: usize,
    /// Whether this wrapper holds the reference that must be released.
    pub owned: bool,
}

/// A JavaScript execution context.
///
/// An owning context holds one reference to the engine context, released once
/// through [`JSContext::release_handle`]. A borrowed context (the one a
/// callback receives) holds none: releasing it hands nothing back.
pub struct JSContext {
    raw: usize,
    owned: bool,
}

impl View for JSContext {
    type V = ContextModel;

    closed spec fn view(&self) -> ContextModel {
        ContextModel { raw: self.raw, owned: self.owned }
    }
}

impl JSContext {
    /// Takes ownership of the reference `raw` (as returned by the engine's
    /// context creation call).
    pub fn from_raw(raw: usize) -> (r: JSContext)
        requires
            raw != 0,
        ensures
            r@ == (ContextModel { raw, owned: true }),
    {
        JSContext { raw, owned: true }
    }

    /// The context the engine's creation call returned: `None` when it
    /// returned the null handle, else an owning wrapper of that reference.
    pub fn new(created: usize) -> (r: Option<JSContext>)
        ensures
            r is None <==> created == 0,
            r matches Some(c) ==> c@ == (ContextModel { raw: created, owned: true }),
    {
        if created == 0 {
            None
        } else {
            Some(JSContext::from_raw(created))
        }
    }

    /// A view of the context `raw` that owns no reference to it.
    pub fn borrowed(raw: usize) -> (r: JSContext)
        requires
            raw != 0,
        ensures
            r@ == (ContextModel { raw, owned: false }),
    {
        JSContext { raw, owned: false }
    }

    /// The engine handle of the context.
    pub fn raw(&self) -> (r: usize)
        ensures
            r == self@.raw,
    {
        self.raw
    }

    /// Whether this wrapper holds a reference to release.
    pub fn owns_handle(&self) -> (r: bool)
        ensures
            r == self@.owned,
    {
        self.owned
    }

    /// The global object, given the handle the engine returned for it: an
    /// exception when that handle is null.
    pub fn global_object(&self, raw_global: usize) -> (r: Result<JSObject, JSException>)
        ensures
            object_outcome(r) == object_handle_outcome(
                self@.raw,
                raw_global,
                0,
                NO_GLOBAL_OBJECT@,
            ),
    {
        object_or_exception(self.raw, raw_global, 0, NO_GLOBAL_OBJECT)
    }

    /// Ends the wrapper's life: the handle to release, if it owned one.
    ///
    /// The wrapper is consumed, so a reference is handed back at most once.
    pub fn release_handle(self) -> (r: Option<usize>)
        ensures
            r == (if self@.owned { Some(self@.raw) } else { None::<usize> }),
    {
        if self.owned {
            Some(self.raw)
        } else {
            None
        }
    }
}

/// A group that associates contexts with one another.
///
/// The wrapper owns one reference to the group, handed back by
/// [`JSContextGroup::release_handle`].
pub struct JSContextGroup {
    raw: usize,
}

impl View for JSContextGroup {
    type V = usize;

    closed spec fn view(&self) -> usize {
        self.raw
    }
}

impl JSContextGroup {
    /// Takes ownership of the retained group reference `raw`.
    pub fn from_raw(raw: usize) -> (r: JSContextGroup)
        requires
            raw != 0,
        ensures
            r@ == raw,
    {
        JSContextGroup { raw }
    }

    /// The engine handle of the group.
    pub fn raw(&self) -> (r: usize)
        ensures
            r == self@,
    {
        self.raw
    }

    /// Ends the wrapper's life: the reference to release.
    pub fn release_handle(self) -> (r: usize)
        ensures
            r == self@,
    {
        self.raw
    }
}

} // verus!
