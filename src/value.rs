//! Values: engine handles, and strings built on the host side.
use vstd::prelude::*;

use crate::context::JSContext;
use crate::string::JSString;

verus! {

/// Where the content of a value lives, as the contracts see it.
pub enum ValueSource {
    /// A handle that the engine handed out.
    Handle(usize),
    /// A string built by the host, with these UTF-16 units.
    Text(Seq<u16>),
}

/// What a value is, as the contracts see it: its context and its source.
pub struct ValueModel {
    pub ctx: usize,
    pub source: ValueSource,
}

/// The model of the engine value `raw` in context `ctx`.
pub open spec fn engine_value(ctx: usize, raw: usize) -> ValueModel {
    ValueModel { ctx, source: ValueSource::Handle(raw) }
}

/// The model of a host-built string value with units `text` in context `ctx`.
pub open spec fn text_value(ctx: usize, text: Seq<u16>) -> ValueModel {
    ValueModel { ctx, source: ValueSource::Text(text) }
}

#[derive(Debug)]
enum Content {
    Handle(usize),
    Text(JSString),
}

/// A JavaScript value, scoped to one context.
///
/// Most values are handles that the engine produced. A string value may also
/// be built by the host (for instance the message of an exception raised on
/// this side); it becomes an engine value when it is handed over.
#[derive(Debug)]
pub struct JSValue {
    ctx: usize,
    content: Content,
}

impl View for JSValue {
    type V = ValueModel;

    closed spec fn view(&self) -> ValueModel {
        ValueModel {
            ctx: self.ctx,
            source: match self.content {
                Content::Handle(raw) => ValueSource::Handle(raw),
                Content::Text(s) => ValueSource::Text(s@),
            },
        }
    }
}

impl JSValue {
    /// Wraps the engine value `raw` of context `ctx`.
    ///
    /// The handle is not owned: values live as long as the engine keeps them.
    pub fn from_raw(ctx: usize, raw: usize) -> (r: JSValue)
        ensures
            r@ == engine_value(ctx, raw),
    {
        JSValue { ctx, content: Content::Handle(raw) }
    }

    /// A string value holding `string`, in the context `ctx`.
    pub fn new_string(ctx: &JSContext, string: JSString) -> (r: JSValue)
        ensures
            r@ == text_value(ctx@.raw, string@),
    {
        Self::new_string_inner(ctx.raw(), string)
    }

    /// A string value holding `string`, in the context with handle `ctx`.
    pub fn new_string_inner(ctx: usize, string: JSString) -> (r: JSValue)
        ensures
            r@ == text_value(ctx, string@),
    {
        JSValue { ctx, content: Content::Text(string) }
    }

    /// The value parsed from JSON, given the handle the engine's parser
    /// returned: null means the text was not valid JSON.
    pub fn from_json_handle(ctx: usize, raw: usize) -> (r: Option<JSValue>)
        ensures
            r is None <==> raw == 0,
            r matches Some(v) ==> v@ == engine_value(ctx, raw),
    {
        if raw == 0 {
            None
        } else {
            Some(JSValue::from_raw(ctx, raw))
        }
    }

    /// The handle of the context the value belongs to.
    pub fn context(&self) -> (r: usize)
        ensures
            r == self@.ctx,
    {
        self.ctx
    }

    /// The engine handle of the value, if the engine produced it.
    pub fn handle(&self) -> (r: Option<usize>)
        ensures
            r == (match self@.source {
                ValueSource::Handle(raw) => Some(raw),
                ValueSource::Text(_) => None::<usize>,
            }),
    {
        match &self.content {
            Content::Handle(raw) => Some(*raw),
            Content::Text(_) => None,
        }
    }

    /// The host-built text of the value, if it is such a string.
    pub fn host_text(&self) -> (r: Option<&JSString>)
        ensures
            match self@.source {
                ValueSource::Handle(_) => r is None,
                ValueSource::Text(t) => r matches Some(s) && s@ == t,
            },
    {
        match &self.content {
            Content::Handle(_) => None,
            Content::Text(s) => Some(s),
        }
    }

    /// Whether the value is the null handle of the engine.
    pub fn is_null_handle(&self) -> (r: bool)
        ensures
            r == (self@.source == ValueSource::Handle(0)),
    {
        match &self.content {
            Content::Handle(raw) => *raw == 0,
            Content::Text(_) => false,
        }
    }
}

} // verus!
