//! Classes: a template for a family of objects, built once from a definition
//! that a builder accumulates.
use vstd::prelude::*;
use vstd::string::StringSliceAdditionalSpecFns;

use crate::context::JSContext;
use crate::exception::JSException;
use crate::string::utf16_encode;
use crate::value::{text_value, ValueModel};

verus! {

/// Why a class could not be made.
#[derive(Debug, Copy, Clone, PartialEq, Eq, Structural)]
pub enum JSClassError {
    /// The engine made no class from the definition.
    FailedToCreateClass,
    /// The engine did not retain the class it made.
    FailedToRetainClass,
}

/// The text that describes each class error.
pub open spec fn class_error_text(e: JSClassError) -> Seq<char> {
    match e {
        JSClassError::FailedToCreateClass => "class could not be created"@,
        JSClassError::FailedToRetainClass => "class could not be retained"@,
    }
}

impl JSClassError {
    /// The text that describes the error.
    pub fn message(&self) -> (r: &'static str)
        ensures
            r@ == class_error_text(*self),
    {
        match self {
            JSClassError::FailedToCreateClass => "class could not be created",
            JSClassError::FailedToRetainClass => "class could not be retained",
        }
    }

    /// The exception that reports the error in context `ctx`.
    pub fn to_exception(&self, ctx: usize) -> (r: JSException)
        ensures
            r@ == text_value(ctx, utf16_encode(class_error_text(*self))),
    {
        JSException::from_message(ctx, self.message())
    }
}

/// Whether `name` can be a class name: it holds no NUL byte.
pub open spec fn valid_class_name(name: Seq<u8>) -> bool {
    forall|i: int| 0 <= i < name.len() ==> name[i] != 0
}

/// What a class builder holds, as the contracts see it.
pub struct BuilderModel {
    pub ctx: usize,
    pub name: Seq<u8>,
    pub constructor: Option<usize>,
}

/// What a class is, as the contracts see it.
pub struct ClassModel {
    pub ctx: usize,
    pub raw: usize,
    pub name: Seq<u8>,
}

/// A builder for [`JSClass`]: it accumulates the optional callbacks of the
/// definition before the single creation call.
#[derive(Debug)]
pub struct JSClassBuilder {
    ctx: usize,
    name: Vec<u8>,
    constructor: Option<usize>,
}

impl View for JSClassBuilder {
    type V = BuilderModel;

    closed spec fn view(&self) -> BuilderModel {
        BuilderModel { ctx: self.ctx, name: self.name@, constructor: self.constructor }
    }
}

/// A JavaScript class.
///
/// The wrapper owns one retained reference to the class, handed back once by
/// [`JSClass::release_handle`].
#[derive(Debug)]
pub struct JSClass {
    ctx: usize,
    raw: usize,
    name: Vec<u8>,
}

impl View for JSClass {
    type V = ClassModel;

    closed spec fn view(&self) -> ClassModel {
        ClassModel { ctx: self.ctx, raw: self.raw, name: self.name@ }
    }
}

/// The model of a result that yields a class.
pub open spec fn class_outcome(r: Result<JSClass, JSException>) -> Result<ClassModel, ValueModel> {
    match r {
        Ok(c) => Ok(c@),
        Err(e) => Err(e@),
    }
}

/// What building amounts to, given the handle the creation call returned
/// and the handle the retain call returned.
pub open spec fn build_outcome(b: BuilderModel, created: usize, retained: usize) -> Result<
    ClassModel,
    ValueModel,
> {
    if created == 0 {
        Err(text_value(b.ctx, utf16_encode(class_error_text(JSClassError::FailedToCreateClass))))
    } else if retained == 0 {
        Err(text_value(b.ctx, utf16_encode(class_error_text(JSClassError::FailedToRetainClass))))
    } else {
        Ok(ClassModel { ctx: b.ctx, raw: retained, name: b.name })
    }
}

impl JSClass {
    /// Whether `name` can name a class: it holds no NUL byte.
    pub fn is_valid_name(name: &str) -> (r: bool)
        ensures
            r == valid_class_name(name.spec_bytes()),
    {
        let bytes = name.as_bytes();
        let mut i: usize = 0;
        while i < bytes.len()
            invariant
                bytes@ == name.spec_bytes(),
                0 <= i <= bytes@.len(),
                forall|j: int| 0 <= j < i ==> bytes@[j] != 0,
            decreases bytes@.len() - i,
        {
            if bytes[i] == 0 {
                assert(name.spec_bytes()[i as int] == 0);
                return false;
            }
            i = i + 1;
        }
        true
    }

    /// A builder for a class named `name` in context `ctx`.
    ///
    /// A name holding a NUL byte is a broken precondition of the caller, not
    /// a runtime condition: test it with [`JSClass::is_valid_name`] first.
    pub fn builder(ctx: &JSContext, name: &str) -> (r: JSClassBuilder)
        requires
            valid_class_name(name.spec_bytes()),
        ensures
            r@ == (BuilderModel { ctx: ctx@.raw, name: name.spec_bytes(), constructor: None }),
    {
        let bytes = name.as_bytes();
        let mut out: Vec<u8> = Vec::new();
        let mut i: usize = 0;
        while i < bytes.len()
            invariant
                bytes@ == name.spec_bytes(),
                0 <= i <= bytes@.len(),
                out@ == bytes@.subrange(0, i as int),
            decreases bytes@.len() - i,
        {
            out.push(bytes[i]);
            i = i + 1;
            assert(out@ =~= bytes@.subrange(0, i as int));
        }
        assert(out@ =~= bytes@);
        JSClassBuilder { ctx: ctx.raw(), name: out, constructor: None }
    }

    /// The engine handle of the class.
    pub fn raw(&self) -> (r: usize)
        ensures
            r == self@.raw,
    {
        self.raw
    }

    /// The handle of the context the class was made in.
    pub fn context(&self) -> (r: usize)
        ensures
            r == self@.ctx,
    {
        self.ctx
    }

    /// The class name.
    pub fn name(&self) -> (r: &[u8])
        ensures
            r@ == self@.name,
    {
        self.name.as_slice()
    }

    /// Ends the wrapper's life: the reference to release.
    pub fn release_handle(self) -> (r: usize)
        ensures
            r == self@.raw,
    {
        self.raw
    }
}

impl JSClassBuilder {
    /// Sets the constructor callback (its address), or clears it.
    pub fn constructor(self, constructor: Option<usize>) -> (r: JSClassBuilder)
        ensures
            r@ == (BuilderModel { constructor, ..self@ }),
    {
        JSClassBuilder { constructor, ..self }
    }

    /// The constructor callback set so far.
    pub fn constructor_handle(&self) -> (r: Option<usize>)
        ensures
            r == self@.constructor,
    {
        self.constructor
    }

    /// The class name as the engine reads it: the bytes, then a NUL.
    pub fn c_name(&self) -> (r: Vec<u8>)
        ensures
            r@ == self@.name.push(0),
    {
        let mut out: Vec<u8> = Vec::new();
        let mut i: usize = 0;
        while i < self.name.len()
            invariant
                0 <= i <= self.name@.len(),
                out@ == self.name@.subrange(0, i as int),
            decreases self.name@.len() - i,
        {
            out.push(self.name[i]);
            i = i + 1;
            assert(out@ =~= self.name@.subrange(0, i as int));
        }
        out.push(0);
        assert(out@ =~= self.name@.push(0));
        out
    }

    /// Makes the class from what the engine returned: `created` by the
    /// creation call, then `retained` by the retain call (null if that call
    /// was not made).
    pub fn build(self, created: usize, retained: usize) -> (r: Result<JSClass, JSException>)
        ensures
            class_outcome(r) == build_outcome(self@, created, retained),
    {
        if created == 0 {
            return Err(JSClassError::FailedToCreateClass.to_exception(self.ctx));
        }
        if retained == 0 {
            return Err(JSClassError::FailedToRetainClass.to_exception(self.ctx));
        }
        Ok(JSClass { ctx: self.ctx, raw: retained, name: self.name })
    }
}

} // verus!
