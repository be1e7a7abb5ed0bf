//! Marker types for the engine's opaque handles, and its enumerations.
use vstd::prelude::*;

verus! {

/// The opaque target of a context group handle.
#[derive(Debug, Copy, Clone)]
pub struct OpaqueJSContextGroup {
    _opaque: (),
}

/// The opaque target of an execution context handle.
#[derive(Debug, Copy, Clone)]
pub struct OpaqueJSContext {
    _opaque: (),
}

/// The opaque target of an engine string handle.
#[derive(Debug, Copy, Clone)]
pub struct OpaqueJSString {
    _opaque: (),
}

/// The opaque target of a class handle.
#[derive(Debug, Copy, Clone)]
pub struct OpaqueJSClass {
    _opaque: (),
}

/// The opaque target of a property-name array handle.
#[derive(Debug, Copy, Clone)]
pub struct OpaqueJSPropertyNameArray {
    _opaque: (),
}

/// The opaque target of a property-name accumulator handle.
#[derive(Debug, Copy, Clone)]
pub struct OpaqueJSPropertyNameAccumulator {
    _opaque: (),
}

/// The opaque target of a value (or object) handle.
#[derive(Debug, Copy, Clone)]
pub struct OpaqueJSValue {
    _opaque: (),
}

/// The type tag of a JavaScript value, as the engine reports it.
#[derive(Debug, Copy, Clone, PartialEq, Eq, Structural, Hash)]
pub enum JSType {
    Undefined,
    Null,
    Boolean,
    Number,
    String,
    Object,
    Symbol,
}

/// The numeric code the engine uses for each value type tag.
pub open spec fn js_type_code(t: JSType) -> u32 {
    match t {
        JSType::Undefined => 0,
        JSType::Null => 1,
        JSType::Boolean => 2,
        JSType::Number => 3,
        JSType::String => 4,
        JSType::Object => 5,
        JSType::Symbol => 6,
    }
}

impl JSType {
    /// The engine's numeric code for this tag.
    pub fn to_raw(self) -> (r: u32)
        ensures
            r == js_type_code(self),
    {
        match self {
            JSType::Undefined => 0,
            JSType::Null => 1,
            JSType::Boolean => 2,
            JSType::Number => 3,
            JSType::String => 4,
            JSType::Object => 5,
            JSType::Symbol => 6,
        }
    }

    /// The tag with the engine's numeric code `raw`, if there is one.
    pub fn from_raw(raw: u32) -> (r: Option<JSType>)
        ensures
            r matches Some(t) ==> js_type_code(t) == raw,
            r is None <==> raw > 6,
    {
        match raw {
            0 => Some(JSType::Undefined),
            1 => Some(JSType::Null),
            2 => Some(JSType::Boolean),
            3 => Some(JSType::Number),
            4 => Some(JSType::String),
            5 => Some(JSType::Object),
            6 => Some(JSType::Symbol),
            _ => None,
        }
    }
}

/// The kind of a typed array (or array buffer), as the engine reports it.
#[derive(Debug, Copy, Clone, PartialEq, Eq, Structural, Hash)]
pub enum JSTypedArrayType {
    Int8Array,
    Int16Array,
    Int32Array,
    Uint8Array,
    Uint8ClampedArray,
    Uint16Array,
    Uint32Array,
    Float32Array,
    Float64Array,
    ArrayBuffer,
    NotTypedArray,
    BigInt64Array,
    BigUint64Array,
}

/// The numeric code the engine uses for each typed array kind.
pub open spec fn typed_array_type_code(t: JSTypedArrayType) -> u32 {
    match t {
        JSTypedArrayType::Int8Array => 0,
        JSTypedArrayType::Int16Array => 1,
        JSTypedArrayType::Int32Array => 2,
        JSTypedArrayType::Uint8Array => 3,
        JSTypedArrayType::Uint8ClampedArray => 4,
        JSTypedArrayType::Uint16Array => 5,
        JSTypedArrayType::Uint32Array => 6,
        JSTypedArrayType::Float32Array => 7,
        JSTypedArrayType::Float64Array => 8,
        JSTypedArrayType::ArrayBuffer => 9,
        JSTypedArrayType::NotTypedArray => 10,
        JSTypedArrayType::BigInt64Array => 11,
        JSTypedArrayType::BigUint64Array => 12,
    }
}

impl JSTypedArrayType {
    /// The engine's numeric code for this kind.
    pub fn to_raw(self) -> (r: u32)
        ensures
            r == typed_array_type_code(self),
    {
        match self {
            JSTypedArrayType::Int8Array => 0,
            JSTypedArrayType::Int16Array => 1,
            JSTypedArrayType::Int32Array => 2,
            JSTypedArrayType::Uint8Array => 3,
            JSTypedArrayType::Uint8ClampedArray => 4,
            JSTypedArrayType::Uint16Array => 5,
            JSTypedArrayType::Uint32Array => 6,
            JSTypedArrayType::Float32Array => 7,
            JSTypedArrayType::Float64Array => 8,
            JSTypedArrayType::ArrayBuffer => 9,
            JSTypedArrayType::NotTypedArray => 10,
            JSTypedArrayType::BigInt64Array => 11,
            JSTypedArrayType::BigUint64Array => 12,
        }
    }

    /// The kind with the engine's numeric code `raw`, if there is one.
    pub fn from_raw(raw: u32) -> (r: Option<JSTypedArrayType>)
        ensures
            r matches Some(t) ==> typed_array_type_code(t) == raw,
            r is None <==> raw > 12,
    {
        match raw {
            0 => Some(JSTypedArrayType::Int8Array),
            1 => Some(JSTypedArrayType::Int16Array),
            2 => Some(JSTypedArrayType::Int32Array),
            3 => Some(JSTypedArrayType::Uint8Array),
            4 => Some(JSTypedArrayType::Uint8ClampedArray),
            5 => Some(JSTypedArrayType::Uint16Array),
            6 => Some(JSTypedArrayType::Uint32Array),
            7 => Some(JSTypedArrayType::Float32Array),
            8 => Some(JSTypedArrayType::Float64Array),
            9 => Some(JSTypedArrayType::ArrayBuffer),
            10 => Some(JSTypedArrayType::NotTypedArray),
            11 => Some(JSTypedArrayType::BigInt64Array),
            12 => Some(JSTypedArrayType::BigUint64Array),
            _ => None,
        }
    }

    /// Whether this kind denotes an actual typed array or buffer.
    pub fn is_typed_array(self) -> (r: bool)
        ensures
            r <==> self != JSTypedArrayType::NotTypedArray,
    {
        !matches!(self, JSTypedArrayType::NotTypedArray)
    }
}

} // verus!
