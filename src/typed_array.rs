//! Typed arrays, and the byte view over the buffer behind one.
//!
//! The engine reports a typed array's byte offset and length on each query;
//! none of them is kept. The view is the `length` bytes of the backing store
//! that start at the offset, and writing through it writes the store.
use vstd::prelude::*;

use crate::exception::JSException;
use crate::object::{JSObject, ObjectModel};
use crate::string::utf16_encode;
use crate::sys::{typed_array_type_code, JSTypedArrayType};
use crate::value::{engine_value, text_value, JSValue, ValueModel};

verus! {

/// The message of the exception raised for a value that is no typed array.
pub const NOT_A_TYPED_ARRAY: &'static str = "Value is not a Typed Array";

/// The message of the exception raised for a kind code the engine does not define.
pub const UNKNOWN_TYPED_ARRAY_TYPE: &'static str = "Unknown Typed Array type";

/// A JavaScript typed array: an object viewing a range of a byte buffer.
#[derive(Debug)]
pub struct JSTypedArray {
    ctx: usize,
    raw: usize,
}

impl View for JSTypedArray {
    type V = ObjectModel;

    closed spec fn view(&self) -> ObjectModel {
        ObjectModel { ctx: self.ctx, raw: self.raw }
    }
}

/// The model of a result that yields a typed array.
pub open spec fn typed_array_outcome(r: Result<JSTypedArray, JSException>) -> Result<
    ObjectModel,
    ValueModel,
> {
    match r {
        Ok(a) => Ok(a@),
        Err(e) => Err(e@),
    }
}

/// The bytes a view of `length` bytes at `offset` sees in `store`.
pub open spec fn view_of(store: Seq<u8>, offset: int, length: int) -> Seq<u8> {
    store.subrange(offset, offset + length)
}

/// Whether a view of `length` bytes at `offset` lies inside a store of
/// `store_len` bytes.
pub open spec fn view_fits(store_len: int, offset: int, length: int) -> bool {
    0 <= offset && 0 <= length && offset + length <= store_len
}

impl JSTypedArray {
    /// Wraps the typed array handle `raw` of context `ctx`.
    pub fn from_raw(ctx: usize, raw: usize) -> (r: JSTypedArray)
        ensures
            r@ == (ObjectModel { ctx, raw }),
    {
        JSTypedArray { ctx, raw }
    }

    /// The object `object` as a typed array, given the kind the engine
    /// reported for it: an exception when it is no typed array.
    pub fn from_object(object: JSObject, kind: JSTypedArrayType) -> (r: Result<
        JSTypedArray,
        JSException,
    >)
        ensures
            typed_array_outcome(r) == (if kind == JSTypedArrayType::NotTypedArray {
                Err::<ObjectModel, ValueModel>(
                    text_value(object@.ctx, utf16_encode(NOT_A_TYPED_ARRAY@)),
                )
            } else {
                Ok::<ObjectModel, ValueModel>(object@)
            }),
    {
        if kind.is_typed_array() {
            Ok(JSTypedArray { ctx: object.context(), raw: object.raw() })
        } else {
            Err(JSException::from_message(object.context(), NOT_A_TYPED_ARRAY))
        }
    }

    /// The engine handle of the array.
    pub fn raw(&self) -> (r: usize)
        ensures
            r == self@.raw,
    {
        self.raw
    }

    /// The handle of the context the array belongs to.
    pub fn context(&self) -> (r: usize)
        ensures
            r == self@.ctx,
    {
        self.ctx
    }

    /// The array seen as an object: the same handle.
    pub fn as_object(&self) -> (r: JSObject)
        ensures
            r@ == self@,
    {
        JSObject::from_raw(self.ctx, self.raw)
    }

    /// The array seen as a value: the same handle.
    pub fn as_value(&self) -> (r: JSValue)
        ensures
            r@ == engine_value(self@.ctx, self@.raw),
    {
        JSValue::from_raw(self.ctx, self.raw)
    }

    /// The outcome of the engine's kind query: the code `code` it returned
    /// and its exception slot.
    pub fn ty_from(&self, code: u32, exception: usize) -> (r: Result<JSTypedArrayType, JSException>)
        ensures
            exception != 0 ==> (r matches Err(e) && e@ == engine_value(self@.ctx, exception)),
            exception == 0 && code > 12 ==> (r matches Err(e) && e@ == text_value(
                self@.ctx,
                utf16_encode(UNKNOWN_TYPED_ARRAY_TYPE@),
            )),
            exception == 0 && code <= 12 ==> (r matches Ok(t) && typed_array_type_code(t) == code),
    {
        if exception != 0 {
            return Err(JSException::new(JSValue::from_raw(self.ctx, exception)));
        }
        match JSTypedArrayType::from_raw(code) {
            Some(t) => Ok(t),
            None => Err(JSException::from_message(self.ctx, UNKNOWN_TYPED_ARRAY_TYPE)),
        }
    }
}

/// Whether a view of `length` bytes at `offset` fits a store of `store_len`
/// bytes (computed without overflow).
pub fn fits(store_len: usize, offset: usize, length: usize) -> (r: bool)
    ensures
        r == view_fits(store_len as int, offset as int, length as int),
{
    offset <= store_len && length <= store_len - offset
}

/// A copy of the bytes a view sees: `None` when the view does not fit.
pub fn copy_view(store: &[u8], offset: usize, length: usize) -> (r: Option<Vec<u8>>)
    ensures
        r is Some <==> view_fits(store@.len() as int, offset as int, length as int),
        r matches Some(v) ==> v@ == view_of(store@, offset as int, length as int),
{
    let n = store.len();
    if !fits(n, offset, length) {
        return None;
    }
    let mut out: Vec<u8> = Vec::new();
    let mut i: usize = 0;
    while i < length
        invariant
            store@.len() <= usize::MAX,
            view_fits(store@.len() as int, offset as int, length as int),
            0 <= i <= length,
            out@ == store@.subrange(offset as int, offset + i),
        decreases length - i,
    {
        out.push(store[offset + i]);
        i = i + 1;
        assert(out@ =~= store@.subrange(offset as int, offset + i));
    }
    Some(out)
}

/// Reads byte `index` of a view.
pub fn read_view(store: &[u8], offset: usize, length: usize, index: usize) -> (r: u8)
    requires
        view_fits(store@.len() as int, offset as int, length as int),
        index < length,
    ensures
        r == view_of(store@, offset as int, length as int)[index as int],
        r == store@[offset + index],
{
    let n = store.len();
    assert(offset + index < n);
    store[offset + index]
}

/// Writes byte `index` of a view, which writes the store at `offset + index`.
pub fn write_view(store: &mut [u8], offset: usize, length: usize, index: usize, byte: u8)
    requires
        view_fits(old(store)@.len() as int, offset as int, length as int),
        index < length,
    ensures
        final(store)@ == old(store)@.update(offset + index, byte),
{
    let n = store.len();
    assert(offset + index < n);
    store[offset + index] = byte;
}

/// Writing byte `index` of a view writes byte `offset + index` of the store,
/// and the view of the updated store is the old view with that one byte
/// changed: the view aliases the store, it holds no copy.
pub proof fn lemma_view_write_aliases(
    store: Seq<u8>,
    offset: int,
    length: int,
    index: int,
    byte: u8,
)
    requires
        view_fits(store.len() as int, offset, length),
        0 <= index < length,
    ensures
        store.update(offset + index, byte)[offset + index] == byte,
        forall|j: int|
            0 <= j < store.len() && j != offset + index ==> #[trigger] store.update(
                offset + index,
                byte,
            )[j] == store[j],
        view_of(store.update(offset + index, byte), offset, length) == view_of(
            store,
            offset,
            length,
        ).update(index, byte),
{
    assert(view_of(store.update(offset + index, byte), offset, length) =~= view_of(
        store,
        offset,
        length,
    ).update(index, byte));
}

} // verus!
