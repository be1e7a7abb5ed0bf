use javascriptcore::object::JSObjectPropertyNameIter;
use javascriptcore::sys::{JSType, JSTypedArrayType};
use javascriptcore::{JSContext, JSContextGroup, JSObject};

#[test]
fn owning_context_releases_its_handle_once() {
    let ctx = JSContext::from_raw(10);
    assert!(ctx.owns_handle());
    assert_eq!(ctx.release_handle(), Some(10));
}

#[test]
fn created_context_is_owned_unless_null() {
    assert!(JSContext::new(0).is_none());
    let ctx = JSContext::new(12).unwrap();
    assert!(ctx.owns_handle());
    assert_eq!(ctx.raw(), 12);
}

#[test]
fn borrowed_context_releases_nothing() {
    let ctx = JSContext::borrowed(10);
    assert!(!ctx.owns_handle());
    assert_eq!(ctx.raw(), 10);
    assert_eq!(ctx.release_handle(), None);
}

#[test]
fn group_releases_its_handle() {
    let g = JSContextGroup::from_raw(4);
    assert_eq!(g.raw(), 4);
    assert_eq!(g.release_handle(), 4);
}

#[test]
fn single_property_name_is_yielded_once() {
    let mut names = JSObjectPropertyNameIter::new(30, 1);
    assert_eq!(names.size_hint(), (1, Some(1)));
    assert_eq!(names.next_index(), Some(0));
    assert_eq!(names.size_hint(), (0, Some(1)));
    assert_eq!(names.next_index(), None);
    assert_eq!(names.next_index(), None);
    assert_eq!(names.release_handle(), 30);
}

#[test]
fn empty_property_names() {
    let mut names = JSObjectPropertyNameIter::new(31, 0);
    assert_eq!(names.next_index(), None);
    assert_eq!(names.size_hint(), (0, Some(0)));
}

#[test]
fn null_object_handle_is_absent() {
    assert!(JSObject::from_raw_optional(1, 0).is_none());
    let o = JSObject::from_raw_optional(1, 9).unwrap();
    assert_eq!(o.raw(), 9);
    assert_eq!(o.as_value().handle(), Some(9));
    assert_eq!(JSObject::this_handle(None), 0);
    assert_eq!(JSObject::this_handle(Some(&o)), 9);
}

#[test]
fn type_codes() {
    assert_eq!(JSType::from_raw(4), Some(JSType::String));
    assert_eq!(JSType::from_raw(7), None);
    assert_eq!(JSType::Symbol.to_raw(), 6);
    assert_eq!(JSTypedArrayType::from_raw(3), Some(JSTypedArrayType::Uint8Array));
    assert_eq!(JSTypedArrayType::from_raw(13), None);
    assert_eq!(JSTypedArrayType::NotTypedArray.to_raw(), 10);
    assert!(!JSTypedArrayType::NotTypedArray.is_typed_array());
    assert!(JSTypedArrayType::BigUint64Array.is_typed_array());
}
