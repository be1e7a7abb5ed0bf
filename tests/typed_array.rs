use javascriptcore::typed_array::{copy_view, fits, read_view, write_view};
use javascriptcore::{JSObject, JSTypedArray, JSTypedArrayType};

#[test]
fn sub_view_writes_through_to_the_buffer() {
    let mut bytes = vec![1u8, 2, 3, 4, 5];
    assert_eq!(copy_view(&bytes, 1, 3).unwrap(), vec![2, 3, 4]);

    write_view(&mut bytes, 1, 3, 0, 12);
    write_view(&mut bytes, 1, 3, 2, 14);

    assert_eq!(copy_view(&bytes, 1, 3).unwrap(), vec![12, 3, 14]);
    assert_eq!(bytes, vec![1, 12, 3, 14, 5]);
    assert_eq!(read_view(&bytes, 1, 3, 0), 12);
}

#[test]
fn whole_view() {
    let bytes = vec![1u8, 2, 3, 4, 5];
    assert_eq!(copy_view(&bytes, 0, 5).unwrap(), bytes);
    assert_eq!(copy_view(&bytes, 2, 3).unwrap(), vec![3, 4, 5]);
    assert_eq!(copy_view(&bytes, 5, 0).unwrap(), Vec::<u8>::new());
}

#[test]
fn view_outside_buffer_is_refused() {
    let bytes = vec![1u8, 2, 3, 4, 5];
    assert!(copy_view(&bytes, 3, 3).is_none());
    assert!(copy_view(&bytes, usize::MAX, 2).is_none());
    assert!(!fits(5, 6, 0));
    assert!(fits(5, 1, 4));
}

#[test]
fn object_becomes_typed_array_only_when_it_is_one() {
    let a = JSTypedArray::from_object(JSObject::from_raw(1, 40), JSTypedArrayType::Uint8Array).unwrap();
    assert_eq!(a.raw(), 40);
    assert_eq!(a.as_object().raw(), 40);
    let e = JSTypedArray::from_object(JSObject::from_raw(1, 41), JSTypedArrayType::NotTypedArray).unwrap_err();
    assert!(e.underlying_value().host_text().unwrap().eq_text("Value is not a Typed Array"));
}

#[test]
fn typed_array_kind_query() {
    let a = JSTypedArray::from_raw(1, 40);
    assert_eq!(a.ty_from(3, 0).unwrap(), JSTypedArrayType::Uint8Array);
    assert!(a.ty_from(99, 0).is_err());
    assert_eq!(a.ty_from(3, 7).unwrap_err().underlying_value().handle(), Some(7));
}
