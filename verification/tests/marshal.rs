use rustclr::error::ClrError;
use rustclr::value::{
    create_safe_args, create_safe_array_args, create_safe_array_buffer, unpack_string, ClrValue,
    Variant, VT_ARRAY, VT_BOOL, VT_BSTR, VT_I4, VT_UI1, VT_VARIANT,
};

#[test]
fn round_trip_bool() {
    assert_eq!(true.to_variant().as_bool(), Ok(true));
    assert_eq!(false.to_variant().as_bool(), Ok(false));
}

#[test]
fn round_trip_i32() {
    assert_eq!(42i32.to_variant().as_i32(), Ok(42));
    assert_eq!((-7i32).to_variant().as_i32(), Ok(-7));
}

#[test]
fn round_trip_string() {
    let v = String::from("hello").to_variant();
    assert_eq!(unpack_string(v), Ok(String::from("hello")));
    let v = "world".to_variant();
    assert_eq!(unpack_string(v), Ok(String::from("world")));
}

#[test]
fn variant_tags() {
    assert_eq!(bool::var_type(), VT_BOOL);
    assert_eq!(i32::var_type(), VT_I4);
    assert_eq!(String::var_type(), VT_BSTR);
    assert_eq!(<&str>::var_type(), VT_BSTR);
    assert_eq!(ClrValue::Bool(true).tag(), VT_BOOL);
    assert_eq!(ClrValue::Empty.tag(), 0);
    assert_eq!(ClrValue::Array(VT_BSTR, Vec::new()).tag(), VT_ARRAY | VT_BSTR);
}

#[test]
fn unboxing_other_kinds_is_unsupported() {
    assert_eq!(ClrValue::Int32(1).as_bool(), Err(ClrError::VariantUnsupported));
    assert_eq!(ClrValue::Bool(true).as_i32(), Err(ClrError::VariantUnsupported));
    assert_eq!(unpack_string(ClrValue::Empty), Err(ClrError::VariantUnsupported));
}

#[test]
fn packs_homogeneous_arguments_into_single_parameter() {
    let packed = create_safe_array_args(vec![1i32, 2, 3]);
    assert_eq!(packed.vt, VT_VARIANT);
    assert_eq!(packed.lbound, 0);
    assert_eq!(packed.elements.len(), 1);
    match &packed.elements[0] {
        ClrValue::Array(tag, elems) => {
            assert_eq!(*tag, VT_ARRAY | VT_I4);
            assert_eq!(
                elems,
                &vec![ClrValue::Int32(1), ClrValue::Int32(2), ClrValue::Int32(3)]
            );
        }
        other => panic!("unexpected element: {:?}", other),
    }
}

#[test]
fn packs_string_arguments() {
    let packed = create_safe_array_args(vec!["a", "b"]);
    match &packed.elements[0] {
        ClrValue::Array(tag, elems) => {
            assert_eq!(*tag, VT_ARRAY | VT_BSTR);
            assert_eq!(
                elems,
                &vec![
                    ClrValue::Str(String::from("a")),
                    ClrValue::Str(String::from("b"))
                ]
            );
        }
        other => panic!("unexpected element: {:?}", other),
    }
}

#[test]
fn packs_boxed_values_one_for_one() {
    let packed = create_safe_args(vec![ClrValue::Bool(true), ClrValue::Int32(5)]);
    assert_eq!(packed.vt, VT_VARIANT);
    assert_eq!(packed.lbound, 0);
    assert_eq!(
        packed.elements,
        vec![ClrValue::Bool(true), ClrValue::Int32(5)]
    );
}

#[test]
fn wraps_byte_buffer() {
    let packed = create_safe_array_buffer(&[0x4D, 0x5A, 0x00]);
    assert_eq!(packed.vt, VT_UI1);
    assert_eq!(packed.lbound, 0);
    assert_eq!(
        packed.elements,
        vec![
            ClrValue::UInt8(0x4D),
            ClrValue::UInt8(0x5A),
            ClrValue::UInt8(0x00)
        ]
    );
}
