use hprof_heap::decoder::{
    load_basic_obj, load_class_dump, load_head_dump_info, load_instance_dump, load_java_frame,
    load_jni_local, load_native_stack, load_object_array, load_primitive_array, load_thread_block,
    load_thread_obj,
};
use hprof_heap::error::Error;
use hprof_heap::reader::Reader;
use hprof_heap::tags::{TYPE_INT, TYPE_LONG, TYPE_OBJECT, TYPE_SHORT};

const ID: usize = 4;

fn push_id(v: &mut Vec<u8>) {
    v.extend_from_slice(&[0xAA; ID]);
}

fn push_u32(v: &mut Vec<u8>, x: u32) {
    v.extend_from_slice(&x.to_be_bytes());
}

fn push_u16(v: &mut Vec<u8>, x: u16) {
    v.extend_from_slice(&x.to_be_bytes());
}

#[test]
fn basic_obj_consumes_one_identifier() {
    let mut bytes = Vec::new();
    push_id(&mut bytes);
    let mut r = Reader::new(bytes, ID);
    assert_eq!(load_basic_obj(&mut r), Ok(ID));
    assert_eq!(r.offset(), ID);
}

#[test]
fn basic_obj_fails_truncated() {
    let mut r = Reader::new(vec![1, 2, 3], ID);
    assert_eq!(load_basic_obj(&mut r), Err(Error::Truncated));
}

#[test]
fn jni_local_consumes_id_and_two_u32() {
    let mut bytes = Vec::new();
    push_id(&mut bytes);
    push_u32(&mut bytes, 1);
    push_u32(&mut bytes, 2);
    let mut r = Reader::new(bytes, ID);
    assert_eq!(load_jni_local(&mut r), Ok(ID + 8));
    assert_eq!(r.offset(), ID + 8);
}

#[test]
fn java_frame_consumes_id_and_two_u32() {
    let mut bytes = Vec::new();
    push_id(&mut bytes);
    push_u32(&mut bytes, 1);
    push_u32(&mut bytes, 2);
    let mut r = Reader::new(bytes, ID);
    assert_eq!(load_java_frame(&mut r), Ok(ID + 8));
}

#[test]
fn native_stack_consumes_id_and_one_u32() {
    let mut bytes = Vec::new();
    push_id(&mut bytes);
    push_u32(&mut bytes, 1);
    let mut r = Reader::new(bytes, ID);
    assert_eq!(load_native_stack(&mut r), Ok(ID + 4));
}

#[test]
fn thread_block_consumes_id_and_one_u32() {
    let mut bytes = Vec::new();
    push_id(&mut bytes);
    push_u32(&mut bytes, 1);
    let mut r = Reader::new(bytes, ID);
    assert_eq!(load_thread_block(&mut r), Ok(ID + 4));
}

#[test]
fn thread_obj_consumes_id_and_two_u32() {
    let mut bytes = Vec::new();
    push_id(&mut bytes);
    push_u32(&mut bytes, 1);
    push_u32(&mut bytes, 2);
    let mut r = Reader::new(bytes, ID);
    assert_eq!(load_thread_obj(&mut r), Ok(ID + 8));
}

#[test]
fn head_dump_info_consumes_u32_and_id() {
    let mut bytes = Vec::new();
    push_u32(&mut bytes, 1);
    push_id(&mut bytes);
    let mut r = Reader::new(bytes, ID);
    assert_eq!(load_head_dump_info(&mut r), Ok(ID + 4));
}

#[test]
fn instance_dump_with_empty_payload() {
    let mut bytes = Vec::new();
    push_id(&mut bytes);
    push_u32(&mut bytes, 1);
    push_id(&mut bytes);
    push_u32(&mut bytes, 0);
    let mut r = Reader::new(bytes, ID);
    assert_eq!(load_instance_dump(&mut r), Ok(2 * ID + 8));
    assert_eq!(r.offset(), 2 * ID + 8);
}

#[test]
fn instance_dump_consumes_declared_payload() {
    let mut bytes = Vec::new();
    push_id(&mut bytes);
    push_u32(&mut bytes, 1);
    push_id(&mut bytes);
    push_u32(&mut bytes, 5);
    bytes.extend_from_slice(&[1, 2, 3, 4, 5]);
    let mut r = Reader::new(bytes, ID);
    assert_eq!(load_instance_dump(&mut r), Ok(2 * ID + 8 + 5));
}

#[test]
fn instance_dump_fails_when_payload_is_cut_off() {
    let mut bytes = Vec::new();
    push_id(&mut bytes);
    push_u32(&mut bytes, 1);
    push_id(&mut bytes);
    push_u32(&mut bytes, 5);
    bytes.extend_from_slice(&[1, 2]);
    let mut r = Reader::new(bytes, ID);
    assert_eq!(load_instance_dump(&mut r), Err(Error::Truncated));
}

#[test]
fn object_array_with_zero_elements() {
    let mut bytes = Vec::new();
    push_id(&mut bytes);
    push_u32(&mut bytes, 1);
    push_u32(&mut bytes, 0);
    push_id(&mut bytes);
    let mut r = Reader::new(bytes, ID);
    assert_eq!(load_object_array(&mut r), Ok(2 * ID + 8));
    assert_eq!(r.offset(), 2 * ID + 8);
}

#[test]
fn object_array_consumes_one_identifier_per_element() {
    let mut bytes = Vec::new();
    push_id(&mut bytes);
    push_u32(&mut bytes, 1);
    push_u32(&mut bytes, 3);
    push_id(&mut bytes);
    for _ in 0..3 {
        push_id(&mut bytes);
    }
    let mut r = Reader::new(bytes, ID);
    assert_eq!(load_object_array(&mut r), Ok(2 * ID + 8 + 3 * ID));
}

#[test]
fn object_array_fails_when_elements_are_cut_off() {
    let mut bytes = Vec::new();
    push_id(&mut bytes);
    push_u32(&mut bytes, 1);
    push_u32(&mut bytes, 3);
    push_id(&mut bytes);
    push_id(&mut bytes);
    let mut r = Reader::new(bytes, ID);
    assert_eq!(load_object_array(&mut r), Err(Error::Truncated));
}

#[test]
fn primitive_array_consumes_elements_of_the_type_width() {
    let mut bytes = Vec::new();
    push_id(&mut bytes);
    push_u32(&mut bytes, 1);
    push_u32(&mut bytes, 3);
    bytes.push(TYPE_SHORT);
    bytes.extend_from_slice(&[0; 6]);
    let mut r = Reader::new(bytes, ID);
    assert_eq!(load_primitive_array(&mut r), Ok(ID + 8 + 1 + 6));
}

#[test]
fn primitive_array_with_zero_elements() {
    let mut bytes = Vec::new();
    push_id(&mut bytes);
    push_u32(&mut bytes, 1);
    push_u32(&mut bytes, 0);
    bytes.push(TYPE_LONG);
    let mut r = Reader::new(bytes, ID);
    assert_eq!(load_primitive_array(&mut r), Ok(ID + 8 + 1));
}

#[test]
fn primitive_array_rejects_unknown_element_type() {
    let mut bytes = Vec::new();
    push_id(&mut bytes);
    push_u32(&mut bytes, 1);
    push_u32(&mut bytes, 2);
    bytes.push(12);
    bytes.extend_from_slice(&[0; 16]);
    let mut r = Reader::new(bytes, ID);
    assert_eq!(load_primitive_array(&mut r), Err(Error::UnknownTag(12)));
}

fn class_dump_header(bytes: &mut Vec<u8>) {
    push_id(bytes); // class object id
    push_u32(bytes, 1); // stack trace serial
    for _ in 0..6 {
        push_id(bytes); // superclass, loader, signers, protection domain, two reserved
    }
    push_u32(bytes, 16); // instance size
}

#[test]
fn class_dump_exact_arithmetic_over_three_tables() {
    // Constant pool: two entries (INT and LONG); static fields: one INT;
    // instance fields: one OBJECT (type tag only, no value bytes).
    let mut bytes = Vec::new();
    class_dump_header(&mut bytes);
    push_u16(&mut bytes, 2);
    push_u16(&mut bytes, 1); // pool index
    bytes.push(TYPE_INT);
    push_u32(&mut bytes, 42);
    push_u16(&mut bytes, 2); // pool index
    bytes.push(TYPE_LONG);
    bytes.extend_from_slice(&[0; 8]);
    push_u16(&mut bytes, 1);
    push_id(&mut bytes); // static field name
    bytes.push(TYPE_INT);
    push_u32(&mut bytes, 7);
    push_u16(&mut bytes, 1);
    push_id(&mut bytes); // instance field name
    bytes.push(TYPE_OBJECT);
    let expected = (7 * ID + 8) // fixed header
        + 2 + (2 + 1 + 4) + (2 + 1 + 8) // constant pool
        + 2 + (ID + 1 + 4) // static fields
        + 2 + (ID + 1); // instance fields, no value bytes
    let total = bytes.len();
    assert_eq!(expected, total);
    let mut r = Reader::new(bytes, ID);
    assert_eq!(load_class_dump(&mut r), Ok(expected));
    assert_eq!(r.offset(), total);
}

#[test]
fn class_dump_with_empty_tables() {
    let mut bytes = Vec::new();
    class_dump_header(&mut bytes);
    push_u16(&mut bytes, 0);
    push_u16(&mut bytes, 0);
    push_u16(&mut bytes, 0);
    let mut r = Reader::new(bytes, ID);
    assert_eq!(load_class_dump(&mut r), Ok(7 * ID + 8 + 6));
}

#[test]
fn class_dump_rejects_unknown_constant_pool_type() {
    let mut bytes = Vec::new();
    class_dump_header(&mut bytes);
    push_u16(&mut bytes, 1);
    push_u16(&mut bytes, 1);
    bytes.push(0x63);
    bytes.extend_from_slice(&[0; 32]);
    let mut r = Reader::new(bytes, ID);
    assert_eq!(load_class_dump(&mut r), Err(Error::UnknownTag(0x63)));
}

#[test]
fn class_dump_fails_when_static_fields_are_cut_off() {
    let mut bytes = Vec::new();
    class_dump_header(&mut bytes);
    push_u16(&mut bytes, 0);
    push_u16(&mut bytes, 2);
    push_id(&mut bytes);
    bytes.push(TYPE_INT);
    // value bytes of the first entry and the whole second entry are missing
    let mut r = Reader::new(bytes, ID);
    assert_eq!(load_class_dump(&mut r), Err(Error::Truncated));
}
