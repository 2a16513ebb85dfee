use hprof_heap::decoder::load_heap;
use hprof_heap::error::Error;
use hprof_heap::reader::Reader;
use hprof_heap::tags::{
    HEAP_DUMP_INFO, HEAP_UNREACHABLE, INSTANCE_DUMP, OBJECT_ARRAY_DUMP, PRIMITIVE_ARRAY_DUMP,
    ROOT_DEBUGGER, ROOT_FINALIZING, ROOT_INTERNED_STRING, ROOT_JAVA_FRAME, ROOT_JNI_GLOBAL,
    ROOT_JNI_LOCAL, ROOT_JNI_MONITOR, ROOT_MONITOR_USED, ROOT_NATIVE_STACK,
    ROOT_REFERENCE_CLEANUP, ROOT_STICKY_CLASS, ROOT_THREAD_BLOCK, ROOT_THREAD_OBJECT,
    ROOT_UNKNOWN, ROOT_VM_INTERNAL, TYPE_BOOLEAN,
};

const ID: usize = 4;

fn push_id(v: &mut Vec<u8>) {
    v.extend_from_slice(&[0xBB; ID]);
}

fn push_u32(v: &mut Vec<u8>, x: u32) {
    v.extend_from_slice(&x.to_be_bytes());
}

#[test]
fn empty_segment_succeeds_without_reading() {
    let mut r = Reader::new(vec![0xFF; 3], ID);
    assert_eq!(load_heap(&mut r, 0), Ok(true));
    assert_eq!(r.offset(), 0);
}

#[test]
fn every_single_identifier_root_consumes_tag_plus_one_id() {
    for tag in [
        ROOT_UNKNOWN,
        ROOT_STICKY_CLASS,
        ROOT_MONITOR_USED,
        ROOT_INTERNED_STRING,
        ROOT_FINALIZING,
        ROOT_DEBUGGER,
        ROOT_REFERENCE_CLEANUP,
        ROOT_VM_INTERNAL,
        ROOT_JNI_MONITOR,
        HEAP_UNREACHABLE,
    ] {
        let mut bytes = vec![tag];
        push_id(&mut bytes);
        let len = bytes.len();
        let mut r = Reader::new(bytes, ID);
        assert_eq!(load_heap(&mut r, len), Ok(true));
        assert_eq!(r.offset(), len);
    }
}

#[test]
fn fixed_layout_roots_consume_their_exact_widths() {
    // (tag, identifiers after the first, four-byte fields)
    for (tag, extra_ids, words) in [
        (ROOT_JNI_GLOBAL, 1, 0),
        (ROOT_JNI_LOCAL, 0, 2),
        (ROOT_JAVA_FRAME, 0, 2),
        (ROOT_NATIVE_STACK, 0, 1),
        (ROOT_THREAD_BLOCK, 0, 1),
        (ROOT_THREAD_OBJECT, 0, 2),
    ] {
        let mut bytes = vec![tag];
        push_id(&mut bytes);
        for _ in 0..extra_ids {
            push_id(&mut bytes);
        }
        for _ in 0..words {
            push_u32(&mut bytes, 9);
        }
        let len = bytes.len();
        assert_eq!(len, 1 + ID + extra_ids * ID + words * 4);
        let mut r = Reader::new(bytes, ID);
        assert_eq!(load_heap(&mut r, len), Ok(true));
        assert_eq!(r.offset(), len);
    }
}

#[test]
fn heap_dump_info_consumes_word_then_id() {
    let mut bytes = vec![HEAP_DUMP_INFO];
    push_u32(&mut bytes, 1);
    push_id(&mut bytes);
    let len = bytes.len();
    let mut r = Reader::new(bytes, ID);
    assert_eq!(load_heap(&mut r, len), Ok(true));
    assert_eq!(r.offset(), len);
}

fn three_record_segment() -> Vec<u8> {
    let mut bytes = Vec::new();
    // a single-identifier root
    bytes.push(ROOT_UNKNOWN);
    push_id(&mut bytes);
    // an instance dump with a three-byte payload
    bytes.push(INSTANCE_DUMP);
    push_id(&mut bytes);
    push_u32(&mut bytes, 1);
    push_id(&mut bytes);
    push_u32(&mut bytes, 3);
    bytes.extend_from_slice(&[7, 7, 7]);
    // a primitive array of two booleans
    bytes.push(PRIMITIVE_ARRAY_DUMP);
    push_id(&mut bytes);
    push_u32(&mut bytes, 1);
    push_u32(&mut bytes, 2);
    bytes.push(TYPE_BOOLEAN);
    bytes.extend_from_slice(&[1, 0]);
    bytes
}

#[test]
fn concatenated_records_stop_exactly_at_the_declared_length() {
    let bytes = three_record_segment();
    let len = bytes.len();
    assert_eq!(len, (1 + ID) + (1 + 2 * ID + 8 + 3) + (1 + ID + 8 + 1 + 2));
    let mut r = Reader::new(bytes, ID);
    assert_eq!(load_heap(&mut r, len), Ok(true));
    assert_eq!(r.offset(), len);
}

#[test]
fn unknown_tag_anywhere_fails_the_whole_segment() {
    let mut bytes = three_record_segment();
    let len = bytes.len();
    // overwrite the second tag byte with an unrecognized value
    bytes[1 + ID] = 0x42;
    let mut r = Reader::new(bytes, ID);
    assert_eq!(load_heap(&mut r, len), Err(Error::UnknownTag(0x42)));
}

#[test]
fn unknown_first_tag_fails_immediately() {
    let mut bytes = vec![0x60];
    push_id(&mut bytes);
    let len = bytes.len();
    let mut r = Reader::new(bytes, ID);
    assert_eq!(load_heap(&mut r, len), Err(Error::UnknownTag(0x60)));
}

#[test]
fn segment_truncated_mid_record_fails() {
    let mut bytes = three_record_segment();
    let len = bytes.len();
    // cut the last record's payload short
    bytes.truncate(len - 1);
    let mut r = Reader::new(bytes, ID);
    assert_eq!(load_heap(&mut r, len), Err(Error::Truncated));
}

#[test]
fn segment_with_missing_tag_byte_fails_truncated() {
    let mut bytes = vec![ROOT_UNKNOWN];
    push_id(&mut bytes);
    // budget says more sub-records follow, but the data ends here
    let mut r = Reader::new(bytes, ID);
    assert_eq!(load_heap(&mut r, 20), Err(Error::Truncated));
}

#[test]
fn last_record_may_overshoot_the_declared_length() {
    // The dispatch loop stops once the budget is reached; a record that runs
    // past the declared length is consumed whole and not flagged.
    let mut bytes = vec![ROOT_JNI_LOCAL];
    push_id(&mut bytes);
    push_u32(&mut bytes, 1);
    push_u32(&mut bytes, 2);
    let full = bytes.len();
    let mut r = Reader::new(bytes, ID);
    assert_eq!(load_heap(&mut r, 3), Ok(true));
    assert_eq!(r.offset(), full);
}
