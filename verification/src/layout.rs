use vstd::prelude::*;

verus! {

use crate::error::Error;
use crate::reader::be_at;
use crate::tags::{
    CLASS_DUMP, HEAP_DUMP_INFO, HEAP_UNREACHABLE, INSTANCE_DUMP, OBJECT_ARRAY_DUMP,
    PRIMITIVE_ARRAY_DUMP, ROOT_DEBUGGER, ROOT_FINALIZING, ROOT_INTERNED_STRING, ROOT_JAVA_FRAME,
    ROOT_JNI_GLOBAL, ROOT_JNI_LOCAL, ROOT_JNI_MONITOR, ROOT_MONITOR_USED, ROOT_NATIVE_STACK,
    ROOT_REFERENCE_CLEANUP, ROOT_STICKY_CLASS, ROOT_THREAD_BLOCK, ROOT_THREAD_OBJECT,
    ROOT_UNKNOWN, ROOT_VM_INTERNAL, TYPE_BOOLEAN, TYPE_BYTE, TYPE_CHAR, TYPE_DOUBLE, TYPE_FLOAT,
    TYPE_INT, TYPE_LONG, TYPE_OBJECT, TYPE_SHORT,
};

// Every layout function below maps the raw bytes, a start position and the
// identifier width to either the exact byte extent of one well-formed
// sub-record body (the bytes after its tag byte) or the error that decoding
// it must report. They are the reference the executable decoders are proved
// against.

/// The big-endian value of the two bytes at `pos`.
pub open spec fn u16_at(data: Seq<u8>, pos: int) -> nat {
    be_at(data, pos, 2)
}

/// The big-endian value of the four bytes at `pos`.
pub open spec fn u32_at(data: Seq<u8>, pos: int) -> nat {
    be_at(data, pos, 4)
}

/// Whether `t` is one of the nine field-type tags.
pub open spec fn is_field_type(t: u8) -> bool {
    ||| t == TYPE_OBJECT
    ||| t == TYPE_BOOLEAN
    ||| t == TYPE_CHAR
    ||| t == TYPE_FLOAT
    ||| t == TYPE_DOUBLE
    ||| t == TYPE_BYTE
    ||| t == TYPE_SHORT
    ||| t == TYPE_INT
    ||| t == TYPE_LONG
}

/// The encoded byte width of a value of field type `t`.
pub open spec fn field_type_size(t: u8) -> nat {
    if t == TYPE_OBJECT {
        4
    } else if t == TYPE_BOOLEAN {
        1
    } else if t == TYPE_CHAR {
        2
    } else if t == TYPE_FLOAT {
        4
    } else if t == TYPE_DOUBLE {
        8
    } else if t == TYPE_BYTE {
        1
    } else if t == TYPE_SHORT {
        2
    } else if t == TYPE_INT {
        4
    } else if t == TYPE_LONG {
        8
    } else {
        0
    }
}

/// A sub-record of `sz` bytes with no inner structure: it decodes to exactly
/// `sz` when that many bytes remain, and is truncated otherwise.
pub open spec fn fixed_record_size(data: Seq<u8>, pos: int, sz: nat) -> Result<nat, Error> {
    if pos + sz > data.len() {
        Err(Error::Truncated)
    } else {
        Ok(sz)
    }
}

/// Add `k` already-consumed bytes to a decode outcome.
pub open spec fn add_consumed(r: Result<nat, Error>, k: nat) -> Result<nat, Error> {
    match r {
        Ok(n) => Ok(n + k),
        Err(e) => Err(e),
    }
}

/// The byte extent of `n` table entries starting at `pos`, each holding `pre`
/// fixed bytes, one field-type tag, and a value of the width that tag names.
/// Constant-pool entries carry a two-byte pool index (`pre == 2`); static-field
/// entries carry a field-name identifier (`pre == id_width`). An entry with a
/// tag outside the nine field types fails with that tag's unknown-tag error;
/// an entry cut off by the end of the data fails as truncated.
pub open spec fn valued_table_size(data: Seq<u8>, pos: int, n: nat, pre: nat) -> Result<
    nat,
    Error,
>
    decreases n,
{
    if n == 0 {
        Ok(0)
    } else if pos + pre + 1 > data.len() {
        Err(Error::Truncated)
    } else if !is_field_type(data[pos + pre]) {
        Err(Error::UnknownTag(data[pos + pre]))
    } else if pos + pre + 1 + field_type_size(data[pos + pre]) > data.len() {
        Err(Error::Truncated)
    } else {
        add_consumed(
            valued_table_size(
                data,
                pos + pre + 1 + field_type_size(data[pos + pre]),
                (n - 1) as nat,
                pre,
            ),
            pre + 1 + field_type_size(data[pos + pre]),
        )
    }
}

/// The byte extent of a class-dump body: seven identifiers and two four-byte
/// fields, then three tables, each prefixed by a two-byte entry count — the
/// constant pool and the static fields with inline values, and the instance
/// fields with a name identifier and a type tag but no value bytes.
pub open spec fn class_dump_size(data: Seq<u8>, pos: int, idw: nat) -> Result<nat, Error> {
    let header = 7 * idw + 8;
    if pos + header + 2 > data.len() {
        Err(Error::Truncated)
    } else {
        let cp_n = u16_at(data, pos + header);
        match valued_table_size(data, pos + header + 2, cp_n, 2) {
            Err(e) => Err(e),
            Ok(cp_sz) => {
                let p2 = pos + header + 2 + cp_sz;
                if p2 + 2 > data.len() {
                    Err(Error::Truncated)
                } else {
                    let sf_n = u16_at(data, p2);
                    match valued_table_size(data, p2 + 2, sf_n, idw) {
                        Err(e) => Err(e),
                        Ok(sf_sz) => {
                            let p3 = p2 + 2 + sf_sz;
                            if p3 + 2 > data.len() {
                                Err(Error::Truncated)
                            } else {
                                let if_n = u16_at(data, p3);
                                if p3 + 2 + if_n * (idw + 1) > data.len() {
                                    Err(Error::Truncated)
                                } else {
                                    Ok(header + 2 + cp_sz + 2 + sf_sz + 2 + if_n * (idw + 1))
                                }
                            }
                        },
                    }
                }
            },
        }
    }
}

/// The byte extent of an instance-dump body: object identifier, stack-trace
/// serial, class identifier, a four-byte count `n`, then `n` raw field-value
/// bytes.
pub open spec fn instance_dump_size(data: Seq<u8>, pos: int, idw: nat) -> Result<nat, Error> {
    let fixed = 2 * idw + 8;
    if pos + fixed > data.len() {
        Err(Error::Truncated)
    } else {
        let n = u32_at(data, pos + 2 * idw + 4);
        if pos + fixed + n > data.len() {
            Err(Error::Truncated)
        } else {
            Ok(fixed + n)
        }
    }
}

/// The byte extent of an object-array-dump body: array identifier, stack-trace
/// serial, a four-byte element count `c`, element-class identifier, then `c`
/// element identifiers.
pub open spec fn object_array_size(data: Seq<u8>, pos: int, idw: nat) -> Result<nat, Error> {
    let fixed = 2 * idw + 8;
    if pos + fixed > data.len() {
        Err(Error::Truncated)
    } else {
        let c = u32_at(data, pos + idw + 4);
        if pos + fixed + c * idw > data.len() {
            Err(Error::Truncated)
        } else {
            Ok(fixed + c * idw)
        }
    }
}

/// The byte extent of a primitive-array-dump body: array identifier,
/// stack-trace serial, a four-byte element count `c`, one field-type tag, then
/// `c` elements of the width that tag names. A tag outside the nine field
/// types fails with its unknown-tag error.
pub open spec fn primitive_array_size(data: Seq<u8>, pos: int, idw: nat) -> Result<nat, Error> {
    let fixed = idw + 9;
    if pos + fixed > data.len() {
        Err(Error::Truncated)
    } else if !is_field_type(data[pos + idw + 8]) {
        Err(Error::UnknownTag(data[pos + idw + 8]))
    } else {
        let c = u32_at(data, pos + idw + 4);
        let elem = field_type_size(data[pos + idw + 8]);
        if pos + fixed + c * elem > data.len() {
            Err(Error::Truncated)
        } else {
            Ok(fixed + c * elem)
        }
    }
}

/// Whether `tag` is a root sub-record whose body is a single identifier.
pub open spec fn is_single_id_root(tag: u8) -> bool {
    ||| tag == ROOT_UNKNOWN
    ||| tag == ROOT_STICKY_CLASS
    ||| tag == ROOT_MONITOR_USED
    ||| tag == ROOT_INTERNED_STRING
    ||| tag == ROOT_FINALIZING
    ||| tag == ROOT_DEBUGGER
    ||| tag == ROOT_REFERENCE_CLEANUP
    ||| tag == ROOT_VM_INTERNAL
    ||| tag == ROOT_JNI_MONITOR
    ||| tag == HEAP_UNREACHABLE
}

/// Whether `tag` is one of the recognized sub-record tags.
pub open spec fn is_recognized_tag(tag: u8) -> bool {
    ||| is_single_id_root(tag)
    ||| tag == ROOT_JNI_GLOBAL
    ||| tag == ROOT_JNI_LOCAL
    ||| tag == ROOT_JAVA_FRAME
    ||| tag == ROOT_NATIVE_STACK
    ||| tag == ROOT_THREAD_BLOCK
    ||| tag == ROOT_THREAD_OBJECT
    ||| tag == CLASS_DUMP
    ||| tag == INSTANCE_DUMP
    ||| tag == OBJECT_ARRAY_DUMP
    ||| tag == PRIMITIVE_ARRAY_DUMP
    ||| tag == HEAP_DUMP_INFO
}

/// The byte extent of the sub-record body that `tag` announces, starting at
/// `pos` (just past the tag byte), or the error decoding it must report. An
/// unrecognized tag fails with its unknown-tag error before any byte of the
/// body is read.
pub open spec fn subrecord_size(data: Seq<u8>, pos: int, idw: nat, tag: u8) -> Result<nat, Error> {
    if is_single_id_root(tag) {
        fixed_record_size(data, pos, idw)
    } else if tag == ROOT_JNI_GLOBAL {
        fixed_record_size(data, pos, 2 * idw)
    } else if tag == ROOT_JNI_LOCAL || tag == ROOT_JAVA_FRAME || tag == ROOT_THREAD_OBJECT {
        fixed_record_size(data, pos, idw + 8)
    } else if tag == ROOT_NATIVE_STACK || tag == ROOT_THREAD_BLOCK {
        fixed_record_size(data, pos, idw + 4)
    } else if tag == CLASS_DUMP {
        class_dump_size(data, pos, idw)
    } else if tag == INSTANCE_DUMP {
        instance_dump_size(data, pos, idw)
    } else if tag == OBJECT_ARRAY_DUMP {
        object_array_size(data, pos, idw)
    } else if tag == PRIMITIVE_ARRAY_DUMP {
        primitive_array_size(data, pos, idw)
    } else if tag == HEAP_DUMP_INFO {
        fixed_record_size(data, pos, idw + 4)
    } else {
        Err(Error::UnknownTag(tag))
    }
}

/// The outcome of walking a segment: starting at `pos` with `budget` bytes of
/// declared length still unaccounted for, read a tag byte and its sub-record
/// and repeat, until the budget is spent. Returns the total byte count
/// consumed, which may pass the budget when the last sub-record does. This is
/// the lenient exit of the dispatch loop: it stops as soon as the budget is
/// reached, without checking that it was met exactly.
pub open spec fn segment_consumed(data: Seq<u8>, pos: int, idw: nat, budget: int) -> Result<
    nat,
    Error,
>
    decreases (if budget > 0 { budget } else { 0 }),
{
    if budget <= 0 {
        Ok(0)
    } else if pos + 1 > data.len() {
        Err(Error::Truncated)
    } else {
        match subrecord_size(data, pos + 1, idw, data[pos]) {
            Err(e) => Err(e),
            Ok(n) => add_consumed(
                segment_consumed(data, pos + 1 + n, idw, budget - 1 - n),
                n + 1,
            ),
        }
    }
}

} // verus!
