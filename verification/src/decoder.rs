use vstd::prelude::*;

verus! {

use crate::error::Error;
use crate::layout::{
    add_consumed, class_dump_size, field_type_size, fixed_record_size, instance_dump_size,
    is_field_type, object_array_size, primitive_array_size, segment_consumed, subrecord_size,
    valued_table_size,
};
use crate::reader::Reader;
use crate::tags::{
    CLASS_DUMP, HEAP_DUMP_INFO, HEAP_UNREACHABLE, INSTANCE_DUMP, OBJECT_ARRAY_DUMP,
    PRIMITIVE_ARRAY_DUMP, ROOT_DEBUGGER, ROOT_FINALIZING, ROOT_INTERNED_STRING, ROOT_JAVA_FRAME,
    ROOT_JNI_GLOBAL, ROOT_JNI_LOCAL, ROOT_JNI_MONITOR, ROOT_MONITOR_USED, ROOT_NATIVE_STACK,
    ROOT_REFERENCE_CLEANUP, ROOT_STICKY_CLASS, ROOT_THREAD_BLOCK, ROOT_THREAD_OBJECT,
    ROOT_UNKNOWN, ROOT_VM_INTERNAL, TYPE_BOOLEAN, TYPE_BYTE, TYPE_CHAR, TYPE_DOUBLE, TYPE_FLOAT,
    TYPE_INT, TYPE_LONG, TYPE_OBJECT, TYPE_SHORT,
};

/// The decode outcome `r` and the reader's movement from `pre` to `post`
/// agree with the layout extent `sz` computed over the raw bytes: on success
/// the returned count is the layout's exact byte extent and the position
/// advanced by that count; on failure the error is the one the layout names.
pub open spec fn decodes_to(
    pre: Reader,
    post: Reader,
    r: Result<usize, Error>,
    sz: Result<nat, Error>,
) -> bool {
    &&& post.wf()
    &&& post.same_dump(&pre)
    &&& match r {
        Ok(n) => sz == Ok::<nat, Error>(n as nat) && post.position() == pre.position() + n,
        Err(e) => sz == Err::<nat, Error>(e),
    }
}

/// Resolve a field-type tag to the fixed byte width of one value of that
/// type. Any byte outside the nine known tags is an unknown-tag failure; no
/// default width exists, since a wrong width would desynchronize every later
/// read.
pub fn get_type_size(field_type: u8) -> (r: Result<usize, Error>)
    ensures
        (match r {
            Ok(s) => is_field_type(field_type) && s as nat == field_type_size(field_type),
            Err(e) => !is_field_type(field_type) && e == Error::UnknownTag(field_type),
        }),
{
    if field_type == TYPE_OBJECT {
        Ok(4)
    } else if field_type == TYPE_BOOLEAN {
        Ok(1)
    } else if field_type == TYPE_CHAR {
        Ok(2)
    } else if field_type == TYPE_FLOAT {
        Ok(4)
    } else if field_type == TYPE_DOUBLE {
        Ok(8)
    } else if field_type == TYPE_BYTE {
        Ok(1)
    } else if field_type == TYPE_SHORT {
        Ok(2)
    } else if field_type == TYPE_INT {
        Ok(4)
    } else if field_type == TYPE_LONG {
        Ok(8)
    } else {
        Err(Error::UnknownTag(field_type))
    }
}

/// Decode the body of a root sub-record holding a single identifier.
pub fn load_basic_obj(reader: &mut Reader) -> (r: Result<usize, Error>)
    requires
        old(reader).wf(),
    ensures
        decodes_to(
            *old(reader),
            *final(reader),
            r,
            fixed_record_size(old(reader).bytes(), old(reader).position(), old(reader).id_width()),
        ),
{
    reader.read_id()?;
    Ok(reader.id_size())
}

/// Decode the body of a JNI-local root: an identifier and two four-byte
/// fields.
pub fn load_jni_local(reader: &mut Reader) -> (r: Result<usize, Error>)
    requires
        old(reader).wf(),
    ensures
        decodes_to(
            *old(reader),
            *final(reader),
            r,
            fixed_record_size(
                old(reader).bytes(),
                old(reader).position(),
                old(reader).id_width() + 8,
            ),
        ),
{
    reader.read_id()?;
    reader.read_u32()?;
    reader.read_u32()?;
    Ok(reader.id_size() + 8)
}

/// Decode the body of a Java-frame root: an identifier and two four-byte
/// fields.
pub fn load_java_frame(reader: &mut Reader) -> (r: Result<usize, Error>)
    requires
        old(reader).wf(),
    ensures
        decodes_to(
            *old(reader),
            *final(reader),
            r,
            fixed_record_size(
                old(reader).bytes(),
                old(reader).position(),
                old(reader).id_width() + 8,
            ),
        ),
{
    reader.read_id()?;
    reader.read_u32()?;
    reader.read_u32()?;
    Ok(reader.id_size() + 8)
}

/// Decode the body of a native-stack root: an identifier and one four-byte
/// field.
pub fn load_native_stack(reader: &mut Reader) -> (r: Result<usize, Error>)
    requires
        old(reader).wf(),
    ensures
        decodes_to(
            *old(reader),
            *final(reader),
            r,
            fixed_record_size(
                old(reader).bytes(),
                old(reader).position(),
                old(reader).id_width() + 4,
            ),
        ),
{
    reader.read_id()?;
    reader.read_u32()?;
    Ok(reader.id_size() + 4)
}

/// Decode the body of a thread-block root: an identifier and one four-byte
/// field.
pub fn load_thread_block(reader: &mut Reader) -> (r: Result<usize, Error>)
    requires
        old(reader).wf(),
    ensures
        decodes_to(
            *old(reader),
            *final(reader),
            r,
            fixed_record_size(
                old(reader).bytes(),
                old(reader).position(),
                old(reader).id_width() + 4,
            ),
        ),
{
    reader.read_id()?;
    reader.read_u32()?;
    Ok(reader.id_size() + 4)
}

/// Decode the body of a thread-object root: an identifier and two four-byte
/// fields.
pub fn load_thread_obj(reader: &mut Reader) -> (r: Result<usize, Error>)
    requires
        old(reader).wf(),
    ensures
        decodes_to(
            *old(reader),
            *final(reader),
            r,
            fixed_record_size(
                old(reader).bytes(),
                old(reader).position(),
                old(reader).id_width() + 8,
            ),
        ),
{
    reader.read_id()?;
    reader.read_u32()?;
    reader.read_u32()?;
    Ok(reader.id_size() + 8)
}

/// Decode the body of a heap-dump-info sub-record: a four-byte heap
/// identifier and a heap-name identifier.
pub fn load_head_dump_info(reader: &mut Reader) -> (r: Result<usize, Error>)
    requires
        old(reader).wf(),
    ensures
        decodes_to(
            *old(reader),
            *final(reader),
            r,
            fixed_record_size(
                old(reader).bytes(),
                old(reader).position(),
                old(reader).id_width() + 4,
            ),
        ),
{
    reader.read_u32()?;
    reader.read_id()?;
    Ok(reader.id_size() + 4)
}

/// Decode the body of an instance dump: object identifier, stack-trace
/// serial, class identifier, then a four-byte count of raw field-value bytes,
/// which are consumed without interpretation — reading them back needs the
/// class's instance-field table, which is not cross-referenced here.
pub fn load_instance_dump(reader: &mut Reader) -> (r: Result<usize, Error>)
    requires
        old(reader).wf(),
    ensures
        decodes_to(
            *old(reader),
            *final(reader),
            r,
            instance_dump_size(
                old(reader).bytes(),
                old(reader).position(),
                old(reader).id_width(),
            ),
        ),
{
    let start: usize = reader.offset();
    reader.read_id()?;
    reader.read_u32()?;
    reader.read_id()?;
    let remaining: u32 = reader.read_u32()?;
    reader.read_u8_array(remaining as usize)?;
    let end: usize = reader.offset();
    Ok(end - start)
}

/// Decode the body of an object-array dump: array identifier, stack-trace
/// serial, a four-byte element count, element-class identifier, then one
/// identifier per element, consumed without interpretation.
pub fn load_object_array(reader: &mut Reader) -> (r: Result<usize, Error>)
    requires
        old(reader).wf(),
    ensures
        decodes_to(
            *old(reader),
            *final(reader),
            r,
            object_array_size(
                old(reader).bytes(),
                old(reader).position(),
                old(reader).id_width(),
            ),
        ),
{
    let start: usize = reader.offset();
    reader.read_id()?;
    reader.read_u32()?;
    let count: u32 = reader.read_u32()?;
    reader.read_id()?;
    let id_width: usize = reader.id_size();
    proof {
        vstd::arithmetic::mul::lemma_mul_upper_bound(count as int, 0xFFFFFFFF, id_width as int, 8);
    }
    let need: u64 = (count as u64) * (id_width as u64);
    if need > reader.remaining() as u64 {
        return Err(Error::Truncated);
    }
    reader.read_u8_array(need as usize)?;
    let end: usize = reader.offset();
    Ok(end - start)
}

/// Decode the body of a primitive-array dump: array identifier, stack-trace
/// serial, a four-byte element count, a field-type tag giving the element
/// width, then the elements, consumed without interpretation.
pub fn load_primitive_array(reader: &mut Reader) -> (r: Result<usize, Error>)
    requires
        old(reader).wf(),
    ensures
        decodes_to(
            *old(reader),
            *final(reader),
            r,
            primitive_array_size(
                old(reader).bytes(),
                old(reader).position(),
                old(reader).id_width(),
            ),
        ),
{
    let start: usize = reader.offset();
    reader.read_id()?;
    reader.read_u32()?;
    let count: u32 = reader.read_u32()?;
    let field_type: u8 = reader.read_u8()?;
    let type_size: usize = get_type_size(field_type)?;
    proof {
        vstd::arithmetic::mul::lemma_mul_upper_bound(count as int, 0xFFFFFFFF, type_size as int, 8);
    }
    let need: u64 = (count as u64) * (type_size as u64);
    if need > reader.remaining() as u64 {
        return Err(Error::Truncated);
    }
    reader.read_u8_array(need as usize)?;
    let end: usize = reader.offset();
    Ok(end - start)
}

/// Decode one table of valued entries: `count` entries, each holding a fixed
/// prefix (a two-byte pool index when `indexed`, a field-name identifier
/// otherwise), a field-type tag, and a value of the width that tag names.
fn load_valued_table(reader: &mut Reader, count: u16, indexed: bool) -> (r: Result<usize, Error>)
    requires
        old(reader).wf(),
    ensures
        decodes_to(
            *old(reader),
            *final(reader),
            r,
            valued_table_size(
                old(reader).bytes(),
                old(reader).position(),
                count as nat,
                (if indexed {
                    2nat
                } else {
                    old(reader).id_width()
                }),
            ),
        ),
{
    let ghost data: Seq<u8> = reader.bytes();
    let ghost idw: nat = reader.id_width();
    let ghost pre: nat = if indexed { 2nat } else { idw };
    let start: usize = reader.offset();
    let mut i: u16 = 0;
    while i < count
        invariant
            reader.wf(),
            data == old(reader).bytes(),
            idw == old(reader).id_width(),
            start as int == old(reader).position(),
            reader.bytes() == data,
            reader.id_width() == idw,
            pre == (if indexed {
                2nat
            } else {
                idw
            }),
            i <= count,
            start as int <= reader.position(),
            valued_table_size(data, start as int, count as nat, pre) == add_consumed(
                valued_table_size(data, reader.position(), (count - i) as nat, pre),
                (reader.position() - start) as nat,
            ),
        decreases count - i,
    {
        let ghost p: int = reader.position();
        proof {
            assert(valued_table_size(data, p, (count - i) as nat, pre) == (if p + pre + 1
                > data.len() {
                Err::<nat, Error>(Error::Truncated)
            } else if !is_field_type(data[p + pre]) {
                Err::<nat, Error>(Error::UnknownTag(data[p + pre]))
            } else if p + pre + 1 + field_type_size(data[p + pre]) > data.len() {
                Err::<nat, Error>(Error::Truncated)
            } else {
                add_consumed(
                    valued_table_size(
                        data,
                        p + pre + 1 + field_type_size(data[p + pre]),
                        (count - i - 1) as nat,
                        pre,
                    ),
                    pre + 1 + field_type_size(data[p + pre]),
                )
            }));
        }
        if indexed {
            reader.read_u16()?;
        } else {
            reader.read_id()?;
        }
        let field_type: u8 = reader.read_u8()?;
        let type_size: usize = get_type_size(field_type)?;
        reader.read_u8_array(type_size)?;
        i = i + 1;
        proof {
            assert(valued_table_size(data, p, (count - i + 1) as nat, pre) == add_consumed(
                valued_table_size(data, reader.position(), (count - i) as nat, pre),
                pre + 1 + field_type_size(data[p + pre]),
            ));
        }
    }
    let end: usize = reader.offset();
    Ok(end - start)
}

/// Decode the body of a class dump: seven identifiers and two four-byte
/// fields, then the constant pool, the static fields and the instance fields,
/// each table prefixed by a two-byte entry count. Constant-pool and
/// static-field entries carry inline values sized by their field-type tag;
/// instance-field entries carry no value bytes, since instance values live in
/// the instance dumps.
pub fn load_class_dump(reader: &mut Reader) -> (r: Result<usize, Error>)
    requires
        old(reader).wf(),
    ensures
        decodes_to(
            *old(reader),
            *final(reader),
            r,
            class_dump_size(old(reader).bytes(), old(reader).position(), old(reader).id_width()),
        ),
{
    let ghost data: Seq<u8> = reader.bytes();
    let ghost idw: nat = reader.id_width();
    let start: usize = reader.offset();
    reader.read_id()?;  // class object identifier
    reader.read_u32()?;  // stack-trace serial
    reader.read_id()?;  // superclass
    reader.read_id()?;  // class loader
    reader.read_id()?;  // signers
    reader.read_id()?;  // protection domain
    reader.read_id()?;  // reserved
    reader.read_id()?;  // reserved
    reader.read_u32()?;  // instance size
    let cp_count: u16 = reader.read_u16()?;
    load_valued_table(reader, cp_count, true)?;
    let sf_count: u16 = reader.read_u16()?;
    load_valued_table(reader, sf_count, false)?;
    let if_count: u16 = reader.read_u16()?;
    let ghost if_start: int = reader.position();
    let mut i: u16 = 0;
    while i < if_count
        invariant
            reader.wf(),
            data == old(reader).bytes(),
            idw == old(reader).id_width(),
            start as int == old(reader).position(),
            reader.bytes() == data,
            reader.id_width() == idw,
            i <= if_count,
            reader.position() == if_start + (i as int) * (idw + 1),
            if_start + (if_count as int) * (idw + 1) > data.len() ==> class_dump_size(
                data,
                start as int,
                idw,
            ) == Err::<nat, Error>(Error::Truncated),
            if_start + (if_count as int) * (idw + 1) <= data.len() ==> class_dump_size(
                data,
                start as int,
                idw,
            ) == Ok::<nat, Error>(((if_start + (if_count as int) * (idw + 1) - start) as nat)),
        decreases if_count - i,
    {
        proof {
            vstd::arithmetic::mul::lemma_mul_inequality(
                i as int + 1,
                if_count as int,
                idw as int + 1,
            );
            assert((i as int + 1) * (idw + 1) == (i as int) * (idw + 1) + (idw + 1))
                by (nonlinear_arith);
            assert(reader.position() + (idw + 1) <= if_start + (if_count as int) * (idw + 1));
        }
        reader.read_id()?;
        reader.read_u8()?;
        i = i + 1;
    }
    proof {
        vstd::arithmetic::mul::lemma_mul_inequality(0, if_count as int, idw as int + 1);
    }
    let end: usize = reader.offset();
    Ok(end - start)
}

/// Walk one heap-dump segment of declared byte length `length`: read a tag
/// byte, decode the sub-record it announces, add the bytes consumed to the
/// cursor, and repeat until the declared length is accounted for. Succeeds
/// only when every tag is recognized and every sub-record is complete; the
/// cursor then stands exactly at the total byte count consumed, which equals
/// `length` whenever the declared length is the exact total. As in the
/// format's usual readers, the exit is lenient: a final sub-record that runs
/// past the declared length is consumed whole and not flagged.
#[verifier::rlimit(50)]
pub fn load_heap(reader: &mut Reader, length: usize) -> (r: Result<bool, Error>)
    requires
        old(reader).wf(),
    ensures
        final(reader).wf(),
        final(reader).same_dump(old(reader)),
        (match r {
            Ok(b) => {
                &&& b
                &&& segment_consumed(
                    old(reader).bytes(),
                    old(reader).position(),
                    old(reader).id_width(),
                    length as int,
                ) == Ok::<nat, Error>(
                    ((final(reader).position() - old(reader).position()) as nat),
                )
                &&& final(reader).position() >= old(reader).position() + length
            },
            Err(e) => segment_consumed(
                old(reader).bytes(),
                old(reader).position(),
                old(reader).id_width(),
                length as int,
            ) == Err::<nat, Error>(e),
        }),
{
    let ghost data: Seq<u8> = reader.bytes();
    let ghost idw: nat = reader.id_width();
    let start: usize = reader.offset();
    let mut cursor: usize = 0;
    while cursor < length
        invariant
            reader.wf(),
            data == old(reader).bytes(),
            idw == old(reader).id_width(),
            start as int == old(reader).position(),
            reader.bytes() == data,
            reader.id_width() == idw,
            reader.position() == start as int + cursor as int,
            segment_consumed(data, start as int, idw, length as int) == add_consumed(
                segment_consumed(data, reader.position(), idw, length - cursor),
                cursor as nat,
            ),
        decreases (if cursor < length {
            length - cursor
        } else {
            0int
        }),
    {
        let ghost p: int = reader.position();
        proof {
            assert(segment_consumed(data, p, idw, length - cursor) == (if p + 1 > data.len() {
                Err::<nat, Error>(Error::Truncated)
            } else {
                match subrecord_size(data, p + 1, idw, data[p]) {
                    Err(e) => Err::<nat, Error>(e),
                    Ok(n) => add_consumed(
                        segment_consumed(data, p + 1 + n, idw, length - cursor - 1 - n),
                        n + 1,
                    ),
                }
            }));
        }
        let tag: u8 = reader.read_u8()?;
        if tag == ROOT_UNKNOWN || tag == ROOT_STICKY_CLASS || tag == ROOT_MONITOR_USED
            || tag == ROOT_INTERNED_STRING || tag == ROOT_FINALIZING || tag == ROOT_DEBUGGER
            || tag == ROOT_REFERENCE_CLEANUP || tag == ROOT_VM_INTERNAL
            || tag == ROOT_JNI_MONITOR || tag == HEAP_UNREACHABLE {
            load_basic_obj(reader)?;
        } else if tag == ROOT_JNI_GLOBAL {
            load_basic_obj(reader)?;
            reader.read_id()?;
        } else if tag == ROOT_JNI_LOCAL {
            load_jni_local(reader)?;
        } else if tag == ROOT_JAVA_FRAME {
            load_java_frame(reader)?;
        } else if tag == ROOT_NATIVE_STACK {
            load_native_stack(reader)?;
        } else if tag == ROOT_THREAD_BLOCK {
            load_thread_block(reader)?;
        } else if tag == ROOT_THREAD_OBJECT {
            load_thread_obj(reader)?;
        } else if tag == CLASS_DUMP {
            load_class_dump(reader)?;
        } else if tag == INSTANCE_DUMP {
            load_instance_dump(reader)?;
        } else if tag == OBJECT_ARRAY_DUMP {
            load_object_array(reader)?;
        } else if tag == PRIMITIVE_ARRAY_DUMP {
            load_primitive_array(reader)?;
        } else if tag == HEAP_DUMP_INFO {
            load_head_dump_info(reader)?;
        } else {
            return Err(Error::UnknownTag(tag));
        }
        cursor = reader.offset() - start;
    }
    proof {
        assert(segment_consumed(data, reader.position(), idw, length - cursor) == Ok::<
            nat,
            Error,
        >(0));
    }
    Ok(true)
}

} // verus!
