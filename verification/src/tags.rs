use vstd::prelude::*;

verus! {

// Sub-record tags of a heap-dump segment.

pub const ROOT_JNI_GLOBAL: u8 = 0x01;
pub const ROOT_JNI_LOCAL: u8 = 0x02;
pub const ROOT_JAVA_FRAME: u8 = 0x03;
pub const ROOT_NATIVE_STACK: u8 = 0x04;
pub const ROOT_STICKY_CLASS: u8 = 0x05;
pub const ROOT_THREAD_BLOCK: u8 = 0x06;
pub const ROOT_MONITOR_USED: u8 = 0x07;
pub const ROOT_THREAD_OBJECT: u8 = 0x08;
pub const CLASS_DUMP: u8 = 0x20;
pub const INSTANCE_DUMP: u8 = 0x21;
pub const OBJECT_ARRAY_DUMP: u8 = 0x22;
pub const PRIMITIVE_ARRAY_DUMP: u8 = 0x23;
pub const ROOT_INTERNED_STRING: u8 = 0x89;
pub const ROOT_FINALIZING: u8 = 0x8A;
pub const ROOT_DEBUGGER: u8 = 0x8B;
pub const ROOT_REFERENCE_CLEANUP: u8 = 0x8C;
pub const ROOT_VM_INTERNAL: u8 = 0x8D;
pub const ROOT_JNI_MONITOR: u8 = 0x8E;
pub const HEAP_UNREACHABLE: u8 = 0x90;
pub const HEAP_DUMP_INFO: u8 = 0xFE;
pub const ROOT_UNKNOWN: u8 = 0xFF;

// Field-type tags, shared by constant-pool entries, static and instance
// fields, and primitive-array elements.

pub const TYPE_OBJECT: u8 = 2;
pub const TYPE_BOOLEAN: u8 = 4;
pub const TYPE_CHAR: u8 = 5;
pub const TYPE_FLOAT: u8 = 6;
pub const TYPE_DOUBLE: u8 = 7;
pub const TYPE_BYTE: u8 = 8;
pub const TYPE_SHORT: u8 = 9;
pub const TYPE_INT: u8 = 10;
pub const TYPE_LONG: u8 = 11;

} // verus!
