//! The coded-index codec: a reference multiplexed over several candidate
//! tables, packing a small selector tag in the low bits of a 2- or 4-byte
//! field alongside the row number.

use vstd::prelude::*;
use crate::error::Error;
use crate::header::Tables;
use crate::reader::{le_bytes, read_u16, read_u32};

verus! {

// Canonical table ids: the bit position of each table within the presence
// mask and the row-count array.
pub const TABLE_MODULE: usize = 0x00;

pub const TABLE_TYPE_REF: usize = 0x01;

pub const TABLE_TYPE_DEF: usize = 0x02;

pub const TABLE_FIELD: usize = 0x04;

pub const TABLE_METHOD_DEF: usize = 0x06;

pub const TABLE_PARAM: usize = 0x08;

pub const TABLE_INTERFACE_IMPL: usize = 0x09;

pub const TABLE_MEMBER_REF: usize = 0x0A;

pub const TABLE_CONSTANT: usize = 0x0B;

pub const TABLE_CUSTOM_ATTRIBUTE: usize = 0x0C;

pub const TABLE_FIELD_MARSHAL: usize = 0x0D;

pub const TABLE_DECL_SECURITY: usize = 0x0E;

pub const TABLE_CLASS_LAYOUT: usize = 0x0F;

pub const TABLE_FIELD_LAYOUT: usize = 0x10;

pub const TABLE_STANDALONE_SIG: usize = 0x11;

pub const TABLE_EVENT_MAP: usize = 0x12;

pub const TABLE_EVENT: usize = 0x14;

pub const TABLE_PROPERTY_MAP: usize = 0x15;

pub const TABLE_PROPERTY: usize = 0x17;

pub const TABLE_METHOD_SEMANTICS: usize = 0x18;

pub const TABLE_METHOD_IMPL: usize = 0x19;

pub const TABLE_MODULE_REF: usize = 0x1A;

pub const TABLE_TYPE_SPEC: usize = 0x1B;

pub const TABLE_IMPL_MAP: usize = 0x1C;

pub const TABLE_FIELD_RVA: usize = 0x1D;

pub const TABLE_ASSEMBLY: usize = 0x20;

pub const TABLE_ASSEMBLY_PROCESSOR: usize = 0x21;

pub const TABLE_ASSEMBLY_OS: usize = 0x22;

pub const TABLE_ASSEMBLY_REF: usize = 0x23;

pub const TABLE_ASSEMBLY_REFPROCESSOR: usize = 0x24;

pub const TABLE_ASSEMBLY_REFOS: usize = 0x25;

pub const TABLE_FILE: usize = 0x26;

pub const TABLE_EXPORTED_TYPE: usize = 0x27;

pub const TABLE_MANIFEST_RESOURCE: usize = 0x28;

pub const TABLE_NESTED_CLASS: usize = 0x29;

pub const TABLE_GENERIC_PARAM: usize = 0x2A;

pub const TABLE_METHOD_SPEC: usize = 0x2B;

pub const TABLE_GENERIC_PARAM_CONSTRAINT: usize = 0x2C;

/// The coded-index kinds: each fixes a tag bit width and an ordered
/// tag-to-table mapping.
#[derive(Debug, PartialEq, Eq, Structural, Copy, Clone)]
pub enum CodedIndexKind {
    TypeDefOrRef,
    HasConstant,
    HasCustomAttribute,
    HasFieldMarshall,
    HasDeclSecurity,
    MemberRefParent,
    HasSemantics,
    MethodDefOrRef,
    MemberForwarded,
    Implementation,
    CustomAttributeType,
    ResolutionScope,
}

/// A decoded coded index: the selected table id and the raw row number
/// (1-based by convention; 0 conventionally denotes "no reference", passed
/// through uninterpreted).
#[derive(Debug, PartialEq, Eq, Structural, Copy, Clone)]
pub struct CodedIndex {
    pub table: usize,
    pub row: u32,
}

/// The number of tag bits of a kind.
pub open spec fn spec_tag_bits(k: CodedIndexKind) -> u32 {
    match k {
        CodedIndexKind::TypeDefOrRef => 2,
        CodedIndexKind::HasConstant => 2,
        CodedIndexKind::HasCustomAttribute => 5,
        CodedIndexKind::HasFieldMarshall => 1,
        CodedIndexKind::HasDeclSecurity => 2,
        CodedIndexKind::MemberRefParent => 3,
        CodedIndexKind::HasSemantics => 1,
        CodedIndexKind::MethodDefOrRef => 1,
        CodedIndexKind::MemberForwarded => 1,
        CodedIndexKind::Implementation => 2,
        CodedIndexKind::CustomAttributeType => 3,
        CodedIndexKind::ResolutionScope => 2,
    }
}

/// The table selected by a tag value, or `None` when the tag is outside the
/// kind's mapping. The mapping is explicit per kind and is not always a
/// dense 0-based range.
pub open spec fn spec_table_for_tag(k: CodedIndexKind, tag: u32) -> Option<usize> {
    match k {
        CodedIndexKind::TypeDefOrRef => if tag == 0 {
            Some(TABLE_TYPE_DEF)
        } else if tag == 1 {
            Some(TABLE_TYPE_REF)
        } else if tag == 2 {
            Some(TABLE_TYPE_SPEC)
        } else {
            None
        },
        CodedIndexKind::HasConstant => if tag == 0 {
            Some(TABLE_FIELD)
        } else if tag == 1 {
            Some(TABLE_PARAM)
        } else if tag == 2 {
            Some(TABLE_PROPERTY)
        } else {
            None
        },
        CodedIndexKind::HasCustomAttribute => if tag == 0 {
            Some(TABLE_METHOD_DEF)
        } else if tag == 1 {
            Some(TABLE_FIELD)
        } else if tag == 2 {
            Some(TABLE_TYPE_REF)
        } else if tag == 3 {
            Some(TABLE_TYPE_DEF)
        } else if tag == 4 {
            Some(TABLE_PARAM)
        } else if tag == 5 {
            Some(TABLE_INTERFACE_IMPL)
        } else if tag == 6 {
            Some(TABLE_MEMBER_REF)
        } else if tag == 7 {
            Some(TABLE_MODULE)
        } else if tag == 8 {
            Some(TABLE_DECL_SECURITY)
        } else if tag == 9 {
            Some(TABLE_PROPERTY)
        } else if tag == 10 {
            Some(TABLE_EVENT)
        } else if tag == 11 {
            Some(TABLE_STANDALONE_SIG)
        } else if tag == 12 {
            Some(TABLE_MODULE_REF)
        } else if tag == 13 {
            Some(TABLE_TYPE_SPEC)
        } else if tag == 14 {
            Some(TABLE_ASSEMBLY)
        } else if tag == 15 {
            Some(TABLE_ASSEMBLY_REF)
        } else if tag == 16 {
            Some(TABLE_FILE)
        } else if tag == 17 {
            Some(TABLE_EXPORTED_TYPE)
        } else if tag == 18 {
            Some(TABLE_MANIFEST_RESOURCE)
        } else if tag == 19 {
            Some(TABLE_GENERIC_PARAM)
        } else if tag == 20 {
            Some(TABLE_GENERIC_PARAM_CONSTRAINT)
        } else if tag == 21 {
            Some(TABLE_METHOD_SPEC)
        } else {
            None
        },
        CodedIndexKind::HasFieldMarshall => if tag == 0 {
            Some(TABLE_FIELD)
        } else if tag == 1 {
            Some(TABLE_PARAM)
        } else {
            None
        },
        CodedIndexKind::HasDeclSecurity => if tag == 0 {
            Some(TABLE_TYPE_DEF)
        } else if tag == 1 {
            Some(TABLE_METHOD_DEF)
        } else if tag == 2 {
            Some(TABLE_ASSEMBLY)
        } else {
            None
        },
        CodedIndexKind::MemberRefParent => if tag == 0 {
            Some(TABLE_TYPE_DEF)
        } else if tag == 1 {
            Some(TABLE_TYPE_REF)
        } else if tag == 2 {
            Some(TABLE_MODULE_REF)
        } else if tag == 3 {
            Some(TABLE_METHOD_DEF)
        } else if tag == 4 {
            Some(TABLE_TYPE_SPEC)
        } else {
            None
        },
        CodedIndexKind::HasSemantics => if tag == 0 {
            Some(TABLE_EVENT)
        } else if tag == 1 {
            Some(TABLE_PROPERTY)
        } else {
            None
        },
        CodedIndexKind::MethodDefOrRef => if tag == 0 {
            Some(TABLE_METHOD_DEF)
        } else if tag == 1 {
            Some(TABLE_MEMBER_REF)
        } else {
            None
        },
        CodedIndexKind::MemberForwarded => if tag == 0 {
            Some(TABLE_FIELD)
        } else if tag == 1 {
            Some(TABLE_METHOD_DEF)
        } else {
            None
        },
        CodedIndexKind::Implementation => if tag == 0 {
            Some(TABLE_FILE)
        } else if tag == 1 {
            Some(TABLE_ASSEMBLY_REF)
        } else if tag == 2 {
            Some(TABLE_EXPORTED_TYPE)
        } else {
            None
        },
        CodedIndexKind::CustomAttributeType => if tag == 2 {
            Some(TABLE_METHOD_DEF)
        } else if tag == 3 {
            Some(TABLE_MEMBER_REF)
        } else {
            None
        },
        CodedIndexKind::ResolutionScope => if tag == 0 {
            Some(TABLE_MODULE)
        } else if tag == 1 {
            Some(TABLE_MODULE_REF)
        } else if tag == 2 {
            Some(TABLE_ASSEMBLY_REF)
        } else if tag == 3 {
            Some(TABLE_TYPE_REF)
        } else {
            None
        },
    }
}

/// The larger of two row counts.
pub open spec fn spec_max_count(a: u32, b: u32) -> u32 {
    if a > b {
        a
    } else {
        b
    }
}

/// The largest row count among a kind's candidate tables (an absent table
/// holds count zero).
pub open spec fn spec_kind_bound(k: CodedIndexKind, lens: Seq<u32>) -> u32 {
    match k {
        CodedIndexKind::TypeDefOrRef => spec_max_count(
            lens[TABLE_TYPE_DEF as int],
            spec_max_count(lens[TABLE_TYPE_REF as int], lens[TABLE_TYPE_SPEC as int]),
        ),
        CodedIndexKind::HasConstant => spec_max_count(
            lens[TABLE_FIELD as int],
            spec_max_count(lens[TABLE_PARAM as int], lens[TABLE_PROPERTY as int]),
        ),
        CodedIndexKind::HasCustomAttribute => spec_max_count(
            lens[TABLE_METHOD_DEF as int],
            spec_max_count(
                lens[TABLE_FIELD as int],
                spec_max_count(
                    lens[TABLE_TYPE_REF as int],
                    spec_max_count(
                        lens[TABLE_TYPE_DEF as int],
                        spec_max_count(
                            lens[TABLE_PARAM as int],
                            spec_max_count(
                                lens[TABLE_INTERFACE_IMPL as int],
                                spec_max_count(
                                    lens[TABLE_MEMBER_REF as int],
                                    spec_max_count(
                                        lens[TABLE_MODULE as int],
                                        spec_max_count(
                                            lens[TABLE_DECL_SECURITY as int],
                                            spec_max_count(
                                                lens[TABLE_PROPERTY as int],
                                                spec_max_count(
                                                    lens[TABLE_EVENT as int],
                                                    spec_max_count(
                                                        lens[TABLE_STANDALONE_SIG as int],
                                                        spec_max_count(
                                                            lens[TABLE_MODULE_REF as int],
                                                            spec_max_count(
                                                                lens[TABLE_TYPE_SPEC as int],
                                                                spec_max_count(
                                                                    lens[TABLE_ASSEMBLY as int],
                                                                    spec_max_count(
                                                                        lens[TABLE_ASSEMBLY_REF as int],
                                                                        spec_max_count(
                                                                            lens[TABLE_FILE as int],
                                                                            spec_max_count(
                                                                                lens[TABLE_EXPORTED_TYPE as int],
                                                                                spec_max_count(
                                                                                    lens[TABLE_MANIFEST_RESOURCE as int],
                                                                                    spec_max_count(
                                                                                        lens[TABLE_GENERIC_PARAM as int],
                                                                                        spec_max_count(
                                                                                            lens[TABLE_GENERIC_PARAM_CONSTRAINT as int],
                                                                                            lens[TABLE_METHOD_SPEC as int],
                                                                                        ),
                                                                                    ),
                                                                                ),
                                                                            ),
                                                                        ),
                                                                    ),
                                                                ),
                                                            ),
                                                        ),
                                                    ),
                                                ),
                                            ),
                                        ),
                                    ),
                                ),
                            ),
                        ),
                    ),
                ),
            ),
        ),
        CodedIndexKind::HasFieldMarshall => spec_max_count(
            lens[TABLE_FIELD as int],
            lens[TABLE_PARAM as int],
        ),
        CodedIndexKind::HasDeclSecurity => spec_max_count(
            lens[TABLE_TYPE_DEF as int],
            spec_max_count(lens[TABLE_METHOD_DEF as int], lens[TABLE_ASSEMBLY as int]),
        ),
        CodedIndexKind::MemberRefParent => spec_max_count(
            lens[TABLE_TYPE_DEF as int],
            spec_max_count(
                lens[TABLE_TYPE_REF as int],
                spec_max_count(
                    lens[TABLE_MODULE_REF as int],
                    spec_max_count(lens[TABLE_METHOD_DEF as int], lens[TABLE_TYPE_SPEC as int]),
                ),
            ),
        ),
        CodedIndexKind::HasSemantics => spec_max_count(
            lens[TABLE_EVENT as int],
            lens[TABLE_PROPERTY as int],
        ),
        CodedIndexKind::MethodDefOrRef => spec_max_count(
            lens[TABLE_METHOD_DEF as int],
            lens[TABLE_MEMBER_REF as int],
        ),
        CodedIndexKind::MemberForwarded => spec_max_count(
            lens[TABLE_FIELD as int],
            lens[TABLE_METHOD_DEF as int],
        ),
        CodedIndexKind::Implementation => spec_max_count(
            lens[TABLE_FILE as int],
            spec_max_count(lens[TABLE_ASSEMBLY_REF as int], lens[TABLE_EXPORTED_TYPE as int]),
        ),
        CodedIndexKind::CustomAttributeType => spec_max_count(
            lens[TABLE_METHOD_DEF as int],
            lens[TABLE_MEMBER_REF as int],
        ),
        CodedIndexKind::ResolutionScope => spec_max_count(
            lens[TABLE_MODULE as int],
            spec_max_count(
                lens[TABLE_MODULE_REF as int],
                spec_max_count(lens[TABLE_ASSEMBLY_REF as int], lens[TABLE_TYPE_REF as int]),
            ),
        ),
    }
}

/// The row-count threshold 2^(16 - b) at which a kind's coded index grows
/// from two bytes to four.
pub open spec fn spec_big_threshold(k: CodedIndexKind) -> u32 {
    match spec_tag_bits(k) {
        1u32 => 0x8000,
        2u32 => 0x4000,
        3u32 => 0x2000,
        _ => 0x0800,
    }
}

/// The byte width of a kind's coded index under the given row counts: two
/// bytes while every candidate's row count fits beside the tag, else four.
pub open spec fn spec_coded_width(k: CodedIndexKind, lens: Seq<u32>) -> int {
    if spec_kind_bound(k, lens) < spec_big_threshold(k) {
        2
    } else {
        4
    }
}

/// Splitting a raw coded-index value: the tag is the low `b` bits, the row
/// number the rest.
pub open spec fn spec_decode_raw(k: CodedIndexKind, raw: u32) -> Result<CodedIndex, Error> {
    let b = spec_tag_bits(k);
    let tag = raw & !(u32::MAX << b);
    let row = raw >> b;
    match spec_table_for_tag(k, tag) {
        Some(t) => Ok(CodedIndex { table: t, row }),
        None => Err(Error::UnknownCodedIndexTag),
    }
}

/// The coded index of kind `k` stored at byte offset `off`: a bounds check
/// for the resolved width, then the raw split.
pub open spec fn spec_coded_at(k: CodedIndexKind, lens: Seq<u32>, data: Seq<u8>, off: int) -> Result<
    CodedIndex,
    Error,
> {
    let w = spec_coded_width(k, lens);
    if off + w > data.len() {
        Err(Error::BoundsError)
    } else {
        spec_decode_raw(k, le_bytes(data, off, w) as u32)
    }
}

/// The number of tag bits of a kind.
pub fn tag_bits(k: CodedIndexKind) -> (r: u32)
    ensures
        r == spec_tag_bits(k),
        1 <= r <= 5,
{
    match k {
        CodedIndexKind::TypeDefOrRef => 2,
        CodedIndexKind::HasConstant => 2,
        CodedIndexKind::HasCustomAttribute => 5,
        CodedIndexKind::HasFieldMarshall => 1,
        CodedIndexKind::HasDeclSecurity => 2,
        CodedIndexKind::MemberRefParent => 3,
        CodedIndexKind::HasSemantics => 1,
        CodedIndexKind::MethodDefOrRef => 1,
        CodedIndexKind::MemberForwarded => 1,
        CodedIndexKind::Implementation => 2,
        CodedIndexKind::CustomAttributeType => 3,
        CodedIndexKind::ResolutionScope => 2,
    }
}

/// The table selected by a tag value, or `None` when the tag is outside the
/// kind's mapping.
pub fn table_for_tag(k: CodedIndexKind, tag: u32) -> (r: Option<usize>)
    ensures
        r == spec_table_for_tag(k, tag),
{
    match k {
        CodedIndexKind::TypeDefOrRef => if tag == 0 {
            Some(TABLE_TYPE_DEF)
        } else if tag == 1 {
            Some(TABLE_TYPE_REF)
        } else if tag == 2 {
            Some(TABLE_TYPE_SPEC)
        } else {
            None
        },
        CodedIndexKind::HasConstant => if tag == 0 {
            Some(TABLE_FIELD)
        } else if tag == 1 {
            Some(TABLE_PARAM)
        } else if tag == 2 {
            Some(TABLE_PROPERTY)
        } else {
            None
        },
        CodedIndexKind::HasCustomAttribute => if tag == 0 {
            Some(TABLE_METHOD_DEF)
        } else if tag == 1 {
            Some(TABLE_FIELD)
        } else if tag == 2 {
            Some(TABLE_TYPE_REF)
        } else if tag == 3 {
            Some(TABLE_TYPE_DEF)
        } else if tag == 4 {
            Some(TABLE_PARAM)
        } else if tag == 5 {
            Some(TABLE_INTERFACE_IMPL)
        } else if tag == 6 {
            Some(TABLE_MEMBER_REF)
        } else if tag == 7 {
            Some(TABLE_MODULE)
        } else if tag == 8 {
            Some(TABLE_DECL_SECURITY)
        } else if tag == 9 {
            Some(TABLE_PROPERTY)
        } else if tag == 10 {
            Some(TABLE_EVENT)
        } else if tag == 11 {
            Some(TABLE_STANDALONE_SIG)
        } else if tag == 12 {
            Some(TABLE_MODULE_REF)
        } else if tag == 13 {
            Some(TABLE_TYPE_SPEC)
        } else if tag == 14 {
            Some(TABLE_ASSEMBLY)
        } else if tag == 15 {
            Some(TABLE_ASSEMBLY_REF)
        } else if tag == 16 {
            Some(TABLE_FILE)
        } else if tag == 17 {
            Some(TABLE_EXPORTED_TYPE)
        } else if tag == 18 {
            Some(TABLE_MANIFEST_RESOURCE)
        } else if tag == 19 {
            Some(TABLE_GENERIC_PARAM)
        } else if tag == 20 {
            Some(TABLE_GENERIC_PARAM_CONSTRAINT)
        } else if tag == 21 {
            Some(TABLE_METHOD_SPEC)
        } else {
            None
        },
        CodedIndexKind::HasFieldMarshall => if tag == 0 {
            Some(TABLE_FIELD)
        } else if tag == 1 {
            Some(TABLE_PARAM)
        } else {
            None
        },
        CodedIndexKind::HasDeclSecurity => if tag == 0 {
            Some(TABLE_TYPE_DEF)
        } else if tag == 1 {
            Some(TABLE_METHOD_DEF)
        } else if tag == 2 {
            Some(TABLE_ASSEMBLY)
        } else {
            None
        },
        CodedIndexKind::MemberRefParent => if tag == 0 {
            Some(TABLE_TYPE_DEF)
        } else if tag == 1 {
            Some(TABLE_TYPE_REF)
        } else if tag == 2 {
            Some(TABLE_MODULE_REF)
        } else if tag == 3 {
            Some(TABLE_METHOD_DEF)
        } else if tag == 4 {
            Some(TABLE_TYPE_SPEC)
        } else {
            None
        },
        CodedIndexKind::HasSemantics => if tag == 0 {
            Some(TABLE_EVENT)
        } else if tag == 1 {
            Some(TABLE_PROPERTY)
        } else {
            None
        },
        CodedIndexKind::MethodDefOrRef => if tag == 0 {
            Some(TABLE_METHOD_DEF)
        } else if tag == 1 {
            Some(TABLE_MEMBER_REF)
        } else {
            None
        },
        CodedIndexKind::MemberForwarded => if tag == 0 {
            Some(TABLE_FIELD)
        } else if tag == 1 {
            Some(TABLE_METHOD_DEF)
        } else {
            None
        },
        CodedIndexKind::Implementation => if tag == 0 {
            Some(TABLE_FILE)
        } else if tag == 1 {
            Some(TABLE_ASSEMBLY_REF)
        } else if tag == 2 {
            Some(TABLE_EXPORTED_TYPE)
        } else {
            None
        },
        CodedIndexKind::CustomAttributeType => if tag == 2 {
            Some(TABLE_METHOD_DEF)
        } else if tag == 3 {
            Some(TABLE_MEMBER_REF)
        } else {
            None
        },
        CodedIndexKind::ResolutionScope => if tag == 0 {
            Some(TABLE_MODULE)
        } else if tag == 1 {
            Some(TABLE_MODULE_REF)
        } else if tag == 2 {
            Some(TABLE_ASSEMBLY_REF)
        } else if tag == 3 {
            Some(TABLE_TYPE_REF)
        } else {
            None
        },
    }
}

/// The larger of two row counts.
fn max_count(a: u32, b: u32) -> (r: u32)
    ensures
        r == spec_max_count(a, b),
{
    if a > b {
        a
    } else {
        b
    }
}

/// The row count of one table (absent tables hold zero).
fn table_len(header: &Tables, id: usize) -> (r: u32)
    requires
        header.wf(),
        id < 64,
    ensures
        r == header.lens@[id as int],
{
    header.lens[id]
}

/// The largest row count among a kind's candidate tables.
pub fn kind_bound(k: CodedIndexKind, header: &Tables) -> (r: u32)
    requires
        header.wf(),
    ensures
        r == spec_kind_bound(k, header.lens@),
{
    match k {
        CodedIndexKind::TypeDefOrRef => max_count(
            table_len(header, TABLE_TYPE_DEF),
            max_count(table_len(header, TABLE_TYPE_REF), table_len(header, TABLE_TYPE_SPEC)),
        ),
        CodedIndexKind::HasConstant => max_count(
            table_len(header, TABLE_FIELD),
            max_count(table_len(header, TABLE_PARAM), table_len(header, TABLE_PROPERTY)),
        ),
        CodedIndexKind::HasCustomAttribute => max_count(
            table_len(header, TABLE_METHOD_DEF),
            max_count(
                table_len(header, TABLE_FIELD),
                max_count(
                    table_len(header, TABLE_TYPE_REF),
                    max_count(
                        table_len(header, TABLE_TYPE_DEF),
                        max_count(
                            table_len(header, TABLE_PARAM),
                            max_count(
                                table_len(header, TABLE_INTERFACE_IMPL),
                                max_count(
                                    table_len(header, TABLE_MEMBER_REF),
                                    max_count(
                                        table_len(header, TABLE_MODULE),
                                        max_count(
                                            table_len(header, TABLE_DECL_SECURITY),
                                            max_count(
                                                table_len(header, TABLE_PROPERTY),
                                                max_count(
                                                    table_len(header, TABLE_EVENT),
                                                    max_count(
                                                        table_len(header, TABLE_STANDALONE_SIG),
                                                        max_count(
                                                            table_len(header, TABLE_MODULE_REF),
                                                            max_count(
                                                                table_len(header, TABLE_TYPE_SPEC),
                                                                max_count(
                                                                    table_len(header, TABLE_ASSEMBLY),
                                                                    max_count(
                                                                        table_len(header, TABLE_ASSEMBLY_REF),
                                                                        max_count(
                                                                            table_len(header, TABLE_FILE),
                                                                            max_count(
                                                                                table_len(header, TABLE_EXPORTED_TYPE),
                                                                                max_count(
                                                                                    table_len(header, TABLE_MANIFEST_RESOURCE),
                                                                                    max_count(
                                                                                        table_len(header, TABLE_GENERIC_PARAM),
                                                                                        max_count(
                                                                                            table_len(header, TABLE_GENERIC_PARAM_CONSTRAINT),
                                                                                            table_len(header, TABLE_METHOD_SPEC),
                                                                                        ),
                                                                                    ),
                                                                                ),
                                                                            ),
                                                                        ),
                                                                    ),
                                                                ),
                                                            ),
                                                        ),
                                                    ),
                                                ),
                                            ),
                                        ),
                                    ),
                                ),
                            ),
                        ),
                    ),
                ),
            ),
        ),
        CodedIndexKind::HasFieldMarshall => max_count(
            table_len(header, TABLE_FIELD),
            table_len(header, TABLE_PARAM),
        ),
        CodedIndexKind::HasDeclSecurity => max_count(
            table_len(header, TABLE_TYPE_DEF),
            max_count(table_len(header, TABLE_METHOD_DEF), table_len(header, TABLE_ASSEMBLY)),
        ),
        CodedIndexKind::MemberRefParent => max_count(
            table_len(header, TABLE_TYPE_DEF),
            max_count(
                table_len(header, TABLE_TYPE_REF),
                max_count(
                    table_len(header, TABLE_MODULE_REF),
                    max_count(
                        table_len(header, TABLE_METHOD_DEF),
                        table_len(header, TABLE_TYPE_SPEC),
                    ),
                ),
            ),
        ),
        CodedIndexKind::HasSemantics => max_count(
            table_len(header, TABLE_EVENT),
            table_len(header, TABLE_PROPERTY),
        ),
        CodedIndexKind::MethodDefOrRef => max_count(
            table_len(header, TABLE_METHOD_DEF),
            table_len(header, TABLE_MEMBER_REF),
        ),
        CodedIndexKind::MemberForwarded => max_count(
            table_len(header, TABLE_FIELD),
            table_len(header, TABLE_METHOD_DEF),
        ),
        CodedIndexKind::Implementation => max_count(
            table_len(header, TABLE_FILE),
            max_count(
                table_len(header, TABLE_ASSEMBLY_REF),
                table_len(header, TABLE_EXPORTED_TYPE),
            ),
        ),
        CodedIndexKind::CustomAttributeType => max_count(
            table_len(header, TABLE_METHOD_DEF),
            table_len(header, TABLE_MEMBER_REF),
        ),
        CodedIndexKind::ResolutionScope => max_count(
            table_len(header, TABLE_MODULE),
            max_count(
                table_len(header, TABLE_MODULE_REF),
                max_count(
                    table_len(header, TABLE_ASSEMBLY_REF),
                    table_len(header, TABLE_TYPE_REF),
                ),
            ),
        ),
    }
}

/// The literal thresholds agree with the formula 2^(16 - b).
pub proof fn lemma_threshold_is_pow2(k: CodedIndexKind)
    ensures
        spec_big_threshold(k) == 1u32 << ((16 - spec_tag_bits(k)) as u32),
{
    assert(1u32 << 15u32 == 0x8000) by (bit_vector);
    assert(1u32 << 14u32 == 0x4000) by (bit_vector);
    assert(1u32 << 13u32 == 0x2000) by (bit_vector);
    assert(1u32 << 11u32 == 0x0800) by (bit_vector);
}

/// The row-count threshold at which a kind's coded index takes four bytes.
pub fn big_threshold(k: CodedIndexKind) -> (r: u32)
    ensures
        r == spec_big_threshold(k),
{
    let b = tag_bits(k);
    proof {
        lemma_threshold_is_pow2(k);
    }
    1u32 << (16 - b)
}

impl CodedIndex {
    /// Decodes one coded index of kind `k` from the cursor: reads a raw
    /// value of the resolved width, splits off the tag bits, and selects
    /// the table the tag names; an unmapped tag is fatal.
    pub fn parse(k: CodedIndexKind, header: &Tables, data: &[u8], offset: &mut usize) -> (r:
        Result<CodedIndex, Error>)
        requires
            header.wf(),
        ensures
            match r {
                Ok(ci) => {
                    &&& spec_coded_at(k, header.lens@, data@, *old(offset) as int)
                        == Ok::<CodedIndex, Error>(ci)
                    &&& *final(offset) == *old(offset) + spec_coded_width(k, header.lens@)
                },
                Err(e) => spec_coded_at(k, header.lens@, data@, *old(offset) as int)
                    == Err::<CodedIndex, Error>(e),
            },
    {
        let b = tag_bits(k);
        let bound = kind_bound(k, header);
        let threshold = big_threshold(k);
        let raw: u32 = if bound < threshold {
            match read_u16(data, offset) {
                Ok(v) => v as u32,
                Err(e) => { return Err(e) },
            }
        } else {
            match read_u32(data, offset) {
                Ok(v) => v,
                Err(e) => { return Err(e) },
            }
        };
        let tag = raw & !(u32::MAX << b);
        let row = raw >> b;
        match table_for_tag(k, tag) {
            Some(t) => Ok(CodedIndex { table: t, row }),
            None => Err(Error::UnknownCodedIndexTag),
        }
    }
}

/// Every tag a kind maps lies below 2^b, the kind's tag space.
pub proof fn lemma_valid_tag_bound(k: CodedIndexKind, tag: u32)
    requires
        spec_table_for_tag(k, tag) is Some,
    ensures
        tag < (1u32 << spec_tag_bits(k)),
{
    let b = spec_tag_bits(k);
    assert(b == 1 ==> tag <= 1);
    assert(b == 2 ==> tag <= 3);
    assert(b == 3 ==> tag <= 4);
    assert(b == 5 ==> tag <= 21);
    assert(tag < (1u32 << b)) by (bit_vector)
        requires
            (b == 1 && tag <= 1) || (b == 2 && tag <= 3) || (b == 3 && tag <= 4) || (b == 5
                && tag <= 21),
    ;
}

/// Coded-index round trip: packing any mapped tag beside any row number
/// that fits above the tag bits, then splitting the packed value, yields
/// the same table and row.
pub proof fn lemma_coded_round_trip(k: CodedIndexKind, tag: u32, row: u32)
    requires
        spec_table_for_tag(k, tag) is Some,
        row <= u32::MAX >> spec_tag_bits(k),
    ensures
        spec_decode_raw(k, (row << spec_tag_bits(k)) | tag) == Ok::<CodedIndex, Error>(
            CodedIndex { table: spec_table_for_tag(k, tag)->Some_0, row },
        ),
{
    let b = spec_tag_bits(k);
    lemma_valid_tag_bound(k, tag);
    let raw = (row << b) | tag;
    assert(raw & !(u32::MAX << b) == tag && raw >> b == row) by (bit_vector)
        requires
            (b == 1 || b == 2 || b == 3 || b == 5),
            tag < (1u32 << b),
            row <= u32::MAX >> b,
            raw == (row << b) | tag,
    ;
}

/// Width boundary: with the largest candidate row count one below the
/// kind's threshold 2^(16 - b) the coded index occupies two bytes; at the
/// threshold itself it occupies four.
pub proof fn lemma_width_boundary(k: CodedIndexKind, lens: Seq<u32>)
    ensures
        spec_kind_bound(k, lens) == spec_big_threshold(k) - 1 ==> spec_coded_width(k, lens) == 2,
        spec_kind_bound(k, lens) >= spec_big_threshold(k) ==> spec_coded_width(k, lens) == 4,
{
}

} // verus!
