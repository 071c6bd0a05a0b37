//! The row decoder: for each table present in the header, in ascending
//! table-id order, materializes its typed rows from the shared cursor.

use vstd::prelude::*;
use crate::error::Error;
use crate::header::{IndexSize, Tables, bit, spec_index_width};
use crate::coded::{
    CodedIndex, CodedIndexKind, TABLE_MODULE, TABLE_TYPE_REF, spec_coded_at, spec_coded_width,
};
use crate::reader::{le_bytes, read_u16, read_u32};

verus! {

/// An opaque offset into the string heap, of the width the header fixes.
#[derive(Debug, PartialEq, Eq, Structural, Copy, Clone, Default)]
pub struct StringIndex(pub u32);

/// An opaque offset into the GUID heap, of the width the header fixes.
#[derive(Debug, PartialEq, Eq, Structural, Copy, Clone, Default)]
pub struct GuidIndex(pub u32);

/// The heap index of width `w` stored at byte offset `off`.
pub open spec fn spec_heap_index(w: int, data: Seq<u8>, off: int) -> Result<u32, Error> {
    if off + w > data.len() {
        Err(Error::BoundsError)
    } else {
        Ok(le_bytes(data, off, w) as u32)
    }
}

/// Reads a heap index of the given width from the cursor.
fn read_heap_index(size: IndexSize, data: &[u8], offset: &mut usize) -> (r: Result<u32, Error>)
    ensures
        match r {
            Ok(v) => {
                &&& spec_heap_index(spec_index_width(size), data@, *old(offset) as int)
                    == Ok::<u32, Error>(v)
                &&& *final(offset) == *old(offset) + spec_index_width(size)
            },
            Err(e) => {
                &&& spec_heap_index(spec_index_width(size), data@, *old(offset) as int)
                    == Err::<u32, Error>(e)
                &&& *final(offset) == *old(offset)
            },
        },
{
    match size {
        IndexSize::U16 => match read_u16(data, offset) {
            Ok(v) => Ok(v as u32),
            Err(e) => Err(e),
        },
        IndexSize::U32 => read_u32(data, offset),
    }
}

impl StringIndex {
    /// Reads a string-heap index of the width the header fixes.
    pub fn parse(header: &Tables, data: &[u8], offset: &mut usize) -> (r: Result<
        StringIndex,
        Error,
    >)
        ensures
            match r {
                Ok(v) => {
                    &&& spec_heap_index(
                        spec_index_width(header.string_index_size),
                        data@,
                        *old(offset) as int,
                    ) == Ok::<u32, Error>(v.0)
                    &&& *final(offset) == *old(offset) + spec_index_width(
                        header.string_index_size,
                    )
                },
                Err(e) => {
                    &&& spec_heap_index(
                        spec_index_width(header.string_index_size),
                        data@,
                        *old(offset) as int,
                    ) == Err::<u32, Error>(e)
                    &&& *final(offset) == *old(offset)
                },
            },
    {
        match read_heap_index(header.string_index_size, data, offset) {
            Ok(v) => Ok(StringIndex(v)),
            Err(e) => Err(e),
        }
    }
}

impl GuidIndex {
    /// Reads a GUID-heap index of the width the header fixes.
    pub fn parse(header: &Tables, data: &[u8], offset: &mut usize) -> (r: Result<GuidIndex, Error>)
        ensures
            match r {
                Ok(v) => {
                    &&& spec_heap_index(
                        spec_index_width(header.guid_index_size),
                        data@,
                        *old(offset) as int,
                    ) == Ok::<u32, Error>(v.0)
                    &&& *final(offset) == *old(offset) + spec_index_width(header.guid_index_size)
                },
                Err(e) => {
                    &&& spec_heap_index(
                        spec_index_width(header.guid_index_size),
                        data@,
                        *old(offset) as int,
                    ) == Err::<u32, Error>(e)
                    &&& *final(offset) == *old(offset)
                },
            },
    {
        match read_heap_index(header.guid_index_size, data, offset) {
            Ok(v) => Ok(GuidIndex(v)),
            Err(e) => Err(e),
        }
    }
}

/// One Module row: its name and module-version GUID. The reserved
/// generation, EncId and EncBaseId fields are validated against zero and
/// discarded.
#[derive(Debug, PartialEq, Eq, Structural, Copy, Clone)]
pub struct Module {
    /// Module name.
    pub name: StringIndex,
    /// A GUID distinguishing two versions of the same module.
    pub mvid: GuidIndex,
}

/// One TypeRef row: the scope the reference resolves in, and the type's
/// name and namespace.
#[derive(Debug, PartialEq, Eq, Structural, Copy, Clone)]
pub struct TypeRef {
    pub scope: CodedIndex,
    pub name: StringIndex,
    pub namespace: StringIndex,
}

/// Byte length of one Module row under the header's heap-index widths:
/// three reserved 2-byte fields plus the two heap indices.
pub open spec fn spec_module_row_len(t: Tables) -> int {
    6 + spec_index_width(t.string_index_size) + spec_index_width(t.guid_index_size)
}

/// The Module row stored at byte offset `off`: a zero generation, the name
/// and mvid heap indices, then zero EncId and EncBaseId, each reserved
/// field checked in reading order.
pub open spec fn spec_module_row_at(t: Tables, data: Seq<u8>, off: int) -> Result<Module, Error> {
    let sw = spec_index_width(t.string_index_size);
    let gw = spec_index_width(t.guid_index_size);
    if off + 2 > data.len() {
        Err(Error::BoundsError)
    } else if le_bytes(data, off, 2) != 0 {
        Err(Error::ReservedFieldViolation)
    } else {
        match spec_heap_index(sw, data, off + 2) {
            Err(e) => Err(e),
            Ok(name) => match spec_heap_index(gw, data, off + 2 + sw) {
                Err(e) => Err(e),
                Ok(mvid) => {
                    let o2 = off + 2 + sw + gw;
                    if o2 + 2 > data.len() {
                        Err(Error::BoundsError)
                    } else if le_bytes(data, o2, 2) != 0 {
                        Err(Error::ReservedFieldViolation)
                    } else if o2 + 4 > data.len() {
                        Err(Error::BoundsError)
                    } else if le_bytes(data, o2 + 2, 2) != 0 {
                        Err(Error::ReservedFieldViolation)
                    } else {
                        Ok(Module { name: StringIndex(name), mvid: GuidIndex(mvid) })
                    }
                },
            },
        }
    }
}

/// Byte length of one TypeRef row under the header's widths: the
/// resolution-scope coded index and two string-heap indices.
pub open spec fn spec_typeref_row_len(t: Tables) -> int {
    spec_coded_width(CodedIndexKind::ResolutionScope, t.lens@) + 2 * spec_index_width(
        t.string_index_size,
    )
}

/// The TypeRef row stored at byte offset `off`: a resolution-scope coded
/// index, then the name and namespace string-heap indices.
pub open spec fn spec_typeref_row_at(t: Tables, data: Seq<u8>, off: int) -> Result<TypeRef, Error> {
    let cw = spec_coded_width(CodedIndexKind::ResolutionScope, t.lens@);
    let sw = spec_index_width(t.string_index_size);
    match spec_coded_at(CodedIndexKind::ResolutionScope, t.lens@, data, off) {
        Err(e) => Err(e),
        Ok(scope) => match spec_heap_index(sw, data, off + cw) {
            Err(e) => Err(e),
            Ok(name) => match spec_heap_index(sw, data, off + cw + sw) {
                Err(e) => Err(e),
                Ok(namespace) => Ok(
                    TypeRef {
                        scope,
                        name: StringIndex(name),
                        namespace: StringIndex(namespace),
                    },
                ),
            },
        },
    }
}

/// Prepends an already-decoded prefix to the outcome of decoding the rows
/// that follow it; an error wins.
pub open spec fn rows_then<T>(prefix: Seq<T>, rest: Result<Seq<T>, Error>) -> Result<
    Seq<T>,
    Error,
> {
    match rest {
        Ok(s) => Ok(prefix + s),
        Err(e) => Err(e),
    }
}

/// The `n` consecutive Module rows starting at `off`, or the first error in
/// reading order.
pub open spec fn spec_module_rows(t: Tables, data: Seq<u8>, off: int, n: nat) -> Result<
    Seq<Module>,
    Error,
>
    decreases n,
{
    if n == 0 {
        Ok(Seq::empty())
    } else {
        match spec_module_row_at(t, data, off) {
            Err(e) => Err(e),
            Ok(row) => rows_then(
                seq![row],
                spec_module_rows(t, data, off + spec_module_row_len(t), (n - 1) as nat),
            ),
        }
    }
}

/// The `n` consecutive TypeRef rows starting at `off`, or the first error
/// in reading order.
pub open spec fn spec_typeref_rows(t: Tables, data: Seq<u8>, off: int, n: nat) -> Result<
    Seq<TypeRef>,
    Error,
>
    decreases n,
{
    if n == 0 {
        Ok(Seq::empty())
    } else {
        match spec_typeref_row_at(t, data, off) {
            Err(e) => Err(e),
            Ok(row) => rows_then(
                seq![row],
                spec_typeref_rows(t, data, off + spec_typeref_row_len(t), (n - 1) as nat),
            ),
        }
    }
}

proof fn lemma_rows_then_nil<T>(rest: Result<Seq<T>, Error>)
    ensures
        rows_then(Seq::<T>::empty(), rest) == rest,
{
    match rest {
        Ok(s) => {
            assert(Seq::<T>::empty() + s =~= s);
        },
        Err(_) => {},
    }
}

proof fn lemma_rows_then_snoc<T>(prefix: Seq<T>, row: T, rest: Result<Seq<T>, Error>)
    ensures
        rows_then(prefix, rows_then(seq![row], rest)) == rows_then(prefix.push(row), rest),
{
    match rest {
        Ok(s) => {
            assert(prefix + (seq![row] + s) =~= prefix.push(row) + s);
        },
        Err(_) => {},
    }
}

impl Module {
    /// Decodes the Module table: as many rows as the header's row count for
    /// it, each with its reserved fields validated against zero.
    pub fn parse_many(header: &Tables, data: &[u8], offset: &mut usize) -> (r: Result<
        Vec<Module>,
        Error,
    >)
        requires
            header.wf(),
        ensures
            match r {
                Ok(v) => {
                    &&& spec_module_rows(
                        *header,
                        data@,
                        *old(offset) as int,
                        header.lens@[TABLE_MODULE as int] as nat,
                    ) == Ok::<Seq<Module>, Error>(v@)
                    &&& *final(offset) == *old(offset) + header.lens@[TABLE_MODULE as int]
                        * spec_module_row_len(*header)
                },
                Err(e) => spec_module_rows(
                    *header,
                    data@,
                    *old(offset) as int,
                    header.lens@[TABLE_MODULE as int] as nat,
                ) == Err::<Seq<Module>, Error>(e),
            },
    {
        let n = header.lens[TABLE_MODULE] as usize;
        let ghost off0 = *offset as int;
        let mut result: Vec<Module> = Vec::new();
        let mut i: usize = 0;
        proof {
            lemma_rows_then_nil(spec_module_rows(*header, data@, off0, n as nat));
        }
        while i < n
            invariant
                header.wf(),
                off0 == *old(offset),
                n == header.lens@[TABLE_MODULE as int],
                i <= n,
                result@.len() == i,
                *offset == off0 + i * spec_module_row_len(*header),
                spec_module_rows(*header, data@, off0, n as nat) == rows_then(
                    result@,
                    spec_module_rows(*header, data@, *offset as int, (n - i) as nat),
                ),
            decreases n - i,
        {
            let ghost cur = *offset as int;
            let ghost rest0 = spec_module_rows(*header, data@, cur, (n - i) as nat);

            let generation = match read_u16(data, offset) {
                Ok(v) => v,
                Err(e) => { return Err(e) },
            };
            if generation != 0 {
                return Err(Error::ReservedFieldViolation);
            }
            let name = match StringIndex::parse(header, data, offset) {
                Ok(v) => v,
                Err(e) => { return Err(e) },
            };
            let mvid = match GuidIndex::parse(header, data, offset) {
                Ok(v) => v,
                Err(e) => { return Err(e) },
            };
            let enc_id = match read_u16(data, offset) {
                Ok(v) => v,
                Err(e) => { return Err(e) },
            };
            if enc_id != 0 {
                return Err(Error::ReservedFieldViolation);
            }
            let enc_base_id = match read_u16(data, offset) {
                Ok(v) => v,
                Err(e) => { return Err(e) },
            };
            if enc_base_id != 0 {
                return Err(Error::ReservedFieldViolation);
            }

            let row = Module { name, mvid };
            proof {
                assert(spec_module_row_at(*header, data@, cur) == Ok::<Module, Error>(row));
                lemma_rows_then_snoc(
                    result@,
                    row,
                    spec_module_rows(
                        *header,
                        data@,
                        cur + spec_module_row_len(*header),
                        (n - i - 1) as nat,
                    ),
                );
                assert((i + 1) * spec_module_row_len(*header) == i * spec_module_row_len(*header)
                    + spec_module_row_len(*header)) by (nonlinear_arith);
            }
            result.push(row);
            i = i + 1;
        }
        proof {
            assert(result@ + Seq::<Module>::empty() =~= result@);
        }
        Ok(result)
    }
}

impl TypeRef {
    /// Decodes the TypeRef table: as many rows as the header's row count
    /// for it.
    pub fn parse_many(header: &Tables, data: &[u8], offset: &mut usize) -> (r: Result<
        Vec<TypeRef>,
        Error,
    >)
        requires
            header.wf(),
        ensures
            match r {
                Ok(v) => {
                    &&& spec_typeref_rows(
                        *header,
                        data@,
                        *old(offset) as int,
                        header.lens@[TABLE_TYPE_REF as int] as nat,
                    ) == Ok::<Seq<TypeRef>, Error>(v@)
                    &&& *final(offset) == *old(offset) + header.lens@[TABLE_TYPE_REF as int]
                        * spec_typeref_row_len(*header)
                },
                Err(e) => spec_typeref_rows(
                    *header,
                    data@,
                    *old(offset) as int,
                    header.lens@[TABLE_TYPE_REF as int] as nat,
                ) == Err::<Seq<TypeRef>, Error>(e),
            },
    {
        let n = header.lens[TABLE_TYPE_REF] as usize;
        let ghost off0 = *offset as int;
        let mut result: Vec<TypeRef> = Vec::new();
        let mut i: usize = 0;
        proof {
            lemma_rows_then_nil(spec_typeref_rows(*header, data@, off0, n as nat));
        }
        while i < n
            invariant
                header.wf(),
                off0 == *old(offset),
                n == header.lens@[TABLE_TYPE_REF as int],
                i <= n,
                result@.len() == i,
                *offset == off0 + i * spec_typeref_row_len(*header),
                spec_typeref_rows(*header, data@, off0, n as nat) == rows_then(
                    result@,
                    spec_typeref_rows(*header, data@, *offset as int, (n - i) as nat),
                ),
            decreases n - i,
        {
            let ghost cur = *offset as int;

            let scope = match CodedIndex::parse(
                CodedIndexKind::ResolutionScope,
                header,
                data,
                offset,
            ) {
                Ok(v) => v,
                Err(e) => { return Err(e) },
            };
            let name = match StringIndex::parse(header, data, offset) {
                Ok(v) => v,
                Err(e) => { return Err(e) },
            };
            let namespace = match StringIndex::parse(header, data, offset) {
                Ok(v) => v,
                Err(e) => { return Err(e) },
            };

            let row = TypeRef { scope, name, namespace };
            proof {
                assert(spec_typeref_row_at(*header, data@, cur) == Ok::<TypeRef, Error>(row));
                lemma_rows_then_snoc(
                    result@,
                    row,
                    spec_typeref_rows(
                        *header,
                        data@,
                        cur + spec_typeref_row_len(*header),
                        (n - i - 1) as nat,
                    ),
                );
                assert((i + 1) * spec_typeref_row_len(*header) == i * spec_typeref_row_len(*header)
                    + spec_typeref_row_len(*header)) by (nonlinear_arith);
            }
            result.push(row);
            i = i + 1;
        }
        proof {
            assert(result@ + Seq::<TypeRef>::empty() =~= result@);
        }
        Ok(result)
    }
}

/// The decoded rows of every table this decoder models, one ordered array
/// per table; a table absent from the presence mask yields an empty array.
#[derive(Debug, PartialEq, Clone)]
pub struct TableRows {
    pub modules: Vec<Module>,
    pub type_refs: Vec<TypeRef>,
}

/// The full decode of the row data that follows the header: each present
/// table's rows in ascending table-id order, packed with no padding, or
/// the first fatal error.
pub open spec fn spec_table_rows(t: Tables, data: Seq<u8>) -> Result<
    (Seq<Module>, Seq<TypeRef>),
    Error,
> {
    let modules_r = if bit(t.valid_mask, TABLE_MODULE as int) {
        spec_module_rows(t, data, 0, t.lens@[TABLE_MODULE as int] as nat)
    } else {
        Ok(Seq::empty())
    };
    match modules_r {
        Err(e) => Err(e),
        Ok(ms) => {
            let off1 = if bit(t.valid_mask, TABLE_MODULE as int) {
                t.lens@[TABLE_MODULE as int] * spec_module_row_len(t)
            } else {
                0
            };
            let type_refs_r = if bit(t.valid_mask, TABLE_TYPE_REF as int) {
                spec_typeref_rows(t, data, off1, t.lens@[TABLE_TYPE_REF as int] as nat)
            } else {
                Ok(Seq::empty())
            };
            match type_refs_r {
                Err(e) => Err(e),
                Ok(ts) => Ok((ms, ts)),
            }
        },
    }
}

impl TableRows {
    /// Decodes the row data that begins at `data[0]` (the caller slices off
    /// the header first, using the header's size): every modeled table in
    /// ascending table-id order, present tables only, sharing one cursor.
    pub fn parse(header: &Tables, data: &[u8]) -> (r: Result<TableRows, Error>)
        requires
            header.wf(),
        ensures
            match r {
                Ok(tr) => spec_table_rows(*header, data@) == Ok::<(Seq<Module>, Seq<TypeRef>), Error>(
                    (tr.modules@, tr.type_refs@),
                ),
                Err(e) => spec_table_rows(*header, data@) == Err::<
                    (Seq<Module>, Seq<TypeRef>),
                    Error,
                >(e),
            },
    {
        let mut offset: usize = 0;

        let modules = if header.has_table(TABLE_MODULE) {
            match Module::parse_many(header, data, &mut offset) {
                Ok(v) => v,
                Err(e) => { return Err(e) },
            }
        } else {
            Vec::new()
        };
        let type_refs = if header.has_table(TABLE_TYPE_REF) {
            match TypeRef::parse_many(header, data, &mut offset) {
                Ok(v) => v,
                Err(e) => { return Err(e) },
            }
        } else {
            Vec::new()
        };

        Ok(TableRows { modules, type_refs })
    }
}

} // verus!
