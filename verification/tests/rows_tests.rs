use metadata_tables::coded::{CodedIndex, TABLE_MODULE, TABLE_MODULE_REF, TABLE_TYPE_REF};
use metadata_tables::error::Error;
use metadata_tables::header::Tables;
use metadata_tables::rows::{GuidIndex, Module, StringIndex, TableRows, TypeRef};

fn header_bytes(flags: u8, entries: &[(usize, u32)]) -> Vec<u8> {
    let mut mask: u64 = 0;
    for &(id, _) in entries {
        mask |= 1u64 << id;
    }
    let mut out = vec![0u8; 6];
    out.push(flags);
    out.push(0);
    out.extend_from_slice(&mask.to_le_bytes());
    out.extend_from_slice(&[0u8; 8]);
    let mut sorted = entries.to_vec();
    sorted.sort_by_key(|e| e.0);
    for &(_, count) in &sorted {
        out.extend_from_slice(&count.to_le_bytes());
    }
    out
}

/// A Module row with 2-byte heap indices and the given reserved fields.
fn module_row(generation: u16, name: u16, mvid: u16, enc_id: u16, enc_base_id: u16) -> Vec<u8> {
    let mut out = Vec::new();
    out.extend_from_slice(&generation.to_le_bytes());
    out.extend_from_slice(&name.to_le_bytes());
    out.extend_from_slice(&mvid.to_le_bytes());
    out.extend_from_slice(&enc_id.to_le_bytes());
    out.extend_from_slice(&enc_base_id.to_le_bytes());
    out
}

/// Decodes a full stream: header first, then the rows that follow it.
fn decode(stream: &[u8]) -> Result<TableRows, Error> {
    let header = Tables::parse(stream)?;
    TableRows::parse(&header, &stream[header.size..])
}

#[test]
fn end_to_end_module_and_empty_typeref() {
    // Heap-size flags 0x00: all heap indices 2 bytes. Module and TypeRef
    // present with row counts 1 and 0; one Module row follows.
    let mut stream = header_bytes(0x00, &[(TABLE_MODULE, 1), (TABLE_TYPE_REF, 0)]);
    stream.extend_from_slice(&module_row(0, 1, 1, 0, 0));
    let rows = decode(&stream).unwrap();
    assert_eq!(
        rows.modules,
        vec![Module { name: StringIndex(1), mvid: GuidIndex(1) }]
    );
    assert_eq!(rows.type_refs, Vec::new());
}

#[test]
fn module_rows_decode_in_order() {
    let mut stream = header_bytes(0x00, &[(TABLE_MODULE, 2)]);
    stream.extend_from_slice(&module_row(0, 10, 20, 0, 0));
    stream.extend_from_slice(&module_row(0, 30, 40, 0, 0));
    let rows = decode(&stream).unwrap();
    assert_eq!(
        rows.modules,
        vec![
            Module { name: StringIndex(10), mvid: GuidIndex(20) },
            Module { name: StringIndex(30), mvid: GuidIndex(40) },
        ]
    );
}

#[test]
fn wide_heap_indices() {
    // Flags 0x03: string and GUID heap indices are 4 bytes each.
    let mut stream = header_bytes(0x03, &[(TABLE_MODULE, 1)]);
    stream.extend_from_slice(&0u16.to_le_bytes());
    stream.extend_from_slice(&0x12345u32.to_le_bytes());
    stream.extend_from_slice(&0x6789Au32.to_le_bytes());
    stream.extend_from_slice(&0u16.to_le_bytes());
    stream.extend_from_slice(&0u16.to_le_bytes());
    let rows = decode(&stream).unwrap();
    assert_eq!(
        rows.modules,
        vec![Module { name: StringIndex(0x12345), mvid: GuidIndex(0x6789A) }]
    );
}

#[test]
fn nonzero_generation_aborts_decode() {
    let mut stream = header_bytes(0x00, &[(TABLE_MODULE, 1), (TABLE_TYPE_REF, 1)]);
    stream.extend_from_slice(&module_row(1, 1, 1, 0, 0));
    // A well-formed TypeRef row follows; it must never be reached.
    stream.extend_from_slice(&[0u8; 6]);
    assert_eq!(decode(&stream), Err(Error::ReservedFieldViolation));
}

#[test]
fn nonzero_enc_id_aborts_decode() {
    let mut stream = header_bytes(0x00, &[(TABLE_MODULE, 1)]);
    stream.extend_from_slice(&module_row(0, 1, 1, 5, 0));
    assert_eq!(decode(&stream), Err(Error::ReservedFieldViolation));
}

#[test]
fn nonzero_enc_base_id_aborts_decode() {
    let mut stream = header_bytes(0x00, &[(TABLE_MODULE, 1)]);
    stream.extend_from_slice(&module_row(0, 1, 1, 0, 9));
    assert_eq!(decode(&stream), Err(Error::ReservedFieldViolation));
}

#[test]
fn typeref_rows_decode() {
    // ResolutionScope has 2 tag bits; raw = (row << 2) | tag.
    let mut stream = header_bytes(0x00, &[(TABLE_MODULE_REF, 1), (TABLE_TYPE_REF, 1)]);
    let raw: u16 = (5 << 2) | 1;
    stream.extend_from_slice(&raw.to_le_bytes());
    stream.extend_from_slice(&7u16.to_le_bytes());
    stream.extend_from_slice(&9u16.to_le_bytes());
    let rows = decode(&stream).unwrap();
    assert_eq!(rows.modules, Vec::new());
    assert_eq!(
        rows.type_refs,
        vec![TypeRef {
            scope: CodedIndex { table: TABLE_MODULE_REF, row: 5 },
            name: StringIndex(7),
            namespace: StringIndex(9),
        }]
    );
}

#[test]
fn typeref_after_module_shares_the_cursor() {
    let mut stream = header_bytes(0x00, &[(TABLE_MODULE, 1), (TABLE_TYPE_REF, 1)]);
    stream.extend_from_slice(&module_row(0, 2, 3, 0, 0));
    let raw: u16 = (1 << 2) | 0;
    stream.extend_from_slice(&raw.to_le_bytes());
    stream.extend_from_slice(&11u16.to_le_bytes());
    stream.extend_from_slice(&12u16.to_le_bytes());
    let rows = decode(&stream).unwrap();
    assert_eq!(
        rows.modules,
        vec![Module { name: StringIndex(2), mvid: GuidIndex(3) }]
    );
    assert_eq!(
        rows.type_refs,
        vec![TypeRef {
            scope: CodedIndex { table: TABLE_MODULE, row: 1 },
            name: StringIndex(11),
            namespace: StringIndex(12),
        }]
    );
}

#[test]
fn truncated_typeref_scope_is_bounds_error() {
    let mut stream = header_bytes(0x00, &[(TABLE_TYPE_REF, 1)]);
    stream.extend_from_slice(&[0u8; 1]);
    assert_eq!(decode(&stream), Err(Error::BoundsError));
}

#[test]
fn truncated_module_row_is_bounds_error() {
    let mut stream = header_bytes(0x00, &[(TABLE_MODULE, 1)]);
    stream.extend_from_slice(&module_row(0, 1, 1, 0, 0));
    stream.truncate(stream.len() - 3);
    assert_eq!(decode(&stream), Err(Error::BoundsError));
}

#[test]
fn second_module_row_missing_is_bounds_error() {
    let mut stream = header_bytes(0x00, &[(TABLE_MODULE, 2)]);
    stream.extend_from_slice(&module_row(0, 1, 1, 0, 0));
    assert_eq!(decode(&stream), Err(Error::BoundsError));
}

#[test]
fn present_table_with_zero_rows_gives_empty_array() {
    let stream = header_bytes(0x00, &[(TABLE_MODULE, 0), (TABLE_TYPE_REF, 0)]);
    let rows = decode(&stream).unwrap();
    assert_eq!(rows.modules, Vec::new());
    assert_eq!(rows.type_refs, Vec::new());
}

#[test]
fn absent_tables_give_empty_arrays_and_read_nothing() {
    let stream = header_bytes(0x00, &[]);
    let rows = decode(&stream).unwrap();
    assert_eq!(rows.modules, Vec::new());
    assert_eq!(rows.type_refs, Vec::new());
}

#[test]
fn string_and_guid_index_parse_directly() {
    let header = Tables::parse(&header_bytes(0x02, &[])).unwrap();
    // String indices stay 2 bytes, GUID indices grow to 4.
    let data = [0x34u8, 0x12, 0x78, 0x56, 0x11, 0x00];
    let mut off = 0usize;
    assert_eq!(StringIndex::parse(&header, &data, &mut off), Ok(StringIndex(0x1234)));
    assert_eq!(off, 2);
    assert_eq!(GuidIndex::parse(&header, &data, &mut off), Ok(GuidIndex(0x00115678)));
    assert_eq!(off, 6);
    assert_eq!(StringIndex::parse(&header, &data, &mut off), Err(Error::BoundsError));
    assert_eq!(off, 6);
}
