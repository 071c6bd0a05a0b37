use metadata_tables::error::Error;
use metadata_tables::header::{IndexSize, Tables};

/// Builds stream-header bytes: 6-byte prologue, heap-size flags, a reserved
/// byte, the presence mask, the sorted mask, then one 4-byte row count per
/// entry in ascending table-id order.
fn header_bytes(flags: u8, entries: &[(usize, u32)]) -> Vec<u8> {
    let mut mask: u64 = 0;
    for &(id, _) in entries {
        mask |= 1u64 << id;
    }
    let mut out = vec![0u8; 6];
    out.push(flags);
    out.push(0);
    out.extend_from_slice(&mask.to_le_bytes());
    out.extend_from_slice(&[0u8; 8]);
    let mut sorted = entries.to_vec();
    sorted.sort_by_key(|e| e.0);
    for &(_, count) in &sorted {
        out.extend_from_slice(&count.to_le_bytes());
    }
    out
}

#[test]
fn heap_size_flags_all_combinations() {
    for flags in 0u8..8u8 {
        let data = header_bytes(flags, &[]);
        let t = Tables::parse(&data).unwrap();
        let want = |bit: u8| {
            if flags & bit == 0 {
                IndexSize::U16
            } else {
                IndexSize::U32
            }
        };
        assert_eq!(t.string_index_size, want(0x01));
        assert_eq!(t.guid_index_size, want(0x02));
        assert_eq!(t.blob_index_size, want(0x04));
    }
}

#[test]
fn empty_mask_header() {
    let data = header_bytes(0, &[]);
    let t = Tables::parse(&data).unwrap();
    assert_eq!(t.valid_mask, 0);
    assert_eq!(t.size, 24);
    for i in 0..64 {
        assert_eq!(t.lens[i], 0);
        assert!(!t.has_table(i));
    }
}

#[test]
fn row_counts_populate_only_present_tables() {
    let entries = [(0usize, 1u32), (1, 2), (4, 3), (63, 7)];
    let data = header_bytes(0, &entries);
    let t = Tables::parse(&data).unwrap();
    assert_eq!(t.size, 24 + 4 * entries.len());
    for i in 0..64 {
        match entries.iter().find(|e| e.0 == i) {
            Some(&(_, count)) => {
                assert!(t.has_table(i));
                assert_eq!(t.lens[i], count);
            }
            None => {
                assert!(!t.has_table(i));
                assert_eq!(t.lens[i], 0);
            }
        }
    }
}

#[test]
fn row_counts_read_in_ascending_table_id_order() {
    // Counts appear in the buffer in ascending table-id order, whatever
    // order the builder was given.
    let data = header_bytes(0, &[(5usize, 50u32), (2, 20), (9, 90)]);
    let t = Tables::parse(&data).unwrap();
    assert_eq!(t.lens[2], 20);
    assert_eq!(t.lens[5], 50);
    assert_eq!(t.lens[9], 90);
}

#[test]
fn truncated_prologue_is_bounds_error() {
    for len in 0..16 {
        let data = vec![0u8; len];
        assert_eq!(Tables::parse(&data).unwrap_err(), Error::BoundsError);
    }
}

#[test]
fn sixteen_bytes_suffice_without_tables() {
    // With no table present no row count is read, and the sorted mask is
    // skipped, never read, so 16 bytes parse; the reported header size
    // still covers the skipped sorted mask.
    let data = vec![0u8; 16];
    let t = Tables::parse(&data).unwrap();
    assert_eq!(t.size, 24);
}

#[test]
fn missing_row_count_is_bounds_error() {
    let mut data = header_bytes(0, &[(0usize, 1u32), (1, 2)]);
    // Drop one byte of the last row count.
    data.pop();
    assert_eq!(Tables::parse(&data).unwrap_err(), Error::BoundsError);
}

#[test]
fn simple_index_width_boundary() {
    let below = header_bytes(0, &[(6usize, 0xFFFF)]);
    let t = Tables::parse(&below).unwrap();
    assert_eq!(t.simple_index_size(6), IndexSize::U16);
    assert_eq!(t.simple_index_size(7), IndexSize::U16);

    let at = header_bytes(0, &[(6usize, 0x10000)]);
    let t = Tables::parse(&at).unwrap();
    assert_eq!(t.simple_index_size(6), IndexSize::U32);
}
