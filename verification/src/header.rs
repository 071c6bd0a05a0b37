//! The tables-stream header: heap index widths, the table-presence bitmask,
//! and per-table row counts.

use vstd::prelude::*;
use crate::error::Error;
use crate::reader::{le_bytes, read_u8, read_u32, read_u64};

verus! {

/// The width of an index field: two or four bytes.
#[derive(Debug, PartialEq, Eq, Structural, Copy, Clone)]
pub enum IndexSize {
    /// 2-byte index.
    U16,
    /// 4-byte index.
    U32,
}

/// The width of an index of the given size, in bytes.
pub open spec fn spec_index_width(s: IndexSize) -> int {
    match s {
        IndexSize::U16 => 2,
        IndexSize::U32 => 4,
    }
}

/// True when bit `i` of `mask` is set.
pub open spec fn bit(mask: u64, i: int) -> bool {
    (mask >> (i as u64)) & 1 == 1
}

/// The number of bits of `mask` set among positions `0 .. i`.
pub open spec fn count_present_below(mask: u64, i: int) -> int
    decreases i,
{
    if i <= 0 {
        0
    } else {
        count_present_below(mask, i - 1) + if bit(mask, i - 1) { 1int } else { 0int }
    }
}

/// The presence bitmask as the header stores it, at byte offset 8.
pub open spec fn spec_mask(data: Seq<u8>) -> u64 {
    le_bytes(data, 8, 8) as u64
}

/// Byte offset, within the header, of the row count for table `i`:
/// the fixed 24-byte prologue followed by one 4-byte count per present
/// table of lower id.
pub open spec fn row_count_offset(mask: u64, i: int) -> int {
    24 + 4 * count_present_below(mask, i)
}

/// Total byte length of the header for presence mask `mask`.
pub open spec fn header_size(mask: u64) -> int {
    24 + 4 * count_present_below(mask, 64)
}

/// When header parsing succeeds: the fixed prologue through the two bitmasks
/// must be in bounds, and, as soon as any table is present, so must every
/// row count. (With no table present the trailing "sorted" mask is skipped,
/// never read, so a 16-byte buffer suffices.)
pub open spec fn header_parse_ok(data: Seq<u8>) -> bool {
    &&& data.len() >= 16
    &&& (count_present_below(spec_mask(data), 64) == 0 || data.len() >= header_size(
        spec_mask(data),
    ))
}

/// The heap-index width selected by one heap-size flag bit: set means four
/// bytes, clear means two.
pub open spec fn spec_heap_width(flags: u8, flag_bit: u8) -> IndexSize {
    if flags & flag_bit == 0 {
        IndexSize::U16
    } else {
        IndexSize::U32
    }
}

/// The parsed stream header: per-heap index widths, per-table row counts,
/// the presence mask, and the total bytes the header occupies.
#[derive(Debug, Clone)]
pub struct Tables {
    pub string_index_size: IndexSize,
    pub guid_index_size: IndexSize,
    pub blob_index_size: IndexSize,
    /// Row count per table id; zero for every absent table.
    pub lens: Vec<u32>,
    /// Total bytes consumed by the header; row data follows immediately.
    pub size: usize,
    /// One bit per table id actually stored in the stream. Bits beyond the
    /// highest canonical table id are not rejected: their row counts are
    /// read and stored like any other.
    pub valid_mask: u64,
}

impl Tables {
    /// Well-formedness: one row-count slot per possible table id.
    pub open spec fn wf(&self) -> bool {
        self.lens@.len() == 64
    }

    /// True when table `id` is stored in the stream.
    pub fn has_table(&self, id: usize) -> (r: bool)
        requires
            id < 64,
        ensures
            r == bit(self.valid_mask, id as int),
    {
        (self.valid_mask >> (id as u64)) & 1 == 1
    }

    /// Width of a simple index into one fixed table: two bytes while that
    /// table has fewer than 2^16 rows, else four (a table entirely absent
    /// holds row count zero, so its indices stay two bytes).
    pub fn simple_index_size(&self, table: usize) -> (r: IndexSize)
        requires
            self.wf(),
            table < 64,
        ensures
            r == (if self.lens@[table as int] < 0x10000 {
                IndexSize::U16
            } else {
                IndexSize::U32
            }),
    {
        if self.lens[table] < 0x10000 {
            IndexSize::U16
        } else {
            IndexSize::U32
        }
    }

    /// Parses the stream header: a 6-byte skipped prologue, the heap-size
    /// flag byte, a skipped reserved byte, the 8-byte presence mask, the
    /// skipped 8-byte sorted mask, then one 4-byte row count per present
    /// table in ascending table-id order.
    pub fn parse(data: &[u8]) -> (r: Result<Tables, Error>)
        ensures
            r is Ok <==> header_parse_ok(data@),
            r matches Ok(t) ==> {
                &&& t.wf()
                &&& t.valid_mask == spec_mask(data@)
                &&& t.string_index_size == spec_heap_width(data@[6], 0x01)
                &&& t.guid_index_size == spec_heap_width(data@[6], 0x02)
                &&& t.blob_index_size == spec_heap_width(data@[6], 0x04)
                &&& forall|j: int|
                    0 <= j < 64 ==> t.lens@[j] == if bit(t.valid_mask, j) {
                        le_bytes(data@, row_count_offset(t.valid_mask, j), 4)
                    } else {
                        0int
                    }
                &&& t.size == header_size(t.valid_mask)
            },
            r matches Err(e) ==> e == Error::BoundsError,
    {
        let mut offset: usize = 6;

        let heap_sizes = match read_u8(data, &mut offset) {
            Ok(v) => v,
            Err(e) => { return Err(e) },
        };
        proof {
            reveal_with_fuel(le_bytes, 2);
        }
        let string_index_size = if heap_sizes & 0x01 == 0 {
            IndexSize::U16
        } else {
            IndexSize::U32
        };
        let guid_index_size = if heap_sizes & 0x02 == 0 {
            IndexSize::U16
        } else {
            IndexSize::U32
        };
        let blob_index_size = if heap_sizes & 0x04 == 0 {
            IndexSize::U16
        } else {
            IndexSize::U32
        };

        // Reserved byte.
        offset = offset + 1;

        let valid_mask = match read_u64(data, &mut offset) {
            Ok(v) => v,
            Err(e) => { return Err(e) },
        };
        assert(valid_mask == spec_mask(data@));

        // Sorted mask: unused by this decoder.
        offset = offset + 8;

        let mut lens: Vec<u32> = Vec::new();
        let mut i: usize = 0;
        while i < 64
            invariant
                i <= 64,
                data@.len() >= 16,
                valid_mask == spec_mask(data@),
                lens@.len() == i,
                offset == row_count_offset(valid_mask, i as int),
                count_present_below(valid_mask, i as int) > 0 ==> data@.len() >= 24 + 4
                    * count_present_below(valid_mask, i as int),
                forall|j: int|
                    0 <= j < i ==> lens@[j] == if bit(valid_mask, j) {
                        le_bytes(data@, row_count_offset(valid_mask, j), 4)
                    } else {
                        0int
                    },
            decreases 64 - i,
        {
            proof {
                lemma_count_present_bounds(valid_mask, i as int);
            }
            if (valid_mask >> (i as u64)) & 1 == 1 {
                let n = match read_u32(data, &mut offset) {
                    Ok(v) => v,
                    Err(_) => {
                        proof {
                            lemma_count_present_mono(valid_mask, i as int + 1, 64);
                        }
                        return Err(Error::BoundsError);
                    },
                };
                lens.push(n);
            } else {
                lens.push(0);
            }
            i = i + 1;
        }
        proof {
            lemma_count_present_bounds(valid_mask, 64);
        }

        let size = offset;
        Ok(
            Tables {
                string_index_size,
                guid_index_size,
                blob_index_size,
                lens,
                size,
                valid_mask,
            },
        )
    }
}

/// The count of set bits below `i` never exceeds `i` and is never negative.
pub proof fn lemma_count_present_bounds(mask: u64, i: int)
    requires
        0 <= i,
    ensures
        0 <= count_present_below(mask, i) <= i,
    decreases i,
{
    if i > 0 {
        lemma_count_present_bounds(mask, i - 1);
    }
}

/// A mask with `k` bits set populates exactly `k` row-count entries: the
/// set of present table ids below `i` has as many members as the header
/// stores row counts for them. (Every other entry holds zero, as the
/// parser's contract states.)
pub proof fn lemma_populated_entry_count(mask: u64, i: int)
    requires
        0 <= i <= 64,
    ensures
        Set::new(|j: int| 0 <= j < i && bit(mask, j)).finite(),
        Set::new(|j: int| 0 <= j < i && bit(mask, j)).len() == count_present_below(mask, i),
    decreases i,
{
    let s = Set::new(|j: int| 0 <= j < i && bit(mask, j));
    if i == 0 {
        assert(s =~= Set::empty());
    } else {
        lemma_populated_entry_count(mask, i - 1);
        let prev = Set::new(|j: int| 0 <= j < i - 1 && bit(mask, j));
        if bit(mask, i - 1) {
            assert(s =~= prev.insert(i - 1));
        } else {
            assert(s =~= prev);
        }
    }
}

/// Counting set bits below a larger bound never gives fewer.
pub proof fn lemma_count_present_mono(mask: u64, i: int, j: int)
    requires
        0 <= i <= j,
    ensures
        count_present_below(mask, i) <= count_present_below(mask, j),
    decreases j - i,
{
    if i < j {
        lemma_count_present_mono(mask, i, j - 1);
    }
}

} // verus!
