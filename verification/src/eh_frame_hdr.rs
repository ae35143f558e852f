//! The header of `.eh_frame_hdr` and the ordering of its search table.

use vstd::prelude::*;
use crate::bytes::{put_bytes, read_u32, u32_at, le_seq, le_byte, radix};
use crate::elf::{
    twos32, EhFrameHdr, EhFrameHdrEntry, EH_COUNT_ENCODING, EH_FRAME_HDR_ENTRY_SIZE,
    EH_FRAME_HDR_SIZE, EH_FRAME_POINTER_ENCODING, EH_TABLE_ENCODING, FRAME_POINTER_FIELD_OFFSET,
};
use crate::error::EmitError;
use crate::layout::{Layout, EH_FRAME, EH_FRAME_HDR};
use crate::window::Window;

verus! {

/// The signed number that the 32 bits of `v` stand for.
pub open spec fn signed32(v: int) -> i32 {
    if v < 0x8000_0000 {
        v as i32
    } else {
        (v - 0x1_0000_0000) as i32
    }
}

/// The row of the search table that the eight bytes at `at` hold.
pub open spec fn entry_at(bytes: Seq<u8>, at: int) -> EhFrameHdrEntry {
    EhFrameHdrEntry {
        frame_ptr: signed32(u32_at(bytes, at)),
        frame_info_ptr: signed32(u32_at(bytes, at + 4)),
    }
}

/// The number of rows in a `.eh_frame_hdr` section of `len` bytes.
pub open spec fn row_count(len: int) -> int {
    (len - EH_FRAME_HDR_SIZE) / (EH_FRAME_HDR_ENTRY_SIZE as int)
}

/// The rows of the search table of a `.eh_frame_hdr` section.
pub open spec fn entries_of(bytes: Seq<u8>) -> Seq<EhFrameHdrEntry> {
    Seq::new(
        row_count(bytes.len() as int) as nat,
        |i: int| entry_at(bytes, EH_FRAME_HDR_SIZE + EH_FRAME_HDR_ENTRY_SIZE * i),
    )
}

/// Whether rows are in the order in which a binary search expects them.
pub open spec fn sorted_by_frame_ptr(entries: Seq<EhFrameHdrEntry>) -> bool {
    forall|i: int, j: int|
        0 <= i <= j < entries.len() ==> entries[i].frame_ptr <= entries[j].frame_ptr
}

/// Whether a byte count is that of a header followed by whole rows.
pub open spec fn well_sized(len: int) -> bool {
    len >= EH_FRAME_HDR_SIZE && (len - EH_FRAME_HDR_SIZE) % (EH_FRAME_HDR_ENTRY_SIZE as int) == 0
}

/// `sort_by_key` of std, with the `frame_ptr` of a row as the key: the rows
/// afterwards are the rows from before, in non-decreasing order of `frame_ptr`.
#[verifier::external_body]
fn sort_by_frame_ptr(entries: &mut Vec<EhFrameHdrEntry>)
    ensures
        final(entries)@.to_multiset() == old(entries)@.to_multiset(),
        sorted_by_frame_ptr(final(entries)@),
{
    entries.sort_by_key(|e| e.frame_ptr);
}

/// Four little-endian bytes stand for the number that they encode.
pub proof fn lemma_u32_round_trip(v: u64, s: Seq<u8>, at: int)
    requires
        v <= u32::MAX,
        0 <= at,
        at + 4 <= s.len(),
        s.subrange(at, at + 4) == le_seq(v, 4),
    ensures
        u32_at(s, at) == v,
{
    let b = s.subrange(at, at + 4);
    assert(b[0] == s[at] && b[1] == s[at + 1] && b[2] == s[at + 2] && b[3] == s[at + 3]);
    assert(b[0] == le_byte(v, 0) && b[1] == le_byte(v, 1) && b[2] == le_byte(v, 2) && b[3]
        == le_byte(v, 3));
    assert(radix(0) == 1 && radix(1) == 0x100 && radix(2) == 0x1_0000 && radix(3) == 0x100_0000);
}

/// The bits of a signed number stand for that number.
pub proof fn lemma_signed_round_trip(x: i32)
    ensures
        signed32(twos32(x) as int) == x,
        twos32(x) <= u32::MAX,
{
}

/// Decoding the bytes of a row gives the row.
pub proof fn lemma_entry_round_trip(e: EhFrameHdrEntry, s: Seq<u8>, at: int)
    requires
        0 <= at,
        at + 8 <= s.len(),
        s.subrange(at, at + 8) == e.encoding(),
    ensures
        entry_at(s, at) == e,
{
    lemma_signed_round_trip(e.frame_ptr);
    lemma_signed_round_trip(e.frame_info_ptr);
    let row = s.subrange(at, at + 8);
    assert(s.subrange(at, at + 4) =~= row.subrange(0, 4));
    assert(s.subrange(at + 4, at + 8) =~= row.subrange(4, 8));
    assert(row.subrange(0, 4) =~= le_seq(twos32(e.frame_ptr), 4));
    assert(row.subrange(4, 8) =~= le_seq(twos32(e.frame_info_ptr), 4));
    lemma_u32_round_trip(twos32(e.frame_ptr), s, at);
    lemma_u32_round_trip(twos32(e.frame_info_ptr), s, at + 4);
}

fn read_signed(bytes: &Vec<u8>, at: usize) -> (r: i32)
    requires
        at + 4 <= bytes.len(),
    ensures
        r == signed32(u32_at(bytes@, at as int)),
{
    let v: u32 = read_u32(bytes, at);
    if v < 0x8000_0000 {
        v as i32
    } else {
        let wide: i64 = v as i64 - 0x1_0000_0000;
        wide as i32
    }
}

/// Sorts the rows of the search table of a `.eh_frame_hdr` section by
/// `frame_ptr`, so that a binary search finds the row of an address. The
/// header ahead of the rows stays as it is.
pub fn sort_eh_frame_hdr_entries(eh_frame_hdr: &mut Vec<u8>) -> (r: Result<(), EmitError>)
    ensures
        final(eh_frame_hdr)@.len() == old(eh_frame_hdr)@.len(),
        !well_sized(old(eh_frame_hdr)@.len() as int) ==> r == Err::<(), EmitError>(
            EmitError::MalformedEhFrameHdr,
        ) && final(eh_frame_hdr)@ == old(eh_frame_hdr)@,
        well_sized(old(eh_frame_hdr)@.len() as int) ==> r.is_ok() && final(eh_frame_hdr)@.subrange(
            0,
            EH_FRAME_HDR_SIZE as int,
        ) == old(eh_frame_hdr)@.subrange(0, EH_FRAME_HDR_SIZE as int) && sorted_by_frame_ptr(
            entries_of(final(eh_frame_hdr)@),
        ) && entries_of(final(eh_frame_hdr)@).to_multiset() == entries_of(
            old(eh_frame_hdr)@,
        ).to_multiset(),
{
    let len: usize = eh_frame_hdr.len();
    if len < EH_FRAME_HDR_SIZE || (len - EH_FRAME_HDR_SIZE) % EH_FRAME_HDR_ENTRY_SIZE != 0 {
        return Err(EmitError::MalformedEhFrameHdr);
    }
    let count: usize = (len - EH_FRAME_HDR_SIZE) / EH_FRAME_HDR_ENTRY_SIZE;
    let mut entries: Vec<EhFrameHdrEntry> = Vec::new();
    let mut i: usize = 0;
    while i < count
        invariant
            i <= count,
            len == eh_frame_hdr@.len(),
            eh_frame_hdr@ == old(eh_frame_hdr)@,
            count == row_count(len as int),
            EH_FRAME_HDR_SIZE + EH_FRAME_HDR_ENTRY_SIZE * count == len,
            entries@.len() == i,
            forall|j: int| 0 <= j < i ==> entries@[j] == entries_of(eh_frame_hdr@)[j],
        decreases count - i,
    {
        let at: usize = EH_FRAME_HDR_SIZE + EH_FRAME_HDR_ENTRY_SIZE * i;
        let entry = EhFrameHdrEntry {
            frame_ptr: read_signed(eh_frame_hdr, at),
            frame_info_ptr: read_signed(eh_frame_hdr, at + 4),
        };
        entries.push(entry);
        i += 1;
    }
    assert(entries@ =~= entries_of(old(eh_frame_hdr)@));
    sort_by_frame_ptr(&mut entries);
    assert(entries@.len() == count) by {
        entries@.to_multiset_ensures();
        entries_of(old(eh_frame_hdr)@).to_multiset_ensures();
    }
    let mut k: usize = 0;
    while k < count
        invariant
            k <= count,
            len == eh_frame_hdr@.len(),
            len == old(eh_frame_hdr)@.len(),
            count == row_count(len as int),
            EH_FRAME_HDR_SIZE + EH_FRAME_HDR_ENTRY_SIZE * count == len,
            entries@.len() == count,
            eh_frame_hdr@.subrange(0, EH_FRAME_HDR_SIZE as int) == old(eh_frame_hdr)@.subrange(
                0,
                EH_FRAME_HDR_SIZE as int,
            ),
            forall|j: int|
                0 <= j < k ==> entries@[j] == #[trigger] entry_at(
                    eh_frame_hdr@,
                    EH_FRAME_HDR_SIZE + EH_FRAME_HDR_ENTRY_SIZE * j,
                ),
        decreases count - k,
    {
        let at: usize = EH_FRAME_HDR_SIZE + EH_FRAME_HDR_ENTRY_SIZE * k;
        let row = entries[k].encode();
        let ghost before = eh_frame_hdr@;
        put_bytes(eh_frame_hdr, at, &row);
        proof {
            assert(eh_frame_hdr@.subrange(at as int, at + 8) =~= row@);
            lemma_entry_round_trip(entries@[k as int], eh_frame_hdr@, at as int);
            assert(eh_frame_hdr@.subrange(0, EH_FRAME_HDR_SIZE as int) =~= before.subrange(
                0,
                EH_FRAME_HDR_SIZE as int,
            ));
            assert forall|j: int| 0 <= j < k implies entries@[j] == #[trigger] entry_at(
                eh_frame_hdr@,
                EH_FRAME_HDR_SIZE + EH_FRAME_HDR_ENTRY_SIZE * j,
            ) by {
                let p = EH_FRAME_HDR_SIZE + EH_FRAME_HDR_ENTRY_SIZE * j;
                assert(entries@[j] == entry_at(before, p));
                assert(eh_frame_hdr@[p] == before[p] && eh_frame_hdr@[p + 1] == before[p + 1]
                    && eh_frame_hdr@[p + 2] == before[p + 2] && eh_frame_hdr@[p + 3] == before[p
                    + 3] && eh_frame_hdr@[p + 4] == before[p + 4] && eh_frame_hdr@[p + 5]
                    == before[p + 5] && eh_frame_hdr@[p + 6] == before[p + 6] && eh_frame_hdr@[p
                    + 7] == before[p + 7]);
            }
        }
        k += 1;
    }
    assert(entries@ =~= entries_of(eh_frame_hdr@));
    Ok(())
}

/// The address of `.eh_frame` relative to the field of the
/// `.eh_frame_hdr` header that holds it.
pub open spec fn frame_pointer_of(layout: &Layout) -> int {
    layout.section_layouts@[EH_FRAME as int].mem_offset - (
    layout.section_layouts@[EH_FRAME_HDR as int].mem_offset + FRAME_POINTER_FIELD_OFFSET)
}

/// The address of `.eh_frame` relative to the place in `.eh_frame_hdr`
/// where it is stored: negative where `.eh_frame` lies below that place.
/// Fails if the distance does not fit in 32 signed bits.
pub fn eh_frame_ptr(layout: &Layout) -> (r: Result<i32, EmitError>)
    requires
        layout.wf(),
    ensures
        i32::MIN <= frame_pointer_of(layout) <= i32::MAX ==> r == Ok::<i32, EmitError>(
            frame_pointer_of(layout) as i32,
        ),
        !(i32::MIN <= frame_pointer_of(layout) <= i32::MAX) ==> r == Err::<i32, EmitError>(
            EmitError::EhFrameTooFar,
        ),
{
    let eh_frame_address: u64 = layout.section_layouts[EH_FRAME].mem_offset;
    let eh_frame_hdr_address: u64 = layout.section_layouts[EH_FRAME_HDR].mem_offset;
    let distance: i128 = (eh_frame_address as i128) - ((eh_frame_hdr_address as i128)
        + FRAME_POINTER_FIELD_OFFSET as i128);
    if distance < -0x8000_0000 || distance > 0x7fff_ffff {
        return Err(EmitError::EhFrameTooFar);
    }
    Ok(distance as i32)
}

/// The number of rows that the memory size of `.eh_frame_hdr` has room for.
pub open spec fn entry_count_of(layout: &Layout) -> int {
    (layout.section_layouts@[EH_FRAME_HDR as int].mem_size - EH_FRAME_HDR_SIZE) / (
    EH_FRAME_HDR_ENTRY_SIZE as int)
}

/// The number of rows of the search table, as the layout sized it.
pub fn eh_frame_hdr_entry_count(layout: &Layout) -> (r: Result<u32, EmitError>)
    requires
        layout.wf(),
    ensures
        layout.section_layouts@[EH_FRAME_HDR as int].mem_size < EH_FRAME_HDR_SIZE ==> r == Err::<
            u32,
            EmitError,
        >(EmitError::EhFrameHdrTooSmall),
        layout.section_layouts@[EH_FRAME_HDR as int].mem_size >= EH_FRAME_HDR_SIZE
            && entry_count_of(layout) > u32::MAX ==> r == Err::<u32, EmitError>(
            EmitError::EntryCountOverflow,
        ),
        layout.section_layouts@[EH_FRAME_HDR as int].mem_size >= EH_FRAME_HDR_SIZE
            && entry_count_of(layout) <= u32::MAX ==> r == Ok::<u32, EmitError>(
            entry_count_of(layout) as u32,
        ),
{
    let mem_size: u64 = layout.section_layouts[EH_FRAME_HDR].mem_size;
    if mem_size < EH_FRAME_HDR_SIZE as u64 {
        return Err(EmitError::EhFrameHdrTooSmall);
    }
    let count: u64 = (mem_size - EH_FRAME_HDR_SIZE as u64) / (EH_FRAME_HDR_ENTRY_SIZE as u64);
    if count > 0xffff_ffff {
        return Err(EmitError::EntryCountOverflow);
    }
    Ok(count as u32)
}

/// The header of `.eh_frame_hdr` for a layout, given its two computed fields.
pub open spec fn eh_frame_hdr_header(frame_pointer: i32, entry_count: u32) -> EhFrameHdr {
    EhFrameHdr {
        version: 1,
        frame_pointer_encoding: EH_FRAME_POINTER_ENCODING,
        count_encoding: EH_COUNT_ENCODING,
        table_encoding: EH_TABLE_ENCODING,
        frame_pointer,
        entry_count,
    }
}

/// What writing the header of `.eh_frame_hdr` makes of a window that
/// holds `data` and has room for `capacity` bytes in all, or the error with
/// which it fails.
pub open spec fn eh_frame_hdr_written(layout: &Layout, data: Seq<u8>, capacity: int) -> Result<
    Seq<u8>,
    EmitError,
> {
    if !(i32::MIN <= frame_pointer_of(layout) <= i32::MAX) {
        Err(EmitError::EhFrameTooFar)
    } else if layout.section_layouts@[EH_FRAME_HDR as int].mem_size < EH_FRAME_HDR_SIZE {
        Err(EmitError::EhFrameHdrTooSmall)
    } else if entry_count_of(layout) > u32::MAX {
        Err(EmitError::EntryCountOverflow)
    } else if capacity - data.len() < EH_FRAME_HDR_SIZE {
        Err(EmitError::EhFrameHdrTooSmall)
    } else {
        Ok(
            data + eh_frame_hdr_header(
                frame_pointer_of(layout) as i32,
                entry_count_of(layout) as u32,
            ).encoding(),
        )
    }
}

/// Writes the header of `.eh_frame_hdr` to the front of what is left of its window.
pub fn write_eh_frame_hdr(eh_frame_hdr: &mut Window, layout: &Layout) -> (r: Result<(), EmitError>)
    requires
        layout.wf(),
        old(eh_frame_hdr).wf(),
    ensures
        final(eh_frame_hdr).wf(),
        final(eh_frame_hdr).capacity == old(eh_frame_hdr).capacity,
        match eh_frame_hdr_written(
            layout,
            old(eh_frame_hdr).data@,
            old(eh_frame_hdr).capacity as int,
        ) {
            Err(e) => r == Err::<(), EmitError>(e) && final(eh_frame_hdr).data@ == old(eh_frame_hdr).data@,
            Ok(data) => r.is_ok() && final(eh_frame_hdr).data@ == data,
        },
{
    let frame_pointer: i32 = match eh_frame_ptr(layout) {
        Err(e) => {
            return Err(e);
        },
        Ok(p) => p,
    };
    let entry_count: u32 = match eh_frame_hdr_entry_count(layout) {
        Err(e) => {
            return Err(e);
        },
        Ok(n) => n,
    };
    let header = EhFrameHdr {
        version: 1,
        frame_pointer_encoding: EH_FRAME_POINTER_ENCODING,
        count_encoding: EH_COUNT_ENCODING,
        table_encoding: EH_TABLE_ENCODING,
        frame_pointer,
        entry_count,
    };
    let bytes = header.encode();
    if !eh_frame_hdr.emit(&bytes) {
        return Err(EmitError::EhFrameHdrTooSmall);
    }
    Ok(())
}

/// Where the memory size of `.eh_frame_hdr` is the size of the section, the
/// entry count of its header is the number of rows that the section holds.
pub proof fn lemma_entry_count_matches_rows(layout: &Layout, section: Seq<u8>)
    requires
        layout.wf(),
        section.len() == layout.section_layouts@[EH_FRAME_HDR as int].mem_size,
        well_sized(section.len() as int),
    ensures
        entries_of(section).len() == entry_count_of(layout),
{
}

} // verus!
