//! The ELF header, the program headers, the section headers with their
//! name table, and the dynamic table.

use vstd::prelude::*;
use crate::bytes::append_bytes;
use crate::elf::{
    DynamicEntry, FileHeader, ProgramHeader, SectionHeader, DF_1_PIE_NOW, DF_BIND_NOW, DT_DEBUG,
    DT_FINI, DT_FINI_ARRAY, DT_FINI_ARRAYSZ, DT_FLAGS, DT_FLAGS_1, DT_INIT, DT_INIT_ARRAY,
    DT_INIT_ARRAYSZ, DT_NULL, DT_RELA, DT_RELACOUNT, DT_RELAENT, DT_RELASZ, DT_STRSZ, DT_STRTAB,
    DT_SYMENT, DT_SYMTAB, DYNAMIC_ENTRY_SIZE, FILE_HEADER_SIZE, FILE_TYPE_EXECUTABLE,
    FILE_TYPE_SHARED_OBJECT, MACHINE_X86_64, NUM_DYNAMIC_ENTRIES, PAGE, PHEADER_OFFSET,
    PROGRAM_HEADER_SIZE, RELA_ENTRY_SIZE, SECTION_HEADER_SIZE, SEGMENT_TYPE_LOAD, SHT_NULL,
    SYMTAB_ENTRY_SIZE,
};
use crate::error::EmitError;
use crate::layout::{
    HeaderInfo, Layout, SegmentLayout, DYNSTR, DYNSYM, FINI, FINI_ARRAY, INIT, INIT_ARRAY, RELA_DYN,
    SHSTRTAB,
};
use crate::window::Window;

verus! {

/// The program header of a segment. A loadable segment is aligned to a page
/// at least.
pub open spec fn program_header_of(segment: SegmentLayout) -> ProgramHeader {
    ProgramHeader {
        segment_type: segment.segment_type,
        flags: segment.segment_flags,
        offset: segment.file_offset as u64,
        virtual_addr: segment.mem_offset,
        physical_addr: segment.mem_offset,
        file_size: segment.file_size as u64,
        mem_size: segment.mem_size,
        alignment: if segment.segment_type == SEGMENT_TYPE_LOAD && segment.alignment < PAGE {
            PAGE
        } else {
            segment.alignment
        },
    }
}

/// The program headers of the first `n` segments, one after the other.
pub open spec fn program_headers_bytes(segments: Seq<SegmentLayout>, n: int) -> Seq<u8>
    decreases n,
{
    if n <= 0 {
        Seq::<u8>::empty()
    } else {
        program_headers_bytes(segments, n - 1) + program_header_of(segments[n - 1]).encoding()
    }
}

/// Hands out the slots of the program header table, front to back.
pub struct ProgramHeaderWriter {
    pub headers: Window,
}

impl ProgramHeaderWriter {
    /// A writer over the window of the program header table.
    pub fn new(headers: Window) -> (w: ProgramHeaderWriter)
        ensures
            w.headers == headers,
    {
        ProgramHeaderWriter { headers }
    }

    /// Takes the next slot of the table and fills it with `header`.
    pub fn take_header(&mut self, header: &ProgramHeader) -> (r: Result<(), EmitError>)
        requires
            old(self).headers.wf(),
        ensures
            final(self).headers.wf(),
            final(self).headers.capacity == old(self).headers.capacity,
            old(self).headers.residual() >= PROGRAM_HEADER_SIZE ==> r.is_ok() && final(self).headers.data@ == old(self).headers.data@ + header.encoding(),
            old(self).headers.residual() < PROGRAM_HEADER_SIZE ==> r == Err::<(), EmitError>(
                EmitError::ProgramHeaderSlots,
            ) && final(self).headers.data@ == old(self).headers.data@,
    {
        let bytes = header.encode();
        if self.headers.emit(&bytes) {
            Ok(())
        } else {
            Err(EmitError::ProgramHeaderSlots)
        }
    }
}

/// Every program header takes the same number of bytes.
pub proof fn lemma_program_headers_len(segments: Seq<SegmentLayout>, n: int)
    requires
        0 <= n,
    ensures
        program_headers_bytes(segments, n).len() == PROGRAM_HEADER_SIZE * n,
    decreases n,
{
    if n > 0 {
        lemma_program_headers_len(segments, n - 1);
    }
}

/// Writes one program header per segment, in the order of the layout.
pub fn write_program_headers(program_headers_out: &mut ProgramHeaderWriter, layout: &Layout) -> (r:
    Result<(), EmitError>)
    requires
        old(program_headers_out).headers.wf(),
    ensures
        final(program_headers_out).headers.wf(),
        final(program_headers_out).headers.capacity == old(program_headers_out).headers.capacity,
        r.is_ok() <==> PROGRAM_HEADER_SIZE * layout.segments@.len() <= old(program_headers_out).headers.residual(),
        r.is_ok() ==> final(program_headers_out).headers.data@ == old(program_headers_out).headers.data@ + program_headers_bytes(layout.segments@, layout.segments@.len() as int),
        r.is_err() ==> r == Err::<(), EmitError>(EmitError::ProgramHeaderSlots),
{
    let mut table: Vec<u8> = Vec::new();
    let mut i: usize = 0;
    while i < layout.segments.len()
        invariant
            i <= layout.segments@.len(),
            table@ == program_headers_bytes(layout.segments@, i as int),
            table@.len() == PROGRAM_HEADER_SIZE * i,
            old(program_headers_out).headers.wf(),
            table@.len() <= old(program_headers_out).headers.residual(),
        decreases layout.segments@.len() - i,
    {
        let segment = &layout.segments[i];
        let mut alignment: u64 = segment.alignment;
        if segment.segment_type == SEGMENT_TYPE_LOAD && alignment < PAGE {
            alignment = PAGE;
        }
        let header = ProgramHeader {
            segment_type: segment.segment_type,
            flags: segment.segment_flags,
            offset: segment.file_offset as u64,
            virtual_addr: segment.mem_offset,
            physical_addr: segment.mem_offset,
            file_size: segment.file_size as u64,
            mem_size: segment.mem_size,
            alignment,
        };
        let bytes = header.encode();
        if bytes.len() > program_headers_out.headers.capacity
            - program_headers_out.headers.data.len() - table.len() {
            proof {
                lemma_program_headers_len(layout.segments@, layout.segments@.len() as int);
                assert(PROGRAM_HEADER_SIZE * (i + 1) <= PROGRAM_HEADER_SIZE
                    * layout.segments@.len()) by (nonlinear_arith)
                    requires
                        i + 1 <= layout.segments@.len(),
                ;
            }
            return Err(EmitError::ProgramHeaderSlots);
        }
        append_bytes(&mut table, &bytes);
        i += 1;
    }
    let done = program_headers_out.headers.emit(&table);
    assert(done);
    Ok(())
}

/// The ELF header of the output.
pub open spec fn file_header_of(layout: &Layout, header_info: HeaderInfo, names_index: u16) -> FileHeader {
    FileHeader {
        class: 2,
        data: 1,
        ei_version: 1,
        os_abi: 0,
        abi_version: 0,
        ty: if layout.args.pie {
            FILE_TYPE_SHARED_OBJECT
        } else {
            FILE_TYPE_EXECUTABLE
        },
        machine: MACHINE_X86_64,
        e_version: 1,
        entry_point: layout.entry_address,
        program_header_offset: PHEADER_OFFSET,
        section_header_offset: (FILE_HEADER_SIZE + PROGRAM_HEADER_SIZE
            * header_info.num_active_segments) as u64,
        flags: 0,
        ehsize: FILE_HEADER_SIZE,
        program_header_entry_size: PROGRAM_HEADER_SIZE,
        program_header_num: header_info.num_active_segments,
        section_header_entry_size: SECTION_HEADER_SIZE,
        section_header_num: header_info.num_output_sections_with_content,
        section_names_index: names_index,
    }
}

impl FileHeader {
    /// The ELF header of the output: a 64-bit little-endian x86-64
    /// executable, or a shared object if the output is a PIE. Fails only
    /// where the section name table is not part of the output.
    pub fn build(layout: &Layout, header_info: &HeaderInfo) -> (r: Result<FileHeader, EmitError>)
        ensures
            match layout.index_of(SHSTRTAB) {
                Some(index) => r == Ok::<FileHeader, EmitError>(
                    file_header_of(layout, *header_info, index),
                ),
                None => r == Err::<FileHeader, EmitError>(EmitError::MissingSectionNames),
            },
    {
        let names_index: u16 = match layout.output_index_of_section(SHSTRTAB) {
            Some(index) => index,
            None => {
                return Err(EmitError::MissingSectionNames);
            },
        };
        let ty: u16 = if layout.args.pie {
            FILE_TYPE_SHARED_OBJECT
        } else {
            FILE_TYPE_EXECUTABLE
        };
        assert(PROGRAM_HEADER_SIZE * header_info.num_active_segments <= 0x38 * 0xffff)
            by (nonlinear_arith)
            requires
                PROGRAM_HEADER_SIZE == 0x38,
                header_info.num_active_segments <= 0xffff,
        ;
        let program_headers_size: u64 = PROGRAM_HEADER_SIZE as u64
            * header_info.num_active_segments as u64;
        Ok(
            FileHeader {
                class: 2,
                data: 1,
                ei_version: 1,
                os_abi: 0,
                abi_version: 0,
                ty,
                machine: MACHINE_X86_64,
                e_version: 1,
                entry_point: layout.entry_address,
                program_header_offset: PHEADER_OFFSET,
                section_header_offset: FILE_HEADER_SIZE as u64 + program_headers_size,
                flags: 0,
                ehsize: FILE_HEADER_SIZE,
                program_header_entry_size: PROGRAM_HEADER_SIZE,
                program_header_num: header_info.num_active_segments,
                section_header_entry_size: SECTION_HEADER_SIZE,
                section_header_num: header_info.num_output_sections_with_content,
                section_names_index: names_index,
            },
        )
    }
}

impl Layout {
    /// Whether the section at position `k` of the header order is emitted.
    pub open spec fn emitted(&self, k: int) -> bool {
        self.index_of(self.section_order@[k]).is_some()
    }

    /// The length of the name of the section at position `k` of the header order.
    pub open spec fn name_len(&self, k: int) -> int {
        self.sections@[self.section_order@[k] as int].name@.len() as int
    }

    /// The number of emitted sections among the first `n` of the header order.
    pub open spec fn emitted_count(&self, n: int) -> int
        decreases n,
    {
        if n <= 0 {
            0
        } else {
            self.emitted_count(n - 1) + if self.emitted(n - 1) {
                1int
            } else {
                0int
            }
        }
    }

    /// Where in the name table the name of the section at position `n`
    /// starts: after the names of the emitted sections before it, each
    /// followed by a zero byte.
    pub open spec fn name_offset_at(&self, n: int) -> int
        decreases n,
    {
        if n <= 0 {
            0
        } else {
            self.name_offset_at(n - 1) + if self.emitted(n - 1) {
                self.name_len(n - 1) + 1
            } else {
                0int
            }
        }
    }

    /// Whether the name of every emitted section among the first `n` ends
    /// at an offset that fits in 32 bits.
    pub open spec fn names_fit(&self, n: int) -> bool
        decreases n,
    {
        n <= 0 || (self.names_fit(n - 1) && self.name_offset_at(n) <= u32::MAX)
    }

    /// The header of the section at position `k` of the header order.
    pub open spec fn section_header_at(&self, k: int) -> SectionHeader {
        let id = self.section_order@[k] as int;
        let details = self.sections@[id];
        let placed = self.section_layouts@[id];
        SectionHeader {
            name: self.name_offset_at(k) as u32,
            ty: details.ty,
            flags: details.section_flags,
            address: placed.mem_offset,
            offset: placed.file_offset as u64,
            size: if details.ty == SHT_NULL {
                0
            } else {
                placed.mem_size
            },
            link: match details.link {
                Some(target) => match self.index_of(target) {
                    Some(index) => index as u32,
                    None => 0,
                },
                None => 0,
            },
            info: details.info,
            alignment: if details.ty == SHT_NULL {
                0
            } else {
                placed.alignment
            },
            entsize: details.element_size,
        }
    }

    /// The headers of the emitted sections among the first `n` of the
    /// header order, one after the other.
    pub open spec fn section_headers_bytes(&self, n: int) -> Seq<u8>
        decreases n,
    {
        if n <= 0 {
            Seq::<u8>::empty()
        } else if self.emitted(n - 1) {
            self.section_headers_bytes(n - 1) + self.section_header_at(n - 1).encoding()
        } else {
            self.section_headers_bytes(n - 1)
        }
    }

    /// The names of the emitted sections among the first `n` of the header
    /// order, each followed by a zero byte.
    pub open spec fn section_names_bytes(&self, n: int) -> Seq<u8>
        decreases n,
    {
        if n <= 0 {
            Seq::<u8>::empty()
        } else if self.emitted(n - 1) {
            self.section_names_bytes(n - 1) + self.sections@[self.section_order@[n
                - 1] as int].name@ + seq![0u8]
        } else {
            self.section_names_bytes(n - 1)
        }
    }
}

/// If the names of the first `n` sections fit, so do those of the first `i`.
pub proof fn lemma_names_fit_prefix(layout: &Layout, i: int, n: int)
    requires
        0 <= i <= n,
        layout.names_fit(n),
    ensures
        layout.names_fit(i),
    decreases n - i,
{
    if i < n {
        lemma_names_fit_prefix(layout, i + 1, n);
    }
}

/// The section header table holds one header of fixed size per emitted section.
pub proof fn lemma_section_headers_len(layout: &Layout, n: int)
    requires
        0 <= n,
    ensures
        layout.section_headers_bytes(n).len() == SECTION_HEADER_SIZE * layout.emitted_count(n),
        layout.emitted_count(n) >= 0,
    decreases n,
{
    if n > 0 {
        lemma_section_headers_len(layout, n - 1);
    }
}

/// Writes the header of every emitted section, in header order. The window
/// must have room for exactly these headers.
pub fn write_section_headers(out: &mut Window, layout: &Layout) -> (r: Result<(), EmitError>)
    requires
        layout.wf(),
        old(out).wf(),
    ensures
        final(out).wf(),
        final(out).capacity == old(out).capacity,
        r.is_ok() <==> layout.names_fit(layout.section_order@.len() as int) && old(out).residual()
            == layout.section_headers_bytes(layout.section_order@.len() as int).len(),
        r.is_ok() ==> final(out).data@ == old(out).data@ + layout.section_headers_bytes(
            layout.section_order@.len() as int,
        ) && final(out).residual() == 0,
        !layout.names_fit(layout.section_order@.len() as int) ==> r == Err::<(), EmitError>(
            EmitError::FieldOverflow,
        ),
        r.is_ok() ==> old(out).residual() == SECTION_HEADER_SIZE * layout.emitted_count(
            layout.section_order@.len() as int,
        ),
        layout.names_fit(layout.section_order@.len() as int) ==> (r.is_ok() <==> old(out).residual() == SECTION_HEADER_SIZE * layout.emitted_count(
            layout.section_order@.len() as int,
        )),
        layout.names_fit(layout.section_order@.len() as int) && r.is_err() ==> r == Err::<
            (),
            EmitError,
        >(EmitError::SectionHeaderCount),
{
    let mut table: Vec<u8> = Vec::new();
    let mut name_offset: u32 = 0;
    let mut i: usize = 0;
    let n: usize = layout.section_order.len();
    while i < n
        invariant
            layout.wf(),
            n == layout.section_order@.len(),
            i <= n,
            *out == *old(out),
            out.wf(),
            layout.names_fit(i as int),
            name_offset == layout.name_offset_at(i as int),
            table@ == layout.section_headers_bytes(i as int),
        decreases n - i,
    {
        let section_id: usize = layout.section_order[i];
        let details = &layout.sections[section_id];
        if details.output_index.is_some() {
            let placed = &layout.section_layouts[section_id];
            let mut size: u64 = 0;
            let mut alignment: u64 = 0;
            if details.ty != SHT_NULL {
                size = placed.mem_size;
                alignment = placed.alignment;
            }
            let mut link: u32 = 0;
            if let Some(target) = details.link {
                if let Some(index) = layout.output_index_of_section(target) {
                    link = index as u32;
                }
            }
            let header = SectionHeader {
                name: name_offset,
                ty: details.ty,
                flags: details.section_flags,
                address: placed.mem_offset,
                offset: placed.file_offset as u64,
                size,
                link,
                info: details.info,
                alignment,
                entsize: details.element_size,
            };
            let bytes = header.encode();
            append_bytes(&mut table, &bytes);
            let len: usize = details.name.len();
            if len >= 0xffff_ffff || len as u32 + 1 > 0xffff_ffff - name_offset {
                proof {
                    assert(!layout.names_fit(i as int + 1));
                    if layout.names_fit(n as int) {
                        lemma_names_fit_prefix(layout, i as int + 1, n as int);
                    }
                }
                return Err(EmitError::FieldOverflow);
            }
            name_offset = name_offset + (len as u32 + 1);
        }
        i += 1;
    }
    proof {
        lemma_section_headers_len(layout, n as int);
    }
    if table.len() != out.remaining() {
        return Err(EmitError::SectionHeaderCount);
    }
    let done = out.emit(&table);
    assert(done);
    Ok(())
}

/// Writes the name of every emitted section, in header order, each
/// followed by a zero byte.
pub fn write_section_header_strings(out: &mut Window, layout: &Layout) -> (r: Result<
    (),
    EmitError,
>)
    requires
        layout.wf(),
        old(out).wf(),
    ensures
        final(out).wf(),
        final(out).capacity == old(out).capacity,
        r.is_ok() <==> layout.section_names_bytes(layout.section_order@.len() as int).len() <= old(out).residual(),
        r.is_ok() ==> final(out).data@ == old(out).data@ + layout.section_names_bytes(
            layout.section_order@.len() as int,
        ),
        r.is_err() ==> r == Err::<(), EmitError>(EmitError::SectionTooSmall),
{
    let n: usize = layout.section_order.len();
    let mut i: usize = 0;
    let ghost start = out.data@;
    while i < n
        invariant
            layout.wf(),
            n == layout.section_order@.len(),
            i <= n,
            out.wf(),
            out.capacity == old(out).capacity,
            start == old(out).data@,
            out.data@ == start + layout.section_names_bytes(i as int),
        decreases n - i,
    {
        let section_id: usize = layout.section_order[i];
        let details = &layout.sections[section_id];
        if details.output_index.is_some() {
            let zero: Vec<u8> = vec![0u8];
            let ghost before = out.data@;
            if !out.emit(&details.name) || !out.emit(&zero) {
                proof {
                    lemma_names_grow(layout, i as int + 1, n as int);
                    assert(layout.section_names_bytes(i as int + 1).len() == before.len()
                        - start.len() + details.name@.len() + 1);
                }
                return Err(EmitError::SectionTooSmall);
            }
            assert(zero@ =~= seq![0u8]);
            assert(out.data@ =~= start + layout.section_names_bytes(i as int + 1));
        }
        i += 1;
    }
    Ok(())
}

/// The name table only grows with the number of sections.
pub proof fn lemma_names_grow(layout: &Layout, i: int, n: int)
    requires
        0 <= i <= n,
    ensures
        layout.section_names_bytes(i).len() <= layout.section_names_bytes(n).len(),
    decreases n - i,
{
    if i < n {
        lemma_names_grow(layout, i + 1, n);
    }
}

/// The file offset of a section, as the dynamic table gives it.
pub open spec fn offset_of_section(layout: &Layout, id: usize) -> u64 {
    layout.section_layouts@[id as int].file_offset as u64
}

/// The file size of a section, as the dynamic table gives it.
pub open spec fn size_of_section(layout: &Layout, id: usize) -> u64 {
    layout.section_layouts@[id as int].file_size as u64
}

/// An entry of the dynamic table.
pub open spec fn dynamic(tag: u64, value: u64) -> DynamicEntry {
    DynamicEntry { tag, value }
}

/// The entries of the dynamic table of a position-independent executable.
pub open spec fn dynamic_entries(layout: &Layout) -> Seq<DynamicEntry> {
    seq![
        dynamic(DT_INIT, offset_of_section(layout, INIT)),
        dynamic(DT_FINI, offset_of_section(layout, FINI)),
        dynamic(DT_INIT_ARRAY, offset_of_section(layout, INIT_ARRAY)),
        dynamic(DT_INIT_ARRAYSZ, size_of_section(layout, INIT_ARRAY)),
        dynamic(DT_FINI_ARRAY, offset_of_section(layout, FINI_ARRAY)),
        dynamic(DT_FINI_ARRAYSZ, size_of_section(layout, FINI_ARRAY)),
        dynamic(DT_STRTAB, offset_of_section(layout, DYNSTR)),
        dynamic(DT_STRSZ, size_of_section(layout, DYNSTR)),
        dynamic(DT_SYMTAB, offset_of_section(layout, DYNSYM)),
        dynamic(DT_SYMENT, SYMTAB_ENTRY_SIZE as u64),
        dynamic(DT_DEBUG, 0),
        dynamic(DT_RELA, offset_of_section(layout, RELA_DYN)),
        dynamic(DT_RELASZ, size_of_section(layout, RELA_DYN)),
        dynamic(DT_RELAENT, RELA_ENTRY_SIZE as u64),
        dynamic(DT_RELACOUNT, (size_of_section(layout, RELA_DYN) / (RELA_ENTRY_SIZE as u64)) as u64),
        dynamic(DT_FLAGS, DF_BIND_NOW),
        dynamic(DT_FLAGS_1, DF_1_PIE_NOW),
        dynamic(DT_NULL, 0),
    ]
}

/// The first `n` of `entries` as bytes, one after the other.
pub open spec fn dynamic_bytes_of(entries: Seq<DynamicEntry>, n: int) -> Seq<u8>
    decreases n,
{
    if n <= 0 {
        Seq::<u8>::empty()
    } else {
        dynamic_bytes_of(entries, n - 1) + entries[n - 1].encoding()
    }
}

/// Takes the next slot of the dynamic table and fills it.
pub fn write_dynamic_entry(out: &mut Window, tag: u64, value: u64) -> (r: Result<(), EmitError>)
    requires
        old(out).wf(),
    ensures
        final(out).wf(),
        final(out).capacity == old(out).capacity,
        old(out).residual() >= DYNAMIC_ENTRY_SIZE ==> r.is_ok() && final(out).data@ == old(out).data@ + dynamic(tag, value).encoding() && final(out).data@.len() == old(out).data@.len()
            + DYNAMIC_ENTRY_SIZE,
        old(out).residual() < DYNAMIC_ENTRY_SIZE ==> r == Err::<(), EmitError>(
            EmitError::DynamicEntryCount,
        ) && final(out).data@ == old(out).data@,
{
    let entry = DynamicEntry { tag, value };
    let bytes = entry.encode();
    if out.emit(&bytes) {
        Ok(())
    } else {
        Err(EmitError::DynamicEntryCount)
    }
}

/// The dynamic table has a fixed number of entries and ends with the null entry.
pub proof fn lemma_dynamic_table_shape(layout: &Layout)
    ensures
        dynamic_entries(layout).len() == NUM_DYNAMIC_ENTRIES,
        dynamic_entries(layout).last() == dynamic(DT_NULL, 0),
{
}

} // verus!
