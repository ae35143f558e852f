//! Emits what the linker itself contributes: the headers, the name table of
//! the sections, the GOT entries and symbols that it defines, the merged
//! strings, its identity and the dynamic table.

use vstd::prelude::*;
use crate::bytes::{append_zeros, zeros};
use crate::eh_frame_hdr::{eh_frame_hdr_written, write_eh_frame_hdr};
use crate::elf::{
    DynamicEntry, FileHeader, SymtabEntry, GLOBAL_SYMBOL_INFO, DF_1_PIE_NOW, DF_BIND_NOW, DT_DEBUG, DT_FINI,
    DT_FINI_ARRAY, DT_FINI_ARRAYSZ, DT_FLAGS, DT_FLAGS_1, DT_INIT, DT_INIT_ARRAY, DT_INIT_ARRAYSZ,
    DT_NULL, DT_RELA, DT_RELACOUNT, DT_RELAENT, DT_RELASZ, DT_STRSZ, DT_STRTAB, DT_SYMENT,
    DT_SYMTAB, DYNAMIC_ENTRY_SIZE, FILE_HEADER_SIZE, GOT_ENTRY_SIZE, NUM_DYNAMIC_ENTRIES,
    PROGRAM_HEADER_SIZE, RELA_ENTRY_SIZE, SECTION_HEADER_SIZE, SYMTAB_ENTRY_SIZE,
};
use crate::error::EmitError;
use crate::headers::{
    dynamic_bytes_of, dynamic_entries, file_header_of, lemma_program_headers_len,
    program_headers_bytes, write_dynamic_entry, write_program_headers,
    write_section_header_strings, write_section_headers, ProgramHeaderWriter,
};
use crate::layout::{
    leftover, Buffers, Filled, FileLayout, InternalLayout, Layout, Resolution, SymbolId,
    SymbolResolution, TargetResolutionKind, DYNSTR, DYNSYM, FINI, FINI_ARRAY, HEADERS, INIT,
    INIT_ARRAY, RELA_DYN, SHSTRTAB,
};
use crate::object_writer::{
    lemma_same_leftover, object_room, object_state, regular_data, same_room, symbols_resolved, symtab_room,
    symtab_state,
};
use crate::plt_got::{
    got_plt_of, got_plt_room, resolved, GotPlt, GotPltRoom, PltGotWriter, RelocationWriter,
};
use crate::symtab::{entry_added, symtab_used_up, SymbolTableWriter, SymtabRoom, SymtabState};
use crate::window::Window;

verus! {

/// The room of each of a list of windows.
pub open spec fn regular_room(windows: Seq<Window>) -> Seq<int> {
    Seq::new(windows.len(), |k: int| windows[k].capacity as int)
}

/// What appending the strings from position `from` on makes of a window
/// that holds `data` and has room for `capacity` bytes in all.
pub open spec fn strings_written(strings: Seq<Vec<u8>>, from: int, data: Seq<u8>, capacity: int) -> Result<
    Seq<u8>,
    EmitError,
>
    decreases strings.len() - from,
{
    if from < 0 || from >= strings.len() {
        Ok(data)
    } else if capacity - data.len() < strings[from]@.len() {
        Err(EmitError::SectionTooSmall)
    } else {
        strings_written(strings, from + 1, data + strings[from]@, capacity)
    }
}

fn write_strings(strings: &Vec<Vec<u8>>, window: &mut Window) -> (r: Result<(), EmitError>)
    requires
        old(window).wf(),
    ensures
        final(window).wf(),
        final(window).capacity == old(window).capacity,
        match strings_written(strings@, 0, old(window).data@, old(window).capacity as int) {
            Err(e) => r == Err::<(), EmitError>(e),
            Ok(data) => r.is_ok() && final(window).data@ == data,
        },
{
    let mut j: usize = 0;
    while j < strings.len()
        invariant
            j <= strings@.len(),
            window.wf(),
            window.capacity == old(window).capacity,
            strings_written(strings@, 0, old(window).data@, old(window).capacity as int)
                == strings_written(strings@, j as int, window.data@, old(window).capacity as int),
        decreases strings@.len() - j,
    {
        if !window.emit(&strings[j]) {
            return Err(EmitError::SectionTooSmall);
        }
        j += 1;
    }
    Ok(())
}

/// The resolution that puts the TLS module index of the executable in a GOT slot.
pub open spec fn tls_module_slot(got_address: u64) -> Resolution {
    Resolution {
        address: 1,
        got_address: Some(got_address),
        plt_address: None,
        kind: TargetResolutionKind::Got,
    }
}

/// The resolution that puts offset zero in the GOT slot after the one at
/// `got_address`.
pub open spec fn tls_offset_slot(got_address: u64) -> Resolution {
    Resolution {
        address: 0,
        got_address: Some(
            if got_address > u64::MAX - GOT_ENTRY_SIZE {
                u64::MAX
            } else {
                (got_address + GOT_ENTRY_SIZE) as u64
            },
        ),
        plt_address: None,
        kind: TargetResolutionKind::Got,
    }
}

/// What the windows that the linker's own contribution writes to hold.
pub struct InternalState {
    pub file_headers: Seq<u8>,
    pub shstrtab: Seq<u8>,
    pub eh_frame_hdr: Seq<u8>,
    pub dynamic: Seq<u8>,
    pub got_plt: GotPlt,
    pub symtab: SymtabState,
    pub regular: Seq<Seq<u8>>,
}

/// Whether a set of windows holds what `state` says, with the windows
/// that the linker's own contribution leaves alone empty-handed.
pub open spec fn internal_holds(buffers: Buffers, state: InternalState) -> bool {
    &&& buffers.file_headers.data@ == state.file_headers
    &&& buffers.shstrtab.data@ == state.shstrtab
    &&& buffers.eh_frame_hdr.data@ == state.eh_frame_hdr
    &&& buffers.dynamic.data@ == state.dynamic
    &&& buffers.got.data@ == state.got_plt.got
    &&& buffers.plt.data@ == state.got_plt.plt
    &&& buffers.rela_dyn.data@ == state.got_plt.rela_dyn
    &&& buffers.symtab_locals.data@ == state.symtab.locals
    &&& buffers.symtab_globals.data@ == state.symtab.globals
    &&& buffers.symtab_strings.data@ == state.symtab.strings
    &&& regular_data(buffers.regular@) == state.regular
}

/// What writing the names of the emitted sections makes of a window that
/// holds `data` and has room for `capacity` bytes in all.
pub open spec fn names_written(layout: &Layout, data: Seq<u8>, capacity: int) -> Result<
    Seq<u8>,
    EmitError,
> {
    let names = layout.section_names_bytes(layout.section_order@.len() as int);
    if names.len() > capacity - data.len() {
        Err(EmitError::SectionTooSmall)
    } else {
        Ok(data + names)
    }
}

/// What writing the dynamic table makes of a window that holds `data`
/// and has room for `capacity` bytes in all: the room must be exactly that
/// of the table.
pub open spec fn dynamic_written(layout: &Layout, data: Seq<u8>, capacity: int) -> Result<
    Seq<u8>,
    EmitError,
> {
    if capacity - data.len() != NUM_DYNAMIC_ENTRIES * DYNAMIC_ENTRY_SIZE {
        Err(EmitError::DynamicEntryCount)
    } else {
        Ok(data + dynamic_bytes_of(dynamic_entries(layout), NUM_DYNAMIC_ENTRIES as int))
    }
}

/// The symbol that every symbol table starts with.
pub open spec fn null_symbol() -> SymtabEntry {
    SymtabEntry { name: 0, info: 0, other: 0, shndx: 0, value: 0, size: 0 }
}

/// The room of the GOT, PLT and `.rela.dyn` windows of the linker's own
/// contribution.
pub open spec fn internal_room(got: Window, plt: Window, writer: RelocationWriter, layout: &Layout) -> GotPltRoom {
    GotPltRoom {
        got: got.capacity as int,
        plt: plt.capacity as int,
        rela_dyn: writer.rela_dyn.capacity as int,
        tls_start: layout.tls_start,
        tls_end: layout.tls_end,
        active: writer.is_active,
    }
}

impl InternalLayout {
    /// Writes the dynamic table of a position-independent executable. The
    /// window must have room for exactly the entries of the table.
    pub fn write_dynamic_entries(&self, out: &mut Window, layout: &Layout) -> (r: Result<
        (),
        EmitError,
    >)
        requires
            layout.wf(),
            old(out).wf(),
        ensures
            final(out).wf(),
            final(out).capacity == old(out).capacity,
            r.is_ok() <==> old(out).residual() == NUM_DYNAMIC_ENTRIES * DYNAMIC_ENTRY_SIZE,
            r.is_err() ==> r == Err::<(), EmitError>(EmitError::DynamicEntryCount) && final(out).data@ == old(out).data@,
            r.is_ok() ==> final(out).residual() == 0 && final(out).data@ == old(out).data@
                + dynamic_bytes_of(dynamic_entries(layout), NUM_DYNAMIC_ENTRIES as int),
    {
        if out.remaining() != NUM_DYNAMIC_ENTRIES * DYNAMIC_ENTRY_SIZE {
            return Err(EmitError::DynamicEntryCount);
        }
        let rela_dyn_size: u64 = layout.section_layouts[RELA_DYN].file_size as u64;
        let entries: Vec<DynamicEntry> = vec![
            DynamicEntry { tag: DT_INIT, value: layout.section_layouts[INIT].file_offset as u64 },
            DynamicEntry { tag: DT_FINI, value: layout.section_layouts[FINI].file_offset as u64 },
            DynamicEntry {
                tag: DT_INIT_ARRAY,
                value: layout.section_layouts[INIT_ARRAY].file_offset as u64,
            },
            DynamicEntry {
                tag: DT_INIT_ARRAYSZ,
                value: layout.section_layouts[INIT_ARRAY].file_size as u64,
            },
            DynamicEntry {
                tag: DT_FINI_ARRAY,
                value: layout.section_layouts[FINI_ARRAY].file_offset as u64,
            },
            DynamicEntry {
                tag: DT_FINI_ARRAYSZ,
                value: layout.section_layouts[FINI_ARRAY].file_size as u64,
            },
            DynamicEntry { tag: DT_STRTAB, value: layout.section_layouts[DYNSTR].file_offset as u64 },
            DynamicEntry { tag: DT_STRSZ, value: layout.section_layouts[DYNSTR].file_size as u64 },
            DynamicEntry { tag: DT_SYMTAB, value: layout.section_layouts[DYNSYM].file_offset as u64 },
            DynamicEntry { tag: DT_SYMENT, value: SYMTAB_ENTRY_SIZE as u64 },
            DynamicEntry { tag: DT_DEBUG, value: 0 },
            DynamicEntry { tag: DT_RELA, value: layout.section_layouts[RELA_DYN].file_offset as u64 },
            DynamicEntry { tag: DT_RELASZ, value: rela_dyn_size },
            DynamicEntry { tag: DT_RELAENT, value: RELA_ENTRY_SIZE as u64 },
            DynamicEntry { tag: DT_RELACOUNT, value: rela_dyn_size / (RELA_ENTRY_SIZE as u64) },
            DynamicEntry { tag: DT_FLAGS, value: DF_BIND_NOW },
            DynamicEntry { tag: DT_FLAGS_1, value: DF_1_PIE_NOW },
            DynamicEntry { tag: DT_NULL, value: 0 },
        ];
        assert(entries@ =~= dynamic_entries(layout));
        let mut i: usize = 0;
        while i < entries.len()
            invariant
                i <= entries@.len(),
                entries@.len() == NUM_DYNAMIC_ENTRIES,
                out.wf(),
                out.capacity == old(out).capacity,
                old(out).residual() == NUM_DYNAMIC_ENTRIES * DYNAMIC_ENTRY_SIZE,
                out.data@.len() == old(out).data@.len() + DYNAMIC_ENTRY_SIZE * i,
                out.data@ == old(out).data@ + dynamic_bytes_of(entries@, i as int),
            decreases entries@.len() - i,
        {
            let done = write_dynamic_entry(out, entries[i].tag, entries[i].value);
            assert(done.is_ok());
            assert(out.data@ =~= old(out).data@ + dynamic_bytes_of(entries@, i as int + 1));
            i += 1;
        }
        Ok(())
    }

    /// What writing the merged strings at position `k` makes of the windows
    /// of ordinary sections: the strings are appended, one after the other,
    /// to the window that the merged strings name, unless there are none.
    pub open spec fn merged_written(&self, k: int, regular: Seq<Seq<u8>>, room: Seq<int>) -> Result<
        Seq<Seq<u8>>,
        EmitError,
    > {
        let merged = self.merged_strings@[k];
        if merged.len == 0 {
            Ok(regular)
        } else if merged.part >= regular.len() {
            Err(EmitError::BadIndex)
        } else {
            match strings_written(
                merged.strings@,
                0,
                regular[merged.part as int],
                room[merged.part as int],
            ) {
                Err(e) => Err(e),
                Ok(data) => Ok(regular.update(merged.part as int, data)),
            }
        }
    }

    /// What writing the merged strings from position `from` on makes of the
    /// windows of ordinary sections.
    pub open spec fn all_merged_written(
        &self,
        from: int,
        regular: Seq<Seq<u8>>,
        room: Seq<int>,
    ) -> Result<Seq<Seq<u8>>, EmitError>
        decreases self.merged_strings@.len() - from,
    {
        if from < 0 || from >= self.merged_strings@.len() {
            Ok(regular)
        } else {
            match self.merged_written(from, regular, room) {
                Err(e) => Err(e),
                Ok(next) => self.all_merged_written(from + 1, next, room),
            }
        }
    }

    /// What writing all merged strings and then the linker's identity
    /// makes of the windows of ordinary sections.
    pub open spec fn strings_and_identity(&self, regular: Seq<Seq<u8>>, room: Seq<int>) -> Result<
        Seq<Seq<u8>>,
        EmitError,
    > {
        match self.all_merged_written(0, regular, room) {
            Err(e) => Err(e),
            Ok(merged) => if self.comment_part >= merged.len() {
                Err(EmitError::BadIndex)
            } else if room[self.comment_part as int] - merged[self.comment_part as int].len()
                < self.identity@.len() {
                Err(EmitError::SectionTooSmall)
            } else {
                Ok(
                    merged.update(
                        self.comment_part as int,
                        merged[self.comment_part as int] + self.identity@,
                    ),
                )
            },
        }
    }

    /// Writes the merged strings of every section that has any, one after
    /// the other, and the linker's identity into the window of `.comment`.
    pub fn write_merged_strings(&self, regular: &mut Vec<Window>) -> (r: Result<(), EmitError>)
        requires
            forall|k: int| 0 <= k < old(regular)@.len() ==> (#[trigger] old(regular)@[k]).wf(),
        ensures
            final(regular)@.len() == old(regular)@.len(),
            forall|k: int|
                0 <= k < final(regular)@.len() ==> (#[trigger] final(regular)@[k]).wf() && final(regular)@[k].capacity == old(regular)@[k].capacity,
            match self.strings_and_identity(
                regular_data(old(regular)@),
                regular_room(old(regular)@),
            ) {
                Err(e) => r == Err::<(), EmitError>(e),
                Ok(data) => r.is_ok() && regular_data(final(regular)@) == data,
            },
    {
        let ghost start = regular_data(regular@);
        let ghost room = regular_room(regular@);
        let mut i: usize = 0;
        while i < self.merged_strings.len()
            invariant
                i <= self.merged_strings@.len(),
                regular@.len() == old(regular)@.len(),
                start == regular_data(old(regular)@),
                room == regular_room(old(regular)@),
                forall|k: int|
                    0 <= k < regular@.len() ==> (#[trigger] regular@[k]).wf() && regular@[k].capacity
                        == old(regular)@[k].capacity,
                self.all_merged_written(0, start, room) == self.all_merged_written(
                    i as int,
                    regular_data(regular@),
                    room,
                ),
            decreases self.merged_strings@.len() - i,
        {
            let merged = &self.merged_strings[i];
            if merged.len > 0 {
                if merged.part >= regular.len() {
                    return Err(EmitError::BadIndex);
                }
                let part: usize = merged.part;
                let ghost here = regular_data(regular@);
                assert(here[part as int] == regular@[part as int].data@);
                assert(room[part as int] == regular@[part as int].capacity);
                let mut window = Window::new(0);
                std::mem::swap(&mut window, &mut regular[part]);
                let outcome = write_strings(&merged.strings, &mut window);
                let ghost filled = window.data@;
                regular.set(part, window);
                match outcome {
                    Err(e) => {
                        return Err(e);
                    },
                    Ok(()) => {},
                }
                assert(regular_data(regular@) =~= here.update(part as int, filled));
            }
            i += 1;
        }
        if self.comment_part >= regular.len() {
            return Err(EmitError::BadIndex);
        }
        let part: usize = self.comment_part;
        let ghost merged = regular_data(regular@);
        assert(merged[part as int] == regular@[part as int].data@);
        assert(room[part as int] == regular@[part as int].capacity);
        let mut window = Window::new(0);
        std::mem::swap(&mut window, &mut regular[part]);
        let done = window.emit(&self.identity);
        let ghost filled = window.data@;
        regular.set(part, window);
        if !done {
            return Err(EmitError::SectionTooSmall);
        }
        assert(regular_data(regular@) =~= merged.update(part as int, filled));
        Ok(())
    }

    /// The resolution that stands for undefined weak symbols, without its
    /// PLT address: there is no PLT entry for what does not exist.
    pub open spec fn undefined_without_plt(&self) -> Resolution {
        Resolution {
            address: self.undefined_symbol_resolution.address,
            got_address: self.undefined_symbol_resolution.got_address,
            plt_address: None,
            kind: self.undefined_symbol_resolution.kind,
        }
    }

    /// The ids of the symbols that the linker defines.
    pub open spec fn defined_ids(&self) -> Seq<SymbolId> {
        Seq::new(self.defined@.len(), |k: int| self.defined@[k].symbol_id)
    }

    /// What filling the GOT slots that belong to no input makes of the GOT
    /// and PLT: the slot that undefined weak symbols resolve to, then the pair
    /// that names the TLS module of the executable, module 1 at offset 0. No
    /// dynamic relocation is written for any of them.
    pub open spec fn own_slots(&self, got: Seq<u8>, plt: Seq<u8>, room: GotPltRoom) -> Result<
        GotPlt,
        EmitError,
    > {
        let quiet = GotPltRoom {
            got: room.got,
            plt: room.plt,
            rela_dyn: 0,
            tls_start: room.tls_start,
            tls_end: room.tls_end,
            active: false,
        };
        let start = GotPlt { got, plt, rela_dyn: Seq::<u8>::empty() };
        match resolved(start, quiet, self.undefined_without_plt()) {
            Err(e) => Err(e),
            Ok(first) => match self.tlsld_got_entry {
                None => Ok(first),
                Some(got_address) => match resolved(first, quiet, tls_module_slot(got_address)) {
                    Err(e) => Err(e),
                    Ok(second) => resolved(second, quiet, tls_offset_slot(got_address)),
                },
            },
        }
    }

    /// What the linker's own GOT and PLT entries make of the GOT, PLT and
    /// `.rela.dyn`: first the slots that belong to no input, then those of
    /// the symbols that the linker defines. Nothing may be left of the GOT and
    /// PLT windows.
    pub open spec fn got_entries(&self, layout: &Layout, s: GotPlt, room: GotPltRoom) -> Result<
        GotPlt,
        EmitError,
    > {
        match self.own_slots(s.got, s.plt, room) {
            Err(e) => Err(e),
            Ok(own) => match symbols_resolved(
                self.defined_ids(),
                layout,
                0,
                GotPlt { got: own.got, plt: own.plt, rela_dyn: s.rela_dyn },
                room,
            ) {
                Err(e) => Err(e),
                Ok(filled) => if room.got - filled.got.len() != 0 || room.plt - filled.plt.len()
                    != 0 {
                    Err(EmitError::UnusedPltGot)
                } else {
                    Ok(filled)
                },
            },
        }
    }

    /// Fills the GOT slots that belong to no input: the one that undefined
    /// weak symbols resolve to, the pair that names the TLS module of the
    /// executable (module 1, offset 0), and those of the symbols that the
    /// linker defines. None of the first three gets a PLT entry or a dynamic
    /// relocation. Fails unless the GOT and PLT windows are used up in the end.
    pub fn write_plt_got_entries(
        &self,
        got: Window,
        plt: Window,
        rela_plt: Window,
        layout: &Layout,
        relocation_writer: &mut RelocationWriter,
    ) -> (r: Result<PltGotWriter, EmitError>)
        requires
            got.wf(),
            plt.wf(),
            rela_plt.wf(),
            old(relocation_writer).wf(),
        ensures
            final(relocation_writer).wf(),
            final(relocation_writer).is_active == old(relocation_writer).is_active,
            final(relocation_writer).rela_dyn.capacity == old(relocation_writer).rela_dyn.capacity,
            match self.got_entries(
                layout,
                GotPlt { got: got.data@, plt: plt.data@, rela_dyn: old(relocation_writer).rela_dyn.data@ },
                internal_room(got, plt, *old(relocation_writer), layout),
            ) {
                Err(e) => r.is_err() && r.err() == Some(e),
                Ok(filled) => r.is_ok() && r.unwrap().wf() && r.unwrap().got.capacity
                    == got.capacity && r.unwrap().plt.capacity == plt.capacity
                    && r.unwrap().rela_plt == rela_plt && r.unwrap().got.residual() == 0
                    && r.unwrap().plt.residual() == 0 && got_plt_of(
                    r.unwrap(),
                    *final(relocation_writer),
                ) == filled,
            },
    {
        let ghost room = internal_room(got, plt, *relocation_writer, layout);
        let ghost rela_start = relocation_writer.rela_dyn.data@;
        let mut plt_got_writer = PltGotWriter::new(layout, got, plt, rela_plt);
        let undefined_symbol_resolution = Resolution {
            address: self.undefined_symbol_resolution.address,
            got_address: self.undefined_symbol_resolution.got_address,
            plt_address: None,
            kind: self.undefined_symbol_resolution.kind,
        };
        let mut disabled = RelocationWriter::disabled();
        assert(got_plt_of(plt_got_writer, disabled) == (GotPlt {
            got: got.data@,
            plt: plt.data@,
            rela_dyn: Seq::<u8>::empty(),
        }));
        match plt_got_writer.process_resolution(&undefined_symbol_resolution, &mut disabled) {
            Err(e) => {
                return Err(e);
            },
            Ok(()) => {},
        }
        if let Some(got_address) = self.tlsld_got_entry {
            let module = Resolution {
                address: 1,
                got_address: Some(got_address),
                plt_address: None,
                kind: TargetResolutionKind::Got,
            };
            match plt_got_writer.process_resolution(&module, &mut disabled) {
                Err(e) => {
                    return Err(e);
                },
                Ok(()) => {},
            }
            let second: u64 = if got_address > u64::MAX - GOT_ENTRY_SIZE as u64 {
                u64::MAX
            } else {
                got_address + GOT_ENTRY_SIZE as u64
            };
            let offset = Resolution {
                address: 0,
                got_address: Some(second),
                plt_address: None,
                kind: TargetResolutionKind::Got,
            };
            match plt_got_writer.process_resolution(&offset, &mut disabled) {
                Err(e) => {
                    return Err(e);
                },
                Ok(()) => {},
            }
        }
        let ghost own = got_plt_of(plt_got_writer, disabled);
        assert(self.own_slots(got.data@, plt.data@, room) == Ok::<GotPlt, EmitError>(own));
        let mut i: usize = 0;
        while i < self.defined.len()
            invariant
                i <= self.defined@.len(),
                plt_got_writer.wf(),
                relocation_writer.wf(),
                relocation_writer.is_active == old(relocation_writer).is_active,
                relocation_writer.rela_dyn.capacity == old(relocation_writer).rela_dyn.capacity,
                plt_got_writer.got.capacity == got.capacity,
                plt_got_writer.plt.capacity == plt.capacity,
                plt_got_writer.rela_plt == rela_plt,
                room == internal_room(got, plt, *old(relocation_writer), layout),
                rela_start == old(relocation_writer).rela_dyn.data@,
                got_plt_room(plt_got_writer, *relocation_writer) == room,
                self.own_slots(got.data@, plt.data@, room) == Ok::<GotPlt, EmitError>(own),
                symbols_resolved(
                    self.defined_ids(),
                    layout,
                    0,
                    GotPlt { got: own.got, plt: own.plt, rela_dyn: rela_start },
                    room,
                ) == symbols_resolved(
                    self.defined_ids(),
                    layout,
                    i as int,
                    got_plt_of(plt_got_writer, *relocation_writer),
                    room,
                ),
            decreases self.defined@.len() - i,
        {
            match plt_got_writer.process_symbol(
                layout,
                self.defined[i].symbol_id,
                relocation_writer,
            ) {
                Err(e) => {
                    return Err(e);
                },
                Ok(()) => {},
            }
            i += 1;
        }
        match plt_got_writer.validate_empty() {
            Err(e) => Err(e),
            Ok(()) => Ok(plt_got_writer),
        }
    }

    /// What emitting the symbol that the linker defines at position `k`
    /// makes of the symbol table: a global symbol of no type and no size,
    /// unless the symbol has no resolution or lies in the headers, which have
    /// no section header.
    pub open spec fn defined_entry(
        &self,
        layout: &Layout,
        k: int,
        s: SymtabState,
        room: SymtabRoom,
    ) -> Result<SymtabState, EmitError> {
        let defined = self.defined@[k];
        match layout.resolution_of(defined.symbol_id) {
            None => Ok(s),
            Some(resolution) => if defined.section_id == HEADERS {
                Ok(s)
            } else {
                match layout.index_of(defined.section_id) {
                    None => Err(EmitError::SymbolInUnemittedSection),
                    Some(shndx) => match resolution {
                        SymbolResolution::Dynamic => Err(EmitError::Unimplemented),
                        SymbolResolution::Resolved(res) => entry_added(
                            s,
                            room,
                            false,
                            SymtabEntry {
                                name: 0,
                                info: GLOBAL_SYMBOL_INFO,
                                other: 0,
                                shndx,
                                value: res.address,
                                size: 0,
                            },
                            layout.symbols@[defined.symbol_id as int].name@,
                        ),
                    },
                }
            },
        }
    }

    /// What emitting the symbols that the linker defines from position
    /// `from` on makes of the symbol table.
    pub open spec fn defined_entries(
        &self,
        layout: &Layout,
        from: int,
        s: SymtabState,
        room: SymtabRoom,
    ) -> Result<SymtabState, EmitError>
        decreases self.defined@.len() - from,
    {
        if from < 0 || from >= self.defined@.len() {
            Ok(s)
        } else {
            match self.defined_entry(layout, from, s, room) {
                Err(e) => Err(e),
                Ok(next) => self.defined_entries(layout, from + 1, next, room),
            }
        }
    }

    /// The linker's own symbol table: the null symbol, then the symbols
    /// that it defines, and nothing left of the windows.
    pub open spec fn symbol_table(&self, layout: &Layout, s: SymtabState, room: SymtabRoom) -> Result<
        SymtabState,
        EmitError,
    > {
        match entry_added(s, room, true, null_symbol(), Seq::<u8>::empty()) {
            Err(e) => Err(e),
            Ok(first) => match self.defined_entries(layout, 0, first, room) {
                Err(e) => Err(e),
                Ok(done) => symtab_used_up(done, room),
            },
        }
    }

    fn write_defined_entry(
        &self,
        k: usize,
        symbol_writer: &mut SymbolTableWriter,
        layout: &Layout,
    ) -> (r: Result<(), EmitError>)
        requires
            k < self.defined@.len(),
            old(symbol_writer).wf(),
        ensures
            final(symbol_writer).wf(),
            final(symbol_writer).room() == old(symbol_writer).room(),
            match self.defined_entry(
                layout,
                k as int,
                old(symbol_writer).state(),
                old(symbol_writer).room(),
            ) {
                Err(e) => r == Err::<(), EmitError>(e),
                Ok(next) => r.is_ok() && final(symbol_writer).state() == next,
            },
    {
        let defined = &self.defined[k];
        let resolution = match layout.global_symbol_resolution(defined.symbol_id) {
            None => {
                return Ok(());
            },
            Some(resolution) => resolution,
        };
        if defined.section_id == HEADERS {
            return Ok(());
        }
        let shndx: u16 = match layout.output_index_of_section(defined.section_id) {
            None => {
                return Err(EmitError::SymbolInUnemittedSection);
            },
            Some(index) => index,
        };
        let address: u64 = match resolution {
            SymbolResolution::Resolved(res) => res.address,
            SymbolResolution::Dynamic => {
                return Err(EmitError::Unimplemented);
            },
        };
        let entry = SymtabEntry {
            name: 0,
            info: GLOBAL_SYMBOL_INFO,
            other: 0,
            shndx,
            value: address,
            size: 0,
        };
        symbol_writer.add_entry(false, &entry, &layout.symbols[defined.symbol_id].name)
    }

    /// Writes the null symbol that every symbol table starts with, then one
    /// global symbol for each symbol that the linker defines in an emitted
    /// section. Symbols of the headers section, which has no section header,
    /// are left out. Fails unless all three windows are used up in the end.
    pub fn write_symbol_table_entries(
        &self,
        local_entries: Window,
        global_entries: Window,
        strings: Window,
        layout: &Layout,
    ) -> (r: Result<SymbolTableWriter, EmitError>)
        requires
            local_entries.wf(),
            global_entries.wf(),
            strings.wf(),
        ensures
            match self.symbol_table(
                layout,
                SymtabState {
                    string_offset: self.strings_offset_start as int,
                    locals: local_entries.data@,
                    globals: global_entries.data@,
                    strings: strings.data@,
                },
                SymtabRoom {
                    locals: local_entries.capacity as int,
                    globals: global_entries.capacity as int,
                    strings: strings.capacity as int,
                },
            ) {
                Err(e) => r.is_err() && r.err() == Some(e),
                Ok(done) => r.is_ok() && r.unwrap().wf() && r.unwrap().state() == done
                    && r.unwrap().room() == (SymtabRoom {
                    locals: local_entries.capacity as int,
                    globals: global_entries.capacity as int,
                    strings: strings.capacity as int,
                }) && r.unwrap().local_entries.residual() == 0
                    && r.unwrap().global_entries.residual() == 0 && r.unwrap().strings.residual()
                    == 0,
            },
    {
        let mut symbol_writer = SymbolTableWriter::new(
            self.strings_offset_start,
            local_entries,
            global_entries,
            strings,
        );
        let ghost start = symbol_writer.state();
        let ghost room = symbol_writer.room();
        let no_name: Vec<u8> = Vec::new();
        let null = SymtabEntry { name: 0, info: 0, other: 0, shndx: 0, value: 0, size: 0 };
        assert(no_name@ =~= Seq::<u8>::empty());
        match symbol_writer.add_entry(true, &null, &no_name) {
            Err(e) => {
                return Err(e);
            },
            Ok(()) => {},
        }
        let ghost first = symbol_writer.state();
        let mut i: usize = 0;
        while i < self.defined.len()
            invariant
                i <= self.defined@.len(),
                symbol_writer.wf(),
                symbol_writer.room() == room,
                room == (SymtabRoom {
                    locals: local_entries.capacity as int,
                    globals: global_entries.capacity as int,
                    strings: strings.capacity as int,
                }),
                start == (SymtabState {
                    string_offset: self.strings_offset_start as int,
                    locals: local_entries.data@,
                    globals: global_entries.data@,
                    strings: strings.data@,
                }),
                entry_added(start, room, true, null_symbol(), Seq::<u8>::empty()) == Ok::<
                    SymtabState,
                    EmitError,
                >(first),
                self.defined_entries(layout, 0, first, room) == self.defined_entries(
                    layout,
                    i as int,
                    symbol_writer.state(),
                    room,
                ),
            decreases self.defined@.len() - i,
        {
            match self.write_defined_entry(i, &mut symbol_writer, layout) {
                Err(e) => {
                    return Err(e);
                },
                Ok(()) => {},
            }
            i += 1;
        }
        match symbol_writer.check_exhausted() {
            Err(e) => Err(e),
            Ok(()) => Ok(symbol_writer),
        }
    }

    /// The number of bytes of the program header table.
    pub open spec fn program_headers_size(&self) -> int {
        PROGRAM_HEADER_SIZE * self.header_info.num_active_segments
    }

    /// The number of bytes of the section header table.
    pub open spec fn section_headers_size(&self) -> int {
        SECTION_HEADER_SIZE * self.header_info.num_output_sections_with_content
    }

    /// What writing the headers makes of a window that holds `data` and
    /// has room for `capacity` bytes in all: the ELF header, the program
    /// headers with zeros in the slots that no segment uses, and the section
    /// headers, which must fill their table exactly.
    pub open spec fn headers_written(&self, layout: &Layout, data: Seq<u8>, capacity: int) -> Result<
        Seq<u8>,
        EmitError,
    > {
        let n = layout.section_order@.len() as int;
        let used = PROGRAM_HEADER_SIZE * layout.segments@.len();
        if capacity - data.len() < FILE_HEADER_SIZE + self.program_headers_size()
            + self.section_headers_size() {
            Err(EmitError::HeadersTooSmall)
        } else {
            match layout.index_of(SHSTRTAB) {
                None => Err(EmitError::MissingSectionNames),
                Some(index) => if used > self.program_headers_size() {
                    Err(EmitError::ProgramHeaderSlots)
                } else if !layout.names_fit(n) {
                    Err(EmitError::FieldOverflow)
                } else if layout.section_headers_bytes(n).len() != self.section_headers_size() {
                    Err(EmitError::SectionHeaderCount)
                } else {
                    Ok(
                        data + file_header_of(layout, self.header_info, index).encoding()
                            + program_headers_bytes(layout.segments@, layout.segments@.len() as int)
                            + zeros(self.program_headers_size() - used)
                            + layout.section_headers_bytes(n),
                    )
                },
            }
        }
    }

    /// Writes the ELF header, the program header table and the section
    /// header table, in this order, into the window of the headers. Program
    /// header slots that no segment uses are left zero; the section header
    /// table must be filled exactly.
    pub fn write_headers(&self, file_headers: &mut Window, layout: &Layout) -> (r: Result<
        (),
        EmitError,
    >)
        requires
            layout.wf(),
            old(file_headers).wf(),
        ensures
            final(file_headers).wf(),
            final(file_headers).capacity == old(file_headers).capacity,
            match self.headers_written(
                layout,
                old(file_headers).data@,
                old(file_headers).capacity as int,
            ) {
                Err(e) => r == Err::<(), EmitError>(e) && final(file_headers).data@ == old(file_headers).data@,
                Ok(data) => r.is_ok() && final(file_headers).data@ == data,
            },
    {
        assert(PROGRAM_HEADER_SIZE * self.header_info.num_active_segments <= 0x38 * 0xffff
            && SECTION_HEADER_SIZE * self.header_info.num_output_sections_with_content <= 0x40
            * 0xffff) by (nonlinear_arith)
            requires
                PROGRAM_HEADER_SIZE == 0x38,
                SECTION_HEADER_SIZE == 0x40,
                self.header_info.num_active_segments <= 0xffff,
                self.header_info.num_output_sections_with_content <= 0xffff,
        ;
        let program_headers_size: usize = PROGRAM_HEADER_SIZE as usize
            * self.header_info.num_active_segments as usize;
        let section_headers_size: usize = SECTION_HEADER_SIZE as usize
            * self.header_info.num_output_sections_with_content as usize;
        if file_headers.remaining() < FILE_HEADER_SIZE as usize || file_headers.remaining()
            - (FILE_HEADER_SIZE as usize) < program_headers_size || file_headers.remaining()
            - (FILE_HEADER_SIZE as usize) - program_headers_size < section_headers_size {
            return Err(EmitError::HeadersTooSmall);
        }
        let header = match FileHeader::build(layout, &self.header_info) {
            Err(e) => {
                return Err(e);
            },
            Ok(header) => header,
        };
        let header_bytes = header.encode();
        proof {
            lemma_program_headers_len(layout.segments@, layout.segments@.len() as int);
        }
        let mut program_headers = ProgramHeaderWriter::new(Window::new(program_headers_size));
        match write_program_headers(&mut program_headers, layout) {
            Err(e) => {
                return Err(e);
            },
            Ok(()) => {},
        }
        let mut program_header_bytes = program_headers.headers.data;
        let ghost table = program_header_bytes@;
        let unused: usize = program_headers_size - program_header_bytes.len();
        append_zeros(&mut program_header_bytes, unused);
        let mut section_headers = Window::new(section_headers_size);
        match write_section_headers(&mut section_headers, layout) {
            Err(e) => {
                return Err(e);
            },
            Ok(()) => {},
        }
        let ghost start = file_headers.data@;
        let done = file_headers.emit(&header_bytes);
        assert(done);
        let done = file_headers.emit(&program_header_bytes);
        assert(done);
        let done = file_headers.emit(&section_headers.data);
        assert(done);
        assert(file_headers.data@ =~= start + header_bytes@ + table + zeros(unused as int)
            + section_headers.data@);
        Ok(())
    }

    /// Everything that the linker itself contributes, window by window.
    /// Nothing may be left of any window in the end.
    pub open spec fn written(&self, layout: &Layout, buffers: Buffers) -> Result<
        InternalState,
        EmitError,
    > {
        let room = object_room(buffers, layout).got_plt;
        let symbols = symtab_state(buffers, self.strings_offset_start);
        match self.headers_written(
            layout,
            buffers.file_headers.data@,
            buffers.file_headers.capacity as int,
        ) {
            Err(e) => Err(e),
            Ok(file_headers) => match names_written(
                layout,
                buffers.shstrtab.data@,
                buffers.shstrtab.capacity as int,
            ) {
                Err(e) => Err(e),
                Ok(shstrtab) => match self.got_entries(
                    layout,
                    GotPlt {
                        got: buffers.got.data@,
                        plt: buffers.plt.data@,
                        rela_dyn: buffers.rela_dyn.data@,
                    },
                    room,
                ) {
                    Err(e) => Err(e),
                    Ok(got_plt) => match (if layout.args.strip_all {
                        Ok(symbols)
                    } else {
                        self.symbol_table(layout, symbols, symtab_room(buffers))
                    }) {
                        Err(e) => Err(e),
                        Ok(symtab) => match eh_frame_hdr_written(
                            layout,
                            buffers.eh_frame_hdr.data@,
                            buffers.eh_frame_hdr.capacity as int,
                        ) {
                            Err(e) => Err(e),
                            Ok(eh_frame_hdr) => match self.strings_and_identity(
                                regular_data(buffers.regular@),
                                regular_room(buffers.regular@),
                            ) {
                                Err(e) => Err(e),
                                Ok(regular) => match (if layout.args.pie {
                                    dynamic_written(
                                        layout,
                                        buffers.dynamic.data@,
                                        buffers.dynamic.capacity as int,
                                    )
                                } else {
                                    Ok(buffers.dynamic.data@)
                                }) {
                                    Err(e) => Err(e),
                                    Ok(dynamic) => if room.rela_dyn - got_plt.rela_dyn.len() != 0 {
                                        Err(EmitError::UnusedRelaDyn)
                                    } else {
                                        match leftover(
                                            buffers,
                                            Filled {
                                                rela_plt: buffers.rela_plt.data@,
                                                eh_frame: buffers.eh_frame.data@,
                                                eh_frame_hdr,
                                                regular,
                                                symtab_locals: symtab.locals,
                                                symtab_globals: symtab.globals,
                                                symtab_strings: symtab.strings,
                                                file_headers,
                                                shstrtab,
                                                dynamic,
                                            },
                                        ) {
                                            Some(e) => Err(e),
                                            None => Ok(
                                                InternalState {
                                                    file_headers,
                                                    shstrtab,
                                                    eh_frame_hdr,
                                                    dynamic,
                                                    got_plt,
                                                    symtab,
                                                    regular,
                                                },
                                            ),
                                        }
                                    },
                                },
                            },
                        },
                    },
                },
            },
        }
    }

    /// Emits everything that the linker itself contributes into its
    /// windows. Fails unless every window is used up in the end.
    pub fn write(&self, buffers: Buffers, layout: &Layout) -> (r: Result<Buffers, EmitError>)
        requires
            layout.wf(),
            buffers.wf(),
        ensures
            r.is_ok() ==> r.unwrap().wf() && same_room(buffers, r.unwrap())
                && r.unwrap().used_up() && r.unwrap().rela_plt == buffers.rela_plt
                && r.unwrap().eh_frame == buffers.eh_frame,
            match self.written(layout, buffers) {
                Err(e) => r.is_err() && r.err() == Some(e),
                Ok(done) => r.is_ok() && internal_holds(r.unwrap(), done),
            },
    {
        let Buffers {
            file_headers,
            shstrtab,
            got,
            plt,
            rela_plt,
            rela_dyn,
            symtab_locals,
            symtab_globals,
            symtab_strings,
            eh_frame,
            eh_frame_hdr,
            dynamic,
            regular,
        } = buffers;
        let mut file_headers = file_headers;
        let mut shstrtab = shstrtab;
        let mut eh_frame_hdr = eh_frame_hdr;
        let mut dynamic = dynamic;
        let mut regular = regular;
        let mut symtab_locals = symtab_locals;
        let mut symtab_globals = symtab_globals;
        let mut symtab_strings = symtab_strings;
        match self.write_headers(&mut file_headers, layout) {
            Err(e) => {
                return Err(e);
            },
            Ok(()) => {},
        }
        match write_section_header_strings(&mut shstrtab, layout) {
            Err(e) => {
                return Err(e);
            },
            Ok(()) => {},
        }
        let mut relocation_writer = RelocationWriter::new(layout.args.is_relocatable(), rela_dyn);
        let plt_got_writer = match self.write_plt_got_entries(
            got,
            plt,
            rela_plt,
            layout,
            &mut relocation_writer,
        ) {
            Err(e) => {
                return Err(e);
            },
            Ok(w) => w,
        };
        if !layout.args.strip_all {
            let symbol_writer = match self.write_symbol_table_entries(
                symtab_locals,
                symtab_globals,
                symtab_strings,
                layout,
            ) {
                Err(e) => {
                    return Err(e);
                },
                Ok(w) => w,
            };
            symtab_locals = symbol_writer.local_entries;
            symtab_globals = symbol_writer.global_entries;
            symtab_strings = symbol_writer.strings;
        }
        match write_eh_frame_hdr(&mut eh_frame_hdr, layout) {
            Err(e) => {
                return Err(e);
            },
            Ok(()) => {},
        }
        match self.write_merged_strings(&mut regular) {
            Err(e) => {
                return Err(e);
            },
            Ok(()) => {},
        }
        if layout.args.pie {
            match self.write_dynamic_entries(&mut dynamic, layout) {
                Err(e) => {
                    return Err(e);
                },
                Ok(()) => {},
            }
        }
        match relocation_writer.validate_empty() {
            Err(e) => {
                return Err(e);
            },
            Ok(()) => {},
        }
        let filled = Buffers {
            file_headers,
            shstrtab,
            got: plt_got_writer.got,
            plt: plt_got_writer.plt,
            rela_plt: plt_got_writer.rela_plt,
            rela_dyn: relocation_writer.rela_dyn,
            symtab_locals,
            symtab_globals,
            symtab_strings,
            eh_frame,
            eh_frame_hdr,
            dynamic,
            regular,
        };
        proof {
            lemma_same_leftover(buffers, filled, filled.filled());
            assert(filled.filled().regular =~= regular_data(filled.regular@));
        }
        match filled.check_used_up() {
            Err(e) => Err(e),
            Ok(()) => Ok(filled),
        }
    }
}

/// Where the section header table has been filled exactly, the count of
/// section headers in the ELF header is the number of headers emitted, and
/// the ELF header names the header of the section name table.
pub proof fn lemma_section_header_count(internal: &InternalLayout, layout: &Layout)
    requires
        layout.section_headers_bytes(layout.section_order@.len() as int).len()
            == internal.section_headers_size(),
        layout.index_of(crate::layout::SHSTRTAB).is_some(),
    ensures
        ({
            let header = crate::headers::file_header_of(
                layout,
                internal.header_info,
                layout.index_of(crate::layout::SHSTRTAB).unwrap(),
            );
            &&& header.section_header_num == layout.emitted_count(
                layout.section_order@.len() as int,
            )
            &&& Some(header.section_names_index) == layout.index_of(crate::layout::SHSTRTAB)
        }),
{
    crate::headers::lemma_section_headers_len(layout, layout.section_order@.len() as int);
}

impl FileLayout {
    /// Emits what one input contributes into its windows. A shared object
    /// that the output is linked against contributes nothing.
    pub fn write(&self, buffers: Buffers, layout: &Layout) -> (r: Result<Buffers, EmitError>)
        requires
            layout.wf(),
            buffers.wf(),
        ensures
            r.is_ok() ==> r.unwrap().wf() && same_room(buffers, r.unwrap()),
            match *self {
                FileLayout::Object(object) => match object.written(layout, buffers) {
                    Err(e) => r.is_err() && r.err() == Some(e),
                    Ok(done) => r.is_ok() && object_state(r.unwrap()) == done.0
                        && r.unwrap().symtab_locals.data@ == done.1.locals
                        && r.unwrap().symtab_globals.data@ == done.1.globals
                        && r.unwrap().symtab_strings.data@ == done.1.strings
                        && r.unwrap().file_headers == buffers.file_headers && r.unwrap().shstrtab
                        == buffers.shstrtab && r.unwrap().dynamic == buffers.dynamic,
                },
                FileLayout::Internal(internal) => match internal.written(layout, buffers) {
                    Err(e) => r.is_err() && r.err() == Some(e),
                    Ok(done) => r.is_ok() && internal_holds(r.unwrap(), done),
                },
                FileLayout::Dynamic => r.is_ok() && r.unwrap() == buffers,
            },
            !(self is Dynamic) && r.is_ok() ==> r.unwrap().used_up(),
    {
        match self {
            FileLayout::Object(object) => object.write(buffers, layout),
            FileLayout::Internal(internal) => internal.write(buffers, layout),
            FileLayout::Dynamic => Ok(buffers),
        }
    }
}

} // verus!
