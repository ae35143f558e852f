//! Emits what one input object contributes: its sections with their
//! relocations applied, its `.eh_frame` records, its GOT and PLT entries
//! and its symbols.

use vstd::prelude::*;
use crate::bytes::{append_zeros, zeros};
use crate::error::EmitError;
use crate::cie_map::no_cies;
use crate::eh_frame::{EhRoom, EhState};
use crate::elf::RELA_ENTRY_SIZE;
use crate::layout::{
    leftover, part_left, Buffers, Filled, InputSection, Layout, ObjectLayout, PltRelocation, Relocation, SectionSlot, SymbolId,
    SymbolPlacement, SymbolResolution, BSS,
};
use crate::plt_got::{
    got_plt_of, got_plt_room, irelative_relocation, resolved, symbol_resolved, GotPlt, GotPltRoom,
    PltGotWriter, RelocationWriter,
};
use crate::relocation::{
    apply_relocation, dynamic_bytes, kind_info, lemma_dynamic_only_for_absolute, relax,
    relocation_outcome, RelocationKind, RelocationModifier,
};
use crate::layout::Resolution;
use crate::symtab::{
    symbol_copied, symtab_used_up, SymbolTableWriter, SymtabRoom, SymtabState,
};
use crate::window::Window;

verus! {

impl ObjectLayout {
    /// Applies the relocations from `from` on to the bytes of a section
    /// that starts at `section_address`. `skip` says whether the relocation at
    /// `from` is passed over because the one before it rewrote the instruction
    /// that both belong to. Gives the section's bytes and what `.rela.dyn` holds.
    pub open spec fn relocated(
        &self,
        rels: Seq<Relocation>,
        layout: &Layout,
        from: int,
        skip: bool,
        section_address: u64,
        out: Seq<u8>,
        rela: Seq<u8>,
        active: bool,
        rela_room: int,
    ) -> Result<(Seq<u8>, Seq<u8>), EmitError>
        decreases rels.len() - from,
    {
        if from < 0 || from >= rels.len() {
            Ok((out, rela))
        } else if skip {
            self.relocated(
                rels,
                layout,
                from + 1,
                false,
                section_address,
                out,
                rela,
                active,
                rela_room,
            )
        } else {
            match self.resolution_for(rels[from], layout) {
                Err(e) => Err(e),
                Ok(None) => self.relocated(
                    rels,
                    layout,
                    from + 1,
                    false,
                    section_address,
                    out,
                    rela,
                    active,
                    rela_room,
                ),
                Ok(Some(resolution)) => match relocation_outcome(
                    resolution,
                    rels[from].offset,
                    rels[from],
                    section_address,
                    layout,
                    out,
                    active,
                    rela_room - rela.len(),
                ) {
                    Err(e) => Err(e),
                    Ok(applied) => self.relocated(
                        rels,
                        layout,
                        from + 1,
                        applied.modifier == RelocationModifier::SkipNextRelocation,
                        section_address,
                        applied.out,
                        rela + dynamic_bytes(applied.dynamic),
                        active,
                        rela_room,
                    ),
                },
            }
        }
    }

    /// The number of relocations from `from` on that are applied, store an
    /// absolute address that is not zero, and do so while dynamic relocations
    /// are being written.
    pub open spec fn absolute_count(
        &self,
        rels: Seq<Relocation>,
        layout: &Layout,
        from: int,
        skip: bool,
        section_address: u64,
        out: Seq<u8>,
        rela: Seq<u8>,
        active: bool,
        rela_room: int,
    ) -> int
        decreases rels.len() - from,
    {
        if from < 0 || from >= rels.len() {
            0
        } else if skip {
            self.absolute_count(
                rels,
                layout,
                from + 1,
                false,
                section_address,
                out,
                rela,
                active,
                rela_room,
            )
        } else {
            match self.resolution_for(rels[from], layout) {
                Err(e) => 0,
                Ok(None) => self.absolute_count(
                    rels,
                    layout,
                    from + 1,
                    false,
                    section_address,
                    out,
                    rela,
                    active,
                    rela_room,
                ),
                Ok(Some(resolution)) => match relocation_outcome(
                    resolution,
                    rels[from].offset,
                    rels[from],
                    section_address,
                    layout,
                    out,
                    active,
                    rela_room - rela.len(),
                ) {
                    Err(e) => 0,
                    Ok(applied) => (if stores_absolute(resolution, rels[from], layout, out) && active
                        && resolution.address != 0 {
                        1int
                    } else {
                        0int
                    }) + self.absolute_count(
                        rels,
                        layout,
                        from + 1,
                        applied.modifier == RelocationModifier::SkipNextRelocation,
                        section_address,
                        applied.out,
                        rela + dynamic_bytes(applied.dynamic),
                        active,
                        rela_room,
                    ),
                },
            }
        }
    }

    /// Dynamic relocations are conserved: applying the relocations of a
    /// section adds to `.rela.dyn` exactly one entry for each relocation that
    /// stores an absolute address that is not zero while dynamic relocations
    /// are being written, and nothing else.
    pub proof fn lemma_dynamic_relocations_conserved(
        &self,
        rels: Seq<Relocation>,
        layout: &Layout,
        from: int,
        skip: bool,
        section_address: u64,
        out: Seq<u8>,
        rela: Seq<u8>,
        active: bool,
        rela_room: int,
    )
        requires
            self.relocated(rels, layout, from, skip, section_address, out, rela, active, rela_room)
                .is_ok(),
        ensures
            self.relocated(rels, layout, from, skip, section_address, out, rela, active, rela_room)
                .unwrap().1.len() == rela.len() + RELA_ENTRY_SIZE * self.absolute_count(
                rels,
                layout,
                from,
                skip,
                section_address,
                out,
                rela,
                active,
                rela_room,
            ),
        decreases rels.len() - from,
    {
        if from < 0 || from >= rels.len() {
        } else if skip {
            self.lemma_dynamic_relocations_conserved(
                rels,
                layout,
                from + 1,
                false,
                section_address,
                out,
                rela,
                active,
                rela_room,
            );
        } else {
            match self.resolution_for(rels[from], layout) {
                Err(e) => {},
                Ok(None) => {
                    self.lemma_dynamic_relocations_conserved(
                        rels,
                        layout,
                        from + 1,
                        false,
                        section_address,
                        out,
                        rela,
                        active,
                        rela_room,
                    );
                },
                Ok(Some(resolution)) => {
                    let outcome = relocation_outcome(
                        resolution,
                        rels[from].offset,
                        rels[from],
                        section_address,
                        layout,
                        out,
                        active,
                        rela_room - rela.len(),
                    );
                    let applied = outcome.unwrap();
                    lemma_dynamic_only_for_absolute(
                        resolution,
                        rels[from].offset,
                        rels[from],
                        section_address,
                        layout,
                        out,
                        active,
                        rela_room - rela.len(),
                    );
                    self.lemma_dynamic_relocations_conserved(
                        rels,
                        layout,
                        from + 1,
                        applied.modifier == RelocationModifier::SkipNextRelocation,
                        section_address,
                        applied.out,
                        rela + dynamic_bytes(applied.dynamic),
                        active,
                        rela_room,
                    );
                },
            }
        }
    }

    /// What applying all relocations of a section does to its bytes and to
    /// `.rela.dyn`. Fails if the section itself was not resolved.
    pub open spec fn section_relocated(
        &self,
        section: &InputSection,
        layout: &Layout,
        out: Seq<u8>,
        rela: Seq<u8>,
        active: bool,
        rela_room: int,
    ) -> Result<(Seq<u8>, Seq<u8>), EmitError> {
        match self.section_resolution(section.index) {
            None => Err(EmitError::UnresolvedSection),
            Some(resolution) => self.relocated(
                section.relocations@,
                layout,
                0,
                false,
                resolution.address,
                out,
                rela,
                active,
                rela_room,
            ),
        }
    }

    /// Applies the relocations of a section to its bytes, in their order. A
    /// relocation that rewrote a two-relocation instruction sequence makes
    /// the next one be passed over.
    pub fn apply_relocations(
        &self,
        out: &mut Vec<u8>,
        section: &InputSection,
        layout: &Layout,
        relocation_writer: &mut RelocationWriter,
    ) -> (r: Result<(), EmitError>)
        requires
            old(relocation_writer).wf(),
        ensures
            final(relocation_writer).wf(),
            final(relocation_writer).is_active == old(relocation_writer).is_active,
            final(relocation_writer).rela_dyn.capacity == old(relocation_writer).rela_dyn.capacity,
            final(out)@.len() == old(out)@.len(),
            match self.section_relocated(
                section,
                layout,
                old(out)@,
                old(relocation_writer).rela_dyn.data@,
                old(relocation_writer).is_active,
                old(relocation_writer).rela_dyn.capacity as int,
            ) {
                Err(e) => r == Err::<(), EmitError>(e),
                Ok(done) => r.is_ok() && final(out)@ == done.0 && final(relocation_writer).rela_dyn.data@ == done.1,
            },
    {
        let section_address: u64 = match self.resolution_of_section(section.index) {
            None => {
                return Err(EmitError::UnresolvedSection);
            },
            Some(resolution) => resolution.address,
        };
        let mut skip: bool = false;
        let mut i: usize = 0;
        while i < section.relocations.len()
            invariant
                i <= section.relocations@.len(),
                self.section_resolution(section.index).is_some(),
                self.section_resolution(section.index).unwrap().address == section_address,
                relocation_writer.wf(),
                relocation_writer.is_active == old(relocation_writer).is_active,
                relocation_writer.rela_dyn.capacity == old(relocation_writer).rela_dyn.capacity,
                out@.len() == old(out)@.len(),
                self.relocated(
                    section.relocations@,
                    layout,
                    0,
                    false,
                    section_address,
                    old(out)@,
                    old(relocation_writer).rela_dyn.data@,
                    old(relocation_writer).is_active,
                    old(relocation_writer).rela_dyn.capacity as int,
                ) == self.relocated(
                    section.relocations@,
                    layout,
                    i as int,
                    skip,
                    section_address,
                    out@,
                    relocation_writer.rela_dyn.data@,
                    old(relocation_writer).is_active,
                    old(relocation_writer).rela_dyn.capacity as int,
                ),
            decreases section.relocations@.len() - i,
        {
            let rel = &section.relocations[i];
            if skip {
                skip = false;
            } else {
                match self.get_resolution(rel, layout) {
                    Err(e) => {
                        return Err(e);
                    },
                    Ok(None) => {},
                    Ok(Some(resolution)) => {
                        match apply_relocation(
                            &resolution,
                            rel.offset,
                            rel,
                            section_address,
                            layout,
                            out,
                            relocation_writer,
                        ) {
                            Err(e) => {
                                return Err(e);
                            },
                            Ok(modifier) => {
                                skip = match modifier {
                                    RelocationModifier::SkipNextRelocation => true,
                                    RelocationModifier::Normal => false,
                                };
                            },
                        }
                    },
                }
            }
            i += 1;
        }
        Ok(())
    }

    /// What copying a section to its window does: the window, which holds
    /// `window` and has room for `capacity` bytes in all, receives the
    /// section's bytes with the relocations applied, then zeros up to the
    /// section's capacity. Gives what the window and `.rela.dyn` hold.
    pub open spec fn section_copied(
        &self,
        section: &InputSection,
        layout: &Layout,
        window: Seq<u8>,
        capacity: int,
        rela: Seq<u8>,
        active: bool,
        rela_room: int,
    ) -> Result<(Seq<u8>, Seq<u8>), EmitError> {
        if capacity - window.len() < section.capacity || section.capacity < section.data@.len() {
            Err(EmitError::SectionTooSmall)
        } else {
            match self.section_relocated(section, layout, section.data@, rela, active, rela_room) {
                Err(e) => Err(e),
                Ok(done) => Ok(
                    (window + done.0 + zeros(section.capacity - section.data@.len()), done.1),
                ),
            }
        }
    }

    /// What emitting a section does: it is copied to its window if it
    /// occupies bytes of the file, and then its GOT slot is filled if it needs
    /// one. Gives what the window and the GOT, PLT and `.rela.dyn` hold.
    pub open spec fn section_filled(
        &self,
        section: &InputSection,
        layout: &Layout,
        window: Seq<u8>,
        capacity: int,
        s: GotPlt,
        room: GotPltRoom,
    ) -> Result<(Seq<u8>, GotPlt), EmitError> {
        let copied = if Self::section_has_data(section, layout) {
            self.section_copied(
                section,
                layout,
                window,
                capacity,
                s.rela_dyn,
                room.active,
                room.rela_dyn,
            )
        } else {
            Ok((window, s.rela_dyn))
        };
        match copied {
            Err(e) => Err(e),
            Ok(done) => {
                let mid = GotPlt { got: s.got, plt: s.plt, rela_dyn: done.1 };
                if section.needs_got_entry {
                    match self.section_resolution(section.index) {
                        None => Err(EmitError::UnresolvedSection),
                        Some(resolution) => match resolved(mid, room, resolution) {
                            Err(e) => Err(e),
                            Ok(filled) => Ok((done.0, filled)),
                        },
                    }
                } else {
                    Ok((done.0, mid))
                }
            },
        }
    }

    /// Whether a section occupies bytes of the output file.
    pub open spec fn section_has_data(section: &InputSection, layout: &Layout) -> bool {
        section.output_section_id < layout.sections@.len()
            && layout.sections@[section.output_section_id as int].has_data_in_file
    }

    /// Copies a section to its window and applies its relocations; then
    /// fills the GOT slot of the section if it needs one.
    pub fn write_section(
        &self,
        layout: &Layout,
        section: &InputSection,
        section_buffer: &mut Window,
        plt_got_writer: &mut PltGotWriter,
        relocation_writer: &mut RelocationWriter,
    ) -> (r: Result<(), EmitError>)
        requires
            old(section_buffer).wf(),
            old(plt_got_writer).wf(),
            old(relocation_writer).wf(),
        ensures
            final(section_buffer).wf(),
            final(plt_got_writer).wf(),
            final(relocation_writer).wf(),
            final(section_buffer).capacity == old(section_buffer).capacity,
            final(plt_got_writer).got.capacity == old(plt_got_writer).got.capacity,
            final(plt_got_writer).plt.capacity == old(plt_got_writer).plt.capacity,
            final(plt_got_writer).rela_plt == old(plt_got_writer).rela_plt,
            final(plt_got_writer).tls_start == old(plt_got_writer).tls_start,
            final(plt_got_writer).tls_end == old(plt_got_writer).tls_end,
            final(relocation_writer).is_active == old(relocation_writer).is_active,
            final(relocation_writer).rela_dyn.capacity == old(relocation_writer).rela_dyn.capacity,
            match self.section_filled(
                section,
                layout,
                old(section_buffer).data@,
                old(section_buffer).capacity as int,
                got_plt_of(*old(plt_got_writer), *old(relocation_writer)),
                got_plt_room(*old(plt_got_writer), *old(relocation_writer)),
            ) {
                Err(e) => r == Err::<(), EmitError>(e),
                Ok(done) => r.is_ok() && final(section_buffer).data@ == done.0 && got_plt_of(
                    *final(plt_got_writer),
                    *final(relocation_writer),
                ) == done.1,
            },
    {
        let has_data: bool = section.output_section_id < layout.sections.len()
            && layout.sections[section.output_section_id].has_data_in_file;
        if has_data {
            if section_buffer.remaining() < section.capacity || section.capacity
                < section.data.len() {
                return Err(EmitError::SectionTooSmall);
            }
            let mut out: Vec<u8> = section.data.clone();
            assert(out@ == section.data@);
            match self.apply_relocations(&mut out, section, layout, relocation_writer) {
                Err(e) => {
                    return Err(e);
                },
                Ok(()) => {},
            }
            append_zeros(&mut out, section.capacity - section.data.len());
            let done = section_buffer.emit(&out);
            assert(done);
            assert(section_buffer.data@ =~= old(section_buffer).data@ + out@.subrange(
                0,
                section.data@.len() as int,
            ) + zeros(section.capacity - section.data@.len()));
            assert(out@.subrange(0, section.data@.len() as int) =~= self.section_relocated(
                section,
                layout,
                section.data@,
                old(relocation_writer).rela_dyn.data@,
                old(relocation_writer).is_active,
                old(relocation_writer).rela_dyn.capacity as int,
            ).unwrap().0);
        }
        if section.needs_got_entry {
            let resolution = match self.resolution_of_section(section.index) {
                None => {
                    return Err(EmitError::UnresolvedSection);
                },
                Some(resolution) => resolution,
            };
            return plt_got_writer.process_resolution(&resolution, relocation_writer);
        }
        Ok(())
    }

    /// What emitting the symbol at position `k` makes of the symbol table.
    /// A symbol is emitted if it is defined in a section that was copied to
    /// the output, or if it is a common symbol that resolved to this input.
    pub open spec fn symbol_written(
        &self,
        layout: &Layout,
        k: int,
        s: SymtabState,
        room: SymtabRoom,
    ) -> Result<SymtabState, EmitError> {
        let sym = self.symbols@[k];
        match sym.placement {
            SymbolPlacement::Section(index) => if index >= self.sections@.len() {
                Err(EmitError::BadIndex)
            } else {
                match self.sections@[index as int] {
                    SectionSlot::Loaded(section) => match self.section_resolution(index) {
                        None => Err(EmitError::UnresolvedSection),
                        Some(resolution) => symbol_copied(
                            s,
                            room,
                            sym,
                            section.output_section_id,
                            resolution.address,
                            layout,
                        ),
                    },
                    _ => Ok(s),
                }
            },
            SymbolPlacement::Common => match sym.global_id {
                Some(id) => if id < layout.symbols@.len() && layout.symbols@[id as int].file_id
                    == self.file_id {
                    match layout.resolution_of(id) {
                        Some(SymbolResolution::Resolved(resolution)) => symbol_copied(
                            s,
                            room,
                            sym,
                            BSS,
                            resolution.address,
                            layout,
                        ),
                        _ => Ok(s),
                    }
                } else {
                    Ok(s)
                },
                None => Ok(s),
            },
            SymbolPlacement::Other => Ok(s),
        }
    }

    /// What emitting the symbols from position `from` on makes of the symbol table.
    pub open spec fn symbols_written(
        &self,
        layout: &Layout,
        from: int,
        s: SymtabState,
        room: SymtabRoom,
    ) -> Result<SymtabState, EmitError>
        decreases self.symbols@.len() - from,
    {
        if from < 0 || from >= self.symbols@.len() {
            Ok(s)
        } else {
            match self.symbol_written(layout, from, s, room) {
                Err(e) => Err(e),
                Ok(next) => self.symbols_written(layout, from + 1, next, room),
            }
        }
    }

    /// The symbol table of this input: all its symbols emitted, and nothing
    /// left of the windows.
    pub open spec fn symbol_table(&self, layout: &Layout, s: SymtabState, room: SymtabRoom) -> Result<
        SymtabState,
        EmitError,
    > {
        match self.symbols_written(layout, 0, s, room) {
            Err(e) => Err(e),
            Ok(done) => symtab_used_up(done, room),
        }
    }

    fn write_symbol(&self, k: usize, symbol_writer: &mut SymbolTableWriter, layout: &Layout) -> (r:
        Result<(), EmitError>)
        requires
            k < self.symbols@.len(),
            old(symbol_writer).wf(),
        ensures
            final(symbol_writer).wf(),
            final(symbol_writer).room() == old(symbol_writer).room(),
            match self.symbol_written(
                layout,
                k as int,
                old(symbol_writer).state(),
                old(symbol_writer).room(),
            ) {
                Err(e) => r == Err::<(), EmitError>(e),
                Ok(next) => r.is_ok() && final(symbol_writer).state() == next,
            },
    {
        let sym = &self.symbols[k];
        match sym.placement {
            SymbolPlacement::Section(section_index) => {
                if section_index >= self.sections.len() {
                    return Err(EmitError::BadIndex);
                }
                if let SectionSlot::Loaded(section) = &self.sections[section_index] {
                    let address: u64 = match self.resolution_of_section(section_index) {
                        None => {
                            return Err(EmitError::UnresolvedSection);
                        },
                        Some(resolution) => resolution.address,
                    };
                    return symbol_writer.copy_symbol(
                        sym,
                        section.output_section_id,
                        address,
                        layout,
                    );
                }
                Ok(())
            },
            SymbolPlacement::Common => {
                if let Some(symbol_id) = sym.global_id {
                    if symbol_id < layout.symbols.len() && layout.symbols[symbol_id].file_id
                        == self.file_id {
                        if let Some(SymbolResolution::Resolved(resolution)) =
                            layout.global_symbol_resolution(symbol_id) {
                            return symbol_writer.copy_symbol(sym, BSS, resolution.address, layout);
                        }
                    }
                }
                Ok(())
            },
            SymbolPlacement::Other => Ok(()),
        }
    }

    /// Copies the symbols of this input to the symbol table: those defined
    /// in a section that was copied to the output, and the common symbols
    /// that this input is the defining file of. Fails unless all three
    /// windows are used up in the end.
    pub fn write_symbols(
        &self,
        start_str_offset: u32,
        local_entries: Window,
        global_entries: Window,
        strings: Window,
        layout: &Layout,
    ) -> (r: Result<SymbolTableWriter, EmitError>)
        requires
            local_entries.wf(),
            global_entries.wf(),
            strings.wf(),
        ensures
            match self.symbol_table(
                layout,
                SymtabState {
                    string_offset: start_str_offset as int,
                    locals: local_entries.data@,
                    globals: global_entries.data@,
                    strings: strings.data@,
                },
                SymtabRoom {
                    locals: local_entries.capacity as int,
                    globals: global_entries.capacity as int,
                    strings: strings.capacity as int,
                },
            ) {
                Err(e) => r.is_err() && r.err() == Some(e),
                Ok(done) => r.is_ok() && r.unwrap().wf() && r.unwrap().state() == done
                    && r.unwrap().room() == (SymtabRoom {
                    locals: local_entries.capacity as int,
                    globals: global_entries.capacity as int,
                    strings: strings.capacity as int,
                }) && r.unwrap().local_entries.residual() == 0
                    && r.unwrap().global_entries.residual() == 0 && r.unwrap().strings.residual()
                    == 0,
            },
    {
        let mut symbol_writer = SymbolTableWriter::new(
            start_str_offset,
            local_entries,
            global_entries,
            strings,
        );
        let ghost start = symbol_writer.state();
        let ghost room = symbol_writer.room();
        let mut i: usize = 0;
        while i < self.symbols.len()
            invariant
                i <= self.symbols@.len(),
                symbol_writer.wf(),
                symbol_writer.room() == room,
                room == (SymtabRoom {
                    locals: local_entries.capacity as int,
                    globals: global_entries.capacity as int,
                    strings: strings.capacity as int,
                }),
                start == (SymtabState {
                    string_offset: start_str_offset as int,
                    locals: local_entries.data@,
                    globals: global_entries.data@,
                    strings: strings.data@,
                }),
                self.symbols_written(layout, 0, start, room) == self.symbols_written(
                    layout,
                    i as int,
                    symbol_writer.state(),
                    room,
                ),
            decreases self.symbols@.len() - i,
        {
            match self.write_symbol(i, &mut symbol_writer, layout) {
                Err(e) => {
                    return Err(e);
                },
                Ok(()) => {},
            }
            i += 1;
        }
        match symbol_writer.check_exhausted() {
            Err(e) => Err(e),
            Ok(()) => Ok(symbol_writer),
        }
    }

    /// What emitting the section slot at position `k` makes of the windows
    /// of this input.
    pub open spec fn slot_written(&self, layout: &Layout, k: int, s: ObjectState, room: ObjectRoom) -> Result<
        ObjectState,
        EmitError,
    > {
        match self.sections@[k] {
            SectionSlot::Loaded(section) => if section.part >= s.regular.len() {
                Err(EmitError::BadIndex)
            } else {
                match self.section_filled(
                    &section,
                    layout,
                    s.regular[section.part as int],
                    room.regular[section.part as int],
                    s.got_plt,
                    room.got_plt,
                ) {
                    Err(e) => Err(e),
                    Ok(done) => Ok(
                        ObjectState {
                            regular: s.regular.update(section.part as int, done.0),
                            eh_frame: s.eh_frame,
                            eh_frame_hdr: s.eh_frame_hdr,
                            got_plt: done.1,
                            rela_plt: s.rela_plt,
                        },
                    ),
                }
            },
            SectionSlot::EhFrameData(section) => match self.walk(
                &section,
                layout,
                EhState {
                    input_pos: 0,
                    output: s.eh_frame,
                    headers: s.eh_frame_hdr,
                    next_rel: 0,
                    cies: no_cies(),
                    rela: s.got_plt.rela_dyn,
                },
                EhRoom {
                    eh_frame: room.eh_frame,
                    eh_frame_hdr: room.eh_frame_hdr,
                    rela_dyn: room.got_plt.rela_dyn,
                    active: room.got_plt.active,
                },
            ) {
                Err(e) => Err(e),
                Ok(end) => Ok(
                    ObjectState {
                        regular: s.regular,
                        eh_frame: end.output,
                        eh_frame_hdr: end.headers,
                        got_plt: GotPlt {
                            got: s.got_plt.got,
                            plt: s.got_plt.plt,
                            rela_dyn: end.rela,
                        },
                        rela_plt: s.rela_plt,
                    },
                ),
            },
            SectionSlot::Discard => Ok(s),
        }
    }

    /// What emitting the section slots from position `from` on makes of
    /// the windows of this input.
    pub open spec fn slots_written(
        &self,
        layout: &Layout,
        from: int,
        s: ObjectState,
        room: ObjectRoom,
    ) -> Result<ObjectState, EmitError>
        decreases self.sections@.len() - from,
    {
        if from < 0 || from >= self.sections@.len() {
            Ok(s)
        } else {
            match self.slot_written(layout, from, s, room) {
                Err(e) => Err(e),
                Ok(next) => self.slots_written(layout, from + 1, next, room),
            }
        }
    }

    /// Everything that this input contributes: its sections and
    /// `.eh_frame` records in the order of the input, then its `.rela.plt`
    /// entries, then the GOT and PLT entries of its symbols, then its symbol
    /// table unless symbols are stripped. Nothing may be left of any window
    /// in the end: what was reserved and not written is an error as much as
    /// what was not reserved.
    pub open spec fn written(&self, layout: &Layout, buffers: Buffers) -> Result<
        (ObjectState, SymtabState),
        EmitError,
    > {
        let s = object_state(buffers);
        let room = object_room(buffers, layout);
        let symtab = symtab_state(buffers, self.strings_offset_start);
        let symtab_room = symtab_room(buffers);
        match self.slots_written(layout, 0, s, room) {
            Err(e) => Err(e),
            Ok(a) => match plt_relocated(self.plt_relocations@, 0, a.rela_plt, room.rela_plt) {
                Err(e) => Err(e),
                Ok(rela_plt) => match symbols_resolved(
                    self.loaded_symbols@,
                    layout,
                    0,
                    a.got_plt,
                    room.got_plt,
                ) {
                    Err(e) => Err(e),
                    Ok(filled) => {
                        let table = if layout.args.strip_all {
                            Ok(symtab)
                        } else {
                            self.symbol_table(layout, symtab, symtab_room)
                        };
                        match table {
                            Err(e) => Err(e),
                            Ok(symbols) => if room.got_plt.got - filled.got.len() != 0
                                || room.got_plt.plt - filled.plt.len() != 0 {
                                Err(EmitError::UnusedPltGot)
                            } else if room.got_plt.rela_dyn - filled.rela_dyn.len() != 0 {
                                Err(EmitError::UnusedRelaDyn)
                            } else {
                                match leftover(
                                    buffers,
                                    Filled {
                                        rela_plt,
                                        eh_frame: a.eh_frame,
                                        eh_frame_hdr: a.eh_frame_hdr,
                                        regular: a.regular,
                                        symtab_locals: symbols.locals,
                                        symtab_globals: symbols.globals,
                                        symtab_strings: symbols.strings,
                                        file_headers: buffers.file_headers.data@,
                                        shstrtab: buffers.shstrtab.data@,
                                        dynamic: buffers.dynamic.data@,
                                    },
                                ) {
                                    Some(e) => Err(e),
                                    None => Ok(
                                        (
                                            ObjectState {
                                                regular: a.regular,
                                                eh_frame: a.eh_frame,
                                                eh_frame_hdr: a.eh_frame_hdr,
                                                got_plt: filled,
                                                rela_plt,
                                            },
                                            symbols,
                                        ),
                                    ),
                                }
                            },
                        }
                    },
                },
            },
        }
    }

    /// Emits everything that this input contributes into its windows:
    /// sections and `.eh_frame` records in the order of the input, then the
    /// `.rela.plt` entries, the GOT and PLT entries of its symbols and,
    /// unless symbols are stripped, its symbol table entries. Fails unless
    /// every window is used up in the end.
    pub fn write(&self, buffers: Buffers, layout: &Layout) -> (r: Result<Buffers, EmitError>)
        requires
            layout.wf(),
            buffers.wf(),
        ensures
            r.is_ok() ==> r.unwrap().wf() && same_room(buffers, r.unwrap())
                && r.unwrap().used_up() && r.unwrap().file_headers == buffers.file_headers
                && r.unwrap().shstrtab == buffers.shstrtab && r.unwrap().dynamic
                == buffers.dynamic,
            match self.written(layout, buffers) {
                Err(e) => r.is_err() && r.err() == Some(e),
                Ok(done) => r.is_ok() && object_state(r.unwrap()) == done.0
                    && r.unwrap().symtab_locals.data@ == done.1.locals
                    && r.unwrap().symtab_globals.data@ == done.1.globals
                    && r.unwrap().symtab_strings.data@ == done.1.strings,
            },
    {
        let ghost start = object_state(buffers);
        let ghost room = object_room(buffers, layout);
        let Buffers {
            file_headers,
            shstrtab,
            got,
            plt,
            rela_plt,
            rela_dyn,
            symtab_locals,
            symtab_globals,
            symtab_strings,
            eh_frame,
            eh_frame_hdr,
            dynamic,
            regular,
        } = buffers;
        let mut eh_frame = eh_frame;
        let mut eh_frame_hdr = eh_frame_hdr;
        let mut regular = regular;
        let mut plt_got_writer = PltGotWriter::new(layout, got, plt, rela_plt);
        let mut relocation_writer = RelocationWriter::new(layout.args.is_relocatable(), rela_dyn);
        assert(regular_data(regular@) =~= start.regular);
        let mut i: usize = 0;
        while i < self.sections.len()
            invariant
                layout.wf(),
                i <= self.sections@.len(),
                plt_got_writer.wf(),
                relocation_writer.wf(),
                eh_frame.wf(),
                eh_frame_hdr.wf(),
                start == object_state(buffers),
                room == object_room(buffers, layout),
                got_plt_room(plt_got_writer, relocation_writer) == room.got_plt,
                plt_got_writer.rela_plt == buffers.rela_plt,
                eh_frame.capacity == buffers.eh_frame.capacity,
                eh_frame_hdr.capacity == buffers.eh_frame_hdr.capacity,
                regular@.len() == buffers.regular@.len(),
                forall|k: int|
                    0 <= k < regular@.len() ==> (#[trigger] regular@[k]).wf() && regular@[k].capacity
                        == buffers.regular@[k].capacity,
                self.slots_written(layout, 0, start, room) == self.slots_written(
                    layout,
                    i as int,
                    ObjectState {
                        regular: regular_data(regular@),
                        eh_frame: eh_frame.data@,
                        eh_frame_hdr: eh_frame_hdr.data@,
                        got_plt: got_plt_of(plt_got_writer, relocation_writer),
                        rela_plt: plt_got_writer.rela_plt.data@,
                    },
                    room,
                ),
            decreases self.sections@.len() - i,
        {
            let ghost here = ObjectState {
                regular: regular_data(regular@),
                eh_frame: eh_frame.data@,
                eh_frame_hdr: eh_frame_hdr.data@,
                got_plt: got_plt_of(plt_got_writer, relocation_writer),
                rela_plt: plt_got_writer.rela_plt.data@,
            };
            match &self.sections[i] {
                SectionSlot::Loaded(section) => {
                    if section.part >= regular.len() {
                        return Err(EmitError::BadIndex);
                    }
                    let mut window = Window::new(0);
                    let part: usize = section.part;
                    assert(here.regular[part as int] == regular@[part as int].data@);
                    assert(room.regular[part as int] == regular@[part as int].capacity);
                    std::mem::swap(&mut window, &mut regular[part]);
                    let outcome = self.write_section(
                        layout,
                        section,
                        &mut window,
                        &mut plt_got_writer,
                        &mut relocation_writer,
                    );
                    let ghost filled = window.data@;
                    regular.set(part, window);
                    match outcome {
                        Err(e) => {
                            return Err(e);
                        },
                        Ok(()) => {},
                    }
                    assert(regular_data(regular@) =~= here.regular.update(part as int, filled));
                },
                SectionSlot::EhFrameData(section) => {
                    match self.write_eh_frame_data(
                        section,
                        &mut eh_frame,
                        &mut eh_frame_hdr,
                        layout,
                        &mut relocation_writer,
                    ) {
                        Err(e) => {
                            return Err(e);
                        },
                        Ok(()) => {},
                    }
                },
                SectionSlot::Discard => {},
            }
            i += 1;
        }
        let ghost after_slots = ObjectState {
            regular: regular_data(regular@),
            eh_frame: eh_frame.data@,
            eh_frame_hdr: eh_frame_hdr.data@,
            got_plt: got_plt_of(plt_got_writer, relocation_writer),
            rela_plt: plt_got_writer.rela_plt.data@,
        };
        let mut p: usize = 0;
        while p < self.plt_relocations.len()
            invariant
                p <= self.plt_relocations@.len(),
                start == object_state(buffers),
                room == object_room(buffers, layout),
                self.slots_written(layout, 0, start, room) == Ok::<ObjectState, EmitError>(
                    after_slots,
                ),
                plt_got_writer.wf(),
                got_plt_of(plt_got_writer, relocation_writer) == after_slots.got_plt,
                got_plt_room(plt_got_writer, relocation_writer) == room.got_plt,
                plt_got_writer.rela_plt.capacity == buffers.rela_plt.capacity,
                room.rela_plt == buffers.rela_plt.capacity,
                plt_relocated(self.plt_relocations@, 0, after_slots.rela_plt, room.rela_plt)
                    == plt_relocated(
                    self.plt_relocations@,
                    p as int,
                    plt_got_writer.rela_plt.data@,
                    room.rela_plt,
                ),
            decreases self.plt_relocations@.len() - p,
        {
            match plt_got_writer.apply_relocation(&self.plt_relocations[p]) {
                Err(e) => {
                    return Err(e);
                },
                Ok(()) => {},
            }
            p += 1;
        }
        let mut s: usize = 0;
        while s < self.loaded_symbols.len()
            invariant
                s <= self.loaded_symbols@.len(),
                start == object_state(buffers),
                room == object_room(buffers, layout),
                self.slots_written(layout, 0, start, room) == Ok::<ObjectState, EmitError>(
                    after_slots,
                ),
                plt_got_writer.wf(),
                relocation_writer.wf(),
                got_plt_room(plt_got_writer, relocation_writer) == room.got_plt,
                plt_got_writer.rela_plt.capacity == buffers.rela_plt.capacity,
                plt_relocated(self.plt_relocations@, 0, after_slots.rela_plt, room.rela_plt) == Ok::<
                    Seq<u8>,
                    EmitError,
                >(plt_got_writer.rela_plt.data@),
                symbols_resolved(self.loaded_symbols@, layout, 0, after_slots.got_plt, room.got_plt)
                    == symbols_resolved(
                    self.loaded_symbols@,
                    layout,
                    s as int,
                    got_plt_of(plt_got_writer, relocation_writer),
                    room.got_plt,
                ),
            decreases self.loaded_symbols@.len() - s,
        {
            match plt_got_writer.process_symbol(
                layout,
                self.loaded_symbols[s],
                &mut relocation_writer,
            ) {
                Err(e) => {
                    return Err(e);
                },
                Ok(()) => {},
            }
            s += 1;
        }
        let mut symtab_locals = symtab_locals;
        let mut symtab_globals = symtab_globals;
        let mut symtab_strings = symtab_strings;
        if !layout.args.strip_all {
            let symbol_writer = match self.write_symbols(
                self.strings_offset_start,
                symtab_locals,
                symtab_globals,
                symtab_strings,
                layout,
            ) {
                Err(e) => {
                    return Err(e);
                },
                Ok(w) => w,
            };
            symtab_locals = symbol_writer.local_entries;
            symtab_globals = symbol_writer.global_entries;
            symtab_strings = symbol_writer.strings;
        }
        match plt_got_writer.validate_empty() {
            Err(e) => {
                return Err(e);
            },
            Ok(()) => {},
        }
        match relocation_writer.validate_empty() {
            Err(e) => {
                return Err(e);
            },
            Ok(()) => {},
        }
        let filled = Buffers {
            file_headers,
            shstrtab,
            got: plt_got_writer.got,
            plt: plt_got_writer.plt,
            rela_plt: plt_got_writer.rela_plt,
            rela_dyn: relocation_writer.rela_dyn,
            symtab_locals,
            symtab_globals,
            symtab_strings,
            eh_frame,
            eh_frame_hdr,
            dynamic,
            regular,
        };
        proof {
            lemma_same_leftover(buffers, filled, filled.filled());
            assert(filled.filled().regular =~= regular_data(filled.regular@));
        }
        match filled.check_used_up() {
            Err(e) => Err(e),
            Ok(()) => Ok(filled),
        }
    }
}

/// What is left over depends on the windows only through their capacities.
pub proof fn lemma_same_leftover(a: Buffers, b: Buffers, filled: Filled)
    requires
        same_room(a, b),
    ensures
        leftover(a, filled) == leftover(b, filled),
{
    assert forall|k: int| part_left(a, filled, k) == part_left(b, filled, k) by {
        if 0 <= k < a.regular@.len() {
            assert(a.regular@[k].capacity == b.regular@[k].capacity);
        }
    }
}

/// Whether a relocation stores an absolute address, going by its type
/// after any rewrite of its instruction.
pub open spec fn stores_absolute(res: Resolution, rel: Relocation, layout: &Layout, out: Seq<u8>) -> bool {
    let relaxed = relax(
        layout.relaxations@,
        rel.r_type,
        rel.addend,
        out,
        rel.offset as int,
        res.address != 0 && layout.args.relocatable(),
    );
    match kind_info(relaxed.r_type) {
        Some(info) => info.kind == RelocationKind::Absolute,
        None => false,
    }
}

/// What the windows that an input object writes to hold.
pub struct ObjectState {
    pub regular: Seq<Seq<u8>>,
    pub eh_frame: Seq<u8>,
    pub eh_frame_hdr: Seq<u8>,
    pub got_plt: GotPlt,
    pub rela_plt: Seq<u8>,
}

/// The room of the windows that an input object writes to.
pub struct ObjectRoom {
    pub regular: Seq<int>,
    pub eh_frame: int,
    pub eh_frame_hdr: int,
    pub got_plt: GotPltRoom,
    pub rela_plt: int,
}

/// What each of a list of windows holds.
pub open spec fn regular_data(windows: Seq<Window>) -> Seq<Seq<u8>> {
    Seq::new(windows.len(), |k: int| windows[k].data@)
}

/// What the windows that an input object writes to hold.
pub open spec fn object_state(buffers: Buffers) -> ObjectState {
    ObjectState {
        regular: regular_data(buffers.regular@),
        eh_frame: buffers.eh_frame.data@,
        eh_frame_hdr: buffers.eh_frame_hdr.data@,
        got_plt: GotPlt {
            got: buffers.got.data@,
            plt: buffers.plt.data@,
            rela_dyn: buffers.rela_dyn.data@,
        },
        rela_plt: buffers.rela_plt.data@,
    }
}

/// The room of the windows that an input object writes to. Dynamic
/// relocations are written if the output is relocatable.
pub open spec fn object_room(buffers: Buffers, layout: &Layout) -> ObjectRoom {
    ObjectRoom {
        regular: Seq::new(buffers.regular@.len(), |k: int| buffers.regular@[k].capacity as int),
        eh_frame: buffers.eh_frame.capacity as int,
        eh_frame_hdr: buffers.eh_frame_hdr.capacity as int,
        got_plt: GotPltRoom {
            got: buffers.got.capacity as int,
            plt: buffers.plt.capacity as int,
            rela_dyn: buffers.rela_dyn.capacity as int,
            tls_start: layout.tls_start,
            tls_end: layout.tls_end,
            active: layout.args.relocatable(),
        },
        rela_plt: buffers.rela_plt.capacity as int,
    }
}

/// What the symbol table windows hold, for a contributor whose names
/// start at `string_offset`.
pub open spec fn symtab_state(buffers: Buffers, string_offset: u32) -> SymtabState {
    SymtabState {
        string_offset: string_offset as int,
        locals: buffers.symtab_locals.data@,
        globals: buffers.symtab_globals.data@,
        strings: buffers.symtab_strings.data@,
    }
}

/// The room of the symbol table windows.
pub open spec fn symtab_room(buffers: Buffers) -> SymtabRoom {
    SymtabRoom {
        locals: buffers.symtab_locals.capacity as int,
        globals: buffers.symtab_globals.capacity as int,
        strings: buffers.symtab_strings.capacity as int,
    }
}

/// What appending the `.rela.plt` entries from position `from` on makes of `.rela.plt`.
pub open spec fn plt_relocated(rels: Seq<PltRelocation>, from: int, rela_plt: Seq<u8>, room: int) -> Result<
    Seq<u8>,
    EmitError,
>
    decreases rels.len() - from,
{
    if from < 0 || from >= rels.len() {
        Ok(rela_plt)
    } else if room - rela_plt.len() < RELA_ENTRY_SIZE {
        Err(EmitError::RelaPltTooSmall)
    } else {
        plt_relocated(rels, from + 1, rela_plt + irelative_relocation(rels[from]).encoding(), room)
    }
}

/// What filling the GOT slots and PLT entries of the symbols from
/// position `from` on makes of the GOT, PLT and `.rela.dyn`.
pub open spec fn symbols_resolved(
    ids: Seq<SymbolId>,
    layout: &Layout,
    from: int,
    s: GotPlt,
    room: GotPltRoom,
) -> Result<GotPlt, EmitError>
    decreases ids.len() - from,
{
    if from < 0 || from >= ids.len() {
        Ok(s)
    } else {
        match symbol_resolved(layout, ids[from], s, room) {
            Err(e) => Err(e),
            Ok(next) => symbols_resolved(ids, layout, from + 1, next, room),
        }
    }
}

/// Whether two sets of windows have the same room: window by window the
/// same capacity.
pub open spec fn same_room(a: Buffers, b: Buffers) -> bool {
    &&& a.file_headers.capacity == b.file_headers.capacity
    &&& a.shstrtab.capacity == b.shstrtab.capacity
    &&& a.got.capacity == b.got.capacity
    &&& a.plt.capacity == b.plt.capacity
    &&& a.rela_plt.capacity == b.rela_plt.capacity
    &&& a.rela_dyn.capacity == b.rela_dyn.capacity
    &&& a.symtab_locals.capacity == b.symtab_locals.capacity
    &&& a.symtab_globals.capacity == b.symtab_globals.capacity
    &&& a.symtab_strings.capacity == b.symtab_strings.capacity
    &&& a.eh_frame.capacity == b.eh_frame.capacity
    &&& a.eh_frame_hdr.capacity == b.eh_frame_hdr.capacity
    &&& a.dynamic.capacity == b.dynamic.capacity
    &&& a.regular@.len() == b.regular@.len()
    &&& forall|k: int|
        0 <= k < a.regular@.len() ==> (#[trigger] a.regular@[k]).capacity == b.regular@[k].capacity
}

} // verus!
