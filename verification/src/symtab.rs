//! The writer of the symbol table and its string pool.

use vstd::prelude::*;
use crate::bytes::{add_wrapping, le_byte, le_seq, radix, splice, wrapping_sum};
use crate::elf::{SymtabEntry, SYMTAB_ENTRY_SIZE};
use crate::error::EmitError;
use crate::layout::{InputSymbol, Layout, SectionId};
use crate::window::Window;

verus! {

/// Writes symbol table entries, local and global ones apart, and the names
/// that they refer to.
pub struct SymbolTableWriter {
    /// Where in the string table the next name will start.
    pub string_offset: u32,
    pub local_entries: Window,
    pub global_entries: Window,
    pub strings: Window,
}

/// The entry that `define_symbol` writes: its binding, type and visibility
/// are left zero for the caller to set.
pub open spec fn plain_entry(name: u32, shndx: u16, value: u64, size: u64) -> SymtabEntry {
    SymtabEntry { name, info: 0, other: 0, shndx, value, size }
}

/// A name as the string table holds it: followed by a zero byte.
pub open spec fn terminated(name: Seq<u8>) -> Seq<u8> {
    name + seq![0u8]
}

/// Overwriting the two bytes after the name offset of an entry sets its
/// `info` and `other` fields and nothing else.
pub proof fn lemma_set_info(entry: SymtabEntry, info: u8, other: u8)
    ensures
        splice(entry.encoding(), 4, seq![info, other]) == (SymtabEntry {
            name: entry.name,
            info,
            other,
            shndx: entry.shndx,
            value: entry.value,
            size: entry.size,
        }).encoding(),
{
    let changed = SymtabEntry {
        name: entry.name,
        info,
        other,
        shndx: entry.shndx,
        value: entry.value,
        size: entry.size,
    };
    assert(radix(0) == 1);
    assert(le_byte(info as u64, 0) == info);
    assert(le_byte(other as u64, 0) == other);
    assert(le_seq(info as u64, 1) =~= seq![info]);
    assert(le_seq(other as u64, 1) =~= seq![other]);
    assert(splice(entry.encoding(), 4, seq![info, other]) =~= changed.encoding());
}

/// What the three windows of the symbol table hold, and where the next
/// name will start.
pub struct SymtabState {
    pub string_offset: int,
    pub locals: Seq<u8>,
    pub globals: Seq<u8>,
    pub strings: Seq<u8>,
}

/// The room of the three windows of the symbol table.
pub struct SymtabRoom {
    pub locals: int,
    pub globals: int,
    pub strings: int,
}

/// What adding an entry and its name makes of the symbol table, or the
/// error with which it fails. The name offset of `entry` is set to where the
/// name is put.
pub open spec fn entry_added(
    s: SymtabState,
    room: SymtabRoom,
    is_local: bool,
    entry: SymtabEntry,
    name: Seq<u8>,
) -> Result<SymtabState, EmitError> {
    let bucket = if is_local {
        room.locals - s.locals.len()
    } else {
        room.globals - s.globals.len()
    };
    let placed = SymtabEntry {
        name: s.string_offset as u32,
        info: entry.info,
        other: entry.other,
        shndx: entry.shndx,
        value: entry.value,
        size: entry.size,
    };
    if bucket < SYMTAB_ENTRY_SIZE {
        Err(EmitError::SymtabTooSmall)
    } else if room.strings - s.strings.len() < name.len() + 1 {
        Err(EmitError::SymtabTooSmall)
    } else if s.string_offset + name.len() + 1 > u32::MAX {
        Err(EmitError::StringOffsetOverflow)
    } else {
        Ok(
            SymtabState {
                string_offset: s.string_offset + name.len() + 1,
                locals: if is_local {
                    s.locals + placed.encoding()
                } else {
                    s.locals
                },
                globals: if is_local {
                    s.globals
                } else {
                    s.globals + placed.encoding()
                },
                strings: s.strings + terminated(name),
            },
        )
    }
}

/// What copying a symbol of an input object makes of the symbol table: a
/// symbol that is not worth an entry changes nothing; one in a section that
/// is not emitted is an error.
pub open spec fn symbol_copied(
    s: SymtabState,
    room: SymtabRoom,
    sym: InputSymbol,
    output_section_id: SectionId,
    section_address: u64,
    layout: &Layout,
) -> Result<SymtabState, EmitError> {
    if !sym.should_copy {
        Ok(s)
    } else {
        match layout.index_of(output_section_id) {
            None => Err(EmitError::SymbolInUnemittedSection),
            Some(shndx) => entry_added(
                s,
                room,
                sym.is_local,
                SymtabEntry {
                    name: 0,
                    info: sym.st_info,
                    other: sym.st_other,
                    shndx,
                    value: wrapping_sum(section_address, sym.address),
                    size: sym.size,
                },
                sym.name@,
            ),
        }
    }
}

/// The symbol table as it is if nothing is left of its windows; an error
/// if anything is.
pub open spec fn symtab_used_up(s: SymtabState, room: SymtabRoom) -> Result<SymtabState, EmitError> {
    if room.locals - s.locals.len() == 0 && room.globals - s.globals.len() == 0 && room.strings
        - s.strings.len() == 0 {
        Ok(s)
    } else {
        Err(EmitError::UnusedSymtab)
    }
}

impl SymbolTableWriter {
    /// Every window of the writer is well formed.
    pub open spec fn wf(&self) -> bool {
        self.local_entries.wf() && self.global_entries.wf() && self.strings.wf()
    }

    /// What the windows of the writer hold.
    pub open spec fn state(&self) -> SymtabState {
        SymtabState {
            string_offset: self.string_offset as int,
            locals: self.local_entries.data@,
            globals: self.global_entries.data@,
            strings: self.strings.data@,
        }
    }

    /// The room of the windows of the writer.
    pub open spec fn room(&self) -> SymtabRoom {
        SymtabRoom {
            locals: self.local_entries.capacity as int,
            globals: self.global_entries.capacity as int,
            strings: self.strings.capacity as int,
        }
    }

    /// Adds an entry with the given `info` and `other` fields and its name.
    pub fn add_entry(&mut self, is_local: bool, entry: &SymtabEntry, name: &Vec<u8>) -> (r: Result<
        (),
        EmitError,
    >)
        requires
            old(self).wf(),
        ensures
            final(self).wf(),
            final(self).room() == old(self).room(),
            match entry_added(old(self).state(), old(self).room(), is_local, *entry, name@) {
                Err(e) => r == Err::<(), EmitError>(e) && *final(self) == *old(self),
                Ok(next) => r.is_ok() && final(self).state() == next,
            },
    {
        let at: usize = match self.define_symbol(
            is_local,
            entry.shndx,
            entry.value,
            entry.size,
            name,
        ) {
            Err(e) => {
                return Err(e);
            },
            Ok(at) => at,
        };
        let ghost before = old(self).bucket(is_local).data@;
        let ghost plain = plain_entry(old(self).string_offset, entry.shndx, entry.value, entry.size);
        self.set_symbol_info(is_local, at, entry.info, entry.other);
        proof {
            lemma_set_info(plain, entry.info, entry.other);
            assert(splice(before + plain.encoding(), at + 4, seq![entry.info, entry.other])
                =~= before + splice(plain.encoding(), 4, seq![entry.info, entry.other]));
        }
        Ok(())
    }

    /// The window that entries of the given kind go to.
    pub open spec fn bucket(&self, is_local: bool) -> Window {
        if is_local {
            self.local_entries
        } else {
            self.global_entries
        }
    }

    /// A writer over the three windows of a contributor, whose first name
    /// starts at `start_string_offset` of the string table.
    pub fn new(
        start_string_offset: u32,
        local_entries: Window,
        global_entries: Window,
        strings: Window,
    ) -> (w: SymbolTableWriter)
        ensures
            w.string_offset == start_string_offset,
            w.local_entries == local_entries,
            w.global_entries == global_entries,
            w.strings == strings,
    {
        SymbolTableWriter { string_offset: start_string_offset, local_entries, global_entries, strings }
    }

    /// The error, if any, with which `define_symbol` ends for a name of `len` bytes.
    pub open spec fn define_error(&self, is_local: bool, len: int) -> Option<EmitError> {
        if self.bucket(is_local).residual() < SYMTAB_ENTRY_SIZE {
            Some(EmitError::SymtabTooSmall)
        } else if self.strings.residual() < len + 1 {
            Some(EmitError::SymtabTooSmall)
        } else if self.string_offset + len + 1 > u32::MAX {
            Some(EmitError::StringOffsetOverflow)
        } else {
            None
        }
    }

    /// Takes one entry of the local or of the global bucket, fills it, and
    /// appends the name to the string table. Returns where in its bucket
    /// the entry starts, for `set_symbol_info`.
    pub fn define_symbol(
        &mut self,
        is_local: bool,
        shndx: u16,
        value: u64,
        size: u64,
        name: &Vec<u8>,
    ) -> (r: Result<usize, EmitError>)
        requires
            old(self).wf(),
        ensures
            final(self).wf(),
            final(self).local_entries.capacity == old(self).local_entries.capacity,
            final(self).global_entries.capacity == old(self).global_entries.capacity,
            final(self).strings.capacity == old(self).strings.capacity,
            match old(self).define_error(is_local, name@.len() as int) {
                Some(e) => r == Err::<usize, EmitError>(e) && *final(self) == *old(self),
                None => r == Ok::<usize, EmitError>(old(self).bucket(is_local).data@.len() as usize)
                    && final(self).bucket(is_local).data@ == old(self).bucket(is_local).data@
                    + plain_entry(old(self).string_offset, shndx, value, size).encoding() && final(self).bucket(!is_local) == old(self).bucket(!is_local) && final(self).strings.data@
                    == old(self).strings.data@ + terminated(name@) && final(self).string_offset
                    == old(self).string_offset + name@.len() + 1,
            },
    {
        let len: usize = name.len();
        let room: usize = if is_local {
            self.local_entries.remaining()
        } else {
            self.global_entries.remaining()
        };
        if room < SYMTAB_ENTRY_SIZE {
            return Err(EmitError::SymtabTooSmall);
        }
        if self.strings.remaining() <= len {
            return Err(EmitError::SymtabTooSmall);
        }
        if len >= 0xffff_ffff || len as u32 + 1 > 0xffff_ffff - self.string_offset {
            return Err(EmitError::StringOffsetOverflow);
        }
        let entry = SymtabEntry { name: self.string_offset, info: 0, other: 0, shndx, value, size };
        let bytes = entry.encode();
        let at: usize;
        if is_local {
            at = self.local_entries.data.len();
            let done = self.local_entries.emit(&bytes);
            assert(done);
        } else {
            at = self.global_entries.data.len();
            let done = self.global_entries.emit(&bytes);
            assert(done);
        }
        let zero: Vec<u8> = vec![0u8];
        assert(zero@ =~= seq![0u8]);
        let done = self.strings.emit(name);
        assert(done);
        let done = self.strings.emit(&zero);
        assert(done);
        assert(self.strings.data@ =~= old(self).strings.data@ + terminated(name@));
        self.string_offset = self.string_offset + (len as u32 + 1);
        Ok(at)
    }

    /// Sets the `info` and `other` fields of an entry that `define_symbol` wrote.
    pub fn set_symbol_info(&mut self, is_local: bool, at: usize, info: u8, other: u8)
        requires
            old(self).wf(),
            at + SYMTAB_ENTRY_SIZE <= old(self).bucket(is_local).data@.len(),
        ensures
            final(self).wf(),
            final(self).string_offset == old(self).string_offset,
            final(self).strings == old(self).strings,
            final(self).bucket(!is_local) == old(self).bucket(!is_local),
            final(self).bucket(is_local).capacity == old(self).bucket(is_local).capacity,
            final(self).bucket(is_local).data@ == splice(
                old(self).bucket(is_local).data@,
                at + 4,
                seq![info, other],
            ),
    {
        let patch: Vec<u8> = vec![info, other];
        assert(patch@ =~= seq![info, other]);
        if is_local {
            self.local_entries.patch(at + 4, &patch);
        } else {
            self.global_entries.patch(at + 4, &patch);
        }
    }

    /// Copies a symbol of an input object to the symbol table, unless the
    /// symbol is not worth an entry. Its value is its address in the input
    /// section plus the address of that section in the output.
    pub fn copy_symbol(
        &mut self,
        sym: &InputSymbol,
        output_section_id: SectionId,
        section_address: u64,
        layout: &Layout,
    ) -> (r: Result<(), EmitError>)
        requires
            old(self).wf(),
        ensures
            final(self).wf(),
            final(self).room() == old(self).room(),
            match symbol_copied(
                old(self).state(),
                old(self).room(),
                *sym,
                output_section_id,
                section_address,
                layout,
            ) {
                Err(e) => r == Err::<(), EmitError>(e) && *final(self) == *old(self),
                Ok(next) => r.is_ok() && final(self).state() == next,
            },
    {
        if !sym.should_copy {
            return Ok(());
        }
        let shndx: u16 = match layout.output_index_of_section(output_section_id) {
            Some(index) => index,
            None => {
                return Err(EmitError::SymbolInUnemittedSection);
            },
        };
        let entry = SymtabEntry {
            name: 0,
            info: sym.st_info,
            other: sym.st_other,
            shndx,
            value: add_wrapping(section_address, sym.address),
            size: sym.size,
        };
        self.add_entry(sym.is_local, &entry, &sym.name)
    }

    /// Succeeds exactly when every byte of the three windows was written:
    /// neither too much was reserved nor was anything left out.
    pub fn check_exhausted(&self) -> (r: Result<(), EmitError>)
        requires
            self.wf(),
        ensures
            r.is_ok() <==> self.local_entries.residual() == 0 && self.global_entries.residual() == 0
                && self.strings.residual() == 0,
            r.is_err() ==> r == Err::<(), EmitError>(EmitError::UnusedSymtab),
            r.is_ok() <==> symtab_used_up(self.state(), self.room()).is_ok(),
    {
        if !self.local_entries.is_exhausted() || !self.global_entries.is_exhausted()
            || !self.strings.is_exhausted() {
            return Err(EmitError::UnusedSymtab);
        }
        Ok(())
    }
}

} // verus!
