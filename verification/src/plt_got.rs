//! The writers of `.got`, `.plt`, `.rela.plt` and `.rela.dyn`.

use vstd::prelude::*;
use crate::bytes::{
    add_wrapping, fits_i32, le_byte, le_bytes, le_seq, put_bytes, radix, splice, sub_wrapping,
    u32_at, wrapping_diff, wrapping_sum,
};
use crate::elf::{
    plt_entry_template, plt_template, Rela, CURRENT_EXE_TLS_MOD, GOT_ENTRY_SIZE, PLT_ENTRY_SIZE,
    RELA_ENTRY_SIZE, R_X86_64_IRELATIVE, R_X86_64_RELATIVE,
};
use crate::error::EmitError;
use crate::layout::{Layout, PltRelocation, Resolution, SymbolId, SymbolResolution, TargetResolutionKind};
use crate::window::Window;

verus! {

/// Writes the self-relocations that a position-independent executable
/// applies to itself when it is loaded.
pub struct RelocationWriter {
    /// False when the output is not relocatable: nothing is then written.
    pub is_active: bool,
    pub rela_dyn: Window,
}

/// The `.rela.dyn` entry that makes the loader store `base + address` at `place`.
pub open spec fn relative_relocation(place: u64, address: u64) -> Rela {
    Rela { address: place, info: R_X86_64_RELATIVE, addend: address }
}

impl RelocationWriter {
    /// Every window of the writer is well formed.
    pub open spec fn wf(&self) -> bool {
        self.rela_dyn.wf()
    }

    /// A writer over the `.rela.dyn` window of a contributor.
    pub fn new(is_active: bool, rela_dyn: Window) -> (w: RelocationWriter)
        ensures
            w.is_active == is_active,
            w.rela_dyn == rela_dyn,
    {
        RelocationWriter { is_active, rela_dyn }
    }

    /// A writer that never writes and has no room to.
    pub fn disabled() -> (w: RelocationWriter)
        ensures
            !w.is_active,
            w.wf(),
            w.rela_dyn.capacity == 0,
            w.rela_dyn.data@ == Seq::<u8>::empty(),
    {
        RelocationWriter { is_active: false, rela_dyn: Window::new(0) }
    }

    /// Appends one `R_X86_64_RELATIVE` entry, unless the writer is inactive.
    pub fn write_relocation(&mut self, place: u64, address: u64) -> (r: Result<(), EmitError>)
        requires
            old(self).wf(),
        ensures
            final(self).wf(),
            final(self).is_active == old(self).is_active,
            final(self).rela_dyn.capacity == old(self).rela_dyn.capacity,
            !old(self).is_active ==> r.is_ok() && final(self).rela_dyn.data@ == old(self).rela_dyn.data@,
            old(self).is_active && old(self).rela_dyn.residual() >= RELA_ENTRY_SIZE ==> r.is_ok()
                && final(self).rela_dyn.data@ == old(self).rela_dyn.data@ + relative_relocation(
                place,
                address,
            ).encoding(),
            old(self).is_active && old(self).rela_dyn.residual() < RELA_ENTRY_SIZE ==> r == Err::<
                (),
                EmitError,
            >(EmitError::RelaDynTooSmall) && final(self).rela_dyn.data@ == old(self).rela_dyn.data@,
    {
        if !self.is_active {
            return Ok(());
        }
        let rela = Rela { address: place, info: R_X86_64_RELATIVE, addend: address };
        let bytes = rela.encode();
        if self.rela_dyn.emit(&bytes) {
            Ok(())
        } else {
            Err(EmitError::RelaDynTooSmall)
        }
    }

    /// Succeeds exactly when every reserved `.rela.dyn` slot was written.
    pub fn validate_empty(&self) -> (r: Result<(), EmitError>)
        requires
            self.wf(),
        ensures
            self.rela_dyn.residual() == 0 ==> r.is_ok(),
            self.rela_dyn.residual() != 0 ==> r == Err::<(), EmitError>(EmitError::UnusedRelaDyn),
    {
        if self.rela_dyn.is_exhausted() {
            Ok(())
        } else {
            Err(EmitError::UnusedRelaDyn)
        }
    }
}

/// Writes GOT slots, PLT trampolines and `.rela.plt` entries.
pub struct PltGotWriter {
    pub got: Window,
    pub plt: Window,
    pub rela_plt: Window,
    /// The TLS segment is `[tls_start, tls_end)`.
    pub tls_start: u64,
    pub tls_end: u64,
}

/// Whether a resolution of this kind gets a relocation for its GOT slot when
/// the output is relocatable.
pub open spec fn kind_is_plain(kind: TargetResolutionKind) -> bool {
    match kind {
        TargetResolutionKind::GotTlsDouble => false,
        TargetResolutionKind::GotTlsOffset => false,
        TargetResolutionKind::IFunc => false,
        _ => true,
    }
}

/// The number of GOT bytes that a resolution with a GOT address takes.
pub open spec fn got_need(kind: TargetResolutionKind) -> int {
    match kind {
        TargetResolutionKind::GotTlsDouble => 2 * GOT_ENTRY_SIZE,
        _ => GOT_ENTRY_SIZE as int,
    }
}

/// The GOT bytes of a resolution with a GOT address. `active` says whether
/// dynamic relocations are being written.
pub open spec fn got_bytes(res: Resolution, tls_end: u64, active: bool) -> Seq<u8> {
    match res.kind {
        TargetResolutionKind::GotTlsDouble => le_seq(CURRENT_EXE_TLS_MOD, 8) + le_seq(
            wrapping_diff(res.address, tls_end),
            8,
        ),
        TargetResolutionKind::GotTlsOffset => le_seq(wrapping_diff(res.address, tls_end), 8),
        TargetResolutionKind::IFunc => le_seq(0, 8),
        _ => if active {
            le_seq(0, 8)
        } else {
            le_seq(res.address, 8)
        },
    }
}

/// The distance that a PLT entry jumps through: from the end of its `jmp`
/// to the GOT slot, modulo 2^64.
pub open spec fn plt_delta(got_address: u64, plt_address: u64) -> u64 {
    wrapping_diff(got_address, wrapping_sum(plt_address, 0xb))
}

/// The sixteen bytes of the PLT entry at `plt_address` for the slot at `got_address`.
pub open spec fn plt_entry(got_address: u64, plt_address: u64) -> Seq<u8> {
    splice(plt_template(), 7, le_seq(plt_delta(got_address, plt_address), 4))
}

/// The signed number that the low 32 bits of `v` stand for.
pub open spec fn low_signed(v: u64) -> int {
    if v as int % 0x1_0000_0000 < 0x8000_0000 {
        v as int % 0x1_0000_0000
    } else {
        v as int % 0x1_0000_0000 - 0x1_0000_0000
    }
}

/// The low four little-endian bytes of a number stand for the number
/// modulo 2^32.
pub proof fn lemma_low_bytes(v: u64)
    ensures
        le_byte(v, 0) + 0x100 * le_byte(v, 1) + 0x1_0000 * le_byte(v, 2) + 0x100_0000 * le_byte(v, 3)
            == v as int % 0x1_0000_0000,
{
    assert(radix(0) == 1 && radix(1) == 0x100 && radix(2) == 0x1_0000 && radix(3) == 0x100_0000);
    let b0: u64 = v % 0x100;
    let b1: u64 = (v / 0x100) % 0x100;
    let b2: u64 = (v / 0x1_0000) % 0x100;
    let b3: u64 = (v / 0x100_0000) % 0x100;
    assert(b0 + 0x100 * b1 + 0x1_0000 * b2 + 0x100_0000 * b3 == v % 0x1_0000_0000) by (bit_vector)
        requires
            b0 == v % 0x100,
            b1 == (v / 0x100) % 0x100,
            b2 == (v / 0x1_0000) % 0x100,
            b3 == (v / 0x100_0000) % 0x100,
    ;
    assert(le_byte(v, 0) == b0);
    assert(le_byte(v, 1) == b1);
    assert(le_byte(v, 2) == b2);
    assert(le_byte(v, 3) == b3);
}

/// The signed number that the 64 bits of `v` stand for.
pub open spec fn signed64(v: u64) -> int {
    if v < 0x8000_0000_0000_0000 {
        v as int
    } else {
        v - 0x1_0000_0000_0000_0000
    }
}

/// The low 32 bits of a number that fits in 32 signed bits stand for
/// the same signed number as all its 64 bits.
pub proof fn lemma_low_half_is_all(v: u64)
    requires
        fits_i32(v),
    ensures
        low_signed((v as int % 0x1_0000_0000) as u64) == signed64(v),
        i32::MIN <= signed64(v) <= i32::MAX,
{
    let low: u64 = v % 0x1_0000_0000;
    if v <= 0x7fff_ffff {
        assert(low == v) by (bit_vector)
            requires
                low == v % 0x1_0000_0000,
                v <= 0x7fff_ffff,
        ;
    } else {
        assert(low == v - 0xffff_ffff_0000_0000 && low >= 0x8000_0000 && low <= 0xffff_ffff)
            by (bit_vector)
            requires
                low == v % 0x1_0000_0000,
                v >= 0xffff_ffff_8000_0000,
        ;
    }
    assert(low as int % 0x1_0000_0000 == low);
}

/// The bytes of a PLT entry whose GOT slot is within reach: bytes 7 to 10,
/// read as a signed little-endian number, are the distance from the end of
/// the jump instruction to the slot; the bytes around them are the template.
pub proof fn lemma_plt_entry_bytes(got_address: u64, plt_address: u64)
    requires
        fits_i32(plt_delta(got_address, plt_address)),
    ensures
        plt_entry(got_address, plt_address).len() == 16,
        low_signed(u32_at(plt_entry(got_address, plt_address), 7) as u64) == signed64(
            plt_delta(got_address, plt_address),
        ),
        i32::MIN <= signed64(plt_delta(got_address, plt_address)) <= i32::MAX,
        plt_entry(got_address, plt_address).subrange(0, 7) == plt_template().subrange(0, 7),
        plt_entry(got_address, plt_address).subrange(11, 16) == plt_template().subrange(11, 16),
{
    let delta = plt_delta(got_address, plt_address);
    let entry = plt_entry(got_address, plt_address);
    assert(plt_template().len() == 16);
    assert(entry.len() == 16);
    assert(entry[7] == le_byte(delta, 0) && entry[8] == le_byte(delta, 1) && entry[9] == le_byte(
        delta,
        2,
    ) && entry[10] == le_byte(delta, 3));
    lemma_low_bytes(delta);
    assert(u32_at(entry, 7) == delta as int % 0x1_0000_0000);
    lemma_low_half_is_all(delta);
    assert(entry.subrange(0, 7) =~= plt_template().subrange(0, 7));
    assert(entry.subrange(11, 16) =~= plt_template().subrange(11, 16));
}

/// The jump of every PLT entry goes to its GOT slot: where the slot is
/// within reach, bytes 7 to 10 of the entry, read as a signed little-endian
/// number, are the distance from the end of the jump instruction, eleven
/// bytes into the entry, to the slot. The rest of the entry is the template.
pub proof fn lemma_plt_entry_reaches_got(got_address: u64, plt_address: u64)
    requires
        -0x8000_0000 <= got_address - (plt_address + 0xb) <= 0x7fff_ffff,
    ensures
        fits_i32(plt_delta(got_address, plt_address)),
        low_signed(u32_at(plt_entry(got_address, plt_address), 7) as u64) == got_address - (
        plt_address + 0xb),
        plt_entry(got_address, plt_address).len() == 16,
        plt_entry(got_address, plt_address).subrange(0, 7) == plt_template().subrange(0, 7),
        plt_entry(got_address, plt_address).subrange(11, 16) == plt_template().subrange(11, 16),
{
    assert(fits_i32(plt_delta(got_address, plt_address)));
    assert(signed64(plt_delta(got_address, plt_address)) == got_address - (plt_address + 0xb));
    lemma_plt_entry_bytes(got_address, plt_address);
}

/// Every PLT entry that is emitted jumps to its GOT slot. A resolution
/// that has a PLT address and is filled without error takes eight bytes of
/// the GOT and sixteen of the PLT; bytes 7 to 10 of these sixteen, read as
/// a signed little-endian number, are the distance from the end of the jump
/// instruction to the slot, a distance that fits in 32 signed bits; the
/// bytes around them are the template.
pub proof fn lemma_emitted_plt_entry(s: GotPlt, room: GotPltRoom, res: Resolution)
    requires
        resolved(s, room, res).is_ok(),
        wants_plt(res),
    ensures
        ({
            let after = resolved(s, room, res).unwrap();
            let got_address = res.got_address.unwrap();
            let plt_address = res.plt_address.unwrap();
            let entry = plt_entry(got_address, plt_address);
            let distance = signed64(plt_delta(got_address, plt_address));
            &&& after.plt == s.plt + entry
            &&& after.plt.len() == s.plt.len() + PLT_ENTRY_SIZE
            &&& after.got.len() == s.got.len() + GOT_ENTRY_SIZE
            &&& i32::MIN <= distance <= i32::MAX
            &&& low_signed(u32_at(entry, 7) as u64) == distance
            &&& -0x8000_0000 <= got_address - (plt_address + 0xb) <= 0x7fff_ffff ==> distance
                == got_address - (plt_address + 0xb)
            &&& entry.subrange(0, 7) == plt_template().subrange(0, 7)
            &&& entry.subrange(11, 16) == plt_template().subrange(11, 16)
        }),
{
    let got_address = res.got_address.unwrap();
    let plt_address = res.plt_address.unwrap();
    assert(fits_i32(plt_delta(got_address, plt_address)));
    lemma_plt_entry_bytes(got_address, plt_address);
}

/// A PLT entry is owed wherever there is room for it: a resolution with a
/// GOT and a PLT address, of a kind other than the TLS pair, whose TLS
/// offset, if it is one, lies in the TLS segment, is filled without error
/// if the GOT has room for a slot, the PLT for an entry, `.rela.dyn` for the
/// dynamic relocation of the slot if it gets one, and the slot is within
/// reach of the entry. Bytes 7 to 10 of the entry are then that distance.
pub proof fn lemma_plt_entry_is_owed(s: GotPlt, room: GotPltRoom, res: Resolution)
    requires
        res.got_address.is_some(),
        res.plt_address.is_some(),
        res.kind != TargetResolutionKind::GotTlsDouble,
        res.kind == TargetResolutionKind::GotTlsOffset ==> room.tls_start <= res.address
            < room.tls_end,
        room.got - s.got.len() >= GOT_ENTRY_SIZE,
        room.plt - s.plt.len() >= PLT_ENTRY_SIZE,
        wants_got_relocation(res, room.active) ==> room.rela_dyn - s.rela_dyn.len()
            >= RELA_ENTRY_SIZE,
        -0x8000_0000 <= res.got_address.unwrap() - (res.plt_address.unwrap() + 0xb) <= 0x7fff_ffff,
    ensures
        resolved(s, room, res).is_ok(),
        resolved(s, room, res).unwrap().plt == s.plt + plt_entry(
            res.got_address.unwrap(),
            res.plt_address.unwrap(),
        ),
        resolved(s, room, res).unwrap().got.len() == s.got.len() + GOT_ENTRY_SIZE,
        low_signed(
            u32_at(plt_entry(res.got_address.unwrap(), res.plt_address.unwrap()), 7) as u64,
        ) == res.got_address.unwrap() - (res.plt_address.unwrap() + 0xb),
{
    lemma_plt_entry_reaches_got(res.got_address.unwrap(), res.plt_address.unwrap());
    lemma_emitted_plt_entry(s, room, res);
}

/// Whether a resolution gets a PLT entry.
pub open spec fn wants_plt(res: Resolution) -> bool {
    res.got_address.is_some() && res.plt_address.is_some() && res.kind
        != TargetResolutionKind::GotTlsDouble
}

/// Whether a resolution gets a dynamic relocation for its GOT slot.
pub open spec fn wants_got_relocation(res: Resolution, active: bool) -> bool {
    active && res.got_address.is_some() && kind_is_plain(res.kind)
}

/// The error, if any, with which `process_resolution` ends. `got`, `plt` and
/// `rela` are the residuals of the three windows before the call.
pub open spec fn resolution_error(
    res: Resolution,
    tls_start: u64,
    tls_end: u64,
    active: bool,
    got: int,
    plt: int,
    rela: int,
) -> Option<EmitError> {
    if res.got_address.is_none() {
        None
    } else if got < got_need(res.kind) {
        Some(EmitError::GotTooSmall)
    } else if res.kind == TargetResolutionKind::GotTlsDouble {
        None
    } else if res.kind == TargetResolutionKind::GotTlsOffset && !(tls_start <= res.address
        < tls_end) {
        Some(EmitError::TlsAddressOutsideSegment)
    } else if wants_got_relocation(res, active) && rela < RELA_ENTRY_SIZE {
        Some(EmitError::RelaDynTooSmall)
    } else if res.plt_address.is_none() {
        None
    } else if plt < PLT_ENTRY_SIZE {
        Some(EmitError::PltTooSmall)
    } else if !fits_i32(plt_delta(res.got_address.unwrap(), res.plt_address.unwrap())) {
        Some(EmitError::PltTooFarFromGot)
    } else {
        None
    }
}

impl PltGotWriter {
    /// Every window of the writer is well formed.
    pub open spec fn wf(&self) -> bool {
        self.got.wf() && self.plt.wf() && self.rela_plt.wf()
    }

    /// A writer over the three windows of a contributor.
    pub fn new(layout: &Layout, got: Window, plt: Window, rela_plt: Window) -> (w: PltGotWriter)
        ensures
            w.got == got,
            w.plt == plt,
            w.rela_plt == rela_plt,
            w.tls_start == layout.tls_start,
            w.tls_end == layout.tls_end,
    {
        PltGotWriter { got, plt, rela_plt, tls_start: layout.tls_start, tls_end: layout.tls_end }
    }

    /// Fills the GOT slot, and the PLT entry if there is one, of a global
    /// symbol. A symbol without a resolution, or one that is left to the
    /// dynamic linker, gets nothing.
    pub fn process_symbol(
        &mut self,
        layout: &Layout,
        symbol_id: SymbolId,
        relocation_writer: &mut RelocationWriter,
    ) -> (r: Result<(), EmitError>)
        requires
            old(self).wf(),
            old(relocation_writer).wf(),
        ensures
            final(self).wf(),
            final(relocation_writer).wf(),
            final(self).tls_start == old(self).tls_start,
            final(self).tls_end == old(self).tls_end,
            final(self).got.capacity == old(self).got.capacity,
            final(self).plt.capacity == old(self).plt.capacity,
            final(self).rela_plt == old(self).rela_plt,
            final(relocation_writer).is_active == old(relocation_writer).is_active,
            final(relocation_writer).rela_dyn.capacity == old(relocation_writer).rela_dyn.capacity,
            match symbol_resolved(
                layout,
                symbol_id,
                got_plt_of(*old(self), *old(relocation_writer)),
                got_plt_room(*old(self), *old(relocation_writer)),
            ) {
                Err(e) => r == Err::<(), EmitError>(e),
                Ok(s) => r.is_ok() && got_plt_of(*final(self), *final(relocation_writer)) == s,
            },
            match layout.resolution_of(symbol_id) {
                Some(SymbolResolution::Resolved(res)) => resolution_outcome(
                    *old(self),
                    *old(relocation_writer),
                    res,
                    *final(self),
                    *final(relocation_writer),
                    r,
                ),
                _ => true,
            },
    {
        match layout.global_symbol_resolution(symbol_id) {
            Some(SymbolResolution::Resolved(res)) => self.process_resolution(
                &res,
                relocation_writer,
            ),
            Some(SymbolResolution::Dynamic) => Ok(()),
            None => Ok(()),
        }
    }

    /// Fills the GOT slot of a resolution, and its PLT entry if it has one.
    pub fn process_resolution(
        &mut self,
        res: &Resolution,
        relocation_writer: &mut RelocationWriter,
    ) -> (r: Result<(), EmitError>)
        requires
            old(self).wf(),
            old(relocation_writer).wf(),
        ensures
            final(self).wf(),
            final(relocation_writer).wf(),
            final(self).tls_start == old(self).tls_start,
            final(self).tls_end == old(self).tls_end,
            final(self).got.capacity == old(self).got.capacity,
            final(self).plt.capacity == old(self).plt.capacity,
            final(self).rela_plt == old(self).rela_plt,
            final(relocation_writer).is_active == old(relocation_writer).is_active,
            final(relocation_writer).rela_dyn.capacity == old(relocation_writer).rela_dyn.capacity,
            resolution_outcome(
                *old(self),
                *old(relocation_writer),
                *res,
                *final(self),
                *final(relocation_writer),
                r,
            ),
    {
        let got_address: u64 = match res.got_address {
            Some(a) => a,
            None => {
                return Ok(());
            },
        };
        let mut needs_relocation: bool = relocation_writer.is_active;
        let address: u64 = match res.kind {
            TargetResolutionKind::GotTlsDouble => {
                if self.got.remaining() < 2 * GOT_ENTRY_SIZE {
                    return Err(EmitError::GotTooSmall);
                }
                let mut pair = le_bytes(CURRENT_EXE_TLS_MOD, 8);
                let offset = le_bytes(sub_wrapping(res.address, self.tls_end), 8);
                crate::bytes::append_bytes(&mut pair, &offset);
                let done = self.got.emit(&pair);
                assert(done);
                return Ok(());
            },
            TargetResolutionKind::GotTlsOffset => {
                if self.got.remaining() < GOT_ENTRY_SIZE {
                    return Err(EmitError::GotTooSmall);
                }
                needs_relocation = false;
                if !(self.tls_start <= res.address && res.address < self.tls_end) {
                    return Err(EmitError::TlsAddressOutsideSegment);
                }
                sub_wrapping(res.address, self.tls_end)
            },
            TargetResolutionKind::IFunc => {
                if self.got.remaining() < GOT_ENTRY_SIZE {
                    return Err(EmitError::GotTooSmall);
                }
                needs_relocation = false;
                0
            },
            _ => {
                if self.got.remaining() < GOT_ENTRY_SIZE {
                    return Err(EmitError::GotTooSmall);
                }
                res.address
            },
        };
        if needs_relocation {
            let slot = le_bytes(0, 8);
            let done = self.got.emit(&slot);
            assert(done);
            match relocation_writer.write_relocation(got_address, address) {
                Err(e) => {
                    return Err(e);
                },
                Ok(()) => {},
            }
        } else {
            let slot = le_bytes(address, 8);
            let done = self.got.emit(&slot);
            assert(done);
        }
        if let Some(plt_address) = res.plt_address {
            if self.plt.remaining() < PLT_ENTRY_SIZE {
                return Err(EmitError::PltTooSmall);
            }
            let delta: u64 = sub_wrapping(got_address, add_wrapping(plt_address, 0xb));
            if !(delta <= 0x7fff_ffff || delta >= 0xffff_ffff_8000_0000) {
                return Err(EmitError::PltTooFarFromGot);
            }
            let mut entry = plt_entry_template();
            let rel32 = le_bytes(delta, 4);
            put_bytes(&mut entry, 7, &rel32);
            let done = self.plt.emit(&entry);
            assert(done);
        }
        Ok(())
    }

    /// Succeeds exactly when every reserved GOT and PLT byte was written.
    pub fn validate_empty(&self) -> (r: Result<(), EmitError>)
        requires
            self.wf(),
        ensures
            self.got.residual() == 0 && self.plt.residual() == 0 ==> r.is_ok(),
            self.got.residual() != 0 || self.plt.residual() != 0 ==> r == Err::<(), EmitError>(
                EmitError::UnusedPltGot,
            ),
    {
        if !self.got.is_exhausted() || !self.plt.is_exhausted() {
            return Err(EmitError::UnusedPltGot);
        }
        Ok(())
    }

    /// Appends the `.rela.plt` entry that makes the loader run an IFUNC
    /// resolver and store what it returns in the GOT slot.
    pub fn apply_relocation(&mut self, rel: &PltRelocation) -> (r: Result<(), EmitError>)
        requires
            old(self).wf(),
        ensures
            final(self).wf(),
            final(self).got == old(self).got,
            final(self).plt == old(self).plt,
            final(self).tls_start == old(self).tls_start,
            final(self).tls_end == old(self).tls_end,
            final(self).rela_plt.capacity == old(self).rela_plt.capacity,
            old(self).rela_plt.residual() >= RELA_ENTRY_SIZE ==> r.is_ok() && final(self).rela_plt.data@ == old(self).rela_plt.data@ + irelative_relocation(*rel).encoding(),
            old(self).rela_plt.residual() < RELA_ENTRY_SIZE ==> r == Err::<(), EmitError>(
                EmitError::RelaPltTooSmall,
            ) && final(self).rela_plt.data@ == old(self).rela_plt.data@,
    {
        let rela = Rela { address: rel.got_address, info: R_X86_64_IRELATIVE, addend: rel.resolver };
        let bytes = rela.encode();
        if self.rela_plt.emit(&bytes) {
            Ok(())
        } else {
            Err(EmitError::RelaPltTooSmall)
        }
    }
}

/// The `.rela.plt` entry of an IFUNC relocation.
pub open spec fn irelative_relocation(rel: PltRelocation) -> Rela {
    Rela { address: rel.got_address, info: R_X86_64_IRELATIVE, addend: rel.resolver }
}

/// What the GOT, PLT and `.rela.dyn` windows of a contributor hold.
pub struct GotPlt {
    pub got: Seq<u8>,
    pub plt: Seq<u8>,
    pub rela_dyn: Seq<u8>,
}

/// The room of the three windows and what else decides how they are filled.
pub struct GotPltRoom {
    pub got: int,
    pub plt: int,
    pub rela_dyn: int,
    pub tls_start: u64,
    pub tls_end: u64,
    /// Whether dynamic relocations are being written.
    pub active: bool,
}

/// What the windows of the two writers hold.
pub open spec fn got_plt_of(w: PltGotWriter, rw: RelocationWriter) -> GotPlt {
    GotPlt { got: w.got.data@, plt: w.plt.data@, rela_dyn: rw.rela_dyn.data@ }
}

/// The room of the windows of the two writers.
pub open spec fn got_plt_room(w: PltGotWriter, rw: RelocationWriter) -> GotPltRoom {
    GotPltRoom {
        got: w.got.capacity as int,
        plt: w.plt.capacity as int,
        rela_dyn: rw.rela_dyn.capacity as int,
        tls_start: w.tls_start,
        tls_end: w.tls_end,
        active: rw.is_active,
    }
}

/// What filling the GOT slot and PLT entry of a resolution makes of the
/// three windows, or the error with which it fails.
pub open spec fn resolved(s: GotPlt, room: GotPltRoom, res: Resolution) -> Result<
    GotPlt,
    EmitError,
> {
    match resolution_error(
        res,
        room.tls_start,
        room.tls_end,
        room.active,
        room.got - s.got.len(),
        room.plt - s.plt.len(),
        room.rela_dyn - s.rela_dyn.len(),
    ) {
        Some(e) => Err(e),
        None => Ok(
            GotPlt {
                got: if res.got_address.is_some() {
                    s.got + got_bytes(res, room.tls_end, room.active)
                } else {
                    s.got
                },
                plt: if wants_plt(res) {
                    s.plt + plt_entry(res.got_address.unwrap(), res.plt_address.unwrap())
                } else {
                    s.plt
                },
                rela_dyn: if wants_got_relocation(res, room.active) {
                    s.rela_dyn + relative_relocation(res.got_address.unwrap(), res.address).encoding()
                } else {
                    s.rela_dyn
                },
            },
        ),
    }
}

/// What the three windows hold after filling the GOT slot and PLT entry
/// of a resolution has failed. The PLT is never touched by a call that
/// fails. Where the GOT has no room for the slot, or a TLS offset slot
/// refers to an address outside of the TLS segment, nothing is touched at
/// all. Any later failure finds the GOT slot taken and filled, and the
/// dynamic relocation for it written if there was room for one.
pub open spec fn left_by_failure(s: GotPlt, room: GotPltRoom, res: Resolution) -> GotPlt {
    if res.got_address.is_none() || room.got - s.got.len() < got_need(res.kind) || (res.kind
        == TargetResolutionKind::GotTlsOffset && !(room.tls_start <= res.address < room.tls_end)) {
        s
    } else {
        GotPlt {
            got: s.got + got_bytes(res, room.tls_end, room.active),
            plt: s.plt,
            rela_dyn: if wants_got_relocation(res, room.active) && room.rela_dyn - s.rela_dyn.len()
                >= RELA_ENTRY_SIZE {
                s.rela_dyn + relative_relocation(res.got_address.unwrap(), res.address).encoding()
            } else {
                s.rela_dyn
            },
        }
    }
}

/// A call that fails because the GOT is too small or because a TLS offset
/// lies outside of the TLS segment writes nothing, and no call that fails
/// writes to the PLT.
pub proof fn lemma_failure_spares_windows(s: GotPlt, room: GotPltRoom, res: Resolution)
    requires
        resolved(s, room, res).is_err(),
    ensures
        left_by_failure(s, room, res).plt == s.plt,
        resolved(s, room, res) == Err::<GotPlt, EmitError>(EmitError::GotTooSmall) || resolved(
            s,
            room,
            res,
        ) == Err::<GotPlt, EmitError>(EmitError::TlsAddressOutsideSegment) ==> left_by_failure(
            s,
            room,
            res,
        ) == s,
{
}

/// What filling the GOT slot and PLT entry of a global symbol makes of the
/// three windows: nothing, unless the symbol is resolved.
pub open spec fn symbol_resolved(
    layout: &Layout,
    id: SymbolId,
    s: GotPlt,
    room: GotPltRoom,
) -> Result<GotPlt, EmitError> {
    match layout.resolution_of(id) {
        Some(SymbolResolution::Resolved(res)) => resolved(s, room, res),
        _ => Ok(s),
    }
}

/// What `process_resolution` does: with which result it ends and what
/// each of the three windows holds afterwards, where it succeeds and where
/// it fails.
pub open spec fn resolution_outcome(
    before: PltGotWriter,
    rw_before: RelocationWriter,
    res: Resolution,
    after: PltGotWriter,
    rw_after: RelocationWriter,
    r: Result<(), EmitError>,
) -> bool {
    match resolved(got_plt_of(before, rw_before), got_plt_room(before, rw_before), res) {
        Err(e) => r == Err::<(), EmitError>(e) && got_plt_of(after, rw_after) == left_by_failure(
            got_plt_of(before, rw_before),
            got_plt_room(before, rw_before),
            res,
        ),
        Ok(s) => r.is_ok() && got_plt_of(after, rw_after) == s,
    }
}

} // verus!
