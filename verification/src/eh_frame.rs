//! Copies the `.eh_frame` records of an input to the output, drops those
//! that describe discarded code, points each FDE at the output position of
//! its CIE, and emits one search table row per kept FDE.

use vstd::prelude::*;
use crate::bytes::{
    add_wrapping, copy_range, le_bytes, le_seq, put_bytes, read_u32, splice, sub_wrapping, u32_at,
    wrapping_diff, wrapping_sum,
};
use crate::cie_map::{cie_map_get, cie_map_insert, cie_map_new, cie_positions, no_cies};
use crate::elf::{EhFrameHdrEntry, EH_FRAME_HDR_ENTRY_SIZE, EH_FRAME_PREFIX_LEN, FDE_PC_BEGIN_OFFSET};
use crate::error::EmitError;
use crate::layout::{
    EhFrameSection, Layout, ObjectLayout, Relocation, RelocationTarget, SymbolPlacement,
    EH_FRAME_HDR,
};
use crate::plt_got::RelocationWriter;
use crate::relocation::{
    apply_relocation, dynamic_bytes, left_by_failed_relocation, relocation_outcome,
};
use crate::window::Window;

verus! {

/// How far the walk over an input `.eh_frame` section has come.
pub struct EhState {
    /// Position of the next record in the input.
    pub input_pos: int,
    /// What the `.eh_frame` window holds.
    pub output: Seq<u8>,
    /// What the `.eh_frame_hdr` window holds.
    pub headers: Seq<u8>,
    /// The first relocation that has not been dealt with.
    pub next_rel: int,
    /// Output position of each CIE seen so far, by its input position.
    pub cies: Map<u32, u32>,
    /// What the `.rela.dyn` window holds.
    pub rela: Seq<u8>,
}

/// The room that the three windows of the walk have in all.
pub struct EhRoom {
    pub eh_frame: int,
    pub eh_frame_hdr: int,
    pub rela_dyn: int,
    /// Whether dynamic relocations are being written.
    pub active: bool,
}

/// The first relocation from `from` on that lies at or after `limit`.
pub open spec fn skip_to(rels: Seq<Relocation>, from: int, limit: int) -> int
    decreases rels.len() - from,
{
    if from < 0 || from >= rels.len() || rels[from].offset >= limit {
        from
    } else {
        skip_to(rels, from + 1, limit)
    }
}

/// The search table row of an FDE at address `fde_address` that describes
/// the function at `target`, for a table that starts at `hdr_address`.
pub open spec fn frame_entry(target: int, hdr_address: u64, fde_address: int) -> Result<
    EhFrameHdrEntry,
    EmitError,
> {
    let frame_ptr = target - hdr_address;
    if frame_ptr < i32::MIN || frame_ptr > i32::MAX {
        Err(EmitError::FramePtrOverflow)
    } else if fde_address > i32::MAX {
        Err(EmitError::FrameInfoPtrOverflow)
    } else {
        Ok(EhFrameHdrEntry { frame_ptr: frame_ptr as i32, frame_info_ptr: fde_address as i32 })
    }
}

fn make_frame_entry(address: u64, offset: u64, hdr_address: u64, base: u64, output_pos: usize) -> (r:
    Result<EhFrameHdrEntry, EmitError>)
    ensures
        r == frame_entry(address + offset, hdr_address, base + output_pos),
{
    let frame_ptr: i128 = (address as i128) + (offset as i128) - (hdr_address as i128);
    if frame_ptr < -0x8000_0000 || frame_ptr > 0x7fff_ffff {
        return Err(EmitError::FramePtrOverflow);
    }
    let fde_address: i128 = (base as i128) + (output_pos as i128);
    if fde_address > 0x7fff_ffff {
        return Err(EmitError::FrameInfoPtrOverflow);
    }
    Ok(EhFrameHdrEntry { frame_ptr: frame_ptr as i32, frame_info_ptr: fde_address as i32 })
}

/// The state of the walk as the windows and the map of CIEs hold it.
pub open spec fn state_of(
    input_pos: int,
    eh_frame: Window,
    eh_frame_hdr: Window,
    next_rel: int,
    cies: Map<u32, u32>,
    writer: RelocationWriter,
) -> EhState {
    EhState {
        input_pos,
        output: eh_frame.data@,
        headers: eh_frame_hdr.data@,
        next_rel,
        cies,
        rela: writer.rela_dyn.data@,
    }
}

/// The room that the windows of the walk have.
pub open spec fn room_of(eh_frame: Window, eh_frame_hdr: Window, writer: RelocationWriter) -> EhRoom {
    EhRoom {
        eh_frame: eh_frame.capacity as int,
        eh_frame_hdr: eh_frame_hdr.capacity as int,
        rela_dyn: writer.rela_dyn.capacity as int,
        active: writer.is_active,
    }
}

/// Whether every CIE that the walk has recorded lies in the output
/// written so far.
pub open spec fn cies_behind(s: EhState) -> bool {
    forall|at: u32| s.cies.contains_key(at) ==> #[trigger] s.cies[at] <= s.output.len()
}

/// Dealing with a record keeps every recorded CIE within the output: a
/// CIE is recorded at the position at which it is then written, and the
/// output only grows.
pub proof fn lemma_cies_stay_behind(
    object: &ObjectLayout,
    section: &EhFrameSection,
    layout: &Layout,
    s: EhState,
    room: EhRoom,
)
    requires
        cies_behind(s),
        object.record_step(section, layout, s, room).is_ok(),
    ensures
        cies_behind(object.record_step(section, layout, s, room).unwrap()),
        object.record_step(section, layout, s, room).unwrap().output.len() >= s.output.len(),
        object.record_step(section, layout, s, room).unwrap().output.subrange(
            0,
            s.output.len() as int,
        ) == s.output,
        object.record_step(section, layout, s, room).unwrap().cies == if u32_at(
            section.data@,
            s.input_pos + 4,
        ) == 0 {
            s.cies.insert(s.input_pos as u32, s.output.len() as u32)
        } else {
            s.cies
        },
{
    let next = object.record_step(section, layout, s, room).unwrap();
    assert(next.output.len() >= s.output.len());
    assert(next.output.subrange(0, s.output.len() as int) =~= s.output);
    assert forall|at: u32| next.cies.contains_key(at) implies #[trigger] next.cies[at]
        <= next.output.len() by {
        if s.cies.contains_key(at) && next.cies[at] == s.cies[at] {
        } else {
            assert(next.cies[at] == s.output.len());
        }
    }
}

/// Whether every position that the walk has recorded is one at which a
/// CIE stands in the input.
pub open spec fn cies_are_cies(section: &EhFrameSection, s: EhState) -> bool {
    forall|at: u32|
        #![trigger s.cies.contains_key(at)]
        s.cies.contains_key(at) ==> at + EH_FRAME_PREFIX_LEN <= section.data@.len() && u32_at(
            section.data@,
            at + 4,
        ) == 0
}

/// Dealing with a record records nothing but CIEs.
pub proof fn lemma_only_cies_recorded(
    object: &ObjectLayout,
    section: &EhFrameSection,
    layout: &Layout,
    s: EhState,
    room: EhRoom,
)
    requires
        0 <= s.input_pos,
        s.input_pos + EH_FRAME_PREFIX_LEN <= section.data@.len(),
        cies_are_cies(section, s),
        object.record_step(section, layout, s, room).is_ok(),
    ensures
        cies_are_cies(section, object.record_step(section, layout, s, room).unwrap()),
{
    let next = object.record_step(section, layout, s, room).unwrap();
    assert forall|at: u32| #![trigger next.cies.contains_key(at)] next.cies.contains_key(
        at,
    ) implies at + EH_FRAME_PREFIX_LEN <= section.data@.len() && u32_at(section.data@, at + 4)
        == 0 by {
        if s.cies.contains_key(at) {
        } else {
            assert(at == s.input_pos);
        }
    }
}

/// Whether the FDE at `s.input_pos`, if it is kept, points back at its
/// CIE: the position that its old pointer led to in the input is one at
/// which a CIE stands and that the walk has recorded, and going back from
/// the pointer field in the output by the new pointer arrives at the output
/// position recorded for that CIE, which lies in the output written so far.
pub open spec fn fde_finds_cie(
    object: &ObjectLayout,
    section: &EhFrameSection,
    layout: &Layout,
    s: EhState,
    room: EhRoom,
) -> bool {
    let data = section.data@;
    let cie_id = u32_at(data, s.input_pos + 4);
    let next_input = s.input_pos + 4 + u32_at(data, s.input_pos);
    let input_cie = s.input_pos + 4 - cie_id;
    match object.fde_plan(section, layout, s, cie_id, next_input, room) {
        Ok(Some(plan)) => {
            &&& 0 <= input_cie <= u32::MAX
            &&& s.cies.contains_key(input_cie as u32)
            &&& u32_at(data, input_cie + 4) == 0
            &&& s.cies[input_cie as u32] <= s.output.len()
            &&& (s.output.len() + 4) - plan.cie_pointer == s.cies[input_cie as u32]
        },
        _ => true,
    }
}

/// Whether, along the walk from `s` on, every FDE that is kept points
/// back at its CIE.
pub open spec fn every_kept_fde_finds_its_cie(
    object: &ObjectLayout,
    section: &EhFrameSection,
    layout: &Layout,
    s: EhState,
    room: EhRoom,
) -> bool
    decreases section.data@.len() - s.input_pos,
{
    if s.input_pos + EH_FRAME_PREFIX_LEN <= section.data@.len() {
        match object.record_step(section, layout, s, room) {
            Err(e) => true,
            Ok(next) => (u32_at(section.data@, s.input_pos + 4) != 0 ==> fde_finds_cie(
                object,
                section,
                layout,
                s,
                room,
            )) && (next.input_pos > s.input_pos ==> every_kept_fde_finds_its_cie(
                object,
                section,
                layout,
                next,
                room,
            )),
        }
    } else {
        true
    }
}

/// The CIE pointers of the FDEs round-trip along the whole walk: from
/// any state that has recorded only CIEs, each within the output written so
/// far, every FDE that is kept from there on points back at its CIE.
pub proof fn lemma_every_kept_fde_finds_its_cie(
    object: &ObjectLayout,
    section: &EhFrameSection,
    layout: &Layout,
    s: EhState,
    room: EhRoom,
)
    requires
        0 <= s.input_pos,
        cies_behind(s),
        cies_are_cies(section, s),
    ensures
        every_kept_fde_finds_its_cie(object, section, layout, s, room),
    decreases section.data@.len() - s.input_pos,
{
    if s.input_pos + EH_FRAME_PREFIX_LEN <= section.data@.len() {
        let step = object.record_step(section, layout, s, room);
        if step.is_ok() {
            let next = step.unwrap();
            let cie_id = u32_at(section.data@, s.input_pos + 4);
            let next_input = s.input_pos + 4 + u32_at(section.data@, s.input_pos);
            if cie_id != 0 {
                let plan = object.fde_plan(section, layout, s, cie_id, next_input, room);
                if plan.is_ok() && plan.unwrap().is_some() {
                    lemma_cie_pointer_round_trip(
                        object,
                        section,
                        layout,
                        s,
                        cie_id,
                        next_input,
                        room,
                    );
                }
            }
            lemma_cies_stay_behind(object, section, layout, s, room);
            lemma_only_cies_recorded(object, section, layout, s, room);
            if next.input_pos > s.input_pos {
                lemma_every_kept_fde_finds_its_cie(object, section, layout, next, room);
            }
        }
    }
}

/// The CIE pointer of a kept FDE leads back to its CIE: going back from
/// the pointer field of the FDE in the output by the new pointer arrives at
/// the output position recorded for the CIE at the input position that the
/// old pointer led to from the pointer field in the input.
pub proof fn lemma_cie_pointer_round_trip(
    object: &ObjectLayout,
    section: &EhFrameSection,
    layout: &Layout,
    s: EhState,
    cie_id: int,
    next_input: int,
    room: EhRoom,
)
    requires
        0 <= s.input_pos,
        0 <= cie_id,
        s.input_pos + 4 <= u32::MAX,
        s.output.len() + 4 <= u32::MAX,
        object.fde_plan(section, layout, s, cie_id, next_input, room).is_ok(),
        object.fde_plan(section, layout, s, cie_id, next_input, room).unwrap().is_some(),
        cies_behind(s),
    ensures
        ({
            let plan = object.fde_plan(section, layout, s, cie_id, next_input, room).unwrap().unwrap();
            let input_cie = (s.input_pos + 4 - cie_id) as u32;
            &&& input_cie == s.input_pos + 4 - cie_id
            &&& s.cies.contains_key(input_cie)
            &&& (s.output.len() + 4) - plan.cie_pointer == s.cies[input_cie]
        }),
{
}

/// What is to be done with an FDE that is kept: its row of the search table
/// and the new value of its CIE pointer.
pub struct FdePlan {
    pub entry: EhFrameHdrEntry,
    pub cie_pointer: u64,
}

impl ObjectLayout {
    /// The section, and the offset in it, of the function that the pc-begin
    /// relocation of an FDE refers to.
    pub open spec fn pc_begin_target(&self, rel: Relocation) -> Result<(usize, u64), EmitError> {
        match rel.target {
            RelocationTarget::Symbol(symbol) => if symbol >= self.symbols@.len() {
                Err(EmitError::BadIndex)
            } else {
                match self.symbols@[symbol as int].placement {
                    SymbolPlacement::Section(section) => Ok(
                        (section, self.symbols@[symbol as int].address),
                    ),
                    _ => Err(EmitError::BadPcBegin),
                }
            },
            RelocationTarget::Section(section) => Ok((section, 0)),
            _ => Err(EmitError::BadPcBegin),
        }
    }

    fn find_pc_begin_target(&self, rel: &Relocation) -> (r: Result<(usize, u64), EmitError>)
        ensures
            r == self.pc_begin_target(*rel),
    {
        match rel.target {
            RelocationTarget::Symbol(symbol) => {
                if symbol >= self.symbols.len() {
                    Err(EmitError::BadIndex)
                } else {
                    match self.symbols[symbol].placement {
                        SymbolPlacement::Section(section) => Ok(
                            (section, self.symbols[symbol].address),
                        ),
                        _ => Err(EmitError::BadPcBegin),
                    }
                }
            },
            RelocationTarget::Section(section) => Ok((section, 0)),
            _ => Err(EmitError::BadPcBegin),
        }
    }

    /// Decides what becomes of the FDE at `s.input_pos`, whose CIE pointer
    /// is `cie_id` and whose record ends at `next_input`. The FDE is kept if
    /// the next relocation is the one of its pc-begin field and refers to a
    /// section that is part of the output; `Ok(None)` means that it is dropped.
    pub open spec fn fde_plan(
        &self,
        section: &EhFrameSection,
        layout: &Layout,
        s: EhState,
        cie_id: int,
        next_input: int,
        room: EhRoom,
    ) -> Result<Option<FdePlan>, EmitError> {
        let rels = section.relocations@;
        if 0 <= s.next_rel < rels.len() && rels[s.next_rel].offset < next_input
            && rels[s.next_rel].offset == s.input_pos + FDE_PC_BEGIN_OFFSET {
            match self.pc_begin_target(rels[s.next_rel]) {
                Err(e) => Err(e),
                Ok(target) => match self.section_resolution(target.0) {
                    None => Ok(None),
                    Some(resolution) => if cie_id > s.input_pos + 4 {
                        Err(EmitError::CiePointerTooLarge)
                    } else {
                        match frame_entry(
                            resolution.address + target.1,
                            layout.section_layouts@[EH_FRAME_HDR as int].mem_offset,
                            self.eh_frame_start_address + s.output.len(),
                        ) {
                            Err(e) => Err(e),
                            Ok(entry) => if room.eh_frame_hdr - s.headers.len()
                                < EH_FRAME_HDR_ENTRY_SIZE {
                                Err(EmitError::EhFrameHdrTooSmall)
                            } else {
                                let input_cie = (s.input_pos + 4 - cie_id) as u32;
                                if !s.cies.contains_key(input_cie) {
                                    Err(EmitError::DanglingCie)
                                } else {
                                    Ok(
                                        Some(
                                            FdePlan {
                                                entry,
                                                cie_pointer: wrapping_diff(
                                                    (s.output.len() + 4) as u64,
                                                    s.cies[input_cie] as u64,
                                                ),
                                            },
                                        ),
                                    )
                                }
                            },
                        }
                    },
                },
            }
        } else {
            Ok(None)
        }
    }

    /// Applies the relocations from `from` on that lie before `limit` to
    /// the bytes of the record that starts at `input_pos` in the input and at
    /// `record_address` in memory. Gives the record's bytes, what `.rela.dyn`
    /// holds, and the first relocation that was not applied.
    pub open spec fn record_relocations(
        &self,
        rels: Seq<Relocation>,
        layout: &Layout,
        from: int,
        limit: int,
        input_pos: u64,
        record_address: u64,
        entry: Seq<u8>,
        rela: Seq<u8>,
        active: bool,
        rela_room: int,
    ) -> Result<(Seq<u8>, Seq<u8>, int), EmitError>
        decreases rels.len() - from,
    {
        if from < 0 || from >= rels.len() || rels[from].offset >= limit {
            Ok((entry, rela, from))
        } else {
            match self.resolution_for(rels[from], layout) {
                Err(e) => Err(e),
                Ok(None) => self.record_relocations(
                    rels,
                    layout,
                    from + 1,
                    limit,
                    input_pos,
                    record_address,
                    entry,
                    rela,
                    active,
                    rela_room,
                ),
                Ok(Some(resolution)) => match relocation_outcome(
                    resolution,
                    wrapping_diff(rels[from].offset, input_pos),
                    rels[from],
                    record_address,
                    layout,
                    entry,
                    active,
                    rela_room - rela.len(),
                ) {
                    Err(e) => Err(e),
                    Ok(applied) => self.record_relocations(
                        rels,
                        layout,
                        from + 1,
                        limit,
                        input_pos,
                        record_address,
                        applied.out,
                        rela + dynamic_bytes(applied.dynamic),
                        active,
                        rela_room,
                    ),
                },
            }
        }
    }

    /// Copies the record from `input_pos` up to `next_input` to the end of
    /// `output`, with its CIE pointer replaced if `cie_pointer` says so and
    /// its relocations applied. Gives what `.eh_frame` and `.rela.dyn` hold
    /// afterwards and the first relocation that was not applied.
    pub open spec fn kept_record(
        &self,
        section: &EhFrameSection,
        layout: &Layout,
        input_pos: int,
        next_input: int,
        next_rel: int,
        cie_pointer: Option<u64>,
        output: Seq<u8>,
        rela: Seq<u8>,
        room: EhRoom,
    ) -> Result<(Seq<u8>, Seq<u8>, int), EmitError> {
        let size = next_input - input_pos;
        if output.len() + size > room.eh_frame {
            Err(EmitError::EhFrameTooSmall)
        } else if cie_pointer.is_some() && size < EH_FRAME_PREFIX_LEN {
            Err(EmitError::InvalidEhFrame)
        } else {
            let raw = section.data@.subrange(input_pos, next_input);
            let entry = match cie_pointer {
                Some(p) => splice(raw, 4, le_seq(p, 4)),
                None => raw,
            };
            match self.record_relocations(
                section.relocations@,
                layout,
                next_rel,
                next_input,
                input_pos as u64,
                wrapping_sum(output.len() as u64, self.eh_frame_start_address),
                entry,
                rela,
                room.active,
                room.rela_dyn,
            ) {
                Err(e) => Err(e),
                Ok(done) => Ok((output + done.0, done.1, done.2)),
            }
        }
    }

    /// Deals with the record at `s.input_pos`.
    pub open spec fn record_step(
        &self,
        section: &EhFrameSection,
        layout: &Layout,
        s: EhState,
        room: EhRoom,
    ) -> Result<EhState, EmitError> {
        let data = section.data@;
        let length = u32_at(data, s.input_pos);
        let cie_id = u32_at(data, s.input_pos + 4);
        let next_input = s.input_pos + 4 + length;
        if next_input > data.len() {
            Err(EmitError::InvalidEhFrame)
        } else if next_input > u32::MAX || s.output.len() + 4 > u32::MAX {
            Err(EmitError::FieldOverflow)
        } else if cie_id == 0 {
            match self.kept_record(
                section,
                layout,
                s.input_pos,
                next_input,
                s.next_rel,
                None,
                s.output,
                s.rela,
                room,
            ) {
                Err(e) => Err(e),
                Ok(done) => Ok(
                    EhState {
                        input_pos: next_input,
                        output: done.0,
                        headers: s.headers,
                        next_rel: done.2,
                        cies: s.cies.insert(s.input_pos as u32, s.output.len() as u32),
                        rela: done.1,
                    },
                ),
            }
        } else {
            match self.fde_plan(section, layout, s, cie_id, next_input, room) {
                Err(e) => Err(e),
                Ok(None) => Ok(
                    EhState {
                        input_pos: next_input,
                        output: s.output,
                        headers: s.headers,
                        next_rel: skip_to(section.relocations@, s.next_rel, next_input),
                        cies: s.cies,
                        rela: s.rela,
                    },
                ),
                Ok(Some(plan)) => match self.kept_record(
                    section,
                    layout,
                    s.input_pos,
                    next_input,
                    s.next_rel,
                    Some(plan.cie_pointer),
                    s.output,
                    s.rela,
                    room,
                ) {
                    Err(e) => Err(e),
                    Ok(done) => Ok(
                        EhState {
                            input_pos: next_input,
                            output: done.0,
                            headers: s.headers + plan.entry.encoding(),
                            next_rel: done.2,
                            cies: s.cies,
                            rela: done.1,
                        },
                    ),
                },
            }
        }
    }

    /// What `.rela.dyn` holds when applying the relocations of a record
    /// from `from` on has failed: the dynamic relocations of the relocations
    /// that were applied before the one that failed, and the one of that
    /// relocation if it got as far as writing it.
    pub open spec fn record_rela_left(
        &self,
        rels: Seq<Relocation>,
        layout: &Layout,
        from: int,
        limit: int,
        input_pos: u64,
        record_address: u64,
        entry: Seq<u8>,
        rela: Seq<u8>,
        active: bool,
        rela_room: int,
    ) -> Seq<u8>
        decreases rels.len() - from,
    {
        if from < 0 || from >= rels.len() || rels[from].offset >= limit {
            rela
        } else {
            match self.resolution_for(rels[from], layout) {
                Err(e) => rela,
                Ok(None) => self.record_rela_left(
                    rels,
                    layout,
                    from + 1,
                    limit,
                    input_pos,
                    record_address,
                    entry,
                    rela,
                    active,
                    rela_room,
                ),
                Ok(Some(resolution)) => match relocation_outcome(
                    resolution,
                    wrapping_diff(rels[from].offset, input_pos),
                    rels[from],
                    record_address,
                    layout,
                    entry,
                    active,
                    rela_room - rela.len(),
                ) {
                    Err(e) => rela + dynamic_bytes(
                        left_by_failed_relocation(
                            resolution,
                            wrapping_diff(rels[from].offset, input_pos),
                            rels[from],
                            record_address,
                            layout,
                            entry,
                            active,
                            rela_room - rela.len(),
                        ).1,
                    ),
                    Ok(applied) => self.record_rela_left(
                        rels,
                        layout,
                        from + 1,
                        limit,
                        input_pos,
                        record_address,
                        applied.out,
                        rela + dynamic_bytes(applied.dynamic),
                        active,
                        rela_room,
                    ),
                },
            }
        }
    }

    /// What `.rela.dyn` holds when copying a record to the output has
    /// failed. The output itself holds nothing of a record that failed: a
    /// record is appended to it only after all its relocations were applied.
    pub open spec fn kept_rela_left(
        &self,
        section: &EhFrameSection,
        layout: &Layout,
        input_pos: int,
        next_input: int,
        next_rel: int,
        cie_pointer: Option<u64>,
        output: Seq<u8>,
        rela: Seq<u8>,
        room: EhRoom,
    ) -> Seq<u8> {
        let size = next_input - input_pos;
        if output.len() + size > room.eh_frame || (cie_pointer.is_some() && size
            < EH_FRAME_PREFIX_LEN) {
            rela
        } else {
            let raw = section.data@.subrange(input_pos, next_input);
            let entry = match cie_pointer {
                Some(p) => splice(raw, 4, le_seq(p, 4)),
                None => raw,
            };
            self.record_rela_left(
                section.relocations@,
                layout,
                next_rel,
                next_input,
                input_pos as u64,
                wrapping_sum(output.len() as u64, self.eh_frame_start_address),
                entry,
                rela,
                room.active,
                room.rela_dyn,
            )
        }
    }

    /// What `.rela.dyn` holds when dealing with the record at
    /// `s.input_pos` has failed.
    pub open spec fn step_rela_left(
        &self,
        section: &EhFrameSection,
        layout: &Layout,
        s: EhState,
        room: EhRoom,
    ) -> Seq<u8> {
        let data = section.data@;
        let length = u32_at(data, s.input_pos);
        let cie_id = u32_at(data, s.input_pos + 4);
        let next_input = s.input_pos + 4 + length;
        if next_input > data.len() || next_input > u32::MAX || s.output.len() + 4 > u32::MAX {
            s.rela
        } else if cie_id == 0 {
            self.kept_rela_left(
                section,
                layout,
                s.input_pos,
                next_input,
                s.next_rel,
                None,
                s.output,
                s.rela,
                room,
            )
        } else {
            match self.fde_plan(section, layout, s, cie_id, next_input, room) {
                Ok(Some(plan)) => self.kept_rela_left(
                    section,
                    layout,
                    s.input_pos,
                    next_input,
                    s.next_rel,
                    Some(plan.cie_pointer),
                    s.output,
                    s.rela,
                    room,
                ),
                _ => s.rela,
            }
        }
    }

    /// What the three windows hold when the walk from `s` on has failed.
    /// The `.eh_frame` and `.eh_frame_hdr` windows hold what the records
    /// before the one that failed have made of them: of a truncated record,
    /// or of an FDE whose CIE pointer leads nowhere, nothing is copied and
    /// no row is written. `.rela.dyn` holds in addition the dynamic
    /// relocations that were written for the failing record before it failed.
    pub open spec fn walk_left(
        &self,
        section: &EhFrameSection,
        layout: &Layout,
        s: EhState,
        room: EhRoom,
    ) -> EhState
        decreases section.data@.len() - s.input_pos,
    {
        if s.input_pos + EH_FRAME_PREFIX_LEN <= section.data@.len() {
            match self.record_step(section, layout, s, room) {
                Err(e) => EhState {
                    input_pos: s.input_pos,
                    output: s.output,
                    headers: s.headers,
                    next_rel: s.next_rel,
                    cies: s.cies,
                    rela: self.step_rela_left(section, layout, s, room),
                },
                Ok(next) => if next.input_pos > s.input_pos {
                    self.walk_left(section, layout, next, room)
                } else {
                    s
                },
            }
        } else {
            s
        }
    }

    /// Deals with every record from `s.input_pos` on, then copies what
    /// follows the last record as it is.
    pub open spec fn walk(
        &self,
        section: &EhFrameSection,
        layout: &Layout,
        s: EhState,
        room: EhRoom,
    ) -> Result<EhState, EmitError>
        decreases section.data@.len() - s.input_pos,
    {
        let data = section.data@;
        if s.input_pos + EH_FRAME_PREFIX_LEN <= data.len() {
            match self.record_step(section, layout, s, room) {
                Err(e) => Err(e),
                Ok(next) => if next.input_pos > s.input_pos {
                    self.walk(section, layout, next, room)
                } else {
                    Err(EmitError::InvalidEhFrame)
                },
            }
        } else if s.input_pos > data.len() {
            Err(EmitError::InvalidEhFrame)
        } else if s.output.len() + (data.len() - s.input_pos) > room.eh_frame {
            Err(EmitError::EhFrameTooSmall)
        } else {
            Ok(
                EhState {
                    input_pos: data.len() as int,
                    output: s.output + data.subrange(s.input_pos, data.len() as int),
                    headers: s.headers,
                    next_rel: s.next_rel,
                    cies: s.cies,
                    rela: s.rela,
                },
            )
        }
    }

    fn skip_relocations(section: &EhFrameSection, from: usize, limit: usize) -> (r: usize)
        requires
            from <= section.relocations@.len(),
        ensures
            r == skip_to(section.relocations@, from as int, limit as int),
            from <= r <= section.relocations@.len(),
    {
        let mut i: usize = from;
        while i < section.relocations.len() && section.relocations[i].offset < limit as u64
            invariant
                from <= i <= section.relocations@.len(),
                skip_to(section.relocations@, from as int, limit as int) == skip_to(
                    section.relocations@,
                    i as int,
                    limit as int,
                ),
            decreases section.relocations@.len() - i,
        {
            i += 1;
        }
        i
    }

    fn apply_record_relocations(
        &self,
        section: &EhFrameSection,
        layout: &Layout,
        from: usize,
        limit: usize,
        input_pos: usize,
        record_address: u64,
        entry: &mut Vec<u8>,
        relocation_writer: &mut RelocationWriter,
    ) -> (r: Result<usize, EmitError>)
        requires
            old(relocation_writer).wf(),
            from <= section.relocations@.len(),
        ensures
            final(relocation_writer).wf(),
            final(relocation_writer).is_active == old(relocation_writer).is_active,
            final(relocation_writer).rela_dyn.capacity == old(relocation_writer).rela_dyn.capacity,
            final(entry)@.len() == old(entry)@.len(),
            match self.record_relocations(
                section.relocations@,
                layout,
                from as int,
                limit as int,
                input_pos as u64,
                record_address,
                old(entry)@,
                old(relocation_writer).rela_dyn.data@,
                old(relocation_writer).is_active,
                old(relocation_writer).rela_dyn.capacity as int,
            ) {
                Err(e) => r == Err::<usize, EmitError>(e) && final(relocation_writer).rela_dyn.data@
                    == self.record_rela_left(
                    section.relocations@,
                    layout,
                    from as int,
                    limit as int,
                    input_pos as u64,
                    record_address,
                    old(entry)@,
                    old(relocation_writer).rela_dyn.data@,
                    old(relocation_writer).is_active,
                    old(relocation_writer).rela_dyn.capacity as int,
                ),
                Ok(done) => r == Ok::<usize, EmitError>(done.2 as usize) && final(entry)@ == done.0
                    && final(relocation_writer).rela_dyn.data@ == done.1 && from <= done.2
                    <= section.relocations@.len(),
            },
    {
        let mut i: usize = from;
        while i < section.relocations.len() && section.relocations[i].offset < limit as u64
            invariant
                from <= i <= section.relocations@.len(),
                relocation_writer.wf(),
                relocation_writer.is_active == old(relocation_writer).is_active,
                relocation_writer.rela_dyn.capacity == old(relocation_writer).rela_dyn.capacity,
                entry@.len() == old(entry)@.len(),
                self.record_rela_left(
                    section.relocations@,
                    layout,
                    from as int,
                    limit as int,
                    input_pos as u64,
                    record_address,
                    old(entry)@,
                    old(relocation_writer).rela_dyn.data@,
                    old(relocation_writer).is_active,
                    old(relocation_writer).rela_dyn.capacity as int,
                ) == self.record_rela_left(
                    section.relocations@,
                    layout,
                    i as int,
                    limit as int,
                    input_pos as u64,
                    record_address,
                    entry@,
                    relocation_writer.rela_dyn.data@,
                    old(relocation_writer).is_active,
                    old(relocation_writer).rela_dyn.capacity as int,
                ),
                self.record_relocations(
                    section.relocations@,
                    layout,
                    from as int,
                    limit as int,
                    input_pos as u64,
                    record_address,
                    old(entry)@,
                    old(relocation_writer).rela_dyn.data@,
                    old(relocation_writer).is_active,
                    old(relocation_writer).rela_dyn.capacity as int,
                ) == self.record_relocations(
                    section.relocations@,
                    layout,
                    i as int,
                    limit as int,
                    input_pos as u64,
                    record_address,
                    entry@,
                    relocation_writer.rela_dyn.data@,
                    old(relocation_writer).is_active,
                    old(relocation_writer).rela_dyn.capacity as int,
                ),
            decreases section.relocations@.len() - i,
        {
            let rel = &section.relocations[i];
            match self.get_resolution(rel, layout) {
                Err(e) => {
                    return Err(e);
                },
                Ok(None) => {},
                Ok(Some(resolution)) => {
                    match apply_relocation(
                        &resolution,
                        sub_wrapping(rel.offset, input_pos as u64),
                        rel,
                        record_address,
                        layout,
                        entry,
                        relocation_writer,
                    ) {
                        Err(e) => {
                            return Err(e);
                        },
                        Ok(_) => {},
                    }
                },
            }
            i += 1;
        }
        Ok(i)
    }

    fn plan_fde(
        &self,
        section: &EhFrameSection,
        layout: &Layout,
        input_pos: usize,
        next_input_pos: usize,
        next_rel: usize,
        cie_id: u32,
        eh_frame: &Window,
        eh_frame_hdr: &Window,
        cies: &ahash::AHashMap<u32, u32>,
        relocation_writer: &RelocationWriter,
    ) -> (r: Result<Option<FdePlan>, EmitError>)
        requires
            layout.wf(),
            eh_frame.wf(),
            eh_frame_hdr.wf(),
            input_pos + 4 <= next_input_pos <= u32::MAX,
            eh_frame.data@.len() + 4 <= u32::MAX,
        ensures
            r == self.fde_plan(
                section,
                layout,
                state_of(
                    input_pos as int,
                    *eh_frame,
                    *eh_frame_hdr,
                    next_rel as int,
                    cie_positions(*cies),
                    *relocation_writer,
                ),
                cie_id as int,
                next_input_pos as int,
                room_of(*eh_frame, *eh_frame_hdr, *relocation_writer),
            ),
    {
        if !(next_rel < section.relocations.len()) {
            return Ok(None);
        }
        let rel = &section.relocations[next_rel];
        if !(rel.offset < next_input_pos as u64 && rel.offset == input_pos as u64
            + FDE_PC_BEGIN_OFFSET as u64) {
            return Ok(None);
        }
        let target = match self.find_pc_begin_target(rel) {
            Err(e) => {
                return Err(e);
            },
            Ok(t) => t,
        };
        let resolution = match self.resolution_of_section(target.0) {
            None => {
                return Ok(None);
            },
            Some(resolution) => resolution,
        };
        if cie_id as usize > input_pos + 4 {
            return Err(EmitError::CiePointerTooLarge);
        }
        let output_pos: usize = eh_frame.data.len();
        let entry = match make_frame_entry(
            resolution.address,
            target.1,
            layout.section_layouts[EH_FRAME_HDR].mem_offset,
            self.eh_frame_start_address,
            output_pos,
        ) {
            Err(e) => {
                return Err(e);
            },
            Ok(entry) => entry,
        };
        if eh_frame_hdr.remaining() < EH_FRAME_HDR_ENTRY_SIZE {
            return Err(EmitError::EhFrameHdrTooSmall);
        }
        let input_cie: u32 = (input_pos + 4 - cie_id as usize) as u32;
        match cie_map_get(cies, input_cie) {
            None => Err(EmitError::DanglingCie),
            Some(output_cie) => Ok(
                Some(
                    FdePlan {
                        entry,
                        cie_pointer: sub_wrapping((output_pos + 4) as u64, output_cie as u64),
                    },
                ),
            ),
        }
    }

    fn keep_record(
        &self,
        section: &EhFrameSection,
        layout: &Layout,
        input_pos: usize,
        next_input_pos: usize,
        next_rel: usize,
        cie_pointer: Option<u64>,
        eh_frame: &mut Window,
        relocation_writer: &mut RelocationWriter,
    ) -> (r: Result<usize, EmitError>)
        requires
            old(eh_frame).wf(),
            old(relocation_writer).wf(),
            input_pos <= next_input_pos <= section.data@.len(),
            next_rel <= section.relocations@.len(),
        ensures
            final(eh_frame).wf(),
            final(relocation_writer).wf(),
            final(eh_frame).capacity == old(eh_frame).capacity,
            final(relocation_writer).is_active == old(relocation_writer).is_active,
            final(relocation_writer).rela_dyn.capacity == old(relocation_writer).rela_dyn.capacity,
            match self.kept_record(
                section,
                layout,
                input_pos as int,
                next_input_pos as int,
                next_rel as int,
                cie_pointer,
                old(eh_frame).data@,
                old(relocation_writer).rela_dyn.data@,
                EhRoom {
                    eh_frame: old(eh_frame).capacity as int,
                    eh_frame_hdr: 0,
                    rela_dyn: old(relocation_writer).rela_dyn.capacity as int,
                    active: old(relocation_writer).is_active,
                },
            ) {
                Err(e) => r == Err::<usize, EmitError>(e) && final(eh_frame).data@ == old(eh_frame).data@ && final(relocation_writer).rela_dyn.data@ == self.kept_rela_left(
                    section,
                    layout,
                    input_pos as int,
                    next_input_pos as int,
                    next_rel as int,
                    cie_pointer,
                    old(eh_frame).data@,
                    old(relocation_writer).rela_dyn.data@,
                    EhRoom {
                        eh_frame: old(eh_frame).capacity as int,
                        eh_frame_hdr: 0,
                        rela_dyn: old(relocation_writer).rela_dyn.capacity as int,
                        active: old(relocation_writer).is_active,
                    },
                ),
                Ok(done) => r == Ok::<usize, EmitError>(done.2 as usize) && final(eh_frame).data@
                    == done.0 && final(relocation_writer).rela_dyn.data@ == done.1 && next_rel
                    <= done.2 <= section.relocations@.len(),
            },
    {
        let size: usize = next_input_pos - input_pos;
        if size > eh_frame.remaining() {
            return Err(EmitError::EhFrameTooSmall);
        }
        let mut entry = copy_range(&section.data, input_pos, next_input_pos);
        if let Some(p) = cie_pointer {
            if size < EH_FRAME_PREFIX_LEN {
                return Err(EmitError::InvalidEhFrame);
            }
            let patch = le_bytes(p, 4);
            put_bytes(&mut entry, 4, &patch);
        }
        let record_address: u64 = add_wrapping(
            eh_frame.data.len() as u64,
            self.eh_frame_start_address,
        );
        let next = match self.apply_record_relocations(
            section,
            layout,
            next_rel,
            next_input_pos,
            input_pos,
            record_address,
            &mut entry,
            relocation_writer,
        ) {
            Err(e) => {
                return Err(e);
            },
            Ok(n) => n,
        };
        let done = eh_frame.emit(&entry);
        assert(done);
        Ok(next)
    }

    fn process_record(
        &self,
        section: &EhFrameSection,
        layout: &Layout,
        input_pos: usize,
        next_rel: usize,
        cies: &mut ahash::AHashMap<u32, u32>,
        eh_frame: &mut Window,
        eh_frame_hdr: &mut Window,
        relocation_writer: &mut RelocationWriter,
    ) -> (r: Result<(usize, usize), EmitError>)
        requires
            layout.wf(),
            old(eh_frame).wf(),
            old(eh_frame_hdr).wf(),
            old(relocation_writer).wf(),
            input_pos + EH_FRAME_PREFIX_LEN <= section.data@.len(),
            next_rel <= section.relocations@.len(),
        ensures
            final(eh_frame).wf(),
            final(eh_frame_hdr).wf(),
            final(relocation_writer).wf(),
            final(eh_frame).capacity == old(eh_frame).capacity,
            final(eh_frame_hdr).capacity == old(eh_frame_hdr).capacity,
            final(relocation_writer).is_active == old(relocation_writer).is_active,
            final(relocation_writer).rela_dyn.capacity == old(relocation_writer).rela_dyn.capacity,
            match self.record_step(
                section,
                layout,
                state_of(
                    input_pos as int,
                    *old(eh_frame),
                    *old(eh_frame_hdr),
                    next_rel as int,
                    cie_positions(*old(cies)),
                    *old(relocation_writer),
                ),
                room_of(*old(eh_frame), *old(eh_frame_hdr), *old(relocation_writer)),
            ) {
                Err(e) => r == Err::<(usize, usize), EmitError>(e) && final(eh_frame).data@ == old(eh_frame).data@ && final(eh_frame_hdr).data@ == old(eh_frame_hdr).data@ && final(relocation_writer).rela_dyn.data@ == self.step_rela_left(
                    section,
                    layout,
                    state_of(
                        input_pos as int,
                        *old(eh_frame),
                        *old(eh_frame_hdr),
                        next_rel as int,
                        cie_positions(*old(cies)),
                        *old(relocation_writer),
                    ),
                    room_of(*old(eh_frame), *old(eh_frame_hdr), *old(relocation_writer)),
                ),
                Ok(next) => r.is_ok() && r.unwrap().0 == next.input_pos && r.unwrap().1
                    == next.next_rel && input_pos < r.unwrap().0 <= section.data@.len()
                    && r.unwrap().1 <= section.relocations@.len() && final(eh_frame).data@
                    == next.output && final(eh_frame_hdr).data@ == next.headers && cie_positions(
                    *final(cies),
                ) == next.cies && final(relocation_writer).rela_dyn.data@ == next.rela,
            },
    {
        let data = &section.data;
        let total: usize = data.len();
        let relocation_count: usize = section.relocations.len();
        let length: u32 = read_u32(data, input_pos);
        let cie_id: u32 = read_u32(data, input_pos + 4);
        if length as usize > data.len() - input_pos - 4 {
            return Err(EmitError::InvalidEhFrame);
        }
        let next_input_pos: usize = input_pos + 4 + length as usize;
        let output_pos: usize = eh_frame.data.len();
        if next_input_pos > 0xffff_ffff || output_pos > 0xffff_ffff - 4 {
            return Err(EmitError::FieldOverflow);
        }
        if cie_id == 0 {
            let next = match self.keep_record(
                section,
                layout,
                input_pos,
                next_input_pos,
                next_rel,
                None,
                eh_frame,
                relocation_writer,
            ) {
                Err(e) => {
                    return Err(e);
                },
                Ok(n) => n,
            };
            cie_map_insert(cies, input_pos as u32, output_pos as u32);
            return Ok((next_input_pos, next));
        }
        let plan = match self.plan_fde(
            section,
            layout,
            input_pos,
            next_input_pos,
            next_rel,
            cie_id,
            eh_frame,
            eh_frame_hdr,
            cies,
            relocation_writer,
        ) {
            Err(e) => {
                return Err(e);
            },
            Ok(plan) => plan,
        };
        match plan {
            None => {
                let next = Self::skip_relocations(section, next_rel, next_input_pos);
                Ok((next_input_pos, next))
            },
            Some(plan) => {
                let next = match self.keep_record(
                    section,
                    layout,
                    input_pos,
                    next_input_pos,
                    next_rel,
                    Some(plan.cie_pointer),
                    eh_frame,
                    relocation_writer,
                ) {
                    Err(e) => {
                        return Err(e);
                    },
                    Ok(n) => n,
                };
                let row = plan.entry.encode();
                let done = eh_frame_hdr.emit(&row);
                assert(done);
                Ok((next_input_pos, next))
            },
        }
    }

    /// Copies the `.eh_frame` section of this input into the `.eh_frame`
    /// window, record by record, and appends one row to the
    /// `.eh_frame_hdr` window for every FDE that is kept.
    pub fn write_eh_frame_data(
        &self,
        section: &EhFrameSection,
        eh_frame: &mut Window,
        eh_frame_hdr: &mut Window,
        layout: &Layout,
        relocation_writer: &mut RelocationWriter,
    ) -> (r: Result<(), EmitError>)
        requires
            layout.wf(),
            old(eh_frame).wf(),
            old(eh_frame_hdr).wf(),
            old(relocation_writer).wf(),
        ensures
            final(eh_frame).wf(),
            final(eh_frame_hdr).wf(),
            final(relocation_writer).wf(),
            final(eh_frame).capacity == old(eh_frame).capacity,
            final(eh_frame_hdr).capacity == old(eh_frame_hdr).capacity,
            final(relocation_writer).is_active == old(relocation_writer).is_active,
            final(relocation_writer).rela_dyn.capacity == old(relocation_writer).rela_dyn.capacity,
            match self.walk(
                section,
                layout,
                state_of(0, *old(eh_frame), *old(eh_frame_hdr), 0, no_cies(), *old(relocation_writer)),
                room_of(*old(eh_frame), *old(eh_frame_hdr), *old(relocation_writer)),
            ) {
                Err(e) => {
                    let left = self.walk_left(
                        section,
                        layout,
                        state_of(
                            0,
                            *old(eh_frame),
                            *old(eh_frame_hdr),
                            0,
                            no_cies(),
                            *old(relocation_writer),
                        ),
                        room_of(*old(eh_frame), *old(eh_frame_hdr), *old(relocation_writer)),
                    );
                    r == Err::<(), EmitError>(e) && final(eh_frame).data@ == left.output && final(eh_frame_hdr).data@ == left.headers && final(relocation_writer).rela_dyn.data@ == left.rela
                },
                Ok(end) => r.is_ok() && final(eh_frame).data@ == end.output && final(eh_frame_hdr).data@ == end.headers && final(relocation_writer).rela_dyn.data@
                    == end.rela,
            },
            every_kept_fde_finds_its_cie(
                self,
                section,
                layout,
                state_of(0, *old(eh_frame), *old(eh_frame_hdr), 0, no_cies(), *old(relocation_writer)),
                room_of(*old(eh_frame), *old(eh_frame_hdr), *old(relocation_writer)),
            ),
    {
        proof {
            lemma_every_kept_fde_finds_its_cie(
                self,
                section,
                layout,
                state_of(0, *eh_frame, *eh_frame_hdr, 0, no_cies(), *relocation_writer),
                room_of(*eh_frame, *eh_frame_hdr, *relocation_writer),
            );
        }
        let mut cies = cie_map_new();
        let mut input_pos: usize = 0;
        let mut next_rel: usize = 0;
        while input_pos <= section.data.len() && EH_FRAME_PREFIX_LEN <= section.data.len()
            - input_pos
            invariant
                layout.wf(),
                eh_frame.wf(),
                eh_frame_hdr.wf(),
                relocation_writer.wf(),
                every_kept_fde_finds_its_cie(
                    self,
                    section,
                    layout,
                    state_of(
                        0,
                        *old(eh_frame),
                        *old(eh_frame_hdr),
                        0,
                        no_cies(),
                        *old(relocation_writer),
                    ),
                    room_of(*old(eh_frame), *old(eh_frame_hdr), *old(relocation_writer)),
                ),
                eh_frame.capacity == old(eh_frame).capacity,
                eh_frame_hdr.capacity == old(eh_frame_hdr).capacity,
                relocation_writer.rela_dyn.capacity == old(relocation_writer).rela_dyn.capacity,
                relocation_writer.is_active == old(relocation_writer).is_active,
                input_pos <= section.data@.len(),
                next_rel <= section.relocations@.len(),
                self.walk_left(
                    section,
                    layout,
                    state_of(
                        0,
                        *old(eh_frame),
                        *old(eh_frame_hdr),
                        0,
                        no_cies(),
                        *old(relocation_writer),
                    ),
                    room_of(*old(eh_frame), *old(eh_frame_hdr), *old(relocation_writer)),
                ) == self.walk_left(
                    section,
                    layout,
                    state_of(
                        input_pos as int,
                        *eh_frame,
                        *eh_frame_hdr,
                        next_rel as int,
                        cie_positions(cies),
                        *relocation_writer,
                    ),
                    room_of(*old(eh_frame), *old(eh_frame_hdr), *old(relocation_writer)),
                ),
                self.walk(
                    section,
                    layout,
                    state_of(
                        0,
                        *old(eh_frame),
                        *old(eh_frame_hdr),
                        0,
                        no_cies(),
                        *old(relocation_writer),
                    ),
                    room_of(*old(eh_frame), *old(eh_frame_hdr), *old(relocation_writer)),
                ) == self.walk(
                    section,
                    layout,
                    state_of(
                        input_pos as int,
                        *eh_frame,
                        *eh_frame_hdr,
                        next_rel as int,
                        cie_positions(cies),
                        *relocation_writer,
                    ),
                    room_of(*old(eh_frame), *old(eh_frame_hdr), *old(relocation_writer)),
                ),
            decreases section.data@.len() - input_pos,
        {
            assert(room_of(*eh_frame, *eh_frame_hdr, *relocation_writer) == room_of(
                *old(eh_frame),
                *old(eh_frame_hdr),
                *old(relocation_writer),
            ));
            match self.process_record(
                section,
                layout,
                input_pos,
                next_rel,
                &mut cies,
                eh_frame,
                eh_frame_hdr,
                relocation_writer,
            ) {
                Err(e) => {
                    return Err(e);
                },
                Ok(next) => {
                    input_pos = next.0;
                    next_rel = next.1;
                },
            }
        }
        let rest = copy_range(&section.data, input_pos, section.data.len());
        if !eh_frame.emit(&rest) {
            return Err(EmitError::EhFrameTooSmall);
        }
        Ok(())
    }
}

} // verus!
