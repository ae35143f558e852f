//! The resolved layout that emission consumes: where every section, segment
//! and symbol lives, and what each input contributes. All of it is plain data.

use vstd::prelude::*;
use crate::error::EmitError;
use crate::window::Window;

verus! {

/// Identity of an output section: its position in `Layout::sections`.
pub type SectionId = usize;

/// Identity of a global symbol: its position in `Layout::symbols`.
pub type SymbolId = usize;

pub const HEADERS: SectionId = 0;

pub const SHSTRTAB: SectionId = 1;

pub const EH_FRAME_HDR: SectionId = 2;

pub const EH_FRAME: SectionId = 3;

pub const INIT: SectionId = 4;

pub const FINI: SectionId = 5;

pub const INIT_ARRAY: SectionId = 6;

pub const FINI_ARRAY: SectionId = 7;

pub const DYNSTR: SectionId = 8;

pub const DYNSYM: SectionId = 9;

pub const RELA_DYN: SectionId = 10;

pub const BSS: SectionId = 11;

pub const COMMENT: SectionId = 12;

/// The number of sections that every layout has, whether emitted or not.
pub const NUM_BUILT_IN_SECTIONS: usize = 13;

/// How thread-local accesses are to be left in the output.
#[derive(Clone, Copy, Debug, PartialEq, Eq, Structural)]
pub enum TlsMode {
    /// Rewrite general- and local-dynamic accesses into local-exec ones.
    LocalExec,
    /// Keep the access model that the input uses.
    Preserve,
}

/// The options that emission depends on.
#[derive(Clone, Copy, Debug, PartialEq, Eq, Structural)]
pub struct Args {
    pub pie: bool,
    pub link_static: bool,
    pub strip_all: bool,
    pub tls_mode: TlsMode,
}

impl Args {
    /// The output can be loaded at any base exactly when it is a PIE.
    pub open spec fn relocatable(&self) -> bool {
        self.pie
    }

    /// Whether the output can be loaded at any base.
    pub fn is_relocatable(&self) -> (r: bool)
        ensures
            r == self.relocatable(),
    {
        self.pie
    }
}

/// What a GOT slot for a resolution has to hold.
#[derive(Clone, Copy, Debug, PartialEq, Eq, Structural)]
pub enum TargetResolutionKind {
    Address,
    Got,
    Plt,
    IFunc,
    GotTlsOffset,
    GotTlsDouble,
}

/// Where a symbol or section ended up.
#[derive(Clone, Copy, Debug, PartialEq, Eq)]
pub struct Resolution {
    pub address: u64,
    pub got_address: Option<u64>,
    pub plt_address: Option<u64>,
    pub kind: TargetResolutionKind,
}

/// The outcome of resolving a global symbol.
#[derive(Clone, Copy, Debug, PartialEq, Eq)]
pub enum SymbolResolution {
    Resolved(Resolution),
    Dynamic,
}

/// A global symbol as the symbol database knows it.
pub struct GlobalSymbol {
    pub name: Vec<u8>,
    /// The input file that defines it.
    pub file_id: usize,
    pub resolution: Option<SymbolResolution>,
}

/// The fixed properties of an output section.
pub struct SectionDetails {
    pub name: Vec<u8>,
    pub ty: u32,
    pub section_flags: u64,
    pub element_size: u64,
    /// The section that this one's header links to, if any.
    pub link: Option<SectionId>,
    pub info: u32,
    /// The index of the section's header, if the section is emitted.
    pub output_index: Option<u16>,
    /// Whether the section occupies bytes of the file.
    pub has_data_in_file: bool,
}

/// Where an output section lives in the file and in memory.
#[derive(Clone, Copy, Debug, PartialEq, Eq, Structural)]
pub struct SectionLayout {
    pub file_offset: usize,
    pub file_size: usize,
    pub mem_offset: u64,
    pub mem_size: u64,
    pub alignment: u64,
}

/// One part of a section: what one alignment class occupies in it.
#[derive(Clone, Copy, Debug, PartialEq, Eq, Structural)]
pub struct PartLayout {
    pub section: SectionId,
    pub file_size: usize,
}

/// Where a segment lives in the file and in memory.
#[derive(Clone, Copy, Debug, PartialEq, Eq, Structural)]
pub struct SegmentLayout {
    pub segment_type: u32,
    pub segment_flags: u32,
    pub alignment: u64,
    pub file_offset: usize,
    pub mem_offset: u64,
    pub file_size: usize,
    pub mem_size: u64,
}

/// What the header tables were sized for.
#[derive(Clone, Copy, Debug, PartialEq, Eq, Structural)]
pub struct HeaderInfo {
    pub num_output_sections_with_content: u16,
    pub num_active_segments: u16,
}

/// One instruction rewrite that the link may apply at a relocation: where
/// the bytes right before the relocated field are `prefix` and the relocation
/// has type `r_type`, the prefix is replaced and the relocation changes type.
/// Which replacement applies depends on whether the value that the
/// relocation stores moves with the load address.
pub struct RelaxationRule {
    pub r_type: u32,
    pub prefix: Vec<u8>,
    /// The relocation type and bytes to use when the value moves.
    pub relocatable_r_type: u32,
    pub relocatable_bytes: Vec<u8>,
    /// The relocation type and bytes to use when the value is fixed.
    pub fixed_r_type: u32,
    pub fixed_bytes: Vec<u8>,
}

/// The whole plan of the output file.
pub struct Layout {
    pub args: Args,
    /// Indexed by `SectionId`.
    pub sections: Vec<SectionDetails>,
    /// Indexed by `SectionId`.
    pub section_layouts: Vec<SectionLayout>,
    /// The section ids in the order in which their headers are written.
    pub section_order: Vec<SectionId>,
    /// The parts of all sections, in the order of their bytes on disk.
    pub part_layouts: Vec<PartLayout>,
    pub segments: Vec<SegmentLayout>,
    /// Indexed by `SymbolId`.
    pub symbols: Vec<GlobalSymbol>,
    /// The instruction rewrites to try at each relocation, in order.
    pub relaxations: Vec<RelaxationRule>,
    /// Start address of the merged strings of each section, by `SectionId`.
    pub merged_string_start_addresses: Vec<u64>,
    pub entry_address: u64,
    pub tls_start: u64,
    pub tls_end: u64,
    /// What references to undefined weak symbols resolve to.
    pub undefined_symbol_resolution: Resolution,
    /// The GOT slot pair of the TLS module of the executable, if reserved.
    pub tlsld_got_entry: Option<u64>,
}

impl Layout {
    /// Every section has details and a layout, the built-in ones exist, and
    /// every section id that the layout mentions is one of them.
    pub open spec fn wf(&self) -> bool {
        &&& self.sections@.len() >= NUM_BUILT_IN_SECTIONS
        &&& self.section_layouts@.len() == self.sections@.len()
        &&& self.merged_string_start_addresses@.len() == self.sections@.len()
        &&& forall|i: int|
            0 <= i < self.section_order@.len() ==> #[trigger] self.section_order@[i]
                < self.sections@.len()
        &&& forall|i: int|
            0 <= i < self.sections@.len() ==> (#[trigger] self.sections@[i]).link.is_some()
                ==> self.sections@[i].link.unwrap() < self.sections@.len()
        &&& forall|i: int|
            0 <= i < self.part_layouts@.len() ==> (#[trigger] self.part_layouts@[i]).section
                < self.sections@.len()
    }

    /// Whether the layout is well formed.
    pub fn is_well_formed(&self) -> (ok: bool)
        ensures
            ok == self.wf(),
    {
        let n: usize = self.sections.len();
        if n < NUM_BUILT_IN_SECTIONS || self.section_layouts.len() != n
            || self.merged_string_start_addresses.len() != n {
            return false;
        }
        let mut i: usize = 0;
        while i < self.section_order.len()
            invariant
                n == self.sections@.len(),
                i <= self.section_order@.len(),
                forall|k: int| 0 <= k < i ==> #[trigger] self.section_order@[k] < n,
            decreases self.section_order@.len() - i,
        {
            if self.section_order[i] >= n {
                return false;
            }
            i += 1;
        }
        let mut j: usize = 0;
        while j < n
            invariant
                n == self.sections@.len(),
                j <= n,
                forall|k: int|
                    0 <= k < j ==> (#[trigger] self.sections@[k]).link.is_some()
                        ==> self.sections@[k].link.unwrap() < n,
            decreases n - j,
        {
            if let Some(target) = self.sections[j].link {
                if target >= n {
                    return false;
                }
            }
            j += 1;
        }
        let mut p: usize = 0;
        while p < self.part_layouts.len()
            invariant
                n == self.sections@.len(),
                p <= self.part_layouts@.len(),
                forall|k: int| 0 <= k < p ==> (#[trigger] self.part_layouts@[k]).section < n,
            decreases self.part_layouts@.len() - p,
        {
            if self.part_layouts[p].section >= n {
                return false;
            }
            p += 1;
        }
        true
    }

    /// The resolution of a global symbol, if the symbol exists and has one.
    pub open spec fn resolution_of(&self, id: SymbolId) -> Option<SymbolResolution> {
        if id < self.symbols@.len() {
            self.symbols@[id as int].resolution
        } else {
            None
        }
    }

    /// The resolution of a global symbol, if the symbol exists and has one.
    pub fn global_symbol_resolution(&self, id: SymbolId) -> (r: Option<SymbolResolution>)
        ensures
            r == self.resolution_of(id),
    {
        if id < self.symbols.len() {
            self.symbols[id].resolution
        } else {
            None
        }
    }

    /// The header index of a section, if the section is emitted.
    pub open spec fn index_of(&self, id: SectionId) -> Option<u16> {
        if id < self.sections@.len() {
            self.sections@[id as int].output_index
        } else {
            None
        }
    }

    /// The header index of a section, if the section is emitted.
    pub fn output_index_of_section(&self, id: SectionId) -> (r: Option<u16>)
        ensures
            r == self.index_of(id),
    {
        if id < self.sections.len() {
            self.sections[id].output_index
        } else {
            None
        }
    }
}

/// What a relocation refers to.
#[derive(Clone, Copy, Debug, PartialEq, Eq)]
pub enum RelocationTarget {
    /// A symbol of the input, by its index there.
    Symbol(usize),
    /// A section of the input, by its index there.
    Section(usize),
    Absolute,
    Other,
}

/// One relocation of an input section.
#[derive(Clone, Copy, Debug, PartialEq, Eq)]
pub struct Relocation {
    /// Offset within the input section.
    pub offset: u64,
    pub r_type: u32,
    /// The addend, as the 64 bits that hold it.
    pub addend: u64,
    pub target: RelocationTarget,
}

/// An IFUNC relocation whose resolver runs at startup.
#[derive(Clone, Copy, Debug, PartialEq, Eq, Structural)]
pub struct PltRelocation {
    pub resolver: u64,
    pub got_address: u64,
}

/// What a symbol of an input file resolved to.
#[derive(Clone, Copy, Debug, PartialEq, Eq)]
pub enum LocalSymbolResolution {
    Global(SymbolId),
    WeakRefToGlobal(SymbolId),
    /// A symbol of a section of the same input, by the section's index.
    LocalSection(usize),
    UnresolvedWeak,
    TlsGetAddr,
    UndefinedSymbol,
    Null,
    /// A string in a merged section, possibly also known as a global symbol.
    MergedString { symbol_id: Option<SymbolId>, output_section_id: SectionId, offset: u64 },
}

/// Where a symbol of an input file is defined.
#[derive(Clone, Copy, Debug, PartialEq, Eq)]
pub enum SymbolPlacement {
    Section(usize),
    Common,
    Other,
}

/// A symbol of an input file.
pub struct InputSymbol {
    pub name: Vec<u8>,
    pub address: u64,
    pub size: u64,
    pub is_local: bool,
    pub st_info: u8,
    pub st_other: u8,
    pub placement: SymbolPlacement,
    /// The global symbol that this one is, if it is one.
    pub global_id: Option<SymbolId>,
    /// Whether the symbol is worth a symbol table entry.
    pub should_copy: bool,
}

/// A section of an input file that is copied to the output.
pub struct InputSection {
    /// The section's index in its input file.
    pub index: usize,
    pub output_section_id: SectionId,
    /// The window of `Buffers::regular` that receives the section.
    pub part: usize,
    /// The number of bytes reserved for the section, padding included.
    pub capacity: usize,
    pub data: Vec<u8>,
    pub relocations: Vec<Relocation>,
    pub needs_got_entry: bool,
}

/// The `.eh_frame` section of an input file.
pub struct EhFrameSection {
    pub data: Vec<u8>,
    /// Sorted by offset.
    pub relocations: Vec<Relocation>,
}

/// What became of a section of an input file.
pub enum SectionSlot {
    Discard,
    Loaded(InputSection),
    EhFrameData(EhFrameSection),
}

/// An input object file and where its contents go.
pub struct ObjectLayout {
    pub file_id: usize,
    /// Indexed by the section's index in the input.
    pub sections: Vec<SectionSlot>,
    /// Indexed by the section's index in the input.
    pub section_resolutions: Vec<Option<Resolution>>,
    /// Indexed by the symbol's index in the input.
    pub local_symbol_resolutions: Vec<LocalSymbolResolution>,
    /// Indexed by the symbol's index in the input.
    pub symbols: Vec<InputSymbol>,
    pub plt_relocations: Vec<PltRelocation>,
    pub loaded_symbols: Vec<SymbolId>,
    pub strings_offset_start: u32,
    pub eh_frame_start_address: u64,
}

/// A symbol that the linker itself defines.
#[derive(Clone, Copy, Debug, PartialEq, Eq, Structural)]
pub struct DefinedSymbol {
    pub symbol_id: SymbolId,
    pub section_id: SectionId,
}

/// The merged strings of one output section.
pub struct MergedStrings {
    /// The window of `Buffers::regular` that receives them.
    pub part: usize,
    pub len: u64,
    pub strings: Vec<Vec<u8>>,
}

/// The synthetic input that stands for the linker's own contributions.
pub struct InternalLayout {
    pub defined: Vec<DefinedSymbol>,
    pub undefined_symbol_resolution: Resolution,
    pub tlsld_got_entry: Option<u64>,
    pub merged_strings: Vec<MergedStrings>,
    /// The linker's identity, written to `.comment`.
    pub identity: Vec<u8>,
    /// The window of `Buffers::regular` that receives the identity.
    pub comment_part: usize,
    pub header_info: HeaderInfo,
    pub strings_offset_start: u32,
}

/// One input of the link.
pub enum FileLayout {
    Object(ObjectLayout),
    Internal(InternalLayout),
    Dynamic,
}

/// The windows of one contributor, one per part of the output that it may
/// write to.
pub struct Buffers {
    pub file_headers: Window,
    pub shstrtab: Window,
    pub got: Window,
    pub plt: Window,
    pub rela_plt: Window,
    pub rela_dyn: Window,
    pub symtab_locals: Window,
    pub symtab_globals: Window,
    pub symtab_strings: Window,
    pub eh_frame: Window,
    pub eh_frame_hdr: Window,
    pub dynamic: Window,
    /// The parts of ordinary sections.
    pub regular: Vec<Window>,
}

/// What the windows of a contributor hold, apart from the GOT, the PLT
/// and `.rela.dyn`, which their writers account for themselves.
pub struct Filled {
    pub rela_plt: Seq<u8>,
    pub eh_frame: Seq<u8>,
    pub eh_frame_hdr: Seq<u8>,
    pub regular: Seq<Seq<u8>>,
    pub symtab_locals: Seq<u8>,
    pub symtab_globals: Seq<u8>,
    pub symtab_strings: Seq<u8>,
    pub file_headers: Seq<u8>,
    pub shstrtab: Seq<u8>,
    pub dynamic: Seq<u8>,
}

/// Whether the window of the ordinary section part at position `k` has
/// room left when it holds what `filled` says.
pub open spec fn part_left(room: Buffers, filled: Filled, k: int) -> bool {
    0 <= k < filled.regular.len() && k < room.regular@.len() && room.regular@[k].capacity
        - filled.regular[k].len() != 0
}

/// The error for the first window that has room left when the windows,
/// with the capacities of `room`, hold what `filled` says; none where every
/// window is used up. Room left over is an error as much as room missing.
pub open spec fn leftover(room: Buffers, filled: Filled) -> Option<EmitError> {
    if room.rela_plt.capacity - filled.rela_plt.len() != 0 {
        Some(EmitError::UnusedRelaPlt)
    } else if room.eh_frame.capacity - filled.eh_frame.len() != 0 {
        Some(EmitError::UnusedEhFrame)
    } else if room.eh_frame_hdr.capacity - filled.eh_frame_hdr.len() != 0 {
        Some(EmitError::UnusedEhFrameHdr)
    } else if exists|k: int| part_left(room, filled, k) {
        Some(EmitError::UnusedSectionSpace)
    } else if room.symtab_locals.capacity - filled.symtab_locals.len() != 0
        || room.symtab_globals.capacity - filled.symtab_globals.len() != 0
        || room.symtab_strings.capacity - filled.symtab_strings.len() != 0 {
        Some(EmitError::UnusedSymtab)
    } else if room.file_headers.capacity - filled.file_headers.len() != 0 {
        Some(EmitError::UnusedHeaders)
    } else if room.shstrtab.capacity - filled.shstrtab.len() != 0 {
        Some(EmitError::UnusedSectionNames)
    } else if room.dynamic.capacity - filled.dynamic.len() != 0 {
        Some(EmitError::UnusedDynamic)
    } else {
        None
    }
}

impl Buffers {
    /// What the windows hold, apart from the GOT, the PLT and `.rela.dyn`.
    pub open spec fn filled(&self) -> Filled {
        Filled {
            rela_plt: self.rela_plt.data@,
            eh_frame: self.eh_frame.data@,
            eh_frame_hdr: self.eh_frame_hdr.data@,
            regular: Seq::new(self.regular@.len(), |k: int| self.regular@[k].data@),
            symtab_locals: self.symtab_locals.data@,
            symtab_globals: self.symtab_globals.data@,
            symtab_strings: self.symtab_strings.data@,
            file_headers: self.file_headers.data@,
            shstrtab: self.shstrtab.data@,
            dynamic: self.dynamic.data@,
        }
    }

    /// Checks that nothing is left of any window but the GOT, the PLT and
    /// `.rela.dyn`, which their writers check themselves.
    pub fn check_used_up(&self) -> (r: Result<(), EmitError>)
        requires
            self.wf(),
        ensures
            match leftover(*self, self.filled()) {
                Some(e) => r == Err::<(), EmitError>(e),
                None => r.is_ok(),
            },
            r.is_ok() ==> self.rela_plt.residual() == 0 && self.eh_frame.residual() == 0
                && self.eh_frame_hdr.residual() == 0 && self.symtab_locals.residual() == 0
                && self.symtab_globals.residual() == 0 && self.symtab_strings.residual() == 0
                && self.file_headers.residual() == 0 && self.shstrtab.residual() == 0
                && self.dynamic.residual() == 0 && forall|i: int|
                0 <= i < self.regular@.len() ==> (#[trigger] self.regular@[i]).residual() == 0,
    {
        if !self.rela_plt.is_exhausted() {
            return Err(EmitError::UnusedRelaPlt);
        }
        if !self.eh_frame.is_exhausted() {
            return Err(EmitError::UnusedEhFrame);
        }
        if !self.eh_frame_hdr.is_exhausted() {
            return Err(EmitError::UnusedEhFrameHdr);
        }
        let mut i: usize = 0;
        while i < self.regular.len()
            invariant
                self.wf(),
                self.rela_plt.residual() == 0,
                self.eh_frame.residual() == 0,
                self.eh_frame_hdr.residual() == 0,
                i <= self.regular@.len(),
                forall|k: int| 0 <= k < i ==> !part_left(*self, self.filled(), k),
                forall|k: int| 0 <= k < i ==> (#[trigger] self.regular@[k]).residual() == 0,
            decreases self.regular@.len() - i,
        {
            if !self.regular[i].is_exhausted() {
                assert(part_left(*self, self.filled(), i as int));
                return Err(EmitError::UnusedSectionSpace);
            }
            i += 1;
        }
        assert(forall|k: int| !part_left(*self, self.filled(), k));
        if !self.symtab_locals.is_exhausted() || !self.symtab_globals.is_exhausted()
            || !self.symtab_strings.is_exhausted() {
            return Err(EmitError::UnusedSymtab);
        }
        if !self.file_headers.is_exhausted() {
            return Err(EmitError::UnusedHeaders);
        }
        if !self.shstrtab.is_exhausted() {
            return Err(EmitError::UnusedSectionNames);
        }
        if !self.dynamic.is_exhausted() {
            return Err(EmitError::UnusedDynamic);
        }
        Ok(())
    }

    /// Whether every window is used up.
    pub open spec fn used_up(&self) -> bool {
        &&& self.file_headers.residual() == 0
        &&& self.shstrtab.residual() == 0
        &&& self.got.residual() == 0
        &&& self.plt.residual() == 0
        &&& self.rela_plt.residual() == 0
        &&& self.rela_dyn.residual() == 0
        &&& self.symtab_locals.residual() == 0
        &&& self.symtab_globals.residual() == 0
        &&& self.symtab_strings.residual() == 0
        &&& self.eh_frame.residual() == 0
        &&& self.eh_frame_hdr.residual() == 0
        &&& self.dynamic.residual() == 0
        &&& forall|i: int|
            0 <= i < self.regular@.len() ==> (#[trigger] self.regular@[i]).residual() == 0
    }

    /// Every window is well formed.
    pub open spec fn wf(&self) -> bool {
        &&& self.file_headers.wf()
        &&& self.shstrtab.wf()
        &&& self.got.wf()
        &&& self.plt.wf()
        &&& self.rela_plt.wf()
        &&& self.rela_dyn.wf()
        &&& self.symtab_locals.wf()
        &&& self.symtab_globals.wf()
        &&& self.symtab_strings.wf()
        &&& self.eh_frame.wf()
        &&& self.eh_frame_hdr.wf()
        &&& self.dynamic.wf()
        &&& forall|i: int| 0 <= i < self.regular@.len() ==> (#[trigger] self.regular@[i]).wf()
    }

    /// Whether every window is well formed.
    pub fn is_well_formed(&self) -> (ok: bool)
        ensures
            ok == self.wf(),
    {
        if !(self.file_headers.is_well_formed() && self.shstrtab.is_well_formed()
            && self.got.is_well_formed() && self.plt.is_well_formed()
            && self.rela_plt.is_well_formed() && self.rela_dyn.is_well_formed()
            && self.symtab_locals.is_well_formed() && self.symtab_globals.is_well_formed()
            && self.symtab_strings.is_well_formed() && self.eh_frame.is_well_formed()
            && self.eh_frame_hdr.is_well_formed() && self.dynamic.is_well_formed()) {
            return false;
        }
        let mut i: usize = 0;
        while i < self.regular.len()
            invariant
                i <= self.regular@.len(),
                forall|k: int| 0 <= k < i ==> (#[trigger] self.regular@[k]).wf(),
            decreases self.regular@.len() - i,
        {
            if !self.regular[i].is_well_formed() {
                return false;
            }
            i += 1;
        }
        true
    }
}

} // verus!
