//! The ways in which emission can fail.

use vstd::prelude::*;

verus! {

/// Every failure that emission reports. None of them is retried.
#[derive(Clone, Copy, Debug, PartialEq, Eq, Structural)]
pub enum EmitError {
    /// A GOT slot was needed but the GOT window has no room left.
    GotTooSmall,
    /// A PLT entry was needed but the PLT window has no room left.
    PltTooSmall,
    /// The GOT slot is further than 2 GiB from the PLT entry.
    PltTooFarFromGot,
    /// A TLS offset slot refers to an address outside of the TLS segment.
    TlsAddressOutsideSegment,
    /// GOT or PLT space was reserved and never written.
    UnusedPltGot,
    /// `.rela.plt` has no room for another entry.
    RelaPltTooSmall,
    /// `.rela.dyn` has no room for another entry.
    RelaDynTooSmall,
    /// `.rela.dyn` space was reserved and never written.
    UnusedRelaDyn,
    /// The symbol table or its string pool has no room left.
    SymtabTooSmall,
    /// Symbol table space was reserved and never written.
    UnusedSymtab,
    /// `.rela.plt` space was reserved and never written.
    UnusedRelaPlt,
    /// `.eh_frame` space was reserved and never written.
    UnusedEhFrame,
    /// `.eh_frame_hdr` space was reserved and never written.
    UnusedEhFrameHdr,
    /// Space of an ordinary section was reserved and never written.
    UnusedSectionSpace,
    /// Space for the headers was reserved and never written.
    UnusedHeaders,
    /// Space for the section names was reserved and never written.
    UnusedSectionNames,
    /// Space for the dynamic table was reserved and never written.
    UnusedDynamic,
    /// A symbol sits in a section that is not part of the output.
    SymbolInUnemittedSection,
    /// The string pool offset no longer fits in 32 bits.
    StringOffsetOverflow,
    /// The relocation type is not one that the engine knows.
    UnsupportedRelocation,
    /// The relocation needs a GOT address and the resolution has none.
    MissingGotAddress,
    /// The relocation needs a PLT address and the resolution has none.
    MissingPltAddress,
    /// The relocation needs the TLS module slot and the layout has none.
    MissingTlsModuleSlot,
    /// A path that only dynamic linking would take.
    Unimplemented,
    /// The relocation would write past the end of its section.
    RelocationOutOfBounds,
    /// Fewer bytes precede the relocation than the instruction needs.
    PrefixTooShort,
    /// The bytes before the relocation are not the expected instruction.
    PrefixMismatch,
    /// A relocation refers to a symbol that nothing defines.
    UndefinedSymbol,
    /// A relocation refers to the null symbol.
    NullSymbol,
    /// A symbol that must have been resolved was not.
    MissingResolution,
    /// A relocation refers to a section that was not resolved.
    UnresolvedSection,
    /// A relocation refers to a symbol or section index that the input lacks.
    BadIndex,
    /// An `.eh_frame` record runs past the end of its section.
    InvalidEhFrame,
    /// The pc-begin relocation of an FDE has no usable target.
    BadPcBegin,
    /// An FDE points back further than the start of the section.
    CiePointerTooLarge,
    /// An FDE points at a position where no CIE was seen.
    DanglingCie,
    /// The distance from `.eh_frame_hdr` to a function exceeds 32 bits.
    FramePtrOverflow,
    /// The address of an FDE exceeds 32 bits.
    FrameInfoPtrOverflow,
    /// The `.eh_frame` window has no room left.
    EhFrameTooSmall,
    /// The `.eh_frame_hdr` window has no room left.
    EhFrameHdrTooSmall,
    /// `.eh_frame` is further than 2 GiB from `.eh_frame_hdr`.
    EhFrameTooFar,
    /// The number of `.eh_frame_hdr` entries exceeds 32 bits.
    EntryCountOverflow,
    /// A section window has less room than the section's contents need.
    SectionTooSmall,
    /// Two sections claim overlapping bytes, or bytes outside the file.
    SectionsOverlap,
    /// The parts of a section add up to more than the section.
    PartsExceedSection,
    /// The header window cannot hold what the layout promised.
    HeadersTooSmall,
    /// More segments than program header slots.
    ProgramHeaderSlots,
    /// The number of section headers differs from the number reserved.
    SectionHeaderCount,
    /// The dynamic table has the wrong number of slots.
    DynamicEntryCount,
    /// The size of `.eh_frame_hdr` is not that of a header and whole rows.
    MalformedEhFrameHdr,
    /// The section name table is not part of the output.
    MissingSectionNames,
    /// A count or offset does not fit the field that holds it.
    FieldOverflow,
}

impl EmitError {
    /// The one-line description of each error.
    pub open spec fn description(self) -> &'static str {
        match self {
            EmitError::GotTooSmall => "Didn't allocate enough space in GOT",
            EmitError::PltTooSmall => "Didn't allocate enough space in PLT",
            EmitError::PltTooFarFromGot => "PLT is more than 2GB away from GOT",
            EmitError::TlsAddressOutsideSegment => "GotTlsOffset resolves to address not in TLS segment",
            EmitError::UnusedPltGot => "Unused PLT/GOT entries remain",
            EmitError::RelaPltTooSmall => "insufficient allocation to .rela.plt",
            EmitError::RelaDynTooSmall => "insufficient allocation to .rela.dyn",
            EmitError::UnusedRelaDyn => "Allocated too much space in .rela.dyn",
            EmitError::SymtabTooSmall => "insufficient allocation to symtab/strtab",
            EmitError::UnusedSymtab => "Didn't use up all allocated symtab/strtab space",
            EmitError::UnusedRelaPlt => "Allocated too much space in .rela.plt",
            EmitError::UnusedEhFrame => "Allocated too much space in .eh_frame",
            EmitError::UnusedEhFrameHdr => "Allocated too much space in .eh_frame_hdr",
            EmitError::UnusedSectionSpace => "Allocated too much space in a section",
            EmitError::UnusedHeaders => "Allocated too much space for the headers",
            EmitError::UnusedSectionNames => "Allocated too much space in .shstrtab",
            EmitError::UnusedDynamic => "Allocated too much space in .dynamic",
            EmitError::SymbolInUnemittedSection => "tried to copy symbol in a section that's not being output",
            EmitError::StringOffsetOverflow => "symbol string offset overflowed 32 bits",
            EmitError::UnsupportedRelocation => "Unsupported relocation",
            EmitError::MissingGotAddress => "Missing GOT address",
            EmitError::MissingPltAddress => "Missing PLT address",
            EmitError::MissingTlsModuleSlot => "Missing TLS module GOT entry",
            EmitError::Unimplemented => "not implemented for dynamic linking",
            EmitError::RelocationOutOfBounds => "Relocation outside of bounds of section",
            EmitError::PrefixTooShort => "Expected bytes before relocation, but too few bytes available",
            EmitError::PrefixMismatch => "Expected bytes before relocation, got different bytes",
            EmitError::UndefinedSymbol => "Reference to undefined symbol",
            EmitError::NullSymbol => "Reference to null symbol",
            EmitError::MissingResolution => "Missing resolution for symbol",
            EmitError::UnresolvedSection => "Reference to section that hasn't been resolved",
            EmitError::BadIndex => "Reference to an index that the input does not have",
            EmitError::InvalidEhFrame => "Invalid .eh_frame data",
            EmitError::BadPcBegin => "Unexpected relocation target in .eh_frame pc-begin",
            EmitError::CiePointerTooLarge => "CIE pointer is larger than the offset it is at",
            EmitError::DanglingCie => "FDE referenced a position with no CIE",
            EmitError::FramePtrOverflow => "32 bit overflow in frame_ptr",
            EmitError::FrameInfoPtrOverflow => "32 bit overflow when computing frame_info_ptr",
            EmitError::EhFrameTooSmall => "Insufficient allocation to .eh_frame section",
            EmitError::EhFrameHdrTooSmall => "Insufficient allocation to .eh_frame_hdr section",
            EmitError::EhFrameTooFar => ".eh_frame more than 2GB away from .eh_frame_hdr",
            EmitError::EntryCountOverflow => ".eh_frame_hdr entries overflowed 32 bits",
            EmitError::SectionTooSmall => "Insufficient space allocated to section",
            EmitError::SectionsOverlap => "Offsets went backward when splitting output file",
            EmitError::PartsExceedSection => "Section parts exceed the section",
            EmitError::HeadersTooSmall => "Insufficient space allocated to headers",
            EmitError::ProgramHeaderSlots => "Insufficient header slots",
            EmitError::SectionHeaderCount => "Allocated section entries that weren't used",
            EmitError::DynamicEntryCount => "Insufficient dynamic table entries",
            EmitError::MalformedEhFrameHdr => ".eh_frame_hdr is not a header followed by whole entries",
            EmitError::MissingSectionNames => ".shstrtab is not being output",
            EmitError::FieldOverflow => "value does not fit its field",
        }
    }

    /// A one-line description for diagnostics.
    pub fn message(&self) -> (m: &'static str)
        ensures
            m == self.description(),
    {
        match self {
            EmitError::GotTooSmall => "Didn't allocate enough space in GOT",
            EmitError::PltTooSmall => "Didn't allocate enough space in PLT",
            EmitError::PltTooFarFromGot => "PLT is more than 2GB away from GOT",
            EmitError::TlsAddressOutsideSegment => "GotTlsOffset resolves to address not in TLS segment",
            EmitError::UnusedPltGot => "Unused PLT/GOT entries remain",
            EmitError::RelaPltTooSmall => "insufficient allocation to .rela.plt",
            EmitError::RelaDynTooSmall => "insufficient allocation to .rela.dyn",
            EmitError::UnusedRelaDyn => "Allocated too much space in .rela.dyn",
            EmitError::SymtabTooSmall => "insufficient allocation to symtab/strtab",
            EmitError::UnusedSymtab => "Didn't use up all allocated symtab/strtab space",
            EmitError::UnusedRelaPlt => "Allocated too much space in .rela.plt",
            EmitError::UnusedEhFrame => "Allocated too much space in .eh_frame",
            EmitError::UnusedEhFrameHdr => "Allocated too much space in .eh_frame_hdr",
            EmitError::UnusedSectionSpace => "Allocated too much space in a section",
            EmitError::UnusedHeaders => "Allocated too much space for the headers",
            EmitError::UnusedSectionNames => "Allocated too much space in .shstrtab",
            EmitError::UnusedDynamic => "Allocated too much space in .dynamic",
            EmitError::SymbolInUnemittedSection => "tried to copy symbol in a section that's not being output",
            EmitError::StringOffsetOverflow => "symbol string offset overflowed 32 bits",
            EmitError::UnsupportedRelocation => "Unsupported relocation",
            EmitError::MissingGotAddress => "Missing GOT address",
            EmitError::MissingPltAddress => "Missing PLT address",
            EmitError::MissingTlsModuleSlot => "Missing TLS module GOT entry",
            EmitError::Unimplemented => "not implemented for dynamic linking",
            EmitError::RelocationOutOfBounds => "Relocation outside of bounds of section",
            EmitError::PrefixTooShort => "Expected bytes before relocation, but too few bytes available",
            EmitError::PrefixMismatch => "Expected bytes before relocation, got different bytes",
            EmitError::UndefinedSymbol => "Reference to undefined symbol",
            EmitError::NullSymbol => "Reference to null symbol",
            EmitError::MissingResolution => "Missing resolution for symbol",
            EmitError::UnresolvedSection => "Reference to section that hasn't been resolved",
            EmitError::BadIndex => "Reference to an index that the input does not have",
            EmitError::InvalidEhFrame => "Invalid .eh_frame data",
            EmitError::BadPcBegin => "Unexpected relocation target in .eh_frame pc-begin",
            EmitError::CiePointerTooLarge => "CIE pointer is larger than the offset it is at",
            EmitError::DanglingCie => "FDE referenced a position with no CIE",
            EmitError::FramePtrOverflow => "32 bit overflow in frame_ptr",
            EmitError::FrameInfoPtrOverflow => "32 bit overflow when computing frame_info_ptr",
            EmitError::EhFrameTooSmall => "Insufficient allocation to .eh_frame section",
            EmitError::EhFrameHdrTooSmall => "Insufficient allocation to .eh_frame_hdr section",
            EmitError::EhFrameTooFar => ".eh_frame more than 2GB away from .eh_frame_hdr",
            EmitError::EntryCountOverflow => ".eh_frame_hdr entries overflowed 32 bits",
            EmitError::SectionTooSmall => "Insufficient space allocated to section",
            EmitError::SectionsOverlap => "Offsets went backward when splitting output file",
            EmitError::PartsExceedSection => "Section parts exceed the section",
            EmitError::HeadersTooSmall => "Insufficient space allocated to headers",
            EmitError::ProgramHeaderSlots => "Insufficient header slots",
            EmitError::SectionHeaderCount => "Allocated section entries that weren't used",
            EmitError::DynamicEntryCount => "Insufficient dynamic table entries",
            EmitError::MalformedEhFrameHdr => ".eh_frame_hdr is not a header followed by whole entries",
            EmitError::MissingSectionNames => ".shstrtab is not being output",
            EmitError::FieldOverflow => "value does not fit its field",
        }
    }
}

} // verus!
