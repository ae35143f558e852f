//! What an input object file resolves its references to.

use vstd::prelude::*;
use crate::bytes::{add_wrapping, wrapping_sum};
use crate::error::EmitError;
use crate::layout::{
    Layout, LocalSymbolResolution, ObjectLayout, Relocation, RelocationTarget, Resolution, SymbolId,
    SymbolResolution, TargetResolutionKind,
};

verus! {

/// The resolution of a global symbol that a relocation needs. `missing` is
/// what stands in where the symbol has none.
pub open spec fn global_resolution(
    layout: &Layout,
    id: SymbolId,
    missing: Result<Resolution, EmitError>,
) -> Result<Resolution, EmitError> {
    match layout.resolution_of(id) {
        Some(SymbolResolution::Resolved(res)) => Ok(res),
        Some(SymbolResolution::Dynamic) => Err(EmitError::Unimplemented),
        None => missing,
    }
}

/// The resolution of a string in a merged section that no symbol names.
pub open spec fn merged_string_resolution(layout: &Layout, section: usize, offset: u64) -> Result<
    Resolution,
    EmitError,
> {
    if section < layout.merged_string_start_addresses@.len() {
        Ok(
            Resolution {
                address: wrapping_sum(layout.merged_string_start_addresses@[section as int], offset),
                got_address: None,
                plt_address: None,
                kind: TargetResolutionKind::Address,
            },
        )
    } else {
        Err(EmitError::BadIndex)
    }
}

fn resolve_global(layout: &Layout, id: SymbolId, missing: Result<Resolution, EmitError>) -> (r:
    Result<Resolution, EmitError>)
    ensures
        r == global_resolution(layout, id, missing),
{
    match layout.global_symbol_resolution(id) {
        Some(SymbolResolution::Resolved(res)) => Ok(res),
        Some(SymbolResolution::Dynamic) => Err(EmitError::Unimplemented),
        None => missing,
    }
}

impl ObjectLayout {
    /// The resolution of a section of this input, if it has one.
    pub open spec fn section_resolution(&self, index: usize) -> Option<Resolution> {
        if index < self.section_resolutions@.len() {
            self.section_resolutions@[index as int]
        } else {
            None
        }
    }

    /// The resolution of a section of this input, if it has one.
    pub fn resolution_of_section(&self, index: usize) -> (r: Option<Resolution>)
        ensures
            r == self.section_resolution(index),
    {
        if index < self.section_resolutions.len() {
            self.section_resolutions[index]
        } else {
            None
        }
    }

    /// What a symbol of this input resolves to, for a relocation that refers to it.
    pub open spec fn symbol_resolution(&self, symbol: usize, layout: &Layout) -> Result<
        Option<Resolution>,
        EmitError,
    > {
        if symbol >= self.local_symbol_resolutions@.len() {
            Err(EmitError::BadIndex)
        } else {
            match self.local_symbol_resolutions@[symbol as int] {
                LocalSymbolResolution::Global(id) => match global_resolution(
                    layout,
                    id,
                    Err(EmitError::MissingResolution),
                ) {
                    Ok(res) => Ok(Some(res)),
                    Err(e) => Err(e),
                },
                LocalSymbolResolution::WeakRefToGlobal(id) => match global_resolution(
                    layout,
                    id,
                    Ok(layout.undefined_symbol_resolution),
                ) {
                    Ok(res) => Ok(Some(res)),
                    Err(e) => Err(e),
                },
                LocalSymbolResolution::LocalSection(index) => match self.section_resolution(index) {
                    None => Err(EmitError::UnresolvedSection),
                    Some(res) => if symbol >= self.symbols@.len() {
                        Err(EmitError::BadIndex)
                    } else {
                        Ok(
                            Some(
                                Resolution {
                                    address: wrapping_sum(
                                        res.address,
                                        self.symbols@[symbol as int].address,
                                    ),
                                    got_address: res.got_address,
                                    plt_address: res.plt_address,
                                    kind: res.kind,
                                },
                            ),
                        )
                    },
                },
                LocalSymbolResolution::UnresolvedWeak => Ok(Some(layout.undefined_symbol_resolution)),
                LocalSymbolResolution::TlsGetAddr => Ok(None),
                LocalSymbolResolution::UndefinedSymbol => Err(EmitError::UndefinedSymbol),
                LocalSymbolResolution::Null => Err(EmitError::NullSymbol),
                LocalSymbolResolution::MergedString { symbol_id, output_section_id, offset } => {
                    let found = match symbol_id {
                        Some(id) => global_resolution(layout, id, Err(EmitError::MissingResolution)),
                        None => merged_string_resolution(layout, output_section_id, offset),
                    };
                    match found {
                        Ok(res) => Ok(Some(res)),
                        Err(e) => Err(e),
                    }
                },
            }
        }
    }

    /// What a relocation of this input refers to. `Ok(None)` means that the
    /// relocation is not applied.
    pub open spec fn resolution_for(&self, rel: Relocation, layout: &Layout) -> Result<
        Option<Resolution>,
        EmitError,
    > {
        match rel.target {
            RelocationTarget::Symbol(symbol) => self.symbol_resolution(symbol, layout),
            RelocationTarget::Section(index) => match self.section_resolution(index) {
                Some(res) => Ok(Some(res)),
                None => Err(EmitError::UnresolvedSection),
            },
            _ => Err(EmitError::UnsupportedRelocation),
        }
    }

    /// What a relocation of this input refers to. `Ok(None)` means that the
    /// relocation is not applied.
    pub fn get_resolution(&self, rel: &Relocation, layout: &Layout) -> (r: Result<
        Option<Resolution>,
        EmitError,
    >)
        ensures
            r == self.resolution_for(*rel, layout),
    {
        match rel.target {
            RelocationTarget::Symbol(symbol) => {
                if symbol >= self.local_symbol_resolutions.len() {
                    return Err(EmitError::BadIndex);
                }
                let found: Result<Resolution, EmitError> = match self.local_symbol_resolutions[symbol] {
                    LocalSymbolResolution::Global(id) => resolve_global(
                        layout,
                        id,
                        Err(EmitError::MissingResolution),
                    ),
                    LocalSymbolResolution::WeakRefToGlobal(id) => resolve_global(
                        layout,
                        id,
                        Ok(layout.undefined_symbol_resolution),
                    ),
                    LocalSymbolResolution::LocalSection(index) => {
                        match self.resolution_of_section(index) {
                            None => Err(EmitError::UnresolvedSection),
                            Some(res) => {
                                if symbol >= self.symbols.len() {
                                    Err(EmitError::BadIndex)
                                } else {
                                    Ok(
                                        Resolution {
                                            address: add_wrapping(
                                                res.address,
                                                self.symbols[symbol].address,
                                            ),
                                            got_address: res.got_address,
                                            plt_address: res.plt_address,
                                            kind: res.kind,
                                        },
                                    )
                                }
                            },
                        }
                    },
                    LocalSymbolResolution::UnresolvedWeak => Ok(layout.undefined_symbol_resolution),
                    LocalSymbolResolution::TlsGetAddr => {
                        return Ok(None);
                    },
                    LocalSymbolResolution::UndefinedSymbol => Err(EmitError::UndefinedSymbol),
                    LocalSymbolResolution::Null => Err(EmitError::NullSymbol),
                    LocalSymbolResolution::MergedString { symbol_id, output_section_id, offset } => {
                        match symbol_id {
                            Some(id) => resolve_global(layout, id, Err(EmitError::MissingResolution)),
                            None => {
                                if output_section_id < layout.merged_string_start_addresses.len() {
                                    Ok(
                                        Resolution {
                                            address: add_wrapping(
                                                layout.merged_string_start_addresses[output_section_id],
                                                offset,
                                            ),
                                            got_address: None,
                                            plt_address: None,
                                            kind: TargetResolutionKind::Address,
                                        },
                                    )
                                } else {
                                    Err(EmitError::BadIndex)
                                }
                            },
                        }
                    },
                };
                match found {
                    Ok(res) => Ok(Some(res)),
                    Err(e) => Err(e),
                }
            },
            RelocationTarget::Section(index) => match self.resolution_of_section(index) {
                Some(res) => Ok(Some(res)),
                None => Err(EmitError::UnresolvedSection),
            },
            _ => Err(EmitError::UnsupportedRelocation),
        }
    }
}

} // verus!
