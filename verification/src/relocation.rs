//! The relocation engine: computes the value of one relocation, rewrites
//! the instruction around it where the link allows a cheaper form, and
//! stores the value in the section's bytes.

use vstd::prelude::*;
use crate::bytes::{
    add_wrapping, le_bytes, le_seq, put_bytes, splice, sub_wrapping, wrapping_diff, wrapping_sum,
};
use crate::elf::{Rela, RELA_ENTRY_SIZE};
use crate::error::EmitError;
use crate::layout::{Layout, RelaxationRule, Relocation, Resolution, TlsMode};
use crate::plt_got::{relative_relocation, RelocationWriter};

verus! {

/// What a relocation stores, by the way its value is computed.
#[derive(Clone, Copy, Debug, PartialEq, Eq, Structural)]
pub enum RelocationKind {
    Absolute,
    Relative,
    GotRelative,
    PltRelative,
    TlsGd,
    TlsLd,
    DtpOff,
    GotTpOff,
    TpOff,
    Nothing,
}

/// The kind of a relocation type and the number of bytes that it stores.
#[derive(Clone, Copy, Debug, PartialEq, Eq, Structural)]
pub struct RelocationKindInfo {
    pub kind: RelocationKind,
    pub byte_size: usize,
}

/// Whether the relocation that follows the one just applied is to be applied.
#[derive(Clone, Copy, Debug, PartialEq, Eq, Structural)]
pub enum RelocationModifier {
    Normal,
    SkipNextRelocation,
}

/// The kind and size of each x86-64 relocation type that the engine knows.
pub open spec fn kind_info(r_type: u32) -> Option<RelocationKindInfo> {
    if r_type == 0 {
        Some(RelocationKindInfo { kind: RelocationKind::Nothing, byte_size: 0 })
    } else if r_type == 1 {
        Some(RelocationKindInfo { kind: RelocationKind::Absolute, byte_size: 8 })
    } else if r_type == 2 {
        Some(RelocationKindInfo { kind: RelocationKind::Relative, byte_size: 4 })
    } else if r_type == 4 {
        Some(RelocationKindInfo { kind: RelocationKind::PltRelative, byte_size: 4 })
    } else if r_type == 9 || r_type == 41 || r_type == 42 {
        Some(RelocationKindInfo { kind: RelocationKind::GotRelative, byte_size: 4 })
    } else if r_type == 10 || r_type == 11 {
        Some(RelocationKindInfo { kind: RelocationKind::Absolute, byte_size: 4 })
    } else if r_type == 12 {
        Some(RelocationKindInfo { kind: RelocationKind::Absolute, byte_size: 2 })
    } else if r_type == 13 {
        Some(RelocationKindInfo { kind: RelocationKind::Relative, byte_size: 2 })
    } else if r_type == 14 {
        Some(RelocationKindInfo { kind: RelocationKind::Absolute, byte_size: 1 })
    } else if r_type == 15 {
        Some(RelocationKindInfo { kind: RelocationKind::Relative, byte_size: 1 })
    } else if r_type == 19 {
        Some(RelocationKindInfo { kind: RelocationKind::TlsGd, byte_size: 4 })
    } else if r_type == 20 {
        Some(RelocationKindInfo { kind: RelocationKind::TlsLd, byte_size: 4 })
    } else if r_type == 21 {
        Some(RelocationKindInfo { kind: RelocationKind::DtpOff, byte_size: 4 })
    } else if r_type == 22 {
        Some(RelocationKindInfo { kind: RelocationKind::GotTpOff, byte_size: 4 })
    } else if r_type == 23 {
        Some(RelocationKindInfo { kind: RelocationKind::TpOff, byte_size: 4 })
    } else if r_type == 24 {
        Some(RelocationKindInfo { kind: RelocationKind::Relative, byte_size: 8 })
    } else {
        None
    }
}

impl RelocationKindInfo {
    /// The kind and size of a relocation type, or an error for a type that
    /// the engine does not know.
    pub fn from_raw(r_type: u32) -> (r: Result<RelocationKindInfo, EmitError>)
        ensures
            match kind_info(r_type) {
                Some(info) => r == Ok::<RelocationKindInfo, EmitError>(info),
                None => r == Err::<RelocationKindInfo, EmitError>(EmitError::UnsupportedRelocation),
            },
            r.is_ok() ==> r.unwrap().byte_size <= 8,
    {
        if r_type == 0 {
            Ok(RelocationKindInfo { kind: RelocationKind::Nothing, byte_size: 0 })
        } else if r_type == 1 {
            Ok(RelocationKindInfo { kind: RelocationKind::Absolute, byte_size: 8 })
        } else if r_type == 2 {
            Ok(RelocationKindInfo { kind: RelocationKind::Relative, byte_size: 4 })
        } else if r_type == 4 {
            Ok(RelocationKindInfo { kind: RelocationKind::PltRelative, byte_size: 4 })
        } else if r_type == 9 || r_type == 41 || r_type == 42 {
            Ok(RelocationKindInfo { kind: RelocationKind::GotRelative, byte_size: 4 })
        } else if r_type == 10 || r_type == 11 {
            Ok(RelocationKindInfo { kind: RelocationKind::Absolute, byte_size: 4 })
        } else if r_type == 12 {
            Ok(RelocationKindInfo { kind: RelocationKind::Absolute, byte_size: 2 })
        } else if r_type == 13 {
            Ok(RelocationKindInfo { kind: RelocationKind::Relative, byte_size: 2 })
        } else if r_type == 14 {
            Ok(RelocationKindInfo { kind: RelocationKind::Absolute, byte_size: 1 })
        } else if r_type == 15 {
            Ok(RelocationKindInfo { kind: RelocationKind::Relative, byte_size: 1 })
        } else if r_type == 19 {
            Ok(RelocationKindInfo { kind: RelocationKind::TlsGd, byte_size: 4 })
        } else if r_type == 20 {
            Ok(RelocationKindInfo { kind: RelocationKind::TlsLd, byte_size: 4 })
        } else if r_type == 21 {
            Ok(RelocationKindInfo { kind: RelocationKind::DtpOff, byte_size: 4 })
        } else if r_type == 22 {
            Ok(RelocationKindInfo { kind: RelocationKind::GotTpOff, byte_size: 4 })
        } else if r_type == 23 {
            Ok(RelocationKindInfo { kind: RelocationKind::TpOff, byte_size: 4 })
        } else if r_type == 24 {
            Ok(RelocationKindInfo { kind: RelocationKind::Relative, byte_size: 8 })
        } else {
            Err(EmitError::UnsupportedRelocation)
        }
    }
}

/// Whether the bytes of `bytes` that end right before `offset` are `expected`.
pub open spec fn preceded_by(bytes: Seq<u8>, offset: int, expected: Seq<u8>) -> bool {
    expected.len() <= offset <= bytes.len() && bytes.subrange(offset - expected.len(), offset)
        == expected
}

/// The error, if any, with which the check of the bytes before `offset` ends.
pub open spec fn prefix_error(bytes: Seq<u8>, offset: int, expected: Seq<u8>) -> Option<
    EmitError,
> {
    if offset < expected.len() || offset > bytes.len() {
        Some(EmitError::PrefixTooShort)
    } else if bytes.subrange(offset - expected.len(), offset) != expected {
        Some(EmitError::PrefixMismatch)
    } else {
        None
    }
}

/// Verifies that the bytes leading up to `offset` are `expected`. This is
/// what keeps an instruction rewrite from being applied to an instruction
/// that it was not made for.
pub fn expect_bytes_before_offset(bytes: &Vec<u8>, offset: u64, expected: &Vec<u8>) -> (r: Result<
    (),
    EmitError,
>)
    ensures
        match prefix_error(bytes@, offset as int, expected@) {
            Some(e) => r == Err::<(), EmitError>(e),
            None => r.is_ok(),
        },
{
    if offset < expected.len() as u64 || offset > bytes.len() as u64 {
        return Err(EmitError::PrefixTooShort);
    }
    let at: usize = offset as usize;
    let start: usize = at - expected.len();
    let mut i: usize = 0;
    while i < expected.len()
        invariant
            i <= expected.len(),
            start + expected.len() == at,
            at == offset,
            at <= bytes.len(),
            forall|j: int| 0 <= j < i ==> bytes@[start + j] == expected@[j],
        decreases expected.len() - i,
    {
        if bytes[start + i] != expected[i] {
            proof {
                let found = bytes@.subrange(offset as int - expected@.len(), offset as int);
                assert(found[i as int] == bytes@[start + i]);
                assert(found != expected@);
            }
            return Err(EmitError::PrefixMismatch);
        }
        i += 1;
    }
    assert(bytes@.subrange(offset as int - expected@.len(), offset as int) =~= expected@);
    Ok(())
}

/// Whether `rule` applies to a relocation of type `r_type` at `offset`.
pub open spec fn rule_matches(rule: RelaxationRule, r_type: u32, out: Seq<u8>, offset: int) -> bool {
    &&& rule.r_type == r_type
    &&& rule.relocatable_bytes@.len() == rule.prefix@.len()
    &&& rule.fixed_bytes@.len() == rule.prefix@.len()
    &&& preceded_by(out, offset, rule.prefix@)
}

/// The first rule from position `from` on that applies, if any does.
pub open spec fn first_match(
    rules: Seq<RelaxationRule>,
    r_type: u32,
    out: Seq<u8>,
    offset: int,
    from: int,
) -> Option<int>
    decreases rules.len() - from,
{
    if from < 0 || from >= rules.len() {
        None
    } else if rule_matches(rules[from], r_type, out, offset) {
        Some(from)
    } else {
        first_match(rules, r_type, out, offset, from + 1)
    }
}

/// Looks for an instruction rewrite that applies to a relocation of type
/// `r_type` at `offset`, given the bytes of the section as they stand.
pub fn find_relaxation(rules: &Vec<RelaxationRule>, r_type: u32, out: &Vec<u8>, offset: u64) -> (r:
    Option<usize>)
    ensures
        r.is_none() ==> first_match(rules@, r_type, out@, offset as int, 0).is_none(),
        r.is_some() ==> r.unwrap() < rules@.len() && first_match(
            rules@,
            r_type,
            out@,
            offset as int,
            0,
        ) == Some(r.unwrap() as int) && rule_matches(
            rules@[r.unwrap() as int],
            r_type,
            out@,
            offset as int,
        ),
{
    let mut i: usize = 0;
    while i < rules.len()
        invariant
            i <= rules.len(),
            first_match(rules@, r_type, out@, offset as int, 0) == first_match(
                rules@,
                r_type,
                out@,
                offset as int,
                i as int,
            ),
        decreases rules.len() - i,
    {
        let rule = &rules[i];
        if rule.r_type == r_type && rule.relocatable_bytes.len() == rule.prefix.len()
            && rule.fixed_bytes.len() == rule.prefix.len() {
            if expect_bytes_before_offset(out, offset, &rule.prefix).is_ok() {
                return Some(i);
            }
        }
        i += 1;
    }
    None
}

/// A relocation after the rewrite of its instruction, if one applied.
pub struct Relaxed {
    pub r_type: u32,
    pub addend: u64,
    pub out: Seq<u8>,
}

/// Applies the first rewrite that matches. `moves` says whether the value
/// that the relocation stores moves with the load address; if it does not,
/// the addend of a rewritten relocation is dropped.
pub open spec fn relax(
    rules: Seq<RelaxationRule>,
    r_type: u32,
    addend: u64,
    out: Seq<u8>,
    offset: int,
    moves: bool,
) -> Relaxed {
    match first_match(rules, r_type, out, offset, 0) {
        None => Relaxed { r_type, addend, out },
        Some(i) => {
            let rule = rules[i];
            if moves {
                Relaxed {
                    r_type: rule.relocatable_r_type,
                    addend,
                    out: splice(out, offset - rule.prefix@.len(), rule.relocatable_bytes@),
                }
            } else {
                Relaxed {
                    r_type: rule.fixed_r_type,
                    addend: 0,
                    out: splice(out, offset - rule.prefix@.len(), rule.fixed_bytes@),
                }
            }
        },
    }
}

/// The value of a relocation and what computing it did to its surroundings.
pub struct ValueStep {
    pub value: u64,
    pub out: Seq<u8>,
    /// Where the value is stored.
    pub offset: int,
    /// The dynamic relocation to emit, if any.
    pub dynamic: Option<Rela>,
    pub modifier: RelocationModifier,
}

/// A relocation applied: the section's bytes, the dynamic relocation that
/// goes with it, and what is to happen with the next relocation.
pub struct Applied {
    pub out: Seq<u8>,
    pub dynamic: Option<Rela>,
    pub modifier: RelocationModifier,
}

/// The instruction that a general-dynamic TLS access starts with: `data16 lea x(%rip),%rdi`.
pub open spec fn tls_gd_prefix() -> Seq<u8> {
    seq![0x66u8, 0x48, 0x8d, 0x3d]
}

/// The local-exec form of a general-dynamic access: `mov %fs:0,%rax; lea x(%rax),%rax`.
pub open spec fn tls_gd_to_le() -> Seq<u8> {
    seq![0x64u8, 0x48, 0x8b, 0x04, 0x25, 0, 0, 0, 0, 0x48, 0x8d, 0x80]
}

/// The instruction that a local-dynamic TLS access starts with: `lea x(%rip),%rdi`.
pub open spec fn tls_ld_prefix() -> Seq<u8> {
    seq![0x48u8, 0x8d, 0x3d]
}

/// The local-exec form of a local-dynamic access: `mov %fs:0,%rax`, padded in front.
pub open spec fn tls_ld_to_le() -> Seq<u8> {
    seq![0x66u8, 0x66, 0x66, 0x64, 0x48, 0x8b, 0x04, 0x25]
}

/// Replaces the instruction that ends right before `offset` by `replacement`,
/// which starts where `expected` starts, after checking that `expected` is there.
pub open spec fn tls_rewrite(
    out: Seq<u8>,
    offset: int,
    expected: Seq<u8>,
    replacement: Seq<u8>,
) -> Result<Seq<u8>, EmitError> {
    match prefix_error(out, offset, expected) {
        Some(e) => Err(e),
        None => if offset - expected.len() + replacement.len() > out.len() {
            Err(EmitError::RelocationOutOfBounds)
        } else {
            Ok(splice(out, offset - expected.len(), replacement))
        },
    }
}

/// A value that is stored at the relocation's own offset and has no side effect.
pub open spec fn plain_step(value: u64, out: Seq<u8>, offset: int) -> Result<ValueStep, EmitError> {
    Ok(ValueStep { value, out, offset, dynamic: None, modifier: RelocationModifier::Normal })
}

/// `base + addend - place`, modulo 2^64.
pub open spec fn relative_to(base: u64, addend: u64, place: u64) -> u64 {
    wrapping_diff(wrapping_sum(base, addend), place)
}

/// The value of a relocation by its kind. `active` says whether dynamic
/// relocations are being written and `rela_residual` how much room is left
/// for them.
pub open spec fn relocation_value(
    kind: RelocationKind,
    res: Resolution,
    addend: u64,
    place: u64,
    layout: &Layout,
    out: Seq<u8>,
    offset: int,
    active: bool,
    rela_residual: int,
) -> Result<ValueStep, EmitError> {
    match kind {
        RelocationKind::Absolute => if active && res.address != 0 {
            if rela_residual < RELA_ENTRY_SIZE {
                Err(EmitError::RelaDynTooSmall)
            } else {
                Ok(
                    ValueStep {
                        value: 0,
                        out,
                        offset,
                        dynamic: Some(relative_relocation(place, res.address)),
                        modifier: RelocationModifier::Normal,
                    },
                )
            }
        } else {
            plain_step(wrapping_sum(res.address, addend), out, offset)
        },
        RelocationKind::Relative => plain_step(relative_to(res.address, addend, place), out, offset),
        RelocationKind::GotRelative | RelocationKind::GotTpOff => match res.got_address {
            None => Err(EmitError::MissingGotAddress),
            Some(got) => plain_step(relative_to(got, addend, place), out, offset),
        },
        RelocationKind::PltRelative => if layout.args.link_static {
            plain_step(relative_to(res.address, addend, place), out, offset)
        } else {
            match res.plt_address {
                None => Err(EmitError::MissingPltAddress),
                Some(plt) => plain_step(relative_to(plt, addend, place), out, offset),
            }
        },
        RelocationKind::TlsGd => match layout.args.tls_mode {
            TlsMode::LocalExec => match tls_rewrite(out, offset, tls_gd_prefix(), tls_gd_to_le()) {
                Err(e) => Err(e),
                Ok(rewritten) => Ok(
                    ValueStep {
                        value: wrapping_diff(res.address, layout.tls_end),
                        out: rewritten,
                        offset: offset + 8,
                        dynamic: None,
                        modifier: RelocationModifier::SkipNextRelocation,
                    },
                ),
            },
            TlsMode::Preserve => match res.got_address {
                None => Err(EmitError::MissingGotAddress),
                Some(got) => plain_step(relative_to(got, addend, place), out, offset),
            },
        },
        RelocationKind::TlsLd => match layout.args.tls_mode {
            TlsMode::LocalExec => match tls_rewrite(out, offset, tls_ld_prefix(), tls_ld_to_le()) {
                Err(e) => Err(e),
                Ok(rewritten) => Ok(
                    ValueStep {
                        value: 0,
                        out: rewritten,
                        offset: offset + 5,
                        dynamic: None,
                        modifier: RelocationModifier::SkipNextRelocation,
                    },
                ),
            },
            TlsMode::Preserve => match layout.tlsld_got_entry {
                None => Err(EmitError::MissingTlsModuleSlot),
                Some(got) => plain_step(relative_to(got, addend, place), out, offset),
            },
        },
        RelocationKind::DtpOff => if layout.args.link_static {
            plain_step(wrapping_sum(wrapping_diff(res.address, layout.tls_end), addend), out, offset)
        } else {
            Err(EmitError::Unimplemented)
        },
        RelocationKind::TpOff => plain_step(wrapping_diff(res.address, layout.tls_end), out, offset),
        RelocationKind::Nothing => Err(EmitError::UnsupportedRelocation),
    }
}

/// What applying one relocation does, or the error with which it fails.
pub open spec fn relocation_outcome(
    res: Resolution,
    offset_in_section: u64,
    rel: Relocation,
    section_address: u64,
    layout: &Layout,
    out: Seq<u8>,
    active: bool,
    rela_residual: int,
) -> Result<Applied, EmitError> {
    let place = wrapping_sum(section_address, offset_in_section);
    let moves = res.address != 0 && layout.args.relocatable();
    let relaxed = relax(
        layout.relaxations@,
        rel.r_type,
        rel.addend,
        out,
        offset_in_section as int,
        moves,
    );
    match kind_info(relaxed.r_type) {
        None => Err(EmitError::UnsupportedRelocation),
        Some(info) => match relocation_value(
            info.kind,
            res,
            relaxed.addend,
            place,
            layout,
            relaxed.out,
            offset_in_section as int,
            active,
            rela_residual,
        ) {
            Err(e) => Err(e),
            Ok(step) => if step.offset + info.byte_size > step.out.len() {
                Err(EmitError::RelocationOutOfBounds)
            } else {
                Ok(
                    Applied {
                        out: splice(step.out, step.offset, le_seq(step.value, info.byte_size as nat)),
                        dynamic: step.dynamic,
                        modifier: step.modifier,
                    },
                )
            },
        },
    }
}

/// A relocation gets a dynamic relocation exactly when, after any rewrite
/// of its instruction, it stores an absolute address, dynamic relocations are
/// being written, and the address is not zero. The dynamic relocation then
/// makes the loader store the address, moved by the load base, at the place
/// of the relocation, and the place itself is left zero.
pub proof fn lemma_dynamic_only_for_absolute(
    res: Resolution,
    offset_in_section: u64,
    rel: Relocation,
    section_address: u64,
    layout: &Layout,
    out: Seq<u8>,
    active: bool,
    rela_residual: int,
)
    requires
        relocation_outcome(
            res,
            offset_in_section,
            rel,
            section_address,
            layout,
            out,
            active,
            rela_residual,
        ).is_ok(),
    ensures
        ({
            let applied = relocation_outcome(
                res,
                offset_in_section,
                rel,
                section_address,
                layout,
                out,
                active,
                rela_residual,
            ).unwrap();
            let relaxed = relax(
                layout.relaxations@,
                rel.r_type,
                rel.addend,
                out,
                offset_in_section as int,
                res.address != 0 && layout.args.relocatable(),
            );
            let info = kind_info(relaxed.r_type).unwrap();
            let wanted = info.kind == RelocationKind::Absolute && active && res.address != 0;
            &&& applied.dynamic.is_some() <==> wanted
            &&& wanted ==> applied.dynamic == Some(
                relative_relocation(wrapping_sum(section_address, offset_in_section), res.address),
            ) && applied.out.subrange(
                offset_in_section as int,
                offset_in_section + info.byte_size,
            ) == le_seq(0, info.byte_size as nat)
            &&& dynamic_bytes(applied.dynamic).len() == if wanted {
                RELA_ENTRY_SIZE as int
            } else {
                0
            }
        }),
{
    let applied = relocation_outcome(
        res,
        offset_in_section,
        rel,
        section_address,
        layout,
        out,
        active,
        rela_residual,
    ).unwrap();
    let relaxed = relax(
        layout.relaxations@,
        rel.r_type,
        rel.addend,
        out,
        offset_in_section as int,
        res.address != 0 && layout.args.relocatable(),
    );
    let info = kind_info(relaxed.r_type).unwrap();
    if info.kind == RelocationKind::Absolute && active && res.address != 0 {
        assert(applied.out.subrange(offset_in_section as int, offset_in_section + info.byte_size)
            =~= le_seq(0, info.byte_size as nat));
    }
}

/// What a relocation that fails leaves behind: the bytes of the section
/// and the dynamic relocation that was written, if one was. The bytes are
/// those after the rewrite of the instruction by a matching rule, so the
/// bytes from before where no rule matched. Only a failure to store the
/// value, after everything else went well, finds more done: the TLS
/// instruction sequence rewritten, or the dynamic relocation of an
/// absolute address written.
pub open spec fn left_by_failed_relocation(
    res: Resolution,
    offset_in_section: u64,
    rel: Relocation,
    section_address: u64,
    layout: &Layout,
    out: Seq<u8>,
    active: bool,
    rela_residual: int,
) -> (Seq<u8>, Option<Rela>) {
    let place = wrapping_sum(section_address, offset_in_section);
    let moves = res.address != 0 && layout.args.relocatable();
    let relaxed = relax(
        layout.relaxations@,
        rel.r_type,
        rel.addend,
        out,
        offset_in_section as int,
        moves,
    );
    match kind_info(relaxed.r_type) {
        None => (relaxed.out, None),
        Some(info) => match relocation_value(
            info.kind,
            res,
            relaxed.addend,
            place,
            layout,
            relaxed.out,
            offset_in_section as int,
            active,
            rela_residual,
        ) {
            Err(e) => (relaxed.out, None),
            Ok(step) => (step.out, step.dynamic),
        },
    }
}

/// A relocation that fails where no rule rewrote its instruction leaves
/// the bytes of the section as they were, unless a TLS instruction sequence
/// was rewritten and only storing the value failed; and it leaves
/// `.rela.dyn` as it was, unless it stores an absolute address that is not
/// zero while dynamic relocations are being written, had room for the
/// dynamic relocation, and only storing the value failed.
pub proof fn lemma_failure_spares_section(
    res: Resolution,
    offset_in_section: u64,
    rel: Relocation,
    section_address: u64,
    layout: &Layout,
    out: Seq<u8>,
    active: bool,
    rela_residual: int,
)
    requires
        relocation_outcome(
            res,
            offset_in_section,
            rel,
            section_address,
            layout,
            out,
            active,
            rela_residual,
        ).is_err(),
        first_match(layout.relaxations@, rel.r_type, out, offset_in_section as int, 0).is_none(),
    ensures
        ({
            let failure = relocation_outcome(
                res,
                offset_in_section,
                rel,
                section_address,
                layout,
                out,
                active,
                rela_residual,
            );
            let left = left_by_failed_relocation(
                res,
                offset_in_section,
                rel,
                section_address,
                layout,
                out,
                active,
                rela_residual,
            );
            let past_the_end = Err::<Applied, EmitError>(EmitError::RelocationOutOfBounds);
            let kind = kind_info(rel.r_type);
            let local_exec = layout.args.tls_mode == TlsMode::LocalExec && kind.is_some();
            let rewritten = if local_exec && kind.unwrap().kind == RelocationKind::TlsGd {
                tls_rewrite(out, offset_in_section as int, tls_gd_prefix(), tls_gd_to_le())
            } else if local_exec && kind.unwrap().kind == RelocationKind::TlsLd {
                tls_rewrite(out, offset_in_section as int, tls_ld_prefix(), tls_ld_to_le())
            } else {
                Err(EmitError::PrefixMismatch)
            };
            let absolute = kind.is_some() && kind.unwrap().kind == RelocationKind::Absolute
                && active && res.address != 0 && rela_residual >= RELA_ENTRY_SIZE;
            &&& rewritten.is_err() ==> left.0 == out
            &&& rewritten.is_ok() ==> left.0 == rewritten.unwrap() && failure == past_the_end
            &&& !absolute ==> left.1.is_none()
            &&& absolute ==> failure == past_the_end && left.1 == Some(
                relative_relocation(wrapping_sum(section_address, offset_in_section), res.address),
            )
        }),
{
}

/// The bytes that a dynamic relocation adds to `.rela.dyn`, if there is one.
pub open spec fn dynamic_bytes(dynamic: Option<Rela>) -> Seq<u8> {
    match dynamic {
        Some(rela) => rela.encoding(),
        None => Seq::<u8>::empty(),
    }
}

fn rewrite_tls(out: &mut Vec<u8>, offset: u64, expected: &Vec<u8>, replacement: &Vec<u8>) -> (r:
    Result<(), EmitError>)
    ensures
        final(out)@.len() == old(out)@.len(),
        match tls_rewrite(old(out)@, offset as int, expected@, replacement@) {
            Err(e) => r == Err::<(), EmitError>(e) && final(out)@ == old(out)@,
            Ok(rewritten) => r.is_ok() && final(out)@ == rewritten,
        },
{
    match expect_bytes_before_offset(out, offset, expected) {
        Err(e) => {
            return Err(e);
        },
        Ok(()) => {},
    }
    let total: usize = out.len();
    assert(prefix_error(out@, offset as int, expected@).is_none());
    assert(offset <= total);
    let start: usize = offset as usize - expected.len();
    if replacement.len() > out.len() - start {
        return Err(EmitError::RelocationOutOfBounds);
    }
    put_bytes(out, start, replacement);
    Ok(())
}

fn relative(base: u64, addend: u64, place: u64) -> (r: u64)
    ensures
        r == relative_to(base, addend, place),
{
    sub_wrapping(add_wrapping(base, addend), place)
}

/// Applies the relocation `rel` at `offset_in_section`, where the section's
/// bytes are `out` and the section starts at `section_address`. A call that
/// fails leaves the bytes as the rewrite of the instruction left them, so
/// as they were where no rule matched.
pub fn apply_relocation(
    resolution: &Resolution,
    offset_in_section: u64,
    rel: &Relocation,
    section_address: u64,
    layout: &Layout,
    out: &mut Vec<u8>,
    relocation_writer: &mut RelocationWriter,
) -> (r: Result<RelocationModifier, EmitError>)
    requires
        old(relocation_writer).wf(),
    ensures
        final(out)@.len() == old(out)@.len(),
        final(relocation_writer).wf(),
        final(relocation_writer).is_active == old(relocation_writer).is_active,
        final(relocation_writer).rela_dyn.capacity == old(relocation_writer).rela_dyn.capacity,
        match relocation_outcome(
            *resolution,
            offset_in_section,
            *rel,
            section_address,
            layout,
            old(out)@,
            old(relocation_writer).is_active,
            old(relocation_writer).rela_dyn.residual(),
        ) {
            Err(e) => {
                let left = left_by_failed_relocation(
                    *resolution,
                    offset_in_section,
                    *rel,
                    section_address,
                    layout,
                    old(out)@,
                    old(relocation_writer).is_active,
                    old(relocation_writer).rela_dyn.residual(),
                );
                r == Err::<RelocationModifier, EmitError>(e) && final(out)@ == left.0 && final(relocation_writer).rela_dyn.data@ == old(relocation_writer).rela_dyn.data@ + dynamic_bytes(left.1)
            },
            Ok(applied) => r == Ok::<RelocationModifier, EmitError>(applied.modifier) && final(out)@
                == applied.out && final(relocation_writer).rela_dyn.data@ == old(relocation_writer).rela_dyn.data@ + dynamic_bytes(applied.dynamic),
        },
{
    let address: u64 = resolution.address;
    let place: u64 = add_wrapping(section_address, offset_in_section);
    let mut addend: u64 = rel.addend;
    let mut r_type: u32 = rel.r_type;
    let mut offset: u64 = offset_in_section;
    let mut next_modifier = RelocationModifier::Normal;
    if let Some(i) = find_relaxation(&layout.relaxations, r_type, out, offset_in_section) {
        let rule = &layout.relaxations[i];
        let total: usize = out.len();
        assert(rule_matches(layout.relaxations@[i as int], rel.r_type, out@, offset_in_section as int));
        assert(rule.prefix@.len() <= offset_in_section <= total);
        let value_is_relocatable: bool = address != 0 && layout.args.is_relocatable();
        let start: usize = offset_in_section as usize - rule.prefix.len();
        if value_is_relocatable {
            r_type = rule.relocatable_r_type;
            put_bytes(out, start, &rule.relocatable_bytes);
        } else {
            r_type = rule.fixed_r_type;
            put_bytes(out, start, &rule.fixed_bytes);
            addend = 0;
        }
    }
    let rel_info = match RelocationKindInfo::from_raw(r_type) {
        Ok(info) => info,
        Err(e) => {
            return Err(e);
        },
    };
    let value: u64 = match rel_info.kind {
        RelocationKind::Absolute => {
            if relocation_writer.is_active && address != 0 {
                match relocation_writer.write_relocation(place, address) {
                    Err(e) => {
                        return Err(e);
                    },
                    Ok(()) => {},
                }
                0
            } else {
                add_wrapping(address, addend)
            }
        },
        RelocationKind::Relative => relative(address, addend, place),
        RelocationKind::GotRelative | RelocationKind::GotTpOff => match resolution.got_address {
            None => {
                return Err(EmitError::MissingGotAddress);
            },
            Some(got) => relative(got, addend, place),
        },
        RelocationKind::PltRelative => {
            if layout.args.link_static {
                relative(address, addend, place)
            } else {
                match resolution.plt_address {
                    None => {
                        return Err(EmitError::MissingPltAddress);
                    },
                    Some(plt) => relative(plt, addend, place),
                }
            }
        },
        RelocationKind::TlsGd => match layout.args.tls_mode {
            TlsMode::LocalExec => {
                let expected: Vec<u8> = vec![0x66u8, 0x48, 0x8d, 0x3d];
                let replacement: Vec<u8> = vec![
                    0x64u8, 0x48, 0x8b, 0x04, 0x25, 0, 0, 0, 0, 0x48, 0x8d, 0x80,
                ];
                assert(expected@ =~= tls_gd_prefix());
                assert(replacement@ =~= tls_gd_to_le());
                match rewrite_tls(out, offset, &expected, &replacement) {
                    Err(e) => {
                        return Err(e);
                    },
                    Ok(()) => {},
                }
                let total: usize = out.len();
                assert(expected@.len() == 4 && replacement@.len() == 12);
                assert(offset + 8 <= total);
                offset = offset + 8;
                next_modifier = RelocationModifier::SkipNextRelocation;
                sub_wrapping(address, layout.tls_end)
            },
            TlsMode::Preserve => match resolution.got_address {
                None => {
                    return Err(EmitError::MissingGotAddress);
                },
                Some(got) => relative(got, addend, place),
            },
        },
        RelocationKind::TlsLd => match layout.args.tls_mode {
            TlsMode::LocalExec => {
                let expected: Vec<u8> = vec![0x48u8, 0x8d, 0x3d];
                let replacement: Vec<u8> = vec![0x66u8, 0x66, 0x66, 0x64, 0x48, 0x8b, 0x04, 0x25];
                assert(expected@ =~= tls_ld_prefix());
                assert(replacement@ =~= tls_ld_to_le());
                match rewrite_tls(out, offset, &expected, &replacement) {
                    Err(e) => {
                        return Err(e);
                    },
                    Ok(()) => {},
                }
                let total: usize = out.len();
                assert(expected@.len() == 3 && replacement@.len() == 8);
                assert(offset + 5 <= total);
                offset = offset + 5;
                next_modifier = RelocationModifier::SkipNextRelocation;
                0
            },
            TlsMode::Preserve => match layout.tlsld_got_entry {
                None => {
                    return Err(EmitError::MissingTlsModuleSlot);
                },
                Some(got) => relative(got, addend, place),
            },
        },
        RelocationKind::DtpOff => {
            if layout.args.link_static {
                add_wrapping(sub_wrapping(address, layout.tls_end), addend)
            } else {
                return Err(EmitError::Unimplemented);
            }
        },
        RelocationKind::TpOff => sub_wrapping(address, layout.tls_end),
        RelocationKind::Nothing => {
            return Err(EmitError::UnsupportedRelocation);
        },
    };
    if offset > out.len() as u64 || rel_info.byte_size > out.len() - offset as usize {
        return Err(EmitError::RelocationOutOfBounds);
    }
    let value_bytes = le_bytes(value, rel_info.byte_size);
    put_bytes(out, offset as usize, &value_bytes);
    Ok(next_modifier)
}

} // verus!
