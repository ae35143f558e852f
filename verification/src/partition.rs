//! Partitions the output file into spans that do not overlap: one per
//! section, then one per part of a section. Every writer gets spans of its
//! own, which is why contributors can be written independently.

use vstd::prelude::*;
use crate::error::EmitError;
use crate::layout::{Layout, PartLayout};

verus! {

/// A range of bytes of the output file.
#[derive(Clone, Copy, Debug, PartialEq, Eq, Structural)]
pub struct Span {
    pub offset: usize,
    pub len: usize,
}

impl Span {
    /// The position right after the last byte of the span.
    pub open spec fn end(self) -> int {
        self.offset + self.len
    }

    /// Whether the span lies in `outer`.
    pub open spec fn within(self, outer: Span) -> bool {
        outer.offset <= self.offset && self.end() <= outer.end()
    }
}

/// Whether one of two spans ends before the other starts.
pub open spec fn apart(a: Span, b: Span) -> bool {
    a.end() <= b.offset || b.end() <= a.offset
}

/// Whether any two spans of different positions are apart.
pub open spec fn pairwise_apart(spans: Seq<Span>) -> bool {
    forall|i: int, j: int| 0 <= i < j < spans.len() ==> apart(spans[i], spans[j])
}

/// The span that the layout gives to the section at position `i`.
pub open spec fn section_span(layout: &Layout, i: int) -> Span {
    Span {
        offset: layout.section_layouts@[i].file_offset,
        len: layout.section_layouts@[i].file_size,
    }
}

/// Whether the sections of a layout can be laid out in a file of
/// `file_len` bytes: each lies in the file and no two share a byte, so that
/// in the order of their offsets no section starts before the one ahead of
/// it has ended.
pub open spec fn sections_fit(layout: &Layout, file_len: int) -> bool {
    &&& forall|i: int|
        0 <= i < layout.section_layouts@.len() ==> (#[trigger] section_span(layout, i)).end()
            <= file_len
    &&& forall|i: int, j: int|
        0 <= i < j < layout.section_layouts@.len() ==> apart(
            section_span(layout, i),
            section_span(layout, j),
        )
}

/// Gives every section its span of a file of `file_len` bytes, by section
/// id. Fails if a section does not lie in the file or if two sections share
/// a byte.
pub fn split_output_into_sections(layout: &Layout, file_len: usize) -> (r: Result<
    Vec<Span>,
    EmitError,
>)
    ensures
        r.is_ok() <==> sections_fit(layout, file_len as int),
        r.is_err() ==> r == Err::<Vec<Span>, EmitError>(EmitError::SectionsOverlap),
        r.is_ok() ==> r.unwrap()@.len() == layout.section_layouts@.len() && pairwise_apart(
            r.unwrap()@,
        ) && forall|i: int|
            0 <= i < r.unwrap()@.len() ==> #[trigger] r.unwrap()@[i] == section_span(layout, i)
                && r.unwrap()@[i].end() <= file_len,
{
    let n: usize = layout.section_layouts.len();
    let mut spans: Vec<Span> = Vec::new();
    let mut i: usize = 0;
    while i < n
        invariant
            n == layout.section_layouts@.len(),
            i <= n,
            spans@.len() == i,
            forall|a: int|
                0 <= a < i ==> #[trigger] spans@[a] == section_span(layout, a) && spans@[a].end()
                    <= file_len,
            forall|a: int| 0 <= a < i ==> (#[trigger] section_span(layout, a)).end() <= file_len,
            forall|a: int, b: int|
                0 <= a < i && a < b < n ==> apart(section_span(layout, a), section_span(layout, b)),
        decreases n - i,
    {
        let here = &layout.section_layouts[i];
        if here.file_offset > file_len || here.file_size > file_len - here.file_offset {
            assert(section_span(layout, i as int).end() > file_len);
            return Err(EmitError::SectionsOverlap);
        }
        let here_end: usize = here.file_offset + here.file_size;
        let mut j: usize = i + 1;
        while j < n
            invariant
                n == layout.section_layouts@.len(),
                i < n,
                i < j <= n,
                here == &layout.section_layouts@[i as int],
                here_end == section_span(layout, i as int).end(),
                forall|b: int|
                    i < b < j ==> apart(section_span(layout, i as int), section_span(layout, b)),
            decreases n - j,
        {
            let other = &layout.section_layouts[j];
            let ahead: bool = here_end <= other.file_offset;
            let behind: bool = other.file_offset <= here.file_offset && other.file_size
                <= here.file_offset - other.file_offset;
            if !ahead && !behind {
                assert(!apart(section_span(layout, i as int), section_span(layout, j as int)));
                return Err(EmitError::SectionsOverlap);
            }
            j += 1;
        }
        spans.push(Span { offset: here.file_offset, len: here.file_size });
        i += 1;
    }
    Ok(spans)
}

/// The number of bytes that the first `k` parts take of the base at position `base`.
pub open spec fn used_before(parts: Seq<PartLayout>, base: int, k: int) -> int
    decreases k,
{
    if k <= 0 {
        0
    } else {
        used_before(parts, base, k - 1) + if parts[k - 1].section == base {
            parts[k - 1].file_size as int
        } else {
            0int
        }
    }
}

/// The span of the part at position `k`: it starts where the parts before
/// it that are carved from the same base end.
pub open spec fn carved_span(bases: Seq<Span>, parts: Seq<PartLayout>, k: int) -> Span {
    Span {
        offset: (bases[parts[k].section as int].offset + used_before(
            parts,
            parts[k].section as int,
            k,
        )) as usize,
        len: parts[k].file_size,
    }
}

/// Whether every part names a base that ends within the address range of
/// the machine, and the parts of each base together fit in it.
pub open spec fn parts_fit(bases: Seq<Span>, parts: Seq<PartLayout>) -> bool {
    forall|k: int|
        0 <= k < parts.len() ==> (#[trigger] parts[k]).section < bases.len()
            && bases[parts[k].section as int].end() <= usize::MAX && used_before(
            parts,
            parts[k].section as int,
            k + 1,
        ) <= bases[parts[k].section as int].len
}

/// Carves each part, in order, from the front of what is left of its base.
/// Fails if a part names no base or if the parts of a base exceed it.
pub fn carve_spans(bases: &Vec<Span>, parts: &Vec<PartLayout>) -> (r: Result<Vec<Span>, EmitError>)
    ensures
        r.is_ok() <==> parts_fit(bases@, parts@),
        r.is_err() ==> r == Err::<Vec<Span>, EmitError>(EmitError::PartsExceedSection),
        r.is_ok() ==> r.unwrap()@.len() == parts@.len() && forall|k: int|
            0 <= k < parts@.len() ==> #[trigger] r.unwrap()@[k] == carved_span(bases@, parts@, k),
{
    let mut used: Vec<usize> = Vec::new();
    let mut b: usize = 0;
    while b < bases.len()
        invariant
            b <= bases@.len(),
            used@.len() == b,
            forall|s: int| 0 <= s < b ==> #[trigger] used@[s] == 0,
        decreases bases@.len() - b,
    {
        used.push(0);
        b += 1;
    }
    let mut spans: Vec<Span> = Vec::new();
    let mut k: usize = 0;
    while k < parts.len()
        invariant
            k <= parts@.len(),
            spans@.len() == k,
            used@.len() == bases@.len(),
            forall|s: int|
                0 <= s < bases@.len() ==> #[trigger] used@[s] == used_before(parts@, s, k as int)
                    && used@[s] <= bases@[s].len,
            forall|j: int|
                0 <= j < k ==> (#[trigger] parts@[j]).section < bases@.len()
                    && bases@[parts@[j].section as int].end() <= usize::MAX && used_before(
                    parts@,
                    parts@[j].section as int,
                    j + 1,
                ) <= bases@[parts@[j].section as int].len,
            forall|j: int| 0 <= j < k ==> #[trigger] spans@[j] == carved_span(bases@, parts@, j),
        decreases parts@.len() - k,
    {
        let part = &parts[k];
        if part.section >= bases.len() {
            return Err(EmitError::PartsExceedSection);
        }
        let base = &bases[part.section];
        if base.len > usize::MAX - base.offset {
            return Err(EmitError::PartsExceedSection);
        }
        let taken: usize = used[part.section];
        if part.file_size > base.len - taken {
            assert(used_before(parts@, part.section as int, k + 1) > base.len);
            return Err(EmitError::PartsExceedSection);
        }
        spans.push(Span { offset: base.offset + taken, len: part.file_size });
        used.set(part.section, taken + part.file_size);
        k += 1;
    }
    Ok(spans)
}

/// Splits the span of each section further into one span per part, in the
/// order in which the parts lie on disk.
pub fn split_buffers_by_alignment(section_spans: &Vec<Span>, layout: &Layout) -> (r: Result<
    Vec<Span>,
    EmitError,
>)
    ensures
        r.is_ok() <==> parts_fit(section_spans@, layout.part_layouts@),
        r.is_err() ==> r == Err::<Vec<Span>, EmitError>(EmitError::PartsExceedSection),
        r.is_ok() ==> r.unwrap()@.len() == layout.part_layouts@.len() && forall|k: int|
            0 <= k < layout.part_layouts@.len() ==> #[trigger] r.unwrap()@[k] == carved_span(
                section_spans@,
                layout.part_layouts@,
                k,
            ),
{
    carve_spans(section_spans, &layout.part_layouts)
}

/// What is taken of a base never shrinks as more parts are carved.
pub proof fn lemma_used_grows(parts: Seq<PartLayout>, base: int, i: int, k: int)
    requires
        0 <= i <= k,
    ensures
        used_before(parts, base, i) <= used_before(parts, base, k),
    decreases k - i,
{
    if i < k {
        lemma_used_grows(parts, base, i, k - 1);
    }
}

/// A carved part lies within the base that it was carved from.
pub proof fn lemma_part_within_base(bases: Seq<Span>, parts: Seq<PartLayout>, k: int)
    requires
        parts_fit(bases, parts),
        0 <= k < parts.len(),
    ensures
        carved_span(bases, parts, k).within(bases[parts[k].section as int]),
{
    let s = parts[k].section as int;
    lemma_used_grows(parts, s, 0, k);
    assert(used_before(parts, s, k + 1) == used_before(parts, s, k) + parts[k].file_size);
}

/// Disjoint coverage: where the bases do not overlap, neither do any two
/// parts carved from them, whether from the same base or from different ones.
pub proof fn lemma_parts_apart(bases: Seq<Span>, parts: Seq<PartLayout>, i: int, j: int)
    requires
        pairwise_apart(bases),
        parts_fit(bases, parts),
        0 <= i < j < parts.len(),
    ensures
        apart(carved_span(bases, parts, i), carved_span(bases, parts, j)),
{
    lemma_part_within_base(bases, parts, i);
    lemma_part_within_base(bases, parts, j);
    let si = parts[i].section as int;
    let sj = parts[j].section as int;
    if si == sj {
        lemma_used_grows(parts, si, i + 1, j);
        lemma_used_grows(parts, si, 0, i);
        assert(used_before(parts, si, i + 1) == used_before(parts, si, i) + parts[i].file_size);
    } else if si < sj {
        assert(apart(bases[si], bases[sj]));
    } else {
        assert(apart(bases[sj], bases[si]));
    }
}

/// Disjoint coverage, for the file as a whole: every part that the two
/// stages carve lies in the file.
pub proof fn lemma_parts_in_file(
    layout: &Layout,
    file_len: int,
    section_spans: Seq<Span>,
    k: int,
)
    requires
        sections_fit(layout, file_len),
        section_spans.len() == layout.section_layouts@.len(),
        forall|i: int|
            0 <= i < section_spans.len() ==> #[trigger] section_spans[i] == section_span(layout, i),
        parts_fit(section_spans, layout.part_layouts@),
        0 <= k < layout.part_layouts@.len(),
    ensures
        carved_span(section_spans, layout.part_layouts@, k).end() <= file_len,
{
    let s = layout.part_layouts@[k].section as int;
    assert(section_spans[s] == section_span(layout, s));
    lemma_part_within_base(section_spans, layout.part_layouts@, k);
}

} // verus!
