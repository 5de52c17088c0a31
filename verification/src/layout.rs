//! The integer and character side of text layout: alignment choices, grouping of laid-out
//! glyphs into their sections, and lookup of characters by UTF-8 byte offset.
use vstd::prelude::*;

verus! {

/// Alignment requested for a laid-out text.
#[derive(Clone, Copy, Debug, PartialEq, Eq, Structural)]
pub enum TextAlignment {
    Left,
    Center,
    Right,
    Top,
    Bottom,
}

/// Horizontal alignment of the lines of a text block.
#[derive(Clone, Copy, Debug, PartialEq, Eq, Structural)]
pub enum HorizontalAlignment {
    Left,
    Center,
    Right,
}

/// Vertical alignment of a text block.
#[derive(Clone, Copy, Debug, PartialEq, Eq, Structural)]
pub enum VerticalAlignment {
    Top,
    Center,
    Bottom,
}

/// Horizontal alignment that a `TextAlignment` stands for.
pub open spec fn spec_horizontal(a: TextAlignment) -> HorizontalAlignment {
    match a {
        TextAlignment::Right => HorizontalAlignment::Right,
        TextAlignment::Center => HorizontalAlignment::Center,
        _ => HorizontalAlignment::Left,
    }
}

/// Vertical alignment that a `TextAlignment` stands for.
pub open spec fn spec_vertical(a: TextAlignment) -> VerticalAlignment {
    match a {
        TextAlignment::Top => VerticalAlignment::Top,
        TextAlignment::Center => VerticalAlignment::Center,
        _ => VerticalAlignment::Bottom,
    }
}

impl TextAlignment {
    /// Horizontal reading: `Right` and `Center` keep their meaning, every other value is `Left`.
    pub fn horizontal(self) -> (h: HorizontalAlignment)
        ensures
            h == spec_horizontal(self),
    {
        match self {
            TextAlignment::Right => HorizontalAlignment::Right,
            TextAlignment::Center => HorizontalAlignment::Center,
            _ => HorizontalAlignment::Left,
        }
    }

    /// Vertical reading: `Top` and `Center` keep their meaning, every other value is `Bottom`.
    pub fn vertical(self) -> (v: VerticalAlignment)
        ensures
            v == spec_vertical(self),
    {
        match self {
            TextAlignment::Top => VerticalAlignment::Top,
            TextAlignment::Center => VerticalAlignment::Center,
            _ => VerticalAlignment::Bottom,
        }
    }
}

/// Law: a text alignment keeps its meaning on the axis it names (`Left`, `Center`, `Right`
/// horizontally; `Top`, `Center`, `Bottom` vertically), and an alignment that names the other
/// axis reads as `Left` horizontally and as `Bottom` vertically.
pub proof fn lemma_alignment_readings()
    ensures
        spec_horizontal(TextAlignment::Left) == HorizontalAlignment::Left,
        spec_horizontal(TextAlignment::Center) == HorizontalAlignment::Center,
        spec_horizontal(TextAlignment::Right) == HorizontalAlignment::Right,
        spec_horizontal(TextAlignment::Top) == HorizontalAlignment::Left,
        spec_horizontal(TextAlignment::Bottom) == HorizontalAlignment::Left,
        spec_vertical(TextAlignment::Top) == VerticalAlignment::Top,
        spec_vertical(TextAlignment::Center) == VerticalAlignment::Center,
        spec_vertical(TextAlignment::Bottom) == VerticalAlignment::Bottom,
        spec_vertical(TextAlignment::Left) == VerticalAlignment::Bottom,
        spec_vertical(TextAlignment::Right) == VerticalAlignment::Bottom,
{
}

/// Alignments of a wrapping layout: left and top unless the input asks otherwise.
pub fn layout_alignment(h_alignment: Option<TextAlignment>, v_alignment: Option<TextAlignment>) -> (r: (
    HorizontalAlignment,
    VerticalAlignment,
))
    ensures
        r.0 == (match h_alignment {
            Some(a) => spec_horizontal(a),
            None => HorizontalAlignment::Left,
        }),
        r.1 == (match v_alignment {
            Some(a) => spec_vertical(a),
            None => VerticalAlignment::Top,
        }),
{
    let mut h = HorizontalAlignment::Left;
    let mut v = VerticalAlignment::Top;
    if let Some(a) = h_alignment {
        h = a.horizontal();
    }
    if let Some(a) = v_alignment {
        v = a.vertical();
    }
    (h, v)
}

/// Horizontal alignment of a text component: left (the default), centered or right.
#[derive(Clone, Copy, Debug, PartialEq, Eq, Hash, Structural)]
pub enum SdfTextAlignment {
    Left,
    Center,
    Right,
}

impl Default for SdfTextAlignment {
    fn default() -> (a: SdfTextAlignment)
        ensures
            a == SdfTextAlignment::Left,
    {
        SdfTextAlignment::Left
    }
}

impl SdfTextAlignment {
    /// The layout alignment of the text: each value keeps its meaning.
    pub fn horizontal(self) -> (h: HorizontalAlignment)
        ensures
            h == (match self {
                SdfTextAlignment::Left => HorizontalAlignment::Left,
                SdfTextAlignment::Center => HorizontalAlignment::Center,
                SdfTextAlignment::Right => HorizontalAlignment::Right,
            }),
    {
        match self {
            SdfTextAlignment::Left => HorizontalAlignment::Left,
            SdfTextAlignment::Center => HorizontalAlignment::Center,
            SdfTextAlignment::Right => HorizontalAlignment::Right,
        }
    }
}

/// A run of consecutive laid-out glyphs that belong to one text section.
#[derive(Clone, Debug)]
pub struct RawSectionGlyphs {
    /// Index of the section in the layout input.
    pub index: usize,
    /// Positions, in the laid-out glyph list, of the glyphs of the run.
    pub glyphs: Vec<usize>,
}

/// The glyph positions of each run, in run order.
pub open spec fn run_glyphs(runs: Seq<RawSectionGlyphs>) -> Seq<Seq<usize>> {
    runs.map_values(|r: RawSectionGlyphs| r.glyphs@)
}

/// The positions `0, 1, .., n - 1`.
pub open spec fn positions(n: int) -> Seq<usize> {
    Seq::new(n as nat, |i: int| i as usize)
}

/// `runs` splits the glyphs whose section indices are `sections` into maximal runs of
/// consecutive glyphs of one section, in order.
pub open spec fn is_section_grouping(sections: Seq<usize>, runs: Seq<RawSectionGlyphs>) -> bool {
    &&& run_glyphs(runs).flatten() == positions(sections.len() as int)
    &&& forall|k: int| 0 <= k < runs.len() ==> #[trigger] runs[k].glyphs@.len() > 0
    &&& forall|k: int, j: int|
        0 <= k < runs.len() && 0 <= j < runs[k].glyphs@.len() ==> sections[#[trigger] runs[k].glyphs@[j] as int]
            == runs[k].index
    &&& forall|k: int| 0 <= k < runs.len() - 1 ==> #[trigger] runs[k].index != runs[k + 1].index
}

/// The runs of `sections`, each as its section index and glyph positions, built glyph by
/// glyph: a glyph joins the last run when it has that run's section, else starts a new run.
pub open spec fn spec_section_runs(sections: Seq<usize>) -> Seq<(usize, Seq<usize>)>
    decreases sections.len(),
{
    if sections.len() == 0 {
        Seq::empty()
    } else {
        let runs = spec_section_runs(sections.drop_last());
        let g = (sections.len() - 1) as usize;
        if runs.len() > 0 && runs.last().0 == sections.last() {
            runs.update(runs.len() - 1, (runs.last().0, runs.last().1.push(g)))
        } else {
            runs.push((sections.last(), seq![g]))
        }
    }
}

/// The runs of `runs` as section index and glyph positions.
pub open spec fn run_pairs(runs: Seq<RawSectionGlyphs>) -> Seq<(usize, Seq<usize>)> {
    runs.map_values(|r: RawSectionGlyphs| (r.index, r.glyphs@))
}

proof fn lemma_flatten_alt_push(runs: Seq<Seq<usize>>, x: Seq<usize>)
    ensures
        runs.push(x).flatten_alt() == runs.flatten_alt() + x,
{
    assert(runs.push(x).drop_last() =~= runs);
}

proof fn lemma_flatten_alt_extend_last(runs: Seq<Seq<usize>>, g: usize)
    requires
        runs.len() > 0,
    ensures
        runs.update(runs.len() - 1, runs.last().push(g)).flatten_alt() == runs.flatten_alt().push(g),
{
    let u = runs.update(runs.len() - 1, runs.last().push(g));
    assert(u.drop_last() =~= runs.drop_last());
    assert(u.flatten_alt() == u.drop_last().flatten_alt() + u.last());
    assert(runs.flatten_alt() == runs.drop_last().flatten_alt() + runs.last());
    assert(u.flatten_alt() =~= runs.flatten_alt().push(g));
}

impl RawSectionGlyphs {
    /// Groups laid-out glyphs by section: `sections[g]` is the section index of glyph `g`, and
    /// every run of consecutive glyphs with one section index becomes one group.
    pub fn groups(sections: &Vec<usize>) -> (runs: Vec<RawSectionGlyphs>)
        ensures
            is_section_grouping(sections@, runs@),
            run_pairs(runs@) == spec_section_runs(sections@),
    {
        let mut runs: Vec<RawSectionGlyphs> = Vec::new();
        let n = sections.len();
        let mut i: usize = 0;
        proof {
            assert(run_glyphs(runs@) =~= Seq::<Seq<usize>>::empty());
            assert(positions(0) =~= Seq::<usize>::empty());
            run_glyphs(runs@).lemma_flatten_and_flatten_alt_are_equivalent();
        }
        while i < n
            invariant
                n == sections@.len(),
                i <= n,
                run_glyphs(runs@).flatten_alt() == positions(i as int),
                forall|k: int| 0 <= k < runs@.len() ==> #[trigger] runs@[k].glyphs@.len() > 0,
                forall|k: int, j: int|
                    0 <= k < runs@.len() && 0 <= j < runs@[k].glyphs@.len()
                        ==> sections@[#[trigger] runs@[k].glyphs@[j] as int] == runs@[k].index,
                forall|k: int| 0 <= k < runs@.len() - 1 ==> #[trigger] runs@[k].index != runs@[k + 1].index,
                i > 0 ==> runs@.len() > 0 && runs@.last().index == sections@[i - 1],
                run_pairs(runs@) == spec_section_runs(sections@.take(i as int)),
            decreases n - i,
        {
            let index = sections[i];
            let ghost old_runs = runs@;
            proof {
                assert(sections@.take(i + 1).drop_last() =~= sections@.take(i as int));
                assert(sections@.take(i + 1).last() == index);
            }
            let len = runs.len();
            if len > 0 && runs[len - 1].index == index {
                let mut last = runs.pop().unwrap();
                last.glyphs.push(i);
                runs.push(last);
                proof {
                    assert(run_glyphs(runs@) =~= run_glyphs(old_runs).update(
                        run_glyphs(old_runs).len() - 1,
                        run_glyphs(old_runs).last().push(i),
                    ));
                    lemma_flatten_alt_extend_last(run_glyphs(old_runs), i);
                    assert(run_pairs(runs@) =~= run_pairs(old_runs).update(
                        run_pairs(old_runs).len() - 1,
                        (run_pairs(old_runs).last().0, run_pairs(old_runs).last().1.push(i)),
                    ));
                    assert(positions(i + 1) =~= positions(i as int).push(i));
                    assert forall|k: int, j: int|
                        0 <= k < runs@.len() && 0 <= j < runs@[k].glyphs@.len() implies sections@[
                        #[trigger] runs@[k].glyphs@[j] as int] == runs@[k].index by {
                        if k < runs@.len() - 1 {
                            assert(runs@[k] == old_runs[k]);
                        } else {
                            if j < old_runs[k].glyphs@.len() {
                                assert(runs@[k].glyphs@[j] == old_runs[k].glyphs@[j]);
                            }
                        }
                    }
                    assert forall|k: int| 0 <= k < runs@.len() - 1 implies #[trigger] runs@[k].index
                        != runs@[k + 1].index by {
                        assert(runs@[k] == old_runs[k]);
                        assert(runs@[k + 1].index == old_runs[k + 1].index);
                    }
                }
            } else {
                let mut glyphs: Vec<usize> = Vec::new();
                glyphs.push(i);
                runs.push(RawSectionGlyphs { index, glyphs });
                proof {
                    assert(run_glyphs(runs@) =~= run_glyphs(old_runs).push(seq![i]));
                    lemma_flatten_alt_push(run_glyphs(old_runs), seq![i]);
                    assert(run_pairs(runs@) =~= run_pairs(old_runs).push((index, seq![i])));
                    assert(positions(i + 1) =~= positions(i as int) + seq![i]);
                    assert forall|k: int, j: int|
                        0 <= k < runs@.len() && 0 <= j < runs@[k].glyphs@.len() implies sections@[
                        #[trigger] runs@[k].glyphs@[j] as int] == runs@[k].index by {
                        if k < runs@.len() - 1 {
                            assert(runs@[k] == old_runs[k]);
                        }
                    }
                    assert forall|k: int| 0 <= k < runs@.len() - 1 implies #[trigger] runs@[k].index
                        != runs@[k + 1].index by {
                        assert(runs@[k] == old_runs[k]);
                        if k + 1 < runs@.len() - 1 {
                            assert(runs@[k + 1] == old_runs[k + 1]);
                        }
                    }
                }
            }
            i = i + 1;
        }
        proof {
            run_glyphs(runs@).lemma_flatten_and_flatten_alt_are_equivalent();
            assert(sections@.take(n as int) =~= sections@);
        }
        runs
    }
}

/// Number of bytes of the UTF-8 encoding of `c`.
pub open spec fn spec_utf8_width(c: char) -> int {
    if (c as u32) < 0x80 {
        1
    } else if (c as u32) < 0x800 {
        2
    } else if (c as u32) < 0x10000 {
        3
    } else {
        4
    }
}

/// Byte offset, in the UTF-8 encoding of `s`, of the character at position `k`.
pub open spec fn spec_byte_offset(s: Seq<char>, k: int) -> int
    decreases k,
{
    if k <= 0 {
        0
    } else {
        spec_byte_offset(s, k - 1) + spec_utf8_width(s[k - 1])
    }
}

/// Law: character byte offsets strictly increase along a string, so at most one character
/// starts at any byte offset.
pub proof fn lemma_byte_offsets_increase(s: Seq<char>, j: int, k: int)
    requires
        0 <= j < k,
    ensures
        spec_byte_offset(s, j) < spec_byte_offset(s, k),
    decreases k - j,
{
    if j + 1 < k {
        lemma_byte_offsets_increase(s, j, k - 1);
    }
}

proof fn lemma_width_is_encoding_len(c: char)
    ensures
        spec_utf8_width(c) == vstd::utf8::encode_scalar(c as u32).len(),
{
    vstd::utf8::char_is_scalar(c);
}

proof fn lemma_encode_utf8_push(a: Seq<char>, c: char)
    ensures
        vstd::utf8::encode_utf8(a.push(c)) == vstd::utf8::encode_utf8(a) + vstd::utf8::encode_scalar(
            c as u32,
        ),
    decreases a.len(),
{
    if a.len() == 0 {
        assert(a.push(c).drop_first() =~= Seq::<char>::empty());
        assert(a.push(c)[0] == c);
        assert(vstd::utf8::encode_utf8(a) =~= Seq::<u8>::empty());
        assert(vstd::utf8::encode_utf8(a.push(c)) =~= vstd::utf8::encode_scalar(c as u32)
            + vstd::utf8::encode_utf8(Seq::<char>::empty()));
        assert(vstd::utf8::encode_utf8(a.push(c)) =~= vstd::utf8::encode_scalar(c as u32));
    } else {
        lemma_encode_utf8_push(a.drop_first(), c);
        assert(a.push(c).drop_first() =~= a.drop_first().push(c));
        assert(a.push(c)[0] == a[0]);
        assert(vstd::utf8::encode_utf8(a.push(c)) =~= vstd::utf8::encode_utf8(a)
            + vstd::utf8::encode_scalar(c as u32));
    }
}

/// Law: the byte offset of the character at position `k` is the length of the UTF-8
/// encoding of the `k` characters before it, so it is the offset that `str::char_indices`
/// reports.
pub proof fn lemma_byte_offset_is_utf8_prefix_len(s: Seq<char>, k: int)
    requires
        0 <= k <= s.len(),
    ensures
        spec_byte_offset(s, k) == vstd::utf8::encode_utf8(s.take(k)).len(),
    decreases k,
{
    if k == 0 {
        assert(s.take(0) =~= Seq::<char>::empty());
    } else {
        lemma_byte_offset_is_utf8_prefix_len(s, k - 1);
        assert(s.take(k) =~= s.take(k - 1).push(s[k - 1]));
        lemma_encode_utf8_push(s.take(k - 1), s[k - 1]);
        lemma_width_is_encoding_len(s[k - 1]);
    }
}

/// Character of `text` that starts at byte `byte_index`, if one does.
pub fn char_at_byte_index(text: &str, byte_index: usize) -> (r: Option<char>)
    ensures
        match r {
            Some(c) => exists|k: int|
                0 <= k < text@.len() && spec_byte_offset(text@, k) == byte_index && text@[k] == c,
            None => forall|k: int|
                0 <= k < text@.len() ==> spec_byte_offset(text@, k) != byte_index,
        },
{
    broadcast use vstd::string::group_string_axioms;

    let mut offset: usize = 0;
    let ghost s = text@;
    let mut done = false;
    let mut found: Option<char> = None;
    for c in it: text.chars()
        invariant
            it.seq() == s,
            s == text@,
            !done ==> offset == spec_byte_offset(s, it.index() as int),
            !done ==> found is None,
            !done ==> forall|k: int| 0 <= k < it.index() ==> spec_byte_offset(s, k) != byte_index,
            done ==> match found {
                Some(c) => exists|k: int|
                    0 <= k < s.len() && spec_byte_offset(s, k) == byte_index && s[k] == c,
                None => forall|k: int| 0 <= k < s.len() ==> spec_byte_offset(s, k) != byte_index,
            },
    {
        if !done {
            let ghost k = it.index() as int;
            if offset == byte_index {
                found = Some(c);
                done = true;
            } else {
                let code = c as u32;
                let width: usize = if code < 0x80 {
                    1
                } else if code < 0x800 {
                    2
                } else if code < 0x10000 {
                    3
                } else {
                    4
                };
                if offset > byte_index || byte_index - offset < width {
                    // every later character starts past `byte_index`
                    proof {
                        assert forall|m: int| 0 <= m < s.len() implies spec_byte_offset(s, m)
                            != byte_index by {
                            if m > k {
                                if m > k + 1 {
                                    lemma_byte_offsets_increase(s, k + 1, m);
                                }
                            }
                        }
                    }
                    done = true;
                } else {
                    offset = offset + width;
                }
            }
        }
    }
    found
}

} // verus!
