//! Field quality evaluation.
//!
//! A field's content is classified by scanning the character count of each
//! of its lines in document order. The scan keeps one boolean flag per
//! bracket; a flag set by an earlier line survives unless an over-length
//! line wipes the bracket flags, and an over-length line's own flag is in
//! turn dropped as soon as a later line lands in a bracket. The displayed
//! class is whichever flag is still set at the end of the scan, checked in
//! a fixed precedence order.

use vstd::prelude::*;
use vstd::string::StrSliceExecFns;

verus! {

/// Severity classification of a field's content, derived from the
/// character counts of its lines.
#[derive(Clone, Copy, PartialEq, Eq, Structural, Debug)]
pub enum QualityClass {
    Neutral,
    Good,
    Caution,
    Warning,
    Error,
}

/// Color to draw a field with, one per quality class.
#[derive(Clone, Copy, PartialEq, Eq, Structural, Debug)]
pub enum ColorHint {
    White,
    Green,
    Yellow,
    Orange,
    Red,
}

/// The four sticky flags accumulated while scanning a field's lines.
#[derive(Clone, Copy, PartialEq, Eq, Structural, Debug)]
pub struct ScanFlags {
    pub red: bool,
    pub yellow: bool,
    pub orange: bool,
    pub green: bool,
}

/// Flag state before any line has been scanned.
pub open spec fn initial_flags() -> ScanFlags {
    ScanFlags { red: false, yellow: false, orange: false, green: false }
}

/// How one line of `n` characters updates the flags.
///
/// An over-length line (more than 72 characters) arms the red flag and
/// wipes every bracket flag; a line landing in a bracket arms that
/// bracket's flag and drops the red flag; any other line changes nothing.
pub open spec fn flags_after_line(f: ScanFlags, n: nat) -> ScanFlags {
    if n > 72 {
        ScanFlags { red: true, yellow: false, orange: false, green: false }
    } else if 20 <= n && n <= 35 {
        ScanFlags { red: false, yellow: f.yellow, orange: f.orange, green: true }
    } else if 35 < n && n <= 50 {
        ScanFlags { red: false, yellow: true, orange: f.orange, green: f.green }
    } else if 50 < n && n < 72 {
        ScanFlags { red: false, yellow: f.yellow, orange: true, green: f.green }
    } else {
        f
    }
}

/// The flags left after scanning the line lengths `lens`, starting from `f`.
pub open spec fn scan_flags_from(f: ScanFlags, lens: Seq<nat>) -> ScanFlags
    decreases lens.len(),
{
    if lens.len() == 0 {
        f
    } else {
        scan_flags_from(flags_after_line(f, lens[0]), lens.drop_first())
    }
}

/// The flags left after scanning the line lengths `lens` from scratch.
pub open spec fn scan_flags(lens: Seq<nat>) -> ScanFlags {
    scan_flags_from(initial_flags(), lens)
}

/// The class read off a final flag state: red first, then yellow, orange,
/// green, defaulting to neutral.
pub open spec fn classify_flags(f: ScanFlags) -> QualityClass {
    if f.red {
        QualityClass::Error
    } else if f.yellow {
        QualityClass::Caution
    } else if f.orange {
        QualityClass::Warning
    } else if f.green {
        QualityClass::Good
    } else {
        QualityClass::Neutral
    }
}

/// The quality class of a field whose lines have the given lengths.
pub open spec fn spec_evaluate(lens: Seq<nat>) -> QualityClass {
    classify_flags(scan_flags(lens))
}

/// The character counts of a field's lines.
pub open spec fn spec_line_lengths(lines: Seq<Seq<char>>) -> Seq<nat> {
    lines.map_values(|l: Seq<char>| l.len())
}

/// The quality class of a field with the given lines.
pub open spec fn spec_classify_lines(lines: Seq<Seq<char>>) -> QualityClass {
    spec_evaluate(spec_line_lengths(lines))
}

/// View of a length vector as a sequence of mathematical lengths.
pub open spec fn lens_of(v: Seq<usize>) -> Seq<nat> {
    v.map_values(|n: usize| n as nat)
}

/// Evaluate the quality class of a field from the character counts of its
/// lines, scanning them in document order.
pub fn evaluate(lengths: &Vec<usize>) -> (c: QualityClass)
    ensures
        c == spec_evaluate(lens_of(lengths@)),
{
    let ghost lens: Seq<nat> = lens_of(lengths@);
    let mut red: bool = false;
    let mut yellow: bool = false;
    let mut orange: bool = false;
    let mut green: bool = false;
    let mut i: usize = 0;
    proof {
        assert(lens.skip(0) =~= lens);
    }
    while i < lengths.len()
        invariant
            i <= lengths.len(),
            lens == lens_of(lengths@),
            lens.len() == lengths@.len(),
            scan_flags_from(ScanFlags { red, yellow, orange, green }, lens.skip(i as int))
                == scan_flags(lens),
        decreases lengths.len() - i,
    {
        let n = lengths[i];
        proof {
            assert(lens.skip(i as int)[0] == n as nat);
            assert(lens.skip(i as int).drop_first() =~= lens.skip(i + 1));
        }
        if n > 72 {
            red = true;
            yellow = false;
            orange = false;
            green = false;
        } else if n >= 20 && n <= 35 {
            green = true;
            red = false;
        } else if n > 35 && n <= 50 {
            yellow = true;
            red = false;
        } else if n > 50 && n < 72 {
            orange = true;
            red = false;
        }
        i = i + 1;
    }
    proof {
        assert(lens.skip(lengths@.len() as int) =~= Seq::<nat>::empty());
    }
    if red {
        QualityClass::Error
    } else if yellow {
        QualityClass::Caution
    } else if orange {
        QualityClass::Warning
    } else if green {
        QualityClass::Good
    } else {
        QualityClass::Neutral
    }
}

/// The character count of each line of a field's content, in order.
pub fn line_lengths(lines: &Vec<String>) -> (r: Vec<usize>)
    ensures
        lens_of(r@) == spec_line_lengths(lines.deep_view()),
{
    let mut r: Vec<usize> = Vec::new();
    let mut i: usize = 0;
    while i < lines.len()
        invariant
            i <= lines.len(),
            r@.len() == i,
            forall|j: int| 0 <= j < i ==> r@[j] as nat == lines.deep_view()[j].len(),
        decreases lines.len() - i,
    {
        let n = lines[i].as_str().unicode_len();
        r.push(n);
        i = i + 1;
    }
    proof {
        assert(lens_of(r@) =~= spec_line_lengths(lines.deep_view()));
    }
    r
}

/// Classify a field's content: scan the character counts of its lines.
pub fn classify_lines(lines: &Vec<String>) -> (c: QualityClass)
    ensures
        c == spec_classify_lines(lines.deep_view()),
{
    let lengths = line_lengths(lines);
    evaluate(&lengths)
}

/// A line of `n` characters lands in one of the three brackets, arming a
/// non-error flag.
pub open spec fn in_bracket(n: nat) -> bool {
    20 <= n && n <= 71
}

/// The red flag survives a scan over lines that land in no bracket.
proof fn lemma_red_sticky(f: ScanFlags, lens: Seq<nat>)
    requires
        f.red,
        forall|j: int| 0 <= j < lens.len() ==> !in_bracket(#[trigger] lens[j]),
    ensures
        scan_flags_from(f, lens).red,
    decreases lens.len(),
{
    if lens.len() > 0 {
        assert(forall|j: int|
            0 <= j < lens.drop_first().len() ==> !in_bracket(#[trigger] lens.drop_first()[j]));
        lemma_red_sticky(flags_after_line(f, lens[0]), lens.drop_first());
    }
}

/// A scan over lines that never run over length cannot arm the red flag,
/// and cannot drop every bracket flag.
proof fn lemma_no_overlength_preserves(f: ScanFlags, lens: Seq<nat>)
    requires
        !f.red,
        forall|j: int| 0 <= j < lens.len() ==> #[trigger] lens[j] <= 72,
    ensures
        !scan_flags_from(f, lens).red,
        f.green || f.yellow || f.orange ==> {
            let out = scan_flags_from(f, lens);
            out.green || out.yellow || out.orange
        },
    decreases lens.len(),
{
    if lens.len() > 0 {
        assert(forall|j: int|
            0 <= j < lens.drop_first().len() ==> #[trigger] lens.drop_first()[j] <= 72);
        lemma_no_overlength_preserves(flags_after_line(f, lens[0]), lens.drop_first());
    }
}

/// The red flag is armed after line `i` and survives to the end of the
/// scan where no later line lands in a bracket.
proof fn lemma_overlength_wins_from(f: ScanFlags, lens: Seq<nat>, i: int)
    requires
        0 <= i < lens.len(),
        lens[i] > 72,
        forall|j: int| i < j < lens.len() ==> !in_bracket(#[trigger] lens[j]),
    ensures
        scan_flags_from(f, lens).red,
    decreases i,
{
    if i == 0 {
        assert(forall|j: int|
            0 <= j < lens.drop_first().len() ==> !in_bracket(#[trigger] lens.drop_first()[j]));
        lemma_red_sticky(flags_after_line(f, lens[0]), lens.drop_first());
    } else {
        assert(forall|j: int|
            i - 1 < j < lens.drop_first().len() ==> !in_bracket(#[trigger] lens.drop_first()[j]));
        lemma_overlength_wins_from(flags_after_line(f, lens[0]), lens.drop_first(), i - 1);
    }
}

/// A bracket flag is armed after line `i`, the red flag is dropped, and
/// both survive to the end of the scan where no later line runs over
/// length.
proof fn lemma_bracket_rearms_from(f: ScanFlags, lens: Seq<nat>, i: int)
    requires
        0 <= i < lens.len(),
        in_bracket(lens[i]),
        forall|j: int| i < j < lens.len() ==> #[trigger] lens[j] <= 72,
    ensures
        !scan_flags_from(f, lens).red,
        scan_flags_from(f, lens).green || scan_flags_from(f, lens).yellow || scan_flags_from(
            f,
            lens,
        ).orange,
    decreases i,
{
    if i == 0 {
        assert(forall|j: int|
            0 <= j < lens.drop_first().len() ==> #[trigger] lens.drop_first()[j] <= 72);
        lemma_no_overlength_preserves(flags_after_line(f, lens[0]), lens.drop_first());
    } else {
        assert(forall|j: int|
            i - 1 < j < lens.drop_first().len() ==> #[trigger] lens.drop_first()[j] <= 72);
        lemma_bracket_rearms_from(flags_after_line(f, lens[0]), lens.drop_first(), i - 1);
    }
}

/// LAW — an over-length line is absorbing until a bracket line follows.
///
/// Where some line runs over 72 characters and no later line lands in a
/// bracket, the field is classified as an error, whatever stood before.
pub proof fn lemma_overlength_wins(lens: Seq<nat>, i: int)
    requires
        0 <= i < lens.len(),
        lens[i] > 72,
        forall|j: int| i < j < lens.len() ==> !in_bracket(#[trigger] lens[j]),
    ensures
        spec_evaluate(lens) == QualityClass::Error,
{
    lemma_overlength_wins_from(initial_flags(), lens, i);
}

/// LAW — a later bracket line re-arms its class over an earlier
/// over-length line.
///
/// Where some line lands in a bracket and no later line runs over 72
/// characters, the field is classified in a bracket class: neither error,
/// however many over-length lines came before, nor neutral.
pub proof fn lemma_bracket_rearms(lens: Seq<nat>, i: int)
    requires
        0 <= i < lens.len(),
        in_bracket(lens[i]),
        forall|j: int| i < j < lens.len() ==> #[trigger] lens[j] <= 72,
    ensures
        spec_evaluate(lens) != QualityClass::Error,
        spec_evaluate(lens) != QualityClass::Neutral,
{
    lemma_bracket_rearms_from(initial_flags(), lens, i);
}

/// The color a quality class is drawn with.
pub open spec fn spec_color_hint(c: QualityClass) -> ColorHint {
    match c {
        QualityClass::Neutral => ColorHint::White,
        QualityClass::Good => ColorHint::Green,
        QualityClass::Caution => ColorHint::Yellow,
        QualityClass::Warning => ColorHint::Orange,
        QualityClass::Error => ColorHint::Red,
    }
}

/// The note appended to a field's title when its content is classified as
/// an error.
pub const ERROR_NOTE: &'static str = "( a line is superior to the max lines length )";

/// The title text a field is drawn with: its own title, with the
/// over-length note appended when its content is classified as an error.
pub fn field_heading(title: &str, c: QualityClass) -> (r: String)
    ensures
        c == QualityClass::Error ==> r@ == title@ + " "@ + ERROR_NOTE@,
        c != QualityClass::Error ==> r@ == title@,
{
    let mut s = title.to_owned();
    if let QualityClass::Error = c {
        s.append(" ");
        s.append(ERROR_NOTE);
        proof {
            assert(s@ =~= title@ + " "@ + ERROR_NOTE@);
        }
    }
    s
}

/// The color a field of the given quality class is drawn with.
pub fn color_hint(c: QualityClass) -> (r: ColorHint)
    ensures
        r == spec_color_hint(c),
{
    match c {
        QualityClass::Neutral => ColorHint::White,
        QualityClass::Good => ColorHint::Green,
        QualityClass::Caution => ColorHint::Yellow,
        QualityClass::Warning => ColorHint::Orange,
        QualityClass::Error => ColorHint::Red,
    }
}

} // verus!

