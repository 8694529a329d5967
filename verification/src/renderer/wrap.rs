//! Measuring text and breaking it into lines.
//!
//! How wide a text is set, only the canvas can tell. The renderer asks
//! through a function that it is handed: it takes a font and a text and
//! gives the width, in units of which `SUBPIXELS` make a pixel, or `None`
//! where the canvas could not measure. Nothing is taken for granted about
//! that function, not even that it gives the same answer twice; what the
//! renderer promises is stated over the answers it got.

use vstd::prelude::*;
use vstd::string::*;
use crate::canvas::Font;

verus! {

/// The texts of a list of strings.
pub open spec fn texts(v: Seq<String>) -> Seq<Seq<char>> {
    v.map_values(|s: String| s@)
}

/// The pieces of `s` between the separators: one more than there are
/// separators, so that a text without any is its own single piece, and the
/// empty text has one empty piece.
pub open spec fn split(s: Seq<char>, sep: char) -> Seq<Seq<char>>
    decreases s.len(),
{
    if s.len() == 0 {
        seq![Seq::empty()]
    } else if s.last() == sep {
        split(s.drop_last(), sep).push(Seq::empty())
    } else {
        let parts = split(s.drop_last(), sep);
        parts.drop_last().push(parts.last().push(s.last()))
    }
}

/// The characters of a string.
pub fn chars_of(text: &str) -> (v: Vec<char>)
    ensures
        v@ == text@,
{
    let mut v: Vec<char> = Vec::new();
    for c in it: text.chars()
        invariant
            v@.len() == it.index(),
            forall|i: int| 0 <= i < v@.len() ==> v@[i] == it.seq()[i],
            it.seq() == text@,
    {
        v.push(c);
    }
    assert(v@ =~= text@);
    v
}

/// The pieces of a text between the separators.
pub fn split_text(text: &str, sep: char) -> (parts: Vec<String>)
    ensures
        texts(parts@) == split(text@, sep),
        parts@.len() >= 1,
{
    let cs = chars_of(text);
    let n = cs.len();
    let mut parts: Vec<String> = Vec::new();
    let mut start: usize = 0;
    let mut i: usize = 0;
    assert(text@.take(0) =~= Seq::<char>::empty());
    assert(texts(parts@).push(text@.subrange(0, 0)) =~= split(text@.take(0), sep));
    while i < n
        invariant
            start <= i <= n,
            n == text@.len(),
            cs@ == text@,
            texts(parts@).push(text@.subrange(start as int, i as int)) == split(
                text@.take(i as int),
                sep,
            ),
        decreases n - i,
    {
        let ghost prefix = text@.take(i as int);
        let ghost next = text@.take(i + 1);
        assert(next.drop_last() =~= prefix);
        assert(next.last() == text@[i as int]);
        if cs[i] == sep {
            let piece = text.substring_char(start, i).to_string();
            let ghost before = texts(parts@);
            parts.push(piece);
            assert(texts(parts@) =~= before.push(text@.subrange(start as int, i as int)));
            start = i + 1;
            assert(text@.subrange(start as int, i + 1) =~= Seq::<char>::empty());
        } else {
            let ghost parts_before = split(prefix, sep);
            assert(parts_before.drop_last() =~= texts(parts@));
            assert(parts_before.last() == text@.subrange(start as int, i as int));
            assert(text@.subrange(start as int, i + 1) =~= text@.subrange(
                start as int,
                i as int,
            ).push(text@[i as int]));
        }
        i += 1;
    }
    let piece = text.substring_char(start, n).to_string();
    let ghost before = texts(parts@);
    parts.push(piece);
    assert(texts(parts@) =~= before.push(text@.subrange(start as int, n as int)));
    assert(text@.take(n as int) =~= text@);
    parts
}

/// Whether a measured width lets a text stay on its line: it does if the
/// width is no more than the line allows, and also if the canvas could not
/// measure.
pub open spec fn width_fits(width: Option<u32>, max_width: int) -> bool {
    match width {
        Some(w) => w <= max_width,
        None => true,
    }
}

/// Whether `width` is an answer that `measure` can give for `text` set in
/// `font`.
pub open spec fn measures<M: Fn(Font, &str) -> Option<u32>>(
    measure: M,
    font: Font,
    text: Seq<char>,
    width: Option<u32>,
) -> bool {
    exists|s: &str| s@ == text && call_ensures(measure, (font, s), width)
}

/// Whether `measure` can give an answer for `text` by which the text fits,
/// if `fit` holds, or does not fit, if it does not.
pub open spec fn measured_fit<M: Fn(Font, &str) -> Option<u32>>(
    measure: M,
    font: Font,
    text: Seq<char>,
    max_width: int,
    fit: bool,
) -> bool {
    exists|width: Option<u32>|
        #[trigger] measures(measure, font, text, width) && fit == width_fits(width, max_width)
}

/// The finished lines and the line in the making after the words up to and
/// with `words[k]` have been placed. `fits[i]` tells whether `words[i + 1]`
/// still fit on the line in the making: if so it joins that line after one
/// space, and if not that line is finished and the word starts the next.
pub open spec fn wrap_state(words: Seq<Seq<char>>, fits: Seq<bool>, k: int) -> (
    Seq<Seq<char>>,
    Seq<char>,
)
    decreases k,
{
    if k <= 0 {
        (Seq::empty(), words[0])
    } else {
        let (lines, current) = wrap_state(words, fits, k - 1);
        if fits[k - 1] {
            (lines, current + seq![' '] + words[k])
        } else {
            (lines.push(current), words[k])
        }
    }
}

/// The text that is measured to decide whether `words[k]` still fits: the
/// line in the making, a space, and the word.
pub open spec fn candidate(words: Seq<Seq<char>>, fits: Seq<bool>, k: int) -> Seq<char> {
    wrap_state(words, fits, k - 1).1 + seq![' '] + words[k]
}

/// The lines into which the words of one paragraph are wrapped under the
/// decisions `fits`.
pub open spec fn wrapped(words: Seq<Seq<char>>, fits: Seq<bool>) -> Seq<Seq<char>> {
    let (lines, current) = wrap_state(words, fits, words.len() - 1);
    lines.push(current)
}

/// The lines of the first `n` paragraphs, each wrapped under its own
/// decisions.
pub open spec fn wrapped_paragraphs(
    paragraphs: Seq<Seq<char>>,
    fits: Seq<Seq<bool>>,
    n: int,
) -> Seq<Seq<char>>
    decreases n,
{
    if n <= 0 {
        Seq::empty()
    } else {
        wrapped_paragraphs(paragraphs, fits, n - 1) + wrapped(
            split(paragraphs[n - 1], ' '),
            fits[n - 1],
        )
    }
}

/// Whether the decisions `fits` for the words of one paragraph are each an
/// answer of `measure` for the text that was to be measured.
pub open spec fn decisions_measured<M: Fn(Font, &str) -> Option<u32>>(
    measure: M,
    font: Font,
    max_width: int,
    words: Seq<Seq<char>>,
    fits: Seq<bool>,
) -> bool {
    &&& fits.len() == words.len() - 1
    &&& forall|k: int|
        1 <= k < words.len() ==> measured_fit(
            measure,
            font,
            #[trigger] candidate(words, fits, k),
            max_width,
            fits[k - 1],
        )
}

/// Whether `lines` is `text` wrapped under the decisions `fits`, one list
/// of decisions for each paragraph, each decision an answer of `measure`.
pub open spec fn wraps_by<M: Fn(Font, &str) -> Option<u32>>(
    measure: M,
    font: Font,
    text: Seq<char>,
    max_width: int,
    fits: Seq<Seq<bool>>,
    lines: Seq<Seq<char>>,
) -> bool {
    let paragraphs = split(text, '\n');
    &&& fits.len() == paragraphs.len()
    &&& forall|j: int|
        0 <= j < paragraphs.len() ==> decisions_measured(
            measure,
            font,
            max_width,
            split(paragraphs[j], ' '),
            #[trigger] fits[j],
        )
    &&& lines == wrapped_paragraphs(paragraphs, fits, paragraphs.len() as int)
}

/// Whether `lines` is `text` wrapped to `max_width` by what `measure`
/// answered. The text falls into paragraphs at each line feed and each
/// paragraph into words at each space. A paragraph's lines are filled
/// greedily: a word joins the line as long as the line with it is measured
/// to fit, and starts a new line once it is not. An empty paragraph gives
/// one empty line.
pub open spec fn wraps_to<M: Fn(Font, &str) -> Option<u32>>(
    measure: M,
    font: Font,
    text: Seq<char>,
    max_width: int,
    lines: Seq<Seq<char>>,
) -> bool {
    exists|fits: Seq<Seq<bool>>| wraps_by(measure, font, text, max_width, fits, lines)
}

/// The placing of the first words does not depend on later decisions.
proof fn lemma_wrap_state_prefix(words: Seq<Seq<char>>, fits: Seq<bool>, more: Seq<bool>, k: int)
    requires
        0 <= k <= fits.len(),
        fits.len() <= more.len(),
        forall|i: int| 0 <= i < fits.len() ==> fits[i] == more[i],
    ensures
        wrap_state(words, more, k) == wrap_state(words, fits, k),
    decreases k,
{
    if k > 0 {
        lemma_wrap_state_prefix(words, fits, more, k - 1);
    }
}

/// The lines of the first paragraphs do not depend on the decisions for
/// later ones.
proof fn lemma_paragraphs_prefix(
    paragraphs: Seq<Seq<char>>,
    fits: Seq<Seq<bool>>,
    more: Seq<Seq<bool>>,
    n: int,
)
    requires
        0 <= n <= fits.len(),
        fits.len() <= more.len(),
        forall|i: int| 0 <= i < fits.len() ==> fits[i] == more[i],
    ensures
        wrapped_paragraphs(paragraphs, more, n) == wrapped_paragraphs(paragraphs, fits, n),
    decreases n,
{
    if n > 0 {
        lemma_paragraphs_prefix(paragraphs, fits, more, n - 1);
    }
}

/// Wraps the words of one paragraph and appends its lines to `lines`.
fn wrap_paragraph<M: Fn(Font, &str) -> Option<u32>>(
    lines: &mut Vec<String>,
    words: &Vec<String>,
    max_width: i128,
    font: Font,
    measure: &M,
) -> (fits: Ghost<Seq<bool>>)
    requires
        words@.len() >= 1,
        forall|f: Font, s: &str| call_requires(*measure, (f, s)),
    ensures
        decisions_measured(*measure, font, max_width as int, texts(words@), fits@),
        texts(final(lines)@) == texts(old(lines)@) + wrapped(texts(words@), fits@),
{
    let ghost ws = texts(words@);
    let ghost base = texts(lines@);
    let ghost mut fits: Seq<bool> = Seq::empty();
    let mut current: String = words[0].clone();
    let mut k: usize = 1;
    assert(texts(lines@) =~= base + wrap_state(ws, fits, 0).0);
    while k < words.len()
        invariant
            1 <= k <= words.len(),
            ws == texts(words@),
            forall|f: Font, s: &str| call_requires(*measure, (f, s)),
            fits.len() == k - 1,
            texts(lines@) == base + wrap_state(ws, fits, k - 1).0,
            current@ == wrap_state(ws, fits, k - 1).1,
            forall|i: int|
                1 <= i < k ==> measured_fit(
                    *measure,
                    font,
                    #[trigger] candidate(ws, fits, i),
                    max_width as int,
                    fits[i - 1],
                ),
        decreases words.len() - k,
    {
        let mut test = current.clone();
        test.append(" ");
        test.append(words[k].as_str());
        proof {
            reveal_strlit(" ");
            assert(" "@ =~= seq![' ']);
            assert(test@ =~= candidate(ws, fits, k as int));
        }
        let width = measure(font, test.as_str());
        let fit = match width {
            Some(w) => w as i128 <= max_width,
            None => true,
        };
        let ghost earlier = fits;
        proof {
            fits = fits.push(fit);
            assert forall|i: int| 1 <= i <= k implies measured_fit(
                *measure,
                font,
                #[trigger] candidate(ws, fits, i),
                max_width as int,
                fits[i - 1],
            ) by {
                lemma_wrap_state_prefix(ws, earlier, fits, i - 1);
                if i == k {
                    assert(measures(*measure, font, test@, width));
                    assert(fit == width_fits(width, max_width as int));
                } else {
                    assert(candidate(ws, fits, i) == candidate(ws, earlier, i));
                }
            }
            lemma_wrap_state_prefix(ws, earlier, fits, k - 1);
        }
        if fit {
            current = test;
        } else {
            let ghost before = texts(lines@);
            lines.push(current);
            assert(texts(lines@) =~= before.push(wrap_state(ws, fits, k - 1).1));
            current = words[k].clone();
        }
        assert(texts(lines@) =~= base + wrap_state(ws, fits, k as int).0);
        k += 1;
    }
    let ghost before = texts(lines@);
    lines.push(current);
    assert(texts(lines@) =~= before.push(wrap_state(ws, fits, ws.len() - 1).1));
    assert(texts(lines@) =~= base + wrapped(ws, fits));
    Ghost(fits)
}

/// Wraps a text to lines of at most `max_width`, set in `font`, by asking
/// `measure` for the width of each line that it tries.
pub fn wrap_text<M: Fn(Font, &str) -> Option<u32>>(
    text: &str,
    max_width: i128,
    font: Font,
    measure: &M,
) -> (lines: Vec<String>)
    requires
        forall|f: Font, s: &str| call_requires(*measure, (f, s)),
    ensures
        wraps_to(*measure, font, text@, max_width as int, texts(lines@)),
{
    let paragraphs = split_text(text, '\n');
    let ghost ps = split(text@, '\n');
    let mut lines: Vec<String> = Vec::new();
    let ghost mut fits: Seq<Seq<bool>> = Seq::empty();
    let mut j: usize = 0;
    assert(texts(lines@) =~= wrapped_paragraphs(ps, fits, 0));
    while j < paragraphs.len()
        invariant
            j <= paragraphs.len(),
            ps == texts(paragraphs@),
            forall|f: Font, s: &str| call_requires(*measure, (f, s)),
            fits.len() == j,
            forall|i: int|
                0 <= i < j ==> decisions_measured(
                    *measure,
                    font,
                    max_width as int,
                    split(ps[i], ' '),
                    #[trigger] fits[i],
                ),
            texts(lines@) == wrapped_paragraphs(ps, fits, j as int),
        decreases paragraphs.len() - j,
    {
        let words = split_text(paragraphs[j].as_str(), ' ');
        let ghost earlier = fits;
        let decided = wrap_paragraph(&mut lines, &words, max_width, font, measure);
        proof {
            fits = fits.push(decided@);
            lemma_paragraphs_prefix(ps, earlier, fits, j as int);
            assert(ps[j as int] == paragraphs@[j as int]@);
        }
        j += 1;
    }
    assert(wraps_by(*measure, font, text@, max_width as int, fits, texts(lines@)));
    lines
}

} // verus!
