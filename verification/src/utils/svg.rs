use vstd::prelude::*;
use vstd::string::*;

verus! {

/// Relies on std's String::push: appends exactly one character.
pub assume_specification[ String::push ](s: &mut String, c: char)
    ensures
        final(s)@ == old(s)@.push(c),
;

/// Advance widths of a typeface at one fixed pixel size, as plain
/// values in 64ths of a pixel: per-character entries and a fallback
/// for characters the table does not list. The embedding program
/// fills it from the loaded font; keeping subpixel units lets a
/// string's width be summed first and rounded up to whole pixels
/// once, the way a float accumulation would, and the layout below is
/// exact for any table.
#[derive(Debug, Clone)]
pub struct CharWidths {
    pub entries: Vec<(char, u32)>,
    pub default_width: u32,
}

/// Width of one character: the first matching entry from position i
/// on, else the fallback.
pub open spec fn spec_char_width_from(
    entries: Seq<(char, u32)>,
    i: int,
    c: char,
    default_width: u32,
) -> int
    decreases entries.len() - i,
{
    if i < 0 || i >= entries.len() {
        default_width as int
    } else if entries[i].0 == c {
        entries[i].1 as int
    } else {
        spec_char_width_from(entries, i + 1, c, default_width)
    }
}

/// Width of one character under a width table.
pub open spec fn spec_char_width(cw: CharWidths, c: char) -> int {
    spec_char_width_from(cw.entries@, 0, c, cw.default_width)
}

/// Width of the characters of s from position i on.
pub open spec fn spec_width_from(cw: CharWidths, s: Seq<char>, i: int) -> int
    decreases s.len() - i,
{
    if i < 0 || i >= s.len() {
        0
    } else {
        spec_char_width(cw, s[i]) + spec_width_from(cw, s, i + 1)
    }
}

/// Width of a string: the sum of its characters' widths.
pub open spec fn spec_width(cw: CharWidths, s: Seq<char>) -> int {
    spec_width_from(cw, s, 0)
}

/// A sum clamped to what a usize can hold; measuring saturates there.
pub open spec fn spec_cap_usize(x: int) -> int {
    if x > usize::MAX as int {
        usize::MAX as int
    } else {
        x
    }
}

/// A subpixel width rounded up to whole pixels.
pub open spec fn spec_ceil_px(w: int) -> int {
    (w + 63) / 64
}

/// Measured width of a string in whole pixels: the subpixel widths
/// summed (saturating at usize::MAX), then rounded up once.
pub open spec fn spec_measure(cw: CharWidths, s: Seq<char>) -> int {
    spec_ceil_px(spec_cap_usize(spec_width(cw, s)))
}

/// Rounding up to whole pixels is monotone.
pub proof fn lemma_ceil_px_monotone(a: int, b: int)
    requires
        a <= b,
    ensures
        spec_ceil_px(a) <= spec_ceil_px(b),
{
    assert((a + 63) / 64 <= (b + 63) / 64) by (nonlinear_arith)
        requires
            a <= b,
    ;
}

proof fn lemma_char_width_nonneg(cw: CharWidths, c: char)
    ensures
        spec_char_width(cw, c) >= 0,
{
    lemma_char_width_from_nonneg(cw.entries@, 0, c, cw.default_width);
}

proof fn lemma_char_width_from_nonneg(entries: Seq<(char, u32)>, i: int, c: char, d: u32)
    ensures
        spec_char_width_from(entries, i, c, d) >= 0,
    decreases entries.len() - i,
{
    if 0 <= i && i < entries.len() && entries[i].0 != c {
        lemma_char_width_from_nonneg(entries, i + 1, c, d);
    }
}

/// Widths of suffixes are non-negative.
pub proof fn lemma_width_from_nonneg(cw: CharWidths, s: Seq<char>, i: int)
    ensures
        spec_width_from(cw, s, i) >= 0,
    decreases s.len() - i,
{
    if 0 <= i && i < s.len() {
        lemma_char_width_nonneg(cw, s[i]);
        lemma_width_from_nonneg(cw, s, i + 1);
    }
}

fn char_width(cw: &CharWidths, c: char) -> (r: u32)
    ensures
        r as int == spec_char_width(*cw, c),
{
    let n = cw.entries.len();
    let mut i: usize = 0;
    while i < n
        invariant
            n == cw.entries@.len(),
            i <= n,
            spec_char_width_from(cw.entries@, i as int, c, cw.default_width) == spec_char_width(
                *cw,
                c,
            ),
        decreases n - i,
    {
        let (ec, ew) = cw.entries[i];
        if ec == c {
            return ew;
        }
        i += 1;
    }
    cw.default_width
}

/// Add two usize values, saturating at usize::MAX.
pub fn sat_add_usize(a: usize, b: usize) -> (r: usize)
    ensures
        r as int == spec_cap_usize(a + b),
{
    if a > usize::MAX - b {
        usize::MAX
    } else {
        a + b
    }
}

/// Measure a string's width in whole pixels under a width table: the
/// subpixel advances are summed (saturating at usize::MAX) and the
/// sum is rounded up to pixels once.
pub fn calc_width(cw: &CharWidths, text: &str) -> (r: usize)
    ensures
        r as int == spec_measure(*cw, text@),
{
    let n = text.unicode_len();
    let mut i: usize = n;
    let mut acc: usize = 0;
    while i > 0
        invariant
            n == text@.len(),
            i <= n,
            acc as int == spec_cap_usize(spec_width_from(*cw, text@, i as int)),
        decreases i,
    {
        i -= 1;
        let w = char_width(cw, text.get_char(i));
        proof {
            lemma_width_from_nonneg(*cw, text@, i + 1);
            lemma_char_width_nonneg(*cw, text@[i as int]);
        }
        acc = sat_add_usize(w as usize, acc);
    }
    let r: usize = acc / 64 + if acc % 64 != 0 {
        1
    } else {
        0
    };
    proof {
        assert(r as int == spec_ceil_px(acc as int)) by (nonlinear_arith)
            requires
                r as int == acc as int / 64 + (if acc as int % 64 != 0 {
                    1int
                } else {
                    0int
                }),
                acc >= 0,
        ;
    }
    r
}

/// The whitespace characters that separate words.
pub open spec fn spec_is_ws(c: char) -> bool {
    c == ' ' || c == '\t' || c == '\n' || c == '\r'
}

/// Words of s from position i on, with cur the partial word read so
/// far and acc the words already complete.
pub open spec fn spec_words_from(
    s: Seq<char>,
    i: int,
    cur: Seq<char>,
    acc: Seq<Seq<char>>,
) -> Seq<Seq<char>>
    decreases s.len() - i,
{
    if i < 0 || i >= s.len() {
        if cur.len() > 0 {
            acc.push(cur)
        } else {
            acc
        }
    } else if spec_is_ws(s[i]) {
        if cur.len() > 0 {
            spec_words_from(s, i + 1, Seq::empty(), acc.push(cur))
        } else {
            spec_words_from(s, i + 1, Seq::empty(), acc)
        }
    } else {
        spec_words_from(s, i + 1, cur.push(s[i]), acc)
    }
}

/// The maximal whitespace-free runs of s, in order.
pub open spec fn spec_words(s: Seq<char>) -> Seq<Seq<char>> {
    spec_words_from(s, 0, Seq::empty(), Seq::empty())
}

fn is_ws(c: char) -> (r: bool)
    ensures
        r == spec_is_ws(c),
{
    c == ' ' || c == '\t' || c == '\n' || c == '\r'
}

/// Split a text into its whitespace-separated words.
pub fn split_words(text: &str) -> (r: Vec<String>)
    ensures
        r@.map_values(|w: String| w@) == spec_words(text@),
{
    let n = text.unicode_len();
    let mut out: Vec<String> = Vec::new();
    let mut cur = String::new();
    let mut i: usize = 0;
    proof {
        assert(out@.map_values(|w: String| w@) =~= Seq::<Seq<char>>::empty());
    }
    while i < n
        invariant
            n == text@.len(),
            i <= n,
            spec_words_from(text@, i as int, cur@, out@.map_values(|w: String| w@))
                == spec_words(text@),
        decreases n - i,
    {
        let c = text.get_char(i);
        if is_ws(c) {
            if !cur.as_str().is_empty() {
                let ghost old_acc = out@.map_values(|w: String| w@);
                let ghost old_cur = cur@;
                out.push(cur);
                cur = String::new();
                proof {
                    assert(out@.map_values(|w: String| w@) =~= old_acc.push(old_cur));
                }
            } else {
                proof {
                    assert(cur@ =~= Seq::<char>::empty());
                }
            }
        } else {
            cur.push(c);
        }
        i += 1;
    }
    if !cur.as_str().is_empty() {
        let ghost old_acc = out@.map_values(|w: String| w@);
        let ghost old_cur = cur@;
        out.push(cur);
        proof {
            assert(out@.map_values(|w: String| w@) =~= old_acc.push(old_cur));
        }
    }
    out
}

/// Greedy truncation tail: keep appending words to the final line
/// while they fit; the first word that overflows stops consumption
/// and an ellipsis is appended.
pub open spec fn spec_truncate(
    cw: CharWidths,
    ws: Seq<Seq<char>>,
    mw: int,
    lines: Seq<Seq<char>>,
    cur: Seq<char>,
) -> Seq<Seq<char>>
    decreases ws.len(),
{
    if ws.len() == 0 {
        lines.push(cur)
    } else {
        let test = cur + seq![' '] + ws[0];
        if spec_measure(cw, test) <= mw {
            spec_truncate(cw, ws.drop_first(), mw, lines, test)
        } else {
            lines.push(cur + seq!['.', '.', '.'])
        }
    }
}

/// Greedy word wrap: extend the current line while it fits, close it
/// on overflow, and switch to truncation once max_lines - 1 lines are
/// closed.
pub open spec fn spec_wrap_rec(
    cw: CharWidths,
    ws: Seq<Seq<char>>,
    mw: int,
    ml: int,
    lines: Seq<Seq<char>>,
    cur: Seq<char>,
) -> Seq<Seq<char>>
    decreases ws.len(),
{
    if ws.len() == 0 {
        if cur.len() > 0 && lines.len() < ml {
            lines.push(cur)
        } else {
            lines
        }
    } else {
        let cand = if cur.len() == 0 {
            ws[0]
        } else {
            cur + seq![' '] + ws[0]
        };
        if spec_measure(cw, cand) <= mw {
            spec_wrap_rec(cw, ws.drop_first(), mw, ml, lines, cand)
        } else {
            let lines2 = lines.push(cur);
            if lines2.len() == ml - 1 {
                spec_truncate(cw, ws.drop_first(), mw, lines2, ws[0])
            } else {
                spec_wrap_rec(cw, ws.drop_first(), mw, ml, lines2, ws[0])
            }
        }
    }
}

/// The wrap of a word sequence into at most ml lines of width mw.
pub open spec fn spec_wrap(cw: CharWidths, ws: Seq<Seq<char>>, mw: int, ml: int) -> Seq<
    Seq<char>,
> {
    spec_wrap_rec(cw, ws, mw, ml, Seq::empty(), Seq::empty())
}

/// How many lines the greedy wrap yields when no line limit cuts it
/// off: a limit the run can never reach acts as none.
pub open spec fn spec_wrap_unlimited(cw: CharWidths, ws: Seq<Seq<char>>, mw: int) -> Seq<
    Seq<char>,
> {
    spec_wrap(cw, ws, mw, ws.len() as int + 2)
}

/// The most lines a description wraps to.
pub const MAX_LINES: usize = 2;

/// Wrap already-split words into lines of at most max_width, with the
/// line count capped at max_lines. The greedy fill needs room for at
/// least one closed line plus the truncated final line, so limits
/// below two are left out.
pub fn wrap_words(cw: &CharWidths, words: &Vec<String>, max_width: usize, max_lines: usize) -> (r:
    Vec<String>)
    requires
        max_lines >= 2,
    ensures
        r@.map_values(|l: String| l@) == spec_wrap(
            *cw,
            words@.map_values(|w: String| w@),
            max_width as int,
            max_lines as int,
        ),
{
    let ghost wv = words@.map_values(|w: String| w@);
    let ghost target = spec_wrap(*cw, wv, max_width as int, max_lines as int);
    let mut lines: Vec<String> = Vec::new();
    let mut cur = String::new();
    let mut k: usize = 0;
    proof {
        assert(wv.skip(0) =~= wv);
        assert(lines@.map_values(|l: String| l@) =~= Seq::<Seq<char>>::empty());
    }
    while k < words.len()
        invariant
            max_lines >= 2,
            wv == words@.map_values(|w: String| w@),
            target == spec_wrap(*cw, wv, max_width as int, max_lines as int),
            k <= words@.len(),
            spec_wrap_rec(
                *cw,
                wv.skip(k as int),
                max_width as int,
                max_lines as int,
                lines@.map_values(|l: String| l@),
                cur@,
            ) == target,
        decreases words@.len() - k,
    {
        let ghost ws_now = wv.skip(k as int);
        proof {
            assert(ws_now[0] == wv[k as int]);
            assert(ws_now.drop_first() =~= wv.skip(k as int + 1));
        }
        let w = &words[k];
        let cand = if cur.as_str().is_empty() {
            w.clone()
        } else {
            let mut c = cur.clone();
            c.append(" ");
            c.append(w.as_str());
            proof {
                reveal_strlit(" ");
                assert(c@ =~= cur@ + seq![' '] + w@);
            }
            c
        };
        if calc_width(cw, cand.as_str()) <= max_width {
            cur = cand;
        } else {
            let ghost old_lines = lines@.map_values(|l: String| l@);
            let ghost old_cur = cur@;
            lines.push(cur);
            cur = w.clone();
            proof {
                assert(lines@.map_values(|l: String| l@) =~= old_lines.push(old_cur));
            }
            if lines.len() == max_lines - 1 {
                // truncation mode: the final line consumes what fits
                let mut j: usize = k + 1;
                while j < words.len()
                    invariant
                        wv == words@.map_values(|w: String| w@),
                        target == spec_wrap(*cw, wv, max_width as int, max_lines as int),
                        j <= words@.len(),
                        spec_truncate(
                            *cw,
                            wv.skip(j as int),
                            max_width as int,
                            lines@.map_values(|l: String| l@),
                            cur@,
                        ) == target,
                    decreases words@.len() - j,
                {
                    let ghost ts_now = wv.skip(j as int);
                    proof {
                        assert(ts_now[0] == wv[j as int]);
                        assert(ts_now.drop_first() =~= wv.skip(j as int + 1));
                    }
                    let w2 = &words[j];
                    let mut test = cur.clone();
                    test.append(" ");
                    test.append(w2.as_str());
                    proof {
                        reveal_strlit(" ");
                        assert(test@ =~= cur@ + seq![' '] + w2@);
                    }
                    if calc_width(cw, test.as_str()) <= max_width {
                        cur = test;
                    } else {
                        let ghost old_lines2 = lines@.map_values(|l: String| l@);
                        let ghost old_cur2 = cur@;
                        cur.append("...");
                        lines.push(cur);
                        proof {
                            reveal_strlit("...");
                            assert(old_cur2 + "..."@ =~= old_cur2 + seq!['.', '.', '.']);
                            assert(lines@.map_values(|l: String| l@) =~= old_lines2.push(
                                old_cur2 + seq!['.', '.', '.'],
                            ));
                            assert(wv[j as int] == w2@);
                            assert(spec_measure(*cw, old_cur2 + seq![' '] + ts_now[0])
                                > max_width as int);
                            assert(spec_truncate(
                                *cw,
                                ts_now,
                                max_width as int,
                                old_lines2,
                                old_cur2,
                            ) == old_lines2.push(old_cur2 + seq!['.', '.', '.']));
                        }
                        return lines;
                    }
                    j += 1;
                }
                let ghost old_lines3 = lines@.map_values(|l: String| l@);
                let ghost old_cur3 = cur@;
                proof {
                    assert(wv.skip(j as int) =~= Seq::<Seq<char>>::empty());
                    assert(spec_truncate(
                        *cw,
                        wv.skip(j as int),
                        max_width as int,
                        old_lines3,
                        old_cur3,
                    ) == old_lines3.push(old_cur3));
                }
                lines.push(cur);
                proof {
                    assert(lines@.map_values(|l: String| l@) =~= old_lines3.push(old_cur3));
                }
                return lines;
            }
        }
        k += 1;
    }
    proof {
        assert(wv.skip(k as int) =~= Seq::<Seq<char>>::empty());
        if cur@.len() == 0 {
            assert(cur@ =~= Seq::<char>::empty());
        }
    }
    if !cur.as_str().is_empty() && lines.len() < max_lines {
        let ghost old_lines4 = lines@.map_values(|l: String| l@);
        let ghost old_cur4 = cur@;
        lines.push(cur);
        proof {
            assert(lines@.map_values(|l: String| l@) =~= old_lines4.push(old_cur4));
        }
    }
    lines
}

/// Wrap a text into lines of at most max_width pixels, at most
/// MAX_LINES lines, truncating the last with an ellipsis.
pub fn wrap_text(cw: &CharWidths, text: &str, max_width: usize) -> (r: Vec<String>)
    ensures
        r@.map_values(|l: String| l@) == spec_wrap(
            *cw,
            spec_words(text@),
            max_width as int,
            MAX_LINES as int,
        ),
        r@.len() <= MAX_LINES,
{
    let words = split_words(text);
    let r = wrap_words(cw, &words, max_width, MAX_LINES);
    proof {
        lemma_wrap_rec_le(
            *cw,
            words@.map_values(|w: String| w@),
            max_width as int,
            MAX_LINES as int,
            Seq::empty(),
            Seq::empty(),
        );
    }
    r
}

proof fn lemma_width_from_shift(cw: CharWidths, a: Seq<char>, b: Seq<char>, j: int)
    requires
        0 <= j <= b.len(),
    ensures
        spec_width_from(cw, a + b, a.len() + j) == spec_width_from(cw, b, j),
    decreases b.len() - j,
{
    if j < b.len() {
        assert((a + b)[a.len() + j] == b[j]);
        lemma_width_from_shift(cw, a, b, j + 1);
    }
}

proof fn lemma_width_from_concat(cw: CharWidths, a: Seq<char>, b: Seq<char>, i: int)
    requires
        0 <= i <= a.len(),
    ensures
        spec_width_from(cw, a + b, i) == spec_width_from(cw, a, i) + spec_width(cw, b),
    decreases a.len() - i,
{
    if i == a.len() {
        lemma_width_from_shift(cw, a, b, 0);
    } else {
        assert((a + b)[i] == a[i]);
        lemma_width_from_concat(cw, a, b, i + 1);
    }
}

/// Width is additive over concatenation.
pub proof fn lemma_width_concat(cw: CharWidths, a: Seq<char>, b: Seq<char>)
    ensures
        spec_width(cw, a + b) == spec_width(cw, a) + spec_width(cw, b),
{
    lemma_width_from_concat(cw, a, b, 0);
}

/// The current line joined with the remaining words, single spaces in
/// between.
pub open spec fn spec_join_acc(cur: Seq<char>, ws: Seq<Seq<char>>) -> Seq<char>
    decreases ws.len(),
{
    if ws.len() == 0 {
        cur
    } else {
        spec_join_acc(cur + seq![' '] + ws[0], ws.drop_first())
    }
}

/// All words joined by single spaces: the normalized form of the text.
pub open spec fn spec_join(ws: Seq<Seq<char>>) -> Seq<char> {
    if ws.len() == 0 {
        Seq::empty()
    } else {
        spec_join_acc(ws[0], ws.drop_first())
    }
}

proof fn lemma_join_acc_width_ge(cw: CharWidths, cur: Seq<char>, ws: Seq<Seq<char>>)
    ensures
        spec_width(cw, spec_join_acc(cur, ws)) >= spec_width(cw, cur),
    decreases ws.len(),
{
    if ws.len() > 0 {
        let cand = cur + seq![' '] + ws[0];
        lemma_join_acc_width_ge(cw, cand, ws.drop_first());
        lemma_width_concat(cw, cur + seq![' '], ws[0]);
        lemma_width_concat(cw, cur, seq![' ']);
        assert(cur + seq![' '] + ws[0] == (cur + seq![' ']) + ws[0]);
        lemma_width_from_nonneg(cw, seq![' '], 0);
        lemma_width_from_nonneg(cw, ws[0], 0);
    }
}

/// A string no wider than another measures within its pixel count.
pub proof fn lemma_measure_monotone(cw: CharWidths, a: Seq<char>, b: Seq<char>)
    requires
        spec_width(cw, a) <= spec_width(cw, b),
    ensures
        spec_measure(cw, a) <= spec_measure(cw, b),
{
    lemma_ceil_px_monotone(
        spec_cap_usize(spec_width(cw, a)),
        spec_cap_usize(spec_width(cw, b)),
    );
}

proof fn lemma_wrap_rec_all_fit(
    cw: CharWidths,
    ws: Seq<Seq<char>>,
    mw: int,
    ml: int,
    lines: Seq<Seq<char>>,
    cur: Seq<char>,
)
    requires
        cur.len() > 0,
        lines.len() < ml,
        spec_measure(cw, spec_join_acc(cur, ws)) <= mw,
    ensures
        spec_wrap_rec(cw, ws, mw, ml, lines, cur) == lines.push(spec_join_acc(cur, ws)),
    decreases ws.len(),
{
    if ws.len() > 0 {
        let cand = cur + seq![' '] + ws[0];
        lemma_join_acc_width_ge(cw, cand, ws.drop_first());
        lemma_measure_monotone(cw, cand, spec_join_acc(cur, ws));
        assert(spec_measure(cw, cand) <= mw);
        lemma_wrap_rec_all_fit(cw, ws.drop_first(), mw, ml, lines, cand);
    }
}

/// LAW — a text whose whole content measures within the width budget
/// wraps to exactly one line: its words joined by single spaces.
pub proof fn lemma_wrap_fits_single_line(cw: CharWidths, text: Seq<char>, mw: int, ml: int)
    requires
        ml >= 1,
        spec_words(text).len() > 0,
        spec_measure(cw, spec_join(spec_words(text))) <= mw,
    ensures
        spec_wrap(cw, spec_words(text), mw, ml) == seq![spec_join(spec_words(text))],
{
    let ws = spec_words(text);
    let w0 = ws[0];
    assert(spec_join(ws) == spec_join_acc(w0, ws.drop_first()));
    lemma_join_acc_width_ge(cw, w0, ws.drop_first());
    lemma_measure_monotone(cw, w0, spec_join(ws));
    lemma_words_nonempty(text);
    assert(spec_measure(cw, w0) <= mw);
    lemma_wrap_rec_all_fit(cw, ws.drop_first(), mw, ml, Seq::empty(), w0);
    assert(Seq::<Seq<char>>::empty().push(spec_join(ws)) =~= seq![spec_join(ws)]);
}

proof fn lemma_words_from_nonempty(s: Seq<char>, i: int, cur: Seq<char>, acc: Seq<Seq<char>>)
    requires
        forall|t: int| 0 <= t < acc.len() ==> #[trigger] acc[t].len() > 0,
    ensures
        forall|t: int|
            0 <= t < spec_words_from(s, i, cur, acc).len() ==> #[trigger] spec_words_from(
                s,
                i,
                cur,
                acc,
            )[t].len() > 0,
    decreases s.len() - i,
{
    if i < 0 || i >= s.len() {
        if cur.len() > 0 {
            assert forall|t: int| 0 <= t < acc.push(cur).len() implies #[trigger] acc.push(
                cur,
            )[t].len() > 0 by {
                if t < acc.len() {
                    assert(acc[t].len() > 0);
                }
            }
        }
    } else if spec_is_ws(s[i]) {
        if cur.len() > 0 {
            assert forall|t: int| 0 <= t < acc.push(cur).len() implies #[trigger] acc.push(
                cur,
            )[t].len() > 0 by {
                if t < acc.len() {
                    assert(acc[t].len() > 0);
                }
            }
            lemma_words_from_nonempty(s, i + 1, Seq::empty(), acc.push(cur));
            assert(spec_words_from(s, i, cur, acc) == spec_words_from(
                s,
                i + 1,
                Seq::empty(),
                acc.push(cur),
            ));
        } else {
            lemma_words_from_nonempty(s, i + 1, Seq::empty(), acc);
            assert(spec_words_from(s, i, cur, acc) == spec_words_from(
                s,
                i + 1,
                Seq::empty(),
                acc,
            ));
        }
    } else {
        lemma_words_from_nonempty(s, i + 1, cur.push(s[i]), acc);
        assert(spec_words_from(s, i, cur, acc) == spec_words_from(
            s,
            i + 1,
            cur.push(s[i]),
            acc,
        ));
    }
}

/// Every word a split yields is non-empty.
pub proof fn lemma_words_nonempty(s: Seq<char>)
    ensures
        forall|t: int|
            0 <= t < spec_words(s).len() ==> #[trigger] spec_words(s)[t].len() > 0,
{
    lemma_words_from_nonempty(s, 0, Seq::empty(), Seq::empty());
}

/// The wrap result never exceeds the line limit (for limits of at
/// least two, the only ones the algorithm is written for).
pub proof fn lemma_wrap_rec_le(
    cw: CharWidths,
    ws: Seq<Seq<char>>,
    mw: int,
    ml: int,
    lines: Seq<Seq<char>>,
    cur: Seq<char>,
)
    requires
        ml >= 2,
        lines.len() <= ml - 2,
    ensures
        spec_wrap_rec(cw, ws, mw, ml, lines, cur).len() <= ml,
    decreases ws.len(),
{
    if ws.len() == 0 {
    } else {
        let cand = if cur.len() == 0 {
            ws[0]
        } else {
            cur + seq![' '] + ws[0]
        };
        if spec_measure(cw, cand) <= mw {
            lemma_wrap_rec_le(cw, ws.drop_first(), mw, ml, lines, cand);
        } else {
            let lines2 = lines.push(cur);
            if lines2.len() == ml - 1 {
                lemma_truncate_len(cw, ws.drop_first(), mw, lines2, ws[0]);
            } else {
                lemma_wrap_rec_le(cw, ws.drop_first(), mw, ml, lines2, ws[0]);
            }
        }
    }
}

proof fn lemma_truncate_len(
    cw: CharWidths,
    ws: Seq<Seq<char>>,
    mw: int,
    lines: Seq<Seq<char>>,
    cur: Seq<char>,
)
    ensures
        spec_truncate(cw, ws, mw, lines, cur).len() == lines.len() + 1,
    decreases ws.len(),
{
    if ws.len() > 0 {
        let test = cur + seq![' '] + ws[0];
        if spec_measure(cw, test) <= mw {
            lemma_truncate_len(cw, ws.drop_first(), mw, lines, test);
        }
    }
}

/// A line ends with the three-dot ellipsis.
pub open spec fn spec_ends_ellipsis(s: Seq<char>) -> bool {
    &&& s.len() >= 3
    &&& s[s.len() - 3] == '.'
    &&& s[s.len() - 2] == '.'
    &&& s[s.len() - 1] == '.'
}

proof fn lemma_truncate_overflow(
    cw: CharWidths,
    ws: Seq<Seq<char>>,
    mw: int,
    ml_inf: int,
    lines: Seq<Seq<char>>,
    cur: Seq<char>,
)
    requires
        cur.len() > 0,
        ml_inf > lines.len() + ws.len() + 1,
        spec_wrap_rec(cw, ws, mw, ml_inf, lines, cur).len() > lines.len() + 1,
    ensures
        spec_truncate(cw, ws, mw, lines, cur).len() == lines.len() + 1,
        spec_ends_ellipsis(spec_truncate(cw, ws, mw, lines, cur).last()),
    decreases ws.len(),
{
    if ws.len() == 0 {
        // without words left the unrestricted run closes one more line
        // at most, contradicting the hypothesis
    } else {
        let test = cur + seq![' '] + ws[0];
        if spec_measure(cw, test) <= mw {
            lemma_truncate_overflow(cw, ws.drop_first(), mw, ml_inf, lines, test);
        } else {
            let out = cur + seq!['.', '.', '.'];
            assert(spec_ends_ellipsis(out));
        }
    }
}

proof fn lemma_wrap_overflow_rec(
    cw: CharWidths,
    ws: Seq<Seq<char>>,
    mw: int,
    ml: int,
    ml_inf: int,
    lines: Seq<Seq<char>>,
    cur: Seq<char>,
)
    requires
        ml >= 2,
        lines.len() <= ml - 2,
        ml_inf > lines.len() + ws.len() + 1,
        forall|t: int| 0 <= t < ws.len() ==> #[trigger] ws[t].len() > 0,
        spec_wrap_rec(cw, ws, mw, ml_inf, lines, cur).len() > ml,
    ensures
        spec_wrap_rec(cw, ws, mw, ml, lines, cur).len() == ml,
        spec_ends_ellipsis(spec_wrap_rec(cw, ws, mw, ml, lines, cur).last()),
    decreases ws.len(),
{
    if ws.len() == 0 {
        // the unrestricted run yields at most one more line than were
        // closed, contradicting the hypothesis
    } else {
        assert(forall|t: int|
            0 <= t < ws.drop_first().len() ==> #[trigger] ws.drop_first()[t].len() > 0);
        let cand = if cur.len() == 0 {
            ws[0]
        } else {
            cur + seq![' '] + ws[0]
        };
        if spec_measure(cw, cand) <= mw {
            lemma_wrap_overflow_rec(cw, ws.drop_first(), mw, ml, ml_inf, lines, cand);
        } else {
            let lines2 = lines.push(cur);
            if lines2.len() == ml - 1 {
                lemma_truncate_overflow(cw, ws.drop_first(), mw, ml_inf, lines2, ws[0]);
            } else {
                lemma_wrap_overflow_rec(cw, ws.drop_first(), mw, ml, ml_inf, lines2, ws[0]);
            }
        }
    }
}

/// LAW — when the greedy wrap would need more than max_lines lines,
/// the limited wrap returns exactly max_lines lines and the last one
/// ends with an ellipsis.
pub proof fn lemma_wrap_truncates(cw: CharWidths, ws: Seq<Seq<char>>, mw: int, ml: int)
    requires
        ml >= 2,
        forall|t: int| 0 <= t < ws.len() ==> #[trigger] ws[t].len() > 0,
        spec_wrap_unlimited(cw, ws, mw).len() > ml,
    ensures
        spec_wrap(cw, ws, mw, ml).len() == ml,
        spec_ends_ellipsis(spec_wrap(cw, ws, mw, ml).last()),
{
    lemma_wrap_overflow_rec(cw, ws, mw, ml, ws.len() as int + 2, Seq::empty(), Seq::empty());
}

} // verus!
