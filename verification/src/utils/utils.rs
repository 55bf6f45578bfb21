use vstd::prelude::*;
use vstd::string::*;

verus! {

/// The character for one decimal digit.
pub open spec fn digit_char(d: int) -> char {
    if d == 0 {
        '0'
    } else if d == 1 {
        '1'
    } else if d == 2 {
        '2'
    } else if d == 3 {
        '3'
    } else if d == 4 {
        '4'
    } else if d == 5 {
        '5'
    } else if d == 6 {
        '6'
    } else if d == 7 {
        '7'
    } else if d == 8 {
        '8'
    } else {
        '9'
    }
}

/// Decimal digits of a non-negative integer, most significant first.
pub open spec fn spec_digits(n: int) -> Seq<char>
    decreases n,
{
    if n <= 9 {
        seq![digit_char(n)]
    } else {
        spec_digits(n / 10).push(digit_char(n % 10))
    }
}

/// Tenths of n / div, rounded half up — this library's own rounding
/// rule, chosen so the rendered count is an exact function of the
/// integer alone (a binary float formatter rounds exact ties to even
/// instead, so 1250 would print as "1.2k" rather than "1.3k").
pub open spec fn spec_scaled_tenths(n: int, div: int) -> int {
    (10 * n + div / 2) / div
}

/// "d.t" where d.t is n / div rounded half up to one decimal place.
pub open spec fn spec_decimal_one(n: int, div: int) -> Seq<char> {
    let tenths = spec_scaled_tenths(n, div);
    spec_digits(tenths / 10) + seq!['.'] + seq![digit_char(tenths % 10)]
}

/// Compact rendering of a non-negative count: plain digits up to 999,
/// thousands with one decimal and a "k" suffix up to 999999, millions
/// with one decimal and an "M" suffix beyond that.
pub open spec fn spec_fmt_num_nonneg(n: int) -> Seq<char> {
    if n <= 999 {
        spec_digits(n)
    } else if n <= 999999 {
        spec_decimal_one(n, 1000) + seq!['k']
    } else {
        spec_decimal_one(n, 1000000) + seq!['M']
    }
}

/// Compact rendering of a count, with a leading minus sign when
/// negative; the magnitude is rendered by the same rule either way.
pub open spec fn spec_fmt_num(n: int) -> Seq<char> {
    if n < 0 {
        seq!['-'] + spec_fmt_num_nonneg(-n)
    } else {
        spec_fmt_num_nonneg(n)
    }
}

fn digit_str(d: u64) -> (s: &'static str)
    requires
        d <= 9,
    ensures
        s@ == seq![digit_char(d as int)],
{
    let s: &'static str = if d == 0 {
        "0"
    } else if d == 1 {
        "1"
    } else if d == 2 {
        "2"
    } else if d == 3 {
        "3"
    } else if d == 4 {
        "4"
    } else if d == 5 {
        "5"
    } else if d == 6 {
        "6"
    } else if d == 7 {
        "7"
    } else if d == 8 {
        "8"
    } else {
        "9"
    };
    proof {
        reveal_strlit("0");
        reveal_strlit("1");
        reveal_strlit("2");
        reveal_strlit("3");
        reveal_strlit("4");
        reveal_strlit("5");
        reveal_strlit("6");
        reveal_strlit("7");
        reveal_strlit("8");
        reveal_strlit("9");
        assert(s@ =~= seq![digit_char(d as int)]);
    }
    s
}

/// The decimal digits of n as a string.
pub fn u64_to_string(n: u64) -> (s: String)
    ensures
        s@ == spec_digits(n as int),
    decreases n,
{
    if n <= 9 {
        String::from_str(digit_str(n))
    } else {
        let mut s = u64_to_string(n / 10);
        s.append(digit_str(n % 10));
        proof {
            assert(s@ =~= spec_digits(n as int));
        }
        s
    }
}

fn decimal_one(n: u64, div: u64) -> (s: String)
    requires
        div == 1000 || div == 1000000,
    ensures
        s@ == spec_decimal_one(n as int, div as int),
{
    let wide: u128 = (10 * (n as u128) + (div as u128) / 2) / (div as u128);
    proof {
        assert(wide == spec_scaled_tenths(n as int, div as int));
        assert(wide <= 10 * (u64::MAX as u128) / 1000);
    }
    let tenths: u64 = wide as u64;
    let mut s = u64_to_string(tenths / 10);
    s.append(".");
    s.append(digit_str(tenths % 10));
    proof {
        reveal_strlit(".");
        assert(s@ =~= spec_decimal_one(n as int, div as int));
    }
    s
}

fn fmt_num_nonneg(n: u64) -> (s: String)
    ensures
        s@ == spec_fmt_num_nonneg(n as int),
{
    if n <= 999 {
        u64_to_string(n)
    } else if n <= 999999 {
        let mut s = decimal_one(n, 1000);
        s.append("k");
        proof {
            reveal_strlit("k");
            assert(s@ =~= spec_fmt_num_nonneg(n as int));
        }
        s
    } else {
        let mut s = decimal_one(n, 1000000);
        s.append("M");
        proof {
            reveal_strlit("M");
            assert(s@ =~= spec_fmt_num_nonneg(n as int));
        }
        s
    }
}

/// Compact rendering of a count ("813", "1.2k", "3.0M").
pub fn fmt_num(num: i64) -> (s: String)
    requires
        num > i64::MIN,
    ensures
        s@ == spec_fmt_num(num as int),
{
    if num < 0 {
        let mut s = String::from_str("-");
        let rest = fmt_num_nonneg((-num) as u64);
        s.append(rest.as_str());
        proof {
            reveal_strlit("-");
            assert(s@ =~= spec_fmt_num(num as int));
        }
        s
    } else {
        fmt_num_nonneg(num as u64)
    }
}

/// What std's uppercase mapping returns: a locale-independent
/// function of the characters alone.
pub uninterp spec fn upper_of(s: Seq<char>) -> Seq<char>;

/// Relies on str::to_uppercase: the Unicode uppercase mapping, a
/// locale-independent function of the characters alone; an empty
/// string stays empty.
#[verifier::external_body]
pub(crate) fn to_upper(s: &str) -> (r: String)
    ensures
        r@ == upper_of(s@),
        s@.len() == 0 ==> r@.len() == 0,
{
    s.to_uppercase()
}

/// A sum clamped to what a u64 can hold.
pub open spec fn spec_cap_u64(x: int) -> int {
    if x > u64::MAX as int {
        u64::MAX as int
    } else {
        x
    }
}

/// Add two u64 values, saturating at u64::MAX.
pub fn sat_add_u64(a: u64, b: u64) -> (r: u64)
    ensures
        r as int == spec_cap_u64(a + b),
{
    if a > u64::MAX - b {
        u64::MAX
    } else {
        a + b
    }
}

/// The parts from position i on, joined by the separator.
pub open spec fn spec_join_from(parts: Seq<Seq<char>>, i: int, sep: Seq<char>) -> Seq<char>
    decreases parts.len() - i,
{
    if i < 0 || i >= parts.len() {
        Seq::empty()
    } else if i == parts.len() - 1 {
        parts[i]
    } else {
        parts[i] + sep + spec_join_from(parts, i + 1, sep)
    }
}

/// All parts joined by the separator.
pub open spec fn spec_join_with(parts: Seq<Seq<char>>, sep: Seq<char>) -> Seq<char> {
    spec_join_from(parts, 0, sep)
}

fn join_with_from(parts: &Vec<String>, i: usize, sep: &str) -> (r: String)
    ensures
        r@ == spec_join_from(parts@.map_values(|p: String| p@), i as int, sep@),
    decreases parts@.len() - i,
{
    if i >= parts.len() {
        let r = String::new();
        proof {
            assert(r@ =~= spec_join_from(
                parts@.map_values(|p: String| p@),
                i as int,
                sep@,
            ));
        }
        r
    } else if i == parts.len() - 1 {
        parts[i].clone()
    } else {
        let mut r = parts[i].clone();
        r.append(sep);
        let rest = join_with_from(parts, i + 1, sep);
        r.append(rest.as_str());
        proof {
            assert(r@ =~= spec_join_from(parts@.map_values(|p: String| p@), i as int, sep@));
        }
        r
    }
}

/// Join strings with a separator.
pub fn join_with(parts: &Vec<String>, sep: &str) -> (r: String)
    ensures
        r@ == spec_join_with(parts@.map_values(|p: String| p@), sep@),
{
    join_with_from(parts, 0, sep)
}

/// The needle occurs in the haystack starting at position i.
pub open spec fn spec_match_at(hay: Seq<char>, needle: Seq<char>, i: int) -> bool {
    &&& 0 <= i
    &&& i + needle.len() <= hay.len()
    &&& forall|j: int| 0 <= j < needle.len() ==> hay[i + j] == needle[j]
}

/// The needle occurs somewhere in the haystack.
pub open spec fn spec_contains(hay: Seq<char>, needle: Seq<char>) -> bool {
    exists|i: int| spec_match_at(hay, needle, i)
}

fn match_at(hay: &str, needle: &str, i: usize, hl: usize, nl: usize) -> (r: bool)
    requires
        hl == hay@.len(),
        nl == needle@.len(),
        i + nl <= hl,
    ensures
        r == spec_match_at(hay@, needle@, i as int),
{
    let mut j: usize = 0;
    while j < nl
        invariant
            j <= nl,
            hl == hay@.len(),
            nl == needle@.len(),
            i + nl <= hl,
            forall|t: int| 0 <= t < j ==> hay@[i + t] == needle@[t],
        decreases nl - j,
    {
        if hay.get_char(i + j) != needle.get_char(j) {
            proof {
                assert(!spec_match_at(hay@, needle@, i as int)) by {
                    assert(hay@[i + j] != needle@[j as int]);
                }
            }
            return false;
        }
        j += 1;
    }
    true
}

/// Substring search over characters.
pub fn str_contains(hay: &str, needle: &str) -> (r: bool)
    ensures
        r == spec_contains(hay@, needle@),
{
    let hl = hay.unicode_len();
    let nl = needle.unicode_len();
    if nl > hl {
        proof {
            assert(forall|i: int| !spec_match_at(hay@, needle@, i));
        }
        return false;
    }
    let mut i: usize = 0;
    while i <= hl - nl
        invariant
            nl <= hl,
            hl == hay@.len(),
            nl == needle@.len(),
            i <= hl - nl + 1,
            forall|k: int| 0 <= k < i ==> !spec_match_at(hay@, needle@, k),
        decreases hl - nl + 1 - i,
    {
        if match_at(hay, needle, i, hl, nl) {
            return true;
        }
        i += 1;
    }
    proof {
        assert(forall|k: int| spec_match_at(hay@, needle@, k) ==> 0 <= k < i);
    }
    false
}

/// The code point of a character with an ASCII capital letter lowered.
pub open spec fn spec_lower_code(c: char) -> int {
    if 65 <= c as int && c as int <= 90 {
        c as int + 32
    } else {
        c as int
    }
}

/// Equality of character sequences up to ASCII case.
pub open spec fn spec_eq_ci(a: Seq<char>, b: Seq<char>) -> bool {
    &&& a.len() == b.len()
    &&& forall|i: int| 0 <= i < a.len() ==> spec_lower_code(a[i]) == spec_lower_code(b[i])
}

fn lower_code(c: char) -> (r: u32)
    ensures
        r == spec_lower_code(c),
{
    let u = c as u32;
    if 65 <= u && u <= 90 {
        u + 32
    } else {
        u
    }
}

/// String equality up to ASCII case.
pub fn str_eq_ci(a: &str, b: &str) -> (r: bool)
    ensures
        r == spec_eq_ci(a@, b@),
{
    let al = a.unicode_len();
    let bl = b.unicode_len();
    if al != bl {
        return false;
    }
    let mut i: usize = 0;
    while i < al
        invariant
            al == a@.len(),
            bl == b@.len(),
            al == bl,
            i <= al,
            forall|t: int| 0 <= t < i ==> spec_lower_code(a@[t]) == spec_lower_code(b@[t]),
        decreases al - i,
    {
        if lower_code(a.get_char(i)) != lower_code(b.get_char(i)) {
            return false;
        }
        i += 1;
    }
    true
}

/// Character-wise string equality.
pub fn str_eq(a: &str, b: &str) -> (r: bool)
    ensures
        r == (a@ == b@),
{
    let al = a.unicode_len();
    let bl = b.unicode_len();
    if al != bl {
        return false;
    }
    let mut i: usize = 0;
    while i < al
        invariant
            al == a@.len(),
            bl == b@.len(),
            al == bl,
            i <= al,
            forall|t: int| 0 <= t < i ==> a@[t] == b@[t],
        decreases al - i,
    {
        if a.get_char(i) != b.get_char(i) {
            return false;
        }
        i += 1;
    }
    proof {
        assert(a@ =~= b@);
    }
    true
}

} // verus!
