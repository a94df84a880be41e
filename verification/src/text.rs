use vstd::prelude::*;
use vstd::string::StrSliceExecFns;
use vstd::string::StringExecFns;

verus! {

broadcast use vstd::string::group_string_axioms;

// ---------------------------------------------------------------------------
// Case folding
// ---------------------------------------------------------------------------

/// The characters of the Unicode-lowercased form of a character sequence.
/// The result depends on the characters alone.
pub uninterp spec fn lower_of(s: Seq<char>) -> Seq<char>;

/// Relies on str::to_lowercase: the Unicode lowercase mapping of the text,
/// a pure function of the characters alone.
#[verifier::external_body]
pub(crate) fn lowercase(s: &str) -> (r: String)
    ensures
        r@ == lower_of(s@),
{
    s.to_lowercase()
}

// ---------------------------------------------------------------------------
// Substring search
// ---------------------------------------------------------------------------

/// `n` occurs in `h` starting at index `i`.
pub open spec fn match_at(h: Seq<char>, n: Seq<char>, i: int) -> bool {
    0 <= i <= h.len() - n.len() && h.subrange(i, i + n.len()) == n
}

/// `n` occurs contiguously somewhere in `h`.
pub open spec fn contains_seq(h: Seq<char>, n: Seq<char>) -> bool {
    exists|i: int| #[trigger] match_at(h, n, i)
}

/// Whether `needle` occurs contiguously in `hay`.
pub fn str_contains(hay: &str, needle: &str) -> (r: bool)
    ensures
        r == contains_seq(hay@, needle@),
{
    let hl: usize = hay.unicode_len();
    let nl: usize = needle.unicode_len();
    if nl > hl {
        proof {
            assert(forall|k: int| !#[trigger] match_at(hay@, needle@, k));
        }
        return false;
    }
    if nl == 0 {
        proof {
            assert(hay@.subrange(0, 0) =~= needle@);
            assert(match_at(hay@, needle@, 0));
        }
        return true;
    }
    let mut i: usize = 0;
    while i <= hl - nl
        invariant
            1 <= nl <= hl,
            hl == hay@.len(),
            nl == needle@.len(),
            i <= hl - nl + 1,
            forall|k: int| 0 <= k < i ==> !#[trigger] match_at(hay@, needle@, k),
        decreases hl - nl + 1 - i,
    {
        let mut j: usize = 0;
        let mut same = true;
        while j < nl && same
            invariant
                nl <= hl,
                hl == hay@.len(),
                nl == needle@.len(),
                i <= hl - nl,
                j <= nl,
                same ==> forall|k: int| 0 <= k < j ==> hay@[i + k] == needle@[k],
                !same ==> hay@.subrange(i as int, i + nl) != needle@,
            decreases nl - j, (if same { 1int } else { 0int }),
        {
            if hay.get_char(i + j) != needle.get_char(j) {
                proof {
                    assert(hay@.subrange(i as int, i + nl)[j as int] == hay@[i + j]);
                }
                same = false;
            } else {
                j = j + 1;
            }
        }
        if same {
            proof {
                assert(hay@.subrange(i as int, i + nl) =~= needle@);
                assert(match_at(hay@, needle@, i as int));
            }
            return true;
        }
        i = i + 1;
    }
    proof {
        assert(forall|k: int| !#[trigger] match_at(hay@, needle@, k));
    }
    false
}

// ---------------------------------------------------------------------------
// Whitespace and trimming
// ---------------------------------------------------------------------------

/// The Unicode White_Space characters.
pub open spec fn is_space_char(c: char) -> bool {
    let u = c as int;
    ||| u == 0x20
    ||| (0x9 <= u && u <= 0xD)
    ||| u == 0x85
    ||| u == 0xA0
    ||| u == 0x1680
    ||| (0x2000 <= u && u <= 0x200A)
    ||| u == 0x2028
    ||| u == 0x2029
    ||| u == 0x202F
    ||| u == 0x205F
    ||| u == 0x3000
}

/// Whether `c` is a Unicode White_Space character.
pub fn is_space(c: char) -> (r: bool)
    ensures
        r == is_space_char(c),
{
    let u = c as u32;
    u == 0x20 || (0x9 <= u && u <= 0xD) || u == 0x85 || u == 0xA0 || u == 0x1680 || (0x2000 <= u
        && u <= 0x200A) || u == 0x2028 || u == 0x2029 || u == 0x202F || u == 0x205F || u == 0x3000
}

/// How many leading whitespace characters `s` has.
pub open spec fn ltrim_count(s: Seq<char>) -> int
    decreases s.len(),
{
    if s.len() == 0 || !is_space_char(s[0]) {
        0
    } else {
        1 + ltrim_count(s.drop_first())
    }
}

/// The length of `s` with trailing whitespace removed.
pub open spec fn rtrim_end(s: Seq<char>) -> int
    decreases s.len(),
{
    if s.len() == 0 || !is_space_char(s[s.len() - 1]) {
        s.len() as int
    } else {
        rtrim_end(s.drop_last())
    }
}

/// `s` with leading and trailing whitespace removed.
pub open spec fn trim_chars(s: Seq<char>) -> Seq<char> {
    if ltrim_count(s) <= rtrim_end(s) {
        s.subrange(ltrim_count(s), rtrim_end(s))
    } else {
        Seq::empty()
    }
}

pub proof fn lemma_ltrim_props(s: Seq<char>)
    ensures
        0 <= ltrim_count(s) <= s.len(),
        forall|k: int| 0 <= k < ltrim_count(s) ==> is_space_char(#[trigger] s[k]),
        ltrim_count(s) < s.len() ==> !is_space_char(s[ltrim_count(s)]),
    decreases s.len(),
{
    if s.len() == 0 || !is_space_char(s[0]) {
    } else {
        lemma_ltrim_props(s.drop_first());
        assert forall|k: int| 0 <= k < ltrim_count(s) implies is_space_char(#[trigger] s[k]) by {
            if k > 0 {
                assert(s.drop_first()[k - 1] == s[k]);
            }
        }
        if ltrim_count(s) < s.len() {
            assert(s.drop_first()[ltrim_count(s) - 1] == s[ltrim_count(s)]);
        }
    }
}

pub proof fn lemma_rtrim_props(s: Seq<char>)
    ensures
        0 <= rtrim_end(s) <= s.len(),
        forall|k: int| rtrim_end(s) <= k < s.len() ==> is_space_char(#[trigger] s[k]),
        rtrim_end(s) > 0 ==> !is_space_char(s[rtrim_end(s) - 1]),
    decreases s.len(),
{
    if s.len() == 0 || !is_space_char(s[s.len() - 1]) {
    } else {
        lemma_rtrim_props(s.drop_last());
        assert forall|k: int| rtrim_end(s) <= k < s.len() implies is_space_char(
            #[trigger] s[k],
        ) by {
            if k < s.len() - 1 {
                assert(s.drop_last()[k] == s[k]);
            }
        }
        if rtrim_end(s) > 0 {
            assert(s.drop_last()[rtrim_end(s) - 1] == s[rtrim_end(s) - 1]);
        }
    }
}

/// The leading-whitespace count is pinned down by its defining properties.
pub proof fn lemma_ltrim_unique(s: Seq<char>, a: int)
    requires
        0 <= a <= s.len(),
        forall|k: int| 0 <= k < a ==> is_space_char(#[trigger] s[k]),
        a < s.len() ==> !is_space_char(s[a]),
    ensures
        ltrim_count(s) == a,
{
    lemma_ltrim_props(s);
}

/// The trailing-trim boundary is pinned down by its defining properties.
pub proof fn lemma_rtrim_unique(s: Seq<char>, b: int)
    requires
        0 <= b <= s.len(),
        forall|k: int| b <= k < s.len() ==> is_space_char(#[trigger] s[k]),
        b > 0 ==> !is_space_char(s[b - 1]),
    ensures
        rtrim_end(s) == b,
{
    lemma_rtrim_props(s);
}

// ---------------------------------------------------------------------------
// Splitting free text into trimmed, non-empty lines
// ---------------------------------------------------------------------------

/// Index of the first line feed in `s`, or the length of `s`.
pub open spec fn first_nl(s: Seq<char>) -> int
    decreases s.len(),
{
    if s.len() == 0 || s[0] == '\n' {
        0
    } else {
        1 + first_nl(s.drop_first())
    }
}

pub proof fn lemma_first_nl(s: Seq<char>)
    ensures
        0 <= first_nl(s) <= s.len(),
        forall|k: int| 0 <= k < first_nl(s) ==> #[trigger] s[k] != '\n',
        first_nl(s) < s.len() ==> s[first_nl(s)] == '\n',
    decreases s.len(),
{
    if s.len() == 0 || s[0] == '\n' {
    } else {
        lemma_first_nl(s.drop_first());
        assert forall|k: int| 0 <= k < first_nl(s) implies #[trigger] s[k] != '\n' by {
            if k > 0 {
                assert(s.drop_first()[k - 1] == s[k]);
            }
        }
        if first_nl(s) < s.len() {
            assert(s.drop_first()[first_nl(s) - 1] == s[first_nl(s)]);
        }
    }
}

pub proof fn lemma_first_nl_unique(s: Seq<char>, j: int)
    requires
        0 <= j <= s.len(),
        forall|k: int| 0 <= k < j ==> #[trigger] s[k] != '\n',
        j < s.len() ==> s[j] == '\n',
    ensures
        first_nl(s) == j,
{
    lemma_first_nl(s);
}

/// The trimmed, non-empty lines of `s`: split at line feeds, trim each
/// piece, keep what is not empty.
pub open spec fn resp_lines(s: Seq<char>) -> Seq<Seq<char>>
    decreases s.len(),
    via resp_lines_dec
{
    let j = first_nl(s);
    let seg = trim_chars(s.subrange(0, j));
    let head: Seq<Seq<char>> = if seg.len() > 0 {
        seq![seg]
    } else {
        seq![]
    };
    if j == s.len() {
        head
    } else {
        head + resp_lines(s.subrange(j + 1, s.len() as int))
    }
}

#[via_fn]
proof fn resp_lines_dec(s: Seq<char>) {
    lemma_first_nl(s);
}

/// The views of a sequence of strings.
pub open spec fn views_of(v: Seq<String>) -> Seq<Seq<char>> {
    v.map_values(|x: String| x@)
}

/// Splits free text into trimmed, non-empty lines.
pub fn split_trimmed_lines(text: &str) -> (r: Vec<String>)
    ensures
        views_of(r@) == resp_lines(text@),
{
    let n: usize = text.unicode_len();
    let mut out: Vec<String> = Vec::new();
    let mut lo: usize = 0;
    let mut done = false;
    proof {
        assert(text@.subrange(0, n as int) =~= text@);
    }
    while lo < n && !done
        invariant
            lo <= n,
            n == text@.len(),
            done ==> resp_lines(text@) == views_of(out@),
            !done ==> resp_lines(text@) == views_of(out@) + resp_lines(
                text@.subrange(lo as int, n as int),
            ),
        decreases n - lo, (if done { 0int } else { 1int }),
    {
        let ghost out_snap = out@;
        let ghost suffix = text@.subrange(lo as int, n as int);
        // find the end of the current line
        let mut hi: usize = lo;
        while hi < n && text.get_char(hi) != '\n'
            invariant
                lo <= hi <= n,
                n == text@.len(),
                forall|k: int| lo <= k < hi ==> #[trigger] text@[k] != '\n',
            decreases n - hi,
        {
            hi = hi + 1;
        }
        let ghost seg = suffix.subrange(0, hi - lo);
        proof {
            assert(forall|k: int| 0 <= k < hi - lo ==> #[trigger] suffix[k] != '\n');
            if hi < n {
                assert(suffix[hi - lo] == '\n');
            }
            lemma_first_nl_unique(suffix, hi - lo);
            assert(seg =~= text@.subrange(lo as int, hi as int));
        }
        // trim the line
        let mut a: usize = lo;
        while a < hi && is_space(text.get_char(a))
            invariant
                lo <= a <= hi <= n,
                n == text@.len(),
                forall|k: int| lo <= k < a ==> is_space_char(#[trigger] text@[k]),
            decreases hi - a,
        {
            a = a + 1;
        }
        if a == hi {
            // the line is all whitespace: nothing is kept
            proof {
                assert(forall|k: int| 0 <= k < seg.len() ==> is_space_char(#[trigger] seg[k]));
                lemma_ltrim_unique(seg, seg.len() as int);
                lemma_rtrim_unique(seg, 0);
                assert(trim_chars(seg).len() == 0);
                assert(views_of(out@) =~= views_of(out_snap) + Seq::<Seq<char>>::empty());
            }
        } else {
            let mut b: usize = hi;
            while b > a && is_space(text.get_char(b - 1))
                invariant
                    a <= b <= hi <= n,
                    a < hi,
                    n == text@.len(),
                    forall|k: int| b <= k < hi ==> is_space_char(#[trigger] text@[k]),
                decreases b - a,
            {
                b = b - 1;
            }
            // text[a] and text[b-1] are not whitespace, all before a and all
            // from b on (within the line) are
            let piece = text.substring_char(a, b);
            let owned = piece.to_owned();
            proof {
                assert(forall|k: int| 0 <= k < a - lo ==> is_space_char(#[trigger] seg[k]));
                assert(!is_space_char(seg[a - lo]));
                lemma_ltrim_unique(seg, a - lo);
                assert(forall|k: int| b - lo <= k < seg.len() ==> is_space_char(#[trigger] seg[k]));
                assert(!is_space_char(seg[b - lo - 1]));
                lemma_rtrim_unique(seg, b - lo);
                assert(trim_chars(seg) =~= text@.subrange(a as int, b as int));
                assert(owned@ == trim_chars(seg));
            }
            out.push(owned);
            proof {
                assert(views_of(out@) =~= views_of(out_snap) + seq![trim_chars(seg)]);
            }
        }
        proof {
            let headv: Seq<Seq<char>> = if trim_chars(seg).len() > 0 {
                seq![trim_chars(seg)]
            } else {
                seq![]
            };
            let tail: Seq<Seq<char>> = if hi < n {
                resp_lines(text@.subrange(hi + 1, n as int))
            } else {
                Seq::<Seq<char>>::empty()
            };
            if hi < n {
                assert(suffix.subrange(hi - lo + 1, suffix.len() as int) =~= text@.subrange(
                    hi + 1,
                    n as int,
                ));
            }
            assert(resp_lines(suffix) =~= headv + tail);
            assert(views_of(out@) =~= views_of(out_snap) + headv);
            assert(resp_lines(text@) =~= views_of(out@) + tail);
        }
        if hi < n {
            lo = hi + 1;
        } else {
            lo = n;
            done = true;
        }
    }
    proof {
        if !done {
            assert(resp_lines(text@.subrange(lo as int, n as int)) =~= Seq::<Seq<char>>::empty());
        }
        assert(views_of(out@) =~= resp_lines(text@));
    }
    out
}

// ---------------------------------------------------------------------------
// Decimal formatting
// ---------------------------------------------------------------------------

/// The decimal digit character for `d` in 0..=9.
pub open spec fn digit_char(d: int) -> char {
    if d == 0 {
        '0'
    } else if d == 1 {
        '1'
    } else if d == 2 {
        '2'
    } else if d == 3 {
        '3'
    } else if d == 4 {
        '4'
    } else if d == 5 {
        '5'
    } else if d == 6 {
        '6'
    } else if d == 7 {
        '7'
    } else if d == 8 {
        '8'
    } else {
        '9'
    }
}

/// The decimal digits of a non-negative number, most significant first.
pub open spec fn dec_chars(n: int) -> Seq<char>
    decreases n,
{
    if n <= 9 {
        seq![digit_char(n)]
    } else {
        dec_chars(n / 10).push(digit_char(n % 10))
    }
}

fn digit_str(d: u64) -> (r: &'static str)
    requires
        d <= 9,
    ensures
        r@ == seq![digit_char(d as int)],
{
    let r: &'static str = if d == 0 {
        "0"
    } else if d == 1 {
        "1"
    } else if d == 2 {
        "2"
    } else if d == 3 {
        "3"
    } else if d == 4 {
        "4"
    } else if d == 5 {
        "5"
    } else if d == 6 {
        "6"
    } else if d == 7 {
        "7"
    } else if d == 8 {
        "8"
    } else {
        "9"
    };
    proof {
        reveal_strlit("0");
        reveal_strlit("1");
        reveal_strlit("2");
        reveal_strlit("3");
        reveal_strlit("4");
        reveal_strlit("5");
        reveal_strlit("6");
        reveal_strlit("7");
        reveal_strlit("8");
        reveal_strlit("9");
        assert(r@ =~= seq![digit_char(d as int)]);
    }
    r
}

/// The decimal form of a non-negative number.
pub fn u64_string(n: u64) -> (r: String)
    ensures
        r@ == dec_chars(n as int),
    decreases n,
{
    if n <= 9 {
        digit_str(n).to_owned()
    } else {
        let mut s = u64_string(n / 10);
        s.append(digit_str(n % 10));
        proof {
            assert(s@ =~= dec_chars(n as int));
        }
        s
    }
}

/// An amount of cents written as dollars with two decimal places.
pub open spec fn money2_chars(c: int) -> Seq<char> {
    dec_chars(c / 100) + "."@ + seq![digit_char((c % 100) / 10), digit_char(c % 10)]
}

/// Writes cents as dollars with two decimal places.
pub fn money2_string(c: i64) -> (r: String)
    requires
        c >= 0,
    ensures
        r@ == money2_chars(c as int),
{
    let mut s = u64_string((c / 100) as u64);
    s.append(".");
    s.append(digit_str(((c % 100) / 10) as u64));
    s.append(digit_str((c % 10) as u64));
    proof {
        assert(s@ =~= money2_chars(c as int));
    }
    s
}

/// An amount of cents written as whole dollars, rounded half up.
pub open spec fn money0_chars(c: int) -> Seq<char> {
    dec_chars((c + 50) / 100)
}

/// Writes cents as whole dollars, rounded half up.
pub fn money0_string(c: i64) -> (r: String)
    requires
        0 <= c <= 0x7fff_ffff_ffff_0000,
    ensures
        r@ == money0_chars(c as int),
{
    u64_string(((c + 50) / 100) as u64)
}

/// A year written with exactly four digits.
pub open spec fn year4_chars(y: int) -> Seq<char> {
    seq![
        digit_char((y / 1000) % 10),
        digit_char((y / 100) % 10),
        digit_char((y / 10) % 10),
        digit_char(y % 10),
    ]
}

/// Writes a year with exactly four digits.
pub fn year4_string(y: i32) -> (r: String)
    requires
        1 <= y <= 9999,
    ensures
        r@ == year4_chars(y as int),
{
    let u = y as u64;
    let mut s = digit_str((u / 1000) % 10).to_owned();
    s.append(digit_str((u / 100) % 10));
    s.append(digit_str((u / 10) % 10));
    s.append(digit_str(u % 10));
    proof {
        assert(s@ =~= year4_chars(y as int));
    }
    s
}

/// The three-letter English abbreviation of a month.
pub open spec fn month_chars(m: int) -> Seq<char> {
    if m == 1 {
        "Jan"@
    } else if m == 2 {
        "Feb"@
    } else if m == 3 {
        "Mar"@
    } else if m == 4 {
        "Apr"@
    } else if m == 5 {
        "May"@
    } else if m == 6 {
        "Jun"@
    } else if m == 7 {
        "Jul"@
    } else if m == 8 {
        "Aug"@
    } else if m == 9 {
        "Sep"@
    } else if m == 10 {
        "Oct"@
    } else if m == 11 {
        "Nov"@
    } else {
        "Dec"@
    }
}

/// Returns the three-letter English abbreviation of a month.
pub fn month_abbrev(m: u8) -> (r: &'static str)
    requires
        1 <= m <= 12,
    ensures
        r@ == month_chars(m as int),
{
    if m == 1 {
        "Jan"
    } else if m == 2 {
        "Feb"
    } else if m == 3 {
        "Mar"
    } else if m == 4 {
        "Apr"
    } else if m == 5 {
        "May"
    } else if m == 6 {
        "Jun"
    } else if m == 7 {
        "Jul"
    } else if m == 8 {
        "Aug"
    } else if m == 9 {
        "Sep"
    } else if m == 10 {
        "Oct"
    } else if m == 11 {
        "Nov"
    } else {
        "Dec"
    }
}

} // verus!
