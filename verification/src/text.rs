//! Character-level text utilities.
//!
//! Every parser in this crate works on the sequence of characters of its
//! input.  The specification side of this module says, over `Seq<char>`, what
//! trimming, searching and line splitting mean; the executable side computes
//! the same things on a `Vec<char>` and an index range, so that no substring
//! is copied before it is needed.

use vstd::prelude::*;

verus! {

/// The characters with the Unicode `White_Space` property.
pub open spec fn is_whitespace(c: char) -> bool {
    let n = c as u32;
    ||| 0x09 <= n <= 0x0D
    ||| n == 0x20
    ||| n == 0x85
    ||| n == 0xA0
    ||| n == 0x1680
    ||| 0x2000 <= n <= 0x200A
    ||| n == 0x2028
    ||| n == 0x2029
    ||| n == 0x202F
    ||| n == 0x205F
    ||| n == 0x3000
}

/// The predicate that holds of whitespace.
pub open spec fn whitespace() -> spec_fn(char) -> bool {
    |c: char| is_whitespace(c)
}

/// The predicate that holds of the character `m` alone.
pub open spec fn is_char(m: char) -> spec_fn(char) -> bool {
    |c: char| c == m
}

/// `s` without its leading characters that satisfy `p`.
pub open spec fn strip_start(s: Seq<char>, p: spec_fn(char) -> bool) -> Seq<char>
    decreases s.len(),
{
    if s.len() > 0 && p(s[0]) {
        strip_start(s.drop_first(), p)
    } else {
        s
    }
}

/// `s` without its trailing characters that satisfy `p`.
pub open spec fn strip_end(s: Seq<char>, p: spec_fn(char) -> bool) -> Seq<char>
    decreases s.len(),
{
    if s.len() > 0 && p(s.last()) {
        strip_end(s.drop_last(), p)
    } else {
        s
    }
}

/// `s` without leading and trailing whitespace.
pub open spec fn trim(s: Seq<char>) -> Seq<char> {
    strip_end(strip_start(s, whitespace()), whitespace())
}

/// `s` without leading and trailing occurrences of `m`.
pub open spec fn trim_matches(s: Seq<char>, m: char) -> Seq<char> {
    strip_end(strip_start(s, is_char(m)), is_char(m))
}

/// `s` without trailing occurrences of `m`.
pub open spec fn trim_end_matches(s: Seq<char>, m: char) -> Seq<char> {
    strip_end(s, is_char(m))
}

/// Index of the first occurrence of `c` in `s`, or `-1` if there is none.
pub open spec fn index_of(s: Seq<char>, c: char) -> int
    decreases s.len(),
{
    if s.len() == 0 {
        -1
    } else if s[0] == c {
        0
    } else {
        let r = index_of(s.drop_first(), c);
        if r < 0 {
            -1
        } else {
            r + 1
        }
    }
}

/// `pat` is a prefix of `s`.
pub open spec fn starts_with(s: Seq<char>, pat: Seq<char>) -> bool {
    pat.len() <= s.len() && s.subrange(0, pat.len() as int) == pat
}

/// `pat` is a suffix of `s`.
pub open spec fn ends_with(s: Seq<char>, pat: Seq<char>) -> bool {
    pat.len() <= s.len() && s.subrange(s.len() - pat.len(), s.len() as int) == pat
}

/// A line as it stood before a line feed: one trailing carriage return is
/// part of the line ending, not of the line.
pub open spec fn strip_cr(line: Seq<char>) -> Seq<char> {
    if line.len() > 0 && line.last() == '\r' {
        line.drop_last()
    } else {
        line
    }
}

/// The lines of `s`.  A line ends at a line feed, or at a carriage return
/// directly followed by one; the last line needs no line ending, and a text
/// that ends in a line ending has no empty line after it.
pub open spec fn lines(s: Seq<char>) -> Seq<Seq<char>>
    decreases s.len(),
{
    if s.len() == 0 {
        seq![]
    } else {
        let k = index_of(s, '\n');
        if k < 0 {
            seq![s]
        } else if k < s.len() {
            seq![strip_cr(s.take(k))] + lines(s.skip(k + 1))
        } else {
            seq![]
        }
    }
}

/// The pieces of `s` between occurrences of `c`; there is always one piece
/// more than there are occurrences.
pub open spec fn split(s: Seq<char>, c: char) -> Seq<Seq<char>>
    decreases s.len(),
{
    let k = index_of(s, c);
    if 0 <= k < s.len() {
        seq![s.take(k)] + split(s.skip(k + 1), c)
    } else {
        seq![s]
    }
}

/// The parts, with `sep` between each two neighbours.
pub open spec fn join(parts: Seq<Seq<char>>, sep: Seq<char>) -> Seq<char>
    decreases parts.len(),
{
    if parts.len() == 0 {
        Seq::empty()
    } else if parts.len() == 1 {
        parts[0]
    } else {
        join(parts.drop_last(), sep) + sep + parts.last()
    }
}

/// The decimal digit for a value below ten.
pub open spec fn decimal_digit(n: nat) -> char {
    if n == 0 {
        '0'
    } else if n == 1 {
        '1'
    } else if n == 2 {
        '2'
    } else if n == 3 {
        '3'
    } else if n == 4 {
        '4'
    } else if n == 5 {
        '5'
    } else if n == 6 {
        '6'
    } else if n == 7 {
        '7'
    } else if n == 8 {
        '8'
    } else {
        '9'
    }
}

/// The number in decimal, without leading zeros.
pub open spec fn decimal(n: nat) -> Seq<char>
    decreases n,
{
    if n < 10 {
        seq![decimal_digit(n)]
    } else {
        decimal(n / 10).push(decimal_digit(n % 10))
    }
}

/// The predicate that holds of every character but whitespace.
pub open spec fn non_whitespace() -> spec_fn(char) -> bool {
    |c: char| !is_whitespace(c)
}

/// `pat` stands in `s` at the index `i`.
pub open spec fn occurs_at(s: Seq<char>, pat: Seq<char>, i: int) -> bool {
    0 <= i && i + pat.len() <= s.len() && s.subrange(i, i + pat.len()) == pat
}

/// The greatest index up to `i` at which `pat` stands in `s`, or `-1`.
pub open spec fn rfind_from(s: Seq<char>, pat: Seq<char>, i: int) -> int
    decreases i + 1,
{
    if i < 0 {
        -1
    } else if occurs_at(s, pat, i) {
        i
    } else {
        rfind_from(s, pat, i - 1)
    }
}

/// The index of the last occurrence of `pat` in `s`, or `-1`.
pub open spec fn rfind(s: Seq<char>, pat: Seq<char>) -> int {
    rfind_from(s, pat, s.len() - pat.len())
}

/// The least index from `i` on at which `pat` stands in `s`, or `-1`.
pub open spec fn find_from(s: Seq<char>, pat: Seq<char>, i: int) -> int
    decreases s.len() + 1 - i,
{
    if i < 0 || i + pat.len() > s.len() {
        -1
    } else if occurs_at(s, pat, i) {
        i
    } else {
        find_from(s, pat, i + 1)
    }
}

/// The index of the first occurrence of `pat` in `s`, or `-1`.
pub open spec fn find(s: Seq<char>, pat: Seq<char>) -> int {
    find_from(s, pat, 0)
}

/// The words of `s`: the longest runs of characters that are no whitespace.
pub open spec fn words(s: Seq<char>) -> Seq<Seq<char>>
    decreases s.len(),
{
    let t = strip_start(s, whitespace());
    let rest = strip_start(t, non_whitespace());
    if t.len() == 0 || rest.len() >= t.len() || t.len() > s.len() {
        Seq::empty()
    } else {
        seq![t.take(t.len() - rest.len())] + words(rest)
    }
}

/// Stripping leaves a suffix.
pub proof fn lemma_strip_start_suffix(s: Seq<char>, p: spec_fn(char) -> bool)
    ensures
        strip_start(s, p).len() <= s.len(),
        strip_start(s, p) == s.skip(s.len() - strip_start(s, p).len()),
        strip_start(s, p).len() > 0 ==> !p(strip_start(s, p)[0]),
        forall|j: int| 0 <= j < s.len() - strip_start(s, p).len() ==> p(s[j]),
    decreases s.len(),
{
    if s.len() > 0 && p(s[0]) {
        let t = s.drop_first();
        lemma_strip_start_suffix(t, p);
        let r = strip_start(t, p);
        assert(r =~= s.skip(s.len() - r.len()));
        assert forall|j: int| 0 <= j < s.len() - r.len() implies p(s[j]) by {
            if j > 0 {
                assert(s[j] == t[j - 1]);
            }
        }
    } else {
        assert(s =~= s.skip(0));
    }
}

/// `s` with every occurrence of `pat` replaced by `with`, the occurrences
/// taken from the left and not overlapping; an empty `pat` occurs before
/// every character and at the end.
pub open spec fn replace(s: Seq<char>, pat: Seq<char>, with: Seq<char>) -> Seq<char>
    decreases s.len(),
{
    if pat.len() == 0 {
        if s.len() == 0 {
            with
        } else {
            with + seq![s[0]] + replace(s.drop_first(), pat, with)
        }
    } else {
        let i = find(s, pat);
        if 0 <= i && i + pat.len() <= s.len() {
            s.take(i) + with + replace(s.skip(i + pat.len()), pat, with)
        } else {
            s
        }
    }
}

/// Strings as plain values.
pub open spec fn texts_view(v: Seq<String>) -> Seq<Seq<char>> {
    v.map_values(|s: String| s@)
}

/// What `index_of` returns is in range, names an occurrence, and is the first.
pub proof fn lemma_index_of(s: Seq<char>, c: char)
    ensures
        -1 <= index_of(s, c) < s.len(),
        index_of(s, c) >= 0 ==> s[index_of(s, c)] == c,
        forall|j: int| 0 <= j < s.len() && (j < index_of(s, c) || index_of(s, c) < 0) ==> s[j] != c,
    decreases s.len(),
{
    if s.len() > 0 && s[0] != c {
        let t = s.drop_first();
        lemma_index_of(t, c);
        assert forall|j: int| 0 <= j < s.len() && (j < index_of(s, c) || index_of(s, c) < 0) implies s[j]
            != c by {
            if j > 0 {
                assert(s[j] == t[j - 1]);
            }
        }
    }
}

/// The first occurrence is where `index_of` points.
pub proof fn lemma_index_of_first(s: Seq<char>, c: char, i: int)
    requires
        0 <= i < s.len(),
        s[i] == c,
        forall|j: int| 0 <= j < i ==> s[j] != c,
    ensures
        index_of(s, c) == i,
{
    lemma_index_of(s, c);
}

/// Without an occurrence `index_of` is `-1`.
pub proof fn lemma_index_of_none(s: Seq<char>, c: char)
    requires
        forall|j: int| 0 <= j < s.len() ==> s[j] != c,
    ensures
        index_of(s, c) == -1,
{
    lemma_index_of(s, c);
}

/// The character is a letter or a digit.
pub uninterp spec fn alphanumeric(c: char) -> bool;

/// `char::is_alphanumeric` says whether a character is a letter or a digit
/// as Unicode defines them.
pub assume_specification[ char::is_alphanumeric ](c: char) -> (r: bool)
    ensures
        r == alphanumeric(c),
;

/// `String::push` appends the character to the end of the string.
pub assume_specification[ String::push ](s: &mut String, c: char)
    ensures
        final(s)@ == old(s)@.push(c),
;

/// The lowercase form of a text.
pub uninterp spec fn lowercase(s: Seq<char>) -> Seq<char>;

/// Calls `str::to_lowercase`: the result is the lowercase form of `s` as
/// Unicode defines it.
#[verifier::external_body]
pub(crate) fn to_lowercase(s: &str) -> (r: String)
    ensures
        r@ == lowercase(s@),
{
    s.to_lowercase()
}

/// Decides the `White_Space` property.
pub fn is_space(c: char) -> (r: bool)
    ensures
        r == is_whitespace(c),
{
    let n: u32 = c as u32;
    (0x09 <= n && n <= 0x0D) || n == 0x20 || n == 0x85 || n == 0xA0 || n == 0x1680 || (0x2000 <= n
        && n <= 0x200A) || n == 0x2028 || n == 0x2029 || n == 0x202F || n == 0x205F || n == 0x3000
}

/// The characters of `s`, in order.
pub fn chars_of(s: &str) -> (v: Vec<char>)
    ensures
        v@ == s@,
{
    broadcast use vstd::string::group_string_axioms;

    let mut v: Vec<char> = Vec::new();
    for c in it: s.chars()
        invariant
            it.seq() == s@,
            v@ == s@.take(it.index()),
    {
        v.push(c);
        assert(s@.take(it.index() + 1) =~= s@.take(it.index()).push(c));
    }
    assert(s@.take(s@.len() as int) =~= s@);
    v
}

/// Narrows `lo..hi` to the range left after trimming whitespace at both ends.
pub fn trim_range(s: &Vec<char>, lo: usize, hi: usize) -> (r: (usize, usize))
    requires
        lo <= hi <= s.len(),
    ensures
        lo <= r.0 <= r.1 <= hi,
        s@.subrange(r.0 as int, r.1 as int) == trim(s@.subrange(lo as int, hi as int)),
{
    let ghost p = whitespace();
    let mut a: usize = lo;
    while a < hi && is_space(s[a])
        invariant
            lo <= a <= hi <= s.len(),
            p == whitespace(),
            strip_start(s@.subrange(lo as int, hi as int), p) == strip_start(
                s@.subrange(a as int, hi as int),
                p,
            ),
        decreases hi - a,
    {
        proof {
            let cur = s@.subrange(a as int, hi as int);
            assert(p(cur[0]));
            assert(cur.drop_first() =~= s@.subrange(a + 1, hi as int));
        }
        a += 1;
    }
    proof {
        let cur = s@.subrange(a as int, hi as int);
        if a < hi {
            assert(!p(cur[0]));
        }
        assert(strip_start(cur, p) == cur);
    }
    let mut b: usize = hi;
    while b > a && is_space(s[b - 1])
        invariant
            a <= b <= hi <= s.len(),
            p == whitespace(),
            strip_end(s@.subrange(a as int, hi as int), p) == strip_end(
                s@.subrange(a as int, b as int),
                p,
            ),
        decreases b - a,
    {
        proof {
            let cur = s@.subrange(a as int, b as int);
            assert(p(cur.last()));
            assert(cur.drop_last() =~= s@.subrange(a as int, b - 1));
        }
        b -= 1;
    }
    proof {
        let cur = s@.subrange(a as int, b as int);
        if b > a {
            assert(!p(cur.last()));
        }
        assert(strip_end(cur, p) == cur);
    }
    (a, b)
}

/// Narrows `lo..hi` by the leading occurrences of `m`.
pub fn strip_start_range(s: &Vec<char>, lo: usize, hi: usize, m: char) -> (a: usize)
    requires
        lo <= hi <= s.len(),
    ensures
        lo <= a <= hi,
        s@.subrange(a as int, hi as int) == strip_start(s@.subrange(lo as int, hi as int), is_char(m)),
{
    let ghost p = is_char(m);
    let mut a: usize = lo;
    while a < hi && s[a] == m
        invariant
            lo <= a <= hi <= s.len(),
            p == is_char(m),
            strip_start(s@.subrange(lo as int, hi as int), p) == strip_start(
                s@.subrange(a as int, hi as int),
                p,
            ),
        decreases hi - a,
    {
        proof {
            let cur = s@.subrange(a as int, hi as int);
            assert(p(cur[0]));
            assert(cur.drop_first() =~= s@.subrange(a + 1, hi as int));
        }
        a += 1;
    }
    proof {
        let cur = s@.subrange(a as int, hi as int);
        if a < hi {
            assert(!p(cur[0]));
        }
        assert(strip_start(cur, p) == cur);
    }
    a
}

/// Narrows `lo..hi` by the trailing occurrences of `m`.
pub fn strip_end_range(s: &Vec<char>, lo: usize, hi: usize, m: char) -> (b: usize)
    requires
        lo <= hi <= s.len(),
    ensures
        lo <= b <= hi,
        s@.subrange(lo as int, b as int) == strip_end(s@.subrange(lo as int, hi as int), is_char(m)),
{
    let ghost p = is_char(m);
    let mut b: usize = hi;
    while b > lo && s[b - 1] == m
        invariant
            lo <= b <= hi <= s.len(),
            p == is_char(m),
            strip_end(s@.subrange(lo as int, hi as int), p) == strip_end(
                s@.subrange(lo as int, b as int),
                p,
            ),
        decreases b - lo,
    {
        proof {
            let cur = s@.subrange(lo as int, b as int);
            assert(p(cur.last()));
            assert(cur.drop_last() =~= s@.subrange(lo as int, b - 1));
        }
        b -= 1;
    }
    proof {
        let cur = s@.subrange(lo as int, b as int);
        if b > lo {
            assert(!p(cur.last()));
        }
        assert(strip_end(cur, p) == cur);
    }
    b
}

/// Narrows `lo..hi` by the occurrences of `m` at both ends.
pub fn trim_matches_range(s: &Vec<char>, lo: usize, hi: usize, m: char) -> (r: (usize, usize))
    requires
        lo <= hi <= s.len(),
    ensures
        lo <= r.0 <= r.1 <= hi,
        s@.subrange(r.0 as int, r.1 as int) == trim_matches(s@.subrange(lo as int, hi as int), m),
{
    let a = strip_start_range(s, lo, hi, m);
    let b = strip_end_range(s, a, hi, m);
    (a, b)
}

/// Position of the first `c` in `lo..hi`.
pub fn find_char(s: &Vec<char>, lo: usize, hi: usize, c: char) -> (r: Option<usize>)
    requires
        lo <= hi <= s.len(),
    ensures
        match r {
            Some(i) => lo <= i < hi && index_of(s@.subrange(lo as int, hi as int), c) == i - lo,
            None => index_of(s@.subrange(lo as int, hi as int), c) == -1,
        },
{
    let mut i: usize = lo;
    while i < hi
        invariant
            lo <= i <= hi <= s.len(),
            forall|j: int| lo <= j < i ==> s@[j] != c,
        decreases hi - i,
    {
        if s[i] == c {
            proof {
                lemma_index_of_first(s@.subrange(lo as int, hi as int), c, i - lo);
            }
            return Some(i);
        }
        i += 1;
    }
    proof {
        lemma_index_of_none(s@.subrange(lo as int, hi as int), c);
    }
    None
}

/// Whether `lo..hi` begins with the characters of `pat`.
pub fn range_starts_with(s: &Vec<char>, lo: usize, hi: usize, pat: &str) -> (r: bool)
    requires
        lo <= hi <= s.len(),
    ensures
        r == starts_with(s@.subrange(lo as int, hi as int), pat@),
{
    let n = pat.unicode_len();
    if n > hi - lo {
        return false;
    }
    let ghost sub = s@.subrange(lo as int, hi as int);
    let mut i: usize = 0;
    while i < n
        invariant
            lo <= hi <= s.len(),
            n == pat@.len(),
            n <= hi - lo,
            i <= n,
            sub == s@.subrange(lo as int, hi as int),
            forall|j: int| 0 <= j < i ==> sub[j] == pat@[j],
        decreases n - i,
    {
        if s[lo + i] != pat.get_char(i) {
            proof {
                assert(sub.subrange(0, n as int)[i as int] != pat@[i as int]);
            }
            return false;
        }
        i += 1;
    }
    assert(sub.subrange(0, n as int) =~= pat@);
    true
}

/// Whether `lo..hi` holds exactly the characters of `pat`.
pub fn range_equals(s: &Vec<char>, lo: usize, hi: usize, pat: &str) -> (r: bool)
    requires
        lo <= hi <= s.len(),
    ensures
        r == (s@.subrange(lo as int, hi as int) == pat@),
{
    let n = pat.unicode_len();
    if n != hi - lo {
        return false;
    }
    let r = range_starts_with(s, lo, hi, pat);
    proof {
        let sub = s@.subrange(lo as int, hi as int);
        assert(sub.subrange(0, n as int) =~= sub);
    }
    r
}

/// The next line at or after `pos`: its range in `s`, and where the line
/// after it begins.
pub fn next_line(s: &Vec<char>, pos: usize) -> (r: (usize, usize, usize))
    requires
        pos < s.len(),
    ensures
        pos <= r.0 <= r.1 < r.2 <= s.len() || (pos <= r.0 <= r.1 == r.2 == s.len()),
        pos < r.2,
        lines(s@.skip(pos as int)) == seq![s@.subrange(r.0 as int, r.1 as int)] + lines(
            s@.skip(r.2 as int),
        ),
{
    let n = s.len();
    let ghost rest = s@.skip(pos as int);
    proof {
        assert(rest =~= s@.subrange(pos as int, n as int));
        lemma_index_of(rest, '\n');
    }
    match find_char(s, pos, n, '\n') {
        Some(k) => {
            let end: usize = if k > pos && s[k - 1] == '\r' {
                k - 1
            } else {
                k
            };
            proof {
                let line = rest.take(k - pos);
                assert(line =~= s@.subrange(pos as int, k as int));
                assert(strip_cr(line) =~= s@.subrange(pos as int, end as int));
                assert(rest.skip(k - pos + 1) =~= s@.skip(k + 1));
            }
            (pos, end, k + 1)
        },
        None => {
            proof {
                assert(s@.skip(n as int) =~= Seq::<char>::empty());
                assert(lines(s@.skip(n as int)) =~= Seq::<Seq<char>>::empty());
                assert(seq![rest] + Seq::<Seq<char>>::empty() =~= seq![rest]);
            }
            (pos, n, n)
        },
    }
}

/// The piece that begins at `pos` when `lo..hi` is split at `c`: where it
/// ends, and where the next piece begins if there is one.
pub fn next_piece(s: &Vec<char>, pos: usize, hi: usize, c: char) -> (r: (usize, Option<usize>))
    requires
        pos <= hi <= s.len(),
    ensures
        pos <= r.0 <= hi,
        match r.1 {
            Some(next) => next == r.0 + 1 && next <= hi && split(
                s@.subrange(pos as int, hi as int),
                c,
            ) == seq![s@.subrange(pos as int, r.0 as int)] + split(
                s@.subrange(next as int, hi as int),
                c,
            ),
            None => r.0 == hi && split(s@.subrange(pos as int, hi as int), c) == seq![
                s@.subrange(pos as int, hi as int),
            ],
        },
{
    let ghost rest = s@.subrange(pos as int, hi as int);
    proof {
        lemma_index_of(rest, c);
    }
    match find_char(s, pos, hi, c) {
        Some(k) => {
            proof {
                assert(rest.take(k - pos) =~= s@.subrange(pos as int, k as int));
                assert(rest.skip(k - pos + 1) =~= s@.subrange(k + 1, hi as int));
            }
            (k, Some(k + 1))
        },
        None => (hi, None),
    }
}

/// `a` followed by `b`.
pub fn concat(a: &str, b: &str) -> (r: String)
    ensures
        r@ == a@ + b@,
{
    let mut r = a.to_owned();
    r.append(b);
    r
}

fn digit_str(n: usize) -> (r: &'static str)
    requires
        n < 10,
    ensures
        r@ == seq![decimal_digit(n as nat)],
{
    proof {
        reveal_strlit("0");
        reveal_strlit("1");
        reveal_strlit("2");
        reveal_strlit("3");
        reveal_strlit("4");
        reveal_strlit("5");
        reveal_strlit("6");
        reveal_strlit("7");
        reveal_strlit("8");
        reveal_strlit("9");
    }
    let r = match n {
        0 => "0",
        1 => "1",
        2 => "2",
        3 => "3",
        4 => "4",
        5 => "5",
        6 => "6",
        7 => "7",
        8 => "8",
        _ => "9",
    };
    assert(r@ =~= seq![decimal_digit(n as nat)]);
    r
}

/// Writes a number in decimal.
pub fn decimal_string(n: usize) -> (r: String)
    ensures
        r@ == decimal(n as nat),
    decreases n,
{
    if n < 10 {
        digit_str(n).to_owned()
    } else {
        let mut r = decimal_string(n / 10);
        r.append(digit_str(n % 10));
        assert(r@ =~= decimal(n as nat));
        r
    }
}

/// Whether `pat` stands in `lo..hi` at the index `i`.
pub fn range_has_at(s: &Vec<char>, lo: usize, hi: usize, i: usize, pat: &Vec<char>) -> (r: bool)
    requires
        lo <= i <= hi <= s.len(),
    ensures
        r == occurs_at(s@.subrange(lo as int, hi as int), pat@, i - lo),
{
    let n = pat.len();
    if n > hi - i {
        return false;
    }
    let ghost sub = s@.subrange(lo as int, hi as int);
    let mut k: usize = 0;
    while k < n
        invariant
            lo <= i <= hi <= s.len(),
            n == pat.len(),
            n <= hi - i,
            k <= n,
            sub == s@.subrange(lo as int, hi as int),
            forall|j: int| 0 <= j < k ==> sub[i - lo + j] == pat@[j],
        decreases n - k,
    {
        if s[i + k] != pat[k] {
            proof {
                assert(sub.subrange(i - lo, i - lo + n)[k as int] == sub[i - lo + k]);
            }
            return false;
        }
        k += 1;
    }
    assert(sub.subrange(i - lo, i - lo + n) =~= pat@);
    true
}

/// The index of the last occurrence of `pat` in `lo..hi`.
pub fn rfind_range(s: &Vec<char>, lo: usize, hi: usize, pat: &Vec<char>) -> (r: Option<usize>)
    requires
        lo <= hi <= s.len(),
    ensures
        match r {
            Some(i) => lo <= i && i + pat.len() <= hi && rfind(
                s@.subrange(lo as int, hi as int),
                pat@,
            ) == i - lo,
            None => rfind(s@.subrange(lo as int, hi as int), pat@) == -1,
        },
{
    if pat.len() > hi - lo {
        return None;
    }
    let ghost sub = s@.subrange(lo as int, hi as int);
    let mut i: usize = hi - pat.len();
    loop
        invariant
            lo <= i <= hi <= s.len(),
            i + pat.len() <= hi,
            sub == s@.subrange(lo as int, hi as int),
            rfind(sub, pat@) == rfind_from(sub, pat@, i - lo),
        decreases i - lo,
    {
        if range_has_at(s, lo, hi, i, pat) {
            return Some(i);
        }
        if i == lo {
            assert(rfind_from(sub, pat@, -1) == -1);
            return None;
        }
        i -= 1;
    }
}

/// The index of the first occurrence of `pat` in `lo..hi`.
pub fn find_range(s: &Vec<char>, lo: usize, hi: usize, pat: &Vec<char>) -> (r: Option<usize>)
    requires
        lo <= hi <= s.len(),
    ensures
        match r {
            Some(i) => lo <= i && i + pat.len() <= hi && find(
                s@.subrange(lo as int, hi as int),
                pat@,
            ) == i - lo,
            None => find(s@.subrange(lo as int, hi as int), pat@) == -1,
        },
{
    if pat.len() > hi - lo {
        return None;
    }
    let ghost sub = s@.subrange(lo as int, hi as int);
    let last = hi - pat.len();
    let mut i: usize = lo;
    loop
        invariant
            lo <= i <= last,
            last + pat.len() == hi,
            hi <= s.len(),
            sub == s@.subrange(lo as int, hi as int),
            find(sub, pat@) == find_from(sub, pat@, i - lo),
        decreases last - i,
    {
        if range_has_at(s, lo, hi, i, pat) {
            return Some(i);
        }
        if i == last {
            assert(find_from(sub, pat@, i - lo + 1) == -1) by {
                if pat.len() == 0 {
                    assert(find_from(sub, pat@, i - lo + 2) == -1);
                    assert(!occurs_at(sub, pat@, i - lo + 1)) by {
                        assert(i - lo + 1 > sub.len());
                    }
                }
            }
            return None;
        }
        i += 1;
    }
}

/// Narrows `lo..hi` by the leading whitespace.
pub fn skip_whitespace(s: &Vec<char>, lo: usize, hi: usize) -> (a: usize)
    requires
        lo <= hi <= s.len(),
    ensures
        lo <= a <= hi,
        s@.subrange(a as int, hi as int) == strip_start(s@.subrange(lo as int, hi as int), whitespace()),
{
    let ghost p = whitespace();
    let mut a: usize = lo;
    while a < hi && is_space(s[a])
        invariant
            lo <= a <= hi <= s.len(),
            p == whitespace(),
            strip_start(s@.subrange(lo as int, hi as int), p) == strip_start(
                s@.subrange(a as int, hi as int),
                p,
            ),
        decreases hi - a,
    {
        proof {
            let cur = s@.subrange(a as int, hi as int);
            assert(p(cur[0]));
            assert(cur.drop_first() =~= s@.subrange(a + 1, hi as int));
        }
        a += 1;
    }
    proof {
        let cur = s@.subrange(a as int, hi as int);
        if a < hi {
            assert(!p(cur[0]));
        }
        assert(strip_start(cur, p) == cur);
    }
    a
}

/// Narrows `lo..hi` by the leading characters that are no whitespace.
pub fn skip_word(s: &Vec<char>, lo: usize, hi: usize) -> (a: usize)
    requires
        lo <= hi <= s.len(),
    ensures
        lo <= a <= hi,
        s@.subrange(a as int, hi as int) == strip_start(
            s@.subrange(lo as int, hi as int),
            non_whitespace(),
        ),
{
    let ghost p = non_whitespace();
    let mut a: usize = lo;
    while a < hi && !is_space(s[a])
        invariant
            lo <= a <= hi <= s.len(),
            p == non_whitespace(),
            strip_start(s@.subrange(lo as int, hi as int), p) == strip_start(
                s@.subrange(a as int, hi as int),
                p,
            ),
        decreases hi - a,
    {
        proof {
            let cur = s@.subrange(a as int, hi as int);
            assert(p(cur[0]));
            assert(cur.drop_first() =~= s@.subrange(a + 1, hi as int));
        }
        a += 1;
    }
    proof {
        let cur = s@.subrange(a as int, hi as int);
        if a < hi {
            assert(!p(cur[0]));
        }
        assert(strip_start(cur, p) == cur);
    }
    a
}

/// The next word at or after `pos` in `pos..hi`: its range, if there is
/// one.
pub fn next_word(s: &Vec<char>, pos: usize, hi: usize) -> (r: Option<(usize, usize)>)
    requires
        pos <= hi <= s.len(),
    ensures
        match r {
            Some((a, b)) => pos <= a < b <= hi && words(s@.subrange(pos as int, hi as int)) == seq![
                s@.subrange(a as int, b as int),
            ] + words(s@.subrange(b as int, hi as int)),
            None => words(s@.subrange(pos as int, hi as int)) == Seq::<Seq<char>>::empty(),
        },
{
    let a = skip_whitespace(s, pos, hi);
    if a == hi {
        return None;
    }
    let b = skip_word(s, a, hi);
    proof {
        let t = s@.subrange(a as int, hi as int);
        let rest = s@.subrange(b as int, hi as int);
        assert(t[0] == s@[a as int]);
        lemma_strip_start_suffix(t, non_whitespace());
        lemma_strip_start_suffix(s@.subrange(pos as int, hi as int), whitespace());
        assert(!whitespace()(t[0]));
        assert(non_whitespace()(t[0]));
        assert(rest.len() < t.len());
        assert(t.take(t.len() - rest.len()) =~= s@.subrange(a as int, b as int));
    }
    Some((a, b))
}

/// The words of `s`.
pub fn split_words(s: &str) -> (r: Vec<String>)
    ensures
        texts_view(r@) == words(s@),
{
    let chars = chars_of(s);
    let n = chars.len();
    let mut r: Vec<String> = Vec::new();
    let mut pos: usize = 0;
    let mut more = true;
    let ghost all = words(s@);
    proof {
        assert(chars@.subrange(0, n as int) =~= s@);
        assert(texts_view(r@) + all =~= all);
    }
    while more
        invariant
            chars@ == s@,
            n == chars.len(),
            pos <= n,
            all == words(s@),
            more ==> all == texts_view(r@) + words(chars@.subrange(pos as int, n as int)),
            !more ==> all == texts_view(r@),
        decreases n - pos + (if more { 1int } else { 0int }),
    {
        match next_word(&chars, pos, n) {
            None => {
                proof {
                    assert(all =~= texts_view(r@));
                }
                more = false;
            },
            Some((a, b)) => {
                let ghost before = texts_view(r@);
                r.push(substring(s, a, b));
                proof {
                    assert(texts_view(r@) =~= before.push(chars@.subrange(a as int, b as int)));
                    assert(all =~= texts_view(r@) + words(chars@.subrange(b as int, n as int)));
                }
                pos = b;
            },
        }
    }
    r
}

/// `s` with every occurrence of `pat` replaced by `with`.
pub fn replace_all(s: &str, pat: &str, with: &str) -> (r: String)
    ensures
        r@ == replace(s@, pat@, with@),
{
    let chars = chars_of(s);
    let n = chars.len();
    let p = chars_of(pat);
    let mut r = String::new();
    let mut pos: usize = 0;
    proof {
        assert(chars@.subrange(0, n as int) =~= s@);
        assert(r@ + replace(s@, pat@, with@) =~= replace(s@, pat@, with@));
    }
    if p.len() == 0 {
        while pos < n
            invariant
                chars@ == s@,
                n == chars.len(),
                pos <= n,
                p@ == pat@,
                p.len() == 0,
                replace(s@, pat@, with@) == r@ + replace(
                    chars@.subrange(pos as int, n as int),
                    pat@,
                    with@,
                ),
            decreases n - pos,
        {
            let ghost rest = chars@.subrange(pos as int, n as int);
            let ghost before = r@;
            r.append(with);
            let one = substring(s, pos, pos + 1);
            r.append(one.as_str());
            proof {
                assert(rest.drop_first() =~= chars@.subrange(pos + 1, n as int));
                assert(one@ =~= seq![rest[0]]);
                assert(r@ =~= before + (with@ + seq![rest[0]]));
            }
            pos += 1;
        }
        r.append(with);
        return r;
    }
    let mut more = true;
    while more
        invariant
            chars@ == s@,
            n == chars.len(),
            pos <= n,
            p@ == pat@,
            p.len() > 0,
            more ==> replace(s@, pat@, with@) == r@ + replace(
                chars@.subrange(pos as int, n as int),
                pat@,
                with@,
            ),
            !more ==> replace(s@, pat@, with@) == r@,
        decreases n - pos + (if more { 1int } else { 0int }),
    {
        let ghost rest = chars@.subrange(pos as int, n as int);
        let ghost before = r@;
        match find_range(&chars, pos, n, &p) {
            Some(i) => {
                let head = substring(s, pos, i);
                r.append(head.as_str());
                r.append(with);
                proof {
                    assert(rest.take(i - pos) =~= chars@.subrange(pos as int, i as int));
                    assert(rest.skip(i - pos + p.len()) =~= chars@.subrange(
                        i + p.len(),
                        n as int,
                    ));
                    assert(r@ =~= before + (rest.take(i - pos) + with@));
                }
                pos = i + p.len();
            },
            None => {
                let tail = substring(s, pos, n);
                r.append(tail.as_str());
                more = false;
            },
        }
    }
    r
}

/// The lines of `s`.
pub fn split_lines(s: &str) -> (r: Vec<String>)
    ensures
        texts_view(r@) == lines(s@),
{
    let chars = chars_of(s);
    let n = chars.len();
    let mut r: Vec<String> = Vec::new();
    let mut pos: usize = 0;
    proof {
        assert(s@.skip(0) =~= s@);
        assert(texts_view(r@) + lines(s@) =~= lines(s@));
    }
    while pos < n
        invariant
            chars@ == s@,
            n == chars.len(),
            pos <= n,
            lines(s@) == texts_view(r@) + lines(s@.skip(pos as int)),
        decreases n - pos,
    {
        let (lo, hi, next) = next_line(&chars, pos);
        let ghost before = texts_view(r@);
        r.push(substring(s, lo, hi));
        proof {
            assert(texts_view(r@) =~= before.push(chars@.subrange(lo as int, hi as int)));
            assert(lines(s@) =~= texts_view(r@) + lines(s@.skip(next as int)));
        }
        pos = next;
    }
    proof {
        assert(s@.skip(n as int) =~= Seq::<char>::empty());
        assert(lines(s@) =~= texts_view(r@));
    }
    r
}

/// `s` without leading and trailing whitespace.
pub fn trimmed(s: &str) -> (r: String)
    ensures
        r@ == trim(s@),
{
    let chars = chars_of(s);
    proof {
        assert(chars@.subrange(0, chars.len() as int) =~= s@);
    }
    let (a, b) = trim_range(&chars, 0, chars.len());
    substring(s, a, b)
}

/// The pieces of `s` between occurrences of `c`.
pub fn split_at_char(s: &str, c: char) -> (r: Vec<String>)
    ensures
        texts_view(r@) == split(s@, c),
{
    let chars = chars_of(s);
    let n = chars.len();
    let mut r: Vec<String> = Vec::new();
    let mut pos: usize = 0;
    let mut more = true;
    let ghost all = split(s@, c);
    proof {
        assert(chars@.subrange(0, n as int) =~= s@);
        assert(texts_view(r@) + all =~= all);
    }
    while more
        invariant
            chars@ == s@,
            n == chars.len(),
            pos <= n,
            all == split(s@, c),
            more ==> all == texts_view(r@) + split(chars@.subrange(pos as int, n as int), c),
            !more ==> all == texts_view(r@),
        decreases n - pos + (if more { 1int } else { 0int }),
    {
        let (end, next) = next_piece(&chars, pos, n, c);
        let ghost before = texts_view(r@);
        r.push(substring(s, pos, end));
        proof {
            assert(texts_view(r@) =~= before.push(chars@.subrange(pos as int, end as int)));
        }
        match next {
            Some(nx) => {
                proof {
                    assert(all =~= texts_view(r@) + split(
                        chars@.subrange(nx as int, n as int),
                        c,
                    ));
                }
                pos = nx;
            },
            None => {
                proof {
                    assert(all =~= texts_view(r@));
                }
                more = false;
            },
        }
    }
    r
}

/// Whether `text` begins with `prefix`.
pub fn str_starts_with(text: &str, prefix: &str) -> (r: bool)
    ensures
        r == starts_with(text@, prefix@),
{
    let chars = chars_of(text);
    proof {
        assert(chars@.subrange(0, chars.len() as int) =~= text@);
    }
    range_starts_with(&chars, 0, chars.len(), prefix)
}

/// Copies a list of strings.
pub fn copy_texts(v: &Vec<String>) -> (copy: Vec<String>)
    ensures
        texts_view(copy@) == texts_view(v@),
{
    let mut copy: Vec<String> = Vec::new();
    let mut i: usize = 0;
    while i < v.len()
        invariant
            i <= v.len(),
            texts_view(copy@) == texts_view(v@).take(i as int),
        decreases v.len() - i,
    {
        let ghost before = texts_view(copy@);
        copy.push(v[i].clone());
        proof {
            assert(texts_view(copy@) =~= before.push(v@[i as int]@));
            assert(texts_view(copy@) =~= texts_view(v@).take(i + 1));
        }
        i += 1;
    }
    proof {
        assert(texts_view(v@).take(v.len() as int) =~= texts_view(v@));
    }
    copy
}

/// The names with `sep` between them.
pub fn join_texts(names: &Vec<String>, sep: &str) -> (r: String)
    ensures
        r@ == join(texts_view(names@), sep@),
{
    let ghost all = texts_view(names@);
    let mut r = String::new();
    let mut i: usize = 0;
    proof {
        assert(r@ =~= join(all.take(0), sep@));
    }
    while i < names.len()
        invariant
            i <= names.len(),
            all == texts_view(names@),
            r@ == join(all.take(i as int), sep@),
        decreases names.len() - i,
    {
        if i > 0 {
            r.append(sep);
        }
        r.append(names[i].as_str());
        proof {
            let next = all.take(i + 1);
            assert(next.drop_last() =~= all.take(i as int));
            assert(next.last() == names@[i as int]@);
            assert(r@ =~= join(next, sep@));
        }
        i += 1;
    }
    proof {
        assert(all.take(names.len() as int) =~= all);
    }
    r
}

/// The characters `lo..hi` of `src` as an owned string.
pub fn substring(src: &str, lo: usize, hi: usize) -> (r: String)
    requires
        lo <= hi <= src@.len(),
    ensures
        r@ == src@.subrange(lo as int, hi as int),
{
    src.substring_char(lo, hi).to_owned()
}

/// Whether two strings hold the same characters.
pub fn str_eq(a: &str, b: &str) -> (r: bool)
    ensures
        r == (a@ == b@),
{
    let x = a.to_owned();
    let y = b.to_owned();
    x == y
}

/// The character does not occur in the text.
pub open spec fn no_char(s: Seq<char>, c: char) -> bool {
    forall|i: int| 0 <= i < s.len() ==> s[i] != c
}

/// The text is empty or ends with a line feed.
pub open spec fn ends_lines(text: Seq<char>) -> bool {
    text.len() == 0 || text.last() == '\n'
}

/// A line added to a text of whole lines is its last line.
pub proof fn lemma_lines_push(text: Seq<char>, line: Seq<char>)
    requires
        ends_lines(text),
        no_char(line, '\n'),
        line.len() > 0 ==> line.last() != '\r',
    ensures
        lines(text + line + seq!['\n']) == lines(text).push(line),
        ends_lines(text + line + seq!['\n']),
    decreases text.len(),
{
    let s = text + line + seq!['\n'];
    if text.len() == 0 {
        assert forall|j: int| 0 <= j < line.len() implies s[j] != '\n' by {
            assert(s[j] == line[j]);
        }
        lemma_index_of_first(s, '\n', line.len() as int);
        assert(s.take(line.len() as int) =~= line);
        assert(strip_cr(line) == line);
        assert(s.skip(line.len() as int + 1) =~= Seq::<char>::empty());
        assert(lines(s.skip(line.len() as int + 1)) =~= Seq::<Seq<char>>::empty());
        assert(lines(text) =~= Seq::<Seq<char>>::empty());
        assert(lines(s) == seq![line] + Seq::<Seq<char>>::empty());
        assert(lines(s) =~= lines(text).push(line));
    } else {
        lemma_index_of(text, '\n');
        let k = index_of(text, '\n');
        assert(k >= 0) by {
            if k < 0 {
                assert(text[text.len() - 1] == '\n');
            }
        }
        assert forall|j: int| 0 <= j < k implies s[j] != '\n' by {
            assert(s[j] == text[j]);
        }
        assert(s[k] == text[k]);
        lemma_index_of_first(s, '\n', k);
        let rest = text.skip(k + 1);
        assert(s.take(k) =~= text.take(k));
        assert(s.skip(k + 1) =~= rest + line + seq!['\n']);
        if rest.len() > 0 {
            assert(rest.last() == text.last());
        }
        lemma_lines_push(rest, line);
        assert(lines(s) =~= lines(text).push(line));
    }
}

/// Trimming leaves a text that neither begins nor ends with whitespace.
pub proof fn lemma_trim_identity(line: Seq<char>)
    requires
        line.len() > 0,
        !is_whitespace(line[0]),
        !is_whitespace(line.last()),
    ensures
        trim(line) == line,
{
    let p = whitespace();
    assert(!p(line[0]));
    assert(!p(line.last()));
    assert(strip_start(line, p) == line);
    assert(strip_end(line, p) == line);
}

/// Stripping removes a beginning all of whose characters satisfy the
/// predicate, and stops before a character that does not.
pub proof fn lemma_strip_start_prefix(prefix: Seq<char>, rest: Seq<char>, p: spec_fn(char) -> bool)
    requires
        forall|i: int| 0 <= i < prefix.len() ==> p(#[trigger] prefix[i]),
        rest.len() > 0 ==> !p(rest[0]),
    ensures
        strip_start(prefix + rest, p) == rest,
    decreases prefix.len(),
{
    if prefix.len() == 0 {
        assert(prefix + rest =~= rest);
    } else {
        let whole = prefix + rest;
        assert(whole[0] == prefix[0]);
        assert(whole.drop_first() =~= prefix.drop_first() + rest);
        assert forall|i: int| 0 <= i < prefix.drop_first().len() implies p(
            #[trigger] prefix.drop_first()[i],
        ) by {
            assert(prefix.drop_first()[i] == prefix[i + 1]);
        }
        lemma_strip_start_prefix(prefix.drop_first(), rest, p);
    }
}

/// Stripping removes an end all of whose characters satisfy the predicate,
/// and stops after a character that does not.
pub proof fn lemma_strip_end_suffix(body: Seq<char>, suffix: Seq<char>, p: spec_fn(char) -> bool)
    requires
        forall|i: int| 0 <= i < suffix.len() ==> p(#[trigger] suffix[i]),
        body.len() > 0 ==> !p(body.last()),
    ensures
        strip_end(body + suffix, p) == body,
    decreases suffix.len(),
{
    if suffix.len() == 0 {
        assert(body + suffix =~= body);
    } else {
        let whole = body + suffix;
        assert(whole.last() == suffix.last());
        assert(whole.drop_last() =~= body + suffix.drop_last());
        assert forall|i: int| 0 <= i < suffix.drop_last().len() implies p(
            #[trigger] suffix.drop_last()[i],
        ) by {
            assert(suffix.drop_last()[i] == suffix[i]);
        }
        lemma_strip_end_suffix(body, suffix.drop_last(), p);
    }
}

} // verus!
