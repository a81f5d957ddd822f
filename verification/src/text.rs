use vstd::prelude::*;
use vstd::string::*;

verus! {

// ---------------------------------------------------------------------
// Character-sequence model
// ---------------------------------------------------------------------

/// `i` is the first position of `c` in `s`.
pub open spec fn is_first(s: Seq<char>, c: char, i: int) -> bool {
    &&& 0 <= i < s.len()
    &&& s[i] == c
    &&& forall|j: int| 0 <= j < i ==> s[j] != c
}

/// `c` occurs somewhere in `s`.
pub open spec fn has_char(s: Seq<char>, c: char) -> bool {
    exists|i: int| 0 <= i < s.len() && s[i] == c
}

/// The first position of `c` in `s` (meaningful when `has_char(s, c)`).
pub open spec fn first_index(s: Seq<char>, c: char) -> int {
    choose|i: int| is_first(s, c, i)
}

pub proof fn lemma_first_unique(s: Seq<char>, c: char, i: int)
    requires
        is_first(s, c, i),
    ensures
        first_index(s, c) == i,
{
    let k = first_index(s, c);
    assert(is_first(s, c, k));
    if k < i {
        assert(s[k] != c);
    } else if i < k {
        assert(s[i] != c);
    }
}

pub proof fn lemma_first_exists(s: Seq<char>, c: char)
    requires
        has_char(s, c),
    ensures
        is_first(s, c, first_index(s, c)),
    decreases s.len(),
{
    let w = choose|i: int| 0 <= i < s.len() && s[i] == c;
    assert(exists|i: int| is_first(s, c, i)) by {
        lemma_least_occurrence(s, c, w);
    }
}

proof fn lemma_least_occurrence(s: Seq<char>, c: char, w: int)
    requires
        0 <= w < s.len(),
        s[w] == c,
    ensures
        exists|i: int| is_first(s, c, i),
    decreases w,
{
    if forall|j: int| 0 <= j < w ==> s[j] != c {
        assert(is_first(s, c, w));
    } else {
        let v = choose|j: int| 0 <= j < w && s[j] == c;
        lemma_least_occurrence(s, c, v);
    }
}

/// `Some((before, after))` around the first `c` in `s`, as `str::split_once` gives.
pub open spec fn split_once(s: Seq<char>, c: char) -> Option<(Seq<char>, Seq<char>)> {
    if has_char(s, c) {
        let i = first_index(s, c);
        Some((s.subrange(0, i), s.subrange(i + 1, s.len() as int)))
    } else {
        None
    }
}

// ---------------------------------------------------------------------
// Trusted std primitives
// ---------------------------------------------------------------------

/// Calls `String::push`, which appends one character at the end.
#[verifier::external_body]
pub(crate) fn push_char(s: &mut String, c: char)
    ensures
        final(s)@ == old(s)@.push(c),
{
    s.push(c);
}

// ---------------------------------------------------------------------
// Conversions
// ---------------------------------------------------------------------

/// The characters of `s`, one by one.
pub fn chars_of(s: &str) -> (r: Vec<char>)
    ensures
        r@ == s@,
{
    let n = s.unicode_len();
    let mut r: Vec<char> = Vec::new();
    let mut i: usize = 0;
    while i < n
        invariant
            n == s@.len(),
            i <= n,
            r@ == s@.subrange(0, i as int),
        decreases n - i,
    {
        let c = s.get_char(i);
        r.push(c);
        i = i + 1;
    }
    r
}

/// Appends the characters `v[lo..hi]` to `s`.
pub fn push_chars(s: &mut String, v: &Vec<char>, lo: usize, hi: usize)
    requires
        lo <= hi <= v@.len(),
    ensures
        final(s)@ == old(s)@ + v@.subrange(lo as int, hi as int),
{
    let mut i = lo;
    while i < hi
        invariant
            lo <= i <= hi <= v@.len(),
            s@ == old(s)@ + v@.subrange(lo as int, i as int),
        decreases hi - i,
    {
        push_char(s, v[i]);
        assert(v@.subrange(lo as int, i + 1) == v@.subrange(lo as int, i as int).push(v@[i as int]));
        i = i + 1;
    }
}

/// The string made of the characters `v[lo..hi]`.
pub fn string_of_range(v: &Vec<char>, lo: usize, hi: usize) -> (r: String)
    requires
        lo <= hi <= v@.len(),
    ensures
        r@ == v@.subrange(lo as int, hi as int),
{
    let mut r = String::new();
    push_chars(&mut r, v, lo, hi);
    r
}

/// The string made of the characters of `v`.
pub fn string_of(v: &Vec<char>) -> (r: String)
    ensures
        r@ == v@,
{
    let r = string_of_range(v, 0, v.len());
    assert(v@.subrange(0, v@.len() as int) == v@);
    r
}

/// The first position of `c` in `v[from..]`, if any.
pub fn find_char_from(v: &Vec<char>, c: char, from: usize) -> (r: Option<usize>)
    requires
        from <= v@.len(),
    ensures
        match r {
            Some(i) => from <= i && is_first(v@.subrange(from as int, v@.len() as int), c, i - from),
            None => !has_char(v@.subrange(from as int, v@.len() as int), c),
        },
{
    let ghost t = v@.subrange(from as int, v@.len() as int);
    let mut i = from;
    while i < v.len()
        invariant
            from <= i <= v@.len(),
            t == v@.subrange(from as int, v@.len() as int),
            forall|j: int| 0 <= j < i - from ==> t[j] != c,
        decreases v@.len() - i,
    {
        if v[i] == c {
            return Some(i);
        }
        i = i + 1;
    }
    None
}

/// `str::split_once` on a character separator.
pub fn split_once_chars(v: &Vec<char>, c: char) -> (r: Option<(Vec<char>, Vec<char>)>)
    ensures
        match (r, split_once(v@, c)) {
            (Some(p), Some(q)) => p.0@ == q.0 && p.1@ == q.1,
            (None, None) => true,
            _ => false,
        },
{
    let n = v.len();
    assert(v@.subrange(0, v@.len() as int) == v@);
    match find_char_from(v, c, 0) {
        Some(i) => {
            proof {
                assert(v@.subrange(0, v@.len() as int) == v@);
                lemma_first_unique(v@, c, i as int);
                assert(is_first(v@, c, i as int));
                assert(i < v@.len());
            }
            let mut a: Vec<char> = Vec::new();
            let mut b: Vec<char> = Vec::new();
            copy_range(&mut a, v, 0, i);
            copy_range(&mut b, v, i + 1, n);
            Some((a, b))
        },
        None => None,
    }
}

/// Appends `v[lo..hi]` to `out`.
pub fn copy_range(out: &mut Vec<char>, v: &Vec<char>, lo: usize, hi: usize)
    requires
        lo <= hi <= v@.len(),
    ensures
        final(out)@ == old(out)@ + v@.subrange(lo as int, hi as int),
{
    let mut i = lo;
    while i < hi
        invariant
            lo <= i <= hi <= v@.len(),
            out@ == old(out)@ + v@.subrange(lo as int, i as int),
        decreases hi - i,
    {
        out.push(v[i]);
        assert(v@.subrange(lo as int, i + 1) == v@.subrange(lo as int, i as int).push(v@[i as int]));
        i = i + 1;
    }
}

} // verus!

verus! {

// ---------------------------------------------------------------------
// Whitespace and trimming
// ---------------------------------------------------------------------

/// Unicode `White_Space`, the set `char::is_whitespace` tests for.
pub open spec fn is_ws(c: char) -> bool {
    let u = c as int;
    ||| 0x09 <= u <= 0x0d
    ||| u == 0x20
    ||| u == 0x85
    ||| u == 0xa0
    ||| u == 0x1680
    ||| 0x2000 <= u <= 0x200a
    ||| u == 0x2028
    ||| u == 0x2029
    ||| u == 0x202f
    ||| u == 0x205f
    ||| u == 0x3000
}

pub fn is_whitespace(c: char) -> (r: bool)
    ensures
        r == is_ws(c),
{
    let u = c as u32;
    (0x09 <= u && u <= 0x0d) || u == 0x20 || u == 0x85 || u == 0xa0 || u == 0x1680 || (0x2000
        <= u && u <= 0x200a) || u == 0x2028 || u == 0x2029 || u == 0x202f || u == 0x205f || u
        == 0x3000
}

/// `s` without its leading whitespace.
pub open spec fn trim_start(s: Seq<char>) -> Seq<char>
    decreases s.len(),
{
    if s.len() > 0 && is_ws(s[0]) {
        trim_start(s.drop_first())
    } else {
        s
    }
}

/// `s` without its trailing whitespace.
pub open spec fn trim_end(s: Seq<char>) -> Seq<char>
    decreases s.len(),
{
    if s.len() > 0 && is_ws(s.last()) {
        trim_end(s.drop_last())
    } else {
        s
    }
}

/// `s` without leading and trailing whitespace, as `str::trim` gives.
pub open spec fn trim(s: Seq<char>) -> Seq<char> {
    trim_end(trim_start(s))
}

/// `str::trim` over a character vector.
pub fn trim_chars(v: &Vec<char>) -> (r: Vec<char>)
    ensures
        r@ == trim(v@),
{
    let n = v.len();
    let mut lo: usize = 0;
    assert(v@.subrange(0, n as int) == v@);
    while lo < n && is_whitespace(v[lo])
        invariant
            n == v@.len(),
            lo <= n,
            trim_start(v@) == trim_start(v@.subrange(lo as int, n as int)),
        decreases n - lo,
    {
        assert(v@.subrange(lo as int, n as int).drop_first() == v@.subrange(lo + 1, n as int));
        lo = lo + 1;
    }
    let ghost front = v@.subrange(lo as int, n as int);
    assert(trim_start(v@) == front) by {
        if lo < n {
            assert(front[0] == v@[lo as int]);
        }
    }
    let mut hi: usize = n;
    while hi > lo && is_whitespace(v[hi - 1])
        invariant
            n == v@.len(),
            lo <= hi <= n,
            front == v@.subrange(lo as int, n as int),
            trim_end(front) == trim_end(v@.subrange(lo as int, hi as int)),
        decreases hi,
    {
        assert(v@.subrange(lo as int, hi as int).drop_last() == v@.subrange(lo as int, hi - 1));
        hi = hi - 1;
    }
    let mut r: Vec<char> = Vec::new();
    copy_range(&mut r, v, lo, hi);
    assert(trim_end(v@.subrange(lo as int, hi as int)) == v@.subrange(lo as int, hi as int)) by {
        if hi > lo {
            assert(v@.subrange(lo as int, hi as int).last() == v@[hi - 1]);
        }
    }
    assert(r@ == v@.subrange(lo as int, hi as int));
    r
}

/// `str::trim` on a string.
pub fn trim_string(s: &str) -> (r: String)
    ensures
        r@ == trim(s@),
{
    let v = chars_of(s);
    let t = trim_chars(&v);
    string_of(&t)
}

// ---------------------------------------------------------------------
// Prefixes, suffixes, substrings
// ---------------------------------------------------------------------

pub open spec fn is_prefix(p: Seq<char>, s: Seq<char>) -> bool {
    p.len() <= s.len() && s.subrange(0, p.len() as int) == p
}

pub open spec fn is_suffix(p: Seq<char>, s: Seq<char>) -> bool {
    p.len() <= s.len() && s.subrange(s.len() - p.len(), s.len() as int) == p
}

/// `needle` occurs in `hay` starting at position `i`.
pub open spec fn occurs_at(hay: Seq<char>, needle: Seq<char>, i: int) -> bool {
    0 <= i && i + needle.len() <= hay.len() && hay.subrange(i, i + needle.len()) == needle
}

/// `needle` occurs somewhere in `hay`, as `str::contains` tests.
pub open spec fn contains_sub(hay: Seq<char>, needle: Seq<char>) -> bool {
    exists|i: int| occurs_at(hay, needle, i)
}

/// Whether `v[at..]` begins with `p`.
pub fn matches_at(v: &Vec<char>, p: &Vec<char>, at: usize) -> (r: bool)
    requires
        at <= v@.len(),
    ensures
        r == occurs_at(v@, p@, at as int),
{
    let n = v.len();
    let m = p.len();
    if m > n - at {
        return false;
    }
    let mut k: usize = 0;
    while k < m
        invariant
            n == v@.len(),
            m == p@.len(),
            at + m <= n,
            k <= m,
            forall|j: int| 0 <= j < k ==> v@[at + j] == p@[j],
        decreases m - k,
    {
        if v[at + k] != p[k] {
            assert(v@.subrange(at as int, at + m)[k as int] != p@[k as int]);
            return false;
        }
        k = k + 1;
    }
    assert(v@.subrange(at as int, at + m) == p@);
    true
}

/// `str::starts_with` over character vectors.
pub fn starts_with_chars(v: &Vec<char>, p: &Vec<char>) -> (r: bool)
    ensures
        r == is_prefix(p@, v@),
{
    matches_at(v, p, 0)
}

/// `str::ends_with` over character vectors.
pub fn ends_with_chars(v: &Vec<char>, p: &Vec<char>) -> (r: bool)
    ensures
        r == is_suffix(p@, v@),
{
    if p.len() > v.len() {
        return false;
    }
    matches_at(v, p, v.len() - p.len())
}

/// `str::contains` over character vectors.
pub fn contains_chars(hay: &Vec<char>, needle: &Vec<char>) -> (r: bool)
    ensures
        r == contains_sub(hay@, needle@),
{
    let n = hay.len();
    let mut i: usize = 0;
    while i < n
        invariant
            n == hay@.len(),
            i <= n,
            forall|j: int| 0 <= j < i ==> !occurs_at(hay@, needle@, j),
        decreases n - i,
    {
        if matches_at(hay, needle, i) {
            return true;
        }
        i = i + 1;
    }
    if matches_at(hay, needle, n) {
        return true;
    }
    assert forall|j: int| !occurs_at(hay@, needle@, j) by {
        if 0 <= j && j + needle@.len() <= hay@.len() {
            assert(j <= n);
        }
    }
    false
}

/// `str::contains` on strings.
pub fn str_contains(hay: &str, needle: &str) -> (r: bool)
    ensures
        r == contains_sub(hay@, needle@),
{
    let h = chars_of(hay);
    let p = chars_of(needle);
    contains_chars(&h, &p)
}

} // verus!

verus! {

// ---------------------------------------------------------------------
// Lines
// ---------------------------------------------------------------------

/// `s` without one trailing carriage return.
pub open spec fn strip_cr(s: Seq<char>) -> Seq<char> {
    if s.len() > 0 && s.last() == '\r' {
        s.drop_last()
    } else {
        s
    }
}

/// The lines of `s`, as `str::lines` yields them: split at `\n`, a `\r`
/// just before a `\n` dropped, no final empty line.
pub open spec fn lines(s: Seq<char>) -> Seq<Seq<char>>
    decreases s.len(),
{
    if has_char(s, '\n') {
        proof {
            lemma_first_exists(s, '\n');
        }
        let i = first_index(s, '\n');
        seq![strip_cr(s.subrange(0, i))] + lines(s.subrange(i + 1, s.len() as int))
    } else if s.len() == 0 {
        seq![]
    } else {
        seq![s]
    }
}

/// `str::lines` over a character vector.
pub fn lines_of(v: &Vec<char>) -> (r: Vec<Vec<char>>)
    ensures
        r@.len() == lines(v@).len(),
        forall|k: int| 0 <= k < r@.len() ==> #[trigger] r@[k]@ == lines(v@)[k],
{
    let n = v.len();
    let mut r: Vec<Vec<char>> = Vec::new();
    let ghost mut acc: Seq<Seq<char>> = seq![];
    let mut start: usize = 0;
    assert(v@.subrange(0, n as int) == v@);
    loop
        invariant
            n == v@.len(),
            start <= n,
            r@.len() == acc.len(),
            forall|k: int| 0 <= k < r@.len() ==> #[trigger] r@[k]@ == acc[k],
            lines(v@) == acc + lines(v@.subrange(start as int, n as int)),
        decreases n - start,
    {
        let ghost sub = v@.subrange(start as int, n as int);
        match find_char_from(v, '\n', start) {
            Some(i) => {
                proof {
                    lemma_first_unique(sub, '\n', i - start);
                    assert(sub.subrange(0, i - start) == v@.subrange(start as int, i as int));
                    assert(sub.subrange(i - start + 1, sub.len() as int) == v@.subrange(
                        i + 1,
                        n as int,
                    ));
                }
                let mut line: Vec<char> = Vec::new();
                let hi = if i > start && v[i - 1] == '\r' {
                    i - 1
                } else {
                    i
                };
                copy_range(&mut line, v, start, hi);
                proof {
                    let seg = v@.subrange(start as int, i as int);
                    if i > start && v@[i - 1] == '\r' {
                        assert(seg.drop_last() == v@.subrange(start as int, i - 1));
                    }
                    assert(line@ == strip_cr(seg));
                    acc = acc.push(strip_cr(seg));
                    assert(seq![strip_cr(seg)] + lines(v@.subrange(i + 1, n as int)) == seq![
                        strip_cr(seg),
                    ] + lines(v@.subrange(i + 1, n as int)));
                    assert(acc + lines(v@.subrange(i + 1, n as int)) == acc.drop_last() + (seq![
                        strip_cr(seg),
                    ] + lines(v@.subrange(i + 1, n as int))));
                }
                r.push(line);
                start = i + 1;
            },
            None => {
                if start < n {
                    let mut line: Vec<char> = Vec::new();
                    copy_range(&mut line, v, start, n);
                    proof {
                        acc = acc.push(sub);
                    }
                    r.push(line);
                } else {
                    assert(sub.len() == 0);
                }
                assert(lines(v@) == acc);
                return r;
            },
        }
    }
}

// ---------------------------------------------------------------------
// Decimal numbers
// ---------------------------------------------------------------------

pub open spec fn digit_char(d: nat) -> char {
    (d + 48) as char
}

/// The decimal digits of `n`, as `usize::to_string` writes them.
pub open spec fn decimal(n: nat) -> Seq<char>
    decreases n,
{
    if n < 10 {
        seq![digit_char(n)]
    } else {
        decimal(n / 10).push(digit_char(n % 10))
    }
}

/// Appends the decimal digits of `n` to `s`.
pub fn push_decimal(s: &mut String, n: usize)
    ensures
        final(s)@ == old(s)@ + decimal(n as nat),
    decreases n,
{
    if n >= 10 {
        push_decimal(s, n / 10);
    }
    let d = (n % 10) as u8;
    let c = (48u8 + d) as char;
    assert(c == digit_char((n % 10) as nat));
    push_char(s, c);
}

pub open spec fn is_digit(c: char) -> bool {
    48 <= (c as int) <= 57
}

pub open spec fn all_digits(s: Seq<char>) -> bool {
    forall|i: int| 0 <= i < s.len() ==> is_digit(s[i])
}

/// The value of a string of decimal digits.
pub open spec fn digits_value(s: Seq<char>) -> nat
    decreases s.len(),
{
    if s.len() == 0 {
        0
    } else {
        digits_value(s.drop_last()) * 10 + ((s.last() as int) - 48) as nat
    }
}

proof fn lemma_digits_monotone(s: Seq<char>, j: int, k: int)
    requires
        all_digits(s),
        0 <= j <= k <= s.len(),
    ensures
        digits_value(s.subrange(0, j)) <= digits_value(s.subrange(0, k)),
    decreases k - j,
{
    if j < k {
        lemma_digits_monotone(s, j, k - 1);
        assert(s.subrange(0, k).drop_last() == s.subrange(0, k - 1));
    }
}

/// The number a string of digits denotes, when it has at least one digit
/// and nothing else.
pub open spec fn unsigned_value(s: Seq<char>) -> Option<nat> {
    if s.len() > 0 && all_digits(s) {
        Some(digits_value(s))
    } else {
        None
    }
}

/// `usize::from_str`: an optional `+`, then one or more digits, the value
/// fitting a `usize`.
pub open spec fn parse_usize_spec(s: Seq<char>) -> Option<nat> {
    let body = if s.len() > 0 && s[0] == '+' {
        s.drop_first()
    } else {
        s
    };
    match unsigned_value(body) {
        Some(v) => if v <= usize::MAX {
            Some(v)
        } else {
            None
        },
        None => None,
    }
}

/// `i64::from_str`: an optional `+` or `-`, then one or more digits, the
/// value fitting an `i64`.
pub open spec fn parse_i64_spec(s: Seq<char>) -> Option<int> {
    let neg = s.len() > 0 && s[0] == '-';
    let body = if s.len() > 0 && (s[0] == '+' || s[0] == '-') {
        s.drop_first()
    } else {
        s
    };
    match unsigned_value(body) {
        Some(v) => {
            let x: int = if neg {
                -v
            } else {
                v as int
            };
            if i64::MIN <= x <= i64::MAX {
                Some(x)
            } else {
                None
            }
        },
        None => None,
    }
}

/// Reads the digits `v[from..]`; `None` when one is not a digit, when
/// there are none, or when the value exceeds `bound`.
fn digits_up_to(v: &Vec<char>, from: usize, bound: u128) -> (r: Option<u128>)
    requires
        from <= v@.len(),
        bound <= 0x1_0000_0000_0000_0000u128,
    ensures
        ({
            let body = v@.subrange(from as int, v@.len() as int);
            match r {
                Some(x) => unsigned_value(body) == Some(x as nat) && x <= bound,
                None => unsigned_value(body) is None || unsigned_value(body).unwrap() > bound,
            }
        }),
{
    let n = v.len();
    let ghost body = v@.subrange(from as int, n as int);
    if from == n {
        return None;
    }
    let mut acc: u128 = 0;
    let mut i = from;
    while i < n
        invariant
            from <= i <= n,
            n == v@.len(),
            body == v@.subrange(from as int, n as int),
            bound <= 0x1_0000_0000_0000_0000u128,
            acc <= bound,
            all_digits(body.subrange(0, i - from)),
            acc == digits_value(body.subrange(0, i - from)),
        decreases n - i,
    {
        let c = v[i];
        assert(c == body[i - from]);
        if c < '0' || c > '9' {
            assert(!is_digit(body[i - from]));
            return None;
        }
        let u = c as u32;
        assert(u == c as int);
        let d = (u - 48) as u128;
        let next = acc * 10 + d;
        proof {
            assert(body.subrange(0, i - from + 1).drop_last() == body.subrange(0, i - from));
            let pre = body.subrange(0, i - from + 1);
            assert forall|j: int| 0 <= j < pre.len() implies is_digit(pre[j]) by {
                if j < i - from {
                    assert(pre[j] == body.subrange(0, i - from)[j]);
                }
            }
        }
        if next > bound {
            proof {
                if all_digits(body) {
                    lemma_digits_monotone(body, i - from + 1, body.len() as int);
                    assert(body.subrange(0, body.len() as int) == body);
                }
            }
            return None;
        }
        acc = next;
        i = i + 1;
    }
    assert(body.subrange(0, n - from) == body);
    Some(acc)
}

/// `usize::from_str`.
pub fn parse_usize(v: &Vec<char>) -> (r: Option<usize>)
    ensures
        match r {
            Some(x) => parse_usize_spec(v@) == Some(x as nat),
            None => parse_usize_spec(v@) is None,
        },
{
    let from: usize = if v.len() > 0 && v[0] == '+' {
        1
    } else {
        0
    };
    assert(from == 1 ==> v@.subrange(1, v@.len() as int) == v@.drop_first());
    assert(from == 0 ==> v@.subrange(0, v@.len() as int) == v@);
    match digits_up_to(v, from, usize::MAX as u128) {
        Some(x) => Some(x as usize),
        None => None,
    }
}

/// `i64::from_str`.
pub fn parse_i64(v: &Vec<char>) -> (r: Option<i64>)
    ensures
        match r {
            Some(x) => parse_i64_spec(v@) == Some(x as int),
            None => parse_i64_spec(v@) is None,
        },
{
    let neg = v.len() > 0 && v[0] == '-';
    let from: usize = if v.len() > 0 && (v[0] == '+' || v[0] == '-') {
        1
    } else {
        0
    };
    assert(from == 1 ==> v@.subrange(1, v@.len() as int) == v@.drop_first());
    assert(from == 0 ==> v@.subrange(0, v@.len() as int) == v@);
    let bound: u128 = if neg {
        0x8000_0000_0000_0000u128
    } else {
        0x7fff_ffff_ffff_ffffu128
    };
    match digits_up_to(v, from, bound) {
        Some(x) => {
            if neg {
                if x == 0x8000_0000_0000_0000u128 {
                    Some(i64::MIN)
                } else {
                    Some(-(x as i64))
                }
            } else {
                Some(x as i64)
            }
        },
        None => None,
    }
}

} // verus!

verus! {

// ---------------------------------------------------------------------
// Last occurrence
// ---------------------------------------------------------------------

/// `i` is the last position of `c` in `s`.
pub open spec fn is_last(s: Seq<char>, c: char, i: int) -> bool {
    &&& 0 <= i < s.len()
    &&& s[i] == c
    &&& forall|j: int| i < j < s.len() ==> s[j] != c
}

/// The last position of `c` in `v[..hi]`, as `str::rfind` finds it.
pub fn rfind_char(v: &Vec<char>, c: char, hi: usize) -> (r: Option<usize>)
    requires
        hi <= v@.len(),
    ensures
        match r {
            Some(i) => is_last(v@.subrange(0, hi as int), c, i as int),
            None => !has_char(v@.subrange(0, hi as int), c),
        },
{
    let ghost t = v@.subrange(0, hi as int);
    let mut i = hi;
    while i > 0
        invariant
            i <= hi <= v@.len(),
            t == v@.subrange(0, hi as int),
            forall|j: int| i <= j < hi ==> t[j] != c,
        decreases i,
    {
        if v[i - 1] == c {
            return Some(i - 1);
        }
        i = i - 1;
    }
    None
}

// ---------------------------------------------------------------------
// Lexicographic order (the order of `String`'s `Ord`)
// ---------------------------------------------------------------------

/// `a` sorts strictly before `b`, comparing code points from the front.
/// UTF-8 preserves this order, so it is the byte order `String` sorts by.
pub open spec fn seq_lt(a: Seq<char>, b: Seq<char>) -> bool
    decreases a.len(),
{
    if a.len() == 0 {
        b.len() > 0
    } else if b.len() == 0 {
        false
    } else if a[0] != b[0] {
        (a[0] as int) < (b[0] as int)
    } else {
        seq_lt(a.drop_first(), b.drop_first())
    }
}

pub proof fn lemma_lt_irreflexive(a: Seq<char>)
    ensures
        !seq_lt(a, a),
    decreases a.len(),
{
    if a.len() > 0 {
        lemma_lt_irreflexive(a.drop_first());
    }
}

pub proof fn lemma_lt_asymmetric(a: Seq<char>, b: Seq<char>)
    requires
        seq_lt(a, b),
    ensures
        !seq_lt(b, a),
    decreases a.len(),
{
    if a.len() > 0 && b.len() > 0 && a[0] == b[0] {
        lemma_lt_asymmetric(a.drop_first(), b.drop_first());
    }
}

pub proof fn lemma_lt_transitive(a: Seq<char>, b: Seq<char>, c: Seq<char>)
    requires
        seq_lt(a, b),
        seq_lt(b, c),
    ensures
        seq_lt(a, c),
    decreases a.len(),
{
    if a.len() > 0 && b.len() > 0 && c.len() > 0 && a[0] == b[0] && b[0] == c[0] {
        lemma_lt_transitive(a.drop_first(), b.drop_first(), c.drop_first());
    }
}

pub proof fn lemma_lt_total(a: Seq<char>, b: Seq<char>)
    requires
        a != b,
    ensures
        seq_lt(a, b) || seq_lt(b, a),
    decreases a.len(),
{
    if a.len() == 0 && b.len() == 0 {
        assert(a == b);
    } else if a.len() == 0 || b.len() == 0 {
    } else if a[0] != b[0] {
        assert((a[0] as int) != (b[0] as int));
    } else {
        if a.drop_first() == b.drop_first() {
            assert(a == seq![a[0]] + a.drop_first());
            assert(b == seq![b[0]] + b.drop_first());
        }
        lemma_lt_total(a.drop_first(), b.drop_first());
    }
}

/// Whether `a` sorts strictly before `b`.
pub fn chars_lt(a: &Vec<char>, b: &Vec<char>) -> (r: bool)
    ensures
        r == seq_lt(a@, b@),
{
    let n = a.len();
    let m = b.len();
    let mut i: usize = 0;
    assert(a@.subrange(0, n as int) == a@);
    assert(b@.subrange(0, m as int) == b@);
    while i < n && i < m && a[i] == b[i]
        invariant
            n == a@.len(),
            m == b@.len(),
            i <= n,
            i <= m,
            seq_lt(a@, b@) == seq_lt(a@.subrange(i as int, n as int), b@.subrange(i as int, m as int)),
        decreases n - i,
    {
        assert(a@.subrange(i as int, n as int).drop_first() == a@.subrange(i + 1, n as int));
        assert(b@.subrange(i as int, m as int).drop_first() == b@.subrange(i + 1, m as int));
        i = i + 1;
    }
    if i == n {
        i < m
    } else if i == m {
        false
    } else {
        assert(a@.subrange(i as int, n as int)[0] == a@[i as int]);
        assert(b@.subrange(i as int, m as int)[0] == b@[i as int]);
        char_lt(a[i], b[i])
    }
}

/// True when `a` comes strictly before `b` in code-point order.
pub fn char_lt(a: char, b: char) -> (r: bool)
    ensures
        r == ((a as int) < (b as int)),
{
    a < b
}

// ---------------------------------------------------------------------
// Lower case (Unicode case mapping)
// ---------------------------------------------------------------------

/// What `str::to_lowercase` gives for `s`: the Unicode lower-case mapping,
/// which depends on `s` alone.
pub uninterp spec fn lowercase(s: Seq<char>) -> Seq<char>;

/// `c` with an ASCII capital letter mapped to its small letter.
pub open spec fn ascii_lower(c: char) -> char {
    if 'A' <= c && c <= 'Z' {
        ((c as int) + 32) as char
    } else {
        c
    }
}

/// Every character of `s` is ASCII.
pub open spec fn all_ascii(s: Seq<char>) -> bool {
    forall|i: int| 0 <= i < s.len() ==> (#[trigger] s[i] as int) < 128
}

/// Calls `str::to_lowercase`. Its result is named `lowercase` of the input;
/// of that mapping only this is stated: the empty string stays empty, and
/// ASCII text maps character by character as `to_ascii_lowercase` maps it
/// (capital letters to small ones, everything else unchanged). What it
/// does to other characters is left to the name.
#[verifier::external_body]
pub(crate) fn to_lowercase(s: &str) -> (r: String)
    ensures
        r@ == lowercase(s@),
        s@.len() == 0 ==> r@.len() == 0,
        all_ascii(s@) ==> r@ == s@.map_values(|c: char| ascii_lower(c)),
{
    s.to_lowercase()
}

// ---------------------------------------------------------------------
// Joining
// ---------------------------------------------------------------------

/// The items of `list` with `sep` between each two, as `[String]::join` gives.
pub open spec fn join(list: Seq<Seq<char>>, sep: Seq<char>) -> Seq<char>
    decreases list.len(),
{
    if list.len() == 0 {
        seq![]
    } else if list.len() == 1 {
        list[0]
    } else {
        join(list.drop_last(), sep) + sep + list.last()
    }
}

/// The views of a vector of strings.
pub open spec fn views(v: Seq<String>) -> Seq<Seq<char>> {
    v.map_values(|s: String| s@)
}

/// `[String]::join`.
pub fn join_strings(list: &Vec<String>, sep: &str) -> (r: String)
    ensures
        r@ == join(views(list@), sep@),
{
    let mut r = String::new();
    let n = list.len();
    let mut i: usize = 0;
    while i < n
        invariant
            n == list@.len(),
            i <= n,
            r@ == join(views(list@).take(i as int), sep@),
        decreases n - i,
    {
        proof {
            let t = views(list@).take(i + 1);
            assert(t.drop_last() == views(list@).take(i as int));
            assert(t.last() == list@[i as int]@);
        }
        if i > 0 {
            r.append(sep);
        }
        r.append(list[i].as_str());
        proof {
            if i == 0 {
                assert(views(list@).take(1) == seq![list@[0]@]);
            }
        }
        i = i + 1;
    }
    assert(views(list@).take(n as int) == views(list@));
    r
}

/// Whether two character vectors are equal.
pub fn chars_eq(a: &Vec<char>, b: &Vec<char>) -> (r: bool)
    ensures
        r == (a@ == b@),
{
    if a.len() != b.len() {
        return false;
    }
    let r = matches_at(a, b, 0);
    assert(a@.subrange(0, b@.len() as int) == a@);
    r
}

} // verus!

verus! {

/// Calls `String::pop`, which removes and returns the last character, or
/// returns `None` on an empty string.
#[verifier::external_body]
pub(crate) fn pop_char(s: &mut String) -> (r: Option<char>)
    ensures
        old(s)@.len() == 0 ==> r is None && final(s)@ == old(s)@,
        old(s)@.len() > 0 ==> r == Some(old(s)@.last()) && final(s)@ == old(s)@.drop_last(),
{
    s.pop()
}

} // verus!

verus! {

/// The last position of `c` in `s` (meaningful when `has_char(s, c)`).
pub open spec fn last_index(s: Seq<char>, c: char) -> int {
    choose|i: int| is_last(s, c, i)
}

pub proof fn lemma_last_unique(s: Seq<char>, c: char, i: int)
    requires
        is_last(s, c, i),
    ensures
        last_index(s, c) == i,
{
    let k = last_index(s, c);
    assert(is_last(s, c, k));
    if k < i {
        assert(s[i] != c);
    } else if i < k {
        assert(s[k] != c);
    }
}

} // verus!

verus! {

// ---------------------------------------------------------------------
// Characters in order (subsequences)
// ---------------------------------------------------------------------

/// `idx` picks, in increasing positions of `s`, the characters of `f`.
pub open spec fn embeds(idx: Seq<int>, f: Seq<char>, s: Seq<char>) -> bool {
    &&& idx.len() == f.len()
    &&& forall|k: int| 0 <= k < idx.len() ==> 0 <= #[trigger] idx[k] < s.len() && s[idx[k]] == f[k]
    &&& forall|k: int, l: int| 0 <= k < l < idx.len() ==> #[trigger] idx[k] < #[trigger] idx[l]
}

/// The characters of `f` occur in `s` in order, not necessarily together.
pub open spec fn is_subsequence(f: Seq<char>, s: Seq<char>) -> bool {
    exists|idx: Seq<int>| embeds(idx, f, s)
}

/// Matching `f` against `s` from the left, taking each character of `s`
/// that is the next one wanted.
pub open spec fn in_order(f: Seq<char>, s: Seq<char>) -> bool
    decreases s.len(),
{
    if f.len() == 0 {
        true
    } else if s.len() == 0 {
        false
    } else if s[0] == f[0] {
        in_order(f.drop_first(), s.drop_first())
    } else {
        in_order(f, s.drop_first())
    }
}

/// Matching from the left finds `f` in `s` exactly when it is a
/// subsequence.
pub proof fn lemma_in_order_is_subsequence(f: Seq<char>, s: Seq<char>)
    ensures
        in_order(f, s) == is_subsequence(f, s),
    decreases s.len(),
{
    if f.len() == 0 {
        assert(embeds(Seq::<int>::empty(), f, s));
    } else if s.len() == 0 {
        if is_subsequence(f, s) {
            let idx = choose|idx: Seq<int>| embeds(idx, f, s);
            assert(0 <= idx[0] < s.len());
        }
    } else {
        let f1 = f.drop_first();
        let s1 = s.drop_first();
        lemma_in_order_is_subsequence(f1, s1);
        lemma_in_order_is_subsequence(f, s1);
        if in_order(f, s) {
            if s[0] == f[0] {
                let idx1 = choose|idx: Seq<int>| embeds(idx, f1, s1);
                let idx = seq![0int] + idx1.map_values(|x: int| x + 1);
                assert forall|k: int| 0 <= k < idx.len() implies 0 <= #[trigger] idx[k] < s.len() && s[idx[k]] == f[k] by {
                    if k > 0 {
                        assert(idx[k] == idx1[k - 1] + 1);
                        assert(s1[idx1[k - 1]] == f1[k - 1]);
                    }
                }
                assert forall|k: int, l: int| 0 <= k < l < idx.len() implies #[trigger] idx[k] < #[trigger] idx[l] by {
                    if k > 0 {
                        assert(idx1[k - 1] < idx1[l - 1]);
                    } else {
                        assert(0 <= idx1[l - 1]);
                    }
                }
                assert(embeds(idx, f, s));
            } else {
                let idx1 = choose|idx: Seq<int>| embeds(idx, f, s1);
                let idx = idx1.map_values(|x: int| x + 1);
                assert forall|k: int| 0 <= k < idx.len() implies 0 <= #[trigger] idx[k] < s.len() && s[idx[k]] == f[k] by {
                    assert(s1[idx1[k]] == f[k]);
                }
                assert forall|k: int, l: int| 0 <= k < l < idx.len() implies #[trigger] idx[k] < #[trigger] idx[l] by {
                    assert(idx1[k] < idx1[l]);
                }
                assert(embeds(idx, f, s));
            }
        }
        if is_subsequence(f, s) {
            let idx = choose|idx: Seq<int>| embeds(idx, f, s);
            if s[0] == f[0] {
                let idx1 = idx.drop_first().map_values(|x: int| x - 1);
                assert forall|k: int| 0 <= k < idx1.len() implies 0 <= #[trigger] idx1[k] < s1.len() && s1[idx1[k]] == f1[k] by {
                    assert(idx[0] < idx[k + 1]);
                    assert(0 <= idx[0]);
                    assert(s[idx[k + 1]] == f[k + 1]);
                }
                assert forall|k: int, l: int| 0 <= k < l < idx1.len() implies #[trigger] idx1[k] < #[trigger] idx1[l] by {
                    assert(idx[k + 1] < idx[l + 1]);
                }
                assert(embeds(idx1, f1, s1));
            } else {
                assert(s[idx[0]] == f[0]);
                assert(idx[0] != 0);
                let idx1 = idx.map_values(|x: int| x - 1);
                assert forall|k: int| 0 <= k < idx1.len() implies 0 <= #[trigger] idx1[k] < s1.len() && s1[idx1[k]] == f[k] by {
                    if k > 0 {
                        assert(idx[0] < idx[k]);
                    }
                    assert(0 <= idx[0]);
                    assert(s[idx[k]] == f[k]);
                }
                assert forall|k: int, l: int| 0 <= k < l < idx1.len() implies #[trigger] idx1[k] < #[trigger] idx1[l] by {
                    assert(idx[k] < idx[l]);
                }
                assert(embeds(idx1, f, s1));
            }
        }
    }
}

/// Whether the characters of `f` occur in `s` in order.
pub fn chars_in_order(f: &Vec<char>, s: &Vec<char>) -> (r: bool)
    ensures
        r == is_subsequence(f@, s@),
{
    let fl = f.len();
    let sl = s.len();
    let mut i: usize = 0;
    let mut j: usize = 0;
    assert(f@.subrange(0, fl as int) == f@);
    assert(s@.subrange(0, sl as int) == s@);
    while i < fl && j < sl
        invariant
            fl == f@.len(),
            sl == s@.len(),
            i <= fl,
            j <= sl,
            in_order(f@, s@) == in_order(f@.subrange(i as int, fl as int), s@.subrange(j as int, sl as int)),
        decreases sl - j,
    {
        let ghost fs = f@.subrange(i as int, fl as int);
        let ghost ss = s@.subrange(j as int, sl as int);
        assert(fs[0] == f@[i as int]);
        assert(ss[0] == s@[j as int]);
        assert(ss.drop_first() == s@.subrange(j + 1, sl as int));
        assert(fs.drop_first() == f@.subrange(i + 1, fl as int));
        if s[j] == f[i] {
            i = i + 1;
        }
        j = j + 1;
    }
    proof {
        lemma_in_order_is_subsequence(f@, s@);
    }
    i == fl
}

/// Whether the characters of `needle` occur in `hay` in order.
pub fn str_in_order(needle: &str, hay: &str) -> (r: bool)
    ensures
        r == is_subsequence(needle@, hay@),
{
    let f = chars_of(needle);
    let s = chars_of(hay);
    chars_in_order(&f, &s)
}

} // verus!
