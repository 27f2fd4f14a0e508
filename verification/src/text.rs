//! Character and string primitives with exact specifications.
//!
//! Everything here is stated over the character sequence (`Seq<char>`) that a
//! `String` or `&str` views as.

use vstd::prelude::*;
use vstd::utf8::{char_is_scalar, encode_scalar};

verus! {

/// Appends one character to a string (`String::push`).
#[verifier::external_body]
pub(crate) fn push_char(s: &mut String, c: char)
    ensures
        final(s)@ == old(s)@.push(c),
{
    s.push(c);
}

/// Unicode full lowercase mapping of a character sequence, as computed by
/// `str::to_lowercase` (context-sensitive, so it is a function of the whole string).
pub uninterp spec fn unicode_lowercase(s: Seq<char>) -> Seq<char>;

/// Whether every character of `s` is ASCII.
pub open spec fn all_ascii(s: Seq<char>) -> bool {
    forall|i: int| 0 <= i < s.len() ==> (#[trigger] s[i] as u32) < 128
}

/// `str::to_lowercase`: the Unicode lowercase form of `s`. Claimed as well,
/// from its documentation (ASCII letters have single-character lowercase
/// forms in ASCII, and no other ASCII character changes): on ASCII text it is
/// the ASCII lowercase. Nothing more is said of non-ASCII text.
#[verifier::external_body]
pub(crate) fn to_lowercase(s: &str) -> (r: String)
    ensures
        r@ == unicode_lowercase(s@),
        all_ascii(s@) ==> r@ == s@.map_values(|c: char| ascii_lower(c)),
{
    s.to_lowercase()
}

/// Collects the characters of a string slice into a vector.
pub fn chars_of(s: &str) -> (v: Vec<char>)
    ensures
        v@ == s@,
{
    let mut v: Vec<char> = Vec::new();
    for c in it: s.chars()
        invariant
            v@ == it.seq().take(it.index() as int),
            it.seq() == s@,
    {
        v.push(c);
    }
    v
}

/// Builds a string from a range of characters.
pub fn string_from_range(v: &Vec<char>, from: usize, to: usize) -> (s: String)
    requires
        from <= to <= v.len(),
    ensures
        s@ == v@.subrange(from as int, to as int),
{
    let mut s = String::new();
    let mut i = from;
    while i < to
        invariant
            from <= i <= to <= v.len(),
            s@ == v@.subrange(from as int, i as int),
        decreases to - i,
    {
        push_char(&mut s, v[i]);
        proof {
            assert(v@.subrange(from as int, i + 1) =~= v@.subrange(from as int, i as int).push(v@[i as int]));
        }
        i = i + 1;
    }
    s
}

/// Builds a string from a whole character sequence.
pub fn string_from_chars(v: &Vec<char>) -> (s: String)
    ensures
        s@ == v@,
{
    let s = string_from_range(v, 0, v.len());
    proof {
        assert(v@.subrange(0, v@.len() as int) =~= v@);
    }
    s
}

/// Copies a string slice into an owned string.
pub fn owned(s: &str) -> (r: String)
    ensures
        r@ == s@,
{
    let v = chars_of(s);
    string_from_chars(&v)
}

/// Whether two character sequences are equal.
pub fn chars_eq(a: &Vec<char>, b: &Vec<char>) -> (r: bool)
    ensures
        r == (a@ == b@),
{
    if a.len() != b.len() {
        return false;
    }
    let mut i: usize = 0;
    while i < a.len()
        invariant
            a.len() == b.len(),
            i <= a.len(),
            forall|k: int| 0 <= k < i ==> a@[k] == b@[k],
        decreases a.len() - i,
    {
        if a[i] != b[i] {
            return false;
        }
        i = i + 1;
    }
    proof {
        assert(a@ =~= b@);
    }
    true
}

/// Whether two strings hold the same characters.
pub fn str_eq(a: &str, b: &str) -> (r: bool)
    ensures
        r == (a@ == b@),
{
    let va = chars_of(a);
    let vb = chars_of(b);
    chars_eq(&va, &vb)
}

/// The Unicode `White_Space` property, as tested by `char::is_whitespace`.
pub open spec fn is_ws(c: char) -> bool {
    let u = c as u32;
    ||| (0x09 <= u && u <= 0x0D)
    ||| u == 0x20
    ||| u == 0x85
    ||| u == 0xA0
    ||| u == 0x1680
    ||| (0x2000 <= u && u <= 0x200A)
    ||| u == 0x2028
    ||| u == 0x2029
    ||| u == 0x202F
    ||| u == 0x205F
    ||| u == 0x3000
}

/// Exec form of [`is_ws`].
pub fn is_whitespace(c: char) -> (b: bool)
    ensures
        b == is_ws(c),
{
    let u = c as u32;
    (0x09 <= u && u <= 0x0D) || u == 0x20 || u == 0x85 || u == 0xA0 || u == 0x1680 || (0x2000
        <= u && u <= 0x200A) || u == 0x2028 || u == 0x2029 || u == 0x202F || u == 0x205F || u
        == 0x3000
}

/// `s` without its leading whitespace (`str::trim_start`).
pub open spec fn trim_start(s: Seq<char>) -> Seq<char>
    decreases s.len(),
{
    if s.len() > 0 && is_ws(s[0]) {
        trim_start(s.drop_first())
    } else {
        s
    }
}

/// `s` without its trailing whitespace (`str::trim_end`).
pub open spec fn trim_end(s: Seq<char>) -> Seq<char>
    decreases s.len(),
{
    if s.len() > 0 && is_ws(s.last()) {
        trim_end(s.drop_last())
    } else {
        s
    }
}

/// `s` without leading and trailing whitespace (`str::trim`).
pub open spec fn trim(s: Seq<char>) -> Seq<char> {
    trim_end(trim_start(s))
}

/// The first index at or after `from` that holds no whitespace (or `v.len()`).
pub fn skip_ws(v: &Vec<char>, from: usize, to: usize) -> (i: usize)
    requires
        from <= to <= v.len(),
    ensures
        from <= i <= to,
        trim_start(v@.subrange(from as int, to as int)) == v@.subrange(i as int, to as int),
{
    let mut i = from;
    while i < to && is_whitespace(v[i])
        invariant
            from <= i <= to <= v.len(),
            trim_start(v@.subrange(from as int, to as int)) == trim_start(
                v@.subrange(i as int, to as int),
            ),
        decreases to - i,
    {
        proof {
            assert(v@.subrange(i as int, to as int).drop_first() =~= v@.subrange(
                i + 1,
                to as int,
            ));
        }
        i = i + 1;
    }
    i
}

/// The end of `v[from..to]` once trailing whitespace is removed.
pub fn skip_ws_back(v: &Vec<char>, from: usize, to: usize) -> (j: usize)
    requires
        from <= to <= v.len(),
    ensures
        from <= j <= to,
        trim_end(v@.subrange(from as int, to as int)) == v@.subrange(from as int, j as int),
{
    let mut j = to;
    while j > from && is_whitespace(v[j - 1])
        invariant
            from <= j <= to <= v.len(),
            trim_end(v@.subrange(from as int, to as int)) == trim_end(
                v@.subrange(from as int, j as int),
            ),
        decreases j - from,
    {
        proof {
            assert(v@.subrange(from as int, j as int).drop_last() =~= v@.subrange(
                from as int,
                j - 1,
            ));
        }
        j = j - 1;
    }
    j
}

/// The bounds of `v[from..to]` with surrounding whitespace removed.
pub fn trim_bounds(v: &Vec<char>, from: usize, to: usize) -> (r: (usize, usize))
    requires
        from <= to <= v.len(),
    ensures
        from <= r.0 <= r.1 <= to,
        trim(v@.subrange(from as int, to as int)) == v@.subrange(r.0 as int, r.1 as int),
{
    let i = skip_ws(v, from, to);
    let j = skip_ws_back(v, i, to);
    (i, j)
}

/// `str::trim` into an owned string.
pub fn trimmed(s: &str) -> (r: String)
    ensures
        r@ == trim(s@),
{
    let v = chars_of(s);
    let (i, j) = trim_bounds(&v, 0, v.len());
    proof {
        assert(v@.subrange(0, v@.len() as int) =~= v@);
    }
    string_from_range(&v, i, j)
}

pub open spec fn is_ascii_upper(c: char) -> bool {
    'A' <= c && c <= 'Z'
}

pub open spec fn is_ascii_lower(c: char) -> bool {
    'a' <= c && c <= 'z'
}

pub open spec fn is_ascii_digit(c: char) -> bool {
    '0' <= c && c <= '9'
}

pub open spec fn is_ascii_alnum(c: char) -> bool {
    is_ascii_upper(c) || is_ascii_lower(c) || is_ascii_digit(c)
}

/// `char::to_ascii_lowercase`.
pub open spec fn ascii_lower(c: char) -> char {
    if is_ascii_upper(c) {
        ((c as u32) + 32) as char
    } else {
        c
    }
}

/// Exec form of [`ascii_lower`].
pub fn to_ascii_lower(c: char) -> (r: char)
    ensures
        r == ascii_lower(c),
{
    if 'A' <= c && c <= 'Z' {
        ((c as u8) + 32) as char
    } else {
        c
    }
}

/// Exec form of [`is_ascii_alnum`].
pub fn is_alnum(c: char) -> (b: bool)
    ensures
        b == is_ascii_alnum(c),
{
    ('A' <= c && c <= 'Z') || ('a' <= c && c <= 'z') || ('0' <= c && c <= '9')
}

/// Whether `v` holds the character `c`.
pub fn contains_char(v: &Vec<char>, c: char) -> (b: bool)
    ensures
        b == v@.contains(c),
{
    let mut i: usize = 0;
    while i < v.len()
        invariant
            i <= v.len(),
            forall|k: int| 0 <= k < i ==> v@[k] != c,
        decreases v.len() - i,
    {
        if v[i] == c {
            proof {
                assert(v@[i as int] == c);
            }
            return true;
        }
        i = i + 1;
    }
    false
}

/// Whether `v[at..]` begins with the characters of `p`.
pub fn has_prefix_at(v: &Vec<char>, at: usize, p: &Vec<char>) -> (b: bool)
    requires
        at <= v.len(),
    ensures
        b == (at + p.len() <= v.len() && v@.subrange(at as int, at + p.len()) == p@),
{
    if p.len() > v.len() - at {
        return false;
    }
    let mut k: usize = 0;
    while k < p.len()
        invariant
            at + p.len() <= v.len(),
            k <= p.len(),
            forall|m: int| 0 <= m < k ==> v@[at + m] == p@[m],
        decreases p.len() - k,
    {
        if v[at + k] != p[k] {
            proof {
                assert(v@.subrange(at as int, at + p.len())[k as int] != p@[k as int]);
            }
            return false;
        }
        k = k + 1;
    }
    proof {
        assert(v@.subrange(at as int, at + p.len()) =~= p@);
    }
    true
}

/// Number of bytes in the UTF-8 encoding of one character (`char::len_utf8`).
pub open spec fn utf8_width(c: char) -> nat {
    encode_scalar(c as u32).len()
}

/// Exec form of [`utf8_width`].
pub fn char_utf8_width(c: char) -> (w: usize)
    ensures
        w == utf8_width(c),
{
    proof {
        char_is_scalar(c);
    }
    let u = c as u32;
    if u < 0x80 {
        1
    } else if u < 0x800 {
        2
    } else if u < 0x10000 {
        3
    } else {
        4
    }
}

/// The number of leading characters of `s` whose UTF-8 encoding takes exactly
/// `bytes` bytes, or `None` when `bytes` falls inside a character (or past the end).
pub open spec fn char_offset(s: Seq<char>, bytes: int) -> Option<int>
    decreases s.len(),
{
    if bytes == 0 {
        Some(0)
    } else if s.len() == 0 || bytes < 0 || utf8_width(s[0]) > bytes {
        None
    } else {
        match char_offset(s.drop_first(), bytes - utf8_width(s[0])) {
            Some(k) => Some(k + 1),
            None => None,
        }
    }
}

/// A character offset lies within the sequence.
pub proof fn lemma_char_offset_bound(s: Seq<char>, bytes: int)
    ensures
        char_offset(s, bytes) matches Some(k) ==> 0 <= k <= s.len(),
    decreases s.len(),
{
    if bytes != 0 && s.len() > 0 && bytes >= 0 && utf8_width(s[0]) <= bytes {
        lemma_char_offset_bound(s.drop_first(), bytes - utf8_width(s[0]));
    }
}

/// Exec form of [`char_offset`] on `v[from..to]`; the offset returned is absolute.
pub fn char_offset_in(v: &Vec<char>, from: usize, to: usize, bytes: usize) -> (r: Option<usize>)
    requires
        from <= to <= v.len(),
    ensures
        match char_offset(v@.subrange(from as int, to as int), bytes as int) {
            Some(k) => r == Some((from + k) as usize) && from <= from + k <= to,
            None => r is None,
        },
{
    proof {
        lemma_char_offset_bound(v@.subrange(from as int, to as int), bytes as int);
    }
    let mut k = from;
    let mut rem = bytes;
    while rem > 0
        invariant
            from <= k <= to <= v.len(),
            rem <= bytes,
            char_offset(v@.subrange(from as int, to as int), bytes as int) == match char_offset(
                v@.subrange(k as int, to as int),
                rem as int,
            ) {
                Some(j) => Some(j + (k - from)),
                None => None,
            },
        decreases rem,
    {
        if k == to {
            return None;
        }
        let w = char_utf8_width(v[k]);
        if w > rem {
            return None;
        }
        proof {
            assert(v@.subrange(k as int, to as int).drop_first() =~= v@.subrange(k + 1, to as int));
        }
        rem = rem - w;
        k = k + 1;
    }
    Some(k)
}

} // verus!

verus! {

/// The decimal digit character for `d` (`0 <= d < 10`).
pub open spec fn digit_char(d: int) -> char {
    if d == 0 { '0' }
    else if d == 1 { '1' }
    else if d == 2 { '2' }
    else if d == 3 { '3' }
    else if d == 4 { '4' }
    else if d == 5 { '5' }
    else if d == 6 { '6' }
    else if d == 7 { '7' }
    else if d == 8 { '8' }
    else { '9' }
}

/// The decimal digits of `n`, most significant first, without leading zeros.
pub open spec fn nat_digits(n: nat) -> Seq<char>
    decreases n,
{
    if n < 10 {
        seq![digit_char(n as int)]
    } else {
        nat_digits(n / 10).push(digit_char((n % 10) as int))
    }
}

/// `s` left-padded with `'0'` to at least `width` characters.
pub open spec fn zero_pad(s: Seq<char>, width: nat) -> Seq<char> {
    if s.len() >= width {
        s
    } else {
        Seq::new((width - s.len()) as nat, |i: int| '0') + s
    }
}

/// `v` in decimal as Rust's `{}` prints an integer.
pub open spec fn int_decimal(v: int) -> Seq<char> {
    if v < 0 {
        seq!['-'] + nat_digits((-v) as nat)
    } else {
        nat_digits(v as nat)
    }
}

/// `v` as Rust's `{:0width$}` prints an integer: the sign, then zeros, then the
/// digits, `width` characters in all unless the number is longer.
pub open spec fn int_zero_padded(v: int, width: nat) -> Seq<char> {
    if v < 0 {
        seq!['-'] + zero_pad(nat_digits((-v) as nat), if width > 0 { (width - 1) as nat } else { 0 })
    } else {
        zero_pad(nat_digits(v as nat), width)
    }
}

/// The digit character for `d`.
pub fn digit_of(d: u64) -> (c: char)
    requires
        d < 10,
    ensures
        c == digit_char(d as int),
{
    if d == 0 { '0' }
    else if d == 1 { '1' }
    else if d == 2 { '2' }
    else if d == 3 { '3' }
    else if d == 4 { '4' }
    else if d == 5 { '5' }
    else if d == 6 { '6' }
    else if d == 7 { '7' }
    else if d == 8 { '8' }
    else { '9' }
}

/// Appends the decimal digits of `n`.
pub fn push_digits(s: &mut String, n: u64)
    ensures
        final(s)@ == old(s)@ + nat_digits(n as nat),
    decreases n,
{
    if n >= 10 {
        push_digits(s, n / 10);
    }
    let d = digit_of(n % 10);
    push_char(s, d);
    proof {
        if n >= 10 {
            assert(old(s)@ + nat_digits(n as nat) =~= old(s)@ + nat_digits((n / 10) as nat) + seq![d]);
        } else {
            assert(old(s)@ + nat_digits(n as nat) =~= old(s)@.push(d));
        }
    }
}

/// Appends the decimal digits of `n`, left-padded with `'0'` to `width` characters.
pub fn push_zero_padded(s: &mut String, n: u64, width: usize)
    ensures
        final(s)@ == old(s)@ + zero_pad(nat_digits(n as nat), width as nat),
{
    let mut digits = String::new();
    push_digits(&mut digits, n);
    proof {
        assert(digits@ =~= nat_digits(n as nat));
    }
    let dv = chars_of(digits.as_str());
    let len = dv.len();
    let mut k: usize = len;
    while k < width
        invariant
            len == nat_digits(n as nat).len(),
            len <= k,
            k <= width || k == len,
            s@ == old(s)@ + Seq::new((k - len) as nat, |i: int| '0'),
        decreases width - k,
    {
        push_char(s, '0');
        proof {
            assert(old(s)@ + Seq::new((k + 1 - len) as nat, |i: int| '0') =~= (old(s)@ + Seq::new((k - len) as nat, |i: int| '0')).push('0'));
        }
        k = k + 1;
    }
    let mut i: usize = 0;
    let ghost base = s@;
    while i < len
        invariant
            dv@ == nat_digits(n as nat),
            len == dv@.len(),
            i <= len,
            s@ == base + dv@.subrange(0, i as int),
        decreases len - i,
    {
        push_char(s, dv[i]);
        proof {
            assert(dv@.subrange(0, i + 1) =~= dv@.subrange(0, i as int).push(dv@[i as int]));
        }
        i = i + 1;
    }
    proof {
        assert(dv@.subrange(0, len as int) =~= dv@);
        if len >= width {
            assert(k == len);
            assert(Seq::new((k - len) as nat, |i: int| '0') =~= Seq::<char>::empty());
            assert(s@ =~= old(s)@ + nat_digits(n as nat));
        } else {
            assert(k == width);
            assert(s@ =~= old(s)@ + (Seq::new((width - len) as nat, |i: int| '0') + nat_digits(n as nat)));
        }
    }
}

/// Rust's `{}` rendering of a signed 64-bit integer.
pub fn i64_decimal(v: i64) -> (r: String)
    ensures
        r@ == int_decimal(v as int),
{
    let mut s = String::new();
    if v < 0 {
        push_char(&mut s, '-');
        let m: u64 = if v == i64::MIN { 9223372036854775808u64 } else { (-v) as u64 };
        push_digits(&mut s, m);
        proof {
            assert(s@ =~= seq!['-'] + nat_digits((-v) as nat));
        }
    } else {
        push_digits(&mut s, v as u64);
        proof {
            assert(s@ =~= nat_digits(v as nat));
        }
    }
    s
}

} // verus!

verus! {

/// Appends the characters of `t` (`String::push_str`).
pub fn push_str(s: &mut String, t: &str)
    ensures
        final(s)@ == old(s)@ + t@,
{
    let v = chars_of(t);
    let ghost base = s@;
    let mut i: usize = 0;
    while i < v.len()
        invariant
            v@ == t@,
            i <= v.len(),
            s@ == base + v@.take(i as int),
        decreases v.len() - i,
    {
        push_char(s, v[i]);
        proof {
            assert(v@.take(i + 1) =~= v@.take(i as int).push(v@[i as int]));
            assert(base + v@.take(i + 1) =~= (base + v@.take(i as int)).push(v@[i as int]));
        }
        i = i + 1;
    }
    proof {
        assert(v@.take(v@.len() as int) =~= v@);
    }
}

/// `parts` joined with `sep` between consecutive parts (`[String]::join`).
pub open spec fn join_with(parts: Seq<Seq<char>>, sep: Seq<char>) -> Seq<char>
    decreases parts.len(),
{
    if parts.len() == 0 {
        Seq::empty()
    } else if parts.len() == 1 {
        parts[0]
    } else {
        join_with(parts.drop_last(), sep) + sep + parts.last()
    }
}

/// The strings of `v` joined with `sep`.
pub fn join_strings(v: &Vec<String>, sep: &str) -> (r: String)
    ensures
        r@ == join_with(v@.map_values(|x: String| x@), sep@),
{
    let ghost parts = v@.map_values(|x: String| x@);
    let mut r = String::new();
    let mut i: usize = 0;
    while i < v.len()
        invariant
            parts == v@.map_values(|x: String| x@),
            i <= v.len(),
            r@ == join_with(parts.take(i as int), sep@),
        decreases v.len() - i,
    {
        proof {
            assert(parts.take(i + 1).drop_last() =~= parts.take(i as int));
            assert(parts.take(i + 1).last() == v@[i as int]@);
        }
        if i > 0 {
            push_str(&mut r, sep);
        } else {
            proof {
                assert(parts.take(1) =~= seq![v@[0]@]);
            }
        }
        push_str(&mut r, v[i].as_str());
        i = i + 1;
    }
    proof {
        assert(parts.take(v.len() as int) =~= parts);
    }
    r
}

} // verus!
