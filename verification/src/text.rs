//! Text as a sequence of characters.
//!
//! The contracts of this crate speak of a string as the sequence of its
//! characters. This module holds the operations on strings that the other
//! modules need, each against a short statement over that sequence.

use vstd::prelude::*;

verus! {

/// `String::push` appends one character.
pub assume_specification[ String::push ](s: &mut String, c: char)
    ensures
        final(s)@ == old(s)@.push(c),
;

/// `String::push_str` appends a string slice.
pub assume_specification[ String::push_str ](s: &mut String, other: &str)
    ensures
        final(s)@ == old(s)@ + other@,
;

/// The view of an optional string slice.
pub open spec fn str_view(s: Option<&str>) -> Option<Seq<char>> {
    match s {
        Some(text) => Some(text@),
        None => None,
    }
}

/// The view of an optional string.
pub open spec fn opt_view(s: Option<String>) -> Option<Seq<char>> {
    match s {
        Some(text) => Some(text@),
        None => None,
    }
}

/// The views of a list of strings.
pub open spec fn views(items: Seq<String>) -> Seq<Seq<char>> {
    Seq::new(items.len(), |i: int| items[i]@)
}

/// The characters that Unicode gives the property White_Space.
pub open spec fn is_space(c: char) -> bool {
    ||| '\u{9}' <= c <= '\u{d}'
    ||| c == '\u{20}'
    ||| c == '\u{85}'
    ||| c == '\u{a0}'
    ||| c == '\u{1680}'
    ||| '\u{2000}' <= c <= '\u{200a}'
    ||| c == '\u{2028}'
    ||| c == '\u{2029}'
    ||| c == '\u{202f}'
    ||| c == '\u{205f}'
    ||| c == '\u{3000}'
}

/// `s` without the white space it begins with.
pub open spec fn trim_start(s: Seq<char>) -> Seq<char>
    decreases s.len(),
{
    if s.len() > 0 && is_space(s[0]) {
        trim_start(s.subrange(1, s.len() as int))
    } else {
        s
    }
}

/// `s` without the white space it ends with.
pub open spec fn trim_end(s: Seq<char>) -> Seq<char>
    decreases s.len(),
{
    if s.len() > 0 && is_space(s[s.len() - 1]) {
        trim_end(s.subrange(0, s.len() - 1))
    } else {
        s
    }
}

/// `s` without the white space around it.
pub open spec fn trim(s: Seq<char>) -> Seq<char> {
    trim_end(trim_start(s))
}

/// An ASCII upper case letter becomes its lower case letter; any other
/// character stays.
pub open spec fn lower_char(c: char) -> char {
    if 'A' <= c <= 'Z' {
        ((c as u32 + 32) as u32) as char
    } else {
        c
    }
}

/// `s` with every ASCII letter in lower case.
pub open spec fn lower(s: Seq<char>) -> Seq<char> {
    Seq::new(s.len(), |i: int| lower_char(s[i]))
}

/// `s` begins with `p`.
pub open spec fn starts_with(s: Seq<char>, p: Seq<char>) -> bool {
    p.len() <= s.len() && s.subrange(0, p.len() as int) == p
}

/// `p` stands in `s` at position `i`.
pub open spec fn occurs_at(s: Seq<char>, p: Seq<char>, i: int) -> bool {
    0 <= i && i + p.len() <= s.len() && s.subrange(i, i + p.len()) == p
}

/// `p` stands somewhere in `s`.
pub open spec fn contains(s: Seq<char>, p: Seq<char>) -> bool {
    exists|i: int| #[trigger] occurs_at(s, p, i)
}

/// The position of the first `c` in `s`, or the length of `s`.
pub open spec fn index_of_char(s: Seq<char>, c: char) -> int
    decreases s.len(),
{
    if s.len() == 0 || s[0] == c {
        0
    } else {
        1 + index_of_char(s.subrange(1, s.len() as int), c)
    }
}

/// What follows the first `p` in `s`, where there is one.
pub open spec fn after_first(s: Seq<char>, p: Seq<char>) -> Option<Seq<char>>
    decreases s.len(),
{
    if starts_with(s, p) {
        Some(s.subrange(p.len() as int, s.len() as int))
    } else if s.len() == 0 {
        None
    } else {
        after_first(s.subrange(1, s.len() as int), p)
    }
}

/// The pieces of `s` between the characters `c`.
pub open spec fn pieces(s: Seq<char>, c: char) -> Seq<Seq<char>>
    decreases s.len(),
{
    let i = index_of_char(s, c);
    if 0 <= i < s.len() {
        seq![s.subrange(0, i)] + pieces(s.subrange(i + 1, s.len() as int), c)
    } else {
        seq![s]
    }
}

/// The lines, with a line break between any two.
pub open spec fn join_lines(lines: Seq<Seq<char>>) -> Seq<char>
    decreases lines.len(),
{
    if lines.len() == 0 {
        Seq::empty()
    } else if lines.len() == 1 {
        lines[0]
    } else {
        join_lines(lines.drop_last()) + "\n"@ + lines.last()
    }
}

/// `s` without the copies of `p` that it begins with.
pub open spec fn strip_all(s: Seq<char>, p: Seq<char>) -> Seq<char>
    decreases s.len(),
{
    if p.len() > 0 && starts_with(s, p) {
        strip_all(s.subrange(p.len() as int, s.len() as int), p)
    } else {
        s
    }
}

/// `s` without the characters `c` that it ends with.
pub open spec fn trim_end_char(s: Seq<char>, c: char) -> Seq<char>
    decreases s.len(),
{
    if s.len() > 0 && s[s.len() - 1] == c {
        trim_end_char(s.subrange(0, s.len() - 1), c)
    } else {
        s
    }
}

/// `s` ends with `p`.
pub open spec fn ends_with(s: Seq<char>, p: Seq<char>) -> bool {
    p.len() <= s.len() && s.subrange(s.len() - p.len(), s.len() as int) == p
}

/// The first `n` characters of `s`.
pub open spec fn take(s: Seq<char>, n: int) -> Seq<char> {
    if s.len() <= n {
        s
    } else {
        s.subrange(0, n)
    }
}

/// Some character of `s` is white space.
pub open spec fn has_space(s: Seq<char>) -> bool {
    exists|i: int| 0 <= i < s.len() && is_space(#[trigger] s[i])
}

/// The number of bytes of `s` in UTF-8.
pub open spec fn byte_len(s: Seq<char>) -> nat {
    vstd::utf8::encode_utf8(s).len()
}

/// `n` in lower case hexadecimal.
pub open spec fn hex_number(n: nat) -> Seq<char>
    decreases n,
{
    if n < 16 {
        seq![hex_char(n as int)]
    } else {
        hex_number(n / 16).push(hex_char((n % 16) as int))
    }
}

/// The decimal digit `d`.
pub open spec fn digit_char(d: nat) -> char {
    ((48 + d) as u32) as char
}

/// `n` in decimal.
pub open spec fn decimal(n: nat) -> Seq<char>
    decreases n,
{
    if n < 10 {
        seq![digit_char(n)]
    } else {
        decimal(n / 10).push(digit_char(n % 10))
    }
}

/// The lower case hexadecimal digit `d`.
pub open spec fn hex_char(d: int) -> char {
    if d < 10 {
        ((48 + d) as u32) as char
    } else {
        ((87 + d) as u32) as char
    }
}

/// A lower case hexadecimal digit.
pub open spec fn is_hex_char(c: char) -> bool {
    '0' <= c <= '9' || 'a' <= c <= 'f'
}

/// Two lower case hexadecimal digits for each byte.
pub open spec fn hex(bytes: Seq<u8>) -> Seq<char> {
    Seq::new(
        2 * bytes.len(),
        |i: int|
            if i % 2 == 0 {
                hex_char((bytes[i / 2] / 16) as int)
            } else {
                hex_char((bytes[i / 2] % 16) as int)
            },
    )
}

/// What has no white space around it stays as it is.
pub proof fn lemma_trim_twice(s: Seq<char>)
    ensures
        trim(trim(s)) == trim(s),
{
    lemma_trim_start(s);
    lemma_trim_end(trim_start(s));
    let t = trim(s);
    if t.len() > 0 {
        assert(t[0] == trim_start(s)[0]);
    }
}

proof fn lemma_trim_start(s: Seq<char>)
    ensures
        trim_start(s).len() > 0 ==> !is_space(trim_start(s)[0]),
    decreases s.len(),
{
    if s.len() > 0 && is_space(s[0]) {
        lemma_trim_start(s.subrange(1, s.len() as int));
    }
}

proof fn lemma_trim_end(s: Seq<char>)
    ensures
        trim_end(s).len() > 0 ==> !is_space(trim_end(s)[trim_end(s).len() - 1]) && trim_end(s)[0]
            == s[0],
        trim_end(s).len() <= s.len(),
    decreases s.len(),
{
    if s.len() > 0 && is_space(s[s.len() - 1]) {
        lemma_trim_end(s.subrange(0, s.len() - 1));
    }
}

/// The characters of a string, in order.
pub fn chars_of(s: &str) -> (r: Vec<char>)
    ensures
        r@ == s@,
{
    let mut r: Vec<char> = Vec::new();
    for c in it: s.chars()
        invariant
            it.seq() == s@,
            r@ == it.seq().subrange(0, it.index() as int),
    {
        r.push(c);
    }
    r
}

/// The string made of the characters `c[from..to]`.
pub fn string_of(c: &Vec<char>, from: usize, to: usize) -> (r: String)
    requires
        from <= to <= c.len(),
    ensures
        r@ == c@.subrange(from as int, to as int),
{
    let mut r = String::new();
    let mut i: usize = from;
    while i < to
        invariant
            from <= i <= to <= c.len(),
            r@ == c@.subrange(from as int, i as int),
        decreases to - i,
    {
        r.push(c[i]);
        i = i + 1;
        assert(c@.subrange(from as int, i as int) =~= c@.subrange(from as int, i - 1).push(
            c@[i - 1],
        ));
    }
    r
}

/// Two strings hold the same characters.
pub fn same(a: &str, b: &str) -> (r: bool)
    ensures
        r == (a@ == b@),
{
    let x = a.as_bytes();
    let y = b.as_bytes();
    proof {
        vstd::utf8::encode_utf8_decode_utf8(a@);
        vstd::utf8::encode_utf8_decode_utf8(b@);
    }
    if x.len() != y.len() {
        return false;
    }
    let mut i: usize = 0;
    while i < x.len()
        invariant
            i <= x.len(),
            x.len() == y.len(),
            x@ == vstd::utf8::encode_utf8(a@),
            y@ == vstd::utf8::encode_utf8(b@),
            forall|j: int| 0 <= j < i ==> x@[j] == y@[j],
        decreases x.len() - i,
    {
        if x[i] != y[i] {
            return false;
        }
        i = i + 1;
    }
    assert(x@ =~= y@);
    true
}

/// The string is one of `items`.
pub fn is_one_of(s: &str, items: &Vec<String>) -> (r: bool)
    ensures
        r == exists|i: int| 0 <= i < items.len() && #[trigger] items@[i]@ == s@,
{
    let mut i: usize = 0;
    while i < items.len()
        invariant
            i <= items.len(),
            forall|j: int| 0 <= j < i ==> #[trigger] items@[j]@ != s@,
        decreases items.len() - i,
    {
        if same(items[i].as_str(), s) {
            return true;
        }
        i = i + 1;
    }
    false
}

/// The character is white space.
pub fn space(c: char) -> (r: bool)
    ensures
        r == is_space(c),
{
    ('\u{9}' <= c && c <= '\u{d}') || c == '\u{20}' || c == '\u{85}' || c == '\u{a0}' || c
        == '\u{1680}' || ('\u{2000}' <= c && c <= '\u{200a}') || c == '\u{2028}' || c == '\u{2029}'
        || c == '\u{202f}' || c == '\u{205f}' || c == '\u{3000}'
}

/// The string without the white space around it.
pub fn trimmed(s: &str) -> (r: &str)
    ensures
        r@ == trim(s@),
{
    let c = chars_of(s);
    let mut from: usize = 0;
    assert(c@.subrange(0, c@.len() as int) =~= s@);
    while from < c.len() && space(c[from])
        invariant
            from <= c.len(),
            c@ == s@,
            trim_start(s@) == trim_start(c@.subrange(from as int, c@.len() as int)),
        decreases c.len() - from,
    {
        assert(c@.subrange(from as int, c@.len() as int).subrange(
            1,
            c@.len() - from,
        ) =~= c@.subrange(from + 1, c@.len() as int));
        from = from + 1;
    }
    let mut to: usize = c.len();
    let ghost rest = c@.subrange(from as int, c@.len() as int);
    while to > from && space(c[to - 1])
        invariant
            from <= to <= c.len(),
            c@ == s@,
            trim_start(s@) == rest,
            rest == c@.subrange(from as int, c@.len() as int),
            trim_end(rest) == trim_end(c@.subrange(from as int, to as int)),
        decreases to,
    {
        assert(c@.subrange(from as int, to as int).subrange(0, to - from - 1) =~= c@.subrange(
            from as int,
            to - 1,
        ));
        to = to - 1;
    }
    s.substring_char(from, to)
}

/// The string without the white space it begins with.
pub fn trimmed_start(s: &str) -> (r: &str)
    ensures
        r@ == trim_start(s@),
{
    let c = chars_of(s);
    let mut from: usize = 0;
    assert(c@.subrange(0, c@.len() as int) =~= s@);
    while from < c.len() && space(c[from])
        invariant
            from <= c.len(),
            c@ == s@,
            trim_start(s@) == trim_start(c@.subrange(from as int, c@.len() as int)),
        decreases c.len() - from,
    {
        assert(c@.subrange(from as int, c@.len() as int).subrange(
            1,
            c@.len() - from,
        ) =~= c@.subrange(from + 1, c@.len() as int));
        from = from + 1;
    }
    s.substring_char(from, c.len())
}

/// The string with every ASCII letter in lower case.
pub fn lowered(s: &str) -> (r: String)
    ensures
        r@ == lower(s@),
{
    let c = chars_of(s);
    let mut r = String::new();
    let mut i: usize = 0;
    while i < c.len()
        invariant
            i <= c.len(),
            c@ == s@,
            r@ == lower(s@.subrange(0, i as int)),
        decreases c.len() - i,
    {
        let l = if 'A' <= c[i] && c[i] <= 'Z' {
            ((c[i] as u8) + 32) as char
        } else {
            c[i]
        };
        r.push(l);
        i = i + 1;
        assert(r@ =~= lower(s@.subrange(0, i as int)));
    }
    assert(s@.subrange(0, i as int) =~= s@);
    r
}

/// The characters `c` hold `p` at position `i`.
fn stands_at(c: &Vec<char>, p: &Vec<char>, i: usize) -> (r: bool)
    requires
        i <= c.len(),
    ensures
        r == occurs_at(c@, p@, i as int),
{
    if p.len() > c.len() - i {
        return false;
    }
    let mut j: usize = 0;
    while j < p.len()
        invariant
            j <= p.len(),
            i + p.len() <= c.len(),
            forall|k: int| 0 <= k < j ==> c@[i + k] == p@[k],
        decreases p.len() - j,
    {
        if c[i + j] != p[j] {
            assert(c@.subrange(i as int, i + p.len())[j as int] != p@[j as int]);
            return false;
        }
        j = j + 1;
    }
    assert(c@.subrange(i as int, i + p.len()) =~= p@);
    true
}

/// `s` begins with `p`.
pub fn begins_with(s: &str, p: &str) -> (r: bool)
    ensures
        r == starts_with(s@, p@),
{
    let c = chars_of(s);
    let q = chars_of(p);
    stands_at(&c, &q, 0)
}

/// What follows `p` at the start of `s`.
pub fn strip<'a>(s: &'a str, p: &str) -> (r: Option<&'a str>)
    ensures
        r is Some == starts_with(s@, p@),
        r matches Some(rest) ==> rest@ == s@.subrange(p@.len() as int, s@.len() as int),
{
    if begins_with(s, p) {
        let from: usize = p.unicode_len();
        let to: usize = s.unicode_len();
        Some(s.substring_char(from, to))
    } else {
        None
    }
}

/// `p` stands somewhere in `s`.
pub fn has(s: &str, p: &str) -> (r: bool)
    ensures
        r == contains(s@, p@),
{
    let c = chars_of(s);
    let q = chars_of(p);
    let mut i: usize = 0;
    loop
        invariant
            i <= c.len(),
            c@ == s@,
            q@ == p@,
            forall|j: int| 0 <= j < i ==> !#[trigger] occurs_at(s@, p@, j),
        decreases c.len() - i,
    {
        if stands_at(&c, &q, i) {
            return true;
        }
        if i == c.len() {
            return false;
        }
        i = i + 1;
    }
}

/// The string splits at its first `c` into what stands before and after it.
pub fn split_at_char(s: &str, c: char) -> (r: Option<(&str, &str)>)
    ensures
        r is Some == s@.contains(c),
        r matches Some((a, b)) ==> {
            &&& a@ == s@.subrange(0, index_of_char(s@, c))
            &&& b@ == s@.subrange(index_of_char(s@, c) + 1, s@.len() as int)
        },
{
    let v = chars_of(s);
    let mut i: usize = 0;
    assert(s@.subrange(0, s@.len() as int) =~= s@);
    while i < v.len() && v[i] != c
        invariant
            i <= v.len(),
            v@ == s@,
            forall|j: int| 0 <= j < i ==> v@[j] != c,
            index_of_char(s@, c) == i + index_of_char(s@.subrange(i as int, s@.len() as int), c),
        decreases v.len() - i,
    {
        assert(s@.subrange(i as int, s@.len() as int).subrange(1, s@.len() - i) =~= s@.subrange(
            i + 1,
            s@.len() as int,
        ));
        i = i + 1;
    }
    if i < v.len() {
        assert(s@[i as int] == c);
        Some((s.substring_char(0, i), s.substring_char(i + 1, v.len())))
    } else {
        None
    }
}

/// What follows the first `p` in `s`, where there is one.
pub fn rest_after<'a>(s: &'a str, p: &str) -> (r: Option<&'a str>)
    ensures
        match r {
            Some(rest) => after_first(s@, p@) == Some(rest@),
            None => after_first(s@, p@) is None,
        },
{
    let c = chars_of(s);
    let q = chars_of(p);
    let mut i: usize = 0;
    assert(s@.subrange(0, s@.len() as int) =~= s@);
    loop
        invariant
            i <= c.len(),
            c@ == s@,
            q@ == p@,
            after_first(s@, p@) == after_first(s@.subrange(i as int, s@.len() as int), p@),
        decreases c.len() - i,
    {
        let ghost rest = s@.subrange(i as int, s@.len() as int);
        proof {
            if i + q.len() <= c.len() {
                assert(rest.subrange(0, q@.len() as int) =~= s@.subrange(i as int, i + q@.len()));
                assert(rest.subrange(q@.len() as int, rest.len() as int) =~= s@.subrange(
                    i + q@.len(),
                    s@.len() as int,
                ));
            }
        }
        if stands_at(&c, &q, i) {
            return Some(s.substring_char(i + q.len(), c.len()));
        }
        if i == c.len() {
            return None;
        }
        assert(rest.subrange(1, rest.len() as int) =~= s@.subrange(i + 1, s@.len() as int));
        i = i + 1;
    }
}

proof fn lemma_index_of_char(s: Seq<char>, c: char)
    ensures
        0 <= index_of_char(s, c) <= s.len(),
        (index_of_char(s, c) < s.len()) == s.contains(c),
    decreases s.len(),
{
    if s.len() > 0 && s[0] != c {
        let rest = s.subrange(1, s.len() as int);
        lemma_index_of_char(rest, c);
        if rest.contains(c) {
            let i = choose|i: int| 0 <= i < rest.len() && rest[i] == c;
            assert(s[i + 1] == c);
        }
        if s.contains(c) {
            let i = choose|i: int| 0 <= i < s.len() && s[i] == c;
            assert(rest[i - 1] == c);
        }
    } else if s.len() > 0 {
        assert(s[0] == c);
    }
}

/// The pieces of `s` between the characters `c`.
pub fn split(s: &str, c: char) -> (r: Vec<String>)
    ensures
        views(r@) == pieces(s@, c),
{
    let mut r: Vec<String> = Vec::new();
    let mut rest = s;
    assert(views(r@) + pieces(rest@, c) =~= pieces(s@, c));
    loop
        invariant
            views(r@) + pieces(rest@, c) == pieces(s@, c),
        decreases rest@.len(),
    {
        proof {
            lemma_index_of_char(rest@, c);
        }
        let ghost before = views(r@);
        let ghost whole = rest@;
        match split_at_char(rest, c) {
            Some((piece, tail)) => {
                r.push(piece.to_owned());
                rest = tail;
                assert(views(r@) =~= before.push(piece@));
                assert(before + pieces(whole, c) =~= views(r@) + pieces(rest@, c));
            },
            None => {
                r.push(rest.to_owned());
                assert(views(r@) =~= before + pieces(whole, c));
                return r;
            },
        }
    }
}

/// The lines, with a line break between any two.
pub fn joined_lines(lines: &Vec<String>) -> (r: String)
    ensures
        r@ == join_lines(views(lines@)),
{
    let mut r = String::new();
    let mut i: usize = 0;
    let ghost all = views(lines@);
    assert(all.subrange(0, 0) =~= Seq::empty());
    while i < lines.len()
        invariant
            i <= lines.len(),
            all == views(lines@),
            r@ == join_lines(all.subrange(0, i as int)),
        decreases lines.len() - i,
    {
        let ghost before = all.subrange(0, i as int);
        if i > 0 {
            r.push_str("\n");
        }
        r.push_str(lines[i].as_str());
        i = i + 1;
        assert(all.subrange(0, i as int).drop_last() =~= before);
        assert(all.subrange(0, i as int).last() == lines@[i - 1]@);
        if i == 1 {
            assert(Seq::<char>::empty() + lines@[0]@ =~= lines@[0]@);
        }
    }
    assert(all.subrange(0, i as int) =~= all);
    r
}

/// The string without any character is empty.
pub fn blank(s: &str) -> (r: bool)
    ensures
        r == (trim(s@).len() == 0),
{
    trimmed(s).is_empty()
}

/// `n` in decimal.
pub fn decimal_text(n: u64) -> (r: String)
    ensures
        r@ == decimal(n as nat),
    decreases n,
{
    if n < 10 {
        let mut r = String::new();
        r.push((48 + n as u8) as char);
        assert(r@ =~= decimal(n as nat));
        r
    } else {
        let mut r = decimal_text(n / 10);
        r.push((48 + (n % 10) as u8) as char);
        r
    }
}

/// The lower case hexadecimal digit of `d`.
fn hex_digit(d: u8) -> (r: char)
    requires
        d < 16,
    ensures
        r == hex_char(d as int),
{
    if d < 10 {
        (48 + d) as char
    } else {
        (87 + d) as char
    }
}

/// Two lower case hexadecimal digits for each byte.
pub fn hex_text(bytes: &[u8]) -> (r: String)
    ensures
        r@ == hex(bytes@),
{
    let mut r = String::new();
    let mut i: usize = 0;
    while i < bytes.len()
        invariant
            i <= bytes.len(),
            r@ == hex(bytes@.subrange(0, i as int)),
        decreases bytes.len() - i,
    {
        r.push(hex_digit(bytes[i] / 16));
        r.push(hex_digit(bytes[i] % 16));
        i = i + 1;
        assert(r@ =~= hex(bytes@.subrange(0, i as int)));
    }
    assert(bytes@.subrange(0, i as int) =~= bytes@);
    r
}

/// `s` without the copies of `p` that it begins with.
pub fn stripped_all<'a>(s: &'a str, p: &str) -> (r: &'a str)
    requires
        p@.len() > 0,
    ensures
        r@ == strip_all(s@, p@),
    decreases s@.len(),
{
    match strip(s, p) {
        Some(rest) => stripped_all(rest, p),
        None => s,
    }
}

/// `s` without the characters `c` that it ends with.
pub fn trimmed_end_char(s: &str, c: char) -> (r: &str)
    ensures
        r@ == trim_end_char(s@, c),
{
    let v = chars_of(s);
    let mut to: usize = v.len();
    assert(v@.subrange(0, to as int) =~= s@);
    while to > 0 && v[to - 1] == c
        invariant
            to <= v.len(),
            v@ == s@,
            trim_end_char(s@, c) == trim_end_char(v@.subrange(0, to as int), c),
        decreases to,
    {
        assert(v@.subrange(0, to as int).subrange(0, to - 1) =~= v@.subrange(0, to - 1));
        to = to - 1;
    }
    s.substring_char(0, to)
}

/// `s` ends with `p`.
pub fn finishes_with(s: &str, p: &str) -> (r: bool)
    ensures
        r == ends_with(s@, p@),
{
    let c = chars_of(s);
    let q = chars_of(p);
    if q.len() > c.len() {
        return false;
    }
    let i: usize = c.len() - q.len();
    let r = stands_at(&c, &q, i);
    assert(i + q@.len() == s@.len());
    r
}

/// The first `n` characters of `s`.
pub fn taken(s: &str, n: usize) -> (r: String)
    ensures
        r@ == take(s@, n as int),
{
    let len: usize = s.unicode_len();
    if len <= n {
        s.to_owned()
    } else {
        s.substring_char(0, n).to_owned()
    }
}

/// Some character of `s` is white space.
pub fn spaced(s: &str) -> (r: bool)
    ensures
        r == has_space(s@),
{
    let c = chars_of(s);
    let mut i: usize = 0;
    while i < c.len()
        invariant
            i <= c.len(),
            c@ == s@,
            forall|j: int| 0 <= j < i ==> !is_space(#[trigger] c@[j]),
        decreases c.len() - i,
    {
        if space(c[i]) {
            return true;
        }
        i = i + 1;
    }
    false
}

/// The number of bytes of `s` in UTF-8.
pub fn bytes_in(s: &str) -> (r: usize)
    ensures
        r == byte_len(s@),
{
    s.as_bytes().len()
}

/// `n` in lower case hexadecimal.
pub fn hex_number_text(n: u64) -> (r: String)
    ensures
        r@ == hex_number(n as nat),
    decreases n,
{
    if n < 16 {
        let mut r = String::new();
        r.push(hex_digit(n as u8));
        assert(r@ =~= hex_number(n as nat));
        r
    } else {
        let mut r = hex_number_text(n / 16);
        r.push(hex_digit((n % 16) as u8));
        r
    }
}

/// The text holds hexadecimal digits alone.
pub open spec fn all_hex(s: Seq<char>) -> bool {
    forall|i: int| 0 <= i < s.len() ==> is_hex_char(#[trigger] s[i])
}

/// A string of `n` lower case hexadecimal digits, chosen at random.
pub fn random_hex(n: usize) -> (r: String)
    ensures
        r@.len() == n,
        forall|i: int| 0 <= i < n ==> is_hex_char(#[trigger] r@[i]),
{
    let mut r = String::new();
    let mut i: usize = 0;
    while i < n
        invariant
            i <= n,
            r@.len() == i,
            forall|j: int| 0 <= j < i ==> is_hex_char(#[trigger] r@[j]),
        decreases n - i,
    {
        r.push(hex_digit(crate::outside::random_byte() % 16));
        i = i + 1;
    }
    r
}

/// A copy of an optional string.
pub fn dup_opt(s: &Option<String>) -> (r: Option<String>)
    ensures
        r == *s,
{
    match s {
        Some(v) => Some(v.clone()),
        None => None,
    }
}

/// The concatenation of two strings.
pub fn join2(a: &str, b: &str) -> (r: String)
    ensures
        r@ == a@ + b@,
{
    let mut r = a.to_owned();
    r.push_str(b);
    r
}

/// The concatenation of three strings.
pub fn join3(a: &str, b: &str, c: &str) -> (r: String)
    ensures
        r@ == a@ + b@ + c@,
{
    let mut r = a.to_owned();
    r.push_str(b);
    r.push_str(c);
    r
}

/// The items, with `sep` between any two.
pub open spec fn join(items: Seq<Seq<char>>, sep: Seq<char>) -> Seq<char>
    decreases items.len(),
{
    if items.len() == 0 {
        Seq::empty()
    } else if items.len() == 1 {
        items[0]
    } else {
        join(items.drop_last(), sep) + sep + items.last()
    }
}

/// The items, with `sep` between any two.
pub fn joined(items: &Vec<String>, sep: &str) -> (r: String)
    ensures
        r@ == join(views(items@), sep@),
{
    let mut r = String::new();
    let mut i: usize = 0;
    let ghost all = views(items@);
    assert(all.subrange(0, 0) =~= Seq::empty());
    while i < items.len()
        invariant
            i <= items.len(),
            all == views(items@),
            r@ == join(all.subrange(0, i as int), sep@),
        decreases items.len() - i,
    {
        let ghost before = all.subrange(0, i as int);
        if i > 0 {
            r.push_str(sep);
        }
        r.push_str(items[i].as_str());
        i = i + 1;
        assert(all.subrange(0, i as int).drop_last() =~= before);
        assert(all.subrange(0, i as int).last() == items@[i - 1]@);
        if i == 1 {
            assert(Seq::<char>::empty() + items@[0]@ =~= items@[0]@);
        }
    }
    assert(all.subrange(0, i as int) =~= all);
    r
}

/// The number that decimal digits write; nothing where a character is no
/// digit.
pub open spec fn digits_value(s: Seq<char>) -> Option<nat>
    decreases s.len(),
{
    if s.len() == 0 {
        Some(0)
    } else {
        match digits_value(s.drop_last()) {
            Some(v) => if '0' <= s.last() <= '9' {
                Some((10 * v + (s.last() as int - 48)) as nat)
            } else {
                None
            },
            None => None,
        }
    }
}

proof fn lemma_digits_grow(s: Seq<char>, i: int)
    requires
        0 <= i <= s.len(),
    ensures
        digits_value(s) matches Some(v) ==> digits_value(s.subrange(0, i)) matches Some(w) && w
            <= v,
    decreases s.len() - i,
{
    if i == s.len() {
        assert(s.subrange(0, i) =~= s);
    } else {
        lemma_digits_grow(s, i + 1);
        assert(s.subrange(0, i + 1).drop_last() =~= s.subrange(0, i));
    }
}

/// The magnitude that one or more decimal digits write, where it is at most
/// `max`.
fn magnitude(s: &str, max: u64) -> (r: Option<u64>)
    ensures
        r == small_value(s@, max),
{
    let c = chars_of(s);
    if c.len() == 0 {
        return None;
    }
    let mut value: u64 = 0;
    let mut i: usize = 0;
    assert(s@.subrange(0, 0) =~= Seq::empty());
    while i < c.len()
        invariant
            i <= c.len(),
            c@ == s@,
            c@.len() > 0,
            value <= max,
            digits_value(s@.subrange(0, i as int)) == Some(value as nat),
        decreases c.len() - i,
    {
        let ghost upto = s@.subrange(0, i + 1);
        proof {
            assert(upto.drop_last() =~= s@.subrange(0, i as int));
            lemma_digits_grow(s@, i + 1);
        }
        if !('0' <= c[i] && c[i] <= '9') {
            return None;
        }
        let digit: u64 = (c[i] as u64) - 48;
        if value > (max / 10) {
            return None;
        }
        let tens: u64 = value * 10;
        if digit > max - tens {
            return None;
        }
        value = tens + digit;
        i = i + 1;
    }
    assert(s@.subrange(0, i as int) =~= s@);
    Some(value)
}

/// The number that one or more decimal digits write, where it is at most
/// `max`.
pub open spec fn small_value(s: Seq<char>, max: u64) -> Option<u64> {
    if s.len() == 0 {
        None
    } else {
        match digits_value(s) {
            Some(v) => if v <= max {
                Some(v as u64)
            } else {
                None
            },
            None => None,
        }
    }
}

/// The value of a decimal number of 64 bits without a sign; a plus sign may
/// stand before it.
pub open spec fn unsigned_value(s: Seq<char>) -> Option<u64> {
    if starts_with(s, "+"@) {
        small_value(s.subrange("+"@.len() as int, s.len() as int), u64::MAX)
    } else {
        small_value(s, u64::MAX)
    }
}

/// The value of a decimal number of 64 bits without a sign; a plus sign may
/// stand before it.
pub fn parse_unsigned(s: &str) -> (r: Option<u64>)
    ensures
        r == unsigned_value(s@),
{
    match strip(s, "+") {
        Some(rest) => magnitude(rest, u64::MAX),
        None => magnitude(s, u64::MAX),
    }
}

/// The value of a decimal number of 64 bits with a sign.
pub open spec fn signed_value(s: Seq<char>) -> Option<i64> {
    if starts_with(s, "-"@) {
        match small_value(s.subrange("-"@.len() as int, s.len() as int), 0x8000_0000_0000_0000) {
            Some(v) => Some((-v) as i64),
            None => None,
        }
    } else {
        match small_value(
            if starts_with(s, "+"@) {
                s.subrange("+"@.len() as int, s.len() as int)
            } else {
                s
            },
            0x7fff_ffff_ffff_ffff,
        ) {
            Some(v) => Some(v as i64),
            None => None,
        }
    }
}

/// The value of a decimal number of 64 bits with a sign.
pub fn parse_signed(s: &str) -> (r: Option<i64>)
    ensures
        r == signed_value(s@),
{
    if let Some(rest) = strip(s, "-") {
        match magnitude(rest, 0x8000_0000_0000_0000) {
            Some(v) => if v == 0x8000_0000_0000_0000 {
                Some(i64::MIN)
            } else {
                Some(-(v as i64))
            },
            None => None,
        }
    } else {
        let digits = match strip(s, "+") {
            Some(rest) => rest,
            None => s,
        };
        match magnitude(digits, 0x7fff_ffff_ffff_ffff) {
            Some(v) => Some(v as i64),
            None => None,
        }
    }
}

} // verus!
