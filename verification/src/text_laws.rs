//! What holds of texts and their parts.

use crate::text;
use vstd::prelude::*;

verus! {

/// The decimal digits of a number say the number: read as digits they give it
/// back, and no two numbers have the same.
pub proof fn law_decimal_digits_say_the_number(n: nat)
    ensures
        text::digits_value(text::decimal(n)) == Some(n),
        text::decimal(n).len() > 0,
        n > 0 ==> text::decimal(n)[0] != '0',
    decreases n,
{
    let all = text::decimal(n);
    if n < 10 {
        assert(all.drop_last() =~= Seq::empty());
        assert(text::digits_value(all.drop_last()) == Some(0nat));
        assert(all.last() as int == 48 + n);
        assert('0' <= all.last() <= '9');
    } else {
        law_decimal_digits_say_the_number(n / 10);
        assert(all.drop_last() =~= text::decimal(n / 10));
        assert(all.last() as int == 48 + n % 10);
        assert(all[0] == text::decimal(n / 10)[0]);
    }
}

/// The digits of bytes say the bytes: two for each, the high half first.
pub proof fn law_hexadecimal_digits_say_the_bytes(bytes: Seq<u8>, i: int)
    requires
        0 <= i < bytes.len(),
    ensures
        text::hex(bytes).len() == 2 * bytes.len(),
        hex_value(text::hex(bytes)[2 * i]) * 16 + hex_value(text::hex(bytes)[2 * i + 1])
            == bytes[i],
        text::is_hex_char(text::hex(bytes)[2 * i]),
        text::is_hex_char(text::hex(bytes)[2 * i + 1]),
{
    let all = text::hex(bytes);
    let high = (bytes[i] / 16) as int;
    let low = (bytes[i] % 16) as int;
    assert((2 * i) % 2 == 0 && (2 * i) / 2 == i);
    assert((2 * i + 1) % 2 == 1 && (2 * i + 1) / 2 == i);
    assert(all[2 * i] == text::hex_char(high));
    assert(all[2 * i + 1] == text::hex_char(low));
    assert(text::hex_char(high) as int == (if high < 10 {
        48 + high
    } else {
        87 + high
    }));
    assert(text::hex_char(low) as int == (if low < 10 {
        48 + low
    } else {
        87 + low
    }));
}

/// What a hexadecimal digit counts.
pub open spec fn hex_value(c: char) -> int {
    if '0' <= c <= '9' {
        c as int - 48
    } else {
        c as int - 87
    }
}

/// Trimming takes white space alone, from the ends alone: what is left is a
/// part of the text that neither begins nor ends with white space, and all that
/// was taken is white space.
pub proof fn law_trimming_takes_white_space_alone(s: Seq<char>)
    ensures
        ({
            let t = text::trim(s);
            &&& t.len() > 0 ==> !text::is_space(t[0]) && !text::is_space(t[t.len() - 1])
            &&& exists|a: int, b: int|
                0 <= a <= b <= s.len() && t == #[trigger] s.subrange(a, b) && (forall|i: int|
                    0 <= i < a || b <= i < s.len() ==> text::is_space(#[trigger] s[i]))
            &&& s.len() > 0 && !text::is_space(s[0]) ==> t.len() > 0
            &&& s.len() > 0 && !text::is_space(s[0]) && !text::is_space(s[s.len() - 1]) ==> t == s
        }),
        text::trim(s) == s && s.len() > 0 ==> !text::is_space(s[0]),
{
    let a = lemma_trim_start_at(s);
    let rest = text::trim_start(s);
    let n = lemma_trim_end_at(rest);
    let t = text::trim(s);
    assert(t =~= s.subrange(a, a + n));
    assert forall|i: int| 0 <= i < a || a + n <= i < s.len() implies text::is_space(
        #[trigger] s[i],
    ) by {
        if i >= a + n {
            assert(rest[i - a] == s[i]);
        }
    }
    if s.len() > 0 && !text::is_space(s[0]) {
        assert(a == 0);
        assert(rest =~= s);
        if n == 0 {
            assert(text::is_space(rest[0]));
        }
        if !text::is_space(s[s.len() - 1]) && n < s.len() {
            assert(text::is_space(rest[s.len() - 1]));
        }
    }
    if t.len() > 0 {
        assert(t[0] == rest[0]);
        assert(rest[0] == s[a]);
    }
}

proof fn lemma_trim_start_at(s: Seq<char>) -> (a: int)
    ensures
        0 <= a <= s.len(),
        text::trim_start(s) == s.subrange(a, s.len() as int),
        forall|i: int| 0 <= i < a ==> text::is_space(#[trigger] s[i]),
        a < s.len() ==> !text::is_space(s[a]),
    decreases s.len(),
{
    if s.len() > 0 && text::is_space(s[0]) {
        let rest = s.subrange(1, s.len() as int);
        let b = lemma_trim_start_at(rest);
        assert(rest.subrange(b, rest.len() as int) =~= s.subrange(b + 1, s.len() as int));
        assert forall|i: int| 0 <= i < b + 1 implies text::is_space(#[trigger] s[i]) by {
            if i > 0 {
                assert(rest[i - 1] == s[i]);
            }
        }
        b + 1
    } else {
        assert(s.subrange(0, s.len() as int) =~= s);
        0
    }
}

proof fn lemma_trim_end_at(s: Seq<char>) -> (n: int)
    ensures
        0 <= n <= s.len(),
        text::trim_end(s) == s.subrange(0, n),
        forall|i: int| n <= i < s.len() ==> text::is_space(#[trigger] s[i]),
        n > 0 ==> !text::is_space(s[n - 1]),
    decreases s.len(),
{
    if s.len() > 0 && text::is_space(s[s.len() - 1]) {
        let rest = s.subrange(0, s.len() - 1);
        let n = lemma_trim_end_at(rest);
        assert(rest.subrange(0, n) =~= s.subrange(0, n));
        assert forall|i: int| n <= i < s.len() implies text::is_space(#[trigger] s[i]) by {
            if i < s.len() - 1 {
                assert(rest[i] == s[i]);
            }
        }
        n
    } else {
        assert(s.subrange(0, s.len() as int) =~= s);
        s.len() as int
    }
}

/// Small letters are told apart from capitals by nothing but their case: a text
/// in small letters has the length of the text, keeps every character that is
/// no capital letter, and has no capital letter.
pub proof fn law_small_letters_stay(s: Seq<char>, i: int)
    requires
        0 <= i < s.len(),
    ensures
        text::lower(s).len() == s.len(),
        !('A' <= s[i] <= 'Z') ==> text::lower(s)[i] == s[i],
        'A' <= s[i] <= 'Z' ==> text::lower(s)[i] as int == s[i] as int + 32,
        !('A' <= text::lower(s)[i] <= 'Z'),
{
}

/// What a text is taken apart into can be put together again.
pub proof fn law_pieces_make_the_text(s: Seq<char>, c: char)
    ensures
        text::pieces(s, c).len() >= 1,
        text::join(text::pieces(s, c), seq![c]) == s,
        forall|k: int| 0 <= k < text::pieces(s, c).len() ==> !(#[trigger] text::pieces(s, c)[k]).contains(c),
    decreases s.len(),
{
    let i = text::index_of_char(s, c);
    lemma_index(s, c);
    if 0 <= i < s.len() {
        let rest = s.subrange(i + 1, s.len() as int);
        law_pieces_make_the_text(rest, c);
        let head = s.subrange(0, i);
        let tail = text::pieces(rest, c);
        lemma_join_front(head, tail, seq![c]);
        assert(head + seq![c] + rest =~= s);
        assert forall|k: int| 0 <= k < text::pieces(s, c).len() implies !(
        #[trigger] text::pieces(s, c)[k]).contains(c) by {
            if k == 0 {
                assert(text::pieces(s, c)[0] == head);
            } else {
                assert(text::pieces(s, c)[k] == tail[k - 1]);
            }
        }
    } else {
        assert(text::pieces(s, c) =~= seq![s]);
    }
}

proof fn lemma_index(s: Seq<char>, c: char)
    ensures
        0 <= text::index_of_char(s, c) <= s.len(),
        text::index_of_char(s, c) < s.len() ==> s[text::index_of_char(s, c)] == c,
        forall|i: int| 0 <= i < text::index_of_char(s, c) ==> #[trigger] s[i] != c,
    decreases s.len(),
{
    if s.len() > 0 && s[0] != c {
        let rest = s.subrange(1, s.len() as int);
        lemma_index(rest, c);
        assert forall|i: int| 0 <= i < text::index_of_char(s, c) implies #[trigger] s[i] != c by {
            if i > 0 {
                assert(rest[i - 1] == s[i]);
            }
        }
    }
}

proof fn lemma_join_front(head: Seq<char>, tail: Seq<Seq<char>>, sep: Seq<char>)
    requires
        tail.len() > 0,
    ensures
        text::join(seq![head] + tail, sep) == head + sep + text::join(tail, sep),
    decreases tail.len(),
{
    let all = seq![head] + tail;
    if tail.len() == 1 {
        assert(all.drop_last() =~= seq![head]);
        assert(text::join(seq![head], sep) == head);
    } else {
        lemma_join_front(head, tail.drop_last(), sep);
        assert(all.drop_last() =~= seq![head] + tail.drop_last());
        assert(all.last() == tail.last());
        assert(text::join(all, sep) =~= head + sep + text::join(tail, sep));
    }
}

} // verus!
