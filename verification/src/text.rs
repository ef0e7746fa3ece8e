//! Small verified text helpers used by the result normalization and the
//! identifier handling: substring search, leading-token extraction, ASCII
//! case folding, and decimal rendering.

use vstd::prelude::*;

verus! {

/// ASCII whitespace, the separators that appear in the result texts this
/// crate produces.
pub open spec fn is_ascii_space(c: char) -> bool {
    c == ' ' || c == '\t' || c == '\n' || c == '\r'
}

/// ASCII case folding of one character; every other character is unchanged.
pub open spec fn lower_char(c: char) -> char {
    if 'A' <= c && c <= 'Z' {
        ((c as u8) + 32) as char
    } else {
        c
    }
}

/// ASCII case folding of a character sequence.
pub open spec fn lower_seq(s: Seq<char>) -> Seq<char> {
    s.map_values(|c: char| lower_char(c))
}

/// `needle` occurs contiguously somewhere in `hay`.
pub open spec fn contains_seq(hay: Seq<char>, needle: Seq<char>) -> bool {
    exists|i: int|
        0 <= i && i + needle.len() <= hay.len() && #[trigger] hay.subrange(i, i + needle.len())
            == needle
}

/// Index of the first non-whitespace character at or after `i`, or the length
/// of `s` when only whitespace remains.
pub open spec fn skip_spaces(s: Seq<char>, i: int) -> int
    decreases s.len() - i,
{
    if i < 0 || i >= s.len() {
        s.len() as int
    } else if is_ascii_space(s[i]) {
        skip_spaces(s, i + 1)
    } else {
        i
    }
}

/// Index of the first whitespace character at or after `i`, or the length of
/// `s` when none follows.
pub open spec fn token_end(s: Seq<char>, i: int) -> int
    decreases s.len() - i,
{
    if i < 0 || i >= s.len() {
        s.len() as int
    } else if is_ascii_space(s[i]) {
        i
    } else {
        token_end(s, i + 1)
    }
}

/// The first whitespace-delimited token of `s`, or `None` when `s` holds only
/// whitespace.
pub open spec fn first_token(s: Seq<char>) -> Option<Seq<char>> {
    let start = skip_spaces(s, 0);
    if start >= s.len() {
        None
    } else {
        Some(s.subrange(start, token_end(s, start)))
    }
}

/// Character-wise string equality.
pub fn str_eq(a: &str, b: &str) -> (r: bool)
    ensures
        r == (a@ == b@),
{
    let alen = a.unicode_len();
    let blen = b.unicode_len();
    if alen != blen {
        return false;
    }
    let mut i: usize = 0;
    while i < alen
        invariant
            0 <= i <= alen,
            alen == a@.len(),
            alen == b@.len(),
            forall|k: int| 0 <= k < i ==> a@[k] == b@[k],
        decreases alen - i,
    {
        if a.get_char(i) != b.get_char(i) {
            assert(a@[i as int] != b@[i as int]);
            return false;
        }
        i = i + 1;
    }
    proof {
        assert(a@ =~= b@);
    }
    true
}

/// Whether `needle` occurs in `hay` after `hay` is ASCII-lowercased.
/// The search is performed without materializing the folded text.
pub fn contains_lowered(hay: &str, needle: &str) -> (r: bool)
    ensures
        r == contains_seq(lower_seq(hay@), needle@),
{
    let hlen = hay.unicode_len();
    let nlen = needle.unicode_len();
    if nlen > hlen {
        proof {
            assert(lower_seq(hay@).len() == hay@.len());
        }
        return false;
    }
    if nlen == 0 {
        proof {
            assert(lower_seq(hay@).subrange(0, 0 + needle@.len() as int) =~= needle@);
        }
        return true;
    }
    let mut i: usize = 0;
    while i <= hlen - nlen
        invariant
            0 <= i,
            i + nlen <= hlen + 1,
            1 <= nlen <= hlen,
            hlen == hay@.len(),
            nlen == needle@.len(),
            forall|s: int|
                0 <= s < i ==> #[trigger] lower_seq(hay@).subrange(s, s + nlen as int) != needle@,
        decreases hlen - nlen - i + 1,
    {
        let mut j: usize = 0;
        let mut matched = true;
        while j < nlen
            invariant
                0 <= j <= nlen,
                0 <= i,
                i + nlen <= hlen,
                hlen == hay@.len(),
                nlen == needle@.len(),
                matched ==> forall|k: int|
                    0 <= k < j ==> lower_char(hay@[i + k]) == needle@[k],
                !matched ==> lower_seq(hay@).subrange(i as int, i + nlen as int) != needle@,
            decreases nlen - j,
        {
            let hc = hay.get_char(i + j);
            let lc = if hc >= 'A' && hc <= 'Z' {
                ((hc as u8) + 32) as char
            } else {
                hc
            };
            assert(lc == lower_char(hay@[i + j]));
            if matched && lc != needle.get_char(j) {
                matched = false;
                proof {
                    let sub = lower_seq(hay@).subrange(i as int, i + nlen as int);
                    assert(sub[j as int] == lower_char(hay@[i + j]));
                    assert(sub[j as int] != needle@[j as int]);
                }
            }
            j = j + 1;
        }
        if matched {
            proof {
                let sub = lower_seq(hay@).subrange(i as int, i + nlen as int);
                assert(sub =~= needle@);
            }
            return true;
        }
        i = i + 1;
    }
    proof {
        assert forall|s: int|
            0 <= s && s + needle@.len() <= lower_seq(hay@).len() implies #[trigger] lower_seq(
            hay@,
        ).subrange(s, s + needle@.len()) != needle@ by {
            assert(s < i);
        }
    }
    false
}

/// Whether `needle` occurs in `hay` as written.
pub fn str_contains(hay: &str, needle: &str) -> (r: bool)
    ensures
        r == contains_seq(hay@, needle@),
{
    let hlen = hay.unicode_len();
    let nlen = needle.unicode_len();
    if nlen > hlen {
        return false;
    }
    if nlen == 0 {
        proof {
            assert(hay@.subrange(0, 0 + needle@.len() as int) =~= needle@);
        }
        return true;
    }
    let mut i: usize = 0;
    while i <= hlen - nlen
        invariant
            0 <= i,
            i + nlen <= hlen + 1,
            1 <= nlen <= hlen,
            hlen == hay@.len(),
            nlen == needle@.len(),
            forall|s: int| 0 <= s < i ==> #[trigger] hay@.subrange(s, s + nlen as int) != needle@,
        decreases hlen - nlen - i + 1,
    {
        let mut j: usize = 0;
        let mut matched = true;
        while j < nlen
            invariant
                0 <= j <= nlen,
                0 <= i,
                i + nlen <= hlen,
                hlen == hay@.len(),
                nlen == needle@.len(),
                matched ==> forall|k: int| 0 <= k < j ==> hay@[i + k] == needle@[k],
                !matched ==> hay@.subrange(i as int, i + nlen as int) != needle@,
            decreases nlen - j,
        {
            if matched && hay.get_char(i + j) != needle.get_char(j) {
                matched = false;
                proof {
                    let sub = hay@.subrange(i as int, i + nlen as int);
                    assert(sub[j as int] == hay@[i + j]);
                    assert(sub[j as int] != needle@[j as int]);
                }
            }
            j = j + 1;
        }
        if matched {
            proof {
                let sub = hay@.subrange(i as int, i + nlen as int);
                assert(sub =~= needle@);
            }
            return true;
        }
        i = i + 1;
    }
    proof {
        assert forall|s: int|
            0 <= s && s + needle@.len() <= hay@.len() implies #[trigger] hay@.subrange(
            s,
            s + needle@.len(),
        ) != needle@ by {
            assert(s < i);
        }
    }
    false
}

/// The first whitespace-delimited token of `s`, as an owned string.
pub fn leading_token(s: &str) -> (r: Option<String>)
    ensures
        match r {
            Some(t) => first_token(s@) == Some(t@),
            None => first_token(s@) is None,
        },
{
    let len = s.unicode_len();
    let mut i: usize = 0;
    while i < len
        invariant
            0 <= i <= len,
            len == s@.len(),
            skip_spaces(s@, 0) == skip_spaces(s@, i as int),
        ensures
            0 <= i <= len,
            skip_spaces(s@, 0) == i as int,
        decreases len - i,
    {
        let c = s.get_char(i);
        if !(c == ' ' || c == '\t' || c == '\n' || c == '\r') {
            assert(skip_spaces(s@, i as int) == i as int);
            break;
        }
        i = i + 1;
    }
    if i == len {
        return None;
    }
    let start = i;
    let mut j: usize = start;
    while j < len
        invariant
            start <= j <= len,
            len == s@.len(),
            token_end(s@, start as int) == token_end(s@, j as int),
        ensures
            start <= j <= len,
            token_end(s@, start as int) == j as int,
        decreases len - j,
    {
        let c = s.get_char(j);
        if c == ' ' || c == '\t' || c == '\n' || c == '\r' {
            assert(token_end(s@, j as int) == j as int);
            break;
        }
        j = j + 1;
    }
    let tok = s.substring_char(start, j);
    Some(tok.to_owned())
}

/// Decimal digits of `n`, most significant first.
pub open spec fn dec_str(n: nat) -> Seq<char>
    decreases n,
{
    if n < 10 {
        seq![((48 + n) as u8) as char]
    } else {
        dec_str(n / 10) + seq![((48 + n % 10) as u8) as char]
    }
}

/// Appends one decimal digit to `out`.
fn push_digit(out: &mut String, d: u32)
    requires
        d < 10,
    ensures
        final(out)@ == old(out)@ + seq![((48 + d) as u8) as char],
{
    let digit: &str = match d {
        0 => "0",
        1 => "1",
        2 => "2",
        3 => "3",
        4 => "4",
        5 => "5",
        6 => "6",
        7 => "7",
        8 => "8",
        _ => "9",
    };
    proof {
        reveal_strlit("0");
        reveal_strlit("1");
        reveal_strlit("2");
        reveal_strlit("3");
        reveal_strlit("4");
        reveal_strlit("5");
        reveal_strlit("6");
        reveal_strlit("7");
        reveal_strlit("8");
        reveal_strlit("9");
        assert(digit@ =~= seq![((48 + d) as u8) as char]);
    }
    out.append(digit);
}

/// Appends the decimal rendering of `n` to `out`.
pub fn push_u32(out: &mut String, n: u32)
    ensures
        final(out)@ == old(out)@ + dec_str(n as nat),
    decreases n,
{
    if n >= 10 {
        push_u32(out, n / 10);
        push_digit(out, n % 10);
    } else {
        push_digit(out, n);
    }
}

/// Decimal rendering of a signed value, with a leading minus sign when
/// negative.
pub open spec fn dec_str_i32(n: int) -> Seq<char> {
    if n >= 0 {
        dec_str(n as nat)
    } else {
        seq!['-'] + dec_str((-n) as nat)
    }
}

/// Appends the decimal rendering of `n` to `out`.
pub fn push_i32(out: &mut String, n: i32)
    ensures
        final(out)@ == old(out)@ + dec_str_i32(n as int),
{
    if n >= 0 {
        push_u32(out, n as u32);
    } else {
        out.append("-");
        proof {
            reveal_strlit("-");
            assert("-"@ =~= seq!['-']);
        }
        let m: u32 = if n == i32::MIN {
            2147483648u32
        } else {
            (-n) as u32
        };
        push_u32(out, m);
        proof {
            assert(old(out)@ + "-"@ + dec_str(m as nat) =~= old(out)@ + (seq!['-'] + dec_str(
                m as nat,
            )));
        }
    }
}

} // verus!
