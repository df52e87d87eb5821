//! Bytes written as hexadecimal text.
use vstd::prelude::*;

verus! {

/// The two characters of byte `i`.
pub open spec fn pair(s: Seq<char>, i: int) -> Seq<char> {
    s.subrange(2 * i, 2 * i + 2)
}

/// The byte that a pair of characters stands for.
pub open spec fn pair_value(p: Seq<char>) -> Option<nat> {
    crate::text::number_value(p, 16, 255)
}

/// The text is made of pairs that each stand for a byte.
pub open spec fn is_hex(s: Seq<char>) -> bool {
    s.len() % 2 == 0 && forall|i: int|
        0 <= i < s.len() / 2 ==> pair_value(#[trigger] pair(s, i)) is Some
}

/// The bytes that the pairs of a text stand for.
pub open spec fn hex_bytes(s: Seq<char>) -> Seq<u8> {
    Seq::new((s.len() / 2) as nat, |i: int| pair_value(pair(s, i))->0 as u8)
}

/// Turns hexadecimal text into bytes.
pub fn parse_hex_string(hex_string: &str) -> (bytes: Vec<u8>)
    requires
        is_hex(hex_string@),
    ensures
        bytes@.len() == hex_string@.len() / 2,
        forall|i: int|
            0 <= i < bytes@.len() ==> pair_value(pair(hex_string@, i)) == Some(
                (#[trigger] bytes@[i]) as nat,
            ),
        bytes@ == hex_bytes(hex_string@),
{
    let c = crate::text::chars_of(hex_string);
    let mut bytes: Vec<u8> = Vec::new();
    let n: usize = c.len() / 2;
    let mut i: usize = 0;
    while i < n
        invariant
            i <= n,
            n == c@.len() / 2,
            2 * n <= c@.len() <= usize::MAX,
            c@ == hex_string@,
            is_hex(hex_string@),
            bytes@.len() == i,
            forall|k: int|
                0 <= k < i ==> pair_value(pair(hex_string@, k)) == Some(
                    (#[trigger] bytes@[k]) as nat,
                ),
        decreases n - i,
    {
        let p = crate::text::slice_text(&c, 2 * i, 2 * i + 2);
        proof {
            assert(p@ == pair(hex_string@, i as int));
        }
        match crate::text::parse_number(p.as_str(), 16, 255) {
            Some(v) => {
                bytes.push(v as u8);
            },
            None => {
                proof {
                    assert(pair_value(pair(hex_string@, i as int)) is Some);
                }
            },
        }
        i = i + 1;
    }
    proof {
        assert(bytes@ =~= hex_bytes(hex_string@));
    }
    bytes
}

/// Two hexadecimal texts in a row are hexadecimal text, and stand for the bytes of the first
/// followed by those of the second.
pub proof fn law_hex_of_concatenation(a: Seq<char>, b: Seq<char>)
    requires
        is_hex(a),
        is_hex(b),
    ensures
        is_hex(a + b),
        hex_bytes(a + b) == hex_bytes(a) + hex_bytes(b),
{
    let n = a.len() / 2;
    assert forall|i: int| 0 <= i < (a + b).len() / 2 implies #[trigger] pair(a + b, i) == (if i
        < n {
        pair(a, i)
    } else {
        pair(b, i - n)
    }) by {
        if i < n {
            assert(pair(a + b, i) =~= pair(a, i));
        } else {
            assert(pair(a + b, i) =~= pair(b, i - n));
        }
    }
    assert(hex_bytes(a + b) =~= hex_bytes(a) + hex_bytes(b));
}

/// Two hexadecimal digits stand for sixteen times the first and the second, and a text for as many
/// bytes as it has pairs.
pub proof fn law_pairs_of_digits(h: char, l: char, s: Seq<char>, i: int)
    requires
        '0' <= h <= '9' || 'a' <= h <= 'f' || 'A' <= h <= 'F',
        '0' <= l <= '9' || 'a' <= l <= 'f' || 'A' <= l <= 'F',
    ensures
        ({
            let high = crate::text::digit_value(h, 16)->0;
            let low = crate::text::digit_value(l, 16)->0;
            pair_value(seq![h, l]) == Some(16 * high + low)
        }),
        hex_bytes(s).len() == s.len() / 2,
        0 <= i < s.len() / 2 ==> pair(s, i) == seq![s[2 * i], s[2 * i + 1]],
{
    let p = seq![h, l];
    reveal_with_fuel(crate::text::digits_value, 3);
    assert(p.drop_last() =~= seq![h]);
    assert(seq![h].drop_last() =~= Seq::empty());
    assert(crate::text::unsigned_part(p) == p);
    if 0 <= i < s.len() / 2 {
        assert(pair(s, i) =~= seq![s[2 * i], s[2 * i + 1]]);
    }
}

} // verus!
