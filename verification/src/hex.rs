//! Lower-case hexadecimal text of a byte sequence.

use vstd::prelude::*;
use vstd::string::*;

verus! {

/// The lower-case hexadecimal digit of a value below sixteen.
pub open spec fn hex_digit(nibble: u8) -> char {
    seq!['0', '1', '2', '3', '4', '5', '6', '7', '8', '9', 'a', 'b', 'c', 'd', 'e', 'f'][nibble as int]
}

/// The high half of a byte.
pub open spec fn high_nibble(byte: u8) -> u8 {
    byte >> 4
}

/// The low half of a byte.
pub open spec fn low_nibble(byte: u8) -> u8 {
    byte & 0x0f
}

/// Two digits per byte, high half first, nothing in between.
pub open spec fn hex_lower(bytes: Seq<u8>) -> Seq<char> {
    Seq::new(
        2 * bytes.len(),
        |i: int|
            if i % 2 == 0 {
                hex_digit(high_nibble(bytes[i / 2]))
            } else {
                hex_digit(low_nibble(bytes[i / 2]))
            },
    )
}

/// Whether `c` is one of the sixteen lower-case hexadecimal digits.
pub open spec fn is_hex_digit(c: char) -> bool {
    exists|n: u8| n < 16 && c == #[trigger] hex_digit(n)
}

/// Both halves of a byte are below sixteen, and together they fix the byte.
pub proof fn lemma_nibbles(a: u8, b: u8)
    ensures
        high_nibble(a) < 16,
        low_nibble(a) < 16,
        high_nibble(a) == high_nibble(b) && low_nibble(a) == low_nibble(b) ==> a == b,
{
    assert(a >> 4 < 16) by (bit_vector);
    assert(a & 0x0f < 16) by (bit_vector);
    assert(a >> 4 == b >> 4 && a & 0x0f == b & 0x0f ==> a == b) by (bit_vector);
}

/// Distinct values below sixteen have distinct digits.
pub proof fn lemma_hex_digit_injective(m: u8, n: u8)
    requires
        m < 16,
        n < 16,
        hex_digit(m) == hex_digit(n),
    ensures
        m == n,
{
}

/// The text is twice as long as the bytes and holds hexadecimal digits only.
pub proof fn lemma_hex_lower_shape(bytes: Seq<u8>)
    ensures
        hex_lower(bytes).len() == 2 * bytes.len(),
        forall|i: int| 0 <= i < hex_lower(bytes).len() ==> is_hex_digit(#[trigger] hex_lower(bytes)[i]),
{
    assert forall|i: int| 0 <= i < hex_lower(bytes).len() implies is_hex_digit(
        #[trigger] hex_lower(bytes)[i],
    ) by {
        let byte = bytes[i / 2];
        lemma_nibbles(byte, byte);
        if i % 2 == 0 {
            assert(hex_lower(bytes)[i] == hex_digit(high_nibble(byte)));
        } else {
            assert(hex_lower(bytes)[i] == hex_digit(low_nibble(byte)));
        }
    }
}

/// Byte sequences with the same text are the same.
pub proof fn lemma_hex_lower_injective(a: Seq<u8>, b: Seq<u8>)
    requires
        hex_lower(a) == hex_lower(b),
    ensures
        a == b,
{
    assert(hex_lower(a).len() == 2 * a.len());
    assert(hex_lower(b).len() == 2 * b.len());
    assert(a.len() == b.len());
    assert forall|k: int| 0 <= k < a.len() implies a[k] == b[k] by {
        lemma_nibbles(a[k], b[k]);
        lemma_nibbles(b[k], a[k]);
        assert(hex_lower(a)[2 * k] == hex_digit(high_nibble(a[k])));
        assert(hex_lower(b)[2 * k] == hex_digit(high_nibble(b[k])));
        assert(hex_lower(a)[2 * k + 1] == hex_digit(low_nibble(a[k])));
        assert(hex_lower(b)[2 * k + 1] == hex_digit(low_nibble(b[k])));
        lemma_hex_digit_injective(high_nibble(a[k]), high_nibble(b[k]));
        lemma_hex_digit_injective(low_nibble(a[k]), low_nibble(b[k]));
    }
    assert(a =~= b);
}

/// The digit of a value below sixteen, as a one-character string.
fn digit_text(nibble: u8) -> (text: &'static str)
    requires
        nibble < 16,
    ensures
        text@ == seq![hex_digit(nibble)],
{
    proof {
        reveal_strlit("0");
        reveal_strlit("1");
        reveal_strlit("2");
        reveal_strlit("3");
        reveal_strlit("4");
        reveal_strlit("5");
        reveal_strlit("6");
        reveal_strlit("7");
        reveal_strlit("8");
        reveal_strlit("9");
        reveal_strlit("a");
        reveal_strlit("b");
        reveal_strlit("c");
        reveal_strlit("d");
        reveal_strlit("e");
        reveal_strlit("f");
    }
    let text = match nibble {
        0 => "0",
        1 => "1",
        2 => "2",
        3 => "3",
        4 => "4",
        5 => "5",
        6 => "6",
        7 => "7",
        8 => "8",
        9 => "9",
        10 => "a",
        11 => "b",
        12 => "c",
        13 => "d",
        14 => "e",
        _ => "f",
    };
    assert(text@ =~= seq![hex_digit(nibble)]);
    text
}

/// Writes `bytes` as lower-case hexadecimal text.
pub fn to_hex_lower(bytes: &[u8]) -> (text: String)
    ensures
        text@ == hex_lower(bytes@),
{
    let mut text = String::new();
    let mut i: usize = 0;
    while i < bytes.len()
        invariant
            i <= bytes.len(),
            text@ == hex_lower(bytes@.take(i as int)),
        decreases bytes.len() - i,
    {
        let byte = bytes[i];
        proof {
            lemma_nibbles(byte, byte);
        }
        let ghost before = text@;
        text.append(digit_text(byte >> 4));
        text.append(digit_text(byte & 0x0f));
        proof {
            let prev = bytes@.take(i as int);
            let next = bytes@.take(i as int + 1);
            assert(next =~= prev.push(byte));
            assert(text@ =~= before + seq![hex_digit(high_nibble(byte))] + seq![
                hex_digit(low_nibble(byte)),
            ]);
            assert(text@ =~= hex_lower(next));
        }
        i = i + 1;
    }
    assert(bytes@.take(i as int) =~= bytes@);
    text
}

} // verus!
