//! Lowercase hexadecimal rendering of byte strings.

use vstd::prelude::*;
use vstd::string::StringExecFns;

verus! {

/// The sixteen lowercase hexadecimal digit characters.
pub open spec fn hex_digit(d: u8) -> char {
    if d == 0 {
        '0'
    } else if d == 1 {
        '1'
    } else if d == 2 {
        '2'
    } else if d == 3 {
        '3'
    } else if d == 4 {
        '4'
    } else if d == 5 {
        '5'
    } else if d == 6 {
        '6'
    } else if d == 7 {
        '7'
    } else if d == 8 {
        '8'
    } else if d == 9 {
        '9'
    } else if d == 10 {
        'a'
    } else if d == 11 {
        'b'
    } else if d == 12 {
        'c'
    } else if d == 13 {
        'd'
    } else if d == 14 {
        'e'
    } else {
        'f'
    }
}

/// Whether a character is a lowercase hexadecimal digit.
pub open spec fn is_hex_digit_char(c: char) -> bool {
    ('0' <= c && c <= '9') || ('a' <= c && c <= 'f')
}

/// Each byte rendered as two lowercase hex digits, high nibble first,
/// concatenated with no separators.
pub open spec fn hex_of(bytes: Seq<u8>) -> Seq<char>
    decreases bytes.len(),
{
    if bytes.len() == 0 {
        Seq::<char>::empty()
    } else {
        seq![hex_digit(bytes[0] / 16), hex_digit(bytes[0] % 16)] + hex_of(bytes.drop_first())
    }
}

pub proof fn lemma_hex_of_len(bytes: Seq<u8>)
    ensures
        hex_of(bytes).len() == 2 * bytes.len(),
    decreases bytes.len(),
{
    if bytes.len() > 0 {
        lemma_hex_of_len(bytes.drop_first());
    }
}

pub proof fn lemma_hex_of_digits(bytes: Seq<u8>)
    ensures
        forall|i: int| 0 <= i < hex_of(bytes).len() ==> is_hex_digit_char(#[trigger] hex_of(bytes)[i]),
    decreases bytes.len(),
{
    if bytes.len() > 0 {
        lemma_hex_of_digits(bytes.drop_first());
        let s = hex_of(bytes);
        let rest = hex_of(bytes.drop_first());
        assert(s == seq![hex_digit(bytes[0] / 16), hex_digit(bytes[0] % 16)] + rest);
        assert forall|i: int| 0 <= i < s.len() implies is_hex_digit_char(s[i]) by {
            if i == 0 {
                assert(s[i] == hex_digit(bytes[0] / 16));
            } else if i == 1 {
                assert(s[i] == hex_digit(bytes[0] % 16));
            } else {
                assert(s[i] == rest[i - 2]);
            }
        }
    }
}

proof fn lemma_hex_of_push(bytes: Seq<u8>, b: u8)
    ensures
        hex_of(bytes + seq![b]) == hex_of(bytes) + seq![hex_digit(b / 16), hex_digit(b % 16)],
    decreases bytes.len(),
{
    let ext = bytes + seq![b];
    if bytes.len() == 0 {
        assert(ext =~= seq![b]);
        assert(ext[0] == b);
        assert(ext.drop_first() =~= Seq::<u8>::empty());
        assert(hex_of(ext) == seq![hex_digit(b / 16), hex_digit(b % 16)] + hex_of(Seq::<u8>::empty()));
        assert(hex_of(bytes) =~= Seq::<char>::empty());
        assert(hex_of(ext) =~= hex_of(bytes) + seq![hex_digit(b / 16), hex_digit(b % 16)]);
    } else {
        assert(ext[0] == bytes[0]);
        assert(ext.drop_first() =~= bytes.drop_first() + seq![b]);
        lemma_hex_of_push(bytes.drop_first(), b);
        assert(hex_of(ext) == seq![hex_digit(ext[0] / 16), hex_digit(ext[0] % 16)] + hex_of(
            ext.drop_first(),
        ));
        assert(hex_of(ext.drop_first()) == hex_of(bytes.drop_first()) + seq![
            hex_digit(b / 16),
            hex_digit(b % 16),
        ]);
        assert(hex_of(ext) =~= hex_of(bytes) + seq![hex_digit(b / 16), hex_digit(b % 16)]);
    }
}

/// A one-character string slice holding the hex digit for `d`.
pub(crate) fn hex_digit_str(d: u8) -> (r: &'static str)
    requires
        d < 16,
    ensures
        r@ == seq![hex_digit(d)],
{
    proof {
        reveal_strlit("0");
        reveal_strlit("1");
        reveal_strlit("2");
        reveal_strlit("3");
        reveal_strlit("4");
        reveal_strlit("5");
        reveal_strlit("6");
        reveal_strlit("7");
        reveal_strlit("8");
        reveal_strlit("9");
        reveal_strlit("a");
        reveal_strlit("b");
        reveal_strlit("c");
        reveal_strlit("d");
        reveal_strlit("e");
        reveal_strlit("f");
    }
    if d == 0 {
        "0"
    } else if d == 1 {
        "1"
    } else if d == 2 {
        "2"
    } else if d == 3 {
        "3"
    } else if d == 4 {
        "4"
    } else if d == 5 {
        "5"
    } else if d == 6 {
        "6"
    } else if d == 7 {
        "7"
    } else if d == 8 {
        "8"
    } else if d == 9 {
        "9"
    } else if d == 10 {
        "a"
    } else if d == 11 {
        "b"
    } else if d == 12 {
        "c"
    } else if d == 13 {
        "d"
    } else if d == 14 {
        "e"
    } else {
        "f"
    }
}

/// Render a byte string as lowercase hexadecimal, two digits per byte.
pub fn bytes_to_hex(bytes: &[u8]) -> (r: String)
    ensures
        r@ == hex_of(bytes@),
        r@.len() == 2 * bytes@.len(),
{
    let mut out = String::new();
    let mut i: usize = 0;
    while i < bytes.len()
        invariant
            i <= bytes@.len(),
            out@ == hex_of(bytes@.take(i as int)),
        decreases bytes@.len() - i,
    {
        let b = bytes[i];
        out.append(hex_digit_str(b / 16));
        out.append(hex_digit_str(b % 16));
        proof {
            assert(bytes@.take(i + 1 as int) =~= bytes@.take(i as int) + seq![bytes@[i as int]]);
            lemma_hex_of_push(bytes@.take(i as int), bytes@[i as int]);
        }
        i = i + 1;
    }
    proof {
        assert(bytes@.take(bytes@.len() as int) =~= bytes@);
        lemma_hex_of_len(bytes@);
    }
    out
}

} // verus!
