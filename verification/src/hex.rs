//! Lowercase hexadecimal text of binary values.
use vstd::prelude::*;
use vstd::string::StringExecFns;

verus! {

/// The sixteen digits, in order of their value.
pub open spec fn hex_digits() -> Seq<char> {
    seq!['0', '1', '2', '3', '4', '5', '6', '7', '8', '9', 'a', 'b', 'c', 'd', 'e', 'f']
}

/// The digit that stands for `value`.
pub open spec fn hex_digit(value: int) -> char
    recommends
        0 <= value < 16,
{
    hex_digits()[value]
}

/// The value that the digit `c` stands for, if `c` is one of the sixteen.
pub open spec fn hex_value(c: char) -> Option<int> {
    if exists|v: int| 0 <= v < 16 && hex_digit(v) == c {
        Some(choose|v: int| 0 <= v < 16 && hex_digit(v) == c)
    } else {
        None
    }
}

/// The hexadecimal text of `bytes`: two digits for each byte, the high half
/// first, the bytes in order.
pub open spec fn hex_text(bytes: Seq<u8>) -> Seq<char> {
    Seq::new(
        2 * bytes.len(),
        |i: int|
            if i % 2 == 0 {
                hex_digit(bytes[i / 2] as int / 16)
            } else {
                hex_digit(bytes[i / 2] as int % 16)
            },
    )
}

/// The bytes that a hexadecimal text stands for, if it is one: an even number
/// of digits.
pub open spec fn hex_bytes(text: Seq<char>) -> Option<Seq<u8>> {
    if text.len() % 2 == 0 && (forall|i: int| 0 <= i < text.len() ==> hex_value(text[i]) is Some) {
        Some(
            Seq::new(
                text.len() / 2,
                |k: int| (16 * hex_value(text[2 * k])->0 + hex_value(text[2 * k + 1])->0) as u8,
            ),
        )
    } else {
        None
    }
}

/// Each of the sixteen digits stands for its own value and for no other.
pub proof fn lemma_hex_value_of_digit(value: int)
    requires
        0 <= value < 16,
    ensures
        hex_value(hex_digit(value)) == Some(value),
{
    let c = hex_digit(value);
    let chosen = choose|v: int| 0 <= v < 16 && hex_digit(v) == c;
    assert(0 <= chosen < 16 && hex_digit(chosen) == c);
    assert(hex_digits()[chosen] == hex_digits()[value]);
}

/// The text of `bytes` has exactly two characters for each byte.
pub proof fn lemma_hex_text_length(bytes: Seq<u8>)
    ensures
        hex_text(bytes).len() == 2 * bytes.len(),
{
}

/// The text of a sequence of bytes followed by one more byte is the text of
/// the sequence followed by the two digits of that byte.
pub proof fn lemma_hex_text_push(bytes: Seq<u8>, byte: u8)
    ensures
        hex_text(bytes.push(byte)) == hex_text(bytes) + seq![
            hex_digit(byte as int / 16),
            hex_digit(byte as int % 16),
        ],
{
    let left = hex_text(bytes.push(byte));
    let right = hex_text(bytes) + seq![hex_digit(byte as int / 16), hex_digit(byte as int % 16)];
    assert(left.len() == right.len());
    assert forall|i: int| 0 <= i < left.len() implies left[i] == right[i] by {
        if i < 2 * bytes.len() {
            assert(bytes.push(byte)[i / 2] == bytes[i / 2]);
        } else {
            assert(i / 2 == bytes.len());
            assert(bytes.push(byte)[i / 2] == byte);
        }
    }
    assert(left =~= right);
}

/// Decoding the text of `bytes` gives `bytes` back.
pub proof fn lemma_hex_round_trip(bytes: Seq<u8>)
    ensures
        hex_bytes(hex_text(bytes)) == Some(bytes),
{
    let text = hex_text(bytes);
    assert forall|i: int| 0 <= i < text.len() implies hex_value(text[i]) is Some by {
        let b = bytes[i / 2] as int;
        if i % 2 == 0 {
            lemma_hex_value_of_digit(b / 16);
        } else {
            lemma_hex_value_of_digit(b % 16);
        }
    }
    let decoded = hex_bytes(text)->0;
    assert(decoded.len() == bytes.len());
    assert forall|k: int| 0 <= k < bytes.len() implies decoded[k] == bytes[k] by {
        let b = bytes[k] as int;
        assert((2 * k) / 2 == k && (2 * k) % 2 == 0);
        assert((2 * k + 1) / 2 == k && (2 * k + 1) % 2 == 1);
        lemma_hex_value_of_digit(b / 16);
        lemma_hex_value_of_digit(b % 16);
        assert(16 * (b / 16) + b % 16 == b);
    }
    assert(decoded =~= bytes);
}

/// Two sequences of bytes with the same text are the same sequence.
pub proof fn lemma_hex_text_injective(a: Seq<u8>, b: Seq<u8>)
    requires
        hex_text(a) == hex_text(b),
    ensures
        a == b,
{
    lemma_hex_round_trip(a);
    lemma_hex_round_trip(b);
}

/// The digit of `value`, as text.
fn digit_text(value: u8) -> (r: &'static str)
    requires
        value < 16,
    ensures
        r@ == seq![hex_digit(value as int)],
{
    proof {
        reveal_strlit("0");
        reveal_strlit("1");
        reveal_strlit("2");
        reveal_strlit("3");
        reveal_strlit("4");
        reveal_strlit("5");
        reveal_strlit("6");
        reveal_strlit("7");
        reveal_strlit("8");
        reveal_strlit("9");
        reveal_strlit("a");
        reveal_strlit("b");
        reveal_strlit("c");
        reveal_strlit("d");
        reveal_strlit("e");
        reveal_strlit("f");
    }
    let r = if value == 0 {
        "0"
    } else if value == 1 {
        "1"
    } else if value == 2 {
        "2"
    } else if value == 3 {
        "3"
    } else if value == 4 {
        "4"
    } else if value == 5 {
        "5"
    } else if value == 6 {
        "6"
    } else if value == 7 {
        "7"
    } else if value == 8 {
        "8"
    } else if value == 9 {
        "9"
    } else if value == 10 {
        "a"
    } else if value == 11 {
        "b"
    } else if value == 12 {
        "c"
    } else if value == 13 {
        "d"
    } else if value == 14 {
        "e"
    } else {
        "f"
    };
    proof {
        assert(r@ =~= seq![hex_digit(value as int)]);
    }
    r
}

/// Writes `bytes` as lowercase hexadecimal text: two digits for each byte,
/// in the order of the bytes. No bytes give the empty text.
pub fn encode_hex(bytes: &[u8]) -> (r: String)
    ensures
        r@ == hex_text(bytes@),
        r@.len() == 2 * bytes@.len(),
{
    let mut out = String::new();
    let mut i: usize = 0;
    proof {
        assert(hex_text(bytes@.take(0)) =~= Seq::<char>::empty());
    }
    while i < bytes.len()
        invariant
            i <= bytes@.len(),
            out@ == hex_text(bytes@.take(i as int)),
        decreases bytes@.len() - i,
    {
        let byte = bytes[i];
        let ghost before = out@;
        out.append(digit_text(byte / 16));
        out.append(digit_text(byte % 16));
        proof {
            lemma_hex_text_push(bytes@.take(i as int), byte);
            assert(bytes@.take(i + 1) == bytes@.take(i as int).push(byte));
            assert(out@ =~= before + seq![hex_digit(byte as int / 16), hex_digit(byte as int % 16)]);
        }
        i += 1;
    }
    proof {
        assert(bytes@.take(bytes@.len() as int) == bytes@);
    }
    out
}

/// The hexadecimal text of each row of a binary column; a null row stays
/// null.
pub open spec fn hex_rows(rows: Seq<Option<Seq<u8>>>) -> Seq<Option<Seq<char>>> {
    Seq::new(
        rows.len(),
        |i: int|
            match rows[i] {
                Some(bytes) => Some(hex_text(bytes)),
                None => None,
            },
    )
}

} // verus!
