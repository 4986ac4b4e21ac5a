//! Numbers in hexadecimal notation, as ASCII bytes.

use vstd::prelude::*;

verus! {

/// The value of a hexadecimal digit, in either case, if `byte` is one.
pub open spec fn digit_value(byte: u8) -> Option<nat> {
    if 0x30 <= byte <= 0x39 {
        Some((byte - 0x30) as nat)
    } else if 0x61 <= byte <= 0x66 {
        Some((byte - 0x61 + 10) as nat)
    } else if 0x41 <= byte <= 0x46 {
        Some((byte - 0x41 + 10) as nat)
    } else {
        None
    }
}

/// Whether `byte` is a hexadecimal digit.
pub open spec fn is_hex_digit(byte: u8) -> bool {
    digit_value(byte) is Some
}

/// Whether every byte of `digits` is a hexadecimal digit.
pub open spec fn all_hex_digits(digits: Seq<u8>) -> bool {
    forall|i: int| 0 <= i < digits.len() ==> is_hex_digit(#[trigger] digits[i])
}

/// Whether `digits` is a number of at least one and at most `max_digits`
/// hexadecimal digits.
pub open spec fn is_hex_token(digits: Seq<u8>, max_digits: nat) -> bool {
    1 <= digits.len() <= max_digits && all_hex_digits(digits)
}

/// The number that the hexadecimal digits `digits` denote, the first digit
/// being the most significant.
pub open spec fn hex_value(digits: Seq<u8>) -> nat
    decreases digits.len(),
{
    if digits.len() == 0 {
        0
    } else {
        hex_value(digits.drop_last()) * 16 + match digit_value(digits.last()) {
            Some(value) => value,
            None => 0,
        }
    }
}

/// Sixteen to the power of `exponent`.
pub open spec fn pow16(exponent: nat) -> nat
    decreases exponent,
{
    if exponent == 0 {
        1
    } else {
        16 * pow16((exponent - 1) as nat)
    }
}

/// The lower-case hexadecimal digit for a value below sixteen.
pub open spec fn digit_byte(value: nat) -> u8 {
    if value < 10 {
        (0x30 + value) as u8
    } else {
        (0x61 + value - 10) as u8
    }
}

/// The lower-case hexadecimal digits of `value`, without leading zeros.
pub open spec fn hex_bytes(value: nat) -> Seq<u8>
    decreases value,
{
    if value < 16 {
        seq![digit_byte(value)]
    } else {
        hex_bytes(value / 16).push(digit_byte(value % 16))
    }
}

/// The text whose characters are the given ASCII bytes.
pub open spec fn ascii_text(bytes: Seq<u8>) -> Seq<char> {
    bytes.map_values(|byte: u8| byte as char)
}

/// The powers of sixteen that bound a byte, a 64-bit and a 128-bit number.
pub proof fn lemma_pow16_values()
    ensures
        pow16(2) == 0x100,
        pow16(16) == 0x1_0000_0000_0000_0000,
        pow16(32) == 0x1_0000_0000_0000_0000_0000_0000_0000_0000,
{
    reveal_with_fuel(pow16, 9);
    assert(pow16(8) == 0x1_0000_0000);
    assert(pow16(16) == 0x1_0000_0000 * pow16(8));
    assert(pow16(24) == 0x1_0000_0000 * pow16(16));
    assert(pow16(32) == 0x1_0000_0000 * pow16(24));
}

/// A larger exponent gives a power of sixteen that is not smaller.
pub proof fn lemma_pow16_grows(smaller: nat, larger: nat)
    requires
        smaller <= larger,
    ensures
        1 <= pow16(smaller) <= pow16(larger),
    decreases larger,
{
    if larger > 0 {
        if smaller < larger {
            lemma_pow16_grows(smaller, (larger - 1) as nat);
        } else {
            lemma_pow16_grows((smaller - 1) as nat, (larger - 1) as nat);
        }
    }
}

/// The digits of a number denote that number, and a number below sixteen to
/// the power of `max_digits` has at most `max_digits` of them.
pub proof fn lemma_hex_bytes(value: nat, max_digits: nat)
    requires
        1 <= max_digits,
        value < pow16(max_digits),
    ensures
        is_hex_token(hex_bytes(value), max_digits),
        hex_value(hex_bytes(value)) == value,
    decreases value,
{
    let digits = hex_bytes(value);
    if value < 16 {
        assert(digits.drop_last() =~= Seq::<u8>::empty());
        assert(hex_value(digits.drop_last()) == 0);
        assert(digit_value(digit_byte(value)) == Some(value));
    } else {
        assert(max_digits >= 2) by {
            if max_digits == 1 {
                reveal_with_fuel(pow16, 2);
            }
        }
        lemma_hex_bytes(value / 16, (max_digits - 1) as nat);
        let front = hex_bytes(value / 16);
        assert(digits.drop_last() =~= front);
        assert(digit_value(digit_byte(value % 16)) == Some(value % 16));
        assert forall|i: int| 0 <= i < digits.len() implies is_hex_digit(#[trigger] digits[i]) by {
            if i < front.len() {
                assert(digits[i] == front[i]);
            }
        }
    }
}

/// The digits of a number are ASCII bytes, and none of them is a colon.
pub proof fn lemma_hex_bytes_plain(value: nat)
    ensures
        hex_bytes(value).len() >= 1,
        forall|i: int|
            0 <= i < hex_bytes(value).len() ==> is_hex_digit(#[trigger] hex_bytes(value)[i]),
    decreases value,
{
    let digits = hex_bytes(value);
    if value < 16 {
        assert(digit_value(digit_byte(value)) == Some(value));
    } else {
        lemma_hex_bytes_plain(value / 16);
        let front = hex_bytes(value / 16);
        assert(digit_value(digit_byte(value % 16)) == Some(value % 16));
        assert forall|i: int| 0 <= i < digits.len() implies is_hex_digit(#[trigger] digits[i]) by {
            if i < front.len() {
                assert(digits[i] == front[i]);
            }
        }
    }
}

/// The value of the hexadecimal digit `byte`, if it is one.
pub fn digit_of(byte: u8) -> (r: Option<u8>)
    ensures
        match r {
            Some(value) => digit_value(byte) == Some(value as nat),
            None => digit_value(byte) is None,
        },
{
    if 0x30 <= byte && byte <= 0x39 {
        Some(byte - 0x30)
    } else if 0x61 <= byte && byte <= 0x66 {
        Some(byte - 0x61 + 10)
    } else if 0x41 <= byte && byte <= 0x46 {
        Some(byte - 0x41 + 10)
    } else {
        None
    }
}

/// Reads `digits` as a hexadecimal number of at most `max_digits` digits, and
/// of no more than the 32 that a 128-bit number can have. Anything else gives
/// nothing.
pub fn parse_hex(digits: &[u8], max_digits: usize) -> (r: Option<u128>)
    ensures
        r == if is_hex_token(digits@, max_digits as nat) && digits@.len() <= 32 {
            Some(hex_value(digits@) as u128)
        } else {
            None
        },
        r matches Some(value) ==> value == hex_value(digits@) && value < pow16(
            max_digits as nat,
        ) && value < pow16(32),
{
    let count = digits.len();
    if count == 0 || count > max_digits || count > 32 {
        return None;
    }
    let mut value: u128 = 0;
    let mut at: usize = 0;
    assert(digits@.subrange(0, 0) =~= Seq::<u8>::empty());
    while at < count
        invariant
            at <= count == digits.len(),
            count <= 32,
            all_hex_digits(digits@.subrange(0, at as int)),
            value == hex_value(digits@.subrange(0, at as int)),
            value < pow16(at as nat),
        decreases count - at,
    {
        let ghost before = digits@.subrange(0, at as int);
        let ghost after = digits@.subrange(0, at as int + 1);
        proof {
            assert(after.drop_last() =~= before);
            assert(after.last() == digits@[at as int]);
            lemma_pow16_grows((at + 1) as nat, 32);
            lemma_pow16_values();
        }
        match digit_of(digits[at]) {
            None => {
                return None;
            },
            Some(digit) => {
                value = value * 16 + digit as u128;
                proof {
                    assert forall|i: int| 0 <= i < after.len() implies is_hex_digit(
                        #[trigger] after[i],
                    ) by {
                        if i < before.len() {
                            assert(after[i] == before[i]);
                        }
                    }
                }
            },
        }
        at += 1;
    }
    proof {
        assert(digits@.subrange(0, at as int) =~= digits@);
        lemma_pow16_grows(count as nat, max_digits as nat);
        lemma_pow16_grows(count as nat, 32);
    }
    Some(value)
}

/// The text of the lower-case hexadecimal digit for a value below sixteen.
fn digit_text(value: u8) -> (r: &'static str)
    requires
        value < 16,
    ensures
        r@ == ascii_text(seq![digit_byte(value as nat)]),
{
    proof {
        reveal_strlit("0");
        reveal_strlit("1");
        reveal_strlit("2");
        reveal_strlit("3");
        reveal_strlit("4");
        reveal_strlit("5");
        reveal_strlit("6");
        reveal_strlit("7");
        reveal_strlit("8");
        reveal_strlit("9");
        reveal_strlit("a");
        reveal_strlit("b");
        reveal_strlit("c");
        reveal_strlit("d");
        reveal_strlit("e");
        reveal_strlit("f");
    }
    let r = if value == 0 {
        "0"
    } else if value == 1 {
        "1"
    } else if value == 2 {
        "2"
    } else if value == 3 {
        "3"
    } else if value == 4 {
        "4"
    } else if value == 5 {
        "5"
    } else if value == 6 {
        "6"
    } else if value == 7 {
        "7"
    } else if value == 8 {
        "8"
    } else if value == 9 {
        "9"
    } else if value == 10 {
        "a"
    } else if value == 11 {
        "b"
    } else if value == 12 {
        "c"
    } else if value == 13 {
        "d"
    } else if value == 14 {
        "e"
    } else {
        "f"
    };
    assert(r@ =~= ascii_text(seq![digit_byte(value as nat)]));
    r
}

/// Appends the lower-case hexadecimal digits of `value`, without leading
/// zeros, to `text`.
pub fn append_hex(text: &mut String, value: u128)
    ensures
        final(text)@ == old(text)@ + ascii_text(hex_bytes(value as nat)),
    decreases value,
{
    if value >= 16 {
        append_hex(text, value / 16);
    }
    text.append(digit_text((value % 16) as u8));
    proof {
        let digit = seq![digit_byte((value % 16) as nat)];
        if value >= 16 {
            assert(hex_bytes(value as nat) =~= hex_bytes((value / 16) as nat) + digit);
            assert(ascii_text(hex_bytes(value as nat)) =~= ascii_text(
                hex_bytes((value / 16) as nat),
            ) + ascii_text(digit));
        }
        assert(text@ =~= old(text)@ + ascii_text(hex_bytes(value as nat)));
    }
}

} // verus!
