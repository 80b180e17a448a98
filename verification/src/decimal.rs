//! Numbers written in decimal.
use vstd::prelude::*;

verus! {

/// The decimal digits of a number, as ASCII, without leading zeros.
pub open spec fn digits(n: nat) -> Seq<u8>
    decreases n,
{
    if n < 10 {
        seq![(48 + n) as u8]
    } else {
        digits(n / 10).push((48 + n % 10) as u8)
    }
}

/// A number in decimal, with a leading `-` where it is negative.
pub open spec fn decimal(n: int) -> Seq<u8> {
    if n < 0 {
        seq![45u8] + digits((-n) as nat)
    } else {
        digits(n as nat)
    }
}

pub open spec fn all_digits(text: Seq<u8>) -> bool {
    forall|i: int| 0 <= i < text.len() ==> 48 <= #[trigger] text[i] <= 57
}

/// The number that decimal digits stand for.
pub open spec fn number(text: Seq<u8>) -> int
    decreases text.len(),
{
    if text.len() == 0 {
        0
    } else {
        number(text.drop_last()) * 10 + (text.last() - 48)
    }
}

/// The text behind a leading sign, where there is one.
pub open spec fn unsigned(text: Seq<u8>) -> Seq<u8> {
    if text.len() > 0 && (text[0] == 43 || text[0] == 45) {
        text.skip(1)
    } else {
        text
    }
}

/// The number that a text stands for, read as signed decimal. A text that is not a number,
/// or a number outside the range of an `i32`, stands for nothing.
pub open spec fn parsed(text: Seq<u8>) -> Option<i32> {
    let rest = unsigned(text);
    let value = if text.len() > 0 && text[0] == 45 {
        -number(rest)
    } else {
        number(rest)
    };
    if rest.len() > 0 && all_digits(rest) && i32::MIN <= value <= i32::MAX {
        Some(value as i32)
    } else {
        None
    }
}

proof fn lemma_digits(n: nat)
    ensures
        digits(n).len() > 0,
        all_digits(digits(n)),
        number(digits(n)) == n,
    decreases n,
{
    reveal_with_fuel(number, 2);
    if n < 10 {
        assert(digits(n).drop_last() =~= Seq::<u8>::empty());
    } else {
        lemma_digits(n / 10);
        assert(digits(n).drop_last() =~= digits(n / 10));
    }
}

/// Law: the text written for a number stands for that number.
pub proof fn law_decimal_round_trip(n: i32)
    ensures
        parsed(decimal(n as int)) == Some(n),
{
    if n < 0 {
        lemma_digits((-n) as nat);
        assert(decimal(n as int).skip(1) =~= digits((-n) as nat));
    } else {
        lemma_digits(n as nat);
    }
}

/// Law: different numbers are written differently.
pub proof fn law_numbers_are_told_apart(a: i32, b: i32)
    requires
        decimal(a as int) == decimal(b as int),
    ensures
        a == b,
{
    law_decimal_round_trip(a);
    law_decimal_round_trip(b);
}

fn write_digits(n: u32) -> (text: Vec<u8>)
    ensures
        text@ == digits(n as nat),
    decreases n,
{
    if n < 10 {
        vec![48 + n as u8]
    } else {
        let mut text = write_digits(n / 10);
        text.push(48 + (n % 10) as u8);
        text
    }
}

/// The text that stands for a number.
pub fn to_decimal(n: i32) -> (text: Vec<u8>)
    ensures
        text@ == decimal(n as int),
{
    if n < 0 {
        let mut text: Vec<u8> = vec![45u8];
        let mut rest = write_digits((0 - n as i64) as u32);
        text.append(&mut rest);
        text
    } else {
        write_digits(n as u32)
    }
}

/// A text of ASCII bytes, as characters.
pub open spec fn ascii(text: Seq<u8>) -> Seq<char> {
    text.map_values(|byte: u8| byte as char)
}

/// The string that stands for a number.
pub fn to_decimal_string(n: i32) -> (text: String)
    ensures
        text@ == ascii(decimal(n as int)),
{
    let bytes = to_decimal(n);
    proof {
        if n < 0 {
            lemma_digits((-n) as nat);
        } else {
            lemma_digits(n as nat);
        }
        assert forall|i: int| 0 <= i < bytes@.len() implies bytes@[i] == 45 || 48 <= #[trigger] bytes@[i]
            <= 57 by {
            if n < 0 && i > 0 {
                assert(bytes@[i] == digits((-n) as nat)[i - 1]);
            }
        }
    }
    let mut text = String::new();
    for i in 0..bytes.len()
        invariant
            bytes@ == decimal(n as int),
            forall|i: int|
                0 <= i < bytes@.len() ==> bytes@[i] == 45 || 48 <= #[trigger] bytes@[i] <= 57,
            text@ == ascii(bytes@.take(i as int)),
    {
        let byte: u8 = bytes[i];
        proof {
            reveal_strlit("-");
            reveal_strlit("0");
            reveal_strlit("1");
            reveal_strlit("2");
            reveal_strlit("3");
            reveal_strlit("4");
            reveal_strlit("5");
            reveal_strlit("6");
            reveal_strlit("7");
            reveal_strlit("8");
            reveal_strlit("9");
        }
        let piece: &str = match byte {
            45 => "-",
            48 => "0",
            49 => "1",
            50 => "2",
            51 => "3",
            52 => "4",
            53 => "5",
            54 => "6",
            55 => "7",
            56 => "8",
            _ => "9",
        };
        text.append(piece);
        assert(piece@ =~= seq![byte as char]);
        assert(bytes@.take(i + 1) =~= bytes@.take(i as int).push(byte));
        assert(ascii(bytes@.take(i + 1)) =~= ascii(bytes@.take(i as int)) + piece@);
    }
    assert(bytes@.take(bytes@.len() as int) =~= bytes@);
    text
}

proof fn lemma_number_grows(text: Seq<u8>, k: int)
    requires
        all_digits(text),
        0 <= k <= text.len(),
    ensures
        0 <= number(text.take(k)) <= number(text),
    decreases text.len(),
{
    if text.len() == 0 {
        assert(text.take(k) =~= text);
    } else {
        if k == text.len() {
            assert(text.take(k) =~= text);
            lemma_number_grows(text.drop_last(), text.len() - 1);
            assert(text.drop_last().take(text.len() - 1) =~= text.drop_last());
        } else {
            lemma_number_grows(text.drop_last(), k);
            assert(text.drop_last().take(k) =~= text.take(k));
        }
    }
}

/// The number that a text stands for, if it stands for one.
pub fn from_decimal(text: &Vec<u8>) -> (n: Option<i32>)
    ensures
        n == parsed(text@),
{
    let len: usize = text.len();
    let signed: bool = len > 0 && (text[0] == 43 || text[0] == 45);
    let negative: bool = len > 0 && text[0] == 45;
    let start: usize = if signed {
        1
    } else {
        0
    };
    let ghost rest = unsigned(text@);
    assert(rest =~= text@.skip(start as int));
    if start == len {
        return None;
    }
    let mut value: i64 = 0;
    let mut i: usize = start;
    assert(rest.take(0) =~= Seq::<u8>::empty());
    while i < len
        invariant
            len == text@.len(),
            start <= i <= len,
            rest == text@.skip(start as int),
            all_digits(rest.take(i - start)),
            value == number(rest.take(i - start)),
            0 <= value <= 0x8000_0000,
            rest == unsigned(text@),
            rest.len() > 0,
        decreases len - i,
    {
        let c: u8 = text[i];
        assert(rest[i - start] == c);
        if c < 48 || c > 57 {
            assert(!all_digits(rest));
            return None;
        }
        value = value * 10 + (c - 48) as i64;
        proof {
            let k = i - start;
            assert(rest.take(k + 1).drop_last() =~= rest.take(k));
            assert forall|j: int| 0 <= j < rest.take(k + 1).len() implies 48 <= #[trigger] rest.take(
                k + 1,
            )[j] <= 57 by {
                if j < k {
                    assert(rest.take(k)[j] == rest[j]);
                }
            }
        }
        if value > 0x8000_0000 {
            proof {
                if all_digits(rest) {
                    lemma_number_grows(rest, i - start + 1);
                }
            }
            return None;
        }
        i = i + 1;
    }
    assert(rest.take(len - start) =~= rest);
    let value: i64 = if negative {
        0 - value
    } else {
        value
    };
    if value > 0x7fff_ffff {
        return None;
    }
    Some(value as i32)
}

/// Law: how numbers are written: one digit as itself, the last digit of a longer number behind
/// the rest of it, and a negative number as `-` and the number without its sign.
pub proof fn law_decimal_by_digit(n: nat)
    ensures
        n < 10 ==> decimal(n as int) == seq![(48 + n) as u8],
        n >= 10 ==> decimal(n as int) == decimal((n / 10) as int).push((48 + n % 10) as u8),
        n > 0 ==> decimal(-(n as int)) == seq![45u8] + decimal(n as int),
{
}

/// Law: how numbers are read: one digit as itself, one digit more as ten times the number and
/// that digit, with the sign of the number, as far as an `i32` goes. Whatever holds anything
/// but digits behind a sign is no number, and what is no number becomes none by a further digit
/// unless it was a sign alone.
pub proof fn law_parsed_by_digit(text: Seq<u8>, c: u8)
    ensures
        parsed(Seq::empty()) is None,
        parsed(seq![c]) == if 48 <= c <= 57 {
            Some((c - 48) as i32)
        } else {
            None
        },
        text.len() > 0 && !(48 <= c <= 57) ==> parsed(text.push(c)) is None,
        48 <= c <= 57 ==> parsed(seq![45u8, c]) == Some((48 - c) as i32),
        48 <= c <= 57 ==> parsed(seq![43u8, c]) == Some((c - 48) as i32),
        text.len() > 0 && parsed(text) is None && text != seq![45u8] && text != seq![43u8]
            ==> parsed(text.push(c)) is None,
        48 <= c <= 57 ==> (parsed(text) matches Some(n) ==> {
            let value = if text[0] == 45 {
                n * 10 - (c - 48)
            } else {
                n * 10 + (c - 48)
            };
            parsed(text.push(c)) == if i32::MIN <= value <= i32::MAX {
                Some(value as i32)
            } else {
                None
            }
        }),
{
    reveal_with_fuel(number, 3);
    let longer = text.push(c);
    assert(seq![c].skip(1) =~= Seq::<u8>::empty());
    assert(seq![c].drop_last() =~= Seq::<u8>::empty());
    assert(seq![45u8, c].skip(1) =~= seq![c]);
    assert(seq![43u8, c].skip(1) =~= seq![c]);
    if text.len() > 0 {
        let rest = unsigned(text);
        let more = unsigned(longer);
        assert(more =~= rest.push(c));
        assert(more.drop_last() =~= rest);
        assert(more[rest.len() as int] == c);
        if all_digits(more) {
            assert forall|i: int| 0 <= i < rest.len() implies 48 <= #[trigger] rest[i] <= 57 by {
                assert(more[i] == rest[i]);
            }
        }
        if all_digits(rest) && 48 <= c <= 57 {
            assert(all_digits(more));
            lemma_number_grows(rest, rest.len() as int);
        }
        if rest.len() == 0 {
            assert(text =~= seq![text[0]]);
        }
    }
}

/// Law: bytes of a text are its characters one by one.
pub proof fn law_ascii(text: Seq<u8>)
    ensures
        ascii(text).len() == text.len(),
        forall|i: int| 0 <= i < text.len() ==> (#[trigger] ascii(text)[i]) as u32 == text[i] as u32,
{
}

} // verus!
