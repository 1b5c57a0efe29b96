//! Text: numbers as digits, and strings joined and split at a separator.
use crate::error::texts;
use vstd::prelude::*;
use vstd::string::*;

verus! {

/// The digit of value `d`, lower case above nine.
pub open spec fn digit(d: int) -> char {
    if d < 10 {
        (48 + d) as char
    } else {
        (87 + d) as char
    }
}

/// A number in decimal digits, without leading zeros.
pub open spec fn decimal(n: nat) -> Seq<char>
    decreases n,
{
    if n < 10 {
        seq![digit(n as int)]
    } else {
        decimal(n / 10).push(digit((n % 10) as int))
    }
}

/// A number that may be negative in decimal digits, without leading zeros.
pub open spec fn signed_decimal(n: int) -> Seq<char> {
    if n < 0 {
        "-"@ + decimal((-n) as nat)
    } else {
        decimal(n as nat)
    }
}

/// A byte as two hexadecimal digits.
pub open spec fn hex_byte(b: u8) -> Seq<char> {
    seq![digit(b as int / 16), digit(b as int % 16)]
}

/// The parts one after another, with the separator between each two.
pub open spec fn joined(parts: Seq<Seq<char>>, separator: Seq<char>) -> Seq<char>
    decreases parts.len(),
{
    if parts.len() == 0 {
        Seq::empty()
    } else if parts.len() == 1 {
        parts[0]
    } else {
        joined(parts.drop_last(), separator) + separator + parts.last()
    }
}

/// The parts between the separators, of which there is always at least one.
pub open spec fn split_at_each(s: Seq<char>, separator: char) -> Seq<Seq<char>>
    decreases s.len(),
{
    if s.len() == 0 {
        seq![Seq::empty()]
    } else {
        let parts = split_at_each(s.drop_last(), separator);
        if s.last() == separator {
            parts.push(Seq::empty())
        } else {
            parts.drop_last().push(parts.last().push(s.last()))
        }
    }
}

/// The text of the digit of value `d`.
fn digit_text(d: usize) -> (text: &'static str)
    requires
        d < 16,
    ensures
        text@ == seq![digit(d as int)],
{
    let digits: &'static str = "0123456789abcdef";
    proof {
        reveal_strlit("0123456789abcdef");
        assert(digits@.len() == 16);
        assert(digits@[d as int] == digit(d as int));
    }
    digits.substring_char(d, d + 1)
}

/// Writes a number that may be negative in decimal.
pub fn signed_decimal_text(n: i32) -> (text: String)
    ensures
        text@ == signed_decimal(n as int),
{
    if n < 0 {
        let mut text: String = "-".to_owned();
        text.append(decimal_text((-(n as i64)) as u64).as_str());
        text
    } else {
        decimal_text(n as u64)
    }
}

/// Writes a number in decimal.
pub fn decimal_text(n: u64) -> (text: String)
    ensures
        text@ == decimal(n as nat),
    decreases n,
{
    let mut text: String = if n < 10 {
        String::new()
    } else {
        decimal_text(n / 10)
    };
    text.append(digit_text((n % 10) as usize));
    text
}

/// Writes a byte in hexadecimal, always with two digits.
pub fn hex_byte_text(b: u8) -> (text: String)
    ensures
        text@ == hex_byte(b),
{
    let mut text: String = digit_text((b / 16) as usize).to_owned();
    text.append(digit_text((b % 16) as usize));
    text
}

/// Joins the parts with the separator between each two of them.
pub fn join(parts: &Vec<String>, separator: &str) -> (text: String)
    ensures
        text@ == joined(texts(parts@), separator@),
{
    let mut text: String = String::new();
    let ghost all: Seq<Seq<char>> = texts(parts@);
    for i in 0..parts.len()
        invariant
            all == texts(parts@),
            text@ == joined(all.take(i as int), separator@),
    {
        if i > 0 {
            text.append(separator);
        }
        text.append(parts[i].as_str());
        proof {
            assert(all.take(i + 1).drop_last() == all.take(i as int));
            assert(all.take(i + 1).last() == parts@[i as int]@);
        }
    }
    assert(all.take(parts@.len() as int) == all);
    text
}

/// Splits a text at each separator.
pub fn split(s: &str, separator: char) -> (parts: Vec<String>)
    ensures
        texts(parts@) == split_at_each(s@, separator),
{
    let len: usize = s.unicode_len();
    let mut parts: Vec<String> = Vec::new();
    let mut start: usize = 0;
    proof {
        assert(s@.subrange(0, 0) == Seq::<char>::empty());
        assert(texts(parts@).push(Seq::<char>::empty()) == seq![Seq::<char>::empty()]);
    }
    for i in 0..len
        invariant
            len == s@.len(),
            start <= i,
            texts(parts@).push(s@.subrange(start as int, i as int)) == split_at_each(
                s@.take(i as int),
                separator,
            ),
    {
        let ghost before: Seq<Seq<char>> = texts(parts@);
        let ghost piece: Seq<char> = s@.subrange(start as int, i as int);
        proof {
            assert(s@.take(i + 1).drop_last() == s@.take(i as int));
            assert(s@.take(i + 1).last() == s@[i as int]);
            assert(before.push(piece).drop_last() == before);
            assert(before.push(piece).last() == piece);
        }
        if s.get_char(i) == separator {
            parts.push(s.substring_char(start, i).to_owned());
            start = i + 1;
            proof {
                assert(texts(parts@) == before.push(piece));
                assert(s@.subrange(start as int, i + 1) == Seq::<char>::empty());
            }
        } else {
            assert(s@.subrange(start as int, i + 1) == piece.push(s@[i as int]));
        }
    }
    let ghost before: Seq<Seq<char>> = texts(parts@);
    parts.push(s.substring_char(start, len).to_owned());
    proof {
        assert(texts(parts@) == before.push(s@.subrange(start as int, len as int)));
        assert(s@.take(len as int) == s@);
    }
    parts
}

/// Splitting and joining with the same separator gives the text back.
pub proof fn split_then_join(s: Seq<char>, separator: char)
    ensures
        joined(split_at_each(s, separator), seq![separator]) == s,
        split_at_each(s, separator).len() > 0,
    decreases s.len(),
{
    if s.len() > 0 {
        let parts = split_at_each(s.drop_last(), separator);
        split_then_join(s.drop_last(), separator);
        if s.last() == separator {
            let all = parts.push(Seq::empty());
            assert(all.drop_last() == parts);
            assert(joined(all, seq![separator]) == s.drop_last() + seq![separator]);
            assert(s.drop_last() + seq![separator] == s);
        } else {
            let all = parts.drop_last().push(parts.last().push(s.last()));
            assert(all.drop_last() == parts.drop_last());
            if parts.len() == 1 {
                assert(joined(all, seq![separator]) == s.drop_last().push(s.last()));
            } else {
                assert(joined(all, seq![separator]) == joined(parts, seq![separator]).push(
                    s.last(),
                ));
            }
            assert(s.drop_last().push(s.last()) == s);
        }
    } else {
        assert(joined(split_at_each(s, separator), seq![separator]) == s);
    }
}

/// No part of a split text holds the separator.
pub proof fn split_parts_hold_no_separator(s: Seq<char>, separator: char)
    ensures
        forall|i: int, j: int|
            #![trigger split_at_each(s, separator)[i][j]]
            0 <= i < split_at_each(s, separator).len() && 0 <= j < split_at_each(
                s,
                separator,
            )[i].len() ==> split_at_each(s, separator)[i][j] != separator,
    decreases s.len(),
{
    if s.len() > 0 {
        split_parts_hold_no_separator(s.drop_last(), separator);
        split_then_join(s.drop_last(), separator);
        let parts = split_at_each(s.drop_last(), separator);
        assert forall|i: int, j: int|
            #![trigger split_at_each(s, separator)[i][j]]
            0 <= i < split_at_each(s, separator).len() && 0 <= j < split_at_each(
                s,
                separator,
            )[i].len() implies split_at_each(s, separator)[i][j] != separator by {
            if i < parts.len() - 1 {
                assert(split_at_each(s, separator)[i] == parts[i]);
                assert(parts[i][j] != separator);
            } else if s.last() == separator && i == parts.len() - 1 {
                assert(parts[i][j] != separator);
            } else if s.last() != separator && j < parts.last().len() {
                assert(parts[parts.len() - 1][j] != separator);
            }
        }
    }
}

/// The value of a digit.
pub open spec fn digit_value(c: char) -> int {
    if '0' <= c <= '9' {
        c as int - '0' as int
    } else {
        c as int - 'a' as int + 10
    }
}

/// The number that some decimal digits stand for.
pub open spec fn decimal_value(s: Seq<char>) -> int
    decreases s.len(),
{
    if s.len() == 0 {
        0
    } else {
        10 * decimal_value(s.drop_last()) + digit_value(s.last())
    }
}

/// A number is written in digits that stand for it, and for no other number, without a zero in
/// front of another digit.
pub proof fn a_number_is_read_back(n: nat)
    ensures
        decimal(n).len() > 0,
        decimal_value(decimal(n)) == n,
        forall|i: int| 0 <= i < decimal(n).len() ==> '0' <= #[trigger] decimal(n)[i] <= '9',
        decimal(n)[0] == '0' ==> n == 0 && decimal(n).len() == 1,
    decreases n,
{
    if n < 10 {
        assert(decimal(n).drop_last().len() == 0);
        assert(decimal_value(decimal(n).drop_last()) == 0);
        assert(decimal(n).last() == digit(n as int));
    } else {
        let front = decimal(n / 10);
        a_number_is_read_back(n / 10);
        assert(decimal(n).drop_last() == front);
        assert(decimal(n).last() == digit((n % 10) as int));
        assert(decimal(n)[0] == front[0]);
        assert forall|i: int| 0 <= i < decimal(n).len() implies '0' <= #[trigger] decimal(n)[i]
            <= '9' by {
            if i < front.len() {
                assert(decimal(n)[i] == front[i]);
            }
        }
    }
}

/// A negative number is the number without its sign after a minus, and only a negative one has a
/// minus.
pub proof fn a_signed_number_is_read_back(n: int)
    ensures
        n >= 0 ==> decimal_value(signed_decimal(n)) == n && signed_decimal(n)[0] != '-',
        n < 0 ==> signed_decimal(n).len() > 1 && signed_decimal(n)[0] == '-' && decimal_value(
            signed_decimal(n).skip(1),
        ) == -n,
        n != 0 ==> signed_decimal(n)[if n < 0 {
            1
        } else {
            0
        }] != '0',
        forall|i: int|
            (n < 0 ==> 1 <= i) && 0 <= i < signed_decimal(n).len() ==> '0'
                <= #[trigger] signed_decimal(n)[i] <= '9',
{
    reveal_strlit("-");
    a_number_is_read_back(
        if n < 0 {
            (-n) as nat
        } else {
            n as nat
        },
    );
    if n < 0 {
        let digits = decimal((-n) as nat);
        assert(signed_decimal(n).skip(1) == digits);
        assert forall|i: int| 1 <= i < signed_decimal(n).len() implies '0'
            <= #[trigger] signed_decimal(n)[i] <= '9' by {
            assert(signed_decimal(n)[i] == digits[i - 1]);
        }
    }
}

/// A byte is written in two digits, lower case, that stand for it.
pub proof fn a_byte_is_read_back(b: u8)
    ensures
        hex_byte(b).len() == 2,
        16 * digit_value(hex_byte(b)[0]) + digit_value(hex_byte(b)[1]) == b,
        forall|i: int|
            0 <= i < 2 ==> ('0' <= #[trigger] hex_byte(b)[i] <= '9') || ('a' <= hex_byte(b)[i]
                <= 'f'),
{
}

/// Texts that are joined stand whole and in order, with the separator between each two of them
/// and nowhere else: one alone is as it is, and two rows of them joined are the first joined, the
/// separator, and the second joined.
pub proof fn joining_puts_the_separator_between(
    part: Seq<char>,
    first: Seq<Seq<char>>,
    second: Seq<Seq<char>>,
    separator: Seq<char>,
)
    requires
        first.len() > 0,
        second.len() > 0,
    ensures
        joined(Seq::empty(), separator).len() == 0,
        joined(seq![part], separator) == part,
        joined(first + second, separator) == joined(first, separator) + separator + joined(
            second,
            separator,
        ),
    decreases second.len(),
{
    let all = first + second;
    assert(all.last() == second.last());
    assert(all.drop_last() == first + second.drop_last());
    if second.len() == 1 {
        assert(all.drop_last() == first);
    } else {
        joining_puts_the_separator_between(part, first, second.drop_last(), separator);
        assert(joined(all, separator) == joined(first, separator) + separator + joined(
            second,
            separator,
        ));
    }
}

proof fn lemma_split_append(s: Seq<char>, piece: Seq<char>, separator: char)
    requires
        !piece.contains(separator),
    ensures
        split_at_each(s + piece, separator) == split_at_each(s, separator).drop_last().push(
            split_at_each(s, separator).last() + piece,
        ),
    decreases piece.len(),
{
    split_then_join(s, separator);
    let parts = split_at_each(s, separator);
    if piece.len() == 0 {
        assert(s + piece == s);
        assert(parts.last() + piece == parts.last());
        assert(parts.drop_last().push(parts.last()) == parts);
    } else {
        let front = piece.drop_last();
        assert(piece[piece.len() - 1] != separator);
        assert(!front.contains(separator)) by {
            if front.contains(separator) {
                let i = choose|i: int| 0 <= i < front.len() && front[i] == separator;
                assert(piece[i] == separator);
            }
        }
        lemma_split_append(s, front, separator);
        let whole = s + piece;
        assert(whole.drop_last() == s + front);
        assert(whole.last() == piece.last());
        let before = split_at_each(s + front, separator);
        assert(before.drop_last() == parts.drop_last());
        assert(before.last().push(piece.last()) == parts.last() + piece);
    }
}

/// Texts without the separator that are joined by it are what the joined text is split into.
pub proof fn join_then_split(parts: Seq<Seq<char>>, separator: char)
    requires
        parts.len() > 0,
        forall|i: int| 0 <= i < parts.len() ==> !(#[trigger] parts[i]).contains(separator),
    ensures
        split_at_each(joined(parts, seq![separator]), separator) == parts,
    decreases parts.len(),
{
    let last = parts.last();
    assert(!parts[parts.len() - 1].contains(separator));
    let nothing = Seq::<char>::empty();
    if parts.len() == 1 {
        lemma_split_append(nothing, last, separator);
        assert(nothing + last == last);
        assert(split_at_each(nothing, separator) == seq![nothing]);
        assert(seq![nothing].drop_last().push(nothing + last) == parts);
    } else {
        let front = parts.drop_last();
        assert forall|i: int| 0 <= i < front.len() implies !(#[trigger] front[i]).contains(
            separator,
        ) by {
            assert(front[i] == parts[i]);
        }
        join_then_split(front, separator);
        let s = joined(front, seq![separator]) + seq![separator];
        assert(s.drop_last() == joined(front, seq![separator]));
        assert(split_at_each(s, separator) == front.push(nothing));
        lemma_split_append(s, last, separator);
        assert(front.push(nothing).drop_last() == front);
        assert(nothing + last == last);
        assert(joined(parts, seq![separator]) == s + last);
        assert(front.push(last) == parts);
    }
}

} // verus!
