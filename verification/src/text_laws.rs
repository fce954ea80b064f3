//! What texts are cut into, compared by, and written from.
use vstd::prelude::*;
use crate::text::{
    all_digits, decimal_text, digit_char, digits_value, first_of, hex_digit, hex_text, lines_of,
    lower_text, number_in, split_at, text_before, trimmed, trimmed_end, trimmed_start, upper_text,
    white_space,
};

verus! {

/// Texts are ordered by the first character in which they differ; what goes on comes
/// after what ends.
pub proof fn first_difference_decides(
    common: Seq<char>,
    a: char,
    b: char,
    rest_a: Seq<char>,
    rest_b: Seq<char>,
)
    ensures
        (a as int) < (b as int) ==> text_before(
            common + seq![a] + rest_a,
            common + seq![b] + rest_b,
        ) && !text_before(common + seq![b] + rest_b, common + seq![a] + rest_a),
        text_before(common, common + seq![a] + rest_a),
        !text_before(common + seq![a] + rest_a, common),
    decreases common.len(),
{
    let longer_a = common + seq![a] + rest_a;
    let longer_b = common + seq![b] + rest_b;
    if common.len() > 0 {
        let rest = common.drop_first();
        first_difference_decides(rest, a, b, rest_a, rest_b);
        assert(longer_a.drop_first() =~= rest + seq![a] + rest_a);
        assert(longer_b.drop_first() =~= rest + seq![b] + rest_b);
        assert(longer_a[0] == common[0] && longer_b[0] == common[0]);
    } else {
        assert(longer_a[0] == a && longer_b[0] == b);
    }
}

/// A number is read again from how it is written, where it is not too large; it is
/// written in digits, without a zero in front.
pub proof fn number_is_read_as_written(n: nat, max: nat)
    ensures
        all_digits(decimal_text(n)),
        digits_value(decimal_text(n)) == n,
        decimal_text(n).len() > 0,
        n > 0 ==> decimal_text(n)[0] != '0',
        n <= max ==> number_in(decimal_text(n), max) == Some(n),
        n > max ==> number_in(decimal_text(n), max) is None,
{
    lemma_decimal(n);
    let text = decimal_text(n);
    assert('0' <= text[0] <= '9');
}

proof fn lemma_decimal(n: nat)
    ensures
        all_digits(decimal_text(n)),
        digits_value(decimal_text(n)) == n,
        decimal_text(n).len() > 0,
        n > 0 ==> decimal_text(n)[0] != '0',
    decreases n,
{
    let text = decimal_text(n);
    if n < 10 {
        assert(text.drop_last() =~= Seq::<char>::empty());
        assert(digits_value(text.drop_last()) == 0);
        assert(text.last() == digit_char(n));
        assert(text[0] == digit_char(n));
    } else {
        lemma_decimal(n / 10);
        assert(text.drop_last() =~= decimal_text(n / 10));
        assert(text.last() == digit_char(n % 10));
        assert(text[0] == decimal_text(n / 10)[0]);
        assert forall|i: int| 0 <= i < text.len() implies '0' <= #[trigger] text[i] <= '9' by {
            if i < text.len() - 1 {
                assert(text[i] == decimal_text(n / 10)[i]);
            }
        }
    }
}

/// Nothing is read as a number that holds anything but digits, behind at most one plus
/// sign, or nothing at all.
pub proof fn only_digits_are_a_number(text: Seq<char>, max: nat, i: int)
    ensures
        text.len() == 0 ==> number_in(text, max) is None,
        0 < i < text.len() && !('0' <= text[i] <= '9') ==> number_in(text, max) is None,
        text.len() > 0 && text[0] != '+' && !('0' <= text[0] <= '9') ==> number_in(
            text,
            max,
        ) is None,
        number_in(text, max) is Some ==> number_in(text, max)->0 <= max,
{
    if 0 < i < text.len() && !('0' <= text[i] <= '9') {
        if text[0] == '+' {
            assert(text.drop_first()[i - 1] == text[i]);
        }
    }
}

/// What white space is.
pub proof fn blanks_are_white_space()
    ensures
        white_space(' '),
        white_space('\t'),
        white_space('\n'),
        white_space('\r'),
        !white_space('a'),
        !white_space('0'),
        !white_space(','),
{
}

proof fn lemma_trimmed_start(text: Seq<char>) -> (n: int)
    ensures
        0 <= n <= text.len(),
        trimmed_start(text) == text.skip(n),
        forall|i: int| 0 <= i < n ==> white_space(#[trigger] text[i]),
        trimmed_start(text).len() > 0 ==> !white_space(trimmed_start(text)[0]),
    decreases text.len(),
{
    if text.len() > 0 && white_space(text[0]) {
        let m = lemma_trimmed_start(text.drop_first());
        assert(text.drop_first().skip(m) =~= text.skip(m + 1));
        assert forall|i: int| 0 <= i < m + 1 implies white_space(#[trigger] text[i]) by {
            if i > 0 {
                assert(text.drop_first()[i - 1] == text[i]);
            }
        }
        m + 1
    } else {
        assert(text.skip(0) =~= text);
        0
    }
}

proof fn lemma_trimmed_end(text: Seq<char>) -> (n: int)
    ensures
        0 <= n <= text.len(),
        trimmed_end(text) == text.take(n),
        forall|i: int| n <= i < text.len() ==> white_space(#[trigger] text[i]),
        trimmed_end(text).len() > 0 ==> !white_space(trimmed_end(text).last()),
    decreases text.len(),
{
    if text.len() > 0 && white_space(text.last()) {
        let n = lemma_trimmed_end(text.drop_last());
        assert(text.drop_last().take(n) =~= text.take(n));
        assert forall|i: int| n <= i < text.len() implies white_space(#[trigger] text[i]) by {
            if i < text.len() - 1 {
                assert(text.drop_last()[i] == text[i]);
            }
        }
        n
    } else {
        assert(text.take(text.len() as int) =~= text);
        text.len() as int
    }
}

/// A trimmed text is a stretch of the text that neither begins nor ends with white
/// space, and what stands before and behind it is white space.
pub proof fn trimming_cuts_white_space(text: Seq<char>)
    ensures
        exists|from: int, to: int| #[trigger] is_trimmed_to(text, from, to),
        trimmed(text).len() > 0 ==> !white_space(trimmed(text)[0]) && !white_space(
            trimmed(text).last(),
        ),
{
    let from = lemma_trimmed_start(text);
    let rest = trimmed_start(text);
    let n = lemma_trimmed_end(rest);
    assert(trimmed(text) =~= text.subrange(from, from + n));
    assert forall|i: int| from + n <= i < text.len() implies white_space(#[trigger] text[i]) by {
        assert(rest[i - from] == text[i]);
    }
    assert(is_trimmed_to(text, from, from + n));
}

/// Whether a text is trimmed to a stretch of it.
pub open spec fn is_trimmed_to(text: Seq<char>, from: int, to: int) -> bool {
    &&& 0 <= from <= to <= text.len()
    &&& trimmed(text) == text.subrange(from, to)
    &&& forall|i: int| 0 <= i < from ==> white_space(#[trigger] text[i])
    &&& forall|i: int| to <= i < text.len() ==> white_space(#[trigger] text[i])
}

/// Pieces with a character between them.
pub open spec fn joined(pieces: Seq<Seq<char>>, c: char) -> Seq<char>
    decreases pieces.len(),
{
    if pieces.len() == 0 {
        Seq::empty()
    } else if pieces.len() == 1 {
        pieces[0]
    } else {
        pieces[0] + seq![c] + joined(pieces.drop_first(), c)
    }
}

proof fn lemma_first(text: Seq<char>, c: char)
    ensures
        0 <= first_of(text, c) <= text.len(),
        forall|i: int| 0 <= i < first_of(text, c) ==> #[trigger] text[i] != c,
        first_of(text, c) < text.len() ==> text[first_of(text, c)] == c,
    decreases text.len(),
{
    if text.len() > 0 && text[0] != c {
        let rest = text.drop_first();
        lemma_first(rest, c);
        assert forall|i: int| 0 <= i < first_of(text, c) implies #[trigger] text[i] != c by {
            if i > 0 {
                assert(rest[i - 1] == text[i]);
            }
        }
    }
}

/// A text that is split gives pieces without the character it is split at, at least one
/// of them; with that character between them they are the text.
pub proof fn pieces_make_up_the_text(text: Seq<char>, c: char)
    ensures
        split_at(text, c).len() > 0,
        joined(split_at(text, c), c) == text,
        forall|i: int, j: int|
            0 <= i < split_at(text, c).len() && 0 <= j < split_at(text, c)[i].len()
                ==> #[trigger] split_at(text, c)[i][j] != c,
    decreases text.len(),
{
    let end = first_of(text, c);
    lemma_first(text, c);
    let pieces = split_at(text, c);
    if end < text.len() {
        let head = text.take(end);
        let rest = text.skip(end + 1);
        pieces_make_up_the_text(rest, c);
        assert(pieces == seq![head] + split_at(rest, c));
        assert(pieces.drop_first() =~= split_at(rest, c));
        assert(pieces[0] == head);
        assert(head + seq![c] + rest =~= text);
        assert forall|i: int, j: int|
            0 <= i < pieces.len() && 0 <= j < pieces[i].len() implies #[trigger] pieces[i][j]
            != c by {
            if i == 0 {
                assert(head[j] == text[j]);
            } else {
                assert(pieces[i] == split_at(rest, c)[i - 1]);
            }
        }
    } else {
        assert(pieces =~= seq![text]);
    }
}

/// A text of hexadecimal digits has as many as are asked for, and is worth the number,
/// or what is left of it in so many digits.
pub proof fn hexadecimal_is_worth_its_number(n: nat, digits: nat)
    ensures
        hex_text(n, digits).len() == digits,
        hex_value(hex_text(n, digits)) == n % power(digits),
    decreases digits,
{
    let text = hex_text(n, digits);
    if digits > 0 {
        let rest = (digits - 1) as nat;
        hexadecimal_is_worth_its_number(n / 16, rest);
        assert(text.drop_last() =~= hex_text(n / 16, rest));
        assert(text.last() == hex_digit(n % 16));
        assert(hex_digit_value(text.last()) == n % 16);
        let p = power(rest);
        lemma_power_positive(rest);
        assert(n % (16 * p) == ((n / 16) % p) * 16 + n % 16) by (nonlinear_arith)
            requires
                p > 0,
        {
            let q = n / 16;
            let r = n % 16;
            assert(n == q * 16 + r);
            let a = q / p;
            let b = q % p;
            assert(q == a * p + b);
            assert(n == a * (16 * p) + (b * 16 + r));
            assert(0 <= b * 16 + r < 16 * p);
            vstd::arithmetic::div_mod::lemma_fundamental_div_mod_converse(
                n as int,
                (16 * p) as int,
                a as int,
                (b * 16 + r) as int,
            );
        }
    } else {
        assert(n % 1 == 0);
    }
}

/// Sixteen, so many times.
pub open spec fn power(digits: nat) -> nat
    decreases digits,
{
    if digits == 0 {
        1
    } else {
        16 * power((digits - 1) as nat)
    }
}

proof fn lemma_power_positive(digits: nat)
    ensures
        power(digits) > 0,
    decreases digits,
{
    if digits > 0 {
        lemma_power_positive((digits - 1) as nat);
    }
}

/// What a hexadecimal digit is worth.
pub open spec fn hex_digit_value(c: char) -> nat {
    if '0' <= c <= '9' {
        ((c as int) - 48) as nat
    } else {
        ((c as int) - 87) as nat
    }
}

/// What a text of hexadecimal digits is worth.
pub open spec fn hex_value(text: Seq<char>) -> nat
    decreases text.len(),
{
    if text.len() == 0 {
        0
    } else {
        hex_value(text.drop_last()) * 16 + hex_digit_value(text.last())
    }
}

/// Small and large letters of the Latin alphabet are turned into each other, and no
/// other character is changed.
pub proof fn case_is_turned(text: Seq<char>, i: int)
    requires
        0 <= i < text.len(),
    ensures
        lower_text(text).len() == text.len(),
        upper_text(text).len() == text.len(),
        'A' <= text[i] <= 'Z' ==> lower_text(text)[i] as int == (text[i] as int) + 32,
        !('A' <= text[i] <= 'Z') ==> lower_text(text)[i] == text[i],
        'a' <= text[i] <= 'z' ==> upper_text(text)[i] as int == (text[i] as int) - 32,
        !('a' <= text[i] <= 'z') ==> upper_text(text)[i] == text[i],
{
}

/// The lines of a text stand between its line feeds, without a carriage return at their
/// ends; a last line feed opens no line.
pub proof fn lines_end_at_line_feeds(line: Seq<char>, rest: Seq<char>)
    requires
        forall|i: int| 0 <= i < line.len() ==> #[trigger] line[i] != '\n',
    ensures
        lines_of(Seq::empty()).len() == 0,
        line.len() > 0 ==> lines_of(line) == seq![line],
        lines_of(line + seq!['\n'] + rest) == seq![
            if line.len() > 0 && line.last() == '\r' {
                line.drop_last()
            } else {
                line
            },
        ] + lines_of(rest),
{
    let text = line + seq!['\n'] + rest;
    lemma_first(text, '\n');
    let end = first_of(text, '\n');
    assert(text[line.len() as int] == '\n');
    if end < line.len() {
        assert(text[end] == line[end]);
    }
    assert(end == line.len());
    assert(text.take(end) =~= line);
    assert(text.skip(end + 1) =~= rest);
    lemma_first(line, '\n');
}

} // verus!
