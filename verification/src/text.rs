//! Strings as sequences of characters: their order, and the small operations
//! on them that the rest of the library is built from.
use vstd::prelude::*;

verus! {

/// Whether `a` comes strictly before `b` in the order of character codes:
/// where they first differ `a` has the smaller code, or `a` is a proper prefix
/// of `b`.
pub open spec fn text_before(a: Seq<char>, b: Seq<char>) -> bool
    decreases a.len(),
{
    if b.len() == 0 {
        false
    } else if a.len() == 0 {
        true
    } else if a[0] != b[0] {
        (a[0] as int) < (b[0] as int)
    } else {
        text_before(a.drop_first(), b.drop_first())
    }
}

/// No text comes before itself.
pub proof fn lemma_text_before_irreflexive(a: Seq<char>)
    ensures
        !text_before(a, a),
    decreases a.len(),
{
    if a.len() > 0 {
        lemma_text_before_irreflexive(a.drop_first());
    }
}

/// The order of texts is transitive.
pub proof fn lemma_text_before_transitive(a: Seq<char>, b: Seq<char>, c: Seq<char>)
    requires
        text_before(a, b),
        text_before(b, c),
    ensures
        text_before(a, c),
    decreases a.len(),
{
    if a.len() > 0 && a[0] == b[0] && b[0] == c[0] {
        lemma_text_before_transitive(a.drop_first(), b.drop_first(), c.drop_first());
    }
}

/// Of two different texts one comes before the other.
pub proof fn lemma_text_before_total(a: Seq<char>, b: Seq<char>)
    requires
        a != b,
    ensures
        text_before(a, b) || text_before(b, a),
    decreases a.len(),
{
    if a.len() == 0 {
        assert(b.len() > 0) by {
            if b.len() == 0 {
                assert(a =~= b);
            }
        }
    } else if b.len() > 0 && a[0] == b[0] {
        if a.drop_first() == b.drop_first() {
            assert(a =~= seq![a[0]] + a.drop_first());
            assert(b =~= seq![b[0]] + b.drop_first());
        }
        lemma_text_before_total(a.drop_first(), b.drop_first());
    }
}

/// `String::push`: the character is added at the end.
pub assume_specification[ String::push ](text: &mut String, ch: char)
    ensures
        final(text)@ == old(text)@.push(ch),
;

/// Whether the code of `x` is smaller than that of `y`.
pub fn char_before(x: char, y: char) -> (before: bool)
    ensures
        before == ((x as int) < (y as int)),
{
    (x as u32) < (y as u32)
}

/// The characters of a text.
pub fn letters(text: &str) -> (chars: Vec<char>)
    ensures
        chars@ == text@,
{
    let mut chars: Vec<char> = Vec::new();
    for c in it: text.chars()
        invariant
            it.seq() == text@,
            chars@ == text@.take(it.index() as int),
    {
        chars.push(c);
    }
    proof {
        assert(text@.take(text@.len() as int) =~= text@);
    }
    chars
}

/// The text made of `chars[from..to]`.
pub fn text_of(chars: &Vec<char>, from: usize, to: usize) -> (text: String)
    requires
        from <= to <= chars@.len(),
    ensures
        text@ == chars@.subrange(from as int, to as int),
{
    let mut text = String::new();
    let mut i: usize = from;
    while i < to
        invariant
            from <= i <= to <= chars@.len(),
            text@ == chars@.subrange(from as int, i as int),
        decreases to - i,
    {
        text.push(chars[i]);
        i += 1;
        proof {
            assert(chars@.subrange(from as int, i as int) =~= chars@.subrange(
                from as int,
                i - 1,
            ).push(chars@[i - 1]));
        }
    }
    text
}

/// Whether two texts hold the same characters.
pub fn same_text(a: &str, b: &str) -> (same: bool)
    ensures
        same == (a@ == b@),
{
    a.to_owned() == b.to_owned()
}

/// The decimal digit for a number below ten.
pub open spec fn digit_char(d: nat) -> char {
    (('0' as u32) + d) as char
}

/// A number written in decimal.
pub open spec fn decimal_text(n: nat) -> Seq<char>
    decreases n,
{
    if n < 10 {
        seq![digit_char(n)]
    } else {
        decimal_text(n / 10).push(digit_char(n % 10))
    }
}

/// The decimal digit for a number below ten.
fn digit(d: u64) -> (c: char)
    requires
        d < 10,
    ensures
        c == digit_char(d as nat),
{
    match d {
        0 => '0',
        1 => '1',
        2 => '2',
        3 => '3',
        4 => '4',
        5 => '5',
        6 => '6',
        7 => '7',
        8 => '8',
        _ => '9',
    }
}

/// A number written in decimal.
pub fn decimal(n: u64) -> (text: String)
    ensures
        text@ == decimal_text(n as nat),
    decreases n,
{
    if n < 10 {
        let mut text = String::new();
        text.push(digit(n));
        proof {
            assert(text@ =~= decimal_text(n as nat));
        }
        text
    } else {
        let mut text = decimal(n / 10);
        text.push(digit(n % 10));
        text
    }
}

/// A text in double quotes, as `Debug` writes it.
pub uninterp spec fn quoted_text(text: Seq<char>) -> Seq<char>;

/// `Debug` of a string: the text in double quotes, with what needs it escaped.
/// Claimed: it is a function of the text.
#[verifier::external_body]
pub(crate) fn quoted(text: &str) -> (out: String)
    ensures
        out@ == quoted_text(text@),
{
    format!("{:?}", text)
}

/// Different numbers are written differently.
pub proof fn lemma_decimal_injective(a: nat, b: nat)
    requires
        decimal_text(a) == decimal_text(b),
    ensures
        a == b,
    decreases a,
{
    let x = decimal_text(a);
    let y = decimal_text(b);
    lemma_decimal_len(a);
    lemma_decimal_len(b);
    if a < 10 || b < 10 {
        assert(x.len() == 1 && y.len() == 1);
        assert(x[0] == y[0]);
        assert(x[0] as int == 48 + a && y[0] as int == 48 + b);
    } else {
        assert(x.drop_last() =~= decimal_text(a / 10));
        assert(y.drop_last() =~= decimal_text(b / 10));
        assert(x.last() == digit_char(a % 10) && y.last() == digit_char(b % 10));
        assert(x.last() as int == 48 + a % 10 && y.last() as int == 48 + b % 10);
        lemma_decimal_injective(a / 10, b / 10);
        assert(a == 10 * (a / 10) + a % 10 && b == 10 * (b / 10) + b % 10);
    }
}

proof fn lemma_decimal_len(n: nat)
    ensures
        decimal_text(n).len() >= 1,
        decimal_text(n).len() == 1 <==> n < 10,
    decreases n,
{
    if n >= 10 {
        lemma_decimal_len(n / 10);
    }
}

/// Whether a character is white space, as Unicode defines it.
pub open spec fn white_space(c: char) -> bool {
    let n = c as int;
    ||| 0x09 <= n <= 0x0d
    ||| n == 0x20
    ||| n == 0x85
    ||| n == 0xa0
    ||| n == 0x1680
    ||| 0x2000 <= n <= 0x200a
    ||| n == 0x2028
    ||| n == 0x2029
    ||| n == 0x202f
    ||| n == 0x205f
    ||| n == 0x3000
}

/// Whether a character is white space, as Unicode defines it.
pub fn is_white(c: char) -> (white: bool)
    ensures
        white == white_space(c),
{
    let n: u32 = c as u32;
    (0x09 <= n && n <= 0x0d) || n == 0x20 || n == 0x85 || n == 0xa0 || n == 0x1680 || (0x2000 <= n
        && n <= 0x200a) || n == 0x2028 || n == 0x2029 || n == 0x202f || n == 0x205f || n == 0x3000
}

/// A text without the white space at its start.
pub open spec fn trimmed_start(text: Seq<char>) -> Seq<char>
    decreases text.len(),
{
    if text.len() > 0 && white_space(text[0]) {
        trimmed_start(text.drop_first())
    } else {
        text
    }
}

/// A text without the white space at its end.
pub open spec fn trimmed_end(text: Seq<char>) -> Seq<char>
    decreases text.len(),
{
    if text.len() > 0 && white_space(text.last()) {
        trimmed_end(text.drop_last())
    } else {
        text
    }
}

/// A text without the white space at its start and its end.
pub open spec fn trimmed(text: Seq<char>) -> Seq<char> {
    trimmed_end(trimmed_start(text))
}

/// Takes the white space off both ends of a text.
pub fn trim(text: &str) -> (out: String)
    ensures
        out@ == trimmed(text@),
{
    let chars = letters(text);
    let ghost all = chars@;
    let mut from: usize = 0;
    proof {
        assert(all.skip(0) =~= all);
    }
    while from < chars.len() && is_white(chars[from])
        invariant
            all == chars@,
            from <= chars.len(),
            trimmed_start(all) == trimmed_start(all.skip(from as int)),
        decreases chars.len() - from,
    {
        proof {
            assert(all.skip(from as int).drop_first() =~= all.skip(from + 1));
        }
        from += 1;
    }
    let ghost rest = all.skip(from as int);
    let mut to: usize = chars.len();
    proof {
        assert(trimmed_start(all) == rest);
        assert(all.subrange(from as int, to as int) =~= rest);
    }
    while from < to && is_white(chars[to - 1])
        invariant
            all == chars@,
            from <= to <= chars.len(),
            trimmed_end(rest) == trimmed_end(all.subrange(from as int, to as int)),
        decreases to - from,
    {
        proof {
            assert(all.subrange(from as int, to as int).drop_last() =~= all.subrange(
                from as int,
                to - 1,
            ));
        }
        to -= 1;
    }
    text_of(&chars, from, to)
}

/// The place of the first of `c` in a text, or its length.
pub open spec fn first_of(text: Seq<char>, c: char) -> int
    decreases text.len(),
{
    if text.len() == 0 || text[0] == c {
        0
    } else {
        1 + first_of(text.drop_first(), c)
    }
}

/// Where the first of a character stands.
pub proof fn lemma_first_of(text: Seq<char>, c: char)
    ensures
        0 <= first_of(text, c) <= text.len(),
        first_of(text, c) < text.len() ==> text[first_of(text, c)] == c,
        forall|i: int| 0 <= i < first_of(text, c) ==> #[trigger] text[i] != c,
    decreases text.len(),
{
    if text.len() > 0 && text[0] != c {
        lemma_first_of(text.drop_first(), c);
        assert forall|i: int| 0 <= i < first_of(text, c) implies #[trigger] text[i] != c by {
            if i > 0 {
                assert(text.drop_first()[i - 1] == text[i]);
            }
        }
    }
}

/// Where a character stands that stands nowhere before.
pub proof fn lemma_first_of_is(text: Seq<char>, c: char, i: int)
    requires
        0 <= i <= text.len(),
        forall|j: int| 0 <= j < i ==> #[trigger] text[j] != c,
        i < text.len() ==> text[i] == c,
    ensures
        first_of(text, c) == i,
    decreases text.len(),
{
    if i > 0 {
        assert(text[0] != c);
        assert forall|j: int| 0 <= j < i - 1 implies #[trigger] text.drop_first()[j] != c by {
            assert(text[j + 1] != c);
        }
        lemma_first_of_is(text.drop_first(), c, i - 1);
    }
}

/// A line without the carriage return at its end.
pub open spec fn without_return(line: Seq<char>) -> Seq<char> {
    if line.len() > 0 && line.last() == '\r' {
        line.drop_last()
    } else {
        line
    }
}

/// The lines of a text: each ends at a line feed, with or without a carriage
/// return before it; what follows the last line feed is a line if it is not
/// empty.
pub open spec fn lines_of(text: Seq<char>) -> Seq<Seq<char>>
    decreases text.len(),
    via lines_of_decreases
{
    if text.len() == 0 {
        Seq::empty()
    } else {
        let end = first_of(text, '\n');
        if end >= text.len() {
            seq![text]
        } else {
            seq![without_return(text.take(end))] + lines_of(text.skip(end + 1))
        }
    }
}

#[via_fn]
proof fn lines_of_decreases(text: Seq<char>) {
    lemma_first_of(text, '\n');
}

/// The lines of a text.
pub fn split_lines(text: &str) -> (lines: Vec<String>)
    ensures
        lines.deep_view() == lines_of(text@),
{
    let chars = letters(text);
    let ghost all = chars@;
    let mut lines: Vec<String> = Vec::new();
    let mut from: usize = 0;
    proof {
        assert(all.skip(0) =~= all);
        assert(lines.deep_view() + lines_of(all) =~= lines_of(all));
    }
    while from < chars.len()
        invariant
            all == chars@,
            all == text@,
            from <= chars.len(),
            lines.deep_view() + lines_of(all.skip(from as int)) == lines_of(all),
        decreases chars.len() - from,
    {
        let ghost rest = all.skip(from as int);
        let mut end: usize = from;
        while end < chars.len() && chars[end] != '\n'
            invariant
                all == chars@,
                from <= end <= chars.len(),
                rest == all.skip(from as int),
                forall|j: int| 0 <= j < end - from ==> #[trigger] rest[j] != '\n',
            decreases chars.len() - end,
        {
            end += 1;
        }
        proof {
            lemma_first_of_is(rest, '\n', end - from);
        }
        let ghost before = lines.deep_view();
        if end == chars.len() {
            lines.push(text_of(&chars, from, end));
            proof {
                assert(all.subrange(from as int, end as int) =~= rest);
                assert(lines.deep_view() =~= before.push(rest));
                assert(lines.deep_view() =~= lines_of(all));
            }
            return lines;
        }
        let stop: usize = if end > from && chars[end - 1] == '\r' {
            end - 1
        } else {
            end
        };
        lines.push(text_of(&chars, from, stop));
        proof {
            let line = rest.take(end - from);
            assert(line =~= all.subrange(from as int, end as int));
            if end > from {
                assert(line.last() == all[end - 1]);
            }
            assert(without_return(line) =~= all.subrange(from as int, stop as int));
            assert(lines.deep_view() =~= before.push(without_return(line)));
            assert(rest.skip(end - from + 1) =~= all.skip(end + 1));
            assert(lines.deep_view() + lines_of(all.skip(end + 1)) =~= before + (seq![
                without_return(line),
            ] + lines_of(all.skip(end + 1))));
        }
        from = end + 1;
    }
    proof {
        assert(all.skip(from as int) =~= Seq::<char>::empty());
        assert(lines.deep_view() =~= lines_of(all));
    }
    lines
}

/// The pieces of a text between the occurrences of a character.
pub open spec fn split_at(text: Seq<char>, c: char) -> Seq<Seq<char>>
    decreases text.len(),
    via split_at_decreases
{
    let end = first_of(text, c);
    if end >= text.len() {
        seq![text]
    } else {
        seq![text.take(end)] + split_at(text.skip(end + 1), c)
    }
}

#[via_fn]
proof fn split_at_decreases(text: Seq<char>, c: char) {
    lemma_first_of(text, c);
}

/// The pieces of a text between the occurrences of a character.
pub fn split_on(text: &str, c: char) -> (pieces: Vec<String>)
    ensures
        pieces.deep_view() == split_at(text@, c),
{
    let chars = letters(text);
    let ghost all = chars@;
    let mut pieces: Vec<String> = Vec::new();
    let mut from: usize = 0;
    let mut end: usize = 0;
    proof {
        assert(all.skip(0) =~= all);
        assert(pieces.deep_view() + split_at(all, c) =~= split_at(all, c));
    }
    while end < chars.len()
        invariant
            all == chars@,
            from <= end <= chars.len(),
            forall|j: int| from <= j < end ==> #[trigger] all[j] != c,
            pieces.deep_view() + split_at(all.skip(from as int), c) == split_at(all, c),
        decreases chars.len() - end,
    {
        if chars[end] == c {
            let ghost rest = all.skip(from as int);
            let ghost before = pieces.deep_view();
            pieces.push(text_of(&chars, from, end));
            proof {
                assert forall|j: int| 0 <= j < end - from implies #[trigger] rest[j] != c by {
                    assert(all[from + j] != c);
                }
                lemma_first_of_is(rest, c, end - from);
                assert(rest.take(end - from) =~= all.subrange(from as int, end as int));
                assert(rest.skip(end - from + 1) =~= all.skip(end + 1));
                assert(pieces.deep_view() =~= before.push(rest.take(end - from)));
                assert(pieces.deep_view() + split_at(all.skip(end + 1), c) =~= before + (seq![
                    rest.take(end - from),
                ] + split_at(all.skip(end + 1), c)));
            }
            from = end + 1;
        }
        end += 1;
    }
    let ghost rest = all.skip(from as int);
    let ghost before = pieces.deep_view();
    pieces.push(text_of(&chars, from, end));
    proof {
        assert forall|j: int| 0 <= j < end - from implies #[trigger] rest[j] != c by {
            assert(all[from + j] != c);
        }
        lemma_first_of_is(rest, c, end - from);
        assert(rest =~= all.subrange(from as int, end as int));
        assert(pieces.deep_view() =~= before.push(rest));
        assert(pieces.deep_view() =~= split_at(all, c));
    }
    pieces
}

/// Whether a text starts with another.
pub open spec fn begins_with(text: Seq<char>, start: Seq<char>) -> bool {
    start.len() <= text.len() && text.take(start.len() as int) == start
}

/// Whether a text holds another at a place.
pub open spec fn holds_at(text: Seq<char>, part: Seq<char>, i: int) -> bool {
    0 <= i && i + part.len() <= text.len() && text.subrange(i, i + part.len()) == part
}

/// Whether a text holds another anywhere.
pub open spec fn holds(text: Seq<char>, part: Seq<char>) -> bool {
    exists|i: int| holds_at(text, part, i)
}

/// Whether `chars` holds `part` from a place on.
fn matches_at(chars: &Vec<char>, part: &Vec<char>, from: usize) -> (same: bool)
    requires
        from <= chars@.len(),
    ensures
        same == holds_at(chars@, part@, from as int),
{
    if part.len() > chars.len() - from {
        return false;
    }
    let mut i: usize = 0;
    while i < part.len()
        invariant
            i <= part.len(),
            from + part.len() <= chars.len(),
            forall|j: int| 0 <= j < i ==> chars@[from + j] == #[trigger] part@[j],
        decreases part.len() - i,
    {
        if chars[from + i] != part[i] {
            proof {
                assert(chars@.subrange(from as int, from + part@.len())[i as int] != part@[i as int]);
            }
            return false;
        }
        i += 1;
    }
    proof {
        assert(chars@.subrange(from as int, from + part@.len()) =~= part@);
    }
    true
}

/// Whether a text starts with another.
pub fn starts_with(text: &str, start: &str) -> (found: bool)
    ensures
        found == begins_with(text@, start@),
{
    let chars = letters(text);
    let part = letters(start);
    proof {
        if part@.len() <= chars@.len() {
            assert(chars@.subrange(0, part@.len() as int) =~= chars@.take(part@.len() as int));
        }
    }
    matches_at(&chars, &part, 0)
}

/// Whether a text holds another anywhere.
pub fn contains_text(text: &str, part: &str) -> (found: bool)
    ensures
        found == holds(text@, part@),
{
    let chars = letters(text);
    let piece = letters(part);
    let mut i: usize = 0;
    while i < chars.len()
        invariant
            i <= chars.len(),
            chars@ == text@,
            piece@ == part@,
            forall|j: int| 0 <= j < i ==> !#[trigger] holds_at(text@, part@, j),
        decreases chars.len() - i,
    {
        if matches_at(&chars, &piece, i) {
            return true;
        }
        i += 1;
    }
    let found = matches_at(&chars, &piece, i);
    proof {
        if !found && holds(text@, part@) {
            let j = choose|j: int| holds_at(text@, part@, j);
            assert(j <= i);
        }
    }
    found
}

/// The text after a start that it has.
pub fn after_start(text: &str, start: &str) -> (rest: Option<String>)
    ensures
        match rest {
            Some(r) => begins_with(text@, start@) && r@ == text@.skip(start@.len() as int),
            None => !begins_with(text@, start@),
        },
{
    if !starts_with(text, start) {
        return None;
    }
    let chars = letters(text);
    let part = letters(start);
    proof {
        assert(chars@.subrange(part@.len() as int, chars@.len() as int) =~= text@.skip(
            start@.len() as int,
        ));
    }
    Some(text_of(&chars, part.len(), chars.len()))
}

/// An ASCII letter in lower case, and any other character as it is.
pub open spec fn lower_char(c: char) -> char {
    if 'A' <= c <= 'Z' {
        ((c as u32) + 32) as char
    } else {
        c
    }
}

/// An ASCII letter in upper case, and any other character as it is.
pub open spec fn upper_char(c: char) -> char {
    if 'a' <= c <= 'z' {
        ((c as u32) - 32) as char
    } else {
        c
    }
}

/// A text with its ASCII letters in lower case.
pub open spec fn lower_text(text: Seq<char>) -> Seq<char> {
    text.map_values(|c: char| lower_char(c))
}

/// A text with its ASCII letters in upper case.
pub open spec fn upper_text(text: Seq<char>) -> Seq<char> {
    text.map_values(|c: char| upper_char(c))
}

fn to_lower_char(c: char) -> (out: char)
    ensures
        out == lower_char(c),
{
    if 'A' <= c && c <= 'Z' {
        let code: u8 = c as u8;
        (code + 32) as char
    } else {
        c
    }
}

fn to_upper_char(c: char) -> (out: char)
    ensures
        out == upper_char(c),
{
    if 'a' <= c && c <= 'z' {
        let code: u8 = c as u8;
        (code - 32) as char
    } else {
        c
    }
}

/// A text with its ASCII letters in lower case.
pub fn to_lower(text: &str) -> (out: String)
    ensures
        out@ == lower_text(text@),
{
    let chars = letters(text);
    let mut out = String::new();
    let mut i: usize = 0;
    proof {
        assert(out@ =~= lower_text(text@).take(0));
    }
    while i < chars.len()
        invariant
            i <= chars.len(),
            chars@ == text@,
            out@ == lower_text(text@).take(i as int),
        decreases chars.len() - i,
    {
        out.push(to_lower_char(chars[i]));
        i += 1;
        proof {
            assert(lower_text(text@).take(i as int) =~= lower_text(text@).take(i - 1).push(
                lower_text(text@)[i - 1],
            ));
        }
    }
    proof {
        assert(lower_text(text@).take(i as int) =~= lower_text(text@));
    }
    out
}

/// A text with its ASCII letters in upper case.
pub fn to_upper(text: &str) -> (out: String)
    ensures
        out@ == upper_text(text@),
{
    let chars = letters(text);
    let mut out = String::new();
    let mut i: usize = 0;
    proof {
        assert(out@ =~= upper_text(text@).take(0));
    }
    while i < chars.len()
        invariant
            i <= chars.len(),
            chars@ == text@,
            out@ == upper_text(text@).take(i as int),
        decreases chars.len() - i,
    {
        out.push(to_upper_char(chars[i]));
        i += 1;
        proof {
            assert(upper_text(text@).take(i as int) =~= upper_text(text@).take(i - 1).push(
                upper_text(text@)[i - 1],
            ));
        }
    }
    proof {
        assert(upper_text(text@).take(i as int) =~= upper_text(text@));
    }
    out
}

/// Whether all of a text is decimal digits.
pub open spec fn all_digits(text: Seq<char>) -> bool {
    forall|i: int| 0 <= i < text.len() ==> '0' <= #[trigger] text[i] <= '9'
}

/// The number that decimal digits stand for.
pub open spec fn digits_value(text: Seq<char>) -> nat
    decreases text.len(),
{
    if text.len() == 0 {
        0
    } else {
        digits_value(text.drop_last()) * 10 + ((text.last() as u32) - ('0' as u32)) as nat
    }
}

/// The number that a text stands for: digits, at least one, with or without a
/// plus sign before them, and no larger than `max`.
pub open spec fn number_in(text: Seq<char>, max: nat) -> Option<nat> {
    let digits = if text.len() > 0 && text[0] == '+' {
        text.drop_first()
    } else {
        text
    };
    if digits.len() > 0 && all_digits(digits) && digits_value(digits) <= max {
        Some(digits_value(digits))
    } else {
        None
    }
}

proof fn lemma_digits_grow(text: Seq<char>, i: int)
    requires
        0 <= i <= text.len(),
        all_digits(text),
    ensures
        digits_value(text.take(i)) <= digits_value(text),
    decreases text.len() - i,
{
    if i < text.len() {
        lemma_digits_grow(text, i + 1);
        let next = text.take(i + 1);
        assert(next.drop_last() =~= text.take(i));
        assert(digits_value(next) >= digits_value(text.take(i)) * 10);
    } else {
        assert(text.take(i) =~= text);
    }
}

/// Reads a number that is no larger than `max`.
pub fn parse_number(text: &str, max: u64) -> (n: Option<u64>)
    ensures
        match n {
            Some(x) => number_in(text@, max as nat) == Some(x as nat),
            None => number_in(text@, max as nat) is None,
        },
{
    let chars = letters(text);
    let start: usize = if chars.len() > 0 && chars[0] == '+' {
        1
    } else {
        0
    };
    let ghost digits = chars@.skip(start as int);
    proof {
        assert(chars@.skip(0) =~= chars@);
        assert(digits =~= if text@.len() > 0 && text@[0] == '+' {
            text@.drop_first()
        } else {
            text@
        });
    }
    if start == chars.len() {
        return None;
    }
    let mut n: u64 = 0;
    let mut i: usize = start;
    proof {
        assert(digits.take(0) =~= Seq::<char>::empty());
    }
    while i < chars.len()
        invariant
            start <= i <= chars.len(),
            start <= 1,
            digits == chars@.skip(start as int),
            digits.len() > 0,
            number_in(text@, max as nat) == if all_digits(digits) && digits_value(digits) <= max {
                Some(digits_value(digits))
            } else {
                None
            },
            forall|j: int| 0 <= j < i - start ==> '0' <= #[trigger] digits[j] <= '9',
            n == digits_value(digits.take(i - start)),
            n <= max,
        decreases chars.len() - i,
    {
        let c: char = chars[i];
        proof {
            assert(digits[i - start] == c);
        }
        if c < '0' || c > '9' {
            return None;
        }
        let d: u64 = (c as u32 - '0' as u32) as u64;
        proof {
            let next = digits.take(i - start + 1);
            assert(next.drop_last() =~= digits.take(i - start));
            assert(next.last() == c);
            assert(digits_value(next) == n * 10 + d);
            if all_digits(digits) {
                lemma_digits_grow(digits, i - start + 1);
            }
        }
        if n > max / 10 || d > max - n * 10 {
            proof {
                if n > max / 10 {
                    assert(n * 10 > max);
                }
            }
            return None;
        }
        n = n * 10 + d;
        i += 1;
    }
    proof {
        assert(digits.take(i - start) =~= digits);
    }
    Some(n)
}

/// A hexadecimal digit.
pub open spec fn hex_digit(n: nat) -> char {
    if n < 10 {
        (n + 48) as char
    } else {
        (n + 87) as char
    }
}

/// The last hexadecimal digits of a number, as many as asked for.
pub open spec fn hex_text(n: nat, digits: nat) -> Seq<char>
    decreases digits,
{
    if digits == 0 {
        Seq::empty()
    } else {
        hex_text(n / 16, (digits - 1) as nat).push(hex_digit(n % 16))
    }
}

/// A hexadecimal digit; zero where a number has none.
pub fn nibble_to_hex(n: u8) -> (digit: char)
    ensures
        digit == if n < 16 {
            hex_digit(n as nat)
        } else {
            '0'
        },
{
    if n < 10 {
        (n + 48) as char
    } else if n < 16 {
        (n + 87) as char
    } else {
        '0'
    }
}

/// The last hexadecimal digits of a number.
pub fn hex(n: u64, digits: usize) -> (text: String)
    ensures
        text@ == hex_text(n as nat, digits as nat),
    decreases digits,
{
    if digits == 0 {
        let none = String::new();
        proof {
            assert(none@ =~= hex_text(n as nat, 0));
        }
        return none;
    }
    let mut text = hex(n / 16, digits - 1);
    text.push(nibble_to_hex((n % 16) as u8));
    text
}

} // verus!
