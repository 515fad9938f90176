//! Small operations on text, over the characters it is made of.

use vstd::prelude::*;

verus! {

/// `text` cut at the first `mark`, if it holds one: what stands before the
/// mark and what stands after it.
pub open spec fn cut(text: Seq<char>, mark: char) -> Option<(Seq<char>, Seq<char>)> {
    match text.index_of_first(mark) {
        Some(at) => Some((text.take(at), text.skip(at + 1))),
        None => None,
    }
}

/// The field of `text` with the given number, counted from zero, where fields
/// are parted by `mark`.
pub open spec fn field(text: Seq<char>, mark: char, number: nat) -> Option<Seq<char>>
    decreases number,
{
    match cut(text, mark) {
        Some((head, tail)) => if number == 0 {
            Some(head)
        } else {
            field(tail, mark, (number - 1) as nat)
        },
        None => if number == 0 {
            Some(text)
        } else {
            None
        },
    }
}

/// `text` without the marks that it starts with.
pub open spec fn trim_start(text: Seq<char>, mark: char) -> Seq<char>
    decreases text.len(),
{
    if text.len() > 0 && text[0] == mark {
        trim_start(text.drop_first(), mark)
    } else {
        text
    }
}

/// `text` with every `from` turned into `to`.
pub open spec fn replaced(text: Seq<char>, from: char, to: char) -> Seq<char> {
    text.map_values(
        |c: char|
            if c == from {
                to
            } else {
                c
            },
    )
}

/// The truth value that `text` spells, if it spells one.
pub open spec fn truth(text: Seq<char>) -> Option<bool> {
    if text == "true"@ {
        Some(true)
    } else if text == "false"@ {
        Some(false)
    } else {
        None
    }
}

/// The decimal digit for a number below ten.
pub open spec fn digit(n: nat) -> char {
    (48 + n) as char
}

/// `n` in decimal, without leading zeros.
pub open spec fn decimal(n: nat) -> Seq<char>
    decreases n,
{
    if n < 10 {
        seq![digit(n)]
    } else {
        decimal(n / 10).push(digit(n % 10))
    }
}

/// An optional text, by its characters.
pub open spec fn opt_text(text: Option<String>) -> Option<Seq<char>> {
    match text {
        Some(text) => Some(text@),
        None => None,
    }
}

/// `String::push` puts one character behind the text.
pub assume_specification[ String::push ](text: &mut String, c: char)
    ensures
        final(text)@ == old(text)@.push(c),
;

/// Whether two texts are the same.
pub fn same_text(a: &str, b: &str) -> (same: bool)
    ensures
        same == (a@ == b@),
{
    let a: String = a.to_owned();
    let b: String = b.to_owned();
    a == b
}

proof fn lemma_first_index(text: Seq<char>, mark: char, at: int)
    requires
        0 <= at < text.len(),
        text[at] == mark,
        forall|i: int| 0 <= i < at ==> text[i] != mark,
    ensures
        text.index_of_first(mark) == Some(at),
{
    text.index_of_first_ensures(mark);
    assert(text.contains(mark));
}

proof fn lemma_no_index(text: Seq<char>, mark: char)
    requires
        forall|i: int| 0 <= i < text.len() ==> text[i] != mark,
    ensures
        text.index_of_first(mark) is None,
        !text.contains(mark),
{
    text.index_of_first_ensures(mark);
}

/// The place of the first `mark` in `text`, counted in characters.
fn first_index(text: &str, mark: char) -> (found: Option<usize>)
    ensures
        match found {
            Some(at) => text@.index_of_first(mark) == Some(at as int) && at < text@.len()
                && text@.contains(mark),
            None => text@.index_of_first(mark) is None && !text@.contains(mark),
        },
{
    let count: usize = text.unicode_len();
    let mut at: usize = 0;
    for c in it: text.chars()
        invariant
            count == text@.len(),
            it.seq() == text@,
            at == it.index(),
            forall|i: int| 0 <= i < at ==> text@[i] != mark,
    {
        if c == mark {
            proof {
                lemma_first_index(text@, mark, at as int);
                text@.index_of_first_ensures(mark);
            }
            return Some(at);
        }
        at = at + 1;
    }
    proof {
        lemma_no_index(text@, mark);
    }
    None
}

/// Whether `text` holds a `mark`.
pub fn holds(text: &str, mark: char) -> (found: bool)
    ensures
        found == text@.contains(mark),
{
    match first_index(text, mark) {
        Some(_) => true,
        None => false,
    }
}

/// Cuts `text` at the first `mark`.
pub fn split_once<'a>(text: &'a str, mark: char) -> (parts: Option<(&'a str, &'a str)>)
    ensures
        match parts {
            Some((head, tail)) => cut(text@, mark) == Some((head@, tail@)),
            None => cut(text@, mark) is None,
        },
{
    match first_index(text, mark) {
        Some(at) => {
            let count: usize = text.unicode_len();
            let head = text.substring_char(0, at);
            let tail = text.substring_char(at + 1, count);
            assert(head@ =~= text@.take(at as int));
            assert(tail@ =~= text@.skip(at + 1));
            Some((head, tail))
        },
        None => None,
    }
}

/// Drops the marks that `text` starts with.
pub fn trim_marks<'a>(text: &'a str, mark: char) -> (rest: &'a str)
    ensures
        rest@ == trim_start(text@, mark),
{
    let mut rest: &'a str = text;
    let mut count: usize = rest.unicode_len();
    while count > 0 && rest.get_char(0) == mark
        invariant
            count == rest@.len(),
            trim_start(rest@, mark) == trim_start(text@, mark),
        decreases count,
    {
        let ghost before = rest@;
        rest = rest.substring_char(1, count);
        count = count - 1;
        assert(rest@ =~= before.drop_first());
    }
    rest
}

/// Turns every `from` in `text` into `to`.
pub fn replace_char(text: &str, from: char, to: char) -> (out: String)
    ensures
        out@ == replaced(text@, from, to),
{
    let mut out: String = String::new();
    for c in it: text.chars()
        invariant
            it.seq() == text@,
            out@ == replaced(text@, from, to).take(it.index() as int),
    {
        let shown: char = if c == from {
            to
        } else {
            c
        };
        out.push(shown);
        assert(out@ =~= replaced(text@, from, to).take(it.index() + 1));
    }
    assert(out@ =~= replaced(text@, from, to));
    out
}

/// Reads a truth value.
pub fn parse_truth(text: &str) -> (parsed: Option<bool>)
    ensures
        parsed == truth(text@),
{
    if same_text(text, "true") {
        Some(true)
    } else if same_text(text, "false") {
        Some(false)
    } else {
        None
    }
}

/// Writes `n` in decimal.
pub fn to_decimal(n: u64) -> (out: String)
    ensures
        out@ == decimal(n as nat),
    decreases n,
{
    let mut out: String = if n < 10 {
        String::new()
    } else {
        to_decimal(n / 10)
    };
    let last: u8 = (n % 10) as u8;
    let shown: char = (48 + last) as char;
    out.push(shown);
    assert(n < 10 ==> out@ =~= seq![digit(n as nat)]);
    out
}

/// A text is cut at its first mark and nowhere else: what stands before and what
/// stands after make up the text again, with the mark between them. A text
/// without the mark is not cut.
pub proof fn lemma_cuts_are_at_the_first_mark(
    text: Seq<char>,
    mark: char,
    head: Seq<char>,
    tail: Seq<char>,
)
    ensures
        cut(text, mark) == Some((head, tail)) <==> text == head + seq![mark] + tail
            && !head.contains(mark),
        cut(text, mark) is None <==> !text.contains(mark),
{
    text.index_of_first_ensures(mark);
    if let Some(at) = text.index_of_first(mark) {
        assert(text =~= text.take(at) + seq![mark] + text.skip(at + 1));
        assert(!text.take(at).contains(mark)) by {
            if text.take(at).contains(mark) {
                let i = choose|i: int| 0 <= i < at && text.take(at)[i] == mark;
                assert(text[i] == mark);
            }
        }
    }
    if text == head + seq![mark] + tail && !head.contains(mark) {
        let at = head.len() as int;
        assert(text[at] == mark);
        assert forall|i: int| 0 <= i < at implies text[i] != mark by {
            assert(head[i] == text[i]);
            assert(head.contains(head[i]));
        }
        lemma_first_index(text, mark, at);
        assert(text.take(at) =~= head);
        assert(text.skip(at + 1) =~= tail);
    }
}

/// Fields are parted by marks: the first one is what stands before the first
/// mark, and the others are those of what stands after it. A text without a mark
/// is one field.
pub proof fn lemma_fields_are_parted_by_marks(
    head: Seq<char>,
    tail: Seq<char>,
    mark: char,
    number: nat,
)
    requires
        !head.contains(mark),
    ensures
        field(head, mark, 0) == Some(head),
        field(head, mark, number + 1) is None,
        field(head + seq![mark] + tail, mark, 0) == Some(head),
        field(head + seq![mark] + tail, mark, number + 1) == field(tail, mark, number),
{
    lemma_cuts_are_at_the_first_mark(head, mark, head, tail);
    lemma_cuts_are_at_the_first_mark(head + seq![mark] + tail, mark, head, tail);
    reveal_with_fuel(field, 2);
}

/// Only marks are trimmed, only at the start, and all of them there.
pub proof fn lemma_trimming_takes_the_marks_at_the_start(text: Seq<char>, mark: char)
    ensures
        ({
            let rest = trim_start(text, mark);
            let taken = text.len() - rest.len();
            &&& taken >= 0
            &&& text.skip(taken) == rest
            &&& forall|i: int| 0 <= i < taken ==> text[i] == mark
            &&& rest.len() > 0 ==> rest[0] != mark
        }),
    decreases text.len(),
{
    if text.len() > 0 && text[0] == mark {
        let next = text.drop_first();
        lemma_trimming_takes_the_marks_at_the_start(next, mark);
        let rest = trim_start(text, mark);
        let taken = text.len() - rest.len();
        assert(text.skip(taken) =~= next.skip(taken - 1));
        assert forall|i: int| 0 <= i < taken implies text[i] == mark by {
            if i > 0 {
                assert(next[i - 1] == text[i]);
            }
        }
    } else {
        assert(text.skip(0) =~= text);
    }
}

/// Replacing changes the given character wherever it stands, and nothing else.
pub proof fn lemma_replacing_changes_one_character(text: Seq<char>, from: char, to: char)
    ensures
        replaced(text, from, to).len() == text.len(),
        forall|i: int|
            0 <= i < text.len() && text[i] == from ==> #[trigger] replaced(text, from, to)[i] == to,
        forall|i: int|
            0 <= i < text.len() && text[i] != from ==> #[trigger] replaced(text, from, to)[i]
                == text[i],
{
}

/// The two truth values are spelt in one way each, and nothing else spells one.
pub proof fn lemma_truth_is_spelt_in_one_way(text: Seq<char>)
    ensures
        truth(text) == Some(true) <==> text == "true"@,
        truth(text) == Some(false) <==> text == "false"@,
{
    reveal_strlit("true");
    reveal_strlit("false");
    assert("true"@.len() == 4);
    assert("false"@.len() == 5);
}

/// The number that a row of decimal digits stands for.
pub open spec fn number_in(digits: Seq<char>) -> int
    decreases digits.len(),
{
    if digits.len() == 0 {
        0
    } else {
        10 * number_in(digits.drop_last()) + (digits.last() as int - '0' as int)
    }
}

/// A number is read back from its digits. They are decimal digits, and none of
/// them is a leading zero.
pub proof fn lemma_numbers_are_read_back(n: nat)
    ensures
        number_in(decimal(n)) == n,
        decimal(n).len() > 0,
        forall|i: int|
            0 <= i < decimal(n).len() ==> '0' as int <= #[trigger] decimal(n)[i] as int <= '9' as int,
        decimal(n)[0] == '0' ==> n == 0 && decimal(n).len() == 1,
    decreases n,
{
    reveal_with_fuel(number_in, 2);
    if n >= 10 {
        lemma_numbers_are_read_back(n / 10);
        let rest = decimal(n / 10);
        assert(decimal(n).drop_last() =~= rest);
        assert forall|i: int| 0 <= i < decimal(n).len() implies '0' as int
            <= #[trigger] decimal(n)[i] as int <= '9' as int by {
            if i < rest.len() {
                assert(decimal(n)[i] == rest[i]);
            }
        }
        assert(decimal(n)[0] == rest[0]);
    } else {
        assert(decimal(n).drop_last() =~= Seq::empty());
    }
}

} // verus!
