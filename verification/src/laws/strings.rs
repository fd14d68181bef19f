//! What splitting, joining, trimming, searching and the written forms of numbers and lists are for.

use crate::{laws, text};
use vstd::prelude::*;

verus! {

/// No piece of a split text contains the separator.
pub proof fn pieces_are_free_of_separator(s: Seq<char>, sep: char, i: int)
    requires
        0 <= i < text::pieces(s, sep).len(),
    ensures
        !text::pieces(s, sep)[i].contains(sep),
    decreases s.len(),
{
    if s.len() > 0 {
        let before = text::pieces(s.drop_last(), sep);
        laws::join_undoes_split(s.drop_last(), sep);
        if i < before.len() {
            pieces_are_free_of_separator(s.drop_last(), sep, i);
        }
        if i == before.len() - 1 && s.last() != sep {
            let piece = before.last().push(s.last());
            if piece.contains(sep) {
                let k = choose|k: int| 0 <= k < piece.len() && piece[k] == sep;
                assert(before.last()[k] == sep);
            }
        }
    }
}

/// Splitting is the one way to take a text apart into pieces that are free of the separator and
/// give the text when they are joined.
pub proof fn splitting_is_unique(s: Seq<char>, sep: char, parts: Seq<Seq<char>>)
    requires
        parts.len() > 0,
        forall|i: int| 0 <= i < parts.len() ==> !(#[trigger] parts[i]).contains(sep),
        text::joined(parts, seq![sep]) == s,
    ensures
        text::pieces(s, sep) == parts,
{
    laws::split_undoes_join(parts, sep);
}

/// Joining no parts gives nothing, and joining one part gives it as it is.
pub proof fn few_parts_are_joined(part: Seq<char>, sep: Seq<char>)
    ensures
        text::joined(Seq::empty(), sep) == Seq::<char>::empty(),
        text::joined(seq![part], sep) == part,
{
}

/// Joining two lists at once is joining each of them, with one separator in between.
pub proof fn joining_distributes(left: Seq<Seq<char>>, right: Seq<Seq<char>>, sep: Seq<char>)
    requires
        left.len() > 0,
        right.len() > 0,
    ensures
        text::joined(left + right, sep) == text::joined(left, sep) + sep + text::joined(right, sep),
    decreases right.len(),
{
    let all = left + right;
    assert(all.drop_last() =~= left + right.drop_last());
    assert(all.last() == right.last());
    if right.len() == 1 {
        assert(left + right.drop_last() =~= left);
    } else {
        joining_distributes(left, right.drop_last(), sep);
        assert(text::joined(all, sep) =~= text::joined(left, sep) + sep + text::joined(right, sep));
    }
}

/// A text occurs in every text that surrounds it.
pub proof fn what_is_surrounded_occurs(before: Seq<char>, needle: Seq<char>, after: Seq<char>)
    ensures
        text::occurs_in(needle, before + needle + after),
{
    let s = before + needle + after;
    let start = before.len() as int;
    assert(s.subrange(start, start + needle.len()) =~= needle);
}

/// A text occurs in another one only if the other one surrounds it.
pub proof fn what_occurs_is_surrounded(needle: Seq<char>, s: Seq<char>) -> (around: (
    Seq<char>,
    Seq<char>,
))
    requires
        text::occurs_in(needle, s),
    ensures
        s == around.0 + needle + around.1,
{
    let i = choose|i: int|
        0 <= i <= s.len() - needle.len() && #[trigger] s.subrange(i, i + needle.len()) == needle;
    assert(s =~= s.take(i) + needle + s.skip(i + needle.len()));
    (s.take(i), s.skip(i + needle.len()))
}

/// Whether every character of a text is white space.
pub open spec fn blank(s: Seq<char>) -> bool {
    forall|i: int| 0 <= i < s.len() ==> text::white_space(#[trigger] s[i])
}

/// Trimming takes away white space at both ends, all that there is, and nothing else.
pub proof fn trimming_takes_the_ends(s: Seq<char>) -> (ends: (Seq<char>, Seq<char>))
    ensures
        s == ends.0 + text::trimmed(s) + ends.1,
        blank(ends.0),
        blank(ends.1),
        text::trimmed(s).len() > 0 ==> !text::white_space(text::trimmed(s).first())
            && !text::white_space(text::trimmed(s).last()),
    decreases s.len(),
{
    if s.len() == 0 {
        assert(s =~= s + text::trimmed(s) + s);
        (s, s)
    } else if text::white_space(s.first()) {
        let (left, right) = trimming_takes_the_ends(s.drop_first());
        let more = seq![s.first()] + left;
        assert(s =~= seq![s.first()] + s.drop_first());
        assert(s =~= more + text::trimmed(s) + right);
        assert forall|i: int| 0 <= i < more.len() implies text::white_space(#[trigger] more[i]) by {
            if i > 0 {
                assert(more[i] == left[i - 1]);
            }
        }
        (more, right)
    } else if text::white_space(s.last()) {
        let (left, right) = trimming_takes_the_ends(s.drop_last());
        let more = right.push(s.last());
        assert(s =~= s.drop_last().push(s.last()));
        assert(s =~= left + text::trimmed(s) + more);
        assert forall|i: int| 0 <= i < more.len() implies text::white_space(#[trigger] more[i]) by {
            if i < right.len() {
                assert(more[i] == right[i]);
            }
        }
        (left, more)
    } else {
        let none = Seq::<char>::empty();
        assert(s =~= none + text::trimmed(s) + none);
        (none, none)
    }
}

/// Among the ASCII characters the blank and the control characters from tab to carriage return are
/// white space, and no other.
pub proof fn ascii_white_space(c: char)
    requires
        c <= '\x7f',
    ensures
        text::white_space(c) == (c == ' ' || '\t' <= c <= '\r'),
{
}

/// The number that a text of digits stands for.
pub open spec fn numeral(digits: Seq<char>) -> nat
    decreases digits.len(),
{
    if digits.len() == 0 {
        0
    } else {
        (10 * numeral(digits.drop_last()) + (digits.last() as nat - '0' as nat)) as nat
    }
}

/// The decimal form of a number stands for it. It is made of digits, at least one of them, and does
/// not start with a zero that it could do without.
pub proof fn decimal_stands_for_the_number(n: nat)
    ensures
        numeral(text::decimal(n)) == n,
        text::decimal(n).len() > 0,
        forall|i: int|
            0 <= i < text::decimal(n).len() ==> '0' <= #[trigger] text::decimal(n)[i] <= '9',
        text::decimal(n).len() > 1 ==> text::decimal(n)[0] != '0',
    decreases n,
{
    reveal_with_fuel(numeral, 2);
    if n < 10 {
        assert(text::decimal(n).drop_last() =~= Seq::empty());
    } else {
        decimal_stands_for_the_number(n / 10);
        assert(text::decimal(n).drop_last() =~= text::decimal(n / 10));
        if n < 100 {
            assert(text::decimal(n / 10)[0] == text::digit(n / 10));
        } else {
            assert(text::decimal(n / 10).len() > 1);
        }
    }
}

/// A list in quoted form has its items between square brackets, with a comma and a blank between
/// neighbours.
pub proof fn quoted_lists_name_every_item(items: Seq<Seq<char>>, item: Seq<char>)
    ensures
        text::quoted_list(Seq::empty()) == "[]"@,
        text::quoted_list(seq![item]) == "["@ + text::quoted(item) + "]"@,
        items.len() > 0 ==> text::quoted_list(items.push(item)) == text::quoted_list(
            items,
        ).drop_last() + ", "@ + text::quoted(item) + "]"@,
{
    reveal_strlit("[]");
    reveal_strlit("[");
    reveal_strlit("]");
    let form = |s: Seq<char>| text::quoted(s);
    let none = Seq::<Seq<char>>::empty();
    assert(none.map_values(form) =~= none);
    assert(text::quoted_list(none) =~= "[]"@);
    assert(seq![item].map_values(form) =~= seq![text::quoted(item)]);
    if items.len() > 0 {
        let forms = items.map_values(form);
        let more = items.push(item).map_values(form);
        assert(more =~= forms.push(text::quoted(item)));
        assert(more.drop_last() =~= forms);
        assert(text::quoted_list(items.push(item)) =~= text::quoted_list(items).drop_last() + ", "@
            + text::quoted(item) + "]"@);
    }
}

/// A list of strings stands for its texts, one by one and in order.
pub proof fn lists_stand_for_their_texts(strings: Seq<String>, slices: Seq<&str>, i: int)
    ensures
        text::texts(strings).len() == strings.len(),
        text::slices(slices).len() == slices.len(),
        0 <= i < strings.len() ==> text::texts(strings)[i] == strings[i]@,
        0 <= i < slices.len() ==> text::slices(slices)[i] == slices[i]@,
{
}

} // verus!
