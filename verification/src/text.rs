//! Text handling: splitting and joining lists, trimming, searching, and the decimal and quoted
//! forms that command lines and error messages are made of.

use vstd::prelude::*;
use vstd::string::*;

verus! {

/// The pieces of `s` between the occurrences of `sep`, in order. There is always at least one.
pub open spec fn pieces(s: Seq<char>, sep: char) -> Seq<Seq<char>>
    decreases s.len(),
{
    if s.len() == 0 {
        seq![Seq::<char>::empty()]
    } else {
        let before = pieces(s.drop_last(), sep);
        if s.last() == sep {
            before.push(Seq::<char>::empty())
        } else {
            before.drop_last().push(before.last().push(s.last()))
        }
    }
}

/// The parts in order, with `sep` between neighbours.
pub open spec fn joined(parts: Seq<Seq<char>>, sep: Seq<char>) -> Seq<char>
    decreases parts.len(),
{
    if parts.len() == 0 {
        Seq::empty()
    } else if parts.len() == 1 {
        parts[0]
    } else {
        joined(parts.drop_last(), sep) + sep + parts.last()
    }
}

/// The texts that a list of strings holds.
pub open spec fn texts(list: Seq<String>) -> Seq<Seq<char>> {
    list.map_values(|s: String| s@)
}

/// The texts that a list of string slices holds.
pub open spec fn slices(list: Seq<&str>) -> Seq<Seq<char>> {
    list.map_values(|s: &str| s@)
}

/// Whether `needle` occurs somewhere in `s`.
pub open spec fn occurs_in(needle: Seq<char>, s: Seq<char>) -> bool {
    exists|i: int|
        0 <= i <= s.len() - needle.len() && #[trigger] s.subrange(i, i + needle.len()) == needle
}

/// The characters of the Unicode property `White_Space`.
pub open spec fn white_space(c: char) -> bool {
    let n = c as u32;
    ||| 0x9 <= n <= 0xd
    ||| n == 0x20
    ||| n == 0x85
    ||| n == 0xa0
    ||| n == 0x1680
    ||| 0x2000 <= n <= 0x200a
    ||| 0x2028 <= n <= 0x2029
    ||| n == 0x202f
    ||| n == 0x205f
    ||| n == 0x3000
}

/// `s` without the white space at both ends.
pub open spec fn trimmed(s: Seq<char>) -> Seq<char>
    decreases s.len(),
{
    if s.len() == 0 {
        s
    } else if white_space(s.first()) {
        trimmed(s.drop_first())
    } else if white_space(s.last()) {
        trimmed(s.drop_last())
    } else {
        s
    }
}

/// The decimal digit of a number below ten.
pub open spec fn digit(n: nat) -> char {
    (n + 48) as char
}

/// The decimal form of `n`, without leading zeros.
pub open spec fn decimal(n: nat) -> Seq<char>
    decreases n,
{
    if n < 10 {
        seq![digit(n)]
    } else {
        decimal(n / 10).push(digit(n % 10))
    }
}

/// The characters of `s` as a vector.
pub fn characters(s: &str) -> (chars: Vec<char>)
    ensures
        chars@ == s@,
{
    let mut chars: Vec<char> = Vec::new();
    for c in it: s.chars()
        invariant
            it.seq() == s@,
            chars@ == s@.take(it.index()),
    {
        proof {
            assert(s@.take(it.index() + 1) == s@.take(it.index()).push(c));
        }
        chars.push(c);
    }
    proof {
        assert(s@.take(s@.len() as int) == s@);
    }
    chars
}

/// Whether two texts hold the same characters.
pub fn same_text(a: &str, b: &str) -> (same: bool)
    ensures
        same == (a@ == b@),
{
    let left = characters(a);
    let right = characters(b);
    if left.len() != right.len() {
        return false;
    }
    let mut i: usize = 0;
    while i < left.len()
        invariant
            i <= left.len(),
            left.len() == right.len(),
            left@ == a@,
            right@ == b@,
            forall|j: int| 0 <= j < i ==> left@[j] == right@[j],
        decreases left.len() - i,
    {
        if left[i] != right[i] {
            return false;
        }
        i = i + 1;
    }
    proof {
        assert(a@ =~= b@);
    }
    true
}

/// Splits `text` at every occurrence of `sep`.
pub fn split(text: &str, sep: char) -> (parts: Vec<String>)
    ensures
        texts(parts@) == pieces(text@, sep),
{
    let chars = characters(text);
    let mut parts: Vec<String> = Vec::new();
    let mut start: usize = 0;
    let mut i: usize = 0;
    proof {
        assert(text@.take(0) == Seq::<char>::empty());
        assert(texts(parts@).push(text@.subrange(0, 0)) =~= seq![Seq::<char>::empty()]);
    }
    while i < chars.len()
        invariant
            chars@ == text@,
            start <= i <= chars.len(),
            texts(parts@).push(text@.subrange(start as int, i as int)) == pieces(
                text@.take(i as int),
                sep,
            ),
        decreases chars.len() - i,
    {
        let ghost before = texts(parts@);
        let ghost last = text@.subrange(start as int, i as int);
        proof {
            assert(text@.take(i + 1).drop_last() == text@.take(i as int));
            assert(text@.take(i + 1).last() == text@[i as int]);
        }
        if chars[i] == sep {
            let part = text.substring_char(start, i).to_owned();
            parts.push(part);
            start = i + 1;
            proof {
                assert(texts(parts@) =~= before.push(last));
                assert(text@.subrange(start as int, i + 1) =~= Seq::<char>::empty());
            }
        } else {
            proof {
                assert(before.push(last).drop_last() =~= before);
                assert(text@.subrange(start as int, i + 1) =~= last.push(text@[i as int]));
            }
        }
        i = i + 1;
    }
    proof {
        assert(text@.take(i as int) == text@);
    }
    let ghost before = texts(parts@);
    let part = text.substring_char(start, i).to_owned();
    parts.push(part);
    proof {
        assert(texts(parts@) =~= before.push(text@.subrange(start as int, i as int)));
    }
    parts
}

/// Joins `parts` with `sep` between neighbours.
pub fn join(parts: &Vec<String>, sep: &str) -> (text: String)
    ensures
        text@ == joined(texts(parts@), sep@),
{
    let mut text = String::new();
    let mut i: usize = 0;
    proof {
        assert(texts(parts@).take(0) == Seq::<Seq<char>>::empty());
    }
    while i < parts.len()
        invariant
            i <= parts.len(),
            text@ == joined(texts(parts@).take(i as int), sep@),
        decreases parts.len() - i,
    {
        proof {
            let next = texts(parts@).take(i + 1);
            assert(next.drop_last() == texts(parts@).take(i as int));
            assert(next.last() == parts@[i as int]@);
        }
        if i > 0 {
            text.append(sep);
        }
        text.append(parts[i].as_str());
        proof {
            if i == 0 {
                assert(text@ =~= parts@[0]@);
            }
        }
        i = i + 1;
    }
    proof {
        assert(texts(parts@).take(i as int) == texts(parts@));
    }
    text
}

/// Whether `c` is white space.
pub fn is_white_space(c: char) -> (white: bool)
    ensures
        white == white_space(c),
{
    let n: u32 = c as u32;
    (0x9 <= n && n <= 0xd) || n == 0x20 || n == 0x85 || n == 0xa0 || n == 0x1680 || (0x2000 <= n
        && n <= 0x200a) || (0x2028 <= n && n <= 0x2029) || n == 0x202f || n == 0x205f || n == 0x3000
}

/// `text` without the white space at both ends.
pub fn trim(text: &str) -> (inner: String)
    ensures
        inner@ == trimmed(text@),
{
    let chars = characters(text);
    let mut start: usize = 0;
    let mut end: usize = chars.len();
    proof {
        assert(text@.subrange(0, text@.len() as int) == text@);
    }
    while start < end && is_white_space(chars[start])
        invariant
            chars@ == text@,
            start <= end == chars.len(),
            trimmed(text@.subrange(start as int, end as int)) == trimmed(text@),
        decreases end - start,
    {
        proof {
            let rest = text@.subrange(start as int, end as int);
            assert(rest.drop_first() =~= text@.subrange(start + 1, end as int));
        }
        start = start + 1;
    }
    while start < end && is_white_space(chars[end - 1])
        invariant
            chars@ == text@,
            start <= end <= chars.len(),
            start < end ==> !white_space(text@[start as int]),
            trimmed(text@.subrange(start as int, end as int)) == trimmed(text@),
        decreases end - start,
    {
        proof {
            let rest = text@.subrange(start as int, end as int);
            assert(rest.drop_last() =~= text@.subrange(start as int, end - 1));
        }
        end = end - 1;
    }
    text.substring_char(start, end).to_owned()
}

/// Whether `needle` occurs somewhere in `text`.
pub fn contains(text: &str, needle: &str) -> (found: bool)
    ensures
        found == occurs_in(needle@, text@),
{
    let chars = characters(text);
    let wanted = characters(needle);
    if wanted.len() > chars.len() {
        return false;
    }
    let mut i: usize = 0;
    while i <= chars.len() - wanted.len()
        invariant
            chars@ == text@,
            wanted@ == needle@,
            wanted.len() <= chars.len(),
            i <= chars.len() - wanted.len() + 1,
            forall|k: int| 0 <= k < i ==> #[trigger] text@.subrange(k, k + needle@.len()) != needle@,
        decreases chars.len() - wanted.len() + 1 - i,
    {
        let mut j: usize = 0;
        while j < wanted.len() && chars[i + j] == wanted[j]
            invariant
                chars@ == text@,
                wanted@ == needle@,
                i + wanted.len() <= chars.len(),
                j <= wanted.len(),
                forall|k: int| 0 <= k < j ==> text@[i + k] == #[trigger] needle@[k],
            decreases wanted.len() - j,
        {
            j = j + 1;
        }
        let ghost window = text@.subrange(i as int, i + needle@.len());
        if j == wanted.len() {
            proof {
                assert(window =~= needle@);
            }
            return true;
        }
        proof {
            assert(window[j as int] != needle@[j as int]);
        }
        i = i + 1;
    }
    false
}

/// The digit of a number below ten, as text.
fn digit_text(n: u16) -> (text: &'static str)
    requires
        n < 10,
    ensures
        text@ == seq![digit(n as nat)],
{
    proof {
        reveal_strlit("0");
        reveal_strlit("1");
        reveal_strlit("2");
        reveal_strlit("3");
        reveal_strlit("4");
        reveal_strlit("5");
        reveal_strlit("6");
        reveal_strlit("7");
        reveal_strlit("8");
        reveal_strlit("9");
    }
    let text = match n {
        0 => "0",
        1 => "1",
        2 => "2",
        3 => "3",
        4 => "4",
        5 => "5",
        6 => "6",
        7 => "7",
        8 => "8",
        _ => "9",
    };
    proof {
        assert(text@ =~= seq![digit(n as nat)]);
    }
    text
}

/// Writes `n` in decimal.
pub fn decimal_text(n: u16) -> (text: String)
    ensures
        text@ == decimal(n as nat),
    decreases n,
{
    if n < 10 {
        digit_text(n).to_owned()
    } else {
        let text = decimal_text(n / 10).concat(digit_text(n % 10));
        proof {
            assert(text@ =~= decimal((n / 10) as nat).push(digit((n % 10) as nat)));
        }
        text
    }
}

/// The text that `String::from_utf8_lossy` reads from `bytes`.
pub uninterp spec fn lossy(bytes: Seq<u8>) -> Seq<char>;

/// Whether `bytes`, if they are valid UTF-8, are read as the text that they encode.
pub open spec fn read_as_encoded(bytes: Seq<u8>) -> bool {
    vstd::utf8::valid_utf8(bytes) ==> lossy(bytes) == vstd::utf8::decode_utf8(bytes)
}

/// Decodes `bytes` with `String::from_utf8_lossy`. The result depends on the bytes alone, and
/// valid UTF-8 is decoded as it stands. How invalid input is divided among replacement characters
/// is left to that function.
#[verifier::external_body]
pub(crate) fn decode_lossy(bytes: &[u8]) -> (text: String)
    ensures
        text@ == lossy(bytes@),
        vstd::utf8::valid_utf8(bytes@) ==> text@ == vstd::utf8::decode_utf8(bytes@),
{
    String::from_utf8_lossy(bytes).into_owned()
}

/// The form that the `Debug` implementation of `str` gives to `text`.
pub uninterp spec fn quoted(text: Seq<char>) -> Seq<char>;

/// Formats `text` with `{:?}`. The result is what the `Debug` implementation of `str` writes,
/// which depends on the text alone; its escapes are left to that implementation.
#[verifier::external_body]
pub(crate) fn quote(text: &str) -> (form: String)
    ensures
        form@ == quoted(text@),
{
    format!("{text:?}")
}

/// A list of texts in `Debug` form: the quoted items in square brackets, separated by a comma and
/// a space.
pub open spec fn quoted_list(items: Seq<Seq<char>>) -> Seq<char> {
    "["@ + joined(items.map_values(|item: Seq<char>| quoted(item)), ", "@) + "]"@
}

/// Formats `items` as a list of quoted texts.
pub fn quote_list(items: &[&str]) -> (form: String)
    ensures
        form@ == quoted_list(slices(items@)),
{
    let mut forms: Vec<String> = Vec::new();
    let ghost wanted = slices(items@).map_values(|item: Seq<char>| quoted(item));
    let mut i: usize = 0;
    while i < items.len()
        invariant
            i <= items.len(),
            wanted == slices(items@).map_values(|item: Seq<char>| quoted(item)),
            texts(forms@) == wanted.take(i as int),
        decreases items.len() - i,
    {
        let ghost before = texts(forms@);
        let form = quote(items[i]);
        forms.push(form);
        proof {
            assert(texts(forms@) =~= before.push(form@));
            assert(wanted.take(i + 1) =~= wanted.take(i as int).push(wanted[i as int]));
        }
        i = i + 1;
    }
    proof {
        assert(wanted.take(i as int) == wanted);
    }
    bracket(&forms)
}

/// The forms in square brackets, separated by a comma and a space.
pub fn bracket(forms: &Vec<String>) -> (list: String)
    ensures
        list@ == "["@ + joined(texts(forms@), ", "@) + "]"@,
{
    let inner = join(forms, ", ");
    "[".to_owned().concat(inner.as_str()).concat("]")
}

} // verus!
