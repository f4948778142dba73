//! Text as sequences of characters: comparing, searching, decimal numbers and
//! the text of header values.

use vstd::prelude::*;

verus! {

/// The characters of `s`, in order.
pub fn chars_of(s: &str) -> (r: Vec<char>)
    ensures
        r@ == s@,
{
    let mut r: Vec<char> = Vec::new();
    for c in it: s.chars()
        invariant
            r@ == s@.take(it.index() as int),
            it.seq() == s@,
    {
        r.push(c);
        assert(s@.take(it.index() + 1) == s@.take(it.index() as int).push(c));
    }
    assert(s@.take(s@.len() as int) == s@);
    r
}

/// Whether `chars` spell `s`.
pub fn spells(chars: &Vec<char>, s: &str) -> (r: bool)
    ensures
        r == (chars@ == s@),
{
    let other: Vec<char> = chars_of(s);
    if chars.len() != other.len() {
        return false;
    }
    for i in 0..chars.len()
        invariant
            chars@.len() == other@.len(),
            other@ == s@,
            forall|j: int| 0 <= j < i ==> chars@[j] == other@[j],
    {
        if chars[i] != other[i] {
            return false;
        }
    }
    assert(chars@ =~= other@);
    true
}

/// Whether two strings hold the same characters.
pub fn same_text(a: &str, b: &str) -> (r: bool)
    ensures
        r == (a@ == b@),
{
    spells(&chars_of(a), b)
}

/// The text of an optional string.
pub open spec fn optional_text(text: Option<String>) -> Option<Seq<char>> {
    match text {
        Some(text) => Some(text@),
        None => None,
    }
}

/// Whether `needle` occurs in `text` at position `at`.
pub open spec fn occurs_at(text: Seq<char>, needle: Seq<char>, at: int) -> bool {
    &&& 0 <= at
    &&& at + needle.len() <= text.len()
    &&& text.subrange(at, at + needle.len()) == needle
}

/// Whether `needle` occurs anywhere in `text`.
pub open spec fn occurs_in(text: Seq<char>, needle: Seq<char>) -> bool {
    exists|at: int| occurs_at(text, needle, at)
}

/// Whether the characters of `needle` stand in `text` from position `at` on.
fn matches_at(text: &Vec<char>, needle: &Vec<char>, at: usize) -> (r: bool)
    requires
        at + needle.len() <= text.len(),
    ensures
        r == occurs_at(text@, needle@, at as int),
{
    let ghost window = text@.subrange(at as int, at + needle@.len());
    for i in 0..needle.len()
        invariant
            at + needle.len() <= text.len(),
            window == text@.subrange(at as int, at + needle@.len()),
            forall|j: int| 0 <= j < i ==> window[j] == needle@[j],
    {
        if text[at + i] != needle[i] {
            assert(window[i as int] != needle@[i as int]);
            return false;
        }
    }
    assert(window =~= needle@);
    true
}

/// Whether `needle` occurs anywhere in `text`.
pub fn contains_text(text: &Vec<char>, needle: &str) -> (r: bool)
    ensures
        r == occurs_in(text@, needle@),
{
    let pattern: Vec<char> = chars_of(needle);
    if pattern.len() > text.len() {
        return false;
    }
    let last: usize = text.len() - pattern.len();
    if matches_at(text, &pattern, last) {
        return true;
    }
    for at in 0..last
        invariant
            pattern@ == needle@,
            last + pattern.len() == text.len(),
            forall|k: int| 0 <= k < at ==> !occurs_at(text@, needle@, k),
    {
        if matches_at(text, &pattern, at) {
            return true;
        }
    }
    false
}

/// The position of the last `c` in `s`, or -1 where there is none.
pub open spec fn last_position(s: Seq<char>, c: char) -> int
    decreases s.len(),
{
    if s.len() == 0 {
        -1
    } else if s.last() == c {
        s.len() - 1
    } else {
        last_position(s.drop_last(), c)
    }
}

/// The last position of a character is where it stands, and it does not stand
/// anywhere behind.
pub proof fn lemma_last_position(s: Seq<char>, c: char)
    ensures
        -1 <= last_position(s, c) < s.len(),
        last_position(s, c) >= 0 ==> s[last_position(s, c)] == c,
        forall|i: int| last_position(s, c) < i < s.len() ==> s[i] != c,
    decreases s.len(),
{
    if s.len() > 0 && s.last() != c {
        lemma_last_position(s.drop_last(), c);
        assert forall|i: int| last_position(s, c) < i < s.len() implies s[i] != c by {
            if i < s.len() - 1 {
                assert(s.drop_last()[i] == s[i]);
            }
        }
    }
}

/// A character that stands at a position and nowhere behind it has its last
/// position there.
pub proof fn lemma_last_position_is(s: Seq<char>, c: char, at: int)
    requires
        0 <= at < s.len(),
        s[at] == c,
        forall|i: int| at < i < s.len() ==> s[i] != c,
    ensures
        last_position(s, c) == at,
{
    lemma_last_position(s, c);
}

/// How many characters of `chars[..end]` stand up to and with the last `c`: 0
/// where there is none.
pub fn after_last(chars: &Vec<char>, end: usize, c: char) -> (r: usize)
    requires
        end <= chars@.len(),
    ensures
        r == last_position(chars@.take(end as int), c) + 1,
        r <= end,
{
    let mut n: usize = end;
    proof {
        lemma_last_position(chars@.take(end as int), c);
    }
    while n > 0 && chars[n - 1] != c
        invariant
            n <= end <= chars@.len(),
            last_position(chars@.take(n as int), c) == last_position(chars@.take(end as int), c),
        decreases n,
    {
        assert(chars@.take(n as int).drop_last() == chars@.take(n - 1));
        n = n - 1;
    }
    n
}

/// The characters of `chars` from `from` up to `to`.
pub fn slice_of(chars: &Vec<char>, from: usize, to: usize) -> (r: Vec<char>)
    requires
        from <= to <= chars@.len(),
    ensures
        r@ == chars@.subrange(from as int, to as int),
{
    let mut r: Vec<char> = Vec::new();
    for i in from..to
        invariant
            to <= chars@.len(),
            r@ == chars@.subrange(from as int, i as int),
    {
        r.push(chars[i]);
    }
    r
}

/// The decimal digit of a number below ten.
pub open spec fn digit(d: nat) -> char {
    (48 + d) as char
}

/// A number in decimal, without leading zeros.
pub open spec fn decimal(n: nat) -> Seq<char>
    decreases n,
{
    if n < 10 {
        seq![digit(n)]
    } else {
        decimal(n / 10).push(digit(n % 10))
    }
}

/// The decimal digit of a number below ten, as text.
fn digit_text(d: u64) -> (r: &'static str)
    requires
        d < 10,
    ensures
        r@ == seq![digit(d as nat)],
{
    proof {
        reveal_strlit("0");
        reveal_strlit("1");
        reveal_strlit("2");
        reveal_strlit("3");
        reveal_strlit("4");
        reveal_strlit("5");
        reveal_strlit("6");
        reveal_strlit("7");
        reveal_strlit("8");
        reveal_strlit("9");
    }
    let r: &'static str = match d {
        0 => "0",
        1 => "1",
        2 => "2",
        3 => "3",
        4 => "4",
        5 => "5",
        6 => "6",
        7 => "7",
        8 => "8",
        _ => "9",
    };
    assert(r@ =~= seq![digit(d as nat)]);
    r
}

/// Writes `n` in decimal.
pub fn decimal_text(n: u64) -> (r: String)
    ensures
        r@ == decimal(n as nat),
    decreases n,
{
    if n < 10 {
        digit_text(n).to_string()
    } else {
        let mut r: String = decimal_text(n / 10);
        r.append(digit_text(n % 10));
        assert(r@ =~= decimal(n as nat));
        r
    }
}

/// Whether a byte counts as text in a header value: printable ASCII or a tab.
pub open spec fn visible_byte(b: u8) -> bool {
    32 <= b < 127 || b == 9
}

/// The text that a header value spells, if all its bytes count as text.
pub open spec fn header_text(value: Seq<u8>) -> Option<Seq<char>> {
    if forall|i: int| 0 <= i < value.len() ==> visible_byte(#[trigger] value[i]) {
        Some(Seq::new(value.len(), |i: int| value[i] as char))
    } else {
        None
    }
}

/// The text of a header value, if there is a value and it spells one.
pub open spec fn optional_header_text(value: Option<Seq<u8>>) -> Option<Seq<char>> {
    match value {
        Some(bytes) => header_text(bytes),
        None => None,
    }
}

/// Reads a header value as text; a value with any other byte than printable
/// ASCII and tabs is no text.
pub fn read_header(value: &[u8]) -> (r: Option<Vec<char>>)
    ensures
        match r {
            Some(text) => header_text(value@) == Some(text@),
            None => header_text(value@) is None,
        },
{
    let mut text: Vec<char> = Vec::new();
    for i in 0..value.len()
        invariant
            text@.len() == i,
            forall|j: int| 0 <= j < i ==> visible_byte(#[trigger] value@[j]),
            forall|j: int| 0 <= j < i ==> text@[j] == #[trigger] value@[j] as char,
    {
        let b: u8 = value[i];
        if !((32 <= b && b < 127) || b == 9) {
            assert(!visible_byte(value@[i as int]));
            return None;
        }
        text.push(b as char);
    }
    assert(text@ =~= Seq::new(value@.len(), |i: int| value@[i] as char));
    Some(text)
}

/// What an optional string says is the text in it, if there is one.
pub proof fn law_optional_text(text: Option<String>)
    ensures
        optional_text(text) is Some <==> text is Some,
        text is Some ==> optional_text(text)->0 == text->0@,
{
}

/// A text occurs in every text that is made by putting something before it and
/// something behind it.
pub proof fn law_occurs_between(before: Seq<char>, needle: Seq<char>, after: Seq<char>)
    ensures
        occurs_in(before + needle + after, needle),
{
    let text = before + needle + after;
    assert(text.subrange(before.len() as int, (before.len() + needle.len()) as int) =~= needle);
    assert(occurs_at(text, needle, before.len() as int));
}

/// A text that occurs in another parts it into something before and something
/// behind.
pub proof fn law_occurrence_parts_text(text: Seq<char>, needle: Seq<char>)
    requires
        occurs_in(text, needle),
    ensures
        exists|before: Seq<char>, after: Seq<char>| text == #[trigger] (before + needle + after),
{
    let at = choose|at: int| occurs_at(text, needle, at);
    let before = text.take(at);
    let after = text.skip(at + needle.len());
    assert forall|i: int| 0 <= i < needle.len() implies text[at + i] == needle[i] by {
        assert(text.subrange(at, at + needle.len())[i] == needle[i]);
    }
    assert(text =~= before + needle + after);
}

/// The number that decimal digits stand for.
pub open spec fn decimal_value(digits: Seq<char>) -> int
    decreases digits.len(),
{
    if digits.len() == 0 {
        0
    } else {
        decimal_value(digits.drop_last()) * 10 + (digits.last() as int - '0' as int)
    }
}

/// A number in decimal is made of digits that stand for the number, and has no
/// zero in front unless it is nothing else.
pub proof fn law_decimal_stands_for_number(n: nat)
    ensures
        decimal_value(decimal(n)) == n,
        decimal(n).len() > 0,
        decimal(n)[0] == '0' ==> decimal(n).len() == 1,
        forall|i: int|
            0 <= i < decimal(n).len() ==> '0' as int <= #[trigger] decimal(n)[i] as int
                && decimal(n)[i] as int <= '9' as int,
    decreases n,
{
    if n < 10 {
        assert(decimal(n).drop_last() =~= Seq::<char>::empty());
        assert(decimal_value(decimal(n).drop_last()) == 0);
        assert(decimal(n).last() == digit(n));
    } else {
        law_decimal_stands_for_number(n / 10);
        let front = decimal(n / 10);
        assert(decimal(n).drop_last() =~= front);
        assert(decimal(n).last() == digit(n % 10));
        assert(decimal(n)[0] == front[0]);
        if front[0] == '0' {
            assert(front.len() == 1);
            assert(decimal_value(front.drop_last()) == 0);
            assert(front.last() == '0');
        }
        assert forall|i: int| 0 <= i < decimal(n).len() implies '0' as int
            <= #[trigger] decimal(n)[i] as int && decimal(n)[i] as int <= '9' as int by {
            if i < front.len() {
                assert(decimal(n)[i] == front[i]);
            }
        }
    }
}

/// A header value of printable ASCII and tabs alone spells a text, however long
/// it is: a character for every byte, the one with that code.
pub proof fn law_visible_bytes_are_text(value: Seq<u8>)
    requires
        forall|i: int|
            0 <= i < value.len() ==> 32 <= #[trigger] value[i] <= 126 || value[i] == 9,
    ensures
        header_text(value) is Some,
        header_text(value)->0.len() == value.len(),
        forall|i: int|
            0 <= i < value.len() ==> (#[trigger] header_text(value)->0[i]) as int == value[i] as int,
        optional_header_text(Some(value)) == header_text(value),
{
}

/// A header value with any other byte spells none, and neither does a header
/// that is not there.
pub proof fn law_other_bytes_are_no_text(value: Seq<u8>, at: int)
    requires
        0 <= at < value.len(),
        !(32 <= value[at] <= 126 || value[at] == 9),
    ensures
        optional_header_text(Some(value)) is None,
        optional_header_text(None) is None,
{
    assert(!visible_byte(value[at]));
}

} // verus!
