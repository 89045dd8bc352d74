//! Text as the library reads and writes it: decimal numbers, equality, and
//! the search for one text inside another.

use vstd::prelude::*;

verus! {

/// A character from `0` to `9`.
pub open spec fn is_digit(c: char) -> bool {
    '0' <= c <= '9'
}

/// The number that a digit stands for.
pub open spec fn digit_value(c: char) -> nat {
    (c as int - '0' as int) as nat
}

/// The digit that stands for a number below ten.
pub open spec fn digit(n: nat) -> char {
    (n + '0' as int) as char
}

/// The number that a run of decimal digits stands for.
pub open spec fn digits_value(digits: Seq<char>) -> nat
    decreases digits.len(),
{
    if digits.len() == 0 {
        0
    } else {
        digits_value(digits.drop_last()) * 10 + digit_value(digits.last())
    }
}

/// The decimal text of a number, with no leading zero.
pub open spec fn decimal(n: nat) -> Seq<char>
    decreases n,
{
    if n < 10 {
        seq![digit(n)]
    } else {
        decimal(n / 10).push(digit(n % 10))
    }
}

/// The text without one leading plus sign.
pub open spec fn unsigned_part(text: Seq<char>) -> Seq<char> {
    if text.len() > 0 && text[0] == '+' {
        text.skip(1)
    } else {
        text
    }
}

/// The number in a text that holds one: an optional plus sign and then digits
/// only, at least one, for a number that fits in sixteen bits.
pub open spec fn parsed_u16(text: Seq<char>) -> Option<u16> {
    let digits = unsigned_part(text);
    if digits.len() > 0 && (forall|i: int| 0 <= i < digits.len() ==> is_digit(#[trigger] digits[i]))
        && digits_value(digits) <= u16::MAX {
        Some(digits_value(digits) as u16)
    } else {
        None
    }
}

/// The text of a number below ten.
fn digit_text(n: u32) -> (text: &'static str)
    requires
        n < 10,
    ensures
        text@ == seq![digit(n as nat)],
{
    let text = match n {
        0 => "0",
        1 => "1",
        2 => "2",
        3 => "3",
        4 => "4",
        5 => "5",
        6 => "6",
        7 => "7",
        8 => "8",
        _ => "9",
    };
    proof {
        reveal_strlit("0");
        reveal_strlit("1");
        reveal_strlit("2");
        reveal_strlit("3");
        reveal_strlit("4");
        reveal_strlit("5");
        reveal_strlit("6");
        reveal_strlit("7");
        reveal_strlit("8");
        reveal_strlit("9");
        assert(text@ =~= seq![digit(n as nat)]);
    }
    text
}

/// A number as decimal text.
pub(crate) fn decimal_text(number: u32) -> (text: String)
    ensures
        text@ == decimal(number as nat),
    decreases number,
{
    if number < 10 {
        digit_text(number).to_owned()
    } else {
        let mut text = decimal_text(number / 10);
        text.append(digit_text(number % 10));
        assert(text@ =~= decimal((number / 10) as nat).push(digit((number % 10) as nat)));
        text
    }
}

/// More digits never stand for a smaller number.
proof fn lemma_digits_increase(digits: Seq<char>, n: int)
    requires
        0 <= n <= digits.len(),
    ensures
        digits_value(digits.take(n)) <= digits_value(digits),
    decreases digits.len(),
{
    if n == digits.len() {
        assert(digits.take(n) =~= digits);
    } else {
        let front = digits.drop_last();
        lemma_digits_increase(front, n);
        assert(front.take(n) =~= digits.take(n));
    }
}

/// The number in a text, if it holds one that fits in sixteen bits.
pub(crate) fn parse_u16(text: &str) -> (number: Option<u16>)
    ensures
        number == parsed_u16(text@),
{
    let chars = chars_of(text);
    let start: usize = if chars.len() > 0 && chars[0] == '+' {
        1
    } else {
        0
    };
    if start == chars.len() {
        return None;
    }
    let ghost digits = unsigned_part(text@);
    assert(digits =~= text@.skip(start as int));
    assert(digits.take(0) =~= Seq::<char>::empty());
    let mut value: u32 = 0;
    let mut i: usize = start;
    while i < chars.len()
        invariant
            start <= i <= chars.len(),
            chars@ == text@,
            digits == unsigned_part(text@),
            digits == text@.skip(start as int),
            value == digits_value(digits.take(i - start)),
            value <= u16::MAX,
            forall|k: int| 0 <= k < i - start ==> is_digit(#[trigger] digits[k]),
        decreases chars.len() - i,
    {
        let c = chars[i];
        assert(digits[i - start] == c);
        if c < '0' || c > '9' {
            return None;
        }
        proof {
            assert(digits.take(i + 1 - start).drop_last() =~= digits.take(i - start));
            lemma_digits_increase(digits, i + 1 - start);
        }
        value = value * 10 + (c as u32 - '0' as u32);
        if value > 65535 {
            return None;
        }
        i = i + 1;
    }
    assert(digits.take(chars.len() - start) =~= digits);
    Some(value as u16)
}

/// The digits of a decimal text stand for the number it was written from.
proof fn lemma_decimal_digits(n: nat)
    ensures
        decimal(n).len() > 0,
        forall|i: int| 0 <= i < decimal(n).len() ==> is_digit(#[trigger] decimal(n)[i]),
        digits_value(decimal(n)) == n,
    decreases n,
{
    reveal_with_fuel(digits_value, 2);
    if n < 10 {
        assert(decimal(n).drop_last() =~= Seq::<char>::empty());
    } else {
        lemma_decimal_digits(n / 10);
        assert(decimal(n).drop_last() =~= decimal(n / 10));
    }
}

/// What was written as decimal text reads back as the same number.
pub proof fn decimal_reads_back(n: u16)
    ensures
        parsed_u16(decimal(n as nat)) == Some(n),
{
    lemma_decimal_digits(n as nat);
    assert(is_digit(decimal(n as nat)[0]));
}

/// The characters of a text.
pub(crate) fn chars_of(text: &str) -> (chars: Vec<char>)
    ensures
        chars@ == text@,
{
    let mut chars: Vec<char> = Vec::new();
    for c in it: text.chars()
        invariant
            it.seq() == text@,
            chars@ == text@.take(it.index() as int),
    {
        chars.push(c);
        assert(text@.take(it.index() as int + 1) =~= text@.take(it.index() as int).push(c));
    }
    assert(text@.take(text@.len() as int) =~= text@);
    chars
}

/// Whether two texts are the same.
pub fn same_text(a: &str, b: &str) -> (same: bool)
    ensures
        same == (a@ == b@),
{
    let left = chars_of(a);
    let right = chars_of(b);
    if left.len() != right.len() {
        return false;
    }
    let mut i: usize = 0;
    while i < left.len()
        invariant
            i <= left.len(),
            left@ == a@,
            right@ == b@,
            left.len() == right.len(),
            forall|k: int| 0 <= k < i ==> left@[k] == right@[k],
        decreases left.len() - i,
    {
        if left[i] != right[i] {
            assert(a@[i as int] != b@[i as int]);
            return false;
        }
        i = i + 1;
    }
    assert(a@ =~= b@);
    true
}

/// One text stands inside another, in one piece, from place `at` on.
pub open spec fn stands_at(whole: Seq<char>, part: Seq<char>, at: int) -> bool {
    0 <= at && at + part.len() <= whole.len() && whole.subrange(at, at + part.len()) == part
}

/// One text stands inside another, in one piece.
pub open spec fn holds_text(whole: Seq<char>, part: Seq<char>) -> bool {
    exists|at: int| stands_at(whole, part, at)
}

/// Whether one text stands inside another from place `at` on.
fn part_stands_at(whole: &Vec<char>, part: &Vec<char>, at: usize) -> (found: bool)
    requires
        at + part@.len() <= whole@.len(),
    ensures
        found == stands_at(whole@, part@, at as int),
{
    let mut i: usize = 0;
    while i < part.len()
        invariant
            i <= part.len(),
            at + part.len() <= whole.len(),
            forall|k: int| 0 <= k < i ==> whole@[at + k] == part@[k],
        decreases part.len() - i,
    {
        if whole[at + i] != part[i] {
            assert(whole@.subrange(at as int, at + part@.len())[i as int] != part@[i as int]);
            return false;
        }
        i = i + 1;
    }
    assert(whole@.subrange(at as int, at + part@.len()) =~= part@);
    true
}

/// Whether one text stands inside another. The empty text stands in every one.
pub fn contains_text(whole: &str, part: &str) -> (found: bool)
    ensures
        found == holds_text(whole@, part@),
{
    let outer = chars_of(whole);
    let inner = chars_of(part);
    if inner.len() > outer.len() {
        return false;
    }
    let last: usize = outer.len() - inner.len();
    let mut at: usize = 0;
    while at < last
        invariant
            outer@ == whole@,
            inner@ == part@,
            last == outer@.len() - inner@.len(),
            at <= last,
            forall|k: int| 0 <= k < at ==> !stands_at(whole@, part@, k),
        decreases last - at,
    {
        if part_stands_at(&outer, &inner, at) {
            return true;
        }
        at = at + 1;
    }
    part_stands_at(&outer, &inner, last)
}

/// The text before the last dot; nothing where there is no dot.
pub open spec fn before_last_dot(text: Seq<char>) -> Option<Seq<char>>
    decreases text.len(),
{
    if text.len() == 0 {
        None
    } else if text.last() == '.' {
        Some(text.drop_last())
    } else {
        before_last_dot(text.drop_last())
    }
}

/// The text before the last dot.
pub fn stem(text: &str) -> (before: Option<&str>)
    ensures
        match before {
            Some(part) => before_last_dot(text@) == Some(part@),
            None => before_last_dot(text@) is None,
        },
{
    let chars = chars_of(text);
    let mut end: usize = chars.len();
    assert(text@.take(end as int) =~= text@);
    while end > 0
        invariant
            chars@ == text@,
            end <= chars.len(),
            before_last_dot(text@) == before_last_dot(text@.take(end as int)),
        decreases end,
    {
        end = end - 1;
        assert(text@.take(end + 1).drop_last() =~= text@.take(end as int));
        assert(text@.take(end + 1).last() == text@[end as int]);
        if chars[end] == '.' {
            return Some(text.substring_char(0, end));
        }
    }
    None
}

/// The text in lower case.
pub uninterp spec fn lowercase(text: Seq<char>) -> Seq<char>;

/// `str::to_lowercase`. Claimed of it: nothing but that its result depends on
/// the text alone; which characters Unicode lowers to which is not said.
#[verifier::external_body]
pub(crate) fn to_lower(text: &str) -> (lower: String)
    ensures
        lower@ == lowercase(text@),
{
    text.to_lowercase()
}

/// The decimal text of a number holds digits only, stands for that number, and
/// begins with a zero only where it is the text of zero.
pub proof fn decimal_means_its_number(n: nat)
    ensures
        decimal(n).len() > 0,
        forall|i: int| 0 <= i < decimal(n).len() ==> '0' <= #[trigger] decimal(n)[i] <= '9',
        digits_value(decimal(n)) == n,
        decimal(n)[0] == '0' ==> n == 0 && decimal(n).len() == 1,
    decreases n,
{
    lemma_decimal_digits(n);
    assert(forall|i: int|
        0 <= i < decimal(n).len() ==> is_digit(#[trigger] decimal(n)[i]));
    if n >= 10 {
        decimal_means_its_number(n / 10);
        assert(decimal(n)[0] == decimal(n / 10)[0]);
    }
}

/// One digit more makes ten times the number and that digit.
pub proof fn a_digit_more(digits: Seq<char>, c: char)
    ensures
        digits_value(Seq::<char>::empty()) == 0,
        '0' <= c <= '9' ==> digits_value(digits.push(c)) == 10 * digits_value(digits) + (c as int
            - '0' as int),
{
    assert(digits.push(c).drop_last() =~= digits);
}

/// How a text is read as a number, from its first character on: a text with no
/// digit is no number, one digit is its own number, and each character more has
/// to be a digit and must not take the number over sixteen bits.
pub proof fn texts_are_read_digit_by_digit(text: Seq<char>, c: char)
    ensures
        parsed_u16(Seq::<char>::empty()) is None,
        parsed_u16(seq!['+']) is None,
        ({
            let d = c as int - '0' as int;
            &&& (parsed_u16(seq![c]) == if 0 <= d <= 9 {
                Some(d as u16)
            } else {
                None
            })
            &&& (parsed_u16(seq!['+', c]) == if 0 <= d <= 9 {
                Some(d as u16)
            } else {
                None
            })
            &&& (text.len() > 0 && text != seq!['+'] ==> parsed_u16(text.push(c)) == (match parsed_u16(
                text,
            ) {
                Some(v) if 0 <= d <= 9 && 10 * v + d <= 65535 => Some((10 * v + d) as u16),
                _ => None,
            }))
        }),
{
    reveal_with_fuel(digits_value, 3);
    assert(seq!['+'].skip(1) =~= Seq::<char>::empty());
    assert(seq!['+', c].skip(1) =~= seq![c]);
    assert(seq![c].drop_last() =~= Seq::<char>::empty());
    assert(unsigned_part(seq!['+', c]) =~= seq![c]);
    assert(seq![c][0] == c);
    if c == '+' {
        assert(seq![c] =~= seq!['+']);
    }
    if text.len() > 0 && text != seq!['+'] {
        let digits = unsigned_part(text);
        let more = unsigned_part(text.push(c));
        assert(text.push(c).skip(1) =~= text.skip(1).push(c));
        assert(more =~= digits.push(c));
        if text[0] == '+' && text.len() == 1 {
            assert(text =~= seq!['+']);
        }
        assert(digits.len() > 0);
        assert(more.drop_last() =~= digits);
        assert(more[digits.len() as int] == c);
        assert(forall|i: int| 0 <= i < digits.len() ==> #[trigger] more[i] == digits[i]);
        if forall|i: int| 0 <= i < more.len() ==> is_digit(#[trigger] more[i]) {
            assert forall|i: int| 0 <= i < digits.len() implies is_digit(#[trigger] digits[i]) by {
                assert(is_digit(more[i]));
            }
            assert(is_digit(more[digits.len() as int]));
        }
        if (forall|i: int| 0 <= i < digits.len() ==> is_digit(#[trigger] digits[i])) && is_digit(c) {
            assert forall|i: int| 0 <= i < more.len() implies is_digit(#[trigger] more[i]) by {
                if i < digits.len() {
                    assert(is_digit(digits[i]));
                }
            }
        }
    }
}

/// One text stands inside another exactly when the other is made of something,
/// the text, and something.
pub proof fn what_stands_inside(whole: Seq<char>, part: Seq<char>)
    ensures
        holds_text(whole, part) <==> exists|front: Seq<char>, back: Seq<char>|
            #[trigger] (front + part + back) == whole,
{
    if holds_text(whole, part) {
        let at = choose|at: int| stands_at(whole, part, at);
        let front = whole.take(at);
        let back = whole.skip(at + part.len());
        assert(front + part + back =~= whole);
    }
    if exists|front: Seq<char>, back: Seq<char>| #[trigger] (front + part + back) == whole {
        let (front, back) = choose|front: Seq<char>, back: Seq<char>|
            #[trigger] (front + part + back) == whole;
        assert(whole.subrange(front.len() as int, (front.len() + part.len()) as int) =~= part);
        assert(stands_at(whole, part, front.len() as int));
    }
}

/// Of a text with a dot, what stands before the last one: whatever comes in
/// front of a dot that no other follows. A text without a dot has nothing.
pub proof fn the_last_dot_counts(before: Seq<char>, after: Seq<char>)
    requires
        !after.contains('.'),
    ensures
        before_last_dot(before + seq!['.'] + after) == Some(before),
        before_last_dot(after) is None,
    decreases after.len(),
{
    let text = before + seq!['.'] + after;
    if after.len() == 0 {
        assert(text.drop_last() =~= before);
    } else {
        let rest = after.drop_last();
        assert(after.contains(after[after.len() - 1]));
        assert forall|c: char| rest.contains(c) implies after.contains(c) by {
            let k = choose|k: int| 0 <= k < rest.len() && rest[k] == c;
            assert(after[k] == c);
        }
        the_last_dot_counts(before, rest);
        assert(text.drop_last() =~= before + seq!['.'] + rest);
        assert(text.last() == after.last());
    }
}

} // verus!
