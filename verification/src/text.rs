//! Small operations on strings, stated over their sequences of characters.

use vstd::prelude::*;
use vstd::string::*;

verus! {

/// Whether two strings hold the same characters.
pub fn str_equal(left: &str, right: &str) -> (same: bool)
    ensures
        same == (left@ == right@),
{
    let a = left.to_owned();
    let b = right.to_owned();
    a == b
}

/// Whether `text` begins with `prefix`.
pub fn starts_with(text: &str, prefix: &str) -> (found: bool)
    ensures
        found == prefix@.is_prefix_of(text@),
{
    let wanted = prefix.unicode_len();
    let available = text.unicode_len();
    if wanted > available {
        return false;
    }
    let head = text.substring_char(0, wanted);
    str_equal(head, prefix)
}

/// The characters of `text` from position `start` to the end.
pub(crate) fn skip_chars(text: &str, start: usize) -> (rest: String)
    requires
        start <= text@.len(),
    ensures
        rest@ == text@.skip(start as int),
{
    let end = text.unicode_len();
    text.substring_char(start, end).to_owned()
}

/// The first `count` characters of `text`.
pub(crate) fn take_chars(text: &str, count: usize) -> (head: String)
    requires
        count <= text@.len(),
    ensures
        head@ == text@.take(count as int),
{
    text.substring_char(0, count).to_owned()
}

/// Whether `c` is one of the ten decimal digits.
pub open spec fn is_digit(c: char) -> bool {
    '0' <= c <= '9'
}

/// The value of a decimal digit.
pub open spec fn digit_value(c: char) -> int {
    c as int - '0' as int
}

/// Whether every character of `text` is a decimal digit.
pub open spec fn all_digits(text: Seq<char>) -> bool {
    forall|i: int| 0 <= i < text.len() ==> is_digit(#[trigger] text[i])
}

/// The number that a sequence of decimal digits writes.
pub open spec fn decimal_value(digits: Seq<char>) -> int
    decreases digits.len(),
{
    if digits.len() == 0 {
        0
    } else {
        decimal_value(digits.drop_last()) * 10 + digit_value(digits.last())
    }
}

/// The integer of 32 bits that `text` writes in decimal: an optional sign,
/// `+` or `-`, followed by at least one digit and nothing else, the number
/// being in range.
pub open spec fn integer_of(text: Seq<char>) -> Option<i32> {
    let signed = text.len() > 0 && (text[0] == '-' || text[0] == '+');
    let digits = if signed {
        text.skip(1)
    } else {
        text
    };
    let magnitude = decimal_value(digits);
    let value = if text.len() > 0 && text[0] == '-' {
        -magnitude
    } else {
        magnitude
    };
    if digits.len() > 0 && all_digits(digits) && i32::MIN <= value <= i32::MAX {
        Some(value as i32)
    } else {
        None
    }
}

/// Digits written after a number do not make it smaller.
pub proof fn lemma_decimal_value_grows(digits: Seq<char>, count: int)
    requires
        all_digits(digits),
        0 <= count <= digits.len(),
    ensures
        0 <= decimal_value(digits.take(count)) <= decimal_value(digits),
    decreases digits.len() - count,
{
    if count == digits.len() {
        assert(digits.take(count) =~= digits);
        lemma_decimal_value_is_natural(digits);
    } else {
        lemma_decimal_value_grows(digits, count + 1);
        let longer = digits.take(count + 1);
        assert(longer.drop_last() =~= digits.take(count));
        assert(is_digit(longer.last())) by {
            assert(longer.last() == digits[count]);
        }
        lemma_decimal_value_is_natural(digits.take(count));
    }
}

/// A sequence of digits writes a natural number.
pub proof fn lemma_decimal_value_is_natural(digits: Seq<char>)
    requires
        all_digits(digits),
    ensures
        0 <= decimal_value(digits),
    decreases digits.len(),
{
    if digits.len() > 0 {
        assert(is_digit(digits.last()));
        assert forall|i: int| 0 <= i < digits.drop_last().len() implies is_digit(
            #[trigger] digits.drop_last()[i],
        ) by {
            assert(digits.drop_last()[i] == digits[i]);
        }
        lemma_decimal_value_is_natural(digits.drop_last());
    }
}

/// The integer of 32 bits that `text` writes in decimal.
pub fn parse_i32(text: &str) -> (value: Option<i32>)
    ensures
        value == integer_of(text@),
{
    let length = text.unicode_len();
    if length == 0 {
        return None;
    }
    let first = text.get_char(0);
    let negative = first == '-';
    let start: usize = if first == '-' || first == '+' {
        1
    } else {
        0
    };
    let ghost digits = if start == 1 {
        text@.skip(1)
    } else {
        text@
    };
    if start == length {
        return None;
    }
    let mut total: i64 = 0;
    let mut i: usize = start;
    proof {
        assert(digits.take(0) =~= Seq::<char>::empty());
    }
    while i < length
        invariant
            start <= i <= length == text@.len(),
            start < length,
            negative == (text@[0] == '-'),
            start == (if text@[0] == '-' || text@[0] == '+' { 1int } else { 0int }),
            digits == (if start == 1 { text@.skip(1) } else { text@ }),
            all_digits(digits.take(i - start)),
            total == decimal_value(digits.take(i - start)),
            0 <= total <= 2147483648,
        decreases length - i,
    {
        let c = text.get_char(i);
        let ghost seen = digits.take(i - start);
        let ghost longer = digits.take(i + 1 - start);
        proof {
            assert(longer.drop_last() =~= seen);
            assert(longer.last() == c);
        }
        if !(c >= '0' && c <= '9') {
            proof {
                assert(!is_digit(digits[i - start]));
            }
            return None;
        }
        let digit: i64 = (c as u32 - '0' as u32) as i64;
        total = total * 10 + digit;
        proof {
            assert(digit == digit_value(c));
            assert(total == decimal_value(longer));
            assert forall|j: int| 0 <= j < longer.len() implies is_digit(#[trigger] longer[j]) by {
                if j < seen.len() {
                    assert(longer[j] == seen[j]);
                }
            }
        }
        if total > 2147483648 {
            proof {
                if all_digits(digits) {
                    lemma_decimal_value_grows(digits, i + 1 - start);
                }
            }
            return None;
        }
        i += 1;
    }
    proof {
        assert(digits.take(length - start) =~= digits);
        assert(all_digits(digits));
        assert(total == decimal_value(digits));
        assert(digits.len() > 0);
    }
    if negative {
        Some((-total) as i32)
    } else if total == 2147483648 {
        None
    } else {
        Some(total as i32)
    }
}

/// The length of the part of `text` before the first `separator`; the
/// length of `text` when it holds none.
pub open spec fn first_part_length(text: Seq<char>, separator: char) -> nat
    decreases text.len(),
{
    if text.len() == 0 || text[0] == separator {
        0
    } else {
        1 + first_part_length(text.skip(1), separator)
    }
}

/// The parts of `text` that `separator` sets apart, in order. There is
/// always at least one part, and parts may be empty.
pub open spec fn split(text: Seq<char>, separator: char) -> Seq<Seq<char>>
    decreases text.len(),
    via split_terminates
{
    let first = first_part_length(text, separator);
    if first >= text.len() {
        seq![text]
    } else {
        seq![text.take(first as int)] + split(text.skip(first as int + 1), separator)
    }
}

/// Splitting ends: what follows the first part is shorter.
#[via_fn]
proof fn split_terminates(text: Seq<char>, separator: char) {
}

/// The first part of a text holds no separator, and a separator follows
/// it unless the text ends there.
pub proof fn lemma_first_part_length(text: Seq<char>, separator: char)
    ensures
        first_part_length(text, separator) <= text.len(),
        forall|i: int| 0 <= i < first_part_length(text, separator) ==> text[i] != separator,
        first_part_length(text, separator) < text.len() ==> text[first_part_length(
            text,
            separator,
        ) as int] == separator,
    decreases text.len(),
{
    if text.len() > 0 && text[0] != separator {
        let rest = text.skip(1);
        lemma_first_part_length(rest, separator);
        assert forall|i: int| 0 <= i < first_part_length(text, separator) implies text[i]
            != separator by {
            if i > 0 {
                assert(rest[i - 1] == text[i]);
            }
        }
    }
}

/// A text always splits into at least one part.
pub proof fn lemma_split_is_not_empty(text: Seq<char>, separator: char)
    ensures
        split(text, separator).len() >= 1,
{
}

/// The parts of `text` that `separator` sets apart, in order.
pub fn split_on(text: &str, separator: char) -> (parts: Vec<String>)
    ensures
        parts.deep_view() == split(text@, separator),
{
    let length = text.unicode_len();
    let mut parts: Vec<String> = Vec::new();
    let mut start: usize = 0;
    let mut i: usize = 0;
    proof {
        assert(text@.skip(0) =~= text@);
    }
    while i < length
        invariant
            start <= i <= length == text@.len(),
            forall|j: int| start <= j < i ==> text@[j] != separator,
            split(text@, separator) == parts.deep_view() + split(
                text@.skip(start as int),
                separator,
            ),
        decreases length - i,
    {
        if text.get_char(i) == separator {
            let part = text.substring_char(start, i).to_owned();
            let ghost rest = text@.skip(start as int);
            let ghost before = parts.deep_view();
            proof {
                lemma_first_part_length(rest, separator);
                let first = first_part_length(rest, separator);
                if first < i - start {
                    assert(rest[first as int] == text@[start + first]);
                } else if first > i - start {
                    assert(rest[i - start] == text@[i as int]);
                }
                assert(rest.take(first as int) =~= part@);
                assert(rest.skip(first as int + 1) =~= text@.skip(i + 1));
            }
            parts.push(part);
            proof {
                assert(parts.deep_view() =~= before + seq![part@]);
                assert(split(text@, separator) =~= parts.deep_view() + split(
                    text@.skip(i + 1),
                    separator,
                ));
            }
            start = i + 1;
        }
        i += 1;
    }
    let last = text.substring_char(start, length).to_owned();
    proof {
        let rest = text@.skip(start as int);
        let before = parts.deep_view();
        lemma_first_part_length(rest, separator);
        let first = first_part_length(rest, separator);
        if first < rest.len() {
            assert(rest[first as int] == text@[start + first]);
        }
        assert(rest =~= last@);
        assert(before + seq![last@] =~= before.push(last@));
    }
    let ghost before = parts.deep_view();
    parts.push(last);
    proof {
        assert(parts.deep_view() =~= before + seq![last@]);
    }
    parts
}

/// Whether `left` comes no later than `right` in the order of
/// dictionaries, the characters being compared by their code points.
pub open spec fn precedes(left: Seq<char>, right: Seq<char>) -> bool
    decreases left.len(),
{
    if left.len() == 0 {
        true
    } else if right.len() == 0 {
        false
    } else if left[0] != right[0] {
        left[0] < right[0]
    } else {
        precedes(left.skip(1), right.skip(1))
    }
}

/// Whether every text of a list comes no later than those that follow it.
pub open spec fn is_sorted(texts: Seq<Seq<char>>) -> bool {
    forall|i: int, j: int| 0 <= i <= j < texts.len() ==> precedes(texts[i], texts[j])
}

/// Every text precedes itself.
pub proof fn lemma_precedes_is_reflexive(text: Seq<char>)
    ensures
        precedes(text, text),
    decreases text.len(),
{
    if text.len() > 0 {
        lemma_precedes_is_reflexive(text.skip(1));
    }
}

/// Of two texts, one precedes the other.
pub proof fn lemma_precedes_is_total(left: Seq<char>, right: Seq<char>)
    ensures
        precedes(left, right) || precedes(right, left),
    decreases left.len(),
{
    if left.len() > 0 && right.len() > 0 && left[0] == right[0] {
        lemma_precedes_is_total(left.skip(1), right.skip(1));
    }
}

/// What precedes a text precedes whatever that text precedes.
pub proof fn lemma_precedes_is_transitive(first: Seq<char>, second: Seq<char>, third: Seq<char>)
    requires
        precedes(first, second),
        precedes(second, third),
    ensures
        precedes(first, third),
    decreases first.len(),
{
    if first.len() > 0 && second.len() > 0 && third.len() > 0 {
        if first[0] == second[0] && second[0] == third[0] {
            lemma_precedes_is_transitive(first.skip(1), second.skip(1), third.skip(1));
        }
    }
}

/// Two texts that precede each other are the same text.
pub proof fn lemma_precedes_is_antisymmetric(left: Seq<char>, right: Seq<char>)
    requires
        precedes(left, right),
        precedes(right, left),
    ensures
        left == right,
    decreases left.len(),
{
    if left.len() > 0 && right.len() > 0 {
        lemma_precedes_is_antisymmetric(left.skip(1), right.skip(1));
        assert(left =~= seq![left[0]] + left.skip(1));
        assert(right =~= seq![right[0]] + right.skip(1));
    } else {
        assert(left =~= right);
    }
}

/// Whether `left` comes no later than `right` in the order of
/// dictionaries.
pub fn comes_before(left: &str, right: &str) -> (before: bool)
    ensures
        before == precedes(left@, right@),
{
    let left_length = left.unicode_len();
    let right_length = right.unicode_len();
    let mut i: usize = 0;
    proof {
        assert(left@.skip(0) =~= left@);
        assert(right@.skip(0) =~= right@);
    }
    while i < left_length && i < right_length
        invariant
            i <= left_length == left@.len(),
            i <= right_length == right@.len(),
            precedes(left@, right@) == precedes(left@.skip(i as int), right@.skip(i as int)),
        decreases left_length - i,
    {
        let a = left.get_char(i);
        let b = right.get_char(i);
        if a != b {
            return a < b;
        }
        proof {
            assert(left@.skip(i as int).skip(1) =~= left@.skip(i + 1));
            assert(right@.skip(i as int).skip(1) =~= right@.skip(i + 1));
        }
        i += 1;
    }
    i == left_length
}

/// The texts of `items` in the order of dictionaries.
pub fn sort_strings(items: &Vec<String>) -> (sorted: Vec<String>)
    ensures
        is_sorted(sorted.deep_view()),
        sorted.deep_view().to_multiset() == items.deep_view().to_multiset(),
{
    let ghost all = items.deep_view();
    let mut sorted: Vec<String> = Vec::new();
    let mut i: usize = 0;
    proof {
        assert(all.take(0) =~= Seq::<Seq<char>>::empty());
        assert(sorted.deep_view() =~= Seq::<Seq<char>>::empty());
    }
    while i < items.len()
        invariant
            i <= items.len(),
            all == items.deep_view(),
            is_sorted(sorted.deep_view()),
            sorted.deep_view().to_multiset() == all.take(i as int).to_multiset(),
        decreases items.len() - i,
    {
        let item = items[i].clone();
        let ghost before = sorted.deep_view();
        let mut place: usize = 0;
        while place < sorted.len() && comes_before(sorted[place].as_str(), item.as_str())
            invariant
                place <= sorted.len(),
                before == sorted.deep_view(),
                forall|k: int| 0 <= k < place ==> precedes(before[k], item@),
            decreases sorted.len() - place,
        {
            assert(before[place as int] == sorted[place as int]@);
            place += 1;
        }
        proof {
            if place < sorted.len() {
                assert(before[place as int] == sorted[place as int]@);
                lemma_precedes_is_total(before[place as int], item@);
            }
        }
        sorted.insert(place, item);
        proof {
            let after = sorted.deep_view();
            assert(after =~= before.insert(place as int, item@));
            assert forall|a: int, b: int| 0 <= a <= b < after.len() implies precedes(
                after[a],
                after[b],
            ) by {
                if a == b {
                    lemma_precedes_is_reflexive(after[a]);
                } else if b == place {
                    assert(after[a] == before[a]);
                } else if a == place {
                    assert(after[b] == before[b - 1]);
                    assert(precedes(before[place as int], before[b - 1]));
                    lemma_precedes_is_transitive(item@, before[place as int], before[b - 1]);
                } else {
                    let x = if a < place { a } else { a - 1 };
                    let y = if b < place { b } else { b - 1 };
                    assert(after[a] == before[x]);
                    assert(after[b] == before[y]);
                }
            }
            vstd::seq_lib::to_multiset_insert(before, place as int, item@);
            assert(all.take(i + 1) =~= all.take(i as int).push(item@));
            vstd::seq_lib::to_multiset_build(all.take(i as int), item@);
        }
        i += 1;
    }
    proof {
        assert(all.take(items.len() as int) =~= all);
    }
    sorted
}

/// The character that writes a digit.
pub open spec fn digit_character(digit: int) -> char {
    if digit == 0 {
        '0'
    } else if digit == 1 {
        '1'
    } else if digit == 2 {
        '2'
    } else if digit == 3 {
        '3'
    } else if digit == 4 {
        '4'
    } else if digit == 5 {
        '5'
    } else if digit == 6 {
        '6'
    } else if digit == 7 {
        '7'
    } else if digit == 8 {
        '8'
    } else {
        '9'
    }
}

/// A natural number written in decimal, without leading zeros.
pub open spec fn natural_text(number: nat) -> Seq<char>
    decreases number,
{
    if number < 10 {
        seq![digit_character(number as int)]
    } else {
        natural_text(number / 10).push(digit_character((number % 10) as int))
    }
}

/// An integer written in decimal, with a minus sign where it is
/// negative.
pub open spec fn integer_text(number: int) -> Seq<char> {
    if number < 0 {
        seq!['-'] + natural_text((-number) as nat)
    } else {
        natural_text(number as nat)
    }
}

/// The decimal text of a natural number is made of digits and writes the
/// number.
pub proof fn lemma_natural_text_writes_the_number(number: nat)
    ensures
        natural_text(number).len() > 0,
        all_digits(natural_text(number)),
        decimal_value(natural_text(number)) == number,
    decreases number,
{
    if number < 10 {
        let text = natural_text(number);
        assert(text.drop_last() =~= Seq::<char>::empty());
        assert(decimal_value(text.drop_last()) == 0);
    } else {
        let front = natural_text(number / 10);
        let text = natural_text(number);
        lemma_natural_text_writes_the_number(number / 10);
        assert(text.drop_last() =~= front);
        assert forall|i: int| 0 <= i < text.len() implies is_digit(#[trigger] text[i]) by {
            if i < front.len() {
                assert(text[i] == front[i]);
            }
        }
    }
}

/// Reading the decimal text of an integer of 32 bits gives the integer
/// back.
pub proof fn lemma_integer_text_is_read_back(number: i32)
    ensures
        integer_of(integer_text(number as int)) == Some(number),
{
    let text = integer_text(number as int);
    if number < 0 {
        let digits = natural_text((-number) as nat);
        lemma_natural_text_writes_the_number((-number) as nat);
        assert(text.skip(1) =~= digits);
    } else {
        lemma_natural_text_writes_the_number(number as nat);
        assert(is_digit(text[0]));
    }
}

/// The text of a digit.
fn digit_text(digit: u64) -> (text: &'static str)
    requires
        digit < 10,
    ensures
        text@ == seq![digit_character(digit as int)],
{
    proof {
        reveal_strlit("0");
        reveal_strlit("1");
        reveal_strlit("2");
        reveal_strlit("3");
        reveal_strlit("4");
        reveal_strlit("5");
        reveal_strlit("6");
        reveal_strlit("7");
        reveal_strlit("8");
        reveal_strlit("9");
    }
    let text = if digit == 0 {
        "0"
    } else if digit == 1 {
        "1"
    } else if digit == 2 {
        "2"
    } else if digit == 3 {
        "3"
    } else if digit == 4 {
        "4"
    } else if digit == 5 {
        "5"
    } else if digit == 6 {
        "6"
    } else if digit == 7 {
        "7"
    } else if digit == 8 {
        "8"
    } else {
        "9"
    };
    assert(text@ =~= seq![digit_character(digit as int)]);
    text
}

/// Writes a natural number in decimal.
pub fn write_natural(number: u64) -> (text: String)
    ensures
        text@ == natural_text(number as nat),
    decreases number,
{
    if number < 10 {
        digit_text(number).to_owned()
    } else {
        let mut text = write_natural(number / 10);
        text.append(digit_text(number % 10));
        assert(text@ =~= natural_text(number as nat));
        text
    }
}

/// Writes an integer in decimal.
pub fn write_integer(number: i64) -> (text: String)
    ensures
        text@ == integer_text(number as int),
{
    if number < 0 {
        let magnitude: u64 = ((-(number + 1)) as u64) + 1;
        let mut text = "-".to_owned();
        proof {
            reveal_strlit("-");
            assert("-"@ =~= seq!['-']);
        }
        let digits = write_natural(magnitude);
        text.append(digits.as_str());
        text
    } else {
        write_natural(number as u64)
    }
}

/// Whether `text` holds the character `c` nowhere.
pub open spec fn is_free_of(text: Seq<char>, c: char) -> bool {
    forall|i: int| 0 <= i < text.len() ==> text[i] != c
}

/// The first part of a text that holds no separator is the whole text.
pub proof fn lemma_first_part_of_free_text(text: Seq<char>, rest: Seq<char>, separator: char)
    requires
        is_free_of(text, separator),
    ensures
        first_part_length(text, separator) == text.len(),
        first_part_length(text + seq![separator] + rest, separator) == text.len(),
    decreases text.len(),
{
    let whole = text + seq![separator] + rest;
    if text.len() > 0 {
        let shorter = text.skip(1);
        assert(is_free_of(shorter, separator)) by {
            assert forall|i: int| 0 <= i < shorter.len() implies shorter[i] != separator by {
                assert(shorter[i] == text[i + 1]);
            }
        }
        lemma_first_part_of_free_text(shorter, rest, separator);
        assert(whole.skip(1) =~= shorter + seq![separator] + rest);
        assert(whole[0] == text[0]);
    } else {
        assert(whole[0] == separator);
    }
}

/// A text that holds no separator splits into itself alone.
pub proof fn lemma_split_of_free_text(text: Seq<char>, separator: char)
    requires
        is_free_of(text, separator),
    ensures
        split(text, separator) == seq![text],
{
    lemma_first_part_of_free_text(text, Seq::empty(), separator);
}

/// A text that holds no separator, followed by a separator and more,
/// splits into itself and the parts of what follows.
pub proof fn lemma_split_after_free_text(head: Seq<char>, rest: Seq<char>, separator: char)
    requires
        is_free_of(head, separator),
    ensures
        split(head + seq![separator] + rest, separator) == seq![head] + split(rest, separator),
{
    let whole = head + seq![separator] + rest;
    lemma_first_part_of_free_text(head, rest, separator);
    assert(whole.take(head.len() as int) =~= head);
    assert(whole.skip(head.len() as int + 1) =~= rest);
}

/// The decimal text of an integer holds digits and at most a sign.
pub proof fn lemma_integer_text_is_free_of(number: int, c: char)
    requires
        !is_digit(c),
        c != '-',
    ensures
        is_free_of(integer_text(number), c),
{
    if number < 0 {
        lemma_natural_text_writes_the_number((-number) as nat);
        let digits = natural_text((-number) as nat);
        let text = integer_text(number);
        assert forall|i: int| 0 <= i < text.len() implies text[i] != c by {
            if i > 0 {
                assert(text[i] == digits[i - 1]);
                assert(is_digit(digits[i - 1]));
            }
        }
    } else {
        lemma_natural_text_writes_the_number(number as nat);
        let text = integer_text(number);
        assert forall|i: int| 0 <= i < text.len() implies text[i] != c by {
            assert(is_digit(text[i]));
        }
    }
}

} // verus!
