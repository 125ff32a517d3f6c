//! Text: decimal numbers, prefixes and separators.

use vstd::prelude::*;

verus! {

/// The decimal digit that stands for `d`.
pub open spec fn digit(d: int) -> char
    recommends
        0 <= d < 10,
{
    ('0' as u32 + d) as char
}

/// The decimal notation of `n`, without leading zeros.
pub open spec fn decimal(n: nat) -> Seq<char>
    decreases n,
{
    if n < 10 {
        seq![digit(n as int)]
    } else {
        decimal(n / 10).push(digit((n % 10) as int))
    }
}

/// The decimal notation of `i`, with a minus sign in front where it is negative.
pub open spec fn signed_decimal(i: int) -> Seq<char> {
    if i < 0 {
        seq!['-'] + decimal((-i) as nat)
    } else {
        decimal(i as nat)
    }
}

/// Whether `text` is one or more decimal digits.
pub open spec fn is_digits(text: Seq<char>) -> bool {
    &&& text.len() > 0
    &&& forall|i: int| 0 <= i < text.len() ==> '0' <= #[trigger] text[i] <= '9'
}

/// The number that a row of decimal digits stands for.
pub open spec fn digits_value(text: Seq<char>) -> nat
    decreases text.len(),
{
    if text.len() == 0 {
        0
    } else {
        (10 * digits_value(text.drop_last()) + (text.last() as u32 - '0' as u32)) as nat
    }
}

/// The number that `text` stands for: decimal digits, which a plus sign may precede, whose value
/// fits in 16 bits.
pub open spec fn u16_value(text: Seq<char>) -> Option<u16> {
    let digits = if text.len() > 0 && text[0] == '+' {
        text.skip(1)
    } else {
        text
    };
    if is_digits(digits) && digits_value(digits) <= u16::MAX {
        Some(digits_value(digits) as u16)
    } else {
        None
    }
}

fn digit_text(d: u64) -> (text: &'static str)
    requires
        d < 10,
    ensures
        text@ == seq![digit(d as int)],
{
    proof {
        reveal_strlit("0");
        reveal_strlit("1");
        reveal_strlit("2");
        reveal_strlit("3");
        reveal_strlit("4");
        reveal_strlit("5");
        reveal_strlit("6");
        reveal_strlit("7");
        reveal_strlit("8");
        reveal_strlit("9");
    }
    match d {
        0 => "0",
        1 => "1",
        2 => "2",
        3 => "3",
        4 => "4",
        5 => "5",
        6 => "6",
        7 => "7",
        8 => "8",
        _ => "9",
    }
}

/// Appends `n` to `out` in decimal notation.
pub fn append_decimal(out: &mut String, n: u64)
    ensures
        final(out)@ == old(out)@ + decimal(n as nat),
    decreases n,
{
    if n >= 10 {
        append_decimal(out, n / 10);
    }
    out.append(digit_text(n % 10));
}

/// Appends `i` to `out` in decimal notation.
pub fn append_signed_decimal(out: &mut String, i: i32)
    ensures
        final(out)@ == old(out)@ + signed_decimal(i as int),
{
    if i < 0 {
        proof {
            reveal_strlit("-");
        }
        out.append("-");
        let magnitude: u64 = (-(i as i64)) as u64;
        append_decimal(out, magnitude);
    } else {
        append_decimal(out, i as u64);
    }
}

/// A longer row of digits never stands for a smaller number.
proof fn lemma_digits_value_grows(text: Seq<char>, i: int)
    requires
        0 <= i <= text.len(),
        forall|j: int| i <= j < text.len() ==> '0' <= #[trigger] text[j] <= '9',
    ensures
        digits_value(text.take(i)) <= digits_value(text),
    decreases text.len(),
{
    if i == text.len() {
        assert(text.take(i) =~= text);
    } else {
        let shorter = text.drop_last();
        assert forall|j: int| i <= j < shorter.len() implies '0' <= #[trigger] shorter[j] <= '9' by {
            assert(text[j] == shorter[j]);
        }
        lemma_digits_value_grows(shorter, i);
        assert(shorter.take(i) =~= text.take(i));
        assert('0' <= text[text.len() - 1]);
    }
}

/// Reads `text` as a row of decimal digits whose value fits in 16 bits.
fn parse_digits(text: &str) -> (number: Option<u16>)
    ensures
        number == (if is_digits(text@) && digits_value(text@) <= u16::MAX {
            Some(digits_value(text@) as u16)
        } else {
            None
        }),
{
    if text.is_empty() {
        return None;
    }
    let mut value: u32 = 0;
    assert(text@.take(0) =~= Seq::<char>::empty());
    for c in it: text.chars()
        invariant
            it.seq() == text@,
            value <= u16::MAX,
            value == digits_value(text@.take(it.index())),
            forall|j: int| 0 <= j < it.index() ==> '0' <= #[trigger] text@[j] <= '9',
    {
        let ghost i = it.index();
        assert(c == text@[i]);
        if c < '0' || c > '9' {
            return None;
        }
        proof {
            assert(text@.take(i + 1).drop_last() =~= text@.take(i));
            assert(text@.take(i + 1).last() == c);
        }
        value = 10 * value + (c as u32 - '0' as u32);
        if value > u16::MAX as u32 {
            proof {
                if is_digits(text@) {
                    lemma_digits_value_grows(text@, i + 1);
                }
            }
            return None;
        }
    }
    assert(text@.take(text@.len() as int) =~= text@);
    Some(value as u16)
}

/// Reads `text` as a number of 16 bits: decimal digits, which a plus sign may precede.
pub fn parse_u16(text: &str) -> (number: Option<u16>)
    ensures
        number == u16_value(text@),
{
    if !text.is_empty() && text.get_char(0) == '+' {
        let digits = text.substring_char(1, text.unicode_len());
        assert(digits@ =~= text@.skip(1));
        parse_digits(digits)
    } else {
        parse_digits(text)
    }
}

/// What follows `prefix` in `text`, where `text` starts with it.
pub open spec fn stripped(text: Seq<char>, prefix: Seq<char>) -> Option<Seq<char>> {
    if prefix.is_prefix_of(text) {
        Some(text.skip(prefix.len() as int))
    } else {
        None
    }
}

/// Takes `prefix` off the front of `text`.
pub fn strip_prefix<'a>(text: &'a str, prefix: &str) -> (rest: Option<&'a str>)
    ensures
        rest.deep_view() == stripped(text@, prefix@),
{
    let text_len: usize = text.unicode_len();
    let prefix_len: usize = prefix.unicode_len();
    if text_len < prefix_len {
        return None;
    }
    let front = text.substring_char(0, prefix_len);
    if front.to_owned() == prefix.to_owned() {
        assert(prefix@ =~= text@.subrange(0, prefix@.len() as int));
        let rest = text.substring_char(prefix_len, text_len);
        assert(rest@ =~= text@.skip(prefix@.len() as int));
        Some(rest)
    } else {
        None
    }
}

/// The two parts of `text` around the first occurrence of `separator`.
pub open spec fn split_at_first(text: Seq<char>, separator: char) -> Option<(Seq<char>, Seq<char>)> {
    match text.index_of_first(separator) {
        Some(i) => Some((text.take(i), text.skip(i + 1))),
        None => None,
    }
}

/// Splits `text` at the first occurrence of `separator`.
pub fn split_once<'a>(text: &'a str, separator: char) -> (parts: Option<(&'a str, &'a str)>)
    ensures
        parts.deep_view() == split_at_first(text@, separator),
{
    let len: usize = text.unicode_len();
    let mut i: usize = 0;
    for c in it: text.chars()
        invariant
            it.seq() == text@,
            len == text@.len(),
            i == it.index(),
            i <= len,
            forall|j: int| 0 <= j < i ==> text@[j] != separator,
    {
        if c == separator {
            proof {
                text@.index_of_first_ensures(separator);
                assert(text@[i as int] == separator);
            }
            let before = text.substring_char(0, i);
            let after = text.substring_char(i + 1, len);
            assert(before@ =~= text@.take(i as int));
            assert(after@ =~= text@.skip(i + 1));
            return Some((before, after));
        }
        i = i + 1;
    }
    proof {
        text@.index_of_first_ensures(separator);
    }
    None
}

/// Decimal notation is made of decimal digits, and they stand for the number again.
pub proof fn decimal_is_read_back(n: nat)
    ensures
        is_digits(decimal(n)),
        digits_value(decimal(n)) == n,
    decreases n,
{
    let text = decimal(n);
    if n < 10 {
        assert(text.drop_last() =~= Seq::<char>::empty());
        assert(digits_value(text.drop_last()) == 0);
    } else {
        decimal_is_read_back(n / 10);
        assert(text.drop_last() =~= decimal(n / 10));
    }
}

/// Every number of 16 bits is read back from its decimal notation.
pub proof fn u16_is_read_back(n: u16)
    ensures
        u16_value(decimal(n as nat)) == Some(n),
{
    decimal_is_read_back(n as nat);
    let text = decimal(n as nat);
    assert('0' <= text[0] <= '9');
}

/// Decimal notation starts with a zero only where it is the notation of zero.
pub proof fn decimal_has_no_leading_zero(n: nat)
    ensures
        decimal(n).len() > 0,
        decimal(n)[0] == '0' ==> n == 0 && decimal(n).len() == 1,
    decreases n,
{
    if n >= 10 {
        decimal_has_no_leading_zero(n / 10);
        assert(decimal(n)[0] == decimal(n / 10)[0]);
    }
}

/// A number with a sign is written as its size, behind a minus sign exactly where it is negative.
pub proof fn signed_decimal_is_a_sign_and_a_size(i: int)
    ensures
        i >= 0 ==> is_digits(signed_decimal(i)) && digits_value(signed_decimal(i)) == i,
        i < 0 ==> {
            &&& signed_decimal(i)[0] == '-'
            &&& is_digits(signed_decimal(i).skip(1))
            &&& digits_value(signed_decimal(i).skip(1)) == -i
            &&& signed_decimal(i)[1] != '0'
        },
        i > 0 ==> signed_decimal(i)[0] != '0',
        i == 0 ==> signed_decimal(i) == seq!['0'],
{
    let size = (if i < 0 { -i } else { i }) as nat;
    decimal_is_read_back(size);
    decimal_has_no_leading_zero(size);
    if i < 0 {
        assert(signed_decimal(i).skip(1) =~= decimal(size));
        assert(signed_decimal(i)[1] == decimal(size)[0]);
    }
    if i == 0 {
        assert(signed_decimal(i) =~= seq!['0']);
    }
}

/// A row of `count` zeros.
pub open spec fn zeros(count: nat) -> Seq<char> {
    Seq::new(count, |i: int| '0')
}

proof fn lemma_leading_zero(text: Seq<char>)
    requires
        is_digits(text),
    ensures
        is_digits(seq!['0'] + text),
        digits_value(seq!['0'] + text) == digits_value(text),
    decreases text.len(),
{
    let longer = seq!['0'] + text;
    assert forall|i: int| 0 <= i < longer.len() implies '0' <= #[trigger] longer[i] <= '9' by {
        if i > 0 {
            assert(longer[i] == text[i - 1]);
        }
    }
    if text.len() == 1 {
        assert(text.drop_last() =~= Seq::<char>::empty());
        assert(longer.drop_last() =~= seq!['0']);
        assert(seq!['0'].drop_last() =~= Seq::<char>::empty());
        reveal_with_fuel(digits_value, 3);
    } else {
        let shorter = text.drop_last();
        assert forall|i: int| 0 <= i < shorter.len() implies '0' <= #[trigger] shorter[i] <= '9' by {
            assert(shorter[i] == text[i]);
        }
        lemma_leading_zero(shorter);
        assert(longer.drop_last() =~= seq!['0'] + shorter);
    }
}

proof fn lemma_zeros_and_decimal(count: nat, n: nat)
    ensures
        is_digits(zeros(count) + decimal(n)),
        digits_value(zeros(count) + decimal(n)) == n,
    decreases count,
{
    if count == 0 {
        decimal_is_read_back(n);
        assert(zeros(count) + decimal(n) =~= decimal(n));
    } else {
        let rest = zeros((count - 1) as nat) + decimal(n);
        lemma_zeros_and_decimal((count - 1) as nat, n);
        lemma_leading_zero(rest);
        assert(zeros(count) + decimal(n) =~= seq!['0'] + rest);
    }
}

proof fn lemma_digits_without_leading_zero(text: Seq<char>)
    requires
        is_digits(text),
        text.len() == 1 || text[0] != '0',
    ensures
        decimal(digits_value(text)) == text,
    decreases text.len(),
{
    let shorter = text.drop_last();
    assert('0' <= text[text.len() - 1] <= '9');
    if text.len() == 1 {
        assert(shorter =~= Seq::<char>::empty());
        reveal_with_fuel(digits_value, 2);
        assert(decimal(digits_value(text)) =~= text);
    } else {
        assert forall|i: int| 0 <= i < shorter.len() implies '0' <= #[trigger] shorter[i] <= '9' by {
            assert(shorter[i] == text[i]);
        }
        lemma_digits_without_leading_zero(shorter);
        let v = digits_value(shorter);
        assert(v != 0) by {
            if v == 0 {
                assert(decimal(0)[0] == '0');
            }
        }
        let n = digits_value(text);
        let d = text.last() as u32 - '0' as u32;
        assert(n == 10 * v + d);
        assert(n / 10 == v && n % 10 == d);
        assert(decimal(n) =~= text);
    }
}

proof fn lemma_digits_are_zeros_and_decimal(text: Seq<char>) -> (count: nat)
    requires
        is_digits(text),
    ensures
        text == zeros(count) + decimal(digits_value(text)),
    decreases text.len(),
{
    if text.len() == 1 || text[0] != '0' {
        lemma_digits_without_leading_zero(text);
        assert(text =~= zeros(0) + decimal(digits_value(text)));
        0
    } else {
        let rest = text.drop_first();
        assert forall|i: int| 0 <= i < rest.len() implies '0' <= #[trigger] rest[i] <= '9' by {
            assert(rest[i] == text[i + 1]);
        }
        let count = lemma_digits_are_zeros_and_decimal(rest);
        lemma_leading_zero(rest);
        assert(text =~= seq!['0'] + rest);
        assert(text =~= zeros(count + 1) + decimal(digits_value(text)));
        count + 1
    }
}

/// A text is read as a number of 16 bits exactly where it is the decimal notation of that number,
/// which any number of zeros, and in front of them one plus sign, may precede.
pub proof fn what_is_read_as_a_u16(text: Seq<char>, n: u16)
    ensures
        u16_value(text) == Some(n) <==> exists|count: nat|
            {
                ||| text == #[trigger] zeros(count) + decimal(n as nat)
                ||| text == seq!['+'] + (zeros(count) + decimal(n as nat))
            },
{
    let plus = text.len() > 0 && text[0] == '+';
    let digits = if plus {
        text.skip(1)
    } else {
        text
    };
    if u16_value(text) == Some(n) {
        let count = lemma_digits_are_zeros_and_decimal(digits);
        if plus {
            assert(text =~= seq!['+'] + digits);
        }
        assert(digits == zeros(count) + decimal(n as nat));
    }
    assert forall|count: nat|
        {
            ||| text == #[trigger] zeros(count) + decimal(n as nat)
            ||| text == seq!['+'] + (zeros(count) + decimal(n as nat))
        } implies u16_value(text) == Some(n) by {
        let row = zeros(count) + decimal(n as nat);
        lemma_zeros_and_decimal(count, n as nat);
        assert('0' <= row[0] <= '9');
        if text == row {
            assert(!plus);
        } else {
            assert(text.skip(1) =~= row);
        }
    }
}

/// A prefix is taken off exactly where the text is that prefix and what is left.
pub proof fn prefix_and_rest_make_the_text(text: Seq<char>, prefix: Seq<char>, rest: Seq<char>)
    ensures
        stripped(text, prefix) == Some(rest) <==> text == prefix + rest,
{
    if text == prefix + rest {
        assert(text.subrange(0, prefix.len() as int) =~= prefix);
        assert(text.skip(prefix.len() as int) =~= rest);
    }
    if stripped(text, prefix) == Some(rest) {
        assert(text =~= text.subrange(0, prefix.len() as int) + text.skip(prefix.len() as int));
    }
}

/// A text is split into two parts exactly where it is made of them and a separator between them,
/// and the first part holds no separator.
pub proof fn parts_and_separator_make_the_text(
    text: Seq<char>,
    separator: char,
    before: Seq<char>,
    after: Seq<char>,
)
    ensures
        split_at_first(text, separator) == Some((before, after)) <==> {
            &&& text == before + seq![separator] + after
            &&& !before.contains(separator)
        },
{
    text.index_of_first_ensures(separator);
    if text == before + seq![separator] + after && !before.contains(separator) {
        let k = before.len() as int;
        assert(text[k] == separator);
        assert(text.contains(separator));
        let i = text.index_of_first(separator)->0;
        assert(i <= k);
        if i < k {
            assert(before[i] == text[i]);
            assert(before.contains(separator));
        }
        assert(text.take(k) =~= before);
        assert(text.skip(k + 1) =~= after);
    }
    if split_at_first(text, separator) == Some((before, after)) {
        let i = text.index_of_first(separator)->0;
        assert(text =~= before + seq![separator] + after);
        assert forall|j: int| 0 <= j < before.len() implies before[j] != separator by {
            assert(before[j] == text[j]);
        }
    }
}

} // verus!
