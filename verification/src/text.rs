//! Text primitives: comparison, search, trimming and decimal notation over the
//! characters of a string.
use vstd::prelude::*;

verus! {

/// The texts of some strings.
pub open spec fn texts(strings: Seq<String>) -> Seq<Seq<char>> {
    strings.map_values(|string: String| string@)
}

/// `String::push` appends one character to the end of the string.
pub assume_specification[ String::push ](string: &mut String, ch: char)
    ensures
        final(string)@ == old(string)@.push(ch),
;

/// Whether a character has Unicode's property `White_Space`.
pub open spec fn char_is_whitespace(ch: char) -> bool {
    ||| '\u{9}' <= ch <= '\u{D}'
    ||| ch == '\u{20}'
    ||| ch == '\u{85}'
    ||| ch == '\u{A0}'
    ||| ch == '\u{1680}'
    ||| '\u{2000}' <= ch <= '\u{200A}'
    ||| ch == '\u{2028}'
    ||| ch == '\u{2029}'
    ||| ch == '\u{202F}'
    ||| ch == '\u{205F}'
    ||| ch == '\u{3000}'
}

/// Calls `char::is_whitespace`, which answers whether the character has Unicode's property
/// `White_Space`.
#[verifier::external_body]
pub(crate) fn is_whitespace(ch: char) -> (yes: bool)
    ensures
        yes == char_is_whitespace(ch),
{
    ch.is_whitespace()
}

/// What `str::to_lowercase` returns: the Unicode lowercase of a string.
pub uninterp spec fn unicode_lowercase(text: Seq<char>) -> Seq<char>;

/// Calls `str::to_lowercase`; the answer is a function of the text.
#[verifier::external_body]
pub(crate) fn to_lowercase(text: &str) -> (lower: String)
    ensures
        lower@ == unicode_lowercase(text@),
{
    text.to_lowercase()
}

/// `needle` occurs in `text` at position `at`.
pub open spec fn occurs_at(text: Seq<char>, needle: Seq<char>, at: int) -> bool {
    &&& 0 <= at
    &&& at + needle.len() <= text.len()
    &&& text.subrange(at, at + needle.len()) == needle
}

/// `needle` occurs somewhere in `text`.
pub open spec fn contains_text(text: Seq<char>, needle: Seq<char>) -> bool {
    exists|at: int| occurs_at(text, needle, at)
}

/// `text` without its leading white space.
pub open spec fn trimmed_start(text: Seq<char>) -> Seq<char>
    decreases text.len(),
{
    if text.len() > 0 && char_is_whitespace(text.first()) {
        trimmed_start(text.drop_first())
    } else {
        text
    }
}

/// `text` without its trailing white space.
pub open spec fn trimmed_end(text: Seq<char>) -> Seq<char>
    decreases text.len(),
{
    if text.len() > 0 && char_is_whitespace(text.last()) {
        trimmed_end(text.drop_last())
    } else {
        text
    }
}

/// `text` without white space at either end.
pub open spec fn trimmed(text: Seq<char>) -> Seq<char> {
    trimmed_end(trimmed_start(text))
}

/// The decimal digit `d`, for `d` below ten.
pub open spec fn digit_char(d: nat) -> char {
    (48 + d) as char
}

/// `n` in decimal notation, without leading zeros.
pub open spec fn decimal(n: nat) -> Seq<char>
    decreases n,
{
    if n < 10 {
        seq![digit_char(n)]
    } else {
        decimal(n / 10).push(digit_char(n % 10))
    }
}

/// `ch` is an ASCII decimal digit.
pub open spec fn is_digit(ch: char) -> bool {
    '0' <= ch && ch <= '9'
}

/// The number that a sequence of decimal digits denotes.
pub open spec fn digits_value(digits: Seq<char>) -> nat
    decreases digits.len(),
{
    if digits.len() == 0 {
        0
    } else {
        10 * digits_value(digits.drop_last()) + (digits.last() as nat - 48) as nat
    }
}

/// `text` is one or more decimal digits.
pub open spec fn all_digits(text: Seq<char>) -> bool {
    text.len() > 0 && forall|i: int| 0 <= i < text.len() ==> is_digit(#[trigger] text[i])
}

/// The digits of an unsigned number as `usize::from_str` accepts it: one leading
/// plus sign is allowed.
pub open spec fn unsigned_digits(text: Seq<char>) -> Seq<char> {
    if text.len() > 0 && text[0] == '+' {
        text.drop_first()
    } else {
        text
    }
}

/// The number that `usize::from_str` reads from `text`, if it reads one.
pub open spec fn parsed_usize(text: Seq<char>) -> Option<usize> {
    let digits = unsigned_digits(text);
    if all_digits(digits) && digits_value(digits) <= usize::MAX {
        Some(digits_value(digits) as usize)
    } else {
        None
    }
}

/// Compares two strings character by character.
pub fn str_eq(a: &str, b: &str) -> (same: bool)
    ensures
        same == (a@ == b@),
{
    let left = a.as_bytes();
    let right = b.as_bytes();
    if left.len() != right.len() {
        return false;
    }
    let mut i: usize = 0;
    while i < left.len()
        invariant
            left@ == vstd::utf8::encode_utf8(a@),
            right@ == vstd::utf8::encode_utf8(b@),
            left@.len() == right@.len(),
            i <= left@.len(),
            forall|j: int| 0 <= j < i ==> left@[j] == right@[j],
        decreases left@.len() - i,
    {
        if left[i] != right[i] {
            return false;
        }
        i = i + 1;
    }
    proof {
        assert(vstd::utf8::encode_utf8(a@) == vstd::utf8::encode_utf8(b@));
        vstd::utf8::encode_utf8_decode_utf8(a@);
        vstd::utf8::encode_utf8_decode_utf8(b@);
    }
    true
}

/// The characters of `text`, in order.
pub fn chars_of(text: &str) -> (chars: Vec<char>)
    ensures
        chars@ == text@,
{
    let mut chars: Vec<char> = Vec::new();
    for c in it: text.chars()
        invariant
            it.seq() == text@,
            chars@ == text@.subrange(0, it.index() as int),
    {
        chars.push(c);
    }
    chars
}

/// The string made of `chars[from..to]`.
pub fn string_of(chars: &Vec<char>, from: usize, to: usize) -> (text: String)
    requires
        from <= to <= chars@.len(),
    ensures
        text@ == chars@.subrange(from as int, to as int),
{
    let mut text = String::new();
    let mut i: usize = from;
    while i < to
        invariant
            from <= i <= to <= chars@.len(),
            text@ == chars@.subrange(from as int, i as int),
        decreases to - i,
    {
        text.push(chars[i]);
        i = i + 1;
    }
    text
}

/// Whether `needle` occurs in `chars` at position `at`.
fn matches_at(chars: &Vec<char>, needle: &Vec<char>, at: usize) -> (yes: bool)
    requires
        at <= chars@.len(),
    ensures
        yes == occurs_at(chars@, needle@, at as int),
{
    let total: usize = chars.len();
    if total - at < needle.len() {
        return false;
    }
    let mut i: usize = 0;
    while i < needle.len()
        invariant
            at + needle@.len() <= total,
            total == chars@.len(),
            i <= needle@.len(),
            forall|j: int| 0 <= j < i ==> chars@[at + j] == needle@[j],
        decreases needle@.len() - i,
    {
        if chars[at + i] != needle[i] {
            assert(chars@.subrange(at as int, at + needle@.len())[i as int] != needle@[i as int]);
            return false;
        }
        i = i + 1;
    }
    assert(chars@.subrange(at as int, at + needle@.len()) =~= needle@);
    true
}

/// Whether `needle` occurs in `text`.
pub fn contains(text: &str, needle: &str) -> (yes: bool)
    ensures
        yes == contains_text(text@, needle@),
{
    let chars = chars_of(text);
    let wanted = chars_of(needle);
    let mut at: usize = 0;
    while at < chars.len()
        invariant
            chars@ == text@,
            wanted@ == needle@,
            at <= chars@.len(),
            forall|j: int| 0 <= j < at ==> !occurs_at(text@, needle@, j),
        decreases chars@.len() - at,
    {
        if matches_at(&chars, &wanted, at) {
            return true;
        }
        at = at + 1;
    }
    let last = matches_at(&chars, &wanted, at);
    assert(forall|j: int| occurs_at(text@, needle@, j) ==> j <= text@.len());
    last
}

proof fn lemma_trimmed_start_skip(text: Seq<char>, n: int)
    requires
        0 <= n <= text.len(),
        forall|i: int| 0 <= i < n ==> char_is_whitespace(#[trigger] text[i]),
    ensures
        trimmed_start(text) == trimmed_start(text.subrange(n, text.len() as int)),
    decreases n,
{
    if n == 0 {
        assert(text.subrange(0, text.len() as int) =~= text);
    } else {
        let rest = text.drop_first();
        assert forall|i: int| 0 <= i < n - 1 implies char_is_whitespace(#[trigger] rest[i]) by {
            assert(rest[i] == text[i + 1]);
        }
        lemma_trimmed_start_skip(rest, n - 1);
        assert(rest.subrange(n - 1, rest.len() as int) =~= text.subrange(n, text.len() as int));
    }
}

/// The position after the leading white space of `chars`.
fn leading_space(chars: &Vec<char>) -> (n: usize)
    ensures
        n <= chars@.len(),
        trimmed_start(chars@) == chars@.subrange(n as int, chars@.len() as int),
{
    let mut n: usize = 0;
    while n < chars.len()
        invariant
            n <= chars@.len(),
            forall|i: int| 0 <= i < n ==> char_is_whitespace(#[trigger] chars@[i]),
        decreases chars@.len() - n,
    {
        if !is_whitespace(chars[n]) {
            proof {
                lemma_trimmed_start_skip(chars@, n as int);
                let rest = chars@.subrange(n as int, chars@.len() as int);
                assert(rest.first() == chars@[n as int]);
            }
            return n;
        }
        n = n + 1;
    }
    proof {
        lemma_trimmed_start_skip(chars@, n as int);
    }
    n
}

/// `text` without its leading white space.
pub fn trim_start(text: &str) -> (out: String)
    ensures
        out@ == trimmed_start(text@),
{
    let chars = chars_of(text);
    let from = leading_space(&chars);
    string_of(&chars, from, chars.len())
}

/// `text` without white space at either end.
pub fn trim(text: &str) -> (out: String)
    ensures
        out@ == trimmed(text@),
{
    let chars = chars_of(text);
    let from = leading_space(&chars);
    let mut to: usize = chars.len();
    proof {
        assert(chars@.subrange(from as int, to as int) == trimmed_start(text@));
    }
    while to > from
        invariant
            from <= to <= chars@.len(),
            trimmed_end(chars@.subrange(from as int, to as int)) == trimmed(text@),
        decreases to,
    {
        let ghost part = chars@.subrange(from as int, to as int);
        proof {
            assert(part.last() == chars@[to - 1]);
            assert(part.drop_last() =~= chars@.subrange(from as int, to - 1));
        }
        if !is_whitespace(chars[to - 1]) {
            return string_of(&chars, from, to);
        }
        to = to - 1;
    }
    proof {
        assert(chars@.subrange(from as int, to as int).len() == 0);
    }
    string_of(&chars, from, to)
}

/// `n` in decimal notation.
pub fn decimal_string(n: u64) -> (out: String)
    ensures
        out@ == decimal(n as nat),
    decreases n,
{
    if n < 10 {
        let mut out = String::new();
        let d: u8 = n as u8;
        out.push((48u8 + d) as char);
        assert(out@ =~= seq![digit_char(n as nat)]);
        out
    } else {
        let mut out = decimal_string(n / 10);
        let d: u8 = (n % 10) as u8;
        out.push((48u8 + d) as char);
        out
    }
}

/// Reads an unsigned number as `usize::from_str` does.
pub fn parse_usize(text: &str) -> (n: Option<usize>)
    ensures
        n == parsed_usize(text@),
{
    let chars = chars_of(text);
    let from: usize = if chars.len() > 0 && chars[0] == '+' { 1 } else { 0 };
    let ghost digits = unsigned_digits(text@);
    assert(digits =~= chars@.subrange(from as int, chars@.len() as int));
    if from == chars.len() {
        return None;
    }
    let mut value: usize = 0;
    let mut i: usize = from;
    let mut fits = true;
    assert(digits.subrange(0, 0).len() == 0);
    while i < chars.len()
        invariant
            from <= i <= chars@.len(),
            digits == chars@.subrange(from as int, chars@.len() as int),
            digits == unsigned_digits(text@),
            digits.len() > 0,
            forall|j: int| 0 <= j < i - from ==> is_digit(#[trigger] digits[j]),
            fits ==> value == digits_value(digits.subrange(0, i - from)),
            !fits ==> digits_value(digits.subrange(0, i - from)) > usize::MAX,
        decreases chars@.len() - i,
    {
        let c = chars[i];
        assert(digits[i - from] == c);
        if c < '0' || c > '9' {
            assert(!is_digit(digits[i - from]));
            return None;
        }
        let d: usize = (c as u32 - 48) as usize;
        proof {
            let longer = digits.subrange(0, i - from + 1);
            assert(longer.drop_last() =~= digits.subrange(0, i - from));
            assert(longer.last() == c);
            assert(digits_value(longer) == 10 * digits_value(longer.drop_last()) + d);
        }
        if fits {
            if value > usize::MAX / 10 {
                fits = false;
            } else if 10 * value > usize::MAX - d {
                fits = false;
            } else {
                value = 10 * value + d;
            }
        }
        i = i + 1;
    }
    assert(digits.subrange(0, i - from) =~= digits);
    if fits {
        Some(value)
    } else {
        None
    }
}

proof fn lemma_decimal_is_digits(n: nat)
    ensures
        all_digits(decimal(n)),
        digits_value(decimal(n)) == n,
    decreases n,
{
    if n < 10 {
        let d = decimal(n);
        assert(d.drop_last().len() == 0);
        assert(d.last() == digit_char(n));
        assert(digits_value(d.drop_last()) == 0);
    } else {
        lemma_decimal_is_digits(n / 10);
        let d = decimal(n);
        assert(d.drop_last() =~= decimal(n / 10));
        assert(d.last() == digit_char(n % 10));
        assert forall|i: int| 0 <= i < d.len() implies is_digit(#[trigger] d[i]) by {
            if i < d.len() - 1 {
                assert(d[i] == decimal(n / 10)[i]);
            }
        }
    }
}

/// Reading back a number that was written in decimal gives that number.
pub proof fn law_decimal_reads_back(n: usize)
    ensures
        parsed_usize(decimal(n as nat)) == Some(n),
{
    lemma_decimal_is_digits(n as nat);
    let d = decimal(n as nat);
    assert(is_digit(d[0]));
    assert(d[0] != '+');
}

/// Different numbers have different decimal notations.
pub proof fn law_decimal_is_injective(a: nat, b: nat)
    requires
        decimal(a) == decimal(b),
    ensures
        a == b,
{
    lemma_decimal_is_digits(a);
    lemma_decimal_is_digits(b);
}

/// A list of strings is read as the list of their texts, one for one.
pub proof fn law_texts_are_read_one_for_one(strings: Seq<String>, i: int)
    requires
        0 <= i < strings.len(),
    ensures
        texts(strings).len() == strings.len(),
        texts(strings)[i] == strings[i]@,
{
}

/// A text contains another exactly where the other stands somewhere between two rests.
pub proof fn law_contained_texts_stand_in_the_text(
    text: Seq<char>,
    needle: Seq<char>,
    before: Seq<char>,
    behind: Seq<char>,
)
    ensures
        contains_text(before + needle + behind, needle),
        contains_text(text, needle) ==> exists|a: Seq<char>, b: Seq<char>|
            text == #[trigger] (a + needle + b),
{
    let whole = before + needle + behind;
    assert(whole.subrange(before.len() as int, before.len() as int + needle.len()) =~= needle);
    assert(occurs_at(whole, needle, before.len() as int));
    if contains_text(text, needle) {
        let at = choose|at: int| occurs_at(text, needle, at);
        let a = text.subrange(0, at);
        let b = text.subrange(at + needle.len(), text.len() as int);
        assert(text =~= a + needle + b) by {
            assert forall|i: int| 0 <= i < text.len() implies text[i] == (a + needle + b)[i] by {
                if at <= i < at + needle.len() {
                    assert(needle[i - at] == text.subrange(at, at + needle.len())[i - at]);
                }
            }
        }
    }
}

/// Trimming takes the white space off the start and nothing else: what is left is the end of
/// the text, starts with no white space, and only white space stood before it.
pub proof fn law_trimming_the_start_takes_only_white_space(text: Seq<char>)
    ensures
        ({
            let left = trimmed_start(text);
            let cut = text.len() - left.len();
            &&& 0 <= cut
            &&& left == text.subrange(cut, text.len() as int)
            &&& forall|i: int| 0 <= i < cut ==> char_is_whitespace(#[trigger] text[i])
            &&& left.len() > 0 ==> !char_is_whitespace(left[0])
        }),
    decreases text.len(),
{
    if text.len() > 0 && char_is_whitespace(text.first()) {
        let rest = text.drop_first();
        law_trimming_the_start_takes_only_white_space(rest);
        let left = trimmed_start(text);
        let cut = text.len() - left.len();
        assert(left =~= text.subrange(cut, text.len() as int));
        assert forall|i: int| 0 <= i < cut implies char_is_whitespace(#[trigger] text[i]) by {
            if i > 0 {
                assert(rest[i - 1] == text[i]);
            }
        }
    } else {
        assert(text =~= text.subrange(0, text.len() as int));
    }
}

/// Trimming takes the white space off the end and nothing else: what is left is the start of
/// the text, ends with no white space, and only white space stood behind it.
pub proof fn law_trimming_the_end_takes_only_white_space(text: Seq<char>)
    ensures
        ({
            let left = trimmed_end(text);
            &&& left.len() <= text.len()
            &&& left == text.subrange(0, left.len() as int)
            &&& forall|i: int|
                left.len() <= i < text.len() ==> char_is_whitespace(#[trigger] text[i])
            &&& left.len() > 0 ==> !char_is_whitespace(left[left.len() - 1])
        }),
    decreases text.len(),
{
    if text.len() > 0 && char_is_whitespace(text.last()) {
        let rest = text.drop_last();
        law_trimming_the_end_takes_only_white_space(rest);
        let left = trimmed_end(text);
        assert(left =~= text.subrange(0, left.len() as int));
        assert forall|i: int| left.len() <= i < text.len() implies char_is_whitespace(
            #[trigger] text[i],
        ) by {
            if i < rest.len() {
                assert(rest[i] == text[i]);
            }
        }
    } else {
        assert(text =~= text.subrange(0, text.len() as int));
    }
}

/// A trimmed text has white space at neither end, and stands in the text.
pub proof fn law_trimmed_texts_have_no_white_space_around_them(text: Seq<char>)
    ensures
        trimmed(text).len() > 0 ==> !char_is_whitespace(trimmed(text)[0]) && !char_is_whitespace(
            trimmed(text)[trimmed(text).len() - 1],
        ),
        contains_text(text, trimmed(text)),
        (forall|i: int| 0 <= i < text.len() ==> char_is_whitespace(#[trigger] text[i])) <==> trimmed(
            text,
        ).len() == 0,
{
    let start = trimmed_start(text);
    let left = trimmed(text);
    law_trimming_the_start_takes_only_white_space(text);
    law_trimming_the_end_takes_only_white_space(start);
    let cut = text.len() - start.len();
    assert(text.subrange(cut, cut + left.len()) =~= left);
    assert(occurs_at(text, left, cut));
    if forall|i: int| 0 <= i < text.len() ==> char_is_whitespace(#[trigger] text[i]) {
        if start.len() > 0 {
            assert(start[0] == text[cut]);
        }
    }
    if left.len() == 0 {
        if start.len() > 0 {
            assert(char_is_whitespace(start[0]));
        }
    }
}

/// A number is written in its decimal digits, the last one behind those of the rest.
pub proof fn law_numbers_are_written_digit_by_digit(n: nat, d: nat)
    requires
        d < 10,
    ensures
        decimal(d) == seq![(48 + d) as char],
        n > 0 ==> decimal(10 * n + d) == decimal(n).push((48 + d) as char),
        digit_char(0) == '0',
        digit_char(9) == '9',
{
    assert((10 * n + d) / 10 == n && (10 * n + d) % 10 == d) by (nonlinear_arith)
        requires
            d < 10,
    ;
}

/// Digits are read with the last one as the ones: one more digit makes it ten times the rest
/// and itself.
pub proof fn law_digits_are_read_in_tens(digits: Seq<char>, digit: char)
    requires
        '0' <= digit <= '9',
    ensures
        digits_value(Seq::empty()) == 0,
        digits_value(digits.push(digit)) == 10 * digits_value(digits) + (digit as int - '0' as int),
{
    assert(digits.push(digit).drop_last() =~= digits);
}

/// A text is a number exactly where it holds digits alone, at least one, and the number is
/// not too large; a plus sign before them changes nothing.
pub proof fn law_numbers_are_read_from_digits(digits: Seq<char>)
    requires
        digits.len() > 0 ==> digits[0] != '+',
    ensures
        parsed_usize(digits) is Some <==> digits.len() > 0 && (forall|i: int|
            0 <= i < digits.len() ==> '0' <= #[trigger] digits[i] && digits[i] <= '9')
            && digits_value(digits) <= usize::MAX,
        parsed_usize(digits) matches Some(n) ==> n == digits_value(digits),
        parsed_usize(seq!['+'] + digits) == parsed_usize(digits),
{
    let signed = seq!['+'] + digits;
    assert(signed.drop_first() =~= digits);
    assert(unsigned_digits(digits) == digits);
    if all_digits(digits) {
        assert forall|i: int| 0 <= i < digits.len() implies '0' <= #[trigger] digits[i]
            && digits[i] <= '9' by {
            assert(is_digit(digits[i]));
        }
    }
}

} // verus!
