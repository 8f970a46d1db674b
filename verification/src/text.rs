//! Text helpers shared by the other modules: comparison of string slices,
//! prefix tests, decimal rendering and concatenation.

use vstd::prelude::*;
use vstd::string::*;
use vstd::utf8::*;

verus! {

/// `true` when the two slices hold the same characters.
pub fn str_eq(a: &str, b: &str) -> (same: bool)
    ensures
        same == (a@ == b@),
{
    let x = a.as_bytes();
    let y = b.as_bytes();
    proof {
        encode_utf8_decode_utf8(a@);
        encode_utf8_decode_utf8(b@);
    }
    if x.len() != y.len() {
        return false;
    }
    let n: usize = x.len();
    let mut i: usize = 0;
    while i < n
        invariant
            i <= n,
            n == x@.len(),
            n == y@.len(),
            forall|k: int| 0 <= k < i ==> x@[k] == y@[k],
            x@ == a.spec_bytes(),
            y@ == b.spec_bytes(),
            decode_utf8(encode_utf8(a@)) == a@,
            decode_utf8(encode_utf8(b@)) == b@,
        decreases n - i,
    {
        if x[i] != y[i] {
            return false;
        }
        i += 1;
    }
    assert(x@ =~= y@);
    true
}

/// `true` when `text` begins with the characters of `prefix`.
pub fn starts_with(text: &str, prefix: &str) -> (found: bool)
    ensures
        found == prefix@.is_prefix_of(text@),
{
    let length = prefix.unicode_len();
    let total = text.unicode_len();
    if length > total {
        return false;
    }
    let mut i: usize = 0;
    while i < length
        invariant
            i <= length <= total,
            length == prefix@.len(),
            total == text@.len(),
            forall|k: int| 0 <= k < i ==> text@[k] == prefix@[k],
        decreases length - i,
    {
        if text.get_char(i) != prefix.get_char(i) {
            assert(text@.subrange(0, length as int)[i as int] != prefix@[i as int]);
            return false;
        }
        i += 1;
    }
    assert(text@.subrange(0, length as int) =~= prefix@);
    true
}

/// The character that writes the decimal digit `d`.
pub open spec fn digit_char(d: int) -> char {
    if d == 0 {
        '0'
    } else if d == 1 {
        '1'
    } else if d == 2 {
        '2'
    } else if d == 3 {
        '3'
    } else if d == 4 {
        '4'
    } else if d == 5 {
        '5'
    } else if d == 6 {
        '6'
    } else if d == 7 {
        '7'
    } else if d == 8 {
        '8'
    } else {
        '9'
    }
}

/// The decimal numeral of `n`, without sign or leading zeros.
pub open spec fn decimal(n: nat) -> Seq<char>
    decreases n,
{
    if n < 10 {
        seq![digit_char(n as int)]
    } else {
        decimal(n / 10).push(digit_char((n % 10) as int))
    }
}

/// The decimal numeral of `i`, with a leading `-` when it is negative.
pub open spec fn signed_decimal(i: int) -> Seq<char> {
    if i < 0 {
        seq!['-'] + decimal((-i) as nat)
    } else {
        decimal(i as nat)
    }
}

/// The decimal numeral of `n`, padded with a zero to two places.
pub open spec fn two_digits(n: nat) -> Seq<char> {
    if n < 10 {
        seq!['0'] + decimal(n)
    } else {
        decimal(n)
    }
}

/// The numeral of a decimal digit.
fn digit_text(d: u64) -> (s: &'static str)
    requires
        d < 10,
    ensures
        s@ == seq![digit_char(d as int)],
{
    proof {
        reveal_strlit("0");
        reveal_strlit("1");
        reveal_strlit("2");
        reveal_strlit("3");
        reveal_strlit("4");
        reveal_strlit("5");
        reveal_strlit("6");
        reveal_strlit("7");
        reveal_strlit("8");
        reveal_strlit("9");
    }
    let s = if d == 0 {
        "0"
    } else if d == 1 {
        "1"
    } else if d == 2 {
        "2"
    } else if d == 3 {
        "3"
    } else if d == 4 {
        "4"
    } else if d == 5 {
        "5"
    } else if d == 6 {
        "6"
    } else if d == 7 {
        "7"
    } else if d == 8 {
        "8"
    } else {
        "9"
    };
    assert(s@ =~= seq![digit_char(d as int)]);
    s
}

/// Renders an unsigned number in decimal.
pub fn u64_to_string(n: u64) -> (s: String)
    ensures
        s@ == decimal(n as nat),
    decreases n,
{
    if n < 10 {
        String::from_str(digit_text(n))
    } else {
        let head = u64_to_string(n / 10);
        let numeral = head.concat(digit_text(n % 10));
        assert(numeral@ =~= decimal((n / 10) as nat).push(digit_char((n % 10) as int)));
        numeral
    }
}

/// Renders a signed number in decimal.
pub fn i64_to_string(n: i64) -> (s: String)
    ensures
        s@ == signed_decimal(n as int),
{
    if n < 0 {
        let size: u64 = if n == i64::MIN {
            9223372036854775808u64
        } else {
            (0 - n) as u64
        };
        proof {
            reveal_strlit("-");
            assert("-"@ =~= seq!['-']);
        }
        String::from_str("-").concat(u64_to_string(size).as_str())
    } else {
        u64_to_string(n as u64)
    }
}

/// Renders `n` in decimal with at least two digits.
pub fn two_digit_string(n: u64) -> (s: String)
    ensures
        s@ == two_digits(n as nat),
{
    if n < 10 {
        let zero = String::from_str("0");
        proof {
            reveal_strlit("0");
            assert("0"@ =~= seq!['0']);
        }
        let digits = u64_to_string(n);
        zero.concat(digits.as_str())
    } else {
        u64_to_string(n)
    }
}

/// A text of the one character `c`.
///
/// Trusted: states that `char`'s `Display`, reached through `to_string`,
/// writes the character itself.
#[verifier::external_body]
pub(crate) fn char_to_string(c: char) -> (s: String)
    ensures
        s@ == seq![c],
{
    c.to_string()
}

/// The text made of `count` copies of `unit`.
pub open spec fn repeated(unit: Seq<char>, count: nat) -> Seq<char>
    decreases count,
{
    if count == 0 {
        Seq::empty()
    } else {
        repeated(unit, (count - 1) as nat) + unit
    }
}

/// `count` spaces.
pub fn spaces(count: usize) -> (text: String)
    ensures
        text@ == repeated(" "@, count as nat),
{
    let mut text = String::new();
    let mut i: usize = 0;
    while i < count
        invariant
            i <= count,
            text@ == repeated(" "@, i as nat),
        decreases count - i,
    {
        text = text.concat(" ");
        i += 1;
    }
    text
}

/// Is the character white space, as Unicode's `White_Space` property has
/// it?
pub open spec fn is_whitespace(c: char) -> bool {
    let code = c as u32;
    (0x09 <= code <= 0x0d) || code == 0x20 || code == 0x85 || code == 0xa0 || code == 0x1680 || (
    0x2000 <= code <= 0x200a) || code == 0x2028 || code == 0x2029 || code == 0x202f || code
        == 0x205f || code == 0x3000
}

/// Is the character white space?
pub fn char_is_whitespace(c: char) -> (yes: bool)
    ensures
        yes == is_whitespace(c),
{
    let code: u32 = c as u32;
    (0x09 <= code && code <= 0x0d) || code == 0x20 || code == 0x85 || code == 0xa0 || code
        == 0x1680 || (0x2000 <= code && code <= 0x200a) || code == 0x2028 || code == 0x2029
        || code == 0x202f || code == 0x205f || code == 0x3000
}

/// The place of the first character at or after `from` that is no white
/// space, or the length of the text.
pub open spec fn first_black_from(text: Seq<char>, from: int) -> int
    decreases text.len() - from,
{
    if from < 0 || from >= text.len() {
        text.len() as int
    } else if !is_whitespace(text[from]) {
        from
    } else {
        first_black_from(text, from + 1)
    }
}

/// The place after the last character before `end` that is no white
/// space, or 0.
pub open spec fn last_black_before(text: Seq<char>, end: int) -> int
    decreases end,
{
    if end <= 0 || end > text.len() {
        0
    } else if !is_whitespace(text[end - 1]) {
        end
    } else {
        last_black_before(text, end - 1)
    }
}

/// The text without the white space at its start.
pub open spec fn trimmed_start(text: Seq<char>) -> Seq<char> {
    text.subrange(first_black_from(text, 0), text.len() as int)
}

/// The text without the white space at its start and at its end.
pub open spec fn trimmed(text: Seq<char>) -> Seq<char> {
    let start = first_black_from(text, 0);
    let end = last_black_before(text, text.len() as int);
    if start < end {
        text.subrange(start, end)
    } else {
        Seq::empty()
    }
}

/// The first black character is found within the text.
pub proof fn lemma_first_black_in_range(text: Seq<char>, from: int)
    requires
        0 <= from <= text.len(),
    ensures
        from <= first_black_from(text, from) <= text.len(),
        first_black_from(text, from) < text.len() ==> !is_whitespace(
            text[first_black_from(text, from)],
        ),
    decreases text.len() - from,
{
    if from < text.len() && is_whitespace(text[from]) {
        lemma_first_black_in_range(text, from + 1);
    }
}

fn first_black(text: &str, length: usize) -> (at: usize)
    requires
        length == text@.len(),
    ensures
        at == first_black_from(text@, 0),
        at <= length,
{
    let mut i: usize = 0;
    while i < length
        invariant
            i <= length,
            length == text@.len(),
            first_black_from(text@, 0) == first_black_from(text@, i as int),
        decreases length - i,
    {
        if !char_is_whitespace(text.get_char(i)) {
            return i;
        }
        i += 1;
    }
    length
}

fn last_black(text: &str, length: usize) -> (end: usize)
    requires
        length == text@.len(),
    ensures
        end == last_black_before(text@, length as int),
        end <= length,
{
    let mut i: usize = length;
    while i > 0
        invariant
            i <= length,
            length == text@.len(),
            last_black_before(text@, length as int) == last_black_before(text@, i as int),
        decreases i,
    {
        if !char_is_whitespace(text.get_char(i - 1)) {
            return i;
        }
        i -= 1;
    }
    0
}

/// The text without the white space at its start.
pub fn trim_start(text: &str) -> (rest: &str)
    ensures
        rest@ == trimmed_start(text@),
{
    let length = text.unicode_len();
    let start = first_black(text, length);
    text.substring_char(start, length)
}

/// The text without the white space at its start and at its end.
pub fn trim(text: &str) -> (rest: &str)
    ensures
        rest@ == trimmed(text@),
{
    let length = text.unicode_len();
    let start = first_black(text, length);
    let end = last_black(text, length);
    if start < end {
        text.substring_char(start, end)
    } else {
        let rest = text.substring_char(0, 0);
        assert(rest@ =~= Seq::<char>::empty());
        rest
    }
}

/// The place of the first white space at or after `from`, or the length
/// of the text.
pub open spec fn first_white_from(text: Seq<char>, from: int) -> int
    decreases text.len() - from,
{
    if from < 0 || from >= text.len() {
        text.len() as int
    } else if is_whitespace(text[from]) {
        from
    } else {
        first_white_from(text, from + 1)
    }
}

/// The words of the text from `from` on: the maximal runs of characters
/// that are no white space, in order.
pub open spec fn words_from(text: Seq<char>, from: int) -> Seq<Seq<char>>
    decreases text.len() - from,
    when 0 <= from
    via words_from_decreases
{
    let start = first_black_from(text, from);
    if from >= text.len() || start >= text.len() {
        Seq::empty()
    } else {
        let end = first_white_from(text, start);
        seq![text.subrange(start, end)] + words_from(text, end)
    }
}

#[via_fn]
proof fn words_from_decreases(text: Seq<char>, from: int) {
    let start = first_black_from(text, from);
    if !(from >= text.len() || start >= text.len()) {
        lemma_first_black_in_range(text, from);
        lemma_first_white_after(text, start);
    }
}

/// The white space that ends a word lies after the word's start.
pub proof fn lemma_first_white_after(text: Seq<char>, from: int)
    requires
        0 <= from < text.len(),
        !is_whitespace(text[from]),
    ensures
        from < first_white_from(text, from) <= text.len(),
{
    lemma_first_white_in_range(text, from + 1);
}

/// The first white space is found within the text.
pub proof fn lemma_first_white_in_range(text: Seq<char>, from: int)
    requires
        0 <= from <= text.len(),
    ensures
        from <= first_white_from(text, from) <= text.len(),
    decreases text.len() - from,
{
    if from < text.len() && !is_whitespace(text[from]) {
        lemma_first_white_in_range(text, from + 1);
    }
}

/// The words of the text: the maximal runs of characters that are no
/// white space, in order.
pub open spec fn words(text: Seq<char>) -> Seq<Seq<char>> {
    words_from(text, 0)
}

/// Splits a text into its words.
pub fn split_whitespace(text: &str) -> (parts: Vec<String>)
    ensures
        parts.deep_view() == words(text@),
{
    let length = text.unicode_len();
    let mut parts: Vec<String> = Vec::new();
    let mut from: usize = 0;
    assert(parts.deep_view() + words_from(text@, 0) =~= words(text@));
    while from < length
        invariant
            from <= length,
            length == text@.len(),
            parts.deep_view() + words_from(text@, from as int) == words(text@),
        decreases length - from,
    {
        // Skip the white space before the next word.
        let mut start: usize = from;
        while start < length && char_is_whitespace(text.get_char(start))
            invariant
                from <= start <= length,
                length == text@.len(),
                first_black_from(text@, from as int) == first_black_from(text@, start as int),
            decreases length - start,
        {
            start += 1;
        }
        if start >= length {
            assert(words_from(text@, from as int) =~= Seq::<Seq<char>>::empty());
            assert(words_from(text@, length as int) =~= Seq::<Seq<char>>::empty());
            from = length;
        } else {
            assert(first_black_from(text@, from as int) == start);
            let mut end: usize = start;
            while end < length && !char_is_whitespace(text.get_char(end))
                invariant
                    start <= end <= length,
                    length == text@.len(),
                    first_white_from(text@, start as int) == first_white_from(text@, end as int),
                decreases length - end,
            {
                end += 1;
            }
            proof {
                lemma_first_white_after(text@, start as int);
            }
            let word = text.substring_char(start, end).to_owned();
            let ghost so_far = parts.deep_view();
            parts.push(word);
            assert(parts.deep_view() =~= so_far.push(word@));
            assert(words_from(text@, from as int) =~= seq![word@] + words_from(text@, end as int));
            assert(parts.deep_view() + words_from(text@, end as int) =~= so_far + words_from(
                text@,
                from as int,
            ));
            from = end;
        }
    }
    assert(words_from(text@, from as int) =~= Seq::<Seq<char>>::empty());
    assert(parts.deep_view() + Seq::<Seq<char>>::empty() =~= parts.deep_view());
    parts
}

/// The texts joined with one space between each two.
pub open spec fn joined(parts: Seq<Seq<char>>) -> Seq<char>
    decreases parts.len(),
{
    if parts.len() == 0 {
        Seq::empty()
    } else if parts.len() == 1 {
        parts[0]
    } else {
        joined(parts.drop_last()) + " "@ + parts.last()
    }
}

/// The texts from `from` on; none when there are no more than `from`.
pub open spec fn rest_from(parts: Seq<Seq<char>>, from: int) -> Seq<Seq<char>> {
    if 0 <= from <= parts.len() {
        parts.subrange(from, parts.len() as int)
    } else {
        Seq::empty()
    }
}

/// Joins the texts from `from` on with one space between each two.
pub fn join_from(parts: &Vec<String>, from: usize) -> (text: String)
    ensures
        text@ == joined(rest_from(parts.deep_view(), from as int)),
{
    let mut text = String::new();
    if from > parts.len() {
        return text;
    }
    let mut i: usize = from;
    assert(parts.deep_view().subrange(from as int, from as int) =~= Seq::<Seq<char>>::empty());
    while i < parts.len()
        invariant
            from <= i <= parts.len(),
            text@ == joined(parts.deep_view().subrange(from as int, i as int)),
        decreases parts.len() - i,
    {
        proof {
            let upto = parts.deep_view().subrange(from as int, i + 1);
            assert(upto.drop_last() =~= parts.deep_view().subrange(from as int, i as int));
            assert(upto.last() == parts[i as int]@);
            if i == from {
                assert(upto.len() == 1);
                assert(upto[0] == parts[i as int]@);
            }
        }
        if i > from {
            text = text.concat(" ");
        }
        text = text.concat(parts[i].as_str());
        proof {
            if i == from {
                assert(text@ =~= parts[i as int]@);
            }
        }
        i += 1;
    }
    text
}

/// The text in lower case.
pub uninterp spec fn lowercased(text: Seq<char>) -> Seq<char>;

/// Puts a text in lower case.
///
/// Trusted: names the result of `str::to_lowercase`, which maps each
/// character by Unicode's lower-case rules and depends on nothing but the
/// text.
#[verifier::external_body]
pub(crate) fn to_lowercase(text: &str) -> (lower: String)
    ensures
        lower@ == lowercased(text@),
{
    text.to_lowercase()
}

/// Does `pattern` stand in `text` at the place `at`?
pub open spec fn occurs_at(pattern: Seq<char>, text: Seq<char>, at: int) -> bool {
    0 <= at && at + pattern.len() <= text.len() && text.subrange(at, at + pattern.len()) == pattern
}

/// Does `pattern` stand somewhere in `text`?
pub open spec fn occurs_in(pattern: Seq<char>, text: Seq<char>) -> bool {
    exists|at: int| occurs_at(pattern, text, at)
}

fn stands_at(text: &str, pattern: &str, at: usize, length: usize, total: usize) -> (yes: bool)
    requires
        length == pattern@.len(),
        total == text@.len(),
        at + length <= total,
    ensures
        yes == occurs_at(pattern@, text@, at as int),
{
    let mut j: usize = 0;
    while j < length
        invariant
            j <= length,
            length == pattern@.len(),
            total == text@.len(),
            at + length <= total,
            forall|k: int| 0 <= k < j ==> text@[at + k] == pattern@[k],
        decreases length - j,
    {
        if text.get_char(at + j) != pattern.get_char(j) {
            assert(text@.subrange(at as int, at + length)[j as int] != pattern@[j as int]);
            return false;
        }
        j += 1;
    }
    assert(text@.subrange(at as int, at + length) =~= pattern@);
    true
}

/// Does `pattern` stand somewhere in `text`?
pub fn contains(text: &str, pattern: &str) -> (yes: bool)
    ensures
        yes == occurs_in(pattern@, text@),
{
    let length = pattern.unicode_len();
    let total = text.unicode_len();
    if length > total {
        return false;
    }
    let last: usize = total - length;
    let mut at: usize = 0;
    while at < last
        invariant
            at <= last,
            last == total - length,
            length == pattern@.len(),
            total == text@.len(),
            forall|k: int| 0 <= k < at ==> !occurs_at(pattern@, text@, k),
        decreases last - at,
    {
        if stands_at(text, pattern, at, length, total) {
            return true;
        }
        at += 1;
    }
    stands_at(text, pattern, last, length, total)
}

/// Does `a` come before `b`, or are the two equal, from the place `from`
/// on, in the order of their bytes? Where one ends first, it comes first.
pub open spec fn bytes_le_from(a: Seq<u8>, b: Seq<u8>, from: int) -> bool
    decreases a.len() - from,
{
    if from < 0 || from >= a.len() {
        true
    } else if from >= b.len() {
        false
    } else if a[from] < b[from] {
        true
    } else if a[from] > b[from] {
        false
    } else {
        bytes_le_from(a, b, from + 1)
    }
}

/// Does the text `a` come before the text `b`, or are the two equal, in
/// the order of strings, which is the order of their UTF-8 bytes?
pub open spec fn text_le(a: Seq<char>, b: Seq<char>) -> bool {
    bytes_le_from(encode_utf8(a), encode_utf8(b), 0)
}

/// Of two texts one comes before the other, or they are equal.
pub proof fn lemma_bytes_le_total(a: Seq<u8>, b: Seq<u8>, from: int)
    requires
        0 <= from,
    ensures
        bytes_le_from(a, b, from) || bytes_le_from(b, a, from),
    decreases a.len() - from,
{
    if from < a.len() && from < b.len() && a[from] == b[from] {
        lemma_bytes_le_total(a, b, from + 1);
    }
}

/// Does `a` come before `b`, or are the two equal, in the order of
/// strings?
pub fn str_le(a: &str, b: &str) -> (yes: bool)
    ensures
        yes == text_le(a@, b@),
{
    let x = a.as_bytes();
    let y = b.as_bytes();
    let mut i: usize = 0;
    while i < x.len()
        invariant
            i <= x.len(),
            x@ == encode_utf8(a@),
            y@ == encode_utf8(b@),
            bytes_le_from(x@, y@, 0) == bytes_le_from(x@, y@, i as int),
        decreases x.len() - i,
    {
        if i >= y.len() {
            return false;
        }
        if x[i] < y[i] {
            return true;
        }
        if x[i] > y[i] {
            return false;
        }
        i += 1;
    }
    true
}

/// The place at or after `from` where `text` goes into the ordered
/// `texts`: before the first text that comes after it.
pub open spec fn insert_place(texts: Seq<Seq<char>>, text: Seq<char>, from: int) -> int
    decreases texts.len() - from,
{
    if from < 0 || from >= texts.len() {
        texts.len() as int
    } else if !text_le(texts[from], text) {
        from
    } else {
        insert_place(texts, text, from + 1)
    }
}

/// The texts in ascending order: each goes, in turn, into the order of
/// those before it.
pub open spec fn sorted_texts(texts: Seq<Seq<char>>) -> Seq<Seq<char>>
    decreases texts.len(),
{
    if texts.len() == 0 {
        Seq::empty()
    } else {
        let sorted = sorted_texts(texts.drop_last());
        sorted.insert(insert_place(sorted, texts.last(), 0), texts.last())
    }
}

/// Each text comes before the next, or equals it.
pub open spec fn ascending(texts: Seq<Seq<char>>) -> bool {
    forall|i: int| 0 <= i < texts.len() - 1 ==> text_le(#[trigger] texts[i], texts[i + 1])
}

/// The place where a text goes lies within the texts; every text before
/// it, from `from` on, comes before the text or equals it, and the text
/// at the place comes after it.
pub proof fn lemma_insert_place(texts: Seq<Seq<char>>, text: Seq<char>, from: int)
    requires
        0 <= from <= texts.len(),
    ensures
        from <= insert_place(texts, text, from) <= texts.len(),
        forall|k: int|
            from <= k < insert_place(texts, text, from) ==> text_le(#[trigger] texts[k], text),
        insert_place(texts, text, from) < texts.len() ==> !text_le(
            texts[insert_place(texts, text, from)],
            text,
        ),
    decreases texts.len() - from,
{
    if from < texts.len() && text_le(texts[from], text) {
        lemma_insert_place(texts, text, from + 1);
    }
}

/// Sorting gives the same texts, each as often as before, in ascending
/// order.
pub proof fn law_sorted_texts(texts: Seq<Seq<char>>)
    ensures
        sorted_texts(texts).len() == texts.len(),
        ascending(sorted_texts(texts)),
        sorted_texts(texts).to_multiset() == texts.to_multiset(),
    decreases texts.len(),
{
    broadcast use vstd::seq_lib::group_to_multiset_ensures;

    if texts.len() == 0 {
        assert(texts =~= Seq::<Seq<char>>::empty());
    } else {
        let rest = texts.drop_last();
        let last = texts.last();
        law_sorted_texts(rest);
        let sorted = sorted_texts(rest);
        let place = insert_place(sorted, last, 0);
        lemma_insert_place(sorted, last, 0);
        let after = sorted.insert(place, last);
        assert forall|i: int| 0 <= i < after.len() - 1 implies text_le(
            #[trigger] after[i],
            after[i + 1],
        ) by {
            if i + 1 < place {
                assert(text_le(sorted[i], sorted[i + 1]));
            } else if i + 1 == place {
                assert(text_le(sorted[i], last));
            } else if i == place {
                lemma_bytes_le_total(encode_utf8(sorted[place]), encode_utf8(last), 0);
            } else {
                assert(text_le(sorted[i - 1], sorted[i]));
            }
        }
        // The same texts: the rest's, and the last.
        let head = sorted.subrange(0, place);
        let tail = sorted.subrange(place, sorted.len() as int);
        assert(sorted =~= head + tail);
        assert(after =~= head.push(last) + tail);
        vstd::seq_lib::lemma_multiset_commutative(head, tail);
        vstd::seq_lib::lemma_multiset_commutative(head.push(last), tail);
        assert(texts =~= rest.push(last));
        assert(after.to_multiset() =~= texts.to_multiset());
    }
}

/// Puts texts in ascending order.
pub fn sort_texts(texts: &Vec<String>) -> (sorted: Vec<String>)
    ensures
        sorted.deep_view() == sorted_texts(texts.deep_view()),
{
    let mut sorted: Vec<String> = Vec::new();
    let mut i: usize = 0;
    assert(texts.deep_view().take(0) =~= Seq::<Seq<char>>::empty());
    assert(sorted.deep_view() =~= Seq::<Seq<char>>::empty());
    while i < texts.len()
        invariant
            i <= texts.len(),
            sorted.len() == i,
            sorted.deep_view() == sorted_texts(texts.deep_view().take(i as int)),
        decreases texts.len() - i,
    {
        proof {
            let upto = texts.deep_view().take(i + 1);
            assert(upto.drop_last() =~= texts.deep_view().take(i as int));
            assert(upto.last() == texts[i as int]@);
        }
        let text = texts[i].clone();
        let mut place: usize = 0;
        while place < sorted.len() && str_le(sorted[place].as_str(), text.as_str())
            invariant
                place <= sorted.len(),
                insert_place(sorted.deep_view(), text@, 0) == insert_place(
                    sorted.deep_view(),
                    text@,
                    place as int,
                ),
            decreases sorted.len() - place,
        {
            place += 1;
        }
        let ghost before = sorted.deep_view();
        sorted.insert(place, text);
        assert(sorted.deep_view() =~= before.insert(place as int, text@));
        i += 1;
    }
    assert(texts.deep_view().take(texts.len() as int) =~= texts.deep_view());
    sorted
}

} // verus!
