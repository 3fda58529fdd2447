//! Text helpers over `Seq<char>`: conversion between strings and character
//! vectors, whitespace trimming and prefix tests.

use vstd::prelude::*;

verus! {

/// The characters that carry the Unicode `White_Space` property.
pub open spec fn is_white_space(c: char) -> bool {
    let n = c as u32;
    ||| 0x09 <= n <= 0x0D
    ||| n == 0x20
    ||| n == 0x85
    ||| n == 0xA0
    ||| n == 0x1680
    ||| 0x2000 <= n <= 0x200A
    ||| n == 0x2028
    ||| n == 0x2029
    ||| n == 0x202F
    ||| n == 0x205F
    ||| n == 0x3000
}

/// `s` without its leading white space.
pub open spec fn trim_start(s: Seq<char>) -> Seq<char>
    decreases s.len(),
{
    if s.len() > 0 && is_white_space(s[0]) {
        trim_start(s.drop_first())
    } else {
        s
    }
}

/// `s` without its trailing white space.
pub open spec fn trim_end(s: Seq<char>) -> Seq<char>
    decreases s.len(),
{
    if s.len() > 0 && is_white_space(s.last()) {
        trim_end(s.drop_last())
    } else {
        s
    }
}

/// `s` without leading and trailing white space.
pub open spec fn trim(s: Seq<char>) -> Seq<char> {
    trim_end(trim_start(s))
}

/// The texts of a sequence of strings.
pub open spec fn texts_of(strings: Seq<String>) -> Seq<Seq<char>> {
    Seq::new(strings.len(), |i: int| strings[i]@)
}

/// `s` begins with `prefix`.
pub open spec fn starts_with(s: Seq<char>, prefix: Seq<char>) -> bool {
    prefix.len() <= s.len() && s.subrange(0, prefix.len() as int) == prefix
}

/// Appends one character to a string, by `String::push`: the string's text
/// afterwards is its text before followed by `c`.
#[verifier::external_body]
fn push_char(s: &mut String, c: char)
    ensures
        final(s)@ == old(s)@.push(c),
{
    s.push(c)
}

/// Tells whether `c` is white space.
pub fn char_is_white_space(c: char) -> (r: bool)
    ensures
        r == is_white_space(c),
{
    let n: u32 = c as u32;
    (0x09 <= n && n <= 0x0D) || n == 0x20 || n == 0x85 || n == 0xA0 || n == 0x1680 || (0x2000
        <= n && n <= 0x200A) || n == 0x2028 || n == 0x2029 || n == 0x202F || n == 0x205F || n
        == 0x3000
}

/// The characters of `s`, in order.
pub fn chars_of(s: &str) -> (r: Vec<char>)
    ensures
        r@ == s@,
{
    let mut out: Vec<char> = Vec::new();
    for c in it: s.chars()
        invariant
            out@ == it.seq().take(it.index() as int),
            it.seq() == s@,
    {
        out.push(c);
    }
    out
}

/// The string whose characters are `chars[from..to]`.
pub fn string_of_range(chars: &Vec<char>, from: usize, to: usize) -> (r: String)
    requires
        from <= to <= chars@.len(),
    ensures
        r@ == chars@.subrange(from as int, to as int),
{
    let mut out = String::new();
    let mut i: usize = from;
    while i < to
        invariant
            from <= i <= to <= chars@.len(),
            out@ == chars@.subrange(from as int, i as int),
        decreases to - i,
    {
        push_char(&mut out, chars[i]);
        i += 1;
    }
    out
}

/// The string whose characters are `chars`.
pub fn string_of(chars: &Vec<char>) -> (r: String)
    ensures
        r@ == chars@,
{
    let r = string_of_range(chars, 0, chars.len());
    assert(chars@.subrange(0, chars@.len() as int) == chars@);
    r
}

/// Tells whether two strings hold the same text.
pub fn str_eq(a: &str, b: &str) -> (r: bool)
    ensures
        r == (a@ == b@),
{
    let x = chars_of(a);
    let y = chars_of(b);
    chars_eq(&x, &y)
}

/// Tells whether two character vectors hold the same text.
pub fn chars_eq(a: &Vec<char>, b: &Vec<char>) -> (r: bool)
    ensures
        r == (a@ == b@),
{
    if a.len() != b.len() {
        return false;
    }
    let mut i: usize = 0;
    while i < a.len()
        invariant
            i <= a@.len(),
            a@.len() == b@.len(),
            a@.subrange(0, i as int) == b@.subrange(0, i as int),
        decreases a@.len() - i,
    {
        if a[i] != b[i] {
            return false;
        }
        assert(a@.subrange(0, i + 1) == a@.subrange(0, i as int).push(a@[i as int]));
        assert(b@.subrange(0, i + 1) == b@.subrange(0, i as int).push(b@[i as int]));
        i += 1;
    }
    assert(a@.subrange(0, a@.len() as int) == a@);
    assert(b@.subrange(0, b@.len() as int) == b@);
    true
}

/// `trim_start` removes exactly the leading white space: it returns the
/// suffix of `s` from its first character that is not white space.
pub proof fn lemma_trim_start_skip(s: Seq<char>, k: int)
    requires
        0 <= k <= s.len(),
        forall|i: int| 0 <= i < k ==> is_white_space(#[trigger] s[i]),
        k < s.len() ==> !is_white_space(s[k]),
    ensures
        trim_start(s) == s.skip(k),
    decreases k,
{
    if k == 0 {
        assert(s.skip(0) == s);
    } else {
        let t = s.drop_first();
        assert forall|i: int| 0 <= i < k - 1 implies is_white_space(#[trigger] t[i]) by {
            assert(t[i] == s[i + 1]);
        }
        lemma_trim_start_skip(t, k - 1);
        assert(t.skip(k - 1) == s.skip(k));
    }
}

/// `trim_end` removes exactly the trailing white space: it returns the
/// prefix of `s` up to its last character that is not white space.
pub proof fn lemma_trim_end_take(s: Seq<char>, k: int)
    requires
        0 <= k <= s.len(),
        forall|i: int| k <= i < s.len() ==> is_white_space(#[trigger] s[i]),
        0 < k ==> !is_white_space(s[k - 1]),
    ensures
        trim_end(s) == s.take(k),
    decreases s.len() - k,
{
    if k == s.len() {
        assert(s.take(k) == s);
    } else {
        let t = s.drop_last();
        lemma_trim_end_take(t, k);
        assert(t.take(k) == s.take(k));
    }
}

/// The bounds of the trimmed part of `chars[from..to]`.
pub fn trim_bounds(chars: &Vec<char>, from: usize, to: usize) -> (r: (usize, usize))
    requires
        from <= to <= chars@.len(),
    ensures
        from <= r.0 <= r.1 <= to,
        chars@.subrange(r.0 as int, r.1 as int) == trim(chars@.subrange(from as int, to as int)),
{
    let ghost s = chars@.subrange(from as int, to as int);
    let mut start: usize = from;
    while start < to && char_is_white_space(chars[start])
        invariant
            from <= start <= to <= chars@.len(),
            forall|i: int| from <= i < start ==> is_white_space(#[trigger] chars@[i]),
        decreases to - start,
    {
        start += 1;
    }
    let mut end: usize = to;
    while end > start && char_is_white_space(chars[end - 1])
        invariant
            from <= start <= end <= to <= chars@.len(),
            forall|i: int| end <= i < to ==> is_white_space(#[trigger] chars@[i]),
        decreases end - start,
    {
        end -= 1;
    }
    proof {
        assert forall|i: int| 0 <= i < start - from implies is_white_space(#[trigger] s[i]) by {
            assert(s[i] == chars@[from + i]);
        }
        lemma_trim_start_skip(s, start - from);
        let t = s.skip(start - from);
        assert(t == chars@.subrange(start as int, to as int));
        assert forall|i: int| end - start <= i < t.len() implies is_white_space(
            #[trigger] t[i],
        ) by {
            assert(t[i] == chars@[start + i]);
        }
        lemma_trim_end_take(t, end - start);
        assert(t.take(end - start) == chars@.subrange(start as int, end as int));
    }
    (start, end)
}

/// Tells whether `chars[from..to]` begins with `prefix`.
pub fn range_starts_with(chars: &Vec<char>, from: usize, to: usize, prefix: &Vec<char>) -> (r:
    bool)
    requires
        from <= to <= chars@.len(),
    ensures
        r == starts_with(chars@.subrange(from as int, to as int), prefix@),
{
    let ghost s = chars@.subrange(from as int, to as int);
    if prefix.len() > to - from {
        return false;
    }
    let mut i: usize = 0;
    while i < prefix.len()
        invariant
            i <= prefix@.len() <= to - from,
            from <= to <= chars@.len(),
            s == chars@.subrange(from as int, to as int),
            s.subrange(0, i as int) == prefix@.subrange(0, i as int),
        decreases prefix@.len() - i,
    {
        if chars[from + i] != prefix[i] {
            proof {
                if s.subrange(0, prefix@.len() as int) == prefix@ {
                    assert(s.subrange(0, prefix@.len() as int)[i as int] == prefix@[i as int]);
                }
            }
            return false;
        }
        assert(s.subrange(0, i + 1) == s.subrange(0, i as int).push(s[i as int]));
        assert(prefix@.subrange(0, i + 1) == prefix@.subrange(0, i as int).push(
            prefix@[i as int],
        ));
        i += 1;
    }
    assert(prefix@.subrange(0, prefix@.len() as int) == prefix@);
    true
}

/// `text` with every occurrence of `from` replaced by `to`, read from
/// the left; occurrences do not overlap. An empty `from` occurs nowhere.
pub open spec fn substituted(text: Seq<char>, from: Seq<char>, to: Seq<char>) -> Seq<char>
    decreases text.len(),
{
    if from.len() == 0 || text.len() == 0 {
        text
    } else if starts_with(text, from) {
        to + substituted(text.skip(from.len() as int), from, to)
    } else {
        seq![text[0]] + substituted(text.drop_first(), from, to)
    }
}

/// Replaces every occurrence of `from` in `text` by `to`.
pub fn substitute(text: &Vec<char>, from: &Vec<char>, to: &Vec<char>) -> (r: Vec<char>)
    ensures
        r@ == substituted(text@, from@, to@),
{
    if from.len() == 0 {
        return text.clone();
    }
    let mut out: Vec<char> = Vec::new();
    let mut i: usize = 0;
    assert(text@.skip(0) == text@);
    assert(Seq::<char>::empty() + substituted(text@, from@, to@) == substituted(
        text@,
        from@,
        to@,
    ));
    while i < text.len()
        invariant
            i <= text@.len(),
            from@.len() > 0,
            substituted(text@, from@, to@) == out@ + substituted(
                text@.skip(i as int),
                from@,
                to@,
            ),
        decreases text@.len() - i,
    {
        let ghost rest = text@.skip(i as int);
        let ghost done = out@;
        assert(rest == text@.subrange(i as int, text@.len() as int));
        if range_starts_with(text, i, text.len(), from) {
            let mut k: usize = 0;
            while k < to.len()
                invariant
                    k <= to@.len(),
                    out@ == done + to@.take(k as int),
                decreases to@.len() - k,
            {
                out.push(to[k]);
                assert(to@.take(k + 1) == to@.take(k as int).push(to@[k as int]));
                k += 1;
            }
            assert(to@.take(to@.len() as int) == to@);
            assert(rest.skip(from@.len() as int) == text@.skip(i + from@.len()));
            assert((done + to@) + substituted(text@.skip(i + from@.len()), from@, to@) == done + (
                to@ + substituted(text@.skip(i + from@.len()), from@, to@)));
            i += from.len();
        } else {
            out.push(text[i]);
            assert(rest.drop_first() == text@.skip(i + 1));
            assert(done.push(text@[i as int]) + substituted(text@.skip(i + 1), from@, to@) == done
                + (seq![rest[0]] + substituted(rest.drop_first(), from@, to@)));
            i += 1;
        }
    }
    assert(out@ + Seq::<char>::empty() == out@);
    out
}

/// Replaces every occurrence of `from` in `text` by `to`.
pub fn substitute_str(text: &str, from: &str, to: &str) -> (r: String)
    ensures
        r@ == substituted(text@, from@, to@),
{
    string_of(&substitute(&chars_of(text), &chars_of(from), &chars_of(to)))
}

/// `text` without its trailing white space.
pub fn trim_end_str(text: &str) -> (r: String)
    ensures
        r@ == trim_end(text@),
{
    let chars = chars_of(text);
    let mut end: usize = chars.len();
    while end > 0 && char_is_white_space(chars[end - 1])
        invariant
            end <= chars@.len(),
            forall|i: int| end <= i < chars@.len() ==> is_white_space(#[trigger] chars@[i]),
        decreases end,
    {
        end -= 1;
    }
    proof {
        lemma_trim_end_take(chars@, end as int);
    }
    string_of_range(&chars, 0, end)
}

/// `text` without leading and trailing white space.
pub fn trim_str(text: &str) -> (r: String)
    ensures
        r@ == trim(text@),
{
    let chars = chars_of(text);
    let (a, b) = trim_bounds(&chars, 0, chars.len());
    assert(chars@.subrange(0, chars@.len() as int) == chars@);
    string_of_range(&chars, a, b)
}

/// What `String::from_utf8_lossy` makes of a sequence of bytes: the text
/// that the bytes encode, with a replacement character for every part that
/// is not UTF-8.
pub uninterp spec fn utf8_lossy(bytes: Seq<u8>) -> Seq<char>;

/// What `str::to_lowercase` makes of a text.
pub uninterp spec fn lowercased(text: Seq<char>) -> Seq<char>;

/// Reads bytes as text with `String::from_utf8_lossy`, which gives the
/// text that the bytes encode where they are UTF-8.
#[verifier::external_body]
pub(crate) fn lossy_text(bytes: &Vec<u8>) -> (r: String)
    ensures
        r@ == utf8_lossy(bytes@),
        vstd::utf8::valid_utf8(bytes@) ==> r@ == vstd::utf8::decode_utf8(bytes@),
{
    String::from_utf8_lossy(bytes).into_owned()
}

/// Reads bytes as text with `String::from_utf8`, which accepts exactly
/// the bytes that are UTF-8 and gives the text that they encode.
#[verifier::external_body]
pub(crate) fn utf8_text(bytes: Vec<u8>) -> (r: Option<String>)
    ensures
        r is Some <==> vstd::utf8::valid_utf8(bytes@),
        r matches Some(text) ==> text@ == vstd::utf8::decode_utf8(bytes@),
{
    String::from_utf8(bytes).ok()
}

/// Writes a text in lower case with `str::to_lowercase`.
#[verifier::external_body]
pub(crate) fn lowercase(text: &str) -> (r: String)
    ensures
        r@ == lowercased(text@),
{
    text.to_lowercase()
}

/// The character with the given code, by `char::from_u32`: every code up
/// to `0x10FFFF` but the surrogates from `0xD800` to `0xDFFF` has one.
#[verifier::external_body]
pub(crate) fn char_of_code(code: u32) -> (r: Option<char>)
    ensures
        r is Some <==> (code < 0xD800 || 0xDFFF < code <= 0x10FFFF),
        r matches Some(c) ==> c as u32 == code,
{
    char::from_u32(code)
}

/// The texts of `parts` from `from` on, with `separator` between them.
pub open spec fn joined_from(parts: Seq<String>, separator: Seq<char>, from: int) -> Seq<char>
    decreases parts.len() - from,
{
    if from < 0 || from >= parts.len() {
        Seq::empty()
    } else if from + 1 == parts.len() {
        parts[from]@
    } else {
        parts[from]@ + separator + joined_from(parts, separator, from + 1)
    }
}

/// The texts of `parts` with `separator` between them.
pub open spec fn joined(parts: Seq<String>, separator: Seq<char>) -> Seq<char> {
    joined_from(parts, separator, 0)
}

/// Joins texts with a separator between them.
pub fn join(parts: &Vec<String>, separator: &str) -> (r: String)
    ensures
        r@ == joined(parts@, separator@),
{
    let mut out = String::new();
    let mut i: usize = 0;
    assert(out@ + joined_from(parts@, separator@, 0) == joined(parts@, separator@));
    while i < parts.len()
        invariant
            i <= parts@.len(),
            joined(parts@, separator@) == out@ + joined_from(parts@, separator@, i as int),
        decreases parts@.len() - i,
    {
        let ghost done = out@;
        vstd::string::StringExecFns::append(&mut out, parts[i].as_str());
        if i + 1 < parts.len() {
            vstd::string::StringExecFns::append(&mut out, separator);
            assert((done + parts@[i as int]@ + separator@) + joined_from(
                parts@,
                separator@,
                i + 1,
            ) == done + (parts@[i as int]@ + separator@ + joined_from(parts@, separator@, i + 1)));
        } else {
            assert(joined_from(parts@, separator@, i + 1) == Seq::<char>::empty());
            assert(done + parts@[i as int]@ + Seq::<char>::empty() == done + parts@[i as int]@);
        }
        i += 1;
    }
    assert(out@ + Seq::<char>::empty() == out@);
    out
}

/// The number of words in `s` from `i` on, where `inside` tells whether
/// the character before `i` belongs to a word. A word is a run of
/// characters that are not white space.
pub open spec fn words_from(s: Seq<char>, i: int, inside: bool) -> nat
    decreases s.len() - i,
{
    if i < 0 || i >= s.len() {
        0
    } else if is_white_space(s[i]) {
        words_from(s, i + 1, false)
    } else if inside {
        words_from(s, i + 1, true)
    } else {
        1 + words_from(s, i + 1, true)
    }
}

/// The number of words in a text.
pub open spec fn word_count(s: Seq<char>) -> nat {
    words_from(s, 0, false)
}

/// Counts the words of a text.
pub fn count_words(text: &str) -> (r: usize)
    ensures
        r == word_count(text@),
{
    let chars = chars_of(text);
    let mut count: usize = 0;
    let mut inside = false;
    let mut i: usize = 0;
    while i < chars.len()
        invariant
            i <= chars@.len(),
            count <= i,
            word_count(chars@) == count + words_from(chars@, i as int, inside),
        decreases chars@.len() - i,
    {
        if char_is_white_space(chars[i]) {
            inside = false;
        } else {
            if !inside {
                count += 1;
            }
            inside = true;
        }
        i += 1;
    }
    count
}

/// The decimal digit for a number below ten.
pub open spec fn digit_char(d: int) -> char {
    ((d + 0x30) as u8) as char
}

/// The decimal text of a number: its digits, without leading zeros.
pub open spec fn decimal_text(n: nat) -> Seq<char>
    decreases n,
{
    if n < 10 {
        seq![digit_char(n as int)]
    } else {
        decimal_text(n / 10).push(digit_char((n % 10) as int))
    }
}

/// Writes a number in decimal.
pub fn to_decimal(n: usize) -> (r: String)
    ensures
        r@ == decimal_text(n as nat),
{
    unsigned_decimal(n as u64)
}

/// The decimal text of a whole number: a minus sign before the digits of
/// a number below zero.
pub open spec fn integer_text(n: int) -> Seq<char> {
    if n < 0 {
        seq!['-'] + decimal_text((-n) as nat)
    } else {
        decimal_text(n as nat)
    }
}

/// Writes a whole number in decimal.
pub fn signed_decimal(n: i64) -> (r: String)
    ensures
        r@ == integer_text(n as int),
{
    if n < 0 {
        let size: u64 = ((-(n + 1)) as u64) + 1;
        let digits = unsigned_decimal(size);
        let mut out = String::new();
        push_char(&mut out, '-');
        vstd::string::StringExecFns::append(&mut out, digits.as_str());
        assert(out@ =~= seq!['-'] + digits@);
        out
    } else {
        unsigned_decimal(n as u64)
    }
}

/// Writes a number in decimal.
pub fn unsigned_decimal(n: u64) -> (r: String)
    ensures
        r@ == decimal_text(n as nat),
{
    let mut digits: Vec<char> = Vec::new();
    let mut rest: u64 = n;
    while rest >= 10
        invariant
            decimal_text(n as nat) == decimal_text(rest as nat) + reversed(digits@),
        decreases rest,
    {
        let d: u8 = (rest % 10) as u8;
        let ghost before = digits@;
        digits.push((d + 0x30) as char);
        assert(reversed(digits@) == seq![digit_char(d as int)] + reversed(before)) by {
            assert(digits@.drop_last() == before);
        }
        assert(decimal_text((rest / 10) as nat).push(digit_char(d as int)) + reversed(before)
            == decimal_text((rest / 10) as nat) + (seq![digit_char(d as int)] + reversed(before)));
        rest = rest / 10;
    }
    let d: u8 = rest as u8;
    let mut out: Vec<char> = Vec::new();
    out.push((d + 0x30) as char);
    let mut k: usize = digits.len();
    assert(digits@.take(k as int) == digits@);
    assert(out@ == seq![digit_char(d as int)]);
    while k > 0
        invariant
            k <= digits@.len(),
            out@ + reversed(digits@.take(k as int)) == seq![digit_char(d as int)] + reversed(
                digits@,
            ),
        decreases k,
    {
        let ghost prefix = digits@.take(k as int);
        assert(prefix.drop_last() == digits@.take(k - 1));
        assert(prefix.last() == digits@[k - 1]);
        assert(out@.push(digits@[k - 1]) + reversed(digits@.take(k - 1)) == out@ + (
            seq![digits@[k - 1]] + reversed(digits@.take(k - 1))));
        out.push(digits[k - 1]);
        k -= 1;
    }
    assert(reversed(digits@.take(0)) == Seq::<char>::empty());
    assert(out@ + Seq::<char>::empty() == out@);
    string_of(&out)
}

/// A text read from its end.
pub open spec fn reversed(s: Seq<char>) -> Seq<char>
    decreases s.len(),
{
    if s.len() == 0 {
        Seq::empty()
    } else {
        seq![s.last()] + reversed(s.drop_last())
    }
}

/// The order of texts: `a` is `b` or comes before it. Texts are compared
/// character by character, by the codes of the characters, and a text
/// comes before the texts that it begins.
pub open spec fn text_le(a: Seq<char>, b: Seq<char>) -> bool
    decreases a.len(),
{
    if a.len() == 0 {
        true
    } else if b.len() == 0 {
        false
    } else if a[0] == b[0] {
        text_le(a.drop_first(), b.drop_first())
    } else {
        (a[0] as u32) < (b[0] as u32)
    }
}

/// Characters with the same code are the same character.
pub proof fn lemma_char_code(c: char, d: char)
    requires
        c as u32 == d as u32,
    ensures
        c == d,
{
    vstd::utf8::char_u32_cast(c, c as u32);
    vstd::utf8::char_u32_cast(d, d as u32);
}

/// Of two texts one is the other or comes before it.
pub proof fn lemma_text_le_total(a: Seq<char>, b: Seq<char>)
    ensures
        text_le(a, b) || text_le(b, a),
    decreases a.len(),
{
    if a.len() > 0 && b.len() > 0 {
        if a[0] == b[0] {
            lemma_text_le_total(a.drop_first(), b.drop_first());
        } else if a[0] as u32 == b[0] as u32 {
            lemma_char_code(a[0], b[0]);
        }
    }
}

/// The order of texts is transitive.
pub proof fn lemma_text_le_transitive(a: Seq<char>, b: Seq<char>, c: Seq<char>)
    requires
        text_le(a, b),
        text_le(b, c),
    ensures
        text_le(a, c),
    decreases a.len(),
{
    if a.len() > 0 && a[0] == b[0] && b[0] == c[0] {
        lemma_text_le_transitive(a.drop_first(), b.drop_first(), c.drop_first());
    }
}

/// Texts of which each is the other or comes before it are the same text.
pub proof fn lemma_text_le_antisymmetric(a: Seq<char>, b: Seq<char>)
    requires
        text_le(a, b),
        text_le(b, a),
    ensures
        a == b,
    decreases a.len(),
{
    if a.len() > 0 {
        lemma_text_le_antisymmetric(a.drop_first(), b.drop_first());
        assert(a =~= seq![a[0]] + a.drop_first());
        assert(b =~= seq![b[0]] + b.drop_first());
    } else {
        assert(a =~= b);
    }
}

/// Tells whether `a` is `b` or comes before it.
pub fn str_le(a: &str, b: &str) -> (r: bool)
    ensures
        r == text_le(a@, b@),
{
    let left = chars_of(a);
    let right = chars_of(b);
    let mut i: usize = 0;
    assert(left@.skip(0) == left@);
    assert(right@.skip(0) == right@);
    while i < left.len()
        invariant
            i <= left@.len(),
            i <= right@.len(),
            left@ == a@,
            right@ == b@,
            text_le(a@, b@) == text_le(left@.skip(i as int), right@.skip(i as int)),
        decreases left@.len() - i,
    {
        let ghost x = left@.skip(i as int);
        let ghost y = right@.skip(i as int);
        if i >= right.len() {
            return false;
        }
        assert(x[0] == left@[i as int] && y[0] == right@[i as int]);
        assert(x.drop_first() == left@.skip(i + 1));
        assert(y.drop_first() == right@.skip(i + 1));
        let c: u32 = left[i] as u32;
        let d: u32 = right[i] as u32;
        if c != d {
            return c < d;
        }
        proof {
            lemma_char_code(left@[i as int], right@[i as int]);
        }
        i += 1;
    }
    true
}

/// The pieces of `text` between separators, from the piece that begins at
/// `start` and has no separator before `at`.
pub open spec fn pieces_from(text: Seq<char>, separator: char, start: int, at: int) -> Seq<
    Seq<char>,
>
    decreases text.len() - at,
{
    if at < start || start < 0 || at >= text.len() {
        seq![text.skip(start)]
    } else if text[at] == separator {
        seq![text.subrange(start, at)] + pieces_from(text, separator, at + 1, at + 1)
    } else {
        pieces_from(text, separator, start, at + 1)
    }
}

/// The pieces of `text` between separators, in their order. A text
/// without a separator is one piece, the empty text too, and a separator
/// at an end of the text has an empty piece beside it.
pub open spec fn pieces_of(text: Seq<char>, separator: char) -> Seq<Seq<char>> {
    pieces_from(text, separator, 0, 0)
}

/// Cuts a text at every separator.
pub fn split_on(text: &str, separator: char) -> (r: Vec<String>)
    ensures
        texts_of(r@) == pieces_of(text@, separator),
{
    let chars = chars_of(text);
    let mut out: Vec<String> = Vec::new();
    let mut start: usize = 0;
    let mut at: usize = 0;
    assert(texts_of(out@) + pieces_from(chars@, separator, 0, 0) =~= pieces_of(text@, separator));
    while at < chars.len()
        invariant
            start <= at <= chars@.len(),
            chars@ == text@,
            pieces_of(text@, separator) == texts_of(out@) + pieces_from(
                chars@,
                separator,
                start as int,
                at as int,
            ),
        decreases chars@.len() - at,
    {
        if chars[at] == separator {
            let ghost before = texts_of(out@);
            let piece = string_of_range(&chars, start, at);
            out.push(piece);
            assert(texts_of(out@) =~= before.push(chars@.subrange(start as int, at as int)));
            assert(before + (seq![chars@.subrange(start as int, at as int)] + pieces_from(
                chars@,
                separator,
                at + 1,
                at + 1,
            )) =~= before.push(chars@.subrange(start as int, at as int)) + pieces_from(
                chars@,
                separator,
                at + 1,
                at + 1,
            ));
            start = at + 1;
        }
        at += 1;
    }
    let ghost before = texts_of(out@);
    let piece = string_of_range(&chars, start, chars.len());
    assert(chars@.subrange(start as int, chars@.len() as int) == chars@.skip(start as int));
    out.push(piece);
    assert(texts_of(out@) =~= before + seq![chars@.skip(start as int)]);
    out
}

/// The bytes that stand for themselves in a percent-encoded text: the
/// letters and digits of ASCII and `-`, `.`, `_` and `~`.
pub open spec fn is_unreserved(b: u8) -> bool {
    ||| 0x30 <= b <= 0x39
    ||| 0x41 <= b <= 0x5A
    ||| 0x61 <= b <= 0x7A
    ||| b == 0x2D
    ||| b == 0x2E
    ||| b == 0x5F
    ||| b == 0x7E
}

/// The hexadecimal digit for a number below sixteen, with capital letters.
pub open spec fn hex_digit(d: int) -> char {
    if d < 10 {
        ((d + 0x30) as u8) as char
    } else {
        ((d - 10 + 0x41) as u8) as char
    }
}

/// Bytes percent-encoded: a byte that is not unreserved is written as `%`
/// and its two hexadecimal digits.
pub open spec fn percent_encoded_bytes(bytes: Seq<u8>) -> Seq<char>
    decreases bytes.len(),
{
    if bytes.len() == 0 {
        Seq::empty()
    } else {
        let head = if is_unreserved(bytes[0]) {
            seq![bytes[0] as char]
        } else {
            seq!['%', hex_digit(bytes[0] as int / 16), hex_digit(bytes[0] as int % 16)]
        };
        head + percent_encoded_bytes(bytes.drop_first())
    }
}

/// A text percent-encoded, byte by byte of its UTF-8 form.
pub open spec fn percent_encoded(text: Seq<char>) -> Seq<char> {
    percent_encoded_bytes(vstd::utf8::encode_utf8(text))
}

/// Percent-encodes a text with `urlencoding::encode`, which encodes every
/// byte of the text except the letters and digits of ASCII and `-`, `.`,
/// `_` and `~`, each as `%` and two hexadecimal digits in capitals.
#[verifier::external_body]
pub(crate) fn percent_encode(text: &str) -> (r: String)
    ensures
        r@ == percent_encoded(text@),
{
    urlencoding::encode(text).into_owned()
}

} // verus!
