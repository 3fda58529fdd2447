//! Gmail messages: their shape, and how readable text is got out of them.

use crate::members::text_of;
use crate::pattern::{
    before_match, regex_cut, regex_cut_of, remove_match, truncate_at_match, without_match,
    RegexCut, RegexCutView,
};
use crate::text::{
    char_is_white_space, char_of_code, chars_of, is_white_space, lemma_trim_start_skip,
    lossy_text, lowercase, lowercased, str_eq, string_of, substitute_str, substituted, trim_end,
    texts_of, trim_end_str, trim_start, utf8_lossy, utf8_text,
};
use base64::Engine;
use vstd::prelude::*;
use vstd::string::StringExecFns;

verus! {

/// The ids of a message, as a listing gives them.
#[derive(Clone, Debug)]
pub struct MessageResponse {
    pub id: String,
    pub thread_id: String,
}

/// One page of a listing of messages.
#[derive(Debug)]
pub struct ListMessagesResponse {
    pub messages: Option<Vec<MessageResponse>>,
    pub next_page_token: Option<String>,
}

/// A thread with its messages.
#[derive(Clone, Debug)]
pub struct Thread {
    pub id: String,
    pub messages: Vec<Message>,
}

/// A message of a thread.
#[derive(Clone, Debug)]
pub struct Message {
    pub id: String,
    pub thread_id: String,
    pub snippet: Option<String>,
    pub payload: Option<MessagePayload>,
    pub label_ids: Option<Vec<String>>,
    pub internal_date: String,
}

/// The body of a message or of one of its parts. The data is base64 text.
#[derive(Clone, Debug)]
pub struct MessagePartBody {
    pub attachment_id: Option<String>,
    pub size: u64,
    pub data: Option<String>,
}

/// One part of a message of several parts.
#[derive(Clone, Debug)]
pub struct MessagePart {
    pub part_id: String,
    pub mimetype: String,
    pub body: Option<MessagePartBody>,
}

/// The content of a message: its headers and its body or parts.
#[derive(Clone, Debug)]
pub struct MessagePayload {
    pub headers: Option<Vec<MessageHeader>>,
    pub mimetype: String,
    pub body: Option<MessagePartBody>,
    pub parts: Option<Vec<MessagePart>>,
}

/// A header of a message.
#[derive(Clone, Debug)]
pub struct MessageHeader {
    pub name: String,
    pub value: String,
}

/// The value of a hexadecimal digit.
pub open spec fn hex_value(b: u8) -> Option<int> {
    if 0x30 <= b <= 0x39 {
        Some(b - 0x30)
    } else if 0x61 <= b <= 0x66 {
        Some(b - 0x61 + 10)
    } else if 0x41 <= b <= 0x46 {
        Some(b - 0x41 + 10)
    } else {
        None
    }
}

/// The byte that two characters behind `=` stand for: two hexadecimal
/// digits, or a plus sign and one hexadecimal digit.
pub open spec fn escaped_byte(high: u8, low: u8) -> Option<int> {
    match (hex_value(high), hex_value(low)) {
        (Some(h), Some(l)) => Some(16 * h + l),
        (None, Some(l)) => if high == 0x2B {
            Some(l)
        } else {
            None
        },
        _ => None,
    }
}

/// The bytes that quoted-printable bytes stand for, from `i` on. An `=`
/// with at least two bytes behind it begins an escape: before a line feed,
/// or a carriage return and a line feed with a byte behind them, it is a
/// soft line break that stands for nothing; before two characters that name
/// a byte it stands for that byte; otherwise it stands for itself. Every
/// other byte stands for itself.
pub open spec fn quoted_printable_from(bytes: Seq<u8>, i: int) -> Seq<u8>
    decreases bytes.len() - i,
{
    if i < 0 || i >= bytes.len() {
        Seq::empty()
    } else if bytes[i] == 0x3D && i + 2 < bytes.len() {
        if bytes[i + 1] == 0x0A {
            quoted_printable_from(bytes, i + 2)
        } else if bytes[i + 1] == 0x0D && i + 3 < bytes.len() && bytes[i + 2] == 0x0A {
            quoted_printable_from(bytes, i + 3)
        } else {
            match escaped_byte(bytes[i + 1], bytes[i + 2]) {
                Some(v) => seq![v as u8] + quoted_printable_from(bytes, i + 3),
                None => seq![0x3Du8] + quoted_printable_from(bytes, i + 1),
            }
        }
    } else {
        seq![bytes[i]] + quoted_printable_from(bytes, i + 1)
    }
}

/// The text that a quoted-printable text stands for: its bytes decoded and
/// read as UTF-8, with a replacement character for what is not UTF-8.
pub open spec fn quoted_printable_text(input: Seq<char>) -> Seq<char> {
    utf8_lossy(quoted_printable_from(vstd::utf8::encode_utf8(input), 0))
}

/// The value of a hexadecimal digit.
fn hex_digit(b: u8) -> (r: Option<u8>)
    ensures
        r is Some <==> hex_value(b) is Some,
        r matches Some(v) ==> v as int == hex_value(b)->0 && v < 16,
{
    if 0x30 <= b && b <= 0x39 {
        Some(b - 0x30)
    } else if 0x61 <= b && b <= 0x66 {
        Some(b - 0x61 + 10)
    } else if 0x41 <= b && b <= 0x46 {
        Some(b - 0x41 + 10)
    } else {
        None
    }
}

/// The byte that two characters behind `=` stand for.
fn escape_value(high: u8, low: u8) -> (r: Option<u8>)
    ensures
        r is Some <==> escaped_byte(high, low) is Some,
        r matches Some(v) ==> v as int == escaped_byte(high, low)->0,
{
    match hex_digit(low) {
        None => None,
        Some(l) => match hex_digit(high) {
            Some(h) => Some(16 * h + l),
            None => if high == 0x2B {
                Some(l)
            } else {
                None
            },
        },
    }
}

/// Decodes a quoted-printable text, such as `=E2=80=99` or `=20`. Where
/// the decoded bytes are UTF-8, the result is the text that they encode.
pub fn decode_quoted_printable(input: &str) -> (r: String)
    ensures
        r@ == quoted_printable_text(input@),
        vstd::utf8::valid_utf8(quoted_printable_from(vstd::utf8::encode_utf8(input@), 0)) ==> r@
            == vstd::utf8::decode_utf8(
            quoted_printable_from(vstd::utf8::encode_utf8(input@), 0),
        ),
{
    let bytes = input.as_bytes();
    let ghost all = vstd::utf8::encode_utf8(input@);
    let mut out: Vec<u8> = Vec::new();
    let mut i: usize = 0;
    assert(Seq::<u8>::empty() + quoted_printable_from(all, 0) == quoted_printable_from(all, 0));
    while i < bytes.len()
        invariant
            i <= bytes@.len(),
            bytes@ == all,
            quoted_printable_from(all, 0) == out@ + quoted_printable_from(all, i as int),
        decreases bytes@.len() - i,
    {
        let ghost done = out@;
        if bytes[i] == 0x3D && bytes.len() - i > 2 {
            if bytes[i + 1] == 0x0A {
                i += 2;
            } else if bytes[i + 1] == 0x0D && bytes.len() - i > 3 && bytes[i + 2] == 0x0A {
                i += 3;
            } else {
                match escape_value(bytes[i + 1], bytes[i + 2]) {
                    Some(v) => {
                        out.push(v);
                        assert(done.push(v) + quoted_printable_from(all, i + 3) == done + (seq![v]
                            + quoted_printable_from(all, i + 3)));
                        i += 3;
                    },
                    None => {
                        out.push(0x3D);
                        assert(done.push(0x3Du8) + quoted_printable_from(all, i + 1) == done + (
                            seq![0x3Du8] + quoted_printable_from(all, i + 1)));
                        i += 1;
                    },
                }
            }
        } else {
            out.push(bytes[i]);
            assert(done.push(all[i as int]) + quoted_printable_from(all, i + 1) == done + (
                seq![all[i as int]] + quoted_printable_from(all, i + 1)));
            i += 1;
        }
    }
    assert(out@ + Seq::<u8>::empty() == out@);
    lossy_text(&out)
}

/// The value of a digit in the given radix, which is 10 or 16.
pub open spec fn digit_value(c: char, radix: int) -> Option<int> {
    let n = c as u32;
    if 0x30 <= n <= 0x39 {
        Some(n - 0x30)
    } else if radix == 16 && 0x61 <= n <= 0x66 {
        Some(n - 0x61 + 10)
    } else if radix == 16 && 0x41 <= n <= 0x46 {
        Some(n - 0x41 + 10)
    } else {
        None
    }
}

/// The number that a text of digits writes in the given radix; nothing
/// where the text is empty or holds anything but digits.
pub open spec fn number_value(digits: Seq<char>, radix: int) -> Option<int>
    decreases digits.len(),
{
    if digits.len() == 0 {
        None
    } else {
        match digit_value(digits.last(), radix) {
            None => None,
            Some(d) => if digits.len() == 1 {
                Some(d)
            } else {
                match number_value(digits.drop_last(), radix) {
                    Some(h) => Some(h * radix + d),
                    None => None,
                }
            },
        }
    }
}

/// The number that a text of digits writes, where it fits in 32 bits.
pub open spec fn code_of(digits: Seq<char>, radix: int) -> Option<int> {
    match number_value(digits, radix) {
        Some(v) => if v <= u32::MAX {
            Some(v)
        } else {
            None
        },
        None => None,
    }
}

/// A code that a character has: any up to `0x10FFFF` but a surrogate.
pub open spec fn is_scalar_code(code: int) -> bool {
    0 <= code < 0xD800 || 0xDFFF < code <= 0x10FFFF
}

/// The character with the given code.
pub open spec fn char_coded(code: int) -> char {
    (code as u32) as char
}

/// The character that a text of digits names, as a text of its own; and
/// `otherwise` where the digits name none.
pub open spec fn coded_text(digits: Seq<char>, radix: int, otherwise: Seq<char>) -> Seq<char> {
    match code_of(digits, radix) {
        Some(code) => if is_scalar_code(code) {
            seq![char_coded(code)]
        } else {
            otherwise
        },
        None => otherwise,
    }
}

/// A number is not negative, and no prefix of its digits writes a greater
/// one.
pub proof fn lemma_number_prefix(digits: Seq<char>, j: int, radix: int)
    requires
        0 < j <= digits.len(),
        radix == 10 || radix == 16,
        number_value(digits, radix) is Some,
    ensures
        number_value(digits.take(j), radix) is Some,
        0 <= number_value(digits.take(j), radix)->0 <= number_value(digits, radix)->0,
    decreases digits.len() - j,
{
    if j == digits.len() {
        assert(digits.take(j) == digits);
        lemma_number_not_negative(digits, radix);
    } else {
        let front = digits.drop_last();
        assert(front.take(j) == digits.take(j));
        lemma_number_prefix(front, j, radix);
        let h = number_value(front, radix)->0;
        lemma_number_not_negative(front, radix);
        assert(h * radix >= h) by (nonlinear_arith)
            requires
                h >= 0,
                radix >= 1,
        ;
    }
}

/// A number is not negative.
pub proof fn lemma_number_not_negative(digits: Seq<char>, radix: int)
    requires
        radix == 10 || radix == 16,
        number_value(digits, radix) is Some,
    ensures
        0 <= number_value(digits, radix)->0,
    decreases digits.len(),
{
    if digits.len() > 1 {
        lemma_number_not_negative(digits.drop_last(), radix);
        let h = number_value(digits.drop_last(), radix)->0;
        assert(h * radix >= 0) by (nonlinear_arith)
            requires
                h >= 0,
                radix >= 1,
        ;
    }
}

/// The value of a digit in the given radix.
fn digit_of(c: char, radix: u32) -> (r: Option<u32>)
    requires
        radix == 10 || radix == 16,
    ensures
        r is Some <==> digit_value(c, radix as int) is Some,
        r matches Some(d) ==> d as int == digit_value(c, radix as int)->0 && d < 16,
{
    let n: u32 = c as u32;
    if 0x30 <= n && n <= 0x39 {
        Some(n - 0x30)
    } else if radix == 16 && 0x61 <= n && n <= 0x66 {
        Some(n - 0x61 + 10)
    } else if radix == 16 && 0x41 <= n && n <= 0x46 {
        Some(n - 0x41 + 10)
    } else {
        None
    }
}

/// Reads a number of at most 32 bits from a text of digits.
pub fn parse_code(digits: &str, radix: u32) -> (r: Option<u32>)
    requires
        radix == 10 || radix == 16,
    ensures
        r is Some <==> code_of(digits@, radix as int) is Some,
        r matches Some(v) ==> v as int == code_of(digits@, radix as int)->0,
{
    let chars = chars_of(digits);
    if chars.len() == 0 {
        return None;
    }
    let ghost s = chars@;
    let mut acc: u64 = 0;
    let mut k: usize = 0;
    while k < chars.len()
        invariant
            k <= chars@.len(),
            s == chars@,
            s == digits@,
            s.len() > 0,
            radix == 10 || radix == 16,
            acc <= u32::MAX,
            k == 0 ==> acc == 0,
            k > 0 ==> number_value(s.take(k as int), radix as int) == Some(acc as int),
        decreases chars@.len() - k,
    {
        let ghost prefix = s.take(k + 1);
        assert(prefix.last() == s[k as int]);
        assert(prefix.drop_last() == s.take(k as int));
        match digit_of(chars[k], radix) {
            None => {
                proof {
                    if number_value(s, radix as int) is Some {
                        lemma_number_prefix(s, k + 1, radix as int);
                    }
                }
                return None;
            },
            Some(d) => {
                assert(acc * radix + d <= u64::MAX) by (nonlinear_arith)
                    requires
                        acc <= u32::MAX,
                        radix <= 16,
                        d < 16,
                ;
                let next: u64 = acc * (radix as u64) + (d as u64);
                assert(number_value(prefix, radix as int) == Some(next as int));
                if next > u32::MAX as u64 {
                    proof {
                        if number_value(s, radix as int) is Some {
                            lemma_number_prefix(s, k + 1, radix as int);
                        }
                    }
                    return None;
                }
                acc = next;
            },
        }
        k += 1;
    }
    assert(s.take(s.len() as int) == s);
    Some(acc as u32)
}

/// The character that a text of digits names, as a text of its own; and
/// `otherwise` where the digits name none.
pub fn coded_char_text(digits: &str, radix: u32, otherwise: &str) -> (r: String)
    requires
        radix == 10 || radix == 16,
    ensures
        r@ == coded_text(digits@, radix as int, otherwise@),
{
    match parse_code(digits, radix) {
        Some(code) => match char_of_code(code) {
            Some(c) => {
                let mut one: Vec<char> = Vec::new();
                one.push(c);
                proof {
                    vstd::utf8::char_u32_cast(c, code);
                    assert(one@ == seq![char_coded(code as int)]);
                }
                string_of(&one)
            },
            None => otherwise.to_owned(),
        },
        None => otherwise.to_owned(),
    }
}

/// What a match is replaced by when coded characters are decoded.
#[derive(Clone, Copy, Debug, PartialEq, Eq, Structural)]
pub enum CodedForm {
    /// `&#36;` and `&#x2019;`: the digits are the second capture group for
    /// decimal digits and the third for hexadecimal ones.
    NumericEntity,
    /// `\u2019`: the four hexadecimal digits are the first capture group.
    UnicodeEscape,
}

/// The pattern of a numeric character reference.
pub const NUMERIC_ENTITY_PATTERN: &'static str = "&(#(\\d+)|#x([0-9a-fA-F]+));";

/// The pattern of an escaped character with four hexadecimal digits.
pub const UNICODE_ESCAPE_PATTERN: &'static str = "\\\\u([0-9a-fA-F]{4})";

impl CodedForm {
    /// The pattern of the form.
    pub open spec fn pattern(self) -> Seq<char> {
        match self {
            CodedForm::NumericEntity => NUMERIC_ENTITY_PATTERN@,
            CodedForm::UnicodeEscape => UNICODE_ESCAPE_PATTERN@,
        }
    }

    /// The text that a match stands for: the character that its digits
    /// name, and the match itself where they name none.
    pub open spec fn replacement(self, cut: RegexCutView) -> Seq<char> {
        match self {
            CodedForm::NumericEntity => match cut.group(2) {
                Some(digits) => coded_text(digits, 10, cut.matched),
                None => match cut.group(3) {
                    Some(digits) => coded_text(digits, 16, cut.matched),
                    None => cut.matched,
                },
            },
            CodedForm::UnicodeEscape => match cut.group(1) {
                Some(digits) => coded_text(digits, 16, cut.matched),
                None => cut.matched,
            },
        }
    }

    /// `text` with every match of the form replaced by what it stands for,
    /// read from the left.
    pub open spec fn decoded(self, text: Seq<char>) -> Seq<char>
        decreases text.len(),
    {
        match regex_cut_of(self.pattern(), text) {
            None => text,
            Some(cut) => if cut.before.len() + cut.matched.len() > 0 && cut.before + cut.matched
                + cut.after == text {
                cut.before + self.replacement(cut) + self.decoded(cut.after)
            } else {
                text
            },
        }
    }

    /// The pattern of the form.
    pub fn pattern_text(&self) -> (r: &'static str)
        ensures
            r@ == self.pattern(),
    {
        match self {
            CodedForm::NumericEntity => NUMERIC_ENTITY_PATTERN,
            CodedForm::UnicodeEscape => UNICODE_ESCAPE_PATTERN,
        }
    }

    /// The text that a match stands for.
    pub fn replace(&self, cut: &RegexCut) -> (r: String)
        ensures
            r@ == self.replacement(cut@),
    {
        match self {
            CodedForm::NumericEntity => match cut.group(2) {
                Some(digits) => coded_char_text(digits.as_str(), 10, cut.matched.as_str()),
                None => match cut.group(3) {
                    Some(digits) => coded_char_text(digits.as_str(), 16, cut.matched.as_str()),
                    None => cut.matched.clone(),
                },
            },
            CodedForm::UnicodeEscape => match cut.group(1) {
                Some(digits) => coded_char_text(digits.as_str(), 16, cut.matched.as_str()),
                None => cut.matched.clone(),
            },
        }
    }

    /// Replaces every match of the form in `text` by what it stands for.
    pub fn decode(&self, text: &str) -> (r: String)
        ensures
            r@ == self.decoded(text@),
    {
        let mut out = String::new();
        let mut rest: String = text.to_owned();
        assert(out@ + self.decoded(rest@) == self.decoded(text@));
        loop
            invariant
                self.decoded(text@) == out@ + self.decoded(rest@),
            decreases rest@.len(),
        {
            match regex_cut(self.pattern_text(), rest.as_str()) {
                None => {
                    out.append(rest.as_str());
                    return out;
                },
                Some(cut) => {
                    if cut.before.as_str().is_empty() && cut.matched.as_str().is_empty() {
                        out.append(rest.as_str());
                        return out;
                    }
                    let replacement = self.replace(&cut);
                    let ghost done = out@;
                    out.append(cut.before.as_str());
                    out.append(replacement.as_str());
                    assert((done + cut.before@ + replacement@) + self.decoded(cut.after@) == done
                        + (cut.before@ + replacement@ + self.decoded(cut.after@)));
                    rest = cut.after;
                },
            }
        }
    }
}

/// `text` with the named character references decoded, `&amp;` first.
pub open spec fn named_entities_decoded(text: Seq<char>) -> Seq<char> {
    let t = substituted(text, "&amp;"@, "&"@);
    let t = substituted(t, "&lt;"@, "<"@);
    let t = substituted(t, "&gt;"@, ">"@);
    let t = substituted(t, "&quot;"@, "\""@);
    let t = substituted(t, "&apos;"@, "'"@);
    let t = substituted(t, "&nbsp;"@, " "@);
    let t = substituted(t, "&copy;"@, "\u{c2}\u{a9}"@);
    let t = substituted(t, "&reg;"@, "\u{c2}\u{ae}"@);
    substituted(t, "&trade;"@, "\u{e2}\u{201e}\u{a2}"@)
}

/// `text` with its character references decoded: the named ones, then the
/// numeric ones.
pub open spec fn html_entities_decoded(text: Seq<char>) -> Seq<char> {
    CodedForm::NumericEntity.decoded(named_entities_decoded(text))
}

/// Decodes the character references in a text.
pub fn html_entity_decode(input: &str) -> (r: String)
    ensures
        r@ == html_entities_decoded(input@),
{
    let t = substitute_str(input, "&amp;", "&");
    let t = substitute_str(t.as_str(), "&lt;", "<");
    let t = substitute_str(t.as_str(), "&gt;", ">");
    let t = substitute_str(t.as_str(), "&quot;", "\"");
    let t = substitute_str(t.as_str(), "&apos;", "'");
    let t = substitute_str(t.as_str(), "&nbsp;", " ");
    let t = substitute_str(t.as_str(), "&copy;", "\u{c2}\u{a9}");
    let t = substitute_str(t.as_str(), "&reg;", "\u{c2}\u{ae}");
    let t = substitute_str(t.as_str(), "&trade;", "\u{e2}\u{201e}\u{a2}");
    CodedForm::NumericEntity.decode(t.as_str())
}

/// The plain quotation mark for a curly one, and any other character
/// itself.
pub open spec fn straight_quote(c: char) -> char {
    if c == '\u{2019}' || c == '\u{2018}' {
        '\''
    } else if c == '\u{201c}' || c == '\u{201d}' {
        '"'
    } else {
        c
    }
}

/// `text` with plain quotation marks for curly ones.
pub open spec fn straight_quotes(text: Seq<char>) -> Seq<char> {
    Seq::new(text.len(), |i: int| straight_quote(text[i]))
}

/// Writes plain quotation marks for curly ones.
pub fn straighten_quotes(text: &str) -> (r: String)
    ensures
        r@ == straight_quotes(text@),
{
    let chars = chars_of(text);
    let mut out: Vec<char> = Vec::new();
    let mut i: usize = 0;
    while i < chars.len()
        invariant
            i <= chars@.len(),
            out@.len() == i,
            forall|k: int| 0 <= k < i ==> out@[k] == straight_quote(chars@[k]),
        decreases chars@.len() - i,
    {
        let c = chars[i];
        let plain = if c == '\u{2019}' || c == '\u{2018}' {
            '\''
        } else if c == '\u{201c}' || c == '\u{201d}' {
            '"'
        } else {
            c
        };
        out.push(plain);
        i += 1;
    }
    assert(out@ == straight_quotes(chars@));
    string_of(&out)
}

/// The readable form of a text of a message: quoted-printable decoded,
/// character references and escaped characters decoded, and plain
/// quotation marks for curly ones.
pub open spec fn cleaned(content: Seq<char>) -> Seq<char> {
    straight_quotes(
        CodedForm::UnicodeEscape.decoded(html_entities_decoded(quoted_printable_text(content))),
    )
}

/// Makes a text of a message readable.
pub fn clean_unicode(content: &str) -> (r: String)
    ensures
        r@ == cleaned(content@),
{
    let t = decode_quoted_printable(content);
    let t = html_entity_decode(t.as_str());
    let t = CodedForm::UnicodeEscape.decode(t.as_str());
    straighten_quotes(t.as_str())
}

/// The line that introduces a quoted reply: `On <day> ... wrote:` after a
/// blank line.
pub const QUOTE_HEADER_PATTERN: &'static str =
    "(?is)(?:\\r?\\n){2,}On (?:Mon|Tue|Wed|Thu|Fri|Sat|Sun),? .+? (?:at \\d{1,2}(?::\\d{2})?(?::\\d{2})?\\s*(?:AM|PM|am|pm)?)?.+? wrote:\\r?\\n";

/// A footer about the mailing: `Unsubscribe`, `This email was sent` and
/// the like, after a blank line and up to the end.
pub const FOOTER_PATTERN: &'static str =
    "(?is)\\n\\n(?:You are receiving this|Unsubscribe|Manage preferences|Click here to unsubscribe|This email was sent)[^\\n]*$";

/// The signature that a phone adds, after a blank line and up to the end.
pub const MOBILE_SIGNATURE_PATTERN: &'static str =
    "(?is)\\n\\n(?:Sent from my (?:iPhone|iPad|iPod)|Sent from my Android)[^\\n]*$";

/// A line of dashes, equals signs or asterisks with a few lines behind it
/// up to the end.
pub const SIGNATURE_DELIMITER_PATTERN: &'static str =
    "(?is)(?:^|\\n)\\s*(?:--\\s*\\n|---+\\s*\\n|==+\\s*\\n|\\*{3,}\\s*\\n).*(?:[^\\n]{0,200}\\n){0,10}$";

/// A closing such as `Best regards,` after a blank line, with a few lines
/// behind it up to the end.
pub const SIGNATURE_KEYWORD_PATTERN: &'static str =
    "(?is)\\n\\n\\s*(?:Regards|Best regards,?|Kind regards,?|Thanks,?|Thank you,?|Sincerely,?|Cheers,?|Best,?|Warmly,?|With gratitude,?|All the best,?|Take care,?|Many thanks,?|Thanks and regards,?|Best wishes,?|Yours truly,?|Respectfully,?|Cordially,?).*(?:[^\\n]{0,200}\\n){0,5}$";

/// The first line feed at or after `from`.
pub open spec fn find_line_feed(s: Seq<char>, from: int) -> Option<int>
    decreases s.len() - from,
{
    if from < 0 || from >= s.len() {
        None
    } else if s[from] == '\n' {
        Some(from)
    } else {
        find_line_feed(s, from + 1)
    }
}

/// A line without the carriage return at its end.
pub open spec fn line_body(line: Seq<char>) -> Seq<char> {
    if line.len() > 0 && line.last() == '\r' {
        line.drop_last()
    } else {
        line
    }
}

/// A line quotes an earlier message where `>` is its first character that
/// is not white space.
pub open spec fn is_quoted(line: Seq<char>) -> bool {
    trim_start(line).len() > 0 && trim_start(line)[0] == '>'
}

/// The lines of `text` that quote nothing, joined by line feeds. A line
/// ends at a line feed, or at a carriage return and a line feed; the last
/// line may end with the text. `any` tells whether a line was kept before,
/// so that a line feed stands before the next one.
pub open spec fn kept_lines(text: Seq<char>, any: bool) -> Seq<char>
    decreases text.len(),
{
    if text.len() == 0 {
        Seq::empty()
    } else {
        match find_line_feed(text, 0) {
            None => if is_quoted(text) {
                Seq::empty()
            } else {
                separator(any) + text
            },
            Some(end) => {
                proof {
                    lemma_find_line_feed(text, 0);
                }
                let line = line_body(text.take(end));
                if is_quoted(line) {
                    kept_lines(text.skip(end + 1), any)
                } else {
                    separator(any) + line + kept_lines(text.skip(end + 1), true)
                }
            },
        }
    }
}

/// What stands between two kept lines.
pub open spec fn separator(any: bool) -> Seq<char> {
    if any {
        seq!['\n']
    } else {
        Seq::empty()
    }
}

/// A line feed that is found stands in the text at or after `from`.
pub proof fn lemma_find_line_feed(s: Seq<char>, from: int)
    requires
        0 <= from,
    ensures
        find_line_feed(s, from) matches Some(p) ==> from <= p < s.len() && s[p] == '\n',
    decreases s.len() - from,
{
    if from < s.len() && s[from] != '\n' {
        lemma_find_line_feed(s, from + 1);
    }
}

/// Searching a suffix finds what searching the text from the start of the
/// suffix finds.
pub proof fn lemma_find_line_feed_skip(s: Seq<char>, start: int, from: int)
    requires
        0 <= start <= s.len(),
        0 <= from,
    ensures
        find_line_feed(s.skip(start), from) == match find_line_feed(s, start + from) {
            Some(p) => Some(p - start),
            None => None,
        },
    decreases s.len() - start - from,
{
    let t = s.skip(start);
    if from < t.len() {
        assert(t[from] == s[start + from]);
        if t[from] != '\n' {
            lemma_find_line_feed_skip(s, start, from + 1);
        }
    }
}

/// A message without what it quotes of earlier ones: the text before the
/// line that introduces a quoted reply, or else the lines that quote
/// nothing; in both cases without white space at the end.
pub open spec fn without_quoted_replies(content: Seq<char>) -> Seq<char> {
    match regex_cut_of(QUOTE_HEADER_PATTERN@, content) {
        Some(cut) => trim_end(cut.before),
        None => trim_end(kept_lines(content, false)),
    }
}

/// A message without its signature: without a footer about the mailing
/// and without a phone's signature, cut off at a signature delimiter and at
/// a closing, and without white space at the end.
pub open spec fn without_signature(content: Seq<char>) -> Seq<char> {
    trim_end(
        before_match(
            SIGNATURE_KEYWORD_PATTERN@,
            before_match(
                SIGNATURE_DELIMITER_PATTERN@,
                without_match(
                    MOBILE_SIGNATURE_PATTERN@,
                    without_match(FOOTER_PATTERN@, content),
                ),
            ),
        ),
    )
}

/// The readable body of a message: cleaned, without quoted replies and
/// without signature.
pub open spec fn cleaned_body(content: Seq<char>) -> Seq<char> {
    without_signature(without_quoted_replies(cleaned(content)))
}

/// Tells whether the line `chars[from..to]` quotes an earlier message.
fn range_is_quoted(chars: &Vec<char>, from: usize, to: usize) -> (r: bool)
    requires
        from <= to <= chars@.len(),
    ensures
        r == is_quoted(chars@.subrange(from as int, to as int)),
{
    let ghost line = chars@.subrange(from as int, to as int);
    let mut i: usize = from;
    while i < to && char_is_white_space(chars[i])
        invariant
            from <= i <= to <= chars@.len(),
            forall|k: int| from <= k < i ==> is_white_space(#[trigger] chars@[k]),
        decreases to - i,
    {
        i += 1;
    }
    proof {
        assert forall|k: int| 0 <= k < i - from implies is_white_space(#[trigger] line[k]) by {
            assert(line[k] == chars@[from + k]);
        }
        lemma_trim_start_skip(line, i - from);
        if i < to {
            assert(line.skip(i - from)[0] == chars@[i as int]);
        }
    }
    i < to && chars[i] == '>'
}

/// The bounds of the line that begins at `start`: where its body ends
/// and where the next line begins.
fn line_bounds(chars: &Vec<char>, start: usize) -> (r: (usize, usize))
    requires
        start < chars@.len(),
    ensures
        start <= r.0 <= r.1 <= chars@.len(),
        start < r.1,
        match find_line_feed(chars@.skip(start as int), 0) {
            Some(end) => chars@.subrange(start as int, r.0 as int) == line_body(
                chars@.skip(start as int).take(end),
            ) && r.1 == start + end + 1,
            None => r.0 == chars@.len() && r.1 == chars@.len(),
        },
{
    let ghost all = chars@;
    let ghost rest = all.skip(start as int);
    let mut end: usize = start;
    proof {
        lemma_find_line_feed_skip(all, start as int, 0);
    }
    while end < chars.len() && chars[end] != '\n'
        invariant
            start <= end <= chars@.len(),
            all == chars@,
            find_line_feed(all, start as int) == find_line_feed(all, end as int),
        decreases chars@.len() - end,
    {
        end += 1;
    }
    if end < chars.len() {
        let stop = if end > start && chars[end - 1] == '\r' {
            end - 1
        } else {
            end
        };
        proof {
            assert(find_line_feed(rest, 0) == Some(end - start));
            assert(rest.take(end - start) == all.subrange(start as int, end as int));
            assert(line_body(rest.take(end - start)) == all.subrange(start as int, stop as int));
        }
        (stop, end + 1)
    } else {
        (end, end)
    }
}

/// Adds `chars[from..to]` at the end of `out`.
fn append_range(out: &mut Vec<char>, chars: &Vec<char>, from: usize, to: usize)
    requires
        from <= to <= chars@.len(),
    ensures
        final(out)@ == old(out)@ + chars@.subrange(from as int, to as int),
{
    let mut k: usize = from;
    assert(out@ == old(out)@ + chars@.subrange(from as int, from as int));
    while k < to
        invariant
            from <= k <= to <= chars@.len(),
            out@ == old(out)@ + chars@.subrange(from as int, k as int),
        decreases to - k,
    {
        out.push(chars[k]);
        assert(chars@.subrange(from as int, k + 1) == chars@.subrange(from as int, k as int).push(
            chars@[k as int],
        ));
        k += 1;
    }
}

/// One step of joining the lines that quote nothing: the line at `start`
/// is added to `out` unless it quotes.
fn keep_line(out: &mut Vec<char>, chars: &Vec<char>, start: usize, any: bool) -> (r: (
    usize,
    bool,
))
    requires
        start < chars@.len(),
    ensures
        start < r.0 <= chars@.len(),
        old(out)@ + kept_lines(chars@.skip(start as int), any) == final(out)@ + kept_lines(
            chars@.skip(r.0 as int),
            r.1,
        ),
{
    let ghost all = chars@;
    let ghost rest = all.skip(start as int);
    let ghost done = out@;
    let (stop, next) = line_bounds(chars, start);
    let ghost line = all.subrange(start as int, stop as int);
    let ghost tail = all.skip(next as int);
    proof {
        match find_line_feed(rest, 0) {
            Some(end) => {
                assert(rest.skip(end + 1) == tail);
            },
            None => {
                assert(line == rest);
                assert(tail == Seq::<char>::empty());
            },
        }
    }
    if range_is_quoted(chars, start, stop) {
        (next, any)
    } else {
        if any {
            out.push('\n');
        }
        assert(out@ == done + separator(any));
        append_range(out, chars, start, stop);
        proof {
            let after = kept_lines(tail, true);
            assert(kept_lines(rest, any) == separator(any) + line + after);
            assert(done + (separator(any) + line + after) == (done + separator(any) + line)
                + after);
        }
        (next, true)
    }
}

/// The lines of `text` that quote nothing, joined by line feeds.
pub fn unquoted_lines(text: &str) -> (r: String)
    ensures
        r@ == kept_lines(text@, false),
{
    let chars = chars_of(text);
    let mut out: Vec<char> = Vec::new();
    let mut any = false;
    let mut start: usize = 0;
    assert(chars@.skip(0) == chars@);
    assert(Seq::<char>::empty() + kept_lines(chars@, false) == kept_lines(chars@, false));
    while start < chars.len()
        invariant
            start <= chars@.len(),
            kept_lines(chars@, false) == out@ + kept_lines(chars@.skip(start as int), any),
        decreases chars@.len() - start,
    {
        let (next, kept) = keep_line(&mut out, &chars, start, any);
        start = next;
        any = kept;
    }
    assert(out@ + Seq::<char>::empty() == out@);
    string_of(&out)
}

/// Takes out of a message what it quotes of earlier ones.
pub fn strip_quoted_replies(content: &str) -> (r: String)
    ensures
        r@ == without_quoted_replies(content@),
{
    match regex_cut(QUOTE_HEADER_PATTERN, content) {
        Some(cut) => trim_end_str(cut.before.as_str()),
        None => trim_end_str(unquoted_lines(content).as_str()),
    }
}

/// Takes the signature off a message.
pub fn strip_signature(content: &str) -> (r: String)
    ensures
        r@ == without_signature(content@),
{
    let t = remove_match(FOOTER_PATTERN, content.to_owned());
    let t = remove_match(MOBILE_SIGNATURE_PATTERN, t);
    let t = truncate_at_match(SIGNATURE_DELIMITER_PATTERN, t);
    let t = truncate_at_match(SIGNATURE_KEYWORD_PATTERN, t);
    trim_end_str(t.as_str())
}

/// Makes the body of a message readable: cleans it and takes quoted
/// replies and the signature off.
pub fn clean_and_strip_body(content: String) -> (r: String)
    ensures
        r@ == cleaned_body(content@),
{
    let cleaned = clean_unicode(content.as_str());
    let without_quotes = strip_quoted_replies(cleaned.as_str());
    strip_signature(without_quotes.as_str())
}

/// The value of the first header at or after `from` whose name, written
/// in lower case, is `name`.
pub open spec fn header_from(headers: Seq<MessageHeader>, name: Seq<char>, from: int) -> Option<
    Seq<char>,
>
    decreases headers.len() - from,
{
    if from < 0 || from >= headers.len() {
        None
    } else if lowercased(headers[from].name@) == name {
        Some(headers[from].value@)
    } else {
        header_from(headers, name, from + 1)
    }
}

/// The value of the header `name` of a message, where it has one.
pub open spec fn header_of(message: Message, name: Seq<char>) -> Option<Seq<char>> {
    match message.payload {
        Some(payload) => match payload.headers {
            Some(headers) => header_from(headers@, name, 0),
            None => None,
        },
        None => None,
    }
}

/// The cleaned value of the header `name` of a message, and the empty text
/// where the message has no such header.
pub open spec fn header_text(message: Message, name: Seq<char>) -> Seq<char> {
    match header_of(message, name) {
        Some(value) => cleaned(value),
        None => Seq::empty(),
    }
}

/// The cleaned value of the header `name`, which is written in lower case.
#[verifier::loop_isolation(false)]
fn extract_header(message: &Message, name: &str) -> (r: String)
    ensures
        r@ == header_text(*message, name@),
{
    match &message.payload {
        None => String::new(),
        Some(payload) => match &payload.headers {
            None => String::new(),
            Some(headers) => {
                let mut i: usize = 0;
                while i < headers.len()
                    invariant
                        i <= headers@.len(),
                        header_from(headers@, name@, 0) == header_from(headers@, name@, i as int),
                    decreases headers@.len() - i,
                {
                    let lower = lowercase(headers[i].name.as_str());
                    if str_eq(lower.as_str(), name) {
                        return clean_unicode(headers[i].value.as_str());
                    }
                    i += 1;
                }
                String::new()
            },
        },
    }
}

/// The cleaned subject of a message.
pub fn extract_subject(message: &Message) -> (r: String)
    ensures
        r@ == header_text(*message, "subject"@),
{
    extract_header(message, "subject")
}

/// The cleaned sender of a message.
pub fn extract_from(message: &Message) -> (r: String)
    ensures
        r@ == header_text(*message, "from"@),
{
    extract_header(message, "from")
}

/// The cleaned recipients of a message.
pub fn extract_to(message: &Message) -> (r: String)
    ensures
        r@ == header_text(*message, "to"@),
{
    extract_header(message, "to")
}

/// The bytes that the `base64` crate reads from a text in the URL-safe
/// alphabet with padding; nothing where the text is not of that form.
pub uninterp spec fn base64_url_decoded(data: Seq<char>) -> Option<Seq<u8>>;

/// The text that the `base64` crate writes for bytes in the URL-safe
/// alphabet with padding.
pub uninterp spec fn base64_url_encoded(bytes: Seq<u8>) -> Seq<char>;

/// The Markdown that the `htmd` crate writes for an HTML text when the
/// elements with the given names are skipped; nothing where it fails.
pub uninterp spec fn markdown_of(html: Seq<char>, skipped: Seq<Seq<char>>) -> Option<Seq<char>>;

/// The elements of a mail that are left out of its Markdown: scripts,
/// styles, footers and images.
pub open spec fn skipped_elements() -> Seq<Seq<char>> {
    seq!["script"@, "style"@, "footer"@, "img"@, "svg"@]
}

/// The elements of a mail that are left out of its Markdown.
pub fn skipped_tags() -> (r: Vec<String>)
    ensures
        texts_of(r@) == skipped_elements(),
{
    let mut tags: Vec<String> = Vec::new();
    tags.push("script".to_owned());
    tags.push("style".to_owned());
    tags.push("footer".to_owned());
    tags.push("img".to_owned());
    tags.push("svg".to_owned());
    assert(texts_of(tags@) =~= skipped_elements());
    tags
}

/// The value of optional bytes.
pub open spec fn bytes_of(bytes: Option<Vec<u8>>) -> Option<Seq<u8>> {
    match bytes {
        Some(bytes) => Some(bytes@),
        None => None,
    }
}

/// Decodes base64 text with the `URL_SAFE` engine of the `base64` crate.
#[verifier::external_body]
fn base64_url_decode(data: &str) -> (r: Option<Vec<u8>>)
    ensures
        bytes_of(r) == base64_url_decoded(data@),
{
    base64::engine::general_purpose::URL_SAFE.decode(data).ok()
}

/// Encodes bytes with the `URL_SAFE` engine of the `base64` crate.
#[verifier::external_body]
fn base64_url_encode(bytes: &[u8]) -> (r: String)
    ensures
        r@ == base64_url_encoded(bytes@),
{
    base64::engine::general_purpose::URL_SAFE.encode(bytes)
}

/// Converts HTML to Markdown with `htmd::HtmlToMarkdown`, built with
/// `skip_tags` to skip the elements that are named. The parser takes any
/// text, and where the handlers of `htmd` unwrap a value (the digit in the
/// tag of a heading, the parent of a code block, the fence of a code
/// block, the width of a table's column) it is there by the way the
/// handlers are registered and the tree is built.
#[verifier::external_body]
fn html_to_markdown(html: &str, skipped: &Vec<String>) -> (r: Option<String>)
    ensures
        text_of(r) == markdown_of(html@, texts_of(skipped@)),
{
    htmd::HtmlToMarkdown::builder().skip_tags(
        skipped.iter().map(|tag| tag.as_str()).collect(),
    ).build().convert(html).ok()
}

/// What is written in place of data that cannot be decoded.
pub open spec fn undecodable() -> Seq<char> {
    "Failed to decode"@
}

/// The text that base64 data holds: the data decoded and read as UTF-8,
/// or a notice where the data is no base64 or its bytes are no UTF-8.
pub open spec fn decoded_text(data: Seq<char>) -> Seq<char> {
    match base64_url_decoded(data) {
        Some(bytes) => if vstd::utf8::valid_utf8(bytes) {
            vstd::utf8::decode_utf8(bytes)
        } else {
            undecodable()
        },
        None => undecodable(),
    }
}

/// The Markdown of an HTML text without the elements that are left out,
/// and the empty text where the conversion fails.
pub open spec fn markdown_text(html: Seq<char>) -> Seq<char> {
    match markdown_of(html, skipped_elements()) {
        Some(text) => text,
        None => Seq::empty(),
    }
}

/// Decodes the base64 data of a body.
pub fn decode_base64(data: &str) -> (r: String)
    ensures
        r@ == decoded_text(data@),
{
    match base64_url_decode(data) {
        Some(bytes) => match utf8_text(bytes) {
            Some(text) => text,
            None => "Failed to decode".to_owned(),
        },
        None => "Failed to decode".to_owned(),
    }
}

/// Encodes a text as base64 in the URL-safe alphabet, with padding.
pub fn base64_url_no_pad(input: &str) -> (r: String)
    ensures
        r@ == base64_url_encoded(vstd::utf8::encode_utf8(input@)),
{
    base64_url_encode(input.as_bytes())
}

/// Converts the HTML of a body to Markdown.
pub fn markdown_body(html: &str) -> (r: String)
    ensures
        r@ == markdown_text(html@),
{
    let skipped = skipped_tags();
    match html_to_markdown(html, &skipped) {
        Some(text) => text,
        None => String::new(),
    }
}

/// The text of a part: of a plain-text or HTML part that is no attachment
/// and has data, the data decoded and made readable or converted to
/// Markdown.
pub open spec fn part_text(part: MessagePart) -> Option<Seq<char>> {
    match part.body {
        None => None,
        Some(body) => match body.data {
            None => None,
            Some(data) => if body.attachment_id is Some || data@.len() == 0 {
                None
            } else if part.mimetype@ == "text/plain"@ {
                Some(cleaned_body(decoded_text(data@)))
            } else if part.mimetype@ == "text/html"@ {
                Some(markdown_text(decoded_text(data@)))
            } else {
                None
            },
        },
    }
}

/// The text of the first part at or after `from` that has one.
pub open spec fn parts_text(parts: Seq<MessagePart>, from: int) -> Option<Seq<char>>
    decreases parts.len() - from,
{
    if from < 0 || from >= parts.len() {
        None
    } else {
        match part_text(parts[from]) {
            Some(text) => Some(text),
            None => parts_text(parts, from + 1),
        }
    }
}

/// The body of a message with a payload: the data of the payload itself
/// where there is any, else the first part that has text, else the
/// snippet, else nothing.
pub open spec fn body_text(message: Message) -> Seq<char> {
    let payload = message.payload->0;
    let own = match payload.body {
        Some(body) => body.data,
        None => None,
    };
    let parts = match payload.parts {
        Some(parts) => parts_text(parts@, 0),
        None => None,
    };
    match own {
        Some(data) => if payload.mimetype@ == "text/html"@ {
            markdown_text(decoded_text(data@))
        } else {
            cleaned_body(decoded_text(data@))
        },
        None => match parts {
            Some(text) => text,
            None => match message.snippet {
                Some(snippet) => cleaned_body(snippet@),
                None => Seq::empty(),
            },
        },
    }
}

/// The text of a part.
fn extract_part(part: &MessagePart) -> (r: Option<String>)
    ensures
        text_of(r) == part_text(*part),
{
    match &part.body {
        None => None,
        Some(body) => match &body.data {
            None => None,
            Some(data) => {
                if body.attachment_id.is_some() || data.as_str().is_empty() {
                    None
                } else if str_eq(part.mimetype.as_str(), "text/plain") {
                    Some(clean_and_strip_body(decode_base64(data.as_str())))
                } else if str_eq(part.mimetype.as_str(), "text/html") {
                    Some(markdown_body(decode_base64(data.as_str()).as_str()))
                } else {
                    None
                }
            },
        },
    }
}

/// The body of a message as readable text. The message has a payload.
#[verifier::loop_isolation(false)]
pub fn extract_body(message: &Message) -> (r: String)
    requires
        message.payload is Some,
    ensures
        r@ == body_text(*message),
{
    let payload = match &message.payload {
        Some(payload) => payload,
        None => {
            return String::new();
        },
    };
    match &payload.body {
        Some(body) => match &body.data {
            Some(data) => {
                let text = decode_base64(data.as_str());
                if str_eq(payload.mimetype.as_str(), "text/html") {
                    return markdown_body(text.as_str());
                }
                return clean_and_strip_body(text);
            },
            None => {},
        },
        None => {},
    }
    match &payload.parts {
        Some(parts) => {
            let mut i: usize = 0;
            while i < parts.len()
                invariant
                    i <= parts@.len(),
                    parts_text(parts@, 0) == parts_text(parts@, i as int),
                decreases parts@.len() - i,
            {
                match extract_part(&parts[i]) {
                    Some(text) => {
                        return text;
                    },
                    None => {},
                }
                i += 1;
            }
        },
        None => {},
    }
    match &message.snippet {
        Some(snippet) => clean_and_strip_body(snippet.clone()),
        None => String::new(),
    }
}

/// The address that lists the unread messages of the inbox that came
/// after a day, which is written as year, month and day with `/` between
/// them.
pub open spec fn unread_messages_address(after_date: Seq<char>) -> Seq<char> {
    "https://gmail.googleapis.com/gmail/v1/users/me/messages?labelIds=UNREAD&q=is:unread%20after:"@
        + after_date + "%20in:inbox"@
}

/// The address that lists the unread messages that came after a day.
pub fn unread_messages_url(after_date: &str) -> (r: String)
    ensures
        r@ == unread_messages_address(after_date@),
{
    "https://gmail.googleapis.com/gmail/v1/users/me/messages?labelIds=UNREAD&q=is:unread%20after:".to_owned().concat(
        after_date,
    ).concat("%20in:inbox")
}

/// The address of a thread with all its messages in full.
pub open spec fn thread_address(thread_id: Seq<char>) -> Seq<char> {
    "https://gmail.googleapis.com/gmail/v1/users/me/threads/"@ + thread_id + "?format=full"@
}

/// The address of a thread with all its messages in full.
pub fn thread_url(thread_id: &str) -> (r: String)
    ensures
        r@ == thread_address(thread_id@),
{
    "https://gmail.googleapis.com/gmail/v1/users/me/threads/".to_owned().concat(thread_id).concat(
        "?format=full",
    )
}

/// The address that lists the unread messages of the `n_days` days before
/// the time `now`, which is given in seconds since the beginning of 1970.
/// Nothing where the first of these days lies beyond the calendar.
pub open spec fn unread_address_at(now: int, n_days: int) -> Option<Seq<char>> {
    match crate::dates::day_before(now, n_days, crate::dates::DayForm::Slashes) {
        Some(day) => Some(unread_messages_address(day)),
        None => None,
    }
}

/// The address that lists the unread messages of the `n_days` days before
/// the time `now`.
pub fn unread_messages_url_at(now: i64, n_days: i64) -> (r: Option<String>)
    ensures
        crate::members::text_of(r) == unread_address_at(now as int, n_days as int),
{
    match crate::dates::day_before_text(now, n_days, crate::dates::DayForm::Slashes) {
        Some(day) => Some(unread_messages_url(day.as_str())),
        None => None,
    }
}

} // verus!
