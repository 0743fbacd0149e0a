//! Text in and out: the fixed-width, zero-padded strings of the board
//! information, and the numbers in the messages the session reports.

use vstd::prelude::*;
use vstd::string::*;

verus! {

/// The text that a permissive UTF-8 decoder makes of `bytes`: what is valid
/// is decoded, and every invalid sequence becomes one U+FFFD.
pub uninterp spec fn utf8_lossy(bytes: Seq<u8>) -> Seq<char>;

/// `text` without the NUL characters it begins with.
pub open spec fn trim_nul_start(text: Seq<char>) -> Seq<char>
    decreases text.len(),
{
    if text.len() > 0 && text[0] == '\0' {
        trim_nul_start(text.drop_first())
    } else {
        text
    }
}

/// `text` without the NUL characters it ends with.
pub open spec fn trim_nul_end(text: Seq<char>) -> Seq<char>
    decreases text.len(),
{
    if text.len() > 0 && text.last() == '\0' {
        trim_nul_end(text.drop_last())
    } else {
        text
    }
}

/// `text` without NUL padding at either end. NUL characters between others
/// stay.
pub open spec fn trim_nul(text: Seq<char>) -> Seq<char> {
    trim_nul_end(trim_nul_start(text))
}

/// The text of a fixed-width field: decoded permissively, then freed of its
/// NUL padding.
pub open spec fn field_text(bytes: Seq<u8>) -> Seq<char> {
    trim_nul(utf8_lossy(bytes))
}

/// Every byte is below 0x80.
pub open spec fn is_ascii_bytes(bytes: Seq<u8>) -> bool {
    forall|i: int| 0 <= i < bytes.len() ==> bytes[i] < 0x80
}

/// The bytes read as one character each.
pub open spec fn ascii_text(bytes: Seq<u8>) -> Seq<char> {
    Seq::new(bytes.len(), |i: int| bytes[i] as char)
}

/// The digit for a value below 16, letters in upper case.
pub open spec fn digit(value: int) -> char {
    if value == 0 {
        '0'
    } else if value == 1 {
        '1'
    } else if value == 2 {
        '2'
    } else if value == 3 {
        '3'
    } else if value == 4 {
        '4'
    } else if value == 5 {
        '5'
    } else if value == 6 {
        '6'
    } else if value == 7 {
        '7'
    } else if value == 8 {
        '8'
    } else if value == 9 {
        '9'
    } else if value == 10 {
        'A'
    } else if value == 11 {
        'B'
    } else if value == 12 {
        'C'
    } else if value == 13 {
        'D'
    } else if value == 14 {
        'E'
    } else {
        'F'
    }
}

/// A number in base 16: upper-case digits, no prefix, no leading zero.
pub open spec fn hex_text(value: nat) -> Seq<char>
    decreases value,
{
    if value < 16 {
        seq![digit(value as int)]
    } else {
        hex_text(value / 16).push(digit((value % 16) as int))
    }
}

/// A number in base 10, no leading zero.
pub open spec fn decimal_text(value: nat) -> Seq<char>
    decreases value,
{
    if value < 10 {
        seq![digit(value as int)]
    } else {
        decimal_text(value / 10).push(digit((value % 10) as int))
    }
}

/// The bytes in base 10, a comma and a space between neighbours.
pub open spec fn list_items(bytes: Seq<u8>) -> Seq<char>
    decreases bytes.len(),
{
    if bytes.len() == 0 {
        Seq::empty()
    } else if bytes.len() == 1 {
        decimal_text(bytes[0] as nat)
    } else {
        list_items(bytes.drop_last()) + seq![',', ' '] + decimal_text(bytes.last() as nat)
    }
}

/// A list of bytes as it is shown: the items between square brackets.
pub open spec fn list_text(bytes: Seq<u8>) -> Seq<char> {
    seq!['['] + list_items(bytes) + seq![']']
}

/// Decodes bytes permissively with `String::from_utf8_lossy`. The text is
/// the decoder's, named `utf8_lossy`; of bytes that are valid UTF-8 it is
/// the text they encode, unchanged.
#[verifier::external_body]
fn decode_lossy(bytes: &[u8]) -> (text: String)
    ensures
        text@ == utf8_lossy(bytes@),
        vstd::utf8::valid_utf8(bytes@) ==> text@ == vstd::utf8::decode_utf8(bytes@),
{
    String::from_utf8_lossy(bytes).into_owned()
}

/// Bytes below 0x80 are valid UTF-8 and encode one character each.
proof fn lemma_ascii_is_utf8(bytes: Seq<u8>)
    requires
        is_ascii_bytes(bytes),
    ensures
        vstd::utf8::valid_utf8(bytes),
        vstd::utf8::decode_utf8(bytes) == ascii_text(bytes),
{
    let chars = ascii_text(bytes);
    assert(vstd::utf8::is_ascii_chars(chars));
    vstd::utf8::is_ascii_chars_encode_utf8(chars);
    assert(vstd::utf8::encode_utf8(chars) =~= bytes);
    vstd::utf8::encode_utf8_valid_utf8(chars);
    vstd::utf8::encode_utf8_decode_utf8(chars);
}

/// Trimming removes NUL characters from the two ends and nothing else, and
/// leaves none at either end.
pub proof fn lemma_trim_nul(text: Seq<char>)
    ensures
        exists|start: int, end: int|
            {
                &&& 0 <= start <= end <= text.len()
                &&& #[trigger] text.subrange(start, end) == trim_nul(text)
                &&& forall|i: int| 0 <= i < start ==> text[i] == '\0'
                &&& forall|i: int| end <= i < text.len() ==> text[i] == '\0'
            },
        trim_nul(text).len() > 0 ==> trim_nul(text).first() != '\0' && trim_nul(text).last()
            != '\0',
{
    lemma_trim_nul_start(text);
    let start: int = text.len() - trim_nul_start(text).len();
    let kept = trim_nul_start(text);
    lemma_trim_nul_end(kept);
    let end: int = start + trim_nul_end(kept).len();
    assert(kept.subrange(0, end - start) =~= text.subrange(start, end));
    assert forall|i: int| end <= i < text.len() implies text[i] == '\0' by {
        assert(kept[i - start] == '\0');
    }
    let trimmed = trim_nul(text);
    if trimmed.len() > 0 {
        assert(trimmed.first() == kept.first());
    }
}

proof fn lemma_trim_nul_start(text: Seq<char>)
    ensures
        trim_nul_start(text).len() <= text.len(),
        trim_nul_start(text) == text.subrange(
            text.len() - trim_nul_start(text).len(),
            text.len() as int,
        ),
        forall|i: int| 0 <= i < text.len() - trim_nul_start(text).len() ==> text[i] == '\0',
        trim_nul_start(text).len() > 0 ==> trim_nul_start(text).first() != '\0',
    decreases text.len(),
{
    if text.len() > 0 && text[0] == '\0' {
        let rest = text.drop_first();
        lemma_trim_nul_start(rest);
        let kept = trim_nul_start(rest);
        assert(kept =~= text.subrange(text.len() - kept.len(), text.len() as int));
        assert forall|i: int| 0 <= i < text.len() - kept.len() implies text[i] == '\0' by {
            if i > 0 {
                assert(rest[i - 1] == '\0');
            }
        }
    } else {
        assert(text =~= text.subrange(0, text.len() as int));
    }
}

proof fn lemma_trim_nul_end(text: Seq<char>)
    ensures
        trim_nul_end(text).len() <= text.len(),
        trim_nul_end(text) == text.subrange(0, trim_nul_end(text).len() as int),
        forall|i: int| trim_nul_end(text).len() <= i < text.len() ==> text[i] == '\0',
        trim_nul_end(text).len() > 0 ==> trim_nul_end(text).last() != '\0',
    decreases text.len(),
{
    if text.len() > 0 && text.last() == '\0' {
        let rest = text.drop_last();
        lemma_trim_nul_end(rest);
        let kept = trim_nul_end(rest);
        assert(kept =~= text.subrange(0, kept.len() as int));
        assert forall|i: int| kept.len() <= i < text.len() implies text[i] == '\0' by {
            if i < text.len() - 1 {
                assert(rest[i] == '\0');
            }
        }
    } else {
        assert(text =~= text.subrange(0, text.len() as int));
    }
}

/// Frees a text of the NUL characters at both of its ends.
pub fn trim_nul_padding(text: &str) -> (trimmed: String)
    ensures
        trimmed@ == trim_nul(text@),
{
    let len: usize = text.unicode_len();
    let mut start: usize = 0;
    assert(text@.subrange(0, len as int) =~= text@);
    while start < len && text.get_char(start) == '\0'
        invariant
            start <= len,
            len == text@.len(),
            trim_nul_start(text@) == trim_nul_start(text@.subrange(start as int, len as int)),
        decreases len - start,
    {
        assert(text@.subrange(start as int, len as int).drop_first() =~= text@.subrange(
            start + 1,
            len as int,
        ));
        start = start + 1;
    }
    let ghost kept = text@.subrange(start as int, len as int);
    assert(trim_nul_start(text@) == kept);
    let mut end: usize = len;
    while end > start && text.get_char(end - 1) == '\0'
        invariant
            start <= end <= len,
            len == text@.len(),
            kept == text@.subrange(start as int, len as int),
            trim_nul_end(kept) == trim_nul_end(text@.subrange(start as int, end as int)),
        decreases end - start,
    {
        assert(text@.subrange(start as int, end as int).drop_last() =~= text@.subrange(
            start as int,
            end - 1,
        ));
        end = end - 1;
    }
    assert(trim_nul_end(kept) == text@.subrange(start as int, end as int));
    String::from_str(text.substring_char(start, end))
}

/// Reads a fixed-width, zero-padded field: the bytes are decoded
/// permissively, so that no byte sequence is refused, and the NUL padding is
/// taken off both ends. Of bytes below 0x80 the text is the bytes
/// themselves, one character each, without the padding.
pub fn decode_field(bytes: &[u8]) -> (text: String)
    ensures
        text@ == field_text(bytes@),
        is_ascii_bytes(bytes@) ==> text@ == trim_nul(ascii_text(bytes@)),
{
    let decoded = decode_lossy(bytes);
    proof {
        if is_ascii_bytes(bytes@) {
            lemma_ascii_is_utf8(bytes@);
        }
    }
    trim_nul_padding(decoded.as_str())
}

/// The digit for a value below 16, as a text of its own.
fn digit_str(value: u32) -> (text: &'static str)
    requires
        value < 16,
    ensures
        text@ == seq![digit(value as int)],
{
    proof {
        reveal_strlit("0");
        reveal_strlit("1");
        reveal_strlit("2");
        reveal_strlit("3");
        reveal_strlit("4");
        reveal_strlit("5");
        reveal_strlit("6");
        reveal_strlit("7");
        reveal_strlit("8");
        reveal_strlit("9");
        reveal_strlit("A");
        reveal_strlit("B");
        reveal_strlit("C");
        reveal_strlit("D");
        reveal_strlit("E");
        reveal_strlit("F");
    }
    let text = if value == 0 {
        "0"
    } else if value == 1 {
        "1"
    } else if value == 2 {
        "2"
    } else if value == 3 {
        "3"
    } else if value == 4 {
        "4"
    } else if value == 5 {
        "5"
    } else if value == 6 {
        "6"
    } else if value == 7 {
        "7"
    } else if value == 8 {
        "8"
    } else if value == 9 {
        "9"
    } else if value == 10 {
        "A"
    } else if value == 11 {
        "B"
    } else if value == 12 {
        "C"
    } else if value == 13 {
        "D"
    } else if value == 14 {
        "E"
    } else {
        "F"
    };
    assert(text@ =~= seq![digit(value as int)]);
    text
}

/// Writes a number in base 16 with upper-case digits.
pub fn hex_upper(value: u32) -> (text: String)
    ensures
        text@ == hex_text(value as nat),
{
    let mut text = String::from_str(digit_str(value % 16));
    let mut rest: u32 = value / 16;
    assert(value >= 16 ==> hex_text(value as nat) =~= hex_text(rest as nat) + text@);
    while rest > 0
        invariant
            rest > 0 ==> hex_text(value as nat) == hex_text(rest as nat) + text@,
            rest == 0 ==> hex_text(value as nat) == text@,
        decreases rest,
    {
        let mut longer = String::from_str(digit_str(rest % 16));
        longer.append(text.as_str());
        proof {
            let lead = seq![digit((rest % 16) as int)];
            assert(longer@ == lead + text@);
            if rest >= 16 {
                assert(hex_text(rest as nat) == hex_text((rest / 16) as nat).push(
                    digit((rest % 16) as int),
                ));
                assert(hex_text((rest / 16) as nat).push(digit((rest % 16) as int)) + text@
                    =~= hex_text((rest / 16) as nat) + (lead + text@));
            } else {
                assert(hex_text(rest as nat) =~= lead);
            }
        }
        text = longer;
        rest = rest / 16;
    }
    text
}

/// Writes a number in base 10.
pub fn decimal(value: u32) -> (text: String)
    ensures
        text@ == decimal_text(value as nat),
{
    let mut text = String::from_str(digit_str(value % 10));
    let mut rest: u32 = value / 10;
    assert(value >= 10 ==> decimal_text(value as nat) =~= decimal_text(rest as nat) + text@);
    while rest > 0
        invariant
            rest > 0 ==> decimal_text(value as nat) == decimal_text(rest as nat) + text@,
            rest == 0 ==> decimal_text(value as nat) == text@,
        decreases rest,
    {
        let mut longer = String::from_str(digit_str(rest % 10));
        longer.append(text.as_str());
        proof {
            let lead = seq![digit((rest % 10) as int)];
            assert(longer@ == lead + text@);
            if rest >= 10 {
                assert(decimal_text(rest as nat) == decimal_text((rest / 10) as nat).push(
                    digit((rest % 10) as int),
                ));
                assert(decimal_text((rest / 10) as nat).push(digit((rest % 10) as int)) + text@
                    =~= decimal_text((rest / 10) as nat) + (lead + text@));
            } else {
                assert(decimal_text(rest as nat) =~= lead);
            }
        }
        text = longer;
        rest = rest / 10;
    }
    text
}

/// Writes a list of bytes: the bytes in base 10, separated by a comma and a
/// space, between square brackets.
pub fn byte_list(bytes: &[u8]) -> (text: String)
    ensures
        text@ == list_text(bytes@),
{
    proof {
        reveal_strlit("[");
        reveal_strlit("]");
    }
    let mut text = String::from_str("[");
    assert(text@ =~= seq!['[']);
    let mut i: usize = 0;
    while i < bytes.len()
        invariant
            i <= bytes.len(),
            text@ == seq!['['] + list_items(bytes@.subrange(0, i as int)),
        decreases bytes.len() - i,
    {
        let ghost before = bytes@.subrange(0, i as int);
        let ghost now = bytes@.subrange(0, i + 1);
        assert(now.drop_last() =~= before);
        assert(now.last() == bytes@[i as int]);
        if i > 0 {
            text.append(", ");
            proof {
                reveal_strlit(", ");
            }
            assert(", "@ =~= seq![',', ' ']);
        }
        let item = decimal(bytes[i] as u32);
        text.append(item.as_str());
        proof {
            if i > 0 {
                assert(list_items(now) == list_items(before) + seq![',', ' '] + decimal_text(
                    bytes@[i as int] as nat,
                ));
                assert(text@ =~= seq!['['] + list_items(now));
            } else {
                assert(list_items(before) =~= Seq::<char>::empty());
                assert(list_items(now) == decimal_text(bytes@[0] as nat));
                assert(text@ =~= seq!['['] + list_items(now));
            }
        }
        i = i + 1;
    }
    assert(bytes@.subrange(0, bytes.len() as int) =~= bytes@);
    text.append("]");
    assert("]"@ =~= seq![']']);
    text
}

} // verus!
