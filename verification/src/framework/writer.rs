//! Writer for Java `.properties` files.

use crate::list::{add_item, empty_list};
use crate::text;
use vstd::prelude::*;
use vstd::utf8;

verus! {

/// The error of the `java_properties` crate.
#[verifier::external_type_specification]
#[verifier::external_body]
pub struct ExPropertiesError(java_properties::PropertiesError);

/// The error of [`String::from_utf8`].
#[verifier::external_type_specification]
#[verifier::external_body]
pub struct ExFromUtf8Error(std::string::FromUtf8Error);

/// Why properties cannot be written.
#[derive(Debug, PartialEq, Eq)]
pub enum PropertiesWriterError {
    /// The properties file could not be created.
    Properties,
    /// The properties file is not UTF-8.
    FromUtf8,
}

impl DeepView for PropertiesWriterError {
    type V = PropertiesWriterError;

    open spec fn deep_view(&self) -> PropertiesWriterError {
        *self
    }
}

/// The lower-case hexadecimal digit of a number below sixteen.
pub open spec fn hex_digit(n: int) -> char {
    if n < 10 {
        text::digit(n as nat)
    } else {
        ((87 + n) as u8) as char
    }
}

/// A character as it is escaped in a key or a value.
pub open spec fn escaped_char(c: char) -> Seq<char> {
    if c == '\\' || c == ' ' || c == ':' || c == '=' || c == '!' || c == '#' {
        seq!['\\', c]
    } else if c == '\t' {
        seq!['\\', 't']
    } else if c == '\r' {
        seq!['\\', 'r']
    } else if c == '\n' {
        seq!['\\', 'n']
    } else if c as int == 12 {
        seq!['\\', 'f']
    } else if (c as int) < 16 {
        seq!['\\', 'u', hex_digit(c as int)]
    } else if (c as int) < 32 {
        seq!['\\', 'u', '1', hex_digit(c as int - 16)]
    } else {
        seq![c]
    }
}

/// A text as it is escaped in a key or a value.
pub open spec fn escaped(text: Seq<char>) -> Seq<char>
    decreases text.len(),
{
    if text.len() == 0 {
        Seq::empty()
    } else {
        escaped(text.drop_last()) + escaped_char(text.last())
    }
}

/// The line of a property, before it is encoded.
pub open spec fn property_line(key: Seq<char>, value: Seq<char>) -> Seq<char> {
    escaped(key) + "="@ + escaped(value) + "\n"@
}

/// The value of a property, empty where there is none.
pub open spec fn value_or_empty(value: Option<Seq<char>>) -> Seq<char> {
    match value {
        Some(value) => value,
        None => Seq::empty(),
    }
}

/// The properties, one line each, in their order, before they are encoded.
pub open spec fn properties_file(properties: Seq<(Seq<char>, Option<Seq<char>>)>) -> Seq<char>
    decreases properties.len(),
{
    if properties.len() == 0 {
        Seq::empty()
    } else {
        properties_file(properties.drop_last()) + property_line(
            properties.last().0,
            value_or_empty(properties.last().1),
        )
    }
}

/// Whether all keys and values are ASCII.
pub open spec fn all_ascii(properties: Seq<(Seq<char>, Option<Seq<char>>)>) -> bool {
    forall|i: int|
        0 <= i < properties.len() ==> utf8::is_ascii_chars((#[trigger] properties[i]).0)
            && utf8::is_ascii_chars(value_or_empty(properties[i].1))
}

/// The byte of a character in the encoding Windows-1252, where it has one.
pub open spec fn windows_1252(c: char) -> Option<u8> {
    let code = c as int;
    if code < 0x80 || 0xA0 <= code < 0x100 || code == 0x81 || code == 0x8D || code == 0x8F || code
        == 0x90 || code == 0x9D {
        Some(code as u8)
    } else if code == 0x20AC {
        Some(0x80u8)
    } else if code == 0x201A {
        Some(0x82u8)
    } else if code == 0x0192 {
        Some(0x83u8)
    } else if code == 0x201E {
        Some(0x84u8)
    } else if code == 0x2026 {
        Some(0x85u8)
    } else if code == 0x2020 {
        Some(0x86u8)
    } else if code == 0x2021 {
        Some(0x87u8)
    } else if code == 0x02C6 {
        Some(0x88u8)
    } else if code == 0x2030 {
        Some(0x89u8)
    } else if code == 0x0160 {
        Some(0x8Au8)
    } else if code == 0x2039 {
        Some(0x8Bu8)
    } else if code == 0x0152 {
        Some(0x8Cu8)
    } else if code == 0x017D {
        Some(0x8Eu8)
    } else if code == 0x2018 {
        Some(0x91u8)
    } else if code == 0x2019 {
        Some(0x92u8)
    } else if code == 0x201C {
        Some(0x93u8)
    } else if code == 0x201D {
        Some(0x94u8)
    } else if code == 0x2022 {
        Some(0x95u8)
    } else if code == 0x2013 {
        Some(0x96u8)
    } else if code == 0x2014 {
        Some(0x97u8)
    } else if code == 0x02DC {
        Some(0x98u8)
    } else if code == 0x2122 {
        Some(0x99u8)
    } else if code == 0x0161 {
        Some(0x9Au8)
    } else if code == 0x203A {
        Some(0x9Bu8)
    } else if code == 0x0153 {
        Some(0x9Cu8)
    } else if code == 0x017E {
        Some(0x9Eu8)
    } else if code == 0x0178 {
        Some(0x9Fu8)
    } else {
        None
    }
}

/// The lower-case hexadecimal digits of a number, without leading zeros.
pub open spec fn hexadecimal(n: nat) -> Seq<char>
    decreases n,
{
    if n < 16 {
        seq![hex_digit(n as int)]
    } else {
        hexadecimal(n / 16).push(hex_digit(n as int % 16))
    }
}

/// The bytes of a character: its byte in Windows-1252, or the number of the character as an
/// escape.
pub open spec fn encoded_char(c: char) -> Seq<u8> {
    match windows_1252(c) {
        Some(byte) => seq![byte],
        None => seq!['\\' as u8, 'u' as u8] + hexadecimal(c as nat).map_values(
            |digit: char| digit as u8,
        ),
    }
}

/// The bytes of a text.
pub open spec fn encoded(text: Seq<char>) -> Seq<u8>
    decreases text.len(),
{
    if text.len() == 0 {
        Seq::empty()
    } else {
        encoded(text.drop_last()) + encoded_char(text.last())
    }
}

/// Whether all characters of a text have a byte in Windows-1252.
pub open spec fn all_in_windows_1252(text: Seq<char>) -> bool {
    forall|i: int| 0 <= i < text.len() ==> windows_1252(#[trigger] text[i]).is_some()
}

/// The bytes for which the writer is sure to have room before it asks for more.
pub const SURE_ROOM: usize = 256;

/// Whether a key or a value is written whole whatever room the writer has.
pub open spec fn is_written_whole(text: Seq<char>) -> bool {
    all_in_windows_1252(text) || encoded(escaped(text)).len() <= SURE_ROOM
}

/// Whether bytes may be what is written for a property.
pub open spec fn may_be_line(property: (Seq<char>, Option<Seq<char>>), line: Seq<u8>) -> bool {
    is_written_whole(property.0) && is_written_whole(value_or_empty(property.1)) ==> line
        == encoded(property_line(property.0, value_or_empty(property.1)))
}

/// Whether lines may be what is written for properties, one for each.
pub open spec fn may_be_lines(
    properties: Seq<(Seq<char>, Option<Seq<char>>)>,
    lines: Seq<Seq<u8>>,
) -> bool {
    &&& lines.len() == properties.len()
    &&& forall|i: int|
        0 <= i < properties.len() ==> may_be_line(#[trigger] properties[i], lines[i])
}

/// The bytes of lines, one after the other.
pub open spec fn joined(lines: Seq<Seq<u8>>) -> Seq<u8>
    decreases lines.len(),
{
    if lines.len() == 0 {
        Seq::empty()
    } else {
        joined(lines.drop_last()) + lines.last()
    }
}

/// The text with the given bytes, where they are one.
pub open spec fn text_of(bytes: Seq<u8>) -> Option<Seq<char>> {
    if utf8::valid_utf8(bytes) {
        Some(utf8::decode_utf8(bytes))
    } else {
        None
    }
}

/// Whether a text may be the file of properties; none stands for bytes that are no text.
pub open spec fn may_be_file(
    properties: Seq<(Seq<char>, Option<Seq<char>>)>,
    file: Option<Seq<char>>,
) -> bool {
    exists|lines: Seq<Seq<u8>>| #[trigger]
        may_be_lines(properties, lines) && file == text_of(joined(lines))
}

/// Whether all keys and values are written whole whatever room the writer has.
pub open spec fn all_written_whole(properties: Seq<(Seq<char>, Option<Seq<char>>)>) -> bool {
    forall|i: int|
        0 <= i < properties.len() ==> is_written_whole((#[trigger] properties[i]).0)
            && is_written_whole(value_or_empty(properties[i].1))
}

/// Writes one property with `PropertiesWriter::write` of the `java_properties` crate and flushes.
///
/// The output is a vector, which takes all bytes, so writing does not fail. A key and a value are
/// escaped character by character and encoded in Windows-1252; a character outside of it becomes
/// an escape. The writer encodes into a buffer with room for at least 256 bytes, and makes more
/// room when a character does not fit, but an escape that does not fit is cut short. How much
/// room there is beyond those bytes the allocator decides, so nothing is claimed of a key or a
/// value that holds such a character and is longer.
#[verifier::external_body]
fn write_property(key: &str, value: &str) -> (bytes: Result<
    Vec<u8>,
    java_properties::PropertiesError,
>)
    ensures
        bytes.is_ok(),
        may_be_line((key@, Some(value@)), bytes.unwrap()@),
{
    let mut output = Vec::new();
    {
        let mut writer = java_properties::PropertiesWriter::new(&mut output);
        writer.write(key, value)?;
        writer.flush()?;
    }
    Ok(output)
}

/// Turns bytes into a string with [`String::from_utf8`]: it succeeds exactly on UTF-8, and the
/// string is the one with these bytes.
#[verifier::external_body]
fn string_from_utf8(bytes: Vec<u8>) -> (text: Result<String, std::string::FromUtf8Error>)
    ensures
        text.is_ok() == utf8::valid_utf8(bytes@),
        text.is_ok() ==> utf8::encode_utf8(text.unwrap()@) == bytes@,
{
    String::from_utf8(bytes)
}

/// The bytes of a text are the bytes of its parts.
proof fn lemma_encode_concat(a: Seq<char>, b: Seq<char>)
    ensures
        utf8::encode_utf8(a + b) == utf8::encode_utf8(a) + utf8::encode_utf8(b),
    decreases a.len(),
{
    if a.len() == 0 {
        assert(a + b =~= b);
        assert(utf8::encode_utf8(a) =~= Seq::empty());
        assert(utf8::encode_utf8(a) + utf8::encode_utf8(b) =~= utf8::encode_utf8(b));
    } else {
        assert((a + b).drop_first() =~= a.drop_first() + b);
        assert((a + b)[0] == a[0]);
        lemma_encode_concat(a.drop_first(), b);
        assert(utf8::encode_utf8(a + b) =~= utf8::encode_utf8(a) + utf8::encode_utf8(b));
    }
}

/// The encoding of a text is the encoding of its parts.
proof fn lemma_encoded_concat(a: Seq<char>, b: Seq<char>)
    ensures
        encoded(a + b) == encoded(a) + encoded(b),
    decreases b.len(),
{
    if b.len() == 0 {
        assert(a + b =~= a);
        assert(encoded(a) + encoded(b) =~= encoded(a));
    } else {
        assert((a + b).drop_last() =~= a + b.drop_last());
        assert((a + b).last() == b.last());
        lemma_encoded_concat(a, b.drop_last());
        assert(encoded(a + b) =~= encoded(a) + encoded(b));
    }
}

/// The encoding of an ASCII text is the one in UTF-8.
proof fn lemma_encoded_ascii(text: Seq<char>)
    requires
        utf8::is_ascii_chars(text),
    ensures
        encoded(text) == utf8::encode_utf8(text),
    decreases text.len(),
{
    if text.len() == 0 {
        assert(encoded(text) =~= utf8::encode_utf8(text));
    } else {
        let front = text.drop_last();
        let end = seq![text.last()];
        lemma_encoded_ascii(front);
        assert(text =~= front + end);
        lemma_encode_concat(front, end);
        assert(utf8::is_ascii_chars(end)) by {
            assert(end[0] == text[text.len() - 1]);
        }
        utf8::is_ascii_chars_encode_utf8(end);
        assert(utf8::encode_utf8(end) =~= encoded_char(text.last()));
    }
}

/// What is escaped of an ASCII text is ASCII.
proof fn lemma_escaped_ascii(text: Seq<char>)
    requires
        utf8::is_ascii_chars(text),
    ensures
        utf8::is_ascii_chars(escaped(text)),
    decreases text.len(),
{
    if text.len() > 0 {
        lemma_escaped_ascii(text.drop_last());
        let last = text[text.len() - 1];
        assert(utf8::is_ascii_chars(escaped_char(last)));
    }
}

/// The line of an ASCII property is ASCII, and the property is written whole.
proof fn lemma_ascii_line(key: Seq<char>, value: Seq<char>)
    requires
        utf8::is_ascii_chars(key),
        utf8::is_ascii_chars(value),
    ensures
        utf8::is_ascii_chars(property_line(key, value)),
        is_written_whole(key),
        is_written_whole(value),
{
    lemma_escaped_ascii(key);
    lemma_escaped_ascii(value);
    reveal_strlit("=");
    reveal_strlit("\n");
}

/// The file of ASCII properties is ASCII, and they are written whole.
proof fn lemma_ascii_file(properties: Seq<(Seq<char>, Option<Seq<char>>)>)
    requires
        all_ascii(properties),
    ensures
        utf8::is_ascii_chars(properties_file(properties)),
        all_written_whole(properties),
    decreases properties.len(),
{
    if properties.len() > 0 {
        let front = properties.drop_last();
        assert forall|i: int| 0 <= i < front.len() implies utf8::is_ascii_chars(
            (#[trigger] front[i]).0,
        ) && utf8::is_ascii_chars(value_or_empty(front[i].1)) by {
            assert(front[i] == properties[i]);
        }
        lemma_ascii_file(front);
        let last = properties[properties.len() - 1];
        lemma_ascii_line(last.0, value_or_empty(last.1));
        assert forall|i: int| 0 <= i < properties.len() implies is_written_whole(
            (#[trigger] properties[i]).0,
        ) && is_written_whole(value_or_empty(properties[i].1)) by {
            if i < front.len() {
                assert(front[i] == properties[i]);
            }
        }
    }
}

/// The lines of properties that are written whole are those of their file.
proof fn lemma_whole_lines(
    properties: Seq<(Seq<char>, Option<Seq<char>>)>,
    lines: Seq<Seq<u8>>,
)
    requires
        all_written_whole(properties),
        may_be_lines(properties, lines),
    ensures
        joined(lines) == encoded(properties_file(properties)),
    decreases properties.len(),
{
    if properties.len() > 0 {
        let front = properties.drop_last();
        let some = lines.drop_last();
        assert forall|i: int| 0 <= i < front.len() implies is_written_whole(
            (#[trigger] front[i]).0,
        ) && is_written_whole(value_or_empty(front[i].1)) && may_be_line(front[i], some[i]) by {
            assert(front[i] == properties[i]);
        }
        lemma_whole_lines(front, some);
        let last = properties[properties.len() - 1];
        lemma_encoded_concat(
            properties_file(front),
            property_line(last.0, value_or_empty(last.1)),
        );
    }
}

/// Properties whose keys and values are written whole have one file.
pub proof fn law_whole_properties_have_one_file(
    properties: Seq<(Seq<char>, Option<Seq<char>>)>,
    file: Option<Seq<char>>,
)
    requires
        all_written_whole(properties),
    ensures
        may_be_file(properties, file) <==> file == text_of(encoded(properties_file(properties))),
{
    let lines = Seq::new(
        properties.len(),
        |i: int| encoded(property_line(properties[i].0, value_or_empty(properties[i].1))),
    );
    assert(may_be_lines(properties, lines));
    lemma_whole_lines(properties, lines);
    if may_be_file(properties, file) {
        let found = choose|found: Seq<Seq<u8>>| #[trigger]
            may_be_lines(properties, found) && file == text_of(joined(found));
        lemma_whole_lines(properties, found);
    }
}

/// ASCII properties have one file: a line for each, with a key and a value that are escaped.
pub proof fn law_ascii_properties_have_one_file(
    properties: Seq<(Seq<char>, Option<Seq<char>>)>,
    file: Option<Seq<char>>,
)
    requires
        all_ascii(properties),
    ensures
        may_be_file(properties, file) <==> file == Some(properties_file(properties)),
{
    let text = properties_file(properties);
    lemma_ascii_file(properties);
    lemma_encoded_ascii(text);
    utf8::encode_utf8_valid_utf8(text);
    utf8::encode_utf8_decode_utf8(text);
    law_whole_properties_have_one_file(properties, file);
}

/// The text of a result, where there is one.
pub open spec fn written_text(result: Result<String, PropertiesWriterError>) -> Option<Seq<char>> {
    match result {
        Ok(text) => Some(text@),
        Err(_) => None,
    }
}

/// The file that is made of lines: the text with their bytes, one after the other.
pub fn file_of_lines(lines: &Vec<Vec<u8>>) -> (text: Result<String, PropertiesWriterError>)
    ensures
        written_text(text) == text_of(joined(lines.deep_view())),
        text.is_err() ==> text->Err_0 == PropertiesWriterError::FromUtf8,
{
    let ghost all = lines.deep_view();
    let mut output: Vec<u8> = Vec::new();
    let mut i: usize = 0;
    proof {
        assert(all.take(0) =~= Seq::empty());
    }
    while i < lines.len()
        invariant
            i <= lines.len(),
            all == lines.deep_view(),
            output@ == joined(all.take(i as int)),
        decreases lines.len() - i,
    {
        let mut line = lines[i].clone();
        let ghost written = output@;
        let ghost bytes = line@;
        output.append(&mut line);
        proof {
            let next = all.take(i + 1);
            assert(next.drop_last() =~= all.take(i as int));
            assert(bytes =~= all[i as int]);
            assert(output@ =~= written + bytes);
        }
        i = i + 1;
    }
    proof {
        assert(all.take(i as int) =~= all);
    }
    match string_from_utf8(output) {
        Ok(text) => {
            proof {
                utf8::encode_utf8_decode_utf8(text@);
            }
            Ok(text)
        },
        Err(_) => Err(PropertiesWriterError::FromUtf8),
    }
}

/// Creates a common Java properties file in the format `property_1=value_1\nproperty_2=value_2\n`.
/// A property without a value gets an empty one.
///
/// Writing succeeds for ASCII keys and values; for others the encoding of the file decides.
pub fn to_java_properties_string(properties: &Vec<(String, Option<String>)>) -> (text: Result<
    String,
    PropertiesWriterError,
>)
    ensures
        may_be_file(properties.deep_view(), written_text(text)),
        text.is_err() ==> text->Err_0 == PropertiesWriterError::FromUtf8,
        all_written_whole(properties.deep_view()) ==> written_text(text) == text_of(
            encoded(properties_file(properties.deep_view())),
        ),
        all_ascii(properties.deep_view()) ==> text.is_ok() && text.unwrap()@ == properties_file(
            properties.deep_view(),
        ),
{
    let ghost all = properties.deep_view();
    let mut lines: Vec<Vec<u8>> = empty_list();
    let mut i: usize = 0;
    while i < properties.len()
        invariant
            i <= properties.len(),
            all == properties.deep_view(),
            lines.deep_view().len() == i,
            forall|j: int| 0 <= j < i ==> may_be_line(#[trigger] all[j], lines.deep_view()[j]),
        decreases properties.len() - i,
    {
        let property = &properties[i];
        proof {
            assert(all[i as int] == property.deep_view());
        }
        let value: &str = match &property.1 {
            Some(value) => value.as_str(),
            None => "",
        };
        proof {
            reveal_strlit("");
            assert(value@ =~= value_or_empty(all[i as int].1));
        }
        let line = match write_property(property.0.as_str(), value) {
            Ok(line) => line,
            Err(_) => {
                return Err(PropertiesWriterError::Properties);
            },
        };
        proof {
            assert(line.deep_view() =~= line@);
        }
        add_item(&mut lines, line);
        i = i + 1;
    }
    let text = file_of_lines(&lines);
    proof {
        assert(may_be_lines(all, lines.deep_view()));
        if all_written_whole(all) {
            law_whole_properties_have_one_file(all, written_text(text));
        }
        if all_ascii(all) {
            law_ascii_properties_have_one_file(all, written_text(text));
        }
    }
    text
}

} // verus!
