//! How a Java `.properties` file is read, and that reading undoes writing.

use crate::framework::writer;
use vstd::prelude::*;
use vstd::utf8;

verus! {

/// The part of a line that is being read.
pub enum Place {
    Key,
    /// White space after the key: the separator may still come.
    AfterKey,
    /// White space after the separator.
    AfterSeparator,
    Value,
}

/// Where the reader stands.
pub enum Phase {
    /// At the start of a line, or in white space before its key.
    LineStart,
    Comment,
    In { place: Place },
    /// After a backslash.
    Escape { place: Place },
    /// In the hexadecimal digits of a character.
    Unicode { place: Place, code: int, left: int },
    /// At the start of a line that continues the one before, or in white space there.
    Continuation { place: Place, after_carriage_return: bool },
    /// After an escape that stands for no character.
    Malformed,
}

/// What has been read so far.
#[verifier::ext_equal]
pub struct Reader {
    /// The entries of the lines before.
    pub entries: Seq<(Seq<char>, Seq<char>)>,
    /// The key and the value of this line.
    pub key: Seq<char>,
    pub value: Seq<char>,
    pub phase: Phase,
}

/// Whether a character is white space within a line.
pub open spec fn is_blank(c: char) -> bool {
    c == ' ' || c == '\t' || c as int == 12
}

/// Whether a character ends a line.
pub open spec fn ends_line(c: char) -> bool {
    c == '\n' || c == '\r'
}

/// The value of a hexadecimal digit.
pub open spec fn hex_value(c: char) -> Option<int> {
    if '0' <= c <= '9' {
        Some(c as int - '0' as int)
    } else if 'a' <= c <= 'f' {
        Some(c as int - 'a' as int + 10)
    } else if 'A' <= c <= 'F' {
        Some(c as int - 'A' as int + 10)
    } else {
        None
    }
}

/// The character that an escaped letter stands for.
pub open spec fn unescaped(c: char) -> char {
    if c == 't' {
        '\t'
    } else if c == 'n' {
        '\n'
    } else if c == 'r' {
        '\r'
    } else if c == 'f' {
        12u8 as char
    } else {
        c
    }
}

impl Reader {
    /// The reader before the first character.
    pub open spec fn start() -> Reader {
        Reader {
            entries: Seq::empty(),
            key: Seq::empty(),
            value: Seq::empty(),
            phase: Phase::LineStart,
        }
    }

    /// The same in another phase.
    pub open spec fn to(self, phase: Phase) -> Reader {
        Reader { phase, ..self }
    }

    /// The line has ended.
    pub open spec fn line_read(self) -> Reader {
        Reader {
            entries: self.entries.push((self.key, self.value)),
            key: Seq::empty(),
            value: Seq::empty(),
            phase: Phase::LineStart,
        }
    }

    /// A character that stands for itself belongs to the key or to the value.
    pub open spec fn with_char(self, place: Place, c: char) -> Reader {
        match place {
            Place::Key => Reader {
                key: self.key.push(c),
                phase: Phase::In { place: Place::Key },
                ..self
            },
            _ => Reader {
                value: self.value.push(c),
                phase: Phase::In { place: Place::Value },
                ..self
            },
        }
    }

    /// A character in a line, not after a backslash. The key ends at the first separator or white
    /// space; white space around the separator does not count.
    pub open spec fn in_line(self, place: Place, c: char) -> Reader {
        if ends_line(c) {
            self.line_read()
        } else if c == '\\' {
            self.to(Phase::Escape { place })
        } else if place == Place::Value {
            self.with_char(place, c)
        } else if is_blank(c) {
            self.to(
                Phase::In { place: if place == Place::Key { Place::AfterKey } else { place } },
            )
        } else if (c == '=' || c == ':') && place != Place::AfterSeparator {
            self.to(Phase::In { place: Place::AfterSeparator })
        } else {
            self.with_char(place, c)
        }
    }

    /// What has been read after one more character.
    pub open spec fn after(self, c: char) -> Reader {
        match self.phase {
            Phase::LineStart => if is_blank(c) || ends_line(c) {
                self
            } else if c == '#' || c == '!' {
                self.to(Phase::Comment)
            } else {
                self.in_line(Place::Key, c)
            },
            Phase::Comment => if ends_line(c) {
                self.to(Phase::LineStart)
            } else {
                self
            },
            Phase::In { place } => self.in_line(place, c),
            Phase::Escape { place } => if ends_line(c) {
                self.to(Phase::Continuation { place, after_carriage_return: c == '\r' })
            } else if c == 'u' {
                self.to(Phase::Unicode { place, code: 0, left: 4 })
            } else {
                self.with_char(place, unescaped(c))
            },
            Phase::Unicode { place, code, left } => match hex_value(c) {
                None => self.to(Phase::Malformed),
                Some(digit) => {
                    let next = 16 * code + digit;
                    if left > 1 {
                        self.to(Phase::Unicode { place, code: next, left: left - 1 })
                    } else if 0xD800 <= next <= 0xDFFF {
                        self.to(Phase::Malformed)
                    } else {
                        self.with_char(place, next as char)
                    }
                },
            },
            Phase::Continuation { place, after_carriage_return } => if is_blank(c) || (c == '\n'
                && after_carriage_return) {
                self.to(Phase::Continuation { place, after_carriage_return: false })
            } else {
                self.in_line(place, c)
            },
            Phase::Malformed => self,
        }
    }

    /// What has been read after a text.
    pub open spec fn after_text(self, text: Seq<char>) -> Reader
        decreases text.len(),
    {
        if text.len() == 0 {
            self
        } else {
            self.after_text(text.drop_last()).after(text.last())
        }
    }

    /// The entries at the end of the file, whose last line need not be ended; nothing where an
    /// escape stands for no character.
    pub open spec fn finished(self) -> Option<Seq<(Seq<char>, Seq<char>)>> {
        match self.phase {
            Phase::Malformed => None,
            Phase::Unicode { .. } => None,
            Phase::LineStart => Some(self.entries),
            Phase::Comment => Some(self.entries),
            _ => Some(self.line_read().entries),
        }
    }
}

/// The entries of a properties file, in the order of its lines.
pub open spec fn read_entries(text: Seq<char>) -> Option<Seq<(Seq<char>, Seq<char>)>> {
    Reader::start().after_text(text).finished()
}

/// The properties of some entries: the last entry of a key counts.
pub open spec fn properties_of(entries: Seq<(Seq<char>, Seq<char>)>) -> Map<Seq<char>, Seq<char>>
    decreases entries.len(),
{
    if entries.len() == 0 {
        Map::empty()
    } else {
        properties_of(entries.drop_last()).insert(entries.last().0, entries.last().1)
    }
}

/// The properties that a file gives to those who read it.
pub open spec fn read_properties(text: Seq<char>) -> Option<Map<Seq<char>, Seq<char>>> {
    match read_entries(text) {
        Some(entries) => Some(properties_of(entries)),
        None => None,
    }
}

/// Whether all characters of a text are printable ASCII characters.
pub open spec fn is_printable(text: Seq<char>) -> bool {
    forall|i: int| 0 <= i < text.len() ==> ' ' <= #[trigger] text[i] <= '~'
}

/// Properties, with an empty value where there is none.
pub open spec fn filled(properties: Seq<(Seq<char>, Option<Seq<char>>)>) -> Seq<
    (Seq<char>, Seq<char>),
> {
    properties.map_values(
        |property: (Seq<char>, Option<Seq<char>>)|
            (property.0, writer::value_or_empty(property.1)),
    )
}

/// Whether all keys and values are printable ASCII.
pub open spec fn all_printable(properties: Seq<(Seq<char>, Option<Seq<char>>)>) -> bool {
    forall|i: int|
        0 <= i < properties.len() ==> is_printable((#[trigger] properties[i]).0) && is_printable(
            writer::value_or_empty(properties[i].1),
        )
}

/// Whether no key occurs twice.
pub open spec fn distinct_keys(properties: Seq<(Seq<char>, Option<Seq<char>>)>) -> bool {
    forall|i: int, j: int|
        0 <= i < j < properties.len() ==> (#[trigger] properties[i]).0 != (
        #[trigger] properties[j]).0
}

/// Whether a text is one line, with its end.
pub open spec fn is_line(text: Seq<char>) -> bool {
    &&& text.len() > 0
    &&& text.last() == '\n'
    &&& forall|i: int| 0 <= i < text.len() - 1 ==> !ends_line(#[trigger] text[i])
}

/// Reading a text is reading its parts.
proof fn lemma_after_concat(reader: Reader, a: Seq<char>, b: Seq<char>)
    ensures
        reader.after_text(a + b) == reader.after_text(a).after_text(b),
    decreases b.len(),
{
    if b.len() == 0 {
        assert(a + b =~= a);
    } else {
        assert((a + b).drop_last() =~= a + b.drop_last());
        lemma_after_concat(reader, a, b.drop_last());
    }
}

/// Reading one character, or two.
proof fn lemma_after_short(reader: Reader, c: char, d: char)
    ensures
        reader.after_text(seq![c]) == reader.after(c),
        reader.after_text(seq![c, d]) == reader.after(c).after(d),
{
    reveal_with_fuel(Reader::after_text, 3);
    assert(seq![c].drop_last() =~= Seq::empty());
    assert(seq![c, d].drop_last() =~= seq![c]);
}

/// An escaped key is read as the key.
proof fn lemma_key_is_read(reader: Reader, key: Seq<char>)
    requires
        reader.phase == Phase::LineStart,
        reader.key == Seq::<char>::empty(),
        is_printable(key),
    ensures
        reader.after_text(writer::escaped(key)) == (if key.len() == 0 {
            reader
        } else {
            Reader { key, phase: Phase::In { place: Place::Key }, ..reader }
        }),
    decreases key.len(),
{
    if key.len() > 0 {
        let front = key.drop_last();
        let c = key.last();
        assert(' ' <= key[key.len() - 1] <= '~');
        assert(is_printable(front)) by {
            assert forall|i: int| 0 <= i < front.len() implies ' ' <= #[trigger] front[i]
                <= '~' by {
                assert(front[i] == key[i]);
            }
        }
        lemma_key_is_read(reader, front);
        lemma_after_concat(reader, writer::escaped(front), writer::escaped_char(c));
        let before = reader.after_text(writer::escaped(front));
        lemma_after_short(before, c, c);
        lemma_after_short(before, '\\', c);
        assert(before.key == front);
        assert(front.push(c) =~= key);
        assert(before.after_text(writer::escaped_char(c)) =~= Reader {
            key,
            phase: Phase::In { place: Place::Key },
            ..reader
        });
    }
}

/// An escaped value is read as the value.
proof fn lemma_value_is_read(reader: Reader, value: Seq<char>)
    requires
        reader.phase == (Phase::In { place: Place::AfterSeparator }),
        reader.value == Seq::<char>::empty(),
        is_printable(value),
    ensures
        reader.after_text(writer::escaped(value)) == (if value.len() == 0 {
            reader
        } else {
            Reader { value, phase: Phase::In { place: Place::Value }, ..reader }
        }),
    decreases value.len(),
{
    if value.len() > 0 {
        let front = value.drop_last();
        let c = value.last();
        assert(' ' <= value[value.len() - 1] <= '~');
        assert(is_printable(front)) by {
            assert forall|i: int| 0 <= i < front.len() implies ' ' <= #[trigger] front[i]
                <= '~' by {
                assert(front[i] == value[i]);
            }
        }
        lemma_value_is_read(reader, front);
        lemma_after_concat(reader, writer::escaped(front), writer::escaped_char(c));
        let before = reader.after_text(writer::escaped(front));
        lemma_after_short(before, c, c);
        lemma_after_short(before, '\\', c);
        assert(before.value == front);
        assert(front.push(c) =~= value);
        assert(before.after_text(writer::escaped_char(c)) =~= Reader {
            value,
            phase: Phase::In { place: Place::Value },
            ..reader
        });
    }
}

/// The line of a property is read as the property.
proof fn lemma_line_is_read(reader: Reader, key: Seq<char>, value: Seq<char>)
    requires
        reader.phase == Phase::LineStart,
        reader.key == Seq::<char>::empty(),
        reader.value == Seq::<char>::empty(),
        is_printable(key),
        is_printable(value),
    ensures
        reader.after_text(writer::property_line(key, value)) == (Reader {
            entries: reader.entries.push((key, value)),
            ..reader
        }),
{
    let written_key = writer::escaped(key);
    let written_value = writer::escaped(value);
    reveal_strlit("=");
    reveal_strlit("\n");
    assert("="@ =~= seq!['=']);
    assert("\n"@ =~= seq!['\n']);
    lemma_key_is_read(reader, key);
    lemma_after_concat(reader, written_key, "="@);
    let after_key = reader.after_text(written_key);
    lemma_after_short(after_key, '=', '=');
    let after_separator = reader.after_text(written_key + "="@);
    assert(after_separator =~= Reader {
        key,
        phase: Phase::In { place: Place::AfterSeparator },
        ..reader
    });
    lemma_value_is_read(after_separator, value);
    lemma_after_concat(reader, written_key + "="@, written_value);
    let after_value = reader.after_text(written_key + "="@ + written_value);
    lemma_after_concat(reader, written_key + "="@ + written_value, "\n"@);
    lemma_after_short(after_value, '\n', '\n');
    assert(after_value.value =~= value);
}

/// Written properties are read back, whatever was read before.
proof fn lemma_file_is_read(properties: Seq<(Seq<char>, Option<Seq<char>>)>)
    requires
        all_printable(properties),
    ensures
        Reader::start().after_text(writer::properties_file(properties)) == (Reader {
            entries: filled(properties),
            ..Reader::start()
        }),
    decreases properties.len(),
{
    if properties.len() == 0 {
        assert(filled(properties) =~= Seq::empty());
    } else {
        let front = properties.drop_last();
        let last = properties.last();
        assert(all_printable(front)) by {
            assert forall|i: int| 0 <= i < front.len() implies is_printable(
                (#[trigger] front[i]).0,
            ) && is_printable(writer::value_or_empty(front[i].1)) by {
                assert(front[i] == properties[i]);
            }
        }
        lemma_file_is_read(front);
        let value = writer::value_or_empty(last.1);
        assert(is_printable(properties[properties.len() - 1].0));
        lemma_after_concat(
            Reader::start(),
            writer::properties_file(front),
            writer::property_line(last.0, value),
        );
        lemma_line_is_read(
            Reader::start().after_text(writer::properties_file(front)),
            last.0,
            value,
        );
        assert(filled(properties) =~= filled(front).push((last.0, value)));
    }
}

/// Where no key occurs twice, each one has the value of its entry.
proof fn lemma_properties_of(properties: Seq<(Seq<char>, Option<Seq<char>>)>)
    requires
        distinct_keys(properties),
    ensures
        forall|key: Seq<char>|
            #![trigger properties_of(filled(properties)).dom().contains(key)]
            properties_of(filled(properties)).dom().contains(key) <==> exists|i: int|
                0 <= i < properties.len() && (#[trigger] properties[i]).0 == key,
        forall|i: int|
            0 <= i < properties.len() ==> properties_of(filled(properties))[(
            #[trigger] properties[i]).0] == writer::value_or_empty(properties[i].1),
    decreases properties.len(),
{
    if properties.len() == 0 {
        assert(filled(properties) =~= Seq::empty());
    } else {
        let front = properties.drop_last();
        let last = properties.last();
        assert(filled(properties).drop_last() =~= filled(front));
        assert(filled(properties).last() == (last.0, writer::value_or_empty(last.1)));
        assert(distinct_keys(front)) by {
            assert forall|i: int, j: int| 0 <= i < j < front.len() implies (
            #[trigger] front[i]).0 != (#[trigger] front[j]).0 by {
                assert(front[i] == properties[i] && front[j] == properties[j]);
            }
        }
        lemma_properties_of(front);
        let before = properties_of(filled(front));
        assert forall|key: Seq<char>|
            #![trigger properties_of(filled(properties)).dom().contains(key)]
            properties_of(filled(properties)).dom().contains(key) <==> exists|i: int|
                0 <= i < properties.len() && (#[trigger] properties[i]).0 == key by {
            if before.dom().contains(key) {
                let i = choose|i: int| 0 <= i < front.len() && (#[trigger] front[i]).0 == key;
                assert(properties[i].0 == key);
            }
            if key == last.0 {
                assert(properties[properties.len() - 1].0 == key);
            }
            if exists|i: int| 0 <= i < properties.len() && (#[trigger] properties[i]).0 == key {
                let i = choose|i: int|
                    0 <= i < properties.len() && (#[trigger] properties[i]).0 == key;
                if i < front.len() {
                    assert(front[i].0 == key);
                    assert(before.dom().contains(key));
                }
            }
        }
        assert forall|i: int| 0 <= i < properties.len() implies properties_of(filled(properties))[(
        #[trigger] properties[i]).0] == writer::value_or_empty(properties[i].1) by {
            if i < front.len() {
                assert(front[i] == properties[i]);
                assert(properties[i].0 != properties[properties.len() - 1].0);
            }
        }
    }
}

/// Escaping leaves nothing that ends a line.
proof fn lemma_escaped_stays_in_line(text: Seq<char>)
    requires
        is_printable(text),
    ensures
        forall|i: int|
            0 <= i < writer::escaped(text).len() ==> !ends_line(
                #[trigger] writer::escaped(text)[i],
            ),
    decreases text.len(),
{
    if text.len() > 0 {
        let front = text.drop_last();
        assert(' ' <= text[text.len() - 1] <= '~');
        assert(is_printable(front)) by {
            assert forall|i: int| 0 <= i < front.len() implies ' ' <= #[trigger] front[i]
                <= '~' by {
                assert(front[i] == text[i]);
            }
        }
        lemma_escaped_stays_in_line(front);
        let last = writer::escaped_char(text.last());
        assert forall|i: int| 0 <= i < writer::escaped(text).len() implies !ends_line(
            #[trigger] writer::escaped(text)[i],
        ) by {
            let before = writer::escaped(front);
            if i < before.len() {
                assert(writer::escaped(text)[i] == before[i]);
            } else {
                assert(writer::escaped(text)[i] == last[i - before.len()]);
            }
        }
    }
}

/// The line of a property is one line.
proof fn lemma_property_is_one_line(key: Seq<char>, value: Seq<char>)
    requires
        is_printable(key),
        is_printable(value),
    ensures
        is_line(writer::property_line(key, value)),
{
    reveal_strlit("=");
    reveal_strlit("\n");
    lemma_escaped_stays_in_line(key);
    lemma_escaped_stays_in_line(value);
    let line = writer::property_line(key, value);
    let written_key = writer::escaped(key);
    let written_value = writer::escaped(value);
    assert(line.last() == '\n');
    assert forall|i: int| 0 <= i < line.len() - 1 implies !ends_line(#[trigger] line[i]) by {
        if i < written_key.len() {
            assert(line[i] == written_key[i]);
        } else if i == written_key.len() {
            assert(line[i] == '=');
        } else {
            assert(line[i] == written_value[i - written_key.len() - 1]);
        }
    }
}

/// Whatever is written of properties gives them back: there is a file, and reading it gives one entry for each property, in
/// their order, with an empty value where there was none. Where no key occurs twice, it gives every
/// key its value, and no other key. Each property has one line of its own.
pub proof fn law_written_properties_are_read_back(
    properties: Seq<(Seq<char>, Option<Seq<char>>)>,
    file: Option<Seq<char>>,
)
    requires
        all_printable(properties),
        writer::may_be_file(properties, file),
    ensures
        writer::all_ascii(properties),
        file == Some(writer::properties_file(properties)),
        read_entries(file.unwrap()) == Some(filled(properties)),
        distinct_keys(properties) ==> (read_properties(file.unwrap()) matches Some(read) && (forall|key: Seq<char>| #[trigger]
            read.dom().contains(key) <==> exists|i: int|
                0 <= i < properties.len() && (#[trigger] properties[i]).0 == key) && (forall|i: int|
            0 <= i < properties.len() ==> read[(#[trigger] properties[i]).0]
                == writer::value_or_empty(properties[i].1))),
        forall|i: int|
            0 <= i < properties.len() ==> is_line(
                writer::property_line(
                    (#[trigger] properties[i]).0,
                    writer::value_or_empty(properties[i].1),
                ),
            ),
{
    assert forall|i: int| 0 <= i < properties.len() implies utf8::is_ascii_chars(
        (#[trigger] properties[i]).0,
    ) && utf8::is_ascii_chars(writer::value_or_empty(properties[i].1)) by {
        let key = properties[i].0;
        let value = writer::value_or_empty(properties[i].1);
        assert(is_printable(key) && is_printable(value));
    }
    writer::law_ascii_properties_have_one_file(properties, file);
    lemma_file_is_read(properties);
    if distinct_keys(properties) {
        lemma_properties_of(properties);
    }
    assert forall|i: int| 0 <= i < properties.len() implies is_line(
        writer::property_line(
            (#[trigger] properties[i]).0,
            writer::value_or_empty(properties[i].1),
        ),
    ) by {
        lemma_property_is_one_line(properties[i].0, writer::value_or_empty(properties[i].1));
    }
}

} // verus!
