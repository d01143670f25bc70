//! The wire form of a tick: each segment a JSON object, the tick an array of
//! them. Strings are quoted by `serde_json`; the framing is done here.

use crate::status::present;
use crate::status::Markup;
use crate::status::Status;
use crate::status::StatusData;
use crate::status::StatusDataView;
use vstd::prelude::*;

verus! {

/// The lower-case hexadecimal digit of `n`.
pub open spec fn hex_digit(n: nat) -> char
    recommends
        n < 16,
{
    if n == 0 {
        '0'
    } else if n == 1 {
        '1'
    } else if n == 2 {
        '2'
    } else if n == 3 {
        '3'
    } else if n == 4 {
        '4'
    } else if n == 5 {
        '5'
    } else if n == 6 {
        '6'
    } else if n == 7 {
        '7'
    } else if n == 8 {
        '8'
    } else if n == 9 {
        '9'
    } else if n == 10 {
        'a'
    } else if n == 11 {
        'b'
    } else if n == 12 {
        'c'
    } else if n == 13 {
        'd'
    } else if n == 14 {
        'e'
    } else {
        'f'
    }
}

/// One character as it stands inside a JSON string: the quote, the
/// backslash and the control characters below U+0020 are escaped, the short
/// escapes where JSON has one; every other character stands for itself.
pub open spec fn escaped_char(c: char) -> Seq<char> {
    if c == '"' {
        seq!['\\', '"']
    } else if c == '\\' {
        seq!['\\', '\\']
    } else if c == '\u{8}' {
        seq!['\\', 'b']
    } else if c == '\u{9}' {
        seq!['\\', 't']
    } else if c == '\u{a}' {
        seq!['\\', 'n']
    } else if c == '\u{c}' {
        seq!['\\', 'f']
    } else if c == '\u{d}' {
        seq!['\\', 'r']
    } else if (c as u32) < 0x20 {
        seq!['\\', 'u', '0', '0', hex_digit((c as u32 / 16) as nat), hex_digit((c as u32 % 16) as nat)]
    } else {
        seq![c]
    }
}

/// The characters of `s` as they stand inside a JSON string.
pub open spec fn escaped(s: Seq<char>) -> Seq<char>
    decreases s.len(),
{
    if s.len() == 0 {
        Seq::empty()
    } else {
        escaped(s.drop_last()) + escaped_char(s.last())
    }
}

/// `s` as a JSON string: escaped, between two quotes.
pub open spec fn quoted(s: Seq<char>) -> Seq<char> {
    seq!['"'] + escaped(s) + seq!['"']
}

/// The parts with `separator` between each two of them.
pub open spec fn joined(parts: Seq<Seq<char>>, separator: Seq<char>) -> Seq<char>
    decreases parts.len(),
{
    if parts.len() == 0 {
        Seq::empty()
    } else if parts.len() == 1 {
        parts[0]
    } else {
        joined(parts.drop_last(), separator) + separator + parts.last()
    }
}

/// A member of an object: the key as a string, `:`, and the value, which
/// is a JSON text already.
pub open spec fn member(key: Seq<char>, value: Seq<char>) -> Seq<char> {
    quoted(key) + seq![':'] + value
}

/// The members of the object of a segment from its parts, each string
/// already quoted: `name`, `color`, `markup` and `full_text` in this order,
/// `color` left out where the segment has none.
pub open spec fn object_members(
    name: Seq<char>,
    color: Option<Seq<char>>,
    markup: Markup,
    full_text: Seq<char>,
) -> Seq<Seq<char>> {
    let front = seq![member("name"@, name)];
    let front = match color {
        Some(c) => front.push(member("color"@, c)),
        None => front,
    };
    front.push(member("markup"@, quoted(markup.word()))).push(member("full_text"@, full_text))
}

/// The object of a segment from its parts: the members with `,` between
/// them, in braces.
pub open spec fn object_text(
    name: Seq<char>,
    color: Option<Seq<char>>,
    markup: Markup,
    full_text: Seq<char>,
) -> Seq<char> {
    seq!['{'] + joined(object_members(name, color, markup, full_text), seq![',']) + seq!['}']
}

/// The JSON object of a segment.
pub open spec fn item_json(item: StatusDataView) -> Seq<char> {
    object_text(
        quoted(item.name),
        match item.color {
            Some(c) => Some(quoted(c)),
            None => None,
        },
        item.markup,
        quoted(item.full_text),
    )
}

/// The JSON objects of the segments, in their order.
pub open spec fn objects(items: Seq<StatusDataView>) -> Seq<Seq<char>> {
    items.map_values(|item: StatusDataView| item_json(item))
}

/// The JSON array of a tick: the objects of its segments with `,` between
/// them. A segment that is empty is left out.
pub open spec fn tick_json(items: Seq<StatusDataView>) -> Seq<char> {
    seq!['['] + joined(objects(present(items)), seq![',']) + seq![']']
}

/// Why a tick has no wire form.
#[derive(Debug, Clone, Copy, PartialEq, Eq, Structural)]
pub enum EncodeError {
    /// The serializer refused a string.
    Serialize,
}

#[verifier::external_type_specification]
#[verifier::external_body]
pub struct ExSerdeJsonError(serde_json::Error);

/// `serde_json::to_string` on a string slice. The result is the slice as a
/// JSON string: between two quotes, with the quote, the backslash and the
/// control characters below U+0020 escaped (`\"`, `\\`, `\b`, `\t`, `\n`,
/// `\f`, `\r`, else `\u00` and two lower-case hexadecimal digits) and every
/// other character as it is.
///
/// On a string slice the call succeeds. It fails only where the value's own
/// serializing fails or a map has a key that is no string; a string slice
/// hands itself to the serializer as it is and holds no map, and the
/// serializer writes it into a byte vector, which takes every write.
#[verifier::external_body]
fn to_json_string(s: &str) -> (out: Result<String, serde_json::Error>)
    ensures
        out is Ok,
        out matches Ok(text) ==> text@ == quoted(s@),
{
    serde_json::to_string(s)
}

/// Quotes `s` as a JSON string. Every string can be quoted.
pub fn quote(s: &str) -> (out: Result<String, EncodeError>)
    ensures
        out matches Ok(text) && text@ == quoted(s@),
{
    match to_json_string(s) {
        Ok(text) => Ok(text),
        Err(_) => Err(EncodeError::Serialize),
    }
}

/// Whether the character stands for itself inside a JSON string.
pub open spec fn is_plain(c: char) -> bool {
    c != '"' && c != '\\' && (c as u32) >= 0x20
}

/// A string of plain characters is quoted by the two quotes alone.
pub proof fn lemma_quoted_plain(s: Seq<char>)
    requires
        forall|i: int| 0 <= i < s.len() ==> is_plain(#[trigger] s[i]),
    ensures
        escaped(s) == s,
        quoted(s) == seq!['"'] + s + seq!['"'],
    decreases s.len(),
{
    if s.len() > 0 {
        lemma_quoted_plain(s.drop_last());
        assert(is_plain(s[s.len() - 1]));
        assert(escaped(s) =~= s);
    }
}

/// The word of a markup kind as a JSON string.
pub fn markup_json(markup: Markup) -> (text: &'static str)
    ensures
        text@ == quoted(markup.word()),
{
    proof {
        reveal_strlit("none");
        reveal_strlit("pango");
        reveal_strlit("\"none\"");
        reveal_strlit("\"pango\"");
        lemma_quoted_plain("none"@);
        lemma_quoted_plain("pango"@);
    }
    let text = match markup {
        Markup::Plain => "\"none\"",
        Markup::Pango => "\"pango\"",
    };
    assert(text@ =~= quoted(markup.word()));
    text
}

/// Appends one member to an object that is being written.
fn append_member(
    out: &mut String,
    first: bool,
    label: &str,
    value: &str,
    Ghost(done): Ghost<Seq<Seq<char>>>,
    Ghost(key): Ghost<Seq<char>>,
)
    requires
        old(out)@ == seq!['{'] + joined(done, seq![',']),
        first == (done.len() == 0),
        label@ == quoted(key) + seq![':'],
    ensures
        final(out)@ == seq!['{'] + joined(done.push(member(key, value@)), seq![',']),
{
    proof {
        reveal_strlit(",");
        lemma_joined_push(done, seq![','], member(key, value@));
    }
    if !first {
        out.append(",");
    }
    out.append(label);
    out.append(value);
    assert(out@ =~= seq!['{'] + joined(done.push(member(key, value@)), seq![',']));
}

proof fn lemma_labels()
    ensures
        "\"name\":"@ == quoted("name"@) + seq![':'],
        "\"color\":"@ == quoted("color"@) + seq![':'],
        "\"markup\":"@ == quoted("markup"@) + seq![':'],
        "\"full_text\":"@ == quoted("full_text"@) + seq![':'],
{
    reveal_strlit("name");
    reveal_strlit("color");
    reveal_strlit("markup");
    reveal_strlit("full_text");
    reveal_strlit("\"name\":");
    reveal_strlit("\"color\":");
    reveal_strlit("\"markup\":");
    reveal_strlit("\"full_text\":");
    lemma_quoted_plain("name"@);
    lemma_quoted_plain("color"@);
    lemma_quoted_plain("markup"@);
    lemma_quoted_plain("full_text"@);
    assert("\"name\":"@ =~= quoted("name"@) + seq![':']);
    assert("\"color\":"@ =~= quoted("color"@) + seq![':']);
    assert("\"markup\":"@ =~= quoted("markup"@) + seq![':']);
    assert("\"full_text\":"@ =~= quoted("full_text"@) + seq![':']);
}

/// Frames the object of a segment from its parts, each string already quoted.
pub fn object_of(name: &str, color: Option<&str>, markup: Markup, full_text: &str) -> (out: String)
    ensures
        out@ == object_text(
            name@,
            match color {
                Some(c) => Some(c@),
                None => None,
            },
            markup,
            full_text@,
        ),
{
    let mut out = String::from_str("{");
    let ghost mut done: Seq<Seq<char>> = Seq::empty();
    proof {
        reveal_strlit("{");
        lemma_labels();
        assert(out@ =~= seq!['{'] + joined(done, seq![',']));
    }
    append_member(&mut out, true, "\"name\":", name, Ghost(done), Ghost("name"@));
    proof {
        done = done.push(member("name"@, name@));
        assert(done =~= seq![member("name"@, name@)]);
    }
    if let Some(c) = color {
        append_member(&mut out, false, "\"color\":", c, Ghost(done), Ghost("color"@));
        proof {
            done = done.push(member("color"@, c@));
        }
    }
    append_member(
        &mut out,
        false,
        "\"markup\":",
        markup_json(markup),
        Ghost(done),
        Ghost("markup"@),
    );
    proof {
        done = done.push(member("markup"@, quoted(markup.word())));
    }
    append_member(&mut out, false, "\"full_text\":", full_text, Ghost(done), Ghost("full_text"@));
    proof {
        done = done.push(member("full_text"@, full_text@));
        reveal_strlit("}");
    }
    out.append("}");
    out
}

/// Encodes a segment as a JSON object. Every segment has one.
pub fn encode_item(item: &StatusData) -> (out: Result<String, EncodeError>)
    ensures
        out matches Ok(text) && text@ == item_json(item@),
{
    let name = match quote(item.name.as_str()) {
        Ok(text) => text,
        Err(e) => {
            return Err(e);
        },
    };
    let full_text = match quote(item.full_text.as_str()) {
        Ok(text) => text,
        Err(e) => {
            return Err(e);
        },
    };
    match &item.color {
        Some(c) => {
            let color = match quote(c.as_str()) {
                Ok(text) => text,
                Err(e) => {
                    return Err(e);
                },
            };
            Ok(object_of(name.as_str(), Some(color.as_str()), item.markup, full_text.as_str()))
        },
        None => Ok(object_of(name.as_str(), None, item.markup, full_text.as_str())),
    }
}

/// Encodes the segments of a tick as a JSON array, leaving out those that
/// are empty. Every tick has one.
pub fn encode_tick(status: &Status) -> (out: Result<String, EncodeError>)
    ensures
        out matches Ok(text) && text@ == tick_json(status@),
{
    let mut out = String::from_str("[");
    let ghost mut done: Seq<Seq<char>> = Seq::empty();
    proof {
        reveal_strlit("[");
        assert(out@ =~= seq!['['] + joined(done, seq![',']));
        assert(status@.take(0) =~= Seq::empty());
    }
    let mut first = true;
    let mut i: usize = 0;
    while i < status.data.len()
        invariant
            i <= status.data.len(),
            done == objects(present(status@.take(i as int))),
            first == (done.len() == 0),
            out@ == seq!['['] + joined(done, seq![',']),
        decreases status.data.len() - i,
    {
        proof {
            assert(status@.take(i + 1).drop_last() =~= status@.take(i as int));
            assert(status@.take(i + 1).last() == status.data@[i as int]@);
        }
        if !status.data[i].is_empty() {
            let object = match encode_item(&status.data[i]) {
                Ok(text) => text,
                Err(e) => {
                    return Err(e);
                },
            };
            proof {
                reveal_strlit(",");
                lemma_joined_push(done, seq![','], object@);
            }
            if !first {
                out.append(",");
            }
            out.append(object.as_str());
            proof {
                assert(out@ =~= seq!['['] + joined(done.push(object@), seq![',']));
                done = done.push(object@);
                assert(done =~= objects(present(status@.take(i + 1))));
            }
            first = false;
        }
        i = i + 1;
    }
    proof {
        reveal_strlit("]");
        assert(status@.take(i as int) =~= status@);
    }
    out.append("]");
    assert(out@ =~= tick_json(status@));
    Ok(out)
}

/// Joining one part more appends the separator and the part, or the part
/// alone where it is the first.
pub proof fn lemma_joined_push(parts: Seq<Seq<char>>, separator: Seq<char>, part: Seq<char>)
    ensures
        joined(parts.push(part), separator) == if parts.len() == 0 {
            part
        } else {
            joined(parts, separator) + separator + part
        },
{
    let all = parts.push(part);
    assert(all.drop_last() =~= parts);
    assert(all.last() == part);
    if parts.len() == 0 {
        assert(all[0] == part);
    }
}

} // verus!
