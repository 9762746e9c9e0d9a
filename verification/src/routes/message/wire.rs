//! Reading the lines that carry events to the client, and the proof that
//! reading undoes writing.

use vstd::prelude::*;

use crate::convex::messages::{annotation_views, Annotation, AnnotationView};
use crate::json::{escape, escaped, hex_digit, json_quoted};
use crate::routes::message::create::{
    annotation_json, annotation_list_json, annotations_json, wire_line, wire_payload, wire_tag,
    ChatEvent, ChatEventView,
};
use crate::text::{chars_of, lemma_gather_add, lemma_gather_one, string_from};

verus! {

/// The scalar value that stands behind a backslash for a short escape.
pub open spec fn short_escape(c: char) -> Option<char> {
    if c == '"' {
        Some('"')
    } else if c == '\\' {
        Some('\\')
    } else if c == '/' {
        Some('/')
    } else if c == 'b' {
        Some('\u{8}')
    } else if c == 'f' {
        Some('\u{c}')
    } else if c == 'n' {
        Some('\n')
    } else if c == 'r' {
        Some('\r')
    } else if c == 't' {
        Some('\t')
    } else {
        None
    }
}

/// The value of a hexadecimal digit.
pub open spec fn hex_value(c: char) -> Option<nat> {
    if '0' <= c <= '9' {
        Some((c as nat - 48) as nat)
    } else if 'a' <= c <= 'f' {
        Some((c as nat - 87) as nat)
    } else if 'A' <= c <= 'F' {
        Some((c as nat - 55) as nat)
    } else {
        None
    }
}

/// The control character that the four digits after `\u` name: two zeros
/// and two hexadecimal digits whose value is below thirty-two.
pub open spec fn control_escape(digits: Seq<char>) -> Option<char> {
    if digits.len() >= 4 && digits[0] == '0' && digits[1] == '0' {
        match (hex_value(digits[2]), hex_value(digits[3])) {
            (Some(high), Some(low)) => if 16 * high + low < 0x20 {
                Some((16 * high + low) as u8 as char)
            } else {
                None
            },
            _ => None,
        }
    } else {
        None
    }
}

/// `c` put before the string of a reading.
pub open spec fn prepend(c: char, reading: Option<(Seq<char>, Seq<char>)>) -> Option<
    (Seq<char>, Seq<char>),
> {
    match reading {
        Some((text, rest)) => Some((seq![c] + text, rest)),
        None => None,
    }
}

/// Reads the inside of a JSON string up to its closing quote: the string
/// that the text stands for, and what follows the closing quote. `None`
/// where the text ends before the quote, holds a bare control character or
/// an escape that is not known.
pub open spec fn unescaped(input: Seq<char>) -> Option<(Seq<char>, Seq<char>)>
    decreases input.len(),
{
    if input.len() == 0 {
        None
    } else if input[0] == '"' {
        Some((Seq::empty(), input.skip(1)))
    } else if input[0] == '\\' {
        if input.len() < 2 {
            None
        } else if input[1] == 'u' {
            if input.len() >= 6 {
                match control_escape(input.skip(2)) {
                    Some(c) => prepend(c, unescaped(input.skip(6))),
                    None => None,
                }
            } else {
                None
            }
        } else {
            match short_escape(input[1]) {
                Some(c) => prepend(c, unescaped(input.skip(2))),
                None => None,
            }
        }
    } else if (input[0] as u32) < 0x20 {
        None
    } else {
        prepend(input[0], unescaped(input.skip(1)))
    }
}

/// Reads a JSON string at the start of `input`: the string, and what
/// follows it.
pub open spec fn unquoted_json(input: Seq<char>) -> Option<(Seq<char>, Seq<char>)> {
    if input.len() > 0 && input[0] == '"' {
        unescaped(input.skip(1))
    } else {
        None
    }
}

/// What follows `prefix` in `input`, where `input` begins with it.
pub open spec fn after(input: Seq<char>, prefix: Seq<char>) -> Option<Seq<char>> {
    if prefix.is_prefix_of(input) {
        Some(input.skip(prefix.len() as int))
    } else {
        None
    }
}

/// Reads an annotation object at the start of `input`: the annotation, and
/// what follows it.
#[verifier::opaque]
pub open spec fn parsed_annotation(input: Seq<char>) -> Option<(AnnotationView, Seq<char>)> {
    match after(input, "{\"title\":"@) {
        Some(r1) => match unquoted_json(r1) {
            Some((title, r2)) => match after(r2, ",\"url\":"@) {
                Some(r3) => match unquoted_json(r3) {
                    Some((url, r4)) => match after(r4, ",\"content\":"@) {
                        Some(r5) => match unquoted_json(r5) {
                            Some((content, r6)) => match after(r6, "}"@) {
                                Some(rest) => Some((AnnotationView { title, url, content }, rest)),
                                None => None,
                            },
                            None => None,
                        },
                        None => None,
                    },
                    None => None,
                },
                None => None,
            },
            None => None,
        },
        None => None,
    }
}

/// Reads annotation objects separated by commas up to the closing bracket,
/// which must end the input.
pub open spec fn parsed_annotation_list(input: Seq<char>) -> Option<Seq<AnnotationView>>
    decreases input.len(),
{
    match parsed_annotation(input) {
        Some((annotation, rest)) => if rest.len() < input.len() {
            if rest == "]"@ {
                Some(seq![annotation])
            } else {
                match after(rest, ","@) {
                    Some(more) => match parsed_annotation_list(more) {
                        Some(others) => Some(seq![annotation] + others),
                        None => None,
                    },
                    None => None,
                }
            }
        } else {
            None
        },
        None => None,
    }
}

/// Reads a JSON array of annotation objects, written without whitespace.
pub open spec fn parsed_annotations(payload: Seq<char>) -> Option<Seq<AnnotationView>> {
    match after(payload, "["@) {
        Some(rest) => if rest == "]"@ {
            Some(Seq::empty())
        } else {
            parsed_annotation_list(rest)
        },
        None => None,
    }
}

/// Reads the line of an event: a tag from `0` to `7`, a colon and the
/// payload. The events without a payload must have none.
pub open spec fn parsed_line(line: Seq<char>) -> Option<ChatEventView> {
    if line.len() < 2 || line[1] != ':' {
        None
    } else {
        let payload = line.skip(2);
        let tag = line[0];
        if tag == '0' {
            Some(ChatEventView::Text(payload))
        } else if tag == '1' {
            Some(ChatEventView::Reasoning(payload))
        } else if tag == '2' {
            match parsed_annotations(payload) {
                Some(annotations) => Some(ChatEventView::Annotations(annotations)),
                None => None,
            }
        } else if tag == '5' {
            Some(ChatEventView::Refusal(payload))
        } else if payload.len() > 0 {
            None
        } else if tag == '3' {
            Some(ChatEventView::Error)
        } else if tag == '4' {
            Some(ChatEventView::Cancelled)
        } else if tag == '6' {
            Some(ChatEventView::End)
        } else if tag == '7' {
            Some(ChatEventView::Unauthorized)
        } else {
            None
        }
    }
}

/// `text` put before the string of a reading.
pub open spec fn prepend_text(text: Seq<char>, reading: Option<(Seq<char>, Seq<char>)>) -> Option<
    (Seq<char>, Seq<char>),
> {
    match reading {
        Some((more, rest)) => Some((text + more, rest)),
        None => None,
    }
}

/// `items` put before the annotations of a reading.
pub open spec fn prepend_items(
    items: Seq<AnnotationView>,
    reading: Option<Seq<AnnotationView>>,
) -> Option<Seq<AnnotationView>> {
    match reading {
        Some(more) => Some(items + more),
        None => None,
    }
}

/// The value of a hexadecimal digit, `None` for any other scalar value.
fn hex_digit_value(c: char) -> (value: Option<u8>)
    ensures
        match hex_value(c) {
            Some(v) => value == Some(v as u8) && v < 16,
            None => value is None,
        },
{
    let code = c as u32;
    if 48 <= code && code <= 57 {
        Some((code - 48) as u8)
    } else if 97 <= code && code <= 102 {
        Some((code - 87) as u8)
    } else if 65 <= code && code <= 70 {
        Some((code - 55) as u8)
    } else {
        None
    }
}

/// The scalar value behind a backslash for a short escape.
fn short_escape_value(c: char) -> (value: Option<char>)
    ensures
        value == short_escape(c),
{
    if c == '"' {
        Some('"')
    } else if c == '\\' {
        Some('\\')
    } else if c == '/' {
        Some('/')
    } else if c == 'b' {
        Some('\u{8}')
    } else if c == 'f' {
        Some('\u{c}')
    } else if c == 'n' {
        Some('\n')
    } else if c == 'r' {
        Some('\r')
    } else if c == 't' {
        Some('\t')
    } else {
        None
    }
}

/// Reads `prefix` at `pos`: the position behind it, where it stands there.
fn read_prefix(v: &Vec<char>, pos: usize, prefix: &str) -> (end: Option<usize>)
    requires
        pos <= v.len(),
    ensures
        match after(v@.skip(pos as int), prefix@) {
            Some(rest) => end matches Some(p) && pos <= p <= v.len() && rest == v@.skip(p as int),
            None => end is None,
        },
{
    let wanted = chars_of(prefix);
    let n = wanted.len();
    let ghost input = v@.skip(pos as int);
    if n > v.len() - pos {
        return None;
    }
    let mut i: usize = 0;
    while i < n
        invariant
            i <= n == wanted.len(),
            pos + n <= v.len(),
            wanted@ == prefix@,
            input == v@.skip(pos as int),
            forall|k: int| 0 <= k < i ==> input[k] == wanted@[k],
        decreases n - i,
    {
        if v[pos + i] != wanted[i] {
            assert(input[i as int] != wanted@[i as int]);
            assert(input.subrange(0, n as int)[i as int] == input[i as int]);
            return None;
        }
        i += 1;
    }
    assert(input.subrange(0, n as int) == wanted@);
    assert(input.skip(n as int) == v@.skip(pos + n));
    Some(pos + n)
}

/// Reads a JSON string at `pos`: the string and the position behind it.
fn read_string(v: &Vec<char>, pos: usize) -> (read: Option<(String, usize)>)
    requires
        pos <= v.len(),
    ensures
        match unquoted_json(v@.skip(pos as int)) {
            Some((text, rest)) => read matches Some((s, p)) && s@ == text && pos <= p <= v.len()
                && rest == v@.skip(p as int),
            None => read is None,
        },
{
    if pos >= v.len() || v[pos] != '"' {
        return None;
    }
    let ghost whole = unescaped(v@.skip(pos + 1));
    assert(v@.skip(pos as int).skip(1) == v@.skip(pos + 1));
    let n = v.len();
    let mut out = String::new();
    let mut i: usize = pos + 1;
    assert(prepend_text(out@, unescaped(v@.skip(i as int))) == whole) by {
        let r = unescaped(v@.skip(i as int));
        if r is Some {
            assert(Seq::<char>::empty() + r->Some_0.0 == r->Some_0.0);
        }
    }
    loop
        invariant
            pos < i <= n == v.len(),
            whole == unescaped(v@.skip(pos + 1)),
            unquoted_json(v@.skip(pos as int)) == whole,
            prepend_text(out@, unescaped(v@.skip(i as int))) == whole,
        decreases n - i,
    {
        let ghost input = v@.skip(i as int);
        if i >= n {
            return None;
        }
        let c = v[i];
        assert(input[0] == c);
        if c == '"' {
            assert(input.skip(1) == v@.skip(i + 1));
            assert(out@ + Seq::<char>::empty() == out@);
            return Some((out, i + 1));
        }
        let ghost before = out@;
        if c == '\\' {
            if i + 1 >= n {
                return None;
            }
            let d = v[i + 1];
            assert(input[1] == d);
            if d == 'u' {
                if n - i < 6 {
                    return None;
                }
                let ghost digits = input.skip(2);
                assert(digits[0] == v@[i + 2] && digits[1] == v@[i + 3] && digits[2] == v@[i + 4]
                    && digits[3] == v@[i + 5]);
                if v[i + 2] != '0' || v[i + 3] != '0' {
                    return None;
                }
                let high = match hex_digit_value(v[i + 4]) {
                    Some(high) => high,
                    None => {
                        return None;
                    },
                };
                let low = match hex_digit_value(v[i + 5]) {
                    Some(low) => low,
                    None => {
                        return None;
                    },
                };
                let value: u8 = 16 * high + low;
                if value >= 0x20 {
                    return None;
                }
                let decoded = value as char;
                out.push(decoded);
                assert(input.skip(6) == v@.skip(i + 6));
                i += 6;
                proof {
                    let r = unescaped(v@.skip(i as int));
                    if r is Some {
                        assert(before + (seq![decoded] + r->Some_0.0) == before.push(decoded)
                            + r->Some_0.0);
                    }
                }
            } else {
                let decoded = match short_escape_value(d) {
                    Some(decoded) => decoded,
                    None => {
                        return None;
                    },
                };
                out.push(decoded);
                assert(input.skip(2) == v@.skip(i + 2));
                i += 2;
                proof {
                    let r = unescaped(v@.skip(i as int));
                    if r is Some {
                        assert(before + (seq![decoded] + r->Some_0.0) == before.push(decoded)
                            + r->Some_0.0);
                    }
                }
            }
        } else if (c as u32) < 0x20 {
            return None;
        } else {
            out.push(c);
            assert(input.skip(1) == v@.skip(i + 1));
            i += 1;
            proof {
                let r = unescaped(v@.skip(i as int));
                if r is Some {
                    assert(before + (seq![c] + r->Some_0.0) == before.push(c) + r->Some_0.0);
                }
            }
        }
    }
}

/// Reads an annotation object at `pos`: the annotation and the position
/// behind it.
fn read_annotation(v: &Vec<char>, pos: usize) -> (read: Option<(Annotation, usize)>)
    requires
        pos <= v.len(),
    ensures
        match parsed_annotation(v@.skip(pos as int)) {
            Some((annotation, rest)) => read matches Some((a, p)) && a@ == annotation && pos <= p
                <= v.len() && rest == v@.skip(p as int),
            None => read is None,
        },
{
    reveal(parsed_annotation);
    let p1 = match read_prefix(v, pos, "{\"title\":") {
        Some(p) => p,
        None => {
            return None;
        },
    };
    let (title, p2) = match read_string(v, p1) {
        Some(read) => read,
        None => {
            return None;
        },
    };
    let p3 = match read_prefix(v, p2, ",\"url\":") {
        Some(p) => p,
        None => {
            return None;
        },
    };
    let (url, p4) = match read_string(v, p3) {
        Some(read) => read,
        None => {
            return None;
        },
    };
    let p5 = match read_prefix(v, p4, ",\"content\":") {
        Some(p) => p,
        None => {
            return None;
        },
    };
    let (content, p6) = match read_string(v, p5) {
        Some(read) => read,
        None => {
            return None;
        },
    };
    let p7 = match read_prefix(v, p6, "}") {
        Some(p) => p,
        None => {
            return None;
        },
    };
    Some((Annotation { title, url, content }, p7))
}

/// Reads a JSON array of annotation objects that begins at `pos` and ends
/// the text.
fn read_annotations(v: &Vec<char>, pos: usize) -> (read: Option<Vec<Annotation>>)
    requires
        pos <= v.len(),
    ensures
        match parsed_annotations(v@.skip(pos as int)) {
            Some(annotations) => read matches Some(items) && annotation_views(items@)
                == annotations,
            None => read is None,
        },
{
    proof {
        reveal_strlit("]");
        reveal_strlit(",");
    }
    let n = v.len();
    let start = match read_prefix(v, pos, "[") {
        Some(p) => p,
        None => {
            return None;
        },
    };
    let mut items: Vec<Annotation> = Vec::new();
    if start < n && n - start == 1 && v[start] == ']' {
        assert(v@.skip(start as int) == "]"@);
        assert(annotation_views(items@) == Seq::<AnnotationView>::empty());
        return Some(items);
    }
    assert(v@.skip(start as int) != "]"@) by {
        if v@.skip(start as int) == "]"@ {
            assert(v@.skip(start as int).len() == 1);
            assert(v@.skip(start as int)[0] == ']');
        }
    }
    let ghost whole = parsed_annotation_list(v@.skip(start as int));
    let mut i: usize = start;
    assert(prepend_items(annotation_views(items@), parsed_annotation_list(v@.skip(i as int)))
        == whole) by {
        if whole is Some {
            assert(annotation_views(items@) + whole->Some_0 == whole->Some_0);
        }
    }
    loop
        invariant
            i <= n == v.len(),
            parsed_annotations(v@.skip(pos as int)) == whole,
            prepend_items(annotation_views(items@), parsed_annotation_list(v@.skip(i as int)))
                == whole,
        decreases n - i,
    {
        proof {
            reveal_strlit("]");
            reveal_strlit(",");
        }
        let ghost before = annotation_views(items@);
        let (annotation, p) = match read_annotation(v, i) {
            Some(read) => read,
            None => {
                return None;
            },
        };
        let ghost rest = v@.skip(p as int);
        if p <= i {
            return None;
        }
        items.push(annotation);
        assert(annotation_views(items@) == before + seq![annotation@]);
        if p < n && n - p == 1 && v[p] == ']' {
            assert(rest == "]"@);
            return Some(items);
        }
        assert(rest != "]"@) by {
            if rest == "]"@ {
                assert(rest.len() == 1);
                assert(rest[0] == ']');
            }
        }
        if p >= n || v[p] != ',' {
            assert(after(rest, ","@) is None) by {
                if p < n {
                    assert(rest[0] == v@[p as int]);
                    assert(rest.subrange(0, 1)[0] == rest[0]);
                }
            }
            return None;
        }
        assert(after(rest, ","@) == Some(v@.skip(p + 1))) by {
            assert(rest[0] == ',');
            assert(rest.subrange(0, 1) == ","@);
            assert(rest.skip(1) == v@.skip(p + 1));
        }
        proof {
            let more = parsed_annotation_list(v@.skip(p + 1));
            if more is Some {
                assert(before + (seq![annotation@] + more->Some_0) == before + seq![annotation@]
                    + more->Some_0);
            }
        }
        i = p + 1;
    }
}

impl ChatEvent {
    /// Reads the line of an event, as [`ChatEvent::into_string`] writes it.
    /// `None` where the line is none that it writes.
    pub fn from_line(line: &str) -> (event: Option<ChatEvent>)
        ensures
            match parsed_line(line@) {
                Some(read) => event matches Some(e) && e@ == read,
                None => event is None,
            },
    {
        let v = chars_of(line);
        if v.len() < 2 || v[1] != ':' {
            return None;
        }
        let tag = v[0];
        let ghost payload = v@.skip(2);
        assert(v@.subrange(2, v.len() as int) == payload);
        if tag == '0' {
            Some(ChatEvent::Text(string_from(&v, 2, v.len())))
        } else if tag == '1' {
            Some(ChatEvent::Reasoning(string_from(&v, 2, v.len())))
        } else if tag == '2' {
            match read_annotations(&v, 2) {
                Some(annotations) => Some(ChatEvent::Annotations(annotations)),
                None => None,
            }
        } else if tag == '5' {
            Some(ChatEvent::Refusal(string_from(&v, 2, v.len())))
        } else if v.len() > 2 {
            None
        } else if tag == '3' {
            Some(ChatEvent::Error)
        } else if tag == '4' {
            Some(ChatEvent::Cancelled)
        } else if tag == '6' {
            Some(ChatEvent::End)
        } else if tag == '7' {
            Some(ChatEvent::Unauthorized)
        } else {
            None
        }
    }
}

/// What follows a prefix is what was put behind it.
pub proof fn lemma_after_prefix(prefix: Seq<char>, rest: Seq<char>)
    ensures
        after(prefix + rest, prefix) == Some(rest),
{
    assert((prefix + rest).subrange(0, prefix.len() as int) == prefix);
    assert((prefix + rest).skip(prefix.len() as int) == rest);
}

/// Escaping a string escapes its first scalar value and then the rest.
pub proof fn lemma_escaped_front(c: char, rest: Seq<char>)
    ensures
        escaped(seq![c] + rest) == escape(c) + escaped(rest),
{
    let part = |c: char| escape(c);
    lemma_gather_add(seq![c], rest, part);
    lemma_gather_one(c, part);
}

/// A hexadecimal digit has the value it was written for.
pub proof fn lemma_hex_digit_value(n: nat)
    requires
        n < 16,
    ensures
        hex_value(hex_digit(n)) == Some(n),
{
}

/// Reading an escaped scalar value gives the scalar value, and goes on
/// behind it.
pub proof fn lemma_unescaped_one(c: char, tail: Seq<char>)
    ensures
        unescaped(escape(c) + tail) == prepend(c, unescaped(tail)),
{
    let input = escape(c) + tail;
    assert(input.skip(escape(c).len() as int) == tail);
    if (c as u32) < 0x20 && c != '\u{8}' && c != '\u{c}' && c != '\n' && c != '\r' && c != '\t' {
        let high = c as nat / 16;
        let low = c as nat % 16;
        lemma_hex_digit_value(high);
        lemma_hex_digit_value(low);
        let digits = input.skip(2);
        assert(digits[0] == '0' && digits[1] == '0');
        assert(digits[2] == hex_digit(high) && digits[3] == hex_digit(low));
        assert((16 * high + low) as u8 as char == c);
        assert(control_escape(digits) == Some(c));
    }
}

/// Reading the inside of a quoted string gives the string back.
pub proof fn lemma_unescaped_escaped(s: Seq<char>, rest: Seq<char>)
    ensures
        unescaped(escaped(s) + seq!['"'] + rest) == Some((s, rest)),
    decreases s.len(),
{
    let input = escaped(s) + seq!['"'] + rest;
    if s.len() == 0 {
        assert(escaped(s) == Seq::<char>::empty());
        assert(input == seq!['"'] + rest);
        assert(input.skip(1) == rest);
    } else {
        let c = s[0];
        let t = s.drop_first();
        assert(s == seq![c] + t);
        lemma_escaped_front(c, t);
        lemma_unescaped_escaped(t, rest);
        let tail = escaped(t) + seq!['"'] + rest;
        assert(input == escape(c) + tail);
        lemma_unescaped_one(c, tail);
    }
}

/// Reading a quoted string gives the string back.
pub proof fn lemma_unquoted_quoted(s: Seq<char>, rest: Seq<char>)
    ensures
        unquoted_json(json_quoted(s) + rest) == Some((s, rest)),
{
    let input = json_quoted(s) + rest;
    assert(input == seq!['"'] + (escaped(s) + seq!['"'] + rest));
    assert(input.skip(1) == escaped(s) + seq!['"'] + rest);
    lemma_unescaped_escaped(s, rest);
}

/// Reading a written annotation gives the annotation back.
pub proof fn lemma_parsed_annotation(annotation: AnnotationView, rest: Seq<char>)
    ensures
        parsed_annotation(annotation_json(annotation) + rest) == Some((annotation, rest)),
        annotation_json(annotation).len() > 0,
{
    reveal(parsed_annotation);
    let l1 = "{\"title\":"@;
    let l2 = ",\"url\":"@;
    let l3 = ",\"content\":"@;
    let l4 = "}"@;
    let q1 = json_quoted(annotation.title);
    let q2 = json_quoted(annotation.url);
    let q3 = json_quoted(annotation.content);
    let r6 = l4 + rest;
    let r5 = q3 + r6;
    let r4 = l3 + r5;
    let r3 = q2 + r4;
    let r2 = l2 + r3;
    let r1 = q1 + r2;
    assert(annotation_json(annotation) + rest == l1 + r1);
    lemma_after_prefix(l1, r1);
    lemma_unquoted_quoted(annotation.title, r2);
    lemma_after_prefix(l2, r3);
    lemma_unquoted_quoted(annotation.url, r4);
    lemma_after_prefix(l3, r5);
    lemma_unquoted_quoted(annotation.content, r6);
    lemma_after_prefix(l4, rest);
    reveal_strlit("}");
}

/// A list of annotations is written as its first item, then a comma and the
/// others where there are others.
pub proof fn lemma_annotation_list_front(annotations: Seq<AnnotationView>)
    requires
        annotations.len() >= 2,
    ensures
        annotation_list_json(annotations) == annotation_json(annotations[0]) + ","@
            + annotation_list_json(annotations.drop_first()),
    decreases annotations.len(),
{
    let first = annotations[0];
    let last = annotations.last();
    let others = annotations.drop_first();
    let front = annotations.drop_last();
    let comma = ","@;
    assert(annotation_list_json(annotations) == annotation_list_json(front) + comma
        + annotation_json(last));
    if annotations.len() == 2 {
        assert(front.len() == 1 && front[0] == first);
        assert(annotation_list_json(front) == annotation_json(first));
        assert(others.len() == 1 && others[0] == last);
        assert(annotation_list_json(others) == annotation_json(last));
    } else {
        lemma_annotation_list_front(front);
        assert(front[0] == first);
        let middle = front.drop_first();
        assert(middle == others.drop_last());
        assert(others.last() == last);
        assert(annotation_list_json(front) == annotation_json(first) + comma
            + annotation_list_json(middle));
        assert(annotation_list_json(others) == annotation_list_json(middle) + comma
            + annotation_json(last));
        assert(annotation_json(first) + comma + annotation_list_json(middle) + comma
            + annotation_json(last) == annotation_json(first) + comma + (annotation_list_json(
            middle,
        ) + comma + annotation_json(last)));
    }
}

/// Reading a written list of annotations gives the list back.
pub proof fn lemma_parsed_annotation_list(annotations: Seq<AnnotationView>)
    requires
        annotations.len() >= 1,
    ensures
        parsed_annotation_list(annotation_list_json(annotations) + "]"@) == Some(annotations),
        annotation_list_json(annotations).len() > 0,
    decreases annotations.len(),
{
    reveal_strlit("]");
    reveal_strlit(",");
    let first = annotations[0];
    let input = annotation_list_json(annotations) + "]"@;
    if annotations.len() == 1 {
        lemma_parsed_annotation(first, "]"@);
        assert(annotations == seq![first]);
    } else {
        let others = annotations.drop_first();
        lemma_annotation_list_front(annotations);
        lemma_parsed_annotation_list(others);
        let more = annotation_list_json(others) + "]"@;
        let rest = ","@ + more;
        assert(input == annotation_json(first) + rest);
        lemma_parsed_annotation(first, rest);
        lemma_after_prefix(","@, more);
        assert(rest[0] == ',');
        assert(rest != "]"@);
        assert(annotations == seq![first] + others);
    }
}

/// Reading a written array of annotations gives the annotations back.
pub proof fn lemma_parsed_annotations(annotations: Seq<AnnotationView>)
    ensures
        parsed_annotations(annotations_json(annotations)) == Some(annotations),
{
    reveal_strlit("]");
    let rest = annotation_list_json(annotations) + "]"@;
    assert(annotations_json(annotations) == "["@ + rest);
    lemma_after_prefix("["@, rest);
    if annotations.len() == 0 {
        assert(rest == "]"@);
        assert(annotations == Seq::<AnnotationView>::empty());
    } else {
        lemma_parsed_annotation_list(annotations);
        assert(rest.len() > 1);
    }
}

/// Every event survives the way over the wire: reading the line of an event
/// gives the event back, whichever of the eight kinds it is and whatever its
/// text or its annotations hold.
pub proof fn law_wire_round_trip(event: ChatEventView)
    ensures
        parsed_line(wire_line(event)) == Some(event),
{
    let line = wire_line(event);
    assert(line.skip(2) == wire_payload(event));
    assert(line[0] == wire_tag(event));
    assert(line[1] == ':');
    match event {
        ChatEventView::Annotations(annotations) => {
            lemma_parsed_annotations(annotations);
        },
        _ => {},
    }
}

} // verus!
