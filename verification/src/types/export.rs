//! Names and paths for the export of the routes: the parts of a path, its
//! parameters, and the camel case name that the parts make.

use vstd::prelude::*;

use crate::text::{
    alphanumerics, chars_of, ends_with_char, fields, gather, join, joined, keep_alphanumerics,
    lowercase, pieces, replace_all, replaced, segment_len, split_fields, split_pieces,
    starts_with_char, string_from, texts, to_uppercase, trim_end_by, trim_end_char,
    trim_start_by, trim_start_char, uppercase,
};

verus! {

/// A path as it is shown: without the prefix of extended-length paths, and
/// with slashes in place of backslashes.
pub open spec fn display_path_text(path: Seq<char>) -> Seq<char> {
    replaced(replaced(path, "\\\\?\\"@, ""@), "\\"@, "/"@)
}

/// A path as it is shown: without the prefix of extended-length paths, and
/// with slashes in place of backslashes.
pub fn display_path_str(path: &str) -> (shown: String)
    ensures
        shown@ == display_path_text(path@),
{
    let stripped = replace_all(path, "\\\\?\\", "");
    replace_all(stripped.as_str(), "\\", "/")
}

/// One part of a name in camel case: the first part in lower case, any
/// other with its first scalar value in upper case and the rest in lower
/// case.
pub open spec fn camel_part(first: bool, part: Seq<char>) -> Seq<char> {
    if first {
        lowercase(part)
    } else if part.len() == 0 {
        Seq::empty()
    } else {
        seq![uppercase(part[0])[0]] + lowercase(part.drop_first())
    }
}

/// The parts as one name in camel case.
pub open spec fn camel_cased(parts: Seq<Seq<char>>) -> Seq<char>
    decreases parts.len(),
{
    if parts.len() == 0 {
        Seq::empty()
    } else {
        camel_cased(parts.drop_last()) + camel_part(parts.len() == 1, parts.last())
    }
}

/// Joins the parts into one name in camel case: the first part in lower
/// case, each other part with its first scalar value in upper case and the
/// rest in lower case.
pub fn camel_case(s: &Vec<String>) -> (name: String)
    ensures
        name@ == camel_cased(texts(s@)),
{
    let ghost parts = texts(s@);
    let mut result = String::new();
    let mut i: usize = 0;
    while i < s.len()
        invariant
            i <= s.len(),
            parts == texts(s@),
            result@ == camel_cased(parts.take(i as int)),
        decreases s.len() - i,
    {
        assert(parts.take(i + 1).drop_last() == parts.take(i as int));
        assert(parts.take(i + 1).last() == s@[i as int]@);
        let part = s[i].as_str();
        if i == 0 {
            result.append(part.to_lowercase().as_str());
        } else {
            let chars = chars_of(part);
            if chars.len() > 0 {
                let upper = to_uppercase(chars[0]);
                result.push(upper[0]);
                let rest = string_from(&chars, 1, chars.len());
                assert(chars@.subrange(1, chars.len() as int) == part@.drop_first());
                result.append(rest.as_str().to_lowercase().as_str());
                assert(result@ == camel_cased(parts.take(i as int)) + (seq![
                    uppercase(part@[0])[0],
                ] + lowercase(part@.drop_first())));
            }
        }
        i += 1;
    }
    assert(parts.take(s.len() as int) == parts);
    result
}

/// The parts of a path: what stands between its slashes, without the empty
/// parts.
pub open spec fn path_parts_of(path: Seq<char>) -> Seq<Seq<char>> {
    pieces(path, '/')
}

/// The parts of a path: what stands between its slashes, without the empty
/// parts.
pub fn path_parts(path: &str) -> (parts: Vec<String>)
    ensures
        texts(parts@) == path_parts_of(path@),
{
    split_pieces(path, '/')
}

/// Whether a part of a path is a parameter: it begins with an opening brace
/// and ends with a closing one.
pub open spec fn is_param_text(s: Seq<char>) -> bool {
    s.len() > 0 && s[0] == '{' && s.last() == '}'
}

/// Whether a part of a path is a parameter: it begins with an opening brace
/// and ends with a closing one.
pub fn is_param(s: &str) -> (yes: bool)
    ensures
        yes == is_param_text(s@),
{
    starts_with_char(s, '{') && ends_with_char(s, '}')
}

/// The name of a parameter, where the part is one: the part without its
/// braces.
pub open spec fn param_name(part: Seq<char>) -> Seq<Seq<char>> {
    if is_param_text(part) {
        seq![part.subrange(1, part.len() - 1)]
    } else {
        Seq::empty()
    }
}

/// The part itself, where it is no parameter.
pub open spec fn plain_part(part: Seq<char>) -> Seq<Seq<char>> {
    if is_param_text(part) {
        Seq::empty()
    } else {
        seq![part]
    }
}

/// The names of the parameters of a path, in order.
pub open spec fn path_params_of(path: Seq<char>) -> Seq<Seq<char>> {
    gather(path_parts_of(path), |part: Seq<char>| param_name(part))
}

/// The parts of a path that are no parameters, in order.
pub open spec fn path_not_params_of(path: Seq<char>) -> Seq<Seq<char>> {
    gather(path_parts_of(path), |part: Seq<char>| plain_part(part))
}

/// The names of the parameters of a path, in order: the parts between
/// braces, without the braces.
pub fn path_params(path: &str) -> (params: Vec<String>)
    ensures
        texts(params@) == path_params_of(path@),
{
    let parts = path_parts(path);
    let ghost all = texts(parts@);
    let ghost name = |part: Seq<char>| param_name(part);
    let mut params: Vec<String> = Vec::new();
    let mut i: usize = 0;
    while i < parts.len()
        invariant
            i <= parts.len(),
            all == texts(parts@),
            name == (|part: Seq<char>| param_name(part)),
            texts(params@) == gather(all.take(i as int), name),
        decreases parts.len() - i,
    {
        let ghost before = texts(params@);
        assert(all.take(i + 1).drop_last() == all.take(i as int));
        assert(all.take(i + 1).last() == parts@[i as int]@);
        let part = parts[i].as_str();
        if is_param(part) {
            let chars = chars_of(part);
            assert(chars.len() >= 2) by {
                if chars.len() == 1 {
                    assert(chars@[0] == chars@.last());
                }
            }
            params.push(string_from(&chars, 1, chars.len() - 1));
            assert(texts(params@) == before + param_name(part@));
        } else {
            assert(before + param_name(part@) == before);
        }
        i += 1;
    }
    assert(all.take(parts.len() as int) == all);
    params
}

/// The parts of a path that are no parameters, in order.
pub fn path_not_params(path: &str) -> (plain: Vec<String>)
    ensures
        texts(plain@) == path_not_params_of(path@),
{
    let parts = path_parts(path);
    let ghost all = texts(parts@);
    let ghost keep = |part: Seq<char>| plain_part(part);
    let mut plain: Vec<String> = Vec::new();
    let mut i: usize = 0;
    while i < parts.len()
        invariant
            i <= parts.len(),
            all == texts(parts@),
            keep == (|part: Seq<char>| plain_part(part)),
            texts(plain@) == gather(all.take(i as int), keep),
        decreases parts.len() - i,
    {
        let ghost before = texts(plain@);
        assert(all.take(i + 1).drop_last() == all.take(i as int));
        assert(all.take(i + 1).last() == parts@[i as int]@);
        let part = parts[i].as_str();
        if !is_param(part) {
            plain.push(part.to_owned());
            assert(texts(plain@) == before + plain_part(part@));
        } else {
            assert(before + plain_part(part@) == before);
        }
        i += 1;
    }
    assert(all.take(parts.len() as int) == all);
    plain
}

/// A word without the `s` at its end, where it has one.
pub open spec fn unpluralized(s: Seq<char>) -> Seq<char> {
    if s.len() > 0 && s.last() == 's' {
        s.drop_last()
    } else {
        s
    }
}

/// Takes one `s` off the end of a word that ends with it.
pub fn unpluralize(s: String) -> (word: String)
    ensures
        word@ == unpluralized(s@),
{
    let chars = chars_of(s.as_str());
    if chars.len() > 0 && chars[chars.len() - 1] == 's' {
        let word = string_from(&chars, 0, chars.len() - 1);
        assert(chars@.subrange(0, chars.len() - 1) == s@.drop_last());
        word
    } else {
        s
    }
}

/// A location without the line and column that follow its first colon.
pub open spec fn location_file(location: Seq<char>) -> Seq<char> {
    location.take(segment_len(location, ':') as int)
}

/// A location without its position: what stands before the first colon, or
/// all of it where it holds no colon.
pub fn strip_location_position(location: &str) -> (file: String)
    ensures
        file@ == location_file(location@),
{
    let chars = chars_of(location);
    let n = chars.len();
    let mut i: usize = 0;
    assert(chars@.skip(0) == chars@);
    while i < n && chars[i] != ':'
        invariant
            i <= n == chars.len(),
            segment_len(chars@, ':') == i + segment_len(chars@.skip(i as int), ':'),
        decreases n - i,
    {
        let ghost tail = chars@.skip(i as int);
        assert(tail[0] == chars@[i as int]);
        assert(tail.drop_first() == chars@.skip(i + 1));
        i += 1;
    }
    assert(segment_len(chars@.skip(i as int), ':') == 0) by {
        if i < n {
            assert(chars@.skip(i as int)[0] == chars@[i as int]);
        }
    }
    let file = string_from(&chars, 0, i);
    assert(chars@.subrange(0, i as int) == chars@.take(i as int));
    file
}

/// A path without the slashes at its start and at its end.
pub open spec fn bare_path(path: Seq<char>) -> Seq<char> {
    trim_end_by(trim_start_by(path, |c: char| c == '/'), |c: char| c == '/')
}

/// A path without the slashes at its start and at its end.
pub fn trim_path(path: &str) -> (bare: String)
    ensures
        bare@ == bare_path(path@),
{
    trim_end_char(trim_start_char(path, '/').as_str(), '/')
}

/// The name of a parameter in camel case: its pieces between underscores
/// make the parts.
pub open spec fn camel_param(name: Seq<char>) -> Seq<char> {
    camel_cased(fields(name, '_'))
}

/// The name of a parameter in camel case.
pub fn camel_param_name(name: &str) -> (camel: String)
    ensures
        camel@ == camel_param(name@),
{
    camel_case(&split_fields(name, '_'))
}

/// Whether the last part of a path is a parameter.
pub open spec fn ends_with_param(path: Seq<char>) -> bool {
    path_parts_of(path).len() > 0 && is_param_text(path_parts_of(path).last())
}

/// The parts of the name of a route: the parts of its path that are no
/// parameters, each without what is neither letter nor digit and in the
/// singular; the last of them stays as it is unless the path ends with a
/// parameter.
pub open spec fn name_parts(path: Seq<char>) -> Seq<Seq<char>> {
    let plain = path_not_params_of(path);
    Seq::new(
        plain.len(),
        |i: int|
            if i < plain.len() - 1 || ends_with_param(path) {
                unpluralized(alphanumerics(plain[i]))
            } else {
                alphanumerics(plain[i])
            },
    )
}

/// The parameters of the function of a route: each with the type `string`.
pub open spec fn param_list(path: Seq<char>) -> Seq<Seq<char>> {
    let params = path_params_of(path);
    Seq::new(params.len(), |i: int| camel_param(params[i]) + ": string"@)
}

/// One part of a path in the template of a route: a parameter becomes a
/// placeholder with its name in camel case, any other part stays.
pub open spec fn template_part(part: Seq<char>) -> Seq<char> {
    if is_param_text(part) {
        "${"@ + camel_param(
            trim_end_by(trim_start_by(part, |c: char| c == '{'), |c: char| c == '}'),
        ) + "}"@
    } else {
        part
    }
}

/// The template of a route: the parts of its path, joined by slashes.
pub open spec fn template(path: Seq<char>) -> Seq<char> {
    let parts = path_parts_of(path);
    joined(Seq::new(parts.len(), |i: int| template_part(parts[i])), "/"@)
}

/// The function that builds the path of a route.
#[derive(Debug, Clone, PartialEq, Eq)]
pub struct RouteFunction {
    /// The name of the function, in camel case.
    pub name: String,
    /// The function, as an arrow function that returns the path.
    pub function: String,
}

/// The name and the function of the route with the path `path`; `None`
/// where the path holds no part that is no parameter, or only parts without
/// letter and digit.
pub open spec fn route_function_of(path: Seq<char>) -> Option<(Seq<char>, Seq<char>)> {
    let name = camel_cased(name_parts(path));
    let params = joined(param_list(path), ", "@);
    if name_parts(path).len() == 0 || name.len() == 0 {
        None
    } else if params.len() == 0 {
        Some((name, "() => '"@ + template(path) + "' as const"@))
    } else {
        Some((name, "("@ + params + ") => `"@ + template(path) + "` as const"@))
    }
}

/// The name and the function of the route with the path `path`, which has
/// no slash at its start or end.
pub fn route_function(path: &str) -> (function: Option<RouteFunction>)
    ensures
        match route_function_of(path@) {
            Some((name, text)) => function matches Some(f) && f.name@ == name && f.function@
                == text,
            None => function is None,
        },
{
    let parts = path_parts(path);
    let plain = path_not_params(path);
    let last_part_param = parts.len() > 0 && is_param(parts[parts.len() - 1].as_str());
    assert(last_part_param == ends_with_param(path@)) by {
        if parts.len() > 0 {
            assert(texts(parts@).last() == parts@[parts.len() - 1]@);
        }
    }
    let ghost plain_texts = texts(plain@);
    let mut names: Vec<String> = Vec::new();
    let mut i: usize = 0;
    while i < plain.len()
        invariant
            i <= plain.len(),
            plain_texts == texts(plain@),
            plain_texts == path_not_params_of(path@),
            last_part_param == ends_with_param(path@),
            names.len() == i,
            forall|k: int| 0 <= k < i ==> (#[trigger] names@[k])@ == name_parts(path@)[k],
        decreases plain.len() - i,
    {
        assert(plain_texts[i as int] == plain@[i as int]@);
        let kept = keep_alphanumerics(plain[i].as_str());
        let name = if i < plain.len() - 1 || last_part_param {
            unpluralize(kept)
        } else {
            kept
        };
        names.push(name);
        i += 1;
    }
    assert(texts(names@) == name_parts(path@));
    if names.len() == 0 {
        return None;
    }
    let name = camel_case(&names);
    if name.as_str().is_empty() {
        return None;
    }
    let params = path_params(path);
    let ghost param_texts = texts(params@);
    let mut typed: Vec<String> = Vec::new();
    let mut j: usize = 0;
    while j < params.len()
        invariant
            j <= params.len(),
            param_texts == texts(params@),
            param_texts == path_params_of(path@),
            typed.len() == j,
            forall|k: int| 0 <= k < j ==> (#[trigger] typed@[k])@ == param_list(path@)[k],
        decreases params.len() - j,
    {
        assert(param_texts[j as int] == params@[j as int]@);
        let mut param = camel_param_name(params[j].as_str());
        param.append(": string");
        typed.push(param);
        j += 1;
    }
    assert(texts(typed@) == param_list(path@));
    let params_text = join(&typed, ", ");
    let ghost part_texts = texts(parts@);
    let mut pieces: Vec<String> = Vec::new();
    let mut k: usize = 0;
    while k < parts.len()
        invariant
            k <= parts.len(),
            part_texts == texts(parts@),
            part_texts == path_parts_of(path@),
            pieces.len() == k,
            forall|m: int| 0 <= m < k ==> (#[trigger] pieces@[m])@ == template_part(part_texts[m]),
        decreases parts.len() - k,
    {
        assert(part_texts[k as int] == parts@[k as int]@);
        let part = parts[k].as_str();
        if is_param(part) {
            let inner = trim_end_char(trim_start_char(part, '{').as_str(), '}');
            let mut piece = "${".to_owned();
            piece.append(camel_param_name(inner.as_str()).as_str());
            piece.append("}");
            pieces.push(piece);
        } else {
            pieces.push(part.to_owned());
        }
        k += 1;
    }
    assert(texts(pieces@) == Seq::new(
        part_texts.len(),
        |m: int| template_part(part_texts[m]),
    ));
    let string = join(&pieces, "/");
    let function = if params_text.as_str().is_empty() {
        let mut text = "() => '".to_owned();
        text.append(string.as_str());
        text.append("' as const");
        text
    } else {
        let mut text = "(".to_owned();
        text.append(params_text.as_str());
        text.append(") => `");
        text.append(string.as_str());
        text.append("` as const");
        text
    };
    Some(RouteFunction { name, function })
}

/// A path as the comment of a route shows it: with `.id` in place of each
/// `_id`.
pub open spec fn comment_path(path: Seq<char>) -> Seq<char> {
    replaced(path, "_id"@, ".id"@)
}

/// A path as the comment of a route shows it.
pub fn route_comment_path(path: &str) -> (shown: String)
    ensures
        shown@ == comment_path(path@),
{
    replace_all(path, "_id", ".id")
}

} // verus!
