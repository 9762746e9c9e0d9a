//! Text primitives shared by the rest of the crate. Every string is read
//! through its view, a sequence of Unicode scalar values.

use vstd::prelude::*;

verus! {

/// `String::push` appends one scalar value to the string.
pub assume_specification[ std::string::String::push ](s: &mut std::string::String, c: char)
    ensures
        final(s)@ == old(s)@.push(c),
;

/// Whether std counts `c` as whitespace: the result of `char::is_whitespace`.
pub uninterp spec fn char_whitespace(c: char) -> bool;

/// `s` without its longest prefix of scalar values that `skip` accepts.
pub open spec fn trim_start_by(s: Seq<char>, skip: spec_fn(char) -> bool) -> Seq<char>
    decreases s.len(),
{
    if s.len() > 0 && skip(s[0]) {
        trim_start_by(s.drop_first(), skip)
    } else {
        s
    }
}

/// `s` without its longest suffix of scalar values that `skip` accepts.
pub open spec fn trim_end_by(s: Seq<char>, skip: spec_fn(char) -> bool) -> Seq<char>
    decreases s.len(),
{
    if s.len() > 0 && skip(s.last()) {
        trim_end_by(s.drop_last(), skip)
    } else {
        s
    }
}

/// `s` without the scalar values that `skip` accepts at either end.
pub open spec fn trim_by(s: Seq<char>, skip: spec_fn(char) -> bool) -> Seq<char> {
    trim_end_by(trim_start_by(s, skip), skip)
}

/// `s` without leading and trailing whitespace.
pub open spec fn trimmed(s: Seq<char>) -> Seq<char> {
    trim_by(s, |c: char| char_whitespace(c))
}

/// `char::is_whitespace` decides whether a scalar value is whitespace.
pub assume_specification[ char::is_whitespace ](c: char) -> (r: bool)
    ensures
        r == char_whitespace(c),
;

/// Whether std counts `c` as a letter or a digit: the result of
/// `char::is_alphanumeric`.
pub uninterp spec fn char_alphanumeric(c: char) -> bool;

/// `char::is_alphanumeric` decides whether a scalar value is a letter or a
/// digit.
pub assume_specification[ char::is_alphanumeric ](c: char) -> (r: bool)
    ensures
        r == char_alphanumeric(c),
;

/// The lower case of a string: the result of `str::to_lowercase`.
pub uninterp spec fn lowercase(s: Seq<char>) -> Seq<char>;

/// The upper case of a scalar value, which may be more than one scalar
/// value: the result of `char::to_uppercase`.
pub uninterp spec fn uppercase(c: char) -> Seq<char>;

/// `str::to_lowercase` gives the lower case of a string.
pub assume_specification[ str::to_lowercase ](s: &str) -> (r: std::string::String)
    ensures
        r@ == lowercase(s@),
;

/// `char::to_uppercase` yields the upper case of a scalar value as one or
/// more scalar values.
#[verifier::external_body]
pub(crate) fn to_uppercase(c: char) -> (upper: Vec<char>)
    ensures
        upper@ == uppercase(c),
        upper@.len() >= 1,
{
    c.to_uppercase().collect()
}

/// The text that the `Debug` format of std gives for a string: the string
/// between quotes, with escapes for what would not show.
pub uninterp spec fn str_debug(s: Seq<char>) -> Seq<char>;

/// The `Debug` format of std, `{:?}`, applied to a string.
#[verifier::external_body]
pub(crate) fn debug_str(s: &str) -> (text: String)
    ensures
        text@ == str_debug(s@),
{
    format!("{:?}", s)
}

/// An optional string as the `Debug` format of std shows it: `None`, or
/// `Some` with the string between parentheses.
pub open spec fn optional_debug(text: Option<String>) -> Seq<char> {
    match text {
        Some(t) => "Some("@ + str_debug(t@) + ")"@,
        None => "None"@,
    }
}

/// An optional string as the `Debug` format of std shows it.
pub fn debug_optional(text: &Option<String>) -> (shown: String)
    ensures
        shown@ == optional_debug(*text),
{
    match text {
        Some(t) => {
            let mut shown = "Some(".to_owned();
            shown.append(debug_str(t.as_str()).as_str());
            shown.append(")");
            shown
        },
        None => "None".to_owned(),
    }
}

/// `head` with `tail` behind it.
pub fn concat(head: &str, tail: &str) -> (text: String)
    ensures
        text@ == head@ + tail@,
{
    let mut text = head.to_owned();
    text.append(tail);
    text
}

/// The scalar values of `s`, in order.
pub fn chars_of(s: &str) -> (v: Vec<char>)
    ensures
        v@ == s@,
{
    let mut v: Vec<char> = Vec::new();
    for c in it: s.chars()
        invariant
            v@ == s@.take(it.index() as int),
            it.seq() == s@,
    {
        v.push(c);
    }
    v
}

/// The string made of the scalar values `v[from..to]`.
pub(crate) fn string_from(v: &Vec<char>, from: usize, to: usize) -> (s: String)
    requires
        from <= to <= v.len(),
    ensures
        s@ == v@.subrange(from as int, to as int),
{
    let mut s = String::new();
    let mut i: usize = from;
    while i < to
        invariant
            from <= i <= to <= v.len(),
            s@ == v@.subrange(from as int, i as int),
        decreases to - i,
    {
        s.push(v[i]);
        assert(v@.subrange(from as int, i + 1) == v@.subrange(from as int, i as int).push(v@[i as int]));
        i += 1;
    }
    s
}

/// The string made of the scalar values of `v`.
pub fn string_of(v: &Vec<char>) -> (s: String)
    ensures
        s@ == v@,
{
    let s = string_from(v, 0, v.len());
    assert(v@.subrange(0, v.len() as int) == v@);
    s
}

/// Whether two strings hold the same scalar values.
pub fn str_eq(a: &str, b: &str) -> (same: bool)
    ensures
        same == (a@ == b@),
{
    let x = a.to_owned();
    let y = b.to_owned();
    x == y
}

/// Whether `s` begins with the scalar value `c`.
pub fn starts_with_char(s: &str, c: char) -> (yes: bool)
    ensures
        yes == (s@.len() > 0 && s@[0] == c),
{
    if s.is_empty() {
        false
    } else {
        s.get_char(0) == c
    }
}

/// Whether `s` ends with the scalar value `c`.
pub fn ends_with_char(s: &str, c: char) -> (yes: bool)
    ensures
        yes == (s@.len() > 0 && s@.last() == c),
{
    let v = chars_of(s);
    v.len() > 0 && v[v.len() - 1] == c
}

/// Trimming `s[i..]` at the start skips `s[i]` where `skip` accepts it.
pub proof fn lemma_trim_start_step(s: Seq<char>, i: int, skip: spec_fn(char) -> bool)
    requires
        0 <= i < s.len(),
        skip(s[i]),
    ensures
        trim_start_by(s.subrange(i, s.len() as int), skip) == trim_start_by(
            s.subrange(i + 1, s.len() as int),
            skip,
        ),
{
    let tail = s.subrange(i, s.len() as int);
    assert(tail[0] == s[i]);
    assert(tail.drop_first() == s.subrange(i + 1, s.len() as int));
}

/// Trimming `s[..j]` at the end skips `s[j - 1]` where `skip` accepts it.
pub proof fn lemma_trim_end_step(s: Seq<char>, j: int, skip: spec_fn(char) -> bool)
    requires
        0 < j <= s.len(),
        skip(s[j - 1]),
    ensures
        trim_end_by(s.subrange(0, j), skip) == trim_end_by(s.subrange(0, j - 1), skip),
{
    let head = s.subrange(0, j);
    assert(head.last() == s[j - 1]);
    assert(head.drop_last() == s.subrange(0, j - 1));
}

/// Whether `c` is one of the quote characters `"`, `'` and `` ` ``.
pub open spec fn is_quote(c: char) -> bool {
    c == '"' || c == '\'' || c == '`'
}

/// `s` without the quote characters at either end.
pub open spec fn unquoted(s: Seq<char>) -> Seq<char> {
    trim_by(s, |c: char| is_quote(c))
}

/// What a trim removes from the ends of a string.
#[derive(Debug, Clone, Copy, PartialEq, Eq, Structural)]
pub enum Trim {
    /// Whitespace.
    Whitespace,
    /// The quote characters `"`, `'` and `` ` ``.
    Quotes,
}

impl Trim {
    /// The scalar values that the trim removes.
    pub open spec fn skips(self) -> spec_fn(char) -> bool {
        match self {
            Trim::Whitespace => |c: char| char_whitespace(c),
            Trim::Quotes => |c: char| is_quote(c),
        }
    }

    /// Whether the trim removes `c`.
    pub fn removes(self, c: char) -> (yes: bool)
        ensures
            yes == (self.skips())(c),
    {
        match self {
            Trim::Whitespace => c.is_whitespace(),
            Trim::Quotes => c == '"' || c == '\'' || c == '`',
        }
    }

    /// `s` without the scalar values at either end that the trim removes.
    pub fn apply(self, s: &str) -> (r: String)
        ensures
            r@ == trim_by(s@, self.skips()),
    {
        let v = chars_of(s);
        let ghost skip = self.skips();
        let n = v.len();
        let mut i: usize = 0;
        assert(v@.subrange(0, n as int) == v@);
        while i < n && self.removes(v[i])
            invariant
                i <= n == v.len(),
                skip == self.skips(),
                trim_start_by(v@, skip) == trim_start_by(v@.subrange(i as int, n as int), skip),
            decreases n - i,
        {
            proof {
                lemma_trim_start_step(v@, i as int, skip);
            }
            i += 1;
        }
        let ghost rest = v@.subrange(i as int, n as int);
        assert(trim_start_by(rest, skip) == rest) by {
            if i < n {
                assert(rest[0] == v@[i as int]);
            }
        }
        let mut j: usize = n;
        assert(rest.subrange(0, (n - i) as int) == rest);
        while j > i && self.removes(v[j - 1])
            invariant
                i <= j <= n == v.len(),
                rest == v@.subrange(i as int, n as int),
                skip == self.skips(),
                trim_end_by(rest, skip) == trim_end_by(rest.subrange(0, j - i), skip),
            decreases j,
        {
            proof {
                assert(rest[j - i - 1] == v@[j - 1]);
                lemma_trim_end_step(rest, j - i, skip);
            }
            j -= 1;
        }
        let ghost kept = rest.subrange(0, j - i);
        assert(trim_end_by(kept, skip) == kept) by {
            if j > i {
                assert(kept.last() == v@[j - 1]);
            }
        }
        assert(kept == v@.subrange(i as int, j as int));
        string_from(&v, i, j)
    }
}

/// `s` without leading and trailing whitespace.
pub fn trim(s: &str) -> (r: String)
    ensures
        r@ == trimmed(s@),
{
    Trim::Whitespace.apply(s)
}

/// `s` without the quote characters `"`, `'` and `` ` `` at either end.
pub fn trim_quotes(s: &str) -> (r: String)
    ensures
        r@ == unquoted(s@),
{
    Trim::Quotes.apply(s)
}

/// What `part` yields for each item, concatenated in the order of the
/// items.
pub open spec fn gather<A, B>(items: Seq<A>, part: spec_fn(A) -> Seq<B>) -> Seq<B>
    decreases items.len(),
{
    if items.len() == 0 {
        Seq::empty()
    } else {
        gather(items.drop_last(), part) + part(items.last())
    }
}

/// Gathering from a concatenation concatenates what is gathered.
pub proof fn lemma_gather_add<A, B>(a: Seq<A>, b: Seq<A>, part: spec_fn(A) -> Seq<B>)
    ensures
        gather(a + b, part) == gather(a, part) + gather(b, part),
    decreases b.len(),
{
    if b.len() == 0 {
        assert(a + b == a);
    } else {
        assert((a + b).drop_last() == a + b.drop_last());
        lemma_gather_add(a, b.drop_last(), part);
    }
}

/// Gathering from one item yields its part.
pub proof fn lemma_gather_one<A, B>(x: A, part: spec_fn(A) -> Seq<B>)
    ensures
        gather(seq![x], part) == part(x),
{
    assert(seq![x].drop_last() == Seq::<A>::empty());
    assert(gather(seq![x].drop_last(), part) == Seq::<B>::empty());
}

/// Gathering from two items yields their parts, in order.
pub proof fn lemma_gather_two<A, B>(x: A, y: A, part: spec_fn(A) -> Seq<B>)
    ensures
        gather(seq![x, y], part) == part(x) + part(y),
{
    assert(seq![x, y] == seq![x] + seq![y]);
    lemma_gather_add(seq![x], seq![y], part);
    lemma_gather_one(x, part);
    lemma_gather_one(y, part);
}

/// Gathering from at most two items yields their parts, in order.
pub proof fn lemma_gather_short<A, B>(items: Seq<A>, part: spec_fn(A) -> Seq<B>)
    requires
        items.len() <= 2,
    ensures
        gather(items, part) == (if items.len() == 0 {
            Seq::empty()
        } else if items.len() == 1 {
            part(items[0])
        } else {
            part(items[0]) + part(items[1])
        }),
{
    if items.len() == 1 {
        assert(items == seq![items[0]]);
        lemma_gather_one(items[0], part);
    } else if items.len() == 2 {
        assert(items == seq![items[0], items[1]]);
        lemma_gather_two(items[0], items[1], part);
    }
}

/// Whether `pattern` stands in `s` at the position `at`.
pub open spec fn occurs_at(s: Seq<char>, pattern: Seq<char>, at: int) -> bool {
    0 <= at && at + pattern.len() <= s.len() && s.subrange(at, at + pattern.len()) == pattern
}

/// Whether `pattern` stands in `v` at the position `at`.
pub(crate) fn matches_at(v: &Vec<char>, pattern: &Vec<char>, at: usize) -> (yes: bool)
    requires
        at <= v.len(),
    ensures
        yes == occurs_at(v@, pattern@, at as int),
{
    let n = pattern.len();
    if n > v.len() - at {
        return false;
    }
    let mut i: usize = 0;
    while i < n
        invariant
            i <= n == pattern.len(),
            at + n <= v.len(),
            forall|k: int| 0 <= k < i ==> v@[at + k] == pattern@[k],
        decreases n - i,
    {
        if v[at + i] != pattern[i] {
            assert(v@.subrange(at as int, at + n)[i as int] == v@[at + i]);
            return false;
        }
        i += 1;
    }
    assert(v@.subrange(at as int, at + n) == pattern@);
    true
}

/// `s` with each occurrence of `from` replaced by `to`, the occurrences
/// taken from the left and not overlapping. An empty `from` occurs
/// nowhere.
pub open spec fn replaced(s: Seq<char>, from: Seq<char>, to: Seq<char>) -> Seq<char>
    decreases s.len(),
{
    if s.len() == 0 || from.len() == 0 {
        s
    } else if occurs_at(s, from, 0) {
        to + replaced(s.skip(from.len() as int), from, to)
    } else {
        seq![s[0]] + replaced(s.drop_first(), from, to)
    }
}

/// `s` with each occurrence of `from` replaced by `to`.
pub fn replace_all(s: &str, from: &str, to: &str) -> (r: String)
    ensures
        r@ == replaced(s@, from@, to@),
{
    let v = chars_of(s);
    let pattern = chars_of(from);
    if pattern.len() == 0 {
        return s.to_owned();
    }
    let n = v.len();
    let mut out = String::new();
    let mut i: usize = 0;
    assert(v@.skip(0) == v@);
    assert(out@ + replaced(v@, from@, to@) == replaced(v@, from@, to@));
    while i < n
        invariant
            i <= n == v.len(),
            v@ == s@,
            pattern@ == from@,
            pattern.len() > 0,
            replaced(s@, from@, to@) == out@ + replaced(v@.skip(i as int), from@, to@),
        decreases n - i,
    {
        let ghost rest = v@.skip(i as int);
        let ghost before = out@;
        assert(rest.len() > 0);
        let found = matches_at(&v, &pattern, i);
        assert(found == occurs_at(rest, from@, 0)) by {
            if i + pattern.len() <= n {
                assert(rest.subrange(0, pattern.len() as int) == v@.subrange(
                    i as int,
                    i + pattern.len(),
                ));
            }
        }
        if found {
            out.append(to);
            assert(rest.skip(pattern.len() as int) == v@.skip(i + pattern.len()));
            assert(before + (to@ + replaced(v@.skip(i + pattern.len()), from@, to@)) == before
                + to@ + replaced(v@.skip(i + pattern.len()), from@, to@));
            i += pattern.len();
        } else {
            out.push(v[i]);
            assert(rest[0] == v@[i as int]);
            assert(rest.drop_first() == v@.skip(i + 1));
            assert(before + (seq![v@[i as int]] + replaced(v@.skip(i + 1), from@, to@))
                == before.push(v@[i as int]) + replaced(v@.skip(i + 1), from@, to@));
            i += 1;
        }
    }
    assert(v@.skip(n as int).len() == 0);
    assert(out@ + Seq::<char>::empty() == out@);
    out
}

/// The length of what stands in `s` before the first `separator`, or the
/// length of `s` where it holds none.
pub open spec fn segment_len(s: Seq<char>, separator: char) -> nat
    decreases s.len(),
{
    if s.len() == 0 || s[0] == separator {
        0
    } else {
        1 + segment_len(s.drop_first(), separator)
    }
}

/// The pieces of `s` between the separators, without the empty ones.
pub open spec fn pieces(s: Seq<char>, separator: char) -> Seq<Seq<char>>
    decreases s.len(),
{
    if s.len() == 0 {
        Seq::empty()
    } else {
        let n = segment_len(s, separator) as int;
        if n == 0 {
            pieces(s.drop_first(), separator)
        } else if n < s.len() {
            seq![s.take(n)] + pieces(s.skip(n + 1), separator)
        } else {
            seq![s]
        }
    }
}

/// The models of a list of strings.
pub open spec fn texts(items: Seq<String>) -> Seq<Seq<char>> {
    Seq::new(items.len(), |i: int| items[i]@)
}

/// The pieces of `s` between the separators, without the empty ones.
pub fn split_pieces(s: &str, separator: char) -> (parts: Vec<String>)
    ensures
        texts(parts@) == pieces(s@, separator),
{
    let v = chars_of(s);
    let n = v.len();
    let mut parts: Vec<String> = Vec::new();
    let mut i: usize = 0;
    assert(v@.skip(0) == v@);
    assert(texts(parts@) + pieces(v@, separator) == pieces(v@, separator));
    while i < n
        invariant
            i <= n == v.len(),
            v@ == s@,
            pieces(s@, separator) == texts(parts@) + pieces(v@.skip(i as int), separator),
        decreases n - i,
    {
        let ghost rest = v@.skip(i as int);
        let ghost before = texts(parts@);
        let mut j: usize = i;
        assert(rest.skip(0) == rest);
        while j < n && v[j] != separator
            invariant
                i <= j <= n == v.len(),
                rest == v@.skip(i as int),
                segment_len(rest, separator) == (j - i) + segment_len(
                    v@.skip(j as int),
                    separator,
                ),
            decreases n - j,
        {
            let ghost tail = v@.skip(j as int);
            assert(tail[0] == v@[j as int]);
            assert(tail.drop_first() == v@.skip(j + 1));
            j += 1;
        }
        assert(segment_len(rest, separator) == j - i) by {
            let tail = v@.skip(j as int);
            if j < n {
                assert(tail[0] == v@[j as int]);
            }
        }
        if j == i {
            assert(rest.drop_first() == v@.skip(i + 1));
            i += 1;
        } else {
            parts.push(string_from(&v, i, j));
            assert(rest.take(j - i) == v@.subrange(i as int, j as int));
            assert(texts(parts@) == before.push(rest.take(j - i)));
            if j < n {
                assert(rest.skip(j - i + 1) == v@.skip(j + 1));
                assert(before + (seq![rest.take(j - i)] + pieces(v@.skip(j + 1), separator))
                    == before.push(rest.take(j - i)) + pieces(v@.skip(j + 1), separator));
                i = j + 1;
            } else {
                assert(rest.take(j - i) == rest);
                assert(v@.skip(n as int).len() == 0);
                assert(before + seq![rest] == before.push(rest) + pieces(
                    v@.skip(n as int),
                    separator,
                ));
                i = n;
            }
        }
    }
    assert(v@.skip(n as int).len() == 0);
    assert(texts(parts@) + Seq::<Seq<char>>::empty() == texts(parts@));
    parts
}

/// The pieces of `s` between the separators, the empty ones included: one
/// more piece than `s` holds separators.
pub open spec fn fields(s: Seq<char>, separator: char) -> Seq<Seq<char>>
    decreases s.len(),
{
    let n = segment_len(s, separator) as int;
    if n < s.len() {
        seq![s.take(n)] + fields(s.skip(n + 1), separator)
    } else {
        seq![s]
    }
}

/// The pieces of `s` between the separators, the empty ones included.
pub fn split_fields(s: &str, separator: char) -> (parts: Vec<String>)
    ensures
        texts(parts@) == fields(s@, separator),
{
    let v = chars_of(s);
    let n = v.len();
    let mut parts: Vec<String> = Vec::new();
    let mut i: usize = 0;
    assert(v@.skip(0) == v@);
    assert(texts(parts@) + fields(v@, separator) == fields(v@, separator));
    loop
        invariant
            i <= n == v.len(),
            v@ == s@,
            fields(s@, separator) == texts(parts@) + fields(v@.skip(i as int), separator),
        decreases n - i,
    {
        let ghost rest = v@.skip(i as int);
        let ghost before = texts(parts@);
        let mut j: usize = i;
        assert(rest.skip(0) == rest);
        while j < n && v[j] != separator
            invariant
                i <= j <= n == v.len(),
                rest == v@.skip(i as int),
                segment_len(rest, separator) == (j - i) + segment_len(
                    v@.skip(j as int),
                    separator,
                ),
            decreases n - j,
        {
            let ghost tail = v@.skip(j as int);
            assert(tail[0] == v@[j as int]);
            assert(tail.drop_first() == v@.skip(j + 1));
            j += 1;
        }
        assert(segment_len(rest, separator) == j - i) by {
            let tail = v@.skip(j as int);
            if j < n {
                assert(tail[0] == v@[j as int]);
            }
        }
        parts.push(string_from(&v, i, j));
        assert(rest.take(j - i) == v@.subrange(i as int, j as int));
        assert(texts(parts@) == before.push(rest.take(j - i)));
        if j < n {
            assert(rest.skip(j - i + 1) == v@.skip(j + 1));
            assert(before + (seq![rest.take(j - i)] + fields(v@.skip(j + 1), separator))
                == before.push(rest.take(j - i)) + fields(v@.skip(j + 1), separator));
            i = j + 1;
        } else {
            assert(rest.take(j - i) == rest);
            assert(before + seq![rest] == before.push(rest));
            return parts;
        }
    }
}

/// The items, one after the other, with `separator` between each two.
pub open spec fn joined(items: Seq<Seq<char>>, separator: Seq<char>) -> Seq<char>
    decreases items.len(),
{
    if items.len() == 0 {
        Seq::empty()
    } else if items.len() == 1 {
        items[0]
    } else {
        joined(items.drop_last(), separator) + separator + items.last()
    }
}

/// The items, one after the other, with `separator` between each two.
pub fn join(items: &Vec<String>, separator: &str) -> (text: String)
    ensures
        text@ == joined(texts(items@), separator@),
{
    let ghost all = texts(items@);
    let mut text = String::new();
    let mut i: usize = 0;
    while i < items.len()
        invariant
            i <= items.len(),
            all == texts(items@),
            text@ == joined(all.take(i as int), separator@),
        decreases items.len() - i,
    {
        assert(all.take(i + 1).drop_last() == all.take(i as int));
        assert(all.take(i + 1).last() == items@[i as int]@);
        if i > 0 {
            text.append(separator);
        }
        text.append(items[i].as_str());
        i += 1;
    }
    assert(all.take(items.len() as int) == all);
    text
}

/// `s` without the scalar values `c` at its start.
pub fn trim_start_char(s: &str, c: char) -> (r: String)
    ensures
        r@ == trim_start_by(s@, |x: char| x == c),
{
    let v = chars_of(s);
    let ghost skip = |x: char| x == c;
    let n = v.len();
    let mut i: usize = 0;
    assert(v@.subrange(0, n as int) == v@);
    while i < n && v[i] == c
        invariant
            i <= n == v.len(),
            skip == (|x: char| x == c),
            trim_start_by(v@, skip) == trim_start_by(v@.subrange(i as int, n as int), skip),
        decreases n - i,
    {
        proof {
            lemma_trim_start_step(v@, i as int, skip);
        }
        i += 1;
    }
    let ghost rest = v@.subrange(i as int, n as int);
    assert(trim_start_by(rest, skip) == rest) by {
        if i < n {
            assert(rest[0] == v@[i as int]);
        }
    }
    string_from(&v, i, n)
}

/// `s` without the scalar values `c` at its end.
pub fn trim_end_char(s: &str, c: char) -> (r: String)
    ensures
        r@ == trim_end_by(s@, |x: char| x == c),
{
    let v = chars_of(s);
    let ghost skip = |x: char| x == c;
    let n = v.len();
    let mut j: usize = n;
    assert(v@.subrange(0, n as int) == v@);
    while j > 0 && v[j - 1] == c
        invariant
            j <= n == v.len(),
            skip == (|x: char| x == c),
            trim_end_by(v@, skip) == trim_end_by(v@.subrange(0, j as int), skip),
        decreases j,
    {
        proof {
            lemma_trim_end_step(v@, j as int, skip);
        }
        j -= 1;
    }
    let ghost kept = v@.subrange(0, j as int);
    assert(trim_end_by(kept, skip) == kept) by {
        if j > 0 {
            assert(kept.last() == v@[j - 1]);
        }
    }
    string_from(&v, 0, j)
}

/// The scalar values of `s` that are letters or digits, in order.
pub open spec fn alphanumerics(s: Seq<char>) -> Seq<char> {
    gather(
        s,
        |c: char|
            if char_alphanumeric(c) {
                seq![c]
            } else {
                Seq::empty()
            },
    )
}

/// The scalar values of `s` that are letters or digits, in order.
pub fn keep_alphanumerics(s: &str) -> (kept: String)
    ensures
        kept@ == alphanumerics(s@),
{
    let v = chars_of(s);
    let mut kept = String::new();
    let mut i: usize = 0;
    while i < v.len()
        invariant
            i <= v.len(),
            v@ == s@,
            kept@ == alphanumerics(v@.take(i as int)),
        decreases v.len() - i,
    {
        assert(v@.take(i + 1).drop_last() == v@.take(i as int));
        assert(v@.take(i + 1).last() == v@[i as int]);
        let ghost before = kept@;
        if v[i].is_alphanumeric() {
            kept.push(v[i]);
            assert(before.push(v@[i as int]) == before + seq![v@[i as int]]);
        } else {
            assert(before + Seq::<char>::empty() == before);
        }
        i += 1;
    }
    assert(v@.take(v.len() as int) == v@);
    kept
}

/// The character of a decimal digit.
pub open spec fn digit_char(d: nat) -> char {
    (48 + d) as u8 as char
}

/// The decimal digits of `n`, without leading zeros; none for zero.
pub open spec fn significant_digits(n: nat) -> Seq<char>
    decreases n,
{
    if n == 0 {
        Seq::empty()
    } else {
        significant_digits(n / 10).push(digit_char(n % 10))
    }
}

/// `n` in decimal.
pub open spec fn nat_text(n: nat) -> Seq<char> {
    if n == 0 {
        seq!['0']
    } else {
        significant_digits(n)
    }
}

/// `i` in decimal, with a minus sign where it is negative.
pub open spec fn int_text(i: int) -> Seq<char> {
    if i < 0 {
        seq!['-'] + nat_text((-i) as nat)
    } else {
        nat_text(i as nat)
    }
}

/// `n` in decimal.
pub fn u64_to_string(n: u64) -> (text: String)
    ensures
        text@ == nat_text(n as nat),
{
    proof {
        reveal_strlit("0");
    }
    if n == 0 {
        return "0".to_owned();
    }
    let mut out: Vec<char> = Vec::new();
    let mut rest: u64 = n;
    while rest > 0
        invariant
            significant_digits(n as nat) == significant_digits(rest as nat) + out@,
        decreases rest,
    {
        let digit = (48 + (rest % 10) as u8) as char;
        let ghost before = out@;
        out.insert(0, digit);
        assert(out@ == seq![digit] + before);
        assert(significant_digits((rest / 10) as nat).push(digit) + before == significant_digits(
            (rest / 10) as nat,
        ) + (seq![digit] + before));
        rest = rest / 10;
    }
    assert(significant_digits(0) + out@ == out@);
    string_of(&out)
}

/// `i` in decimal, with a minus sign where it is negative.
pub fn i64_to_string(i: i64) -> (text: String)
    ensures
        text@ == int_text(i as int),
{
    if i < 0 {
        let magnitude: u64 = (-(i + 1)) as u64 + 1;
        let mut text = "-".to_owned();
        text.append(u64_to_string(magnitude).as_str());
        proof {
            reveal_strlit("-");
        }
        text
    } else {
        u64_to_string(i as u64)
    }
}

/// The numbers of a list of bytes in decimal, separated by a comma and a
/// space.
pub open spec fn byte_list(bytes: Seq<u8>) -> Seq<char>
    decreases bytes.len(),
{
    if bytes.len() == 0 {
        Seq::empty()
    } else if bytes.len() == 1 {
        nat_text(bytes[0] as nat)
    } else {
        byte_list(bytes.drop_last()) + ", "@ + nat_text(bytes.last() as nat)
    }
}

/// A list of bytes as text: the numbers between brackets.
pub open spec fn bytes_text(bytes: Seq<u8>) -> Seq<char> {
    "["@ + byte_list(bytes) + "]"@
}

/// A list of bytes as text: the numbers in decimal, separated by a comma and
/// a space, between brackets.
pub fn bytes_to_string(bytes: &Vec<u8>) -> (text: String)
    ensures
        text@ == bytes_text(bytes@),
{
    let mut text = "[".to_owned();
    let mut i: usize = 0;
    while i < bytes.len()
        invariant
            i <= bytes.len(),
            text@ == "["@ + byte_list(bytes@.take(i as int)),
        decreases bytes.len() - i,
    {
        assert(bytes@.take(i + 1).drop_last() == bytes@.take(i as int));
        assert(bytes@.take(i + 1).last() == bytes@[i as int]);
        if i > 0 {
            text.append(", ");
        }
        text.append(u64_to_string(bytes[i] as u64).as_str());
        assert(text@ == "["@ + byte_list(bytes@.take(i + 1)));
        i += 1;
    }
    assert(bytes@.take(bytes.len() as int) == bytes@);
    text.append("]");
    text
}

/// `true` or `false`.
pub open spec fn bool_text(v: bool) -> Seq<char> {
    if v {
        "true"@
    } else {
        "false"@
    }
}

/// `true` or `false`.
pub fn bool_to_string(v: bool) -> (text: String)
    ensures
        text@ == bool_text(v),
{
    if v {
        "true".to_owned()
    } else {
        "false".to_owned()
    }
}

/// Whether `a` comes before `b` in the order of strings: scalar value by
/// scalar value, a prefix before what it is a prefix of.
pub open spec fn text_lt(a: Seq<char>, b: Seq<char>) -> bool
    decreases a.len(),
{
    if b.len() == 0 {
        false
    } else if a.len() == 0 {
        true
    } else if (a[0] as int) < (b[0] as int) {
        true
    } else if (a[0] as int) > (b[0] as int) {
        false
    } else {
        text_lt(a.drop_first(), b.drop_first())
    }
}

/// How two strings stand to each other in the order of strings.
#[derive(Debug, Clone, Copy, PartialEq, Eq, Structural)]
pub enum TextOrder {
    Before,
    Same,
    After,
}

/// How `a` stands to `b` in the order of strings.
pub open spec fn text_order(a: Seq<char>, b: Seq<char>) -> TextOrder {
    if a == b {
        TextOrder::Same
    } else if text_lt(a, b) {
        TextOrder::Before
    } else {
        TextOrder::After
    }
}

/// The order of two strings is decided behind a common first scalar value.
pub proof fn lemma_text_order_step(a: Seq<char>, b: Seq<char>)
    requires
        a.len() > 0,
        b.len() > 0,
        a[0] == b[0],
    ensures
        text_order(a, b) == text_order(a.drop_first(), b.drop_first()),
{
    if a.drop_first() == b.drop_first() {
        assert(a == seq![a[0]] + a.drop_first());
        assert(b == seq![b[0]] + b.drop_first());
    }
}

/// How `a` stands to `b` in the order of strings.
pub fn order_of(a: &str, b: &str) -> (order: TextOrder)
    ensures
        order == text_order(a@, b@),
{
    let x = chars_of(a);
    let y = chars_of(b);
    let mut i: usize = 0;
    assert(x@.skip(0) == x@ && y@.skip(0) == y@);
    while i < x.len() && i < y.len()
        invariant
            i <= x.len(),
            i <= y.len(),
            x@ == a@,
            y@ == b@,
            text_order(x@, y@) == text_order(x@.skip(i as int), y@.skip(i as int)),
        decreases x.len() - i,
    {
        let ghost p = x@.skip(i as int);
        let ghost q = y@.skip(i as int);
        assert(p[0] == x@[i as int] && q[0] == y@[i as int]);
        assert(p.drop_first() == x@.skip(i + 1) && q.drop_first() == y@.skip(i + 1));
        let c = char_code(x[i]);
        let d = char_code(y[i]);
        if c < d {
            assert(p[0] != q[0]);
            return TextOrder::Before;
        }
        if c > d {
            assert(p[0] != q[0]);
            return TextOrder::After;
        }
        proof {
            lemma_text_order_step(p, q);
        }
        i += 1;
    }
    let ghost p = x@.skip(i as int);
    let ghost q = y@.skip(i as int);
    if i < y.len() {
        assert(p.len() == 0 && q.len() > 0);
        TextOrder::Before
    } else if i < x.len() {
        assert(q.len() == 0);
        TextOrder::After
    } else {
        assert(p == q);
        TextOrder::Same
    }
}

/// The number of a scalar value.
pub fn char_code(c: char) -> (code: u32)
    ensures
        code as int == c as int,
{
    c as u32
}

} // verus!
