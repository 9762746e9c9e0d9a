//! The value model of the document store.

use vstd::prelude::*;

use crate::text::{
    bool_text, bool_to_string, bytes_text, bytes_to_string, debug_str, i64_to_string, int_text,
    joined, nat_text, str_debug, u64_to_string,
};

verus! {

/// One value of the document store.
///
/// A 64-bit float is held by its IEEE 754 bit pattern. An object holds its
/// members as pairs of key and value.
#[derive(Debug, PartialEq, Eq)]
pub enum Value {
    Null,
    Int64(i64),
    Float64(u64),
    Boolean(bool),
    String(String),
    Bytes(Vec<u8>),
    Array(Vec<Value>),
    Object(Vec<(String, Value)>),
}

/// Mathematical model of a [`Value`].
pub enum ValueView {
    Null,
    Int64(i64),
    Float64(u64),
    Boolean(bool),
    String(Seq<char>),
    Bytes(Seq<u8>),
    Array(Seq<ValueView>),
    Object(Seq<(Seq<char>, ValueView)>),
}

/// The model of a value: every string by its scalar values, every list by
/// the models of its items.
pub open spec fn value_model(v: Value) -> ValueView
    decreases v,
{
    match v {
        Value::Null => ValueView::Null,
        Value::Int64(i) => ValueView::Int64(i),
        Value::Float64(bits) => ValueView::Float64(bits),
        Value::Boolean(b) => ValueView::Boolean(b),
        Value::String(s) => ValueView::String(s@),
        Value::Bytes(b) => ValueView::Bytes(b@),
        Value::Array(items) => ValueView::Array(
            Seq::new(
                items@.len(),
                |i: int|
                    if 0 <= i < items@.len() {
                        value_model(items@[i])
                    } else {
                        ValueView::Null
                    },
            ),
        ),
        Value::Object(entries) => ValueView::Object(
            Seq::new(
                entries@.len(),
                |i: int|
                    if 0 <= i < entries@.len() {
                        (entries@[i].0@, value_model(entries@[i].1))
                    } else {
                        (Seq::empty(), ValueView::Null)
                    },
            ),
        ),
    }
}

impl View for Value {
    type V = ValueView;

    open spec fn view(&self) -> ValueView {
        value_model(*self)
    }
}

/// The models of a sequence of values, item by item.
pub open spec fn value_views(items: Seq<Value>) -> Seq<ValueView> {
    Seq::new(items.len(), |i: int| items[i]@)
}

/// The models of a sequence of object members, item by item.
pub open spec fn member_views(entries: Seq<(String, Value)>) -> Seq<(Seq<char>, ValueView)> {
    Seq::new(entries.len(), |i: int| (entries[i].0@, entries[i].1@))
}

/// The view of an array is the views of its items.
pub proof fn lemma_array_view(items: Vec<Value>)
    ensures
        Value::Array(items)@ == ValueView::Array(value_views(items@)),
{
    assert(Value::Array(items)@->Array_0 =~= value_views(items@));
}

/// The view of an object is the views of its members.
pub proof fn lemma_object_view(entries: Vec<(String, Value)>)
    ensures
        Value::Object(entries)@ == ValueView::Object(member_views(entries@)),
{
    assert(Value::Object(entries)@->Object_0 =~= member_views(entries@));
}

/// A value as text, for messages: the kind of the value and, between
/// parentheses, what it holds. A float is shown by its bits, a string as the
/// `Debug` format of std shows it, an array between brackets, an object
/// between braces with a colon behind each key.
pub open spec fn value_text(v: ValueView) -> Seq<char>
    decreases v, 1nat,
{
    match v {
        ValueView::Null => "Null"@,
        ValueView::Int64(i) => "Int64("@ + int_text(i as int) + ")"@,
        ValueView::Float64(bits) => "Float64("@ + nat_text(bits as nat) + ")"@,
        ValueView::Boolean(b) => "Boolean("@ + bool_text(b) + ")"@,
        ValueView::String(s) => "String("@ + str_debug(s) + ")"@,
        ValueView::Bytes(b) => "Bytes("@ + bytes_text(b) + ")"@,
        ValueView::Array(_) => "Array(["@ + joined(part_texts(v), ", "@) + "])"@,
        ValueView::Object(_) => "Object({"@ + joined(part_texts(v), ", "@) + "})"@,
    }
}

/// The parts of an array or of an object as text: each item of an array,
/// each member of an object as its key, a colon and its value.
pub open spec fn part_texts(v: ValueView) -> Seq<Seq<char>>
    decreases v, 0nat,
{
    match v {
        ValueView::Array(items) => Seq::new(
            items.len(),
            |i: int|
                if 0 <= i < items.len() {
                    value_text(items[i])
                } else {
                    Seq::empty()
                },
        ),
        ValueView::Object(members) => Seq::new(
            members.len(),
            |i: int|
                if 0 <= i < members.len() {
                    str_debug(members[i].0) + ": "@ + value_text(members[i].1)
                } else {
                    Seq::empty()
                },
        ),
        _ => Seq::empty(),
    }
}

impl Value {
    /// The value as text, for messages.
    #[verifier::loop_isolation(false)]
    pub fn to_text(&self) -> (text: String)
        ensures
            text@ == value_text(self@),
        decreases self,
    {
        match self {
            Value::Null => "Null".to_owned(),
            Value::Int64(i) => {
                let mut text = "Int64(".to_owned();
                text.append(i64_to_string(*i).as_str());
                text.append(")");
                text
            },
            Value::Float64(bits) => {
                let mut text = "Float64(".to_owned();
                text.append(u64_to_string(*bits).as_str());
                text.append(")");
                text
            },
            Value::Boolean(b) => {
                let mut text = "Boolean(".to_owned();
                text.append(bool_to_string(*b).as_str());
                text.append(")");
                text
            },
            Value::String(s) => {
                let mut text = "String(".to_owned();
                text.append(debug_str(s.as_str()).as_str());
                text.append(")");
                text
            },
            Value::Bytes(b) => {
                let mut text = "Bytes(".to_owned();
                text.append(bytes_to_string(b).as_str());
                text.append(")");
                text
            },
            Value::Array(items) => {
                proof {
                    lemma_array_view(*items);
                }
                let ghost parts = part_texts(self@);
                assert(parts.len() == items@.len());
                assert(forall|k: int|
                    0 <= k < items@.len() ==> #[trigger] parts[k] == value_text(items@[k]@));
                let mut text = "Array([".to_owned();
                let mut i: usize = 0;
                while i < items.len()
                    invariant
                        i <= items.len(),
                        text@ == "Array(["@ + joined(parts.take(i as int), ", "@),
                    decreases items.len() - i,
                {
                    assert(parts.take(i + 1).drop_last() == parts.take(i as int));
                    assert(parts.take(i + 1).last() == value_text(items@[i as int]@));
                    if i > 0 {
                        text.append(", ");
                    }
                    text.append(items[i].to_text().as_str());
                    assert(text@ == "Array(["@ + joined(parts.take(i + 1), ", "@));
                    i += 1;
                }
                assert(parts.take(items.len() as int) == parts);
                text.append("])");
                text
            },
            Value::Object(entries) => {
                proof {
                    lemma_object_view(*entries);
                }
                let ghost parts = part_texts(self@);
                assert(parts.len() == entries@.len());
                assert(forall|k: int|
                    0 <= k < entries@.len() ==> #[trigger] parts[k] == str_debug(entries@[k].0@)
                        + ": "@ + value_text(entries@[k].1@));
                let mut text = "Object({".to_owned();
                let mut i: usize = 0;
                while i < entries.len()
                    invariant
                        i <= entries.len(),
                        text@ == "Object({"@ + joined(parts.take(i as int), ", "@),
                    decreases entries.len() - i,
                {
                    assert(parts.take(i + 1).drop_last() == parts.take(i as int));
                    assert(parts.take(i + 1).last() == str_debug(entries@[i as int].0@) + ": "@
                        + value_text(entries@[i as int].1@));
                    if i > 0 {
                        text.append(", ");
                    }
                    text.append(debug_str(entries[i].0.as_str()).as_str());
                    text.append(": ");
                    text.append(entries[i].1.to_text().as_str());
                    assert(text@ == "Object({"@ + joined(parts.take(i + 1), ", "@));
                    i += 1;
                }
                assert(parts.take(entries.len() as int) == parts);
                text.append("})");
                text
            },
        }
    }

    /// A deep copy of the value.
    #[verifier::loop_isolation(false)]
    pub fn duplicate(&self) -> (copy: Value)
        ensures
            copy@ == self@,
        decreases self,
    {
        match self {
            Value::Null => Value::Null,
            Value::Int64(i) => Value::Int64(*i),
            Value::Float64(bits) => Value::Float64(*bits),
            Value::Boolean(b) => Value::Boolean(*b),
            Value::String(s) => Value::String(s.clone()),
            Value::Bytes(b) => Value::Bytes(b.clone()),
            Value::Array(items) => {
                let mut out: Vec<Value> = Vec::new();
                let mut i: usize = 0;
                while i < items.len()
                    invariant
                        i <= items.len(),
                        out.len() == i,
                        forall|k: int| 0 <= k < i ==> out@[k]@ == items@[k]@,
                    decreases items.len() - i,
                {
                    let item = items[i].duplicate();
                    out.push(item);
                    i += 1;
                }
                proof {
                    lemma_array_view(out);
                    lemma_array_view(*items);
                    assert(value_views(out@) =~= value_views(items@));
                }
                Value::Array(out)
            },
            Value::Object(entries) => {
                let mut out: Vec<(String, Value)> = Vec::new();
                let mut i: usize = 0;
                while i < entries.len()
                    invariant
                        i <= entries.len(),
                        out.len() == i,
                        forall|k: int|
                            0 <= k < i ==> out@[k].0@ == entries@[k].0@ && out@[k].1@
                                == entries@[k].1@,
                    decreases entries.len() - i,
                {
                    let item = entries[i].1.duplicate();
                    out.push((entries[i].0.clone(), item));
                    i += 1;
                }
                proof {
                    lemma_object_view(out);
                    lemma_object_view(*entries);
                    assert(member_views(out@) =~= member_views(entries@));
                }
                Value::Object(out)
            },
        }
    }
}

} // verus!
