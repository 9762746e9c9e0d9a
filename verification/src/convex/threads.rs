//! Threads as the document store holds them.

use vstd::prelude::*;

use crate::convex::{
    optional_string_field, read_optional_string_field, read_string_field, string_field,
    ConvexError,
};
use crate::convex::messages::{one_member, two_members};
use crate::convex_serde::de::{Error, ErrorView};
use crate::convex_serde::ser::insert_member;
use crate::convex_serde::value::{lemma_object_view, member_views, Value, ValueView};

verus! {

/// A conversation: its id and its title, if one was set.
#[derive(Debug, Clone, PartialEq, Eq)]
pub struct Thread {
    pub id: String,
    pub title: Option<String>,
}

/// Model of a [`Thread`].
pub struct ThreadView {
    pub id: Seq<char>,
    pub title: Option<Seq<char>>,
}

impl View for Thread {
    type V = ThreadView;

    open spec fn view(&self) -> ThreadView {
        ThreadView {
            id: self.id@,
            title: match self.title {
                Some(title) => Some(title@),
                None => None,
            },
        }
    }
}

/// The thread that the answer of the store holds: null is no thread; else
/// it must be an object with a string member `_id`, and its member `title`
/// is a string where the title is set.
pub open spec fn thread_of(answer: ValueView) -> Result<Option<ThreadView>, ErrorView> {
    match answer {
        ValueView::Null => Ok(None),
        ValueView::Object(members) => match string_field(members, "_id"@) {
            Err(error) => Err(error),
            Ok(id) => match optional_string_field(members, "title"@) {
                Err(error) => Err(error),
                Ok(title) => Ok(Some(ThreadView { id, title })),
            },
        },
        other => Err(ErrorView::ExpectedObject(other)),
    }
}

/// Name of the query that fetches a thread.
pub const GET_BY_ID: &'static str = "threads:getById";

/// Name of the mutation that sets the title of a thread.
pub const SET_TITLE: &'static str = "threads:apiSetTitle";

/// The arguments of the query that fetches the thread `id`.
pub fn get_by_id(id: String) -> (args: Vec<(String, Value)>)
    ensures
        member_views(args@) == one_member("id"@, ValueView::String(id@)),
{
    let mut args: Vec<(String, Value)> = Vec::new();
    assert(member_views(args@) == Seq::<(Seq<char>, ValueView)>::empty());
    insert_member(&mut args, "id".to_owned(), Value::String(id));
    args
}

/// The arguments of the mutation that sets the title of a thread.
pub fn set_title(thread_id: String, title: String) -> (args: Vec<(String, Value)>)
    ensures
        member_views(args@) == two_members(
            "threadId"@,
            ValueView::String(thread_id@),
            "title"@,
            ValueView::String(title@),
        ),
{
    let mut args: Vec<(String, Value)> = Vec::new();
    assert(member_views(args@) == Seq::<(Seq<char>, ValueView)>::empty());
    insert_member(&mut args, "threadId".to_owned(), Value::String(thread_id));
    insert_member(&mut args, "title".to_owned(), Value::String(title));
    args
}

impl Thread {
    /// Reads the thread off the answer of the store; `None` where the store
    /// has no such thread.
    pub fn from_answer(answer: &Value) -> (read: Result<Option<Thread>, ConvexError>)
        ensures
            match thread_of(answer@) {
                Ok(Some(thread)) => read matches Ok(Some(t)) && t@ == thread,
                Ok(None) => read matches Ok(None),
                Err(error) => read matches Err(ConvexError::Deserialization(e)) && e@ == error,
            },
    {
        match answer {
            Value::Null => Ok(None),
            Value::Object(members) => {
                proof {
                    lemma_object_view(*members);
                }
                let id = match read_string_field(members, "_id") {
                    Ok(id) => id,
                    Err(error) => {
                        return Err(ConvexError::Deserialization(error));
                    },
                };
                let title = match read_optional_string_field(members, "title") {
                    Ok(title) => title,
                    Err(error) => {
                        return Err(ConvexError::Deserialization(error));
                    },
                };
                Ok(Some(Thread { id, title }))
            },
            other => Err(ConvexError::Deserialization(Error::ExpectedObject(other.duplicate()))),
        }
    }
}

} // verus!
