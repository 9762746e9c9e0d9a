//! Attachments as the document store holds them.

use vstd::prelude::*;

use crate::convex::messages::one_member;
use crate::convex_serde::ser::insert_member;
use crate::convex_serde::value::{member_views, Value, ValueView};

verus! {

/// A file attached to a message.
#[derive(Debug, Clone, PartialEq, Eq)]
pub struct Attachment {
    pub id: String,
    pub name: String,
    pub url: String,
    pub mime_type: String,
}

/// Name of the query that fetches an attachment.
pub const GET_BY_ID: &'static str = "attachments:apiGetById";

/// The arguments of the query that fetches the attachment `id`.
pub fn get_by_id(id: String) -> (args: Vec<(String, Value)>)
    ensures
        member_views(args@) == one_member("id"@, ValueView::String(id@)),
{
    let mut args: Vec<(String, Value)> = Vec::new();
    assert(member_views(args@) == Seq::<(Seq<char>, ValueView)>::empty());
    insert_member(&mut args, "id".to_owned(), Value::String(id));
    args
}

} // verus!
