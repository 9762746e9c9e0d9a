//! Starting a chat that streams a canned reply in small chunks.

use vstd::prelude::*;

use crate::convex_serde::ser::{insert_member, inserted};
use crate::convex_serde::value::{member_views, Value, ValueView};
use crate::text::{chars_of, concat, string_from};

verus! {

/// One content part of a message in a request.
#[derive(Debug, Clone, PartialEq, Eq)]
pub enum MessagePart {
    Text { text: String },
}

/// Model parameters as a request names them.
#[derive(Debug, Clone, PartialEq, Eq)]
pub struct ModelParamsRequest {
    pub reasoning_effort: String,
    pub include_search: bool,
}

/// The request that starts a chat.
#[derive(Debug, Clone, PartialEq, Eq)]
pub struct CreateChatRequest {
    pub message_parts: Vec<MessagePart>,
    pub thread_id: String,
    pub response_message_id: String,
    pub model: String,
    pub model_params: Option<ModelParamsRequest>,
}

/// Why a chat was not started.
#[derive(Debug, Clone, PartialEq, Eq)]
pub enum CreateChatError {
    UnexpectedError(String),
    GetResponseMessageError(String),
}

/// What an error of a request for a chat says.
pub open spec fn create_chat_error_message(error: CreateChatError) -> Seq<char> {
    match error {
        CreateChatError::UnexpectedError(text) => "unexpected error: "@ + text@,
        CreateChatError::GetResponseMessageError(text) => "failed to get response message: "@
            + text@,
    }
}

impl CreateChatError {
    /// What the error says.
    pub fn to_string(&self) -> (text: String)
        ensures
            text@ == create_chat_error_message(*self),
    {
        match self {
            CreateChatError::UnexpectedError(text) => concat("unexpected error: ", text.as_str()),
            CreateChatError::GetResponseMessageError(text) => concat(
                "failed to get response message: ",
                text.as_str(),
            ),
        }
    }

    /// The HTTP status that answers the request.
    pub fn status_code(&self) -> (status: u16)
        ensures
            status == match self {
                CreateChatError::UnexpectedError(_) => 500u16,
                CreateChatError::GetResponseMessageError(_) => 400u16,
            },
    {
        match self {
            CreateChatError::UnexpectedError(_) => 500,
            CreateChatError::GetResponseMessageError(_) => 400,
        }
    }
}

/// The members that pairs of name and text make, set one after the other.
pub open spec fn args_members(pairs: Seq<(String, String)>) -> Seq<(Seq<char>, ValueView)>
    decreases pairs.len(),
{
    if pairs.len() == 0 {
        Seq::empty()
    } else {
        inserted(
            args_members(pairs.drop_last()),
            pairs.last().0@,
            ValueView::String(pairs.last().1@),
        )
    }
}

/// The arguments of a call from pairs of name and text; of two pairs with
/// one name, the later counts.
pub fn args(pairs: Vec<(String, String)>) -> (call: Vec<(String, Value)>)
    ensures
        member_views(call@) == args_members(pairs@),
{
    let ghost given = pairs@;
    let mut call: Vec<(String, Value)> = Vec::new();
    assert(member_views(call@) == Seq::<(Seq<char>, ValueView)>::empty());
    for pair in it: pairs
        invariant
            it.seq() == given,
            member_views(call@) == args_members(given.take(it.index() as int)),
    {
        assert(given.take(it.index() + 1).drop_last() == given.take(it.index() as int));
        assert(given.take(it.index() + 1).last() == pair);
        insert_member(&mut call, pair.0, Value::String(pair.1));
    }
    assert(given.take(given.len() as int) == given);
    call
}

/// How many chunks of `chunk_size` scalar values `len` scalar values make:
/// the last chunk may be shorter.
pub open spec fn chunk_count(len: nat, chunk_size: nat) -> nat
    recommends
        chunk_size > 0,
{
    ((len + chunk_size - 1) / chunk_size as int) as nat
}

/// The chunk with the number `k` of `s`.
pub open spec fn chunk(s: Seq<char>, chunk_size: nat, k: int) -> Seq<char> {
    let start = k * chunk_size;
    let end = if start + chunk_size <= s.len() {
        start + chunk_size
    } else {
        s.len() as int
    };
    s.subrange(start, end)
}

/// Cuts `s` into chunks of `chunk_size` scalar values; the last chunk holds
/// what is left. The chunks, one after the other, make `s`.
pub fn str_chunks(s: &str, chunk_size: usize) -> (chunks: Vec<String>)
    requires
        chunk_size > 0,
    ensures
        chunks@.len() == chunk_count(s@.len(), chunk_size as nat),
        forall|k: int|
            0 <= k < chunks@.len() ==> (#[trigger] chunks@[k])@ == chunk(s@, chunk_size as nat, k),
{
    let v = chars_of(s);
    let n = v.len();
    let mut chunks: Vec<String> = Vec::new();
    let mut start: usize = 0;
    assert(0 * chunk_size == 0) by (nonlinear_arith);
    while start < n
        invariant
            start <= n == v.len(),
            v@ == s@,
            chunk_size > 0,
            start == chunks@.len() * chunk_size,
            forall|k: int|
                0 <= k < chunks@.len() ==> (#[trigger] chunks@[k])@ == chunk(
                    s@,
                    chunk_size as nat,
                    k,
                ),
        decreases n - start,
    {
        let end = if chunk_size <= n - start {
            start + chunk_size
        } else {
            n
        };
        let ghost k = chunks@.len() as int;
        chunks.push(string_from(&v, start, end));
        assert(chunks@[k]@ == chunk(s@, chunk_size as nat, k));
        assert((k + 1) * chunk_size == k * chunk_size + chunk_size) by (nonlinear_arith);
        if end == n {
            proof {
                lemma_chunk_count(n as nat, chunk_size as nat, k);
            }
            return chunks;
        }
        start = end;
    }
    proof {
        lemma_chunk_count_exact(n as nat, chunk_size as nat, chunks@.len() as int);
    }
    chunks
}

/// Where the chunk with the number `k` is the last, there are `k + 1`
/// chunks.
pub proof fn lemma_chunk_count(len: nat, chunk_size: nat, k: int)
    requires
        chunk_size > 0,
        0 <= k,
        k * chunk_size < len <= k * chunk_size + chunk_size,
    ensures
        chunk_count(len, chunk_size) == k + 1,
{
    let total = len + chunk_size - 1;
    assert((k + 1) * chunk_size == k * chunk_size + chunk_size) by (nonlinear_arith);
    assert(total / (chunk_size as int) == k + 1) by (nonlinear_arith)
        requires
            chunk_size > 0,
            0 <= k,
            (k + 1) * chunk_size <= total < (k + 1) * chunk_size + chunk_size,
    {
    }
}

/// Where `k` full chunks make the whole, there are `k` chunks.
pub proof fn lemma_chunk_count_exact(len: nat, chunk_size: nat, k: int)
    requires
        chunk_size > 0,
        0 <= k,
        len == k * chunk_size,
    ensures
        chunk_count(len, chunk_size) == k,
{
    let total = len + chunk_size - 1;
    assert(total / (chunk_size as int) == k) by (nonlinear_arith)
        requires
            chunk_size > 0,
            0 <= k,
            k * chunk_size <= total < k * chunk_size + chunk_size,
    {
    }
}

} // verus!
