//! Reading the head of the tracked branch from the answer of the remote.
//!
//! The remote answers a commit query with a JSON object whose member `value`
//! lists the commits of the branch, newest first, each an object with the
//! text member `commitId`.

use crate::error::RemoteQueryError;
use crate::json::{field, json_document, parse, Json, JsonView};
use vstd::prelude::*;

verus! {

/// The identifier that a listed commit bears, where it bears one.
pub open spec fn commit_id(entry: JsonView) -> Option<Seq<char>> {
    match field(entry, "commitId"@) {
        Some(JsonView::Text(id)) => Some(id),
        _ => None,
    }
}

/// The head of the branch according to a commit listing.
///
/// A listing without commits is an error of its own and never reads as
/// "nothing changed". A document of any other shape is malformed, also
/// where only a later entry is at fault.
pub open spec fn listing_head(doc: JsonView) -> Result<Seq<char>, RemoteQueryError> {
    match field(doc, "value"@) {
        Some(JsonView::List(entries)) => if entries.len() == 0 {
            Err(RemoteQueryError::EmptyHistory)
        } else if forall|i: int| 0 <= i < entries.len() ==> commit_id(#[trigger] entries[i]) is Some {
            Ok(commit_id(entries[0])->Some_0)
        } else {
            Err(RemoteQueryError::Malformed)
        },
        _ => Err(RemoteQueryError::Malformed),
    }
}

/// The head of the branch according to the body of an answer, given the
/// document that the body was read as.
pub open spec fn body_head(document: Option<JsonView>) -> Result<Seq<char>, RemoteQueryError> {
    match document {
        Some(doc) => listing_head(doc),
        None => Err(RemoteQueryError::Malformed),
    }
}

/// What came back from the commit query.
#[derive(Debug)]
pub enum RemoteReply {
    /// No answer: the service could not be reached.
    Unreachable,
    /// No answer within the time allowed.
    TimedOut,
    /// An answer, with its HTTP status and its body.
    Response { status: u16, body: String },
}

/// The mathematical value of a [`RemoteReply`].
pub enum RemoteReplyView {
    Unreachable,
    TimedOut,
    Response { status: u16, body: Seq<char> },
}

impl View for RemoteReply {
    type V = RemoteReplyView;

    open spec fn view(&self) -> RemoteReplyView {
        match *self {
            RemoteReply::Unreachable => RemoteReplyView::Unreachable,
            RemoteReply::TimedOut => RemoteReplyView::TimedOut,
            RemoteReply::Response { status, body } => RemoteReplyView::Response {
                status,
                body: body@,
            },
        }
    }
}

/// What a status says before the body is looked at: the error that it
/// stands for, or `None` for a success, whose body decides.
pub open spec fn status_error(status: u16) -> Option<RemoteQueryError> {
    if status == 401 || status == 403 {
        Some(RemoteQueryError::Auth)
    } else if 200 <= status <= 299 {
        None
    } else {
        Some(RemoteQueryError::Network)
    }
}

/// The head of the branch according to a reply, given the document that
/// the body of a successful answer was read as.
pub open spec fn reply_head(reply: RemoteReplyView, document: Option<JsonView>) -> Result<
    Seq<char>,
    RemoteQueryError,
> {
    match reply {
        RemoteReplyView::Unreachable => Err(RemoteQueryError::Network),
        RemoteReplyView::TimedOut => Err(RemoteQueryError::TimedOut),
        RemoteReplyView::Response { status, .. } => match status_error(status) {
            Some(e) => Err(e),
            None => body_head(document),
        },
    }
}

/// The document that the body of a reply is read as; a reply without a
/// body has none.
pub open spec fn reply_document(reply: RemoteReplyView) -> Option<JsonView> {
    match reply {
        RemoteReplyView::Response { body, .. } => json_document(body),
        _ => None,
    }
}

/// Whether two results of a lookup are the same: an identifier by its
/// characters, an error by its kind.
pub open spec fn same_head(
    r: Result<String, RemoteQueryError>,
    expected: Result<Seq<char>, RemoteQueryError>,
) -> bool {
    match r {
        Ok(id) => expected == Ok::<Seq<char>, RemoteQueryError>(id@),
        Err(e) => expected == Err::<Seq<char>, RemoteQueryError>(e),
    }
}

/// Reads the identifier of one listed commit.
pub fn entry_commit_id(entry: &Json) -> (id: Option<&String>)
    ensures
        match id {
            Some(s) => commit_id(entry@) == Some(s@),
            None => commit_id(entry@) is None,
        },
{
    match entry.get("commitId") {
        Some(Json::Text(id)) => Some(id),
        _ => None,
    }
}

/// Reads the head of the branch from a commit listing.
pub fn head_of_listing(doc: &Json) -> (r: Result<String, RemoteQueryError>)
    ensures
        same_head(r, listing_head(doc@)),
{
    match doc.get("value") {
        Some(Json::List(entries)) => {
            if entries.len() == 0 {
                return Err(RemoteQueryError::EmptyHistory);
            }
            let ghost listed = field(doc@, "value"@)->Some_0->List_0;
            assert(listed.len() == entries.len());
            assert(forall|k: int| 0 <= k < entries.len() ==> #[trigger] listed[k] == entries[k]@);
            let mut i: usize = 0;
            while i < entries.len()
                invariant
                    i <= entries.len(),
                    field(doc@, "value"@) == Some(JsonView::List(listed)),
                    listed.len() == entries.len(),
                    forall|k: int| 0 <= k < entries.len() ==> #[trigger] listed[k] == entries[k]@,
                    forall|k: int| 0 <= k < i ==> commit_id(#[trigger] listed[k]) is Some,
                decreases entries.len() - i,
            {
                if entry_commit_id(&entries[i]).is_none() {
                    assert(commit_id(listed[i as int]) is None);
                    return Err(RemoteQueryError::Malformed);
                }
                i = i + 1;
            }
            match entry_commit_id(&entries[0]) {
                Some(id) => {
                    assert(commit_id(listed[0]) == Some(id@));
                    Ok(id.clone())
                },
                None => Err(RemoteQueryError::Malformed),
            }
        },
        _ => Err(RemoteQueryError::Malformed),
    }
}

/// Reads the head of the branch from the body of a successful answer.
pub fn head_of_body(body: &str) -> (r: Result<String, RemoteQueryError>)
    ensures
        same_head(r, body_head(json_document(body@))),
{
    match parse(body) {
        Some(doc) => head_of_listing(&doc),
        None => Err(RemoteQueryError::Malformed),
    }
}

/// Tells the statuses that stand for an error from those of a success.
pub fn classify_status(status: u16) -> (e: Option<RemoteQueryError>)
    ensures
        e == status_error(status),
{
    if status == 401 || status == 403 {
        Some(RemoteQueryError::Auth)
    } else if 200 <= status && status <= 299 {
        None
    } else {
        Some(RemoteQueryError::Network)
    }
}

/// Reads the head of the branch from a reply whose body, where it has one
/// that counts, was already read as `document`.
pub fn head_of_reply(reply: &RemoteReply, document: Option<&Json>) -> (r: Result<
    String,
    RemoteQueryError,
>)
    ensures
        same_head(
            r,
            reply_head(
                reply@,
                match document {
                    Some(d) => Some(d@),
                    None => None,
                },
            ),
        ),
{
    match reply {
        RemoteReply::Unreachable => Err(RemoteQueryError::Network),
        RemoteReply::TimedOut => Err(RemoteQueryError::TimedOut),
        RemoteReply::Response { status, .. } => match classify_status(*status) {
            Some(e) => Err(e),
            None => match document {
                Some(doc) => head_of_listing(doc),
                None => Err(RemoteQueryError::Malformed),
            },
        },
    }
}

/// Resolves the head of the tracked branch from what came back from the
/// commit query. Nothing is retried here.
pub fn resolve(reply: &RemoteReply) -> (r: Result<String, RemoteQueryError>)
    ensures
        same_head(r, reply_head(reply@, reply_document(reply@))),
{
    match reply {
        RemoteReply::Response { status, body } => {
            if classify_status(*status).is_some() {
                head_of_reply(reply, None)
            } else {
                let document = parse(body.as_str());
                head_of_reply(reply, document.as_ref())
            }
        },
        _ => head_of_reply(reply, None),
    }
}

} // verus!
