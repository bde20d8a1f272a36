//! The HTTP answers of the dashboard's two endpoints.
use vstd::prelude::*;

verus! {

/// The content type of an answer.
#[derive(Clone, Copy, Debug, PartialEq, Eq, Structural)]
pub enum ContentKind {
    Json,
    Html,
    Text,
}

/// An HTTP answer: status code, content type and body.
pub struct Reply {
    pub status: u16,
    pub kind: ContentKind,
    pub body: String,
}

/// A failure while answering a request, with the text of its cause.
pub enum RequestError {
    /// Gathering the account statuses failed.
    Aggregate(String),
    /// The configuration could not be read.
    Config(String),
    /// The page template could not be found.
    Template(String),
    /// The page template could not be rendered.
    Render(String),
}

/// The words that introduce the cause of a failure.
pub open spec fn error_prefix(e: RequestError) -> Seq<char> {
    match e {
        RequestError::Aggregate(_) => "Error: "@,
        RequestError::Config(_) => "Config error: "@,
        RequestError::Template(_) => "Template error: "@,
        RequestError::Render(_) => "Render error: "@,
    }
}

/// The text of a failure's cause.
pub open spec fn error_cause(e: RequestError) -> Seq<char> {
    match e {
        RequestError::Aggregate(c) => c@,
        RequestError::Config(c) => c@,
        RequestError::Template(c) => c@,
        RequestError::Render(c) => c@,
    }
}

/// `r` is the server-error answer for `e`: status 500, plain text, the prefix
/// followed by the cause.
pub open spec fn is_failure_reply(r: Reply, e: RequestError) -> bool {
    r.status == 500 && r.kind == ContentKind::Text && r.body@ == error_prefix(e) + error_cause(e)
}

/// `r` is the answer for the outcome `outcome` of building a body of kind `kind`.
pub open spec fn is_reply_for(r: Reply, outcome: Result<String, RequestError>, kind: ContentKind) -> bool {
    match outcome {
        Ok(body) => r.status == 200 && r.kind == kind && r.body@ == body@,
        Err(e) => is_failure_reply(r, e),
    }
}

/// Every server-error answer has status 500 and a body that is not empty:
/// it opens with the words that introduce the cause.
pub proof fn lemma_failure_reply_not_empty(r: Reply, e: RequestError)
    requires
        is_failure_reply(r, e),
    ensures
        r.status == 500,
        r.body@.len() >= error_prefix(e).len() > 0,
        r.body@.take(error_prefix(e).len() as int) == error_prefix(e),
{
    reveal_strlit("Error: ");
    reveal_strlit("Config error: ");
    reveal_strlit("Template error: ");
    reveal_strlit("Render error: ");
    assert(r.body@.take(error_prefix(e).len() as int) =~= error_prefix(e));
}

impl RequestError {
    /// The server-error answer for this failure; its body is never empty.
    pub fn reply(self) -> (r: Reply)
        ensures
            is_failure_reply(r, self),
            r.body@.len() > 0,
    {
        let (prefix, cause): (&str, String) = match self {
            RequestError::Aggregate(c) => {
                proof { reveal_strlit("Error: "); }
                ("Error: ", c)
            },
            RequestError::Config(c) => {
                proof { reveal_strlit("Config error: "); }
                ("Config error: ", c)
            },
            RequestError::Template(c) => {
                proof { reveal_strlit("Template error: "); }
                ("Template error: ", c)
            },
            RequestError::Render(c) => {
                proof { reveal_strlit("Render error: "); }
                ("Render error: ", c)
            },
        };
        let mut body = String::from_str(prefix);
        body.append(cause.as_str());
        Reply { status: 500, kind: ContentKind::Text, body }
    }
}

/// The answer of the JSON endpoint: the encoded statuses, or a server error.
pub fn json_reply(outcome: Result<String, RequestError>) -> (r: Reply)
    ensures
        is_reply_for(r, outcome, ContentKind::Json),
{
    match outcome {
        Ok(body) => Reply { status: 200, kind: ContentKind::Json, body },
        Err(e) => e.reply(),
    }
}

/// The answer of the page endpoint: the rendered page, or a server error.
pub fn page_reply(outcome: Result<String, RequestError>) -> (r: Reply)
    ensures
        is_reply_for(r, outcome, ContentKind::Html),
{
    match outcome {
        Ok(body) => Reply { status: 200, kind: ContentKind::Html, body },
        Err(e) => e.reply(),
    }
}

} // verus!
