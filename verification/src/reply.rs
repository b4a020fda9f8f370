//! Plain HTTP replies: a status code and a text body.
use vstd::prelude::*;

verus! {

/// Status code of a successful reply.
pub const STATUS_OK: u16 = 200;

/// Status code of a reply to a request that could not be understood.
pub const STATUS_BAD_REQUEST: u16 = 400;

/// What a handler answers: a status code and a body.
#[derive(Clone, Debug, PartialEq, Eq)]
pub struct HttpReply {
    pub status: u16,
    pub body: String,
}

/// Mathematical value of an [`HttpReply`].
pub struct ReplyView {
    pub status: int,
    pub body: Seq<char>,
}

impl View for HttpReply {
    type V = ReplyView;

    open spec fn view(&self) -> ReplyView {
        ReplyView { status: self.status as int, body: self.body@ }
    }
}

/// The body of the greeting.
pub open spec fn greeting_text() -> Seq<char> {
    "Hello world"@
}

/// The body that reports a request whose multipart framing was refused,
/// given the parser's description of the fault.
pub open spec fn bad_request_text(reason: Seq<char>) -> Seq<char> {
    "Bad request: "@ + reason
}

/// The greeting: always status 200 with the same body. It looks at nothing
/// of the request, so headers and query cannot change it.
pub fn hello() -> (reply: HttpReply)
    ensures
        reply@ == (ReplyView { status: 200, body: greeting_text() }),
{
    HttpReply { status: STATUS_OK, body: String::from_str("Hello world") }
}

/// The reply to a request that is not multipart data: status 400 and the
/// parser's description behind a fixed prefix.
pub fn bad_request(reason: &str) -> (reply: HttpReply)
    ensures
        reply@ == (ReplyView { status: 400, body: bad_request_text(reason@) }),
{
    let mut body = String::from_str("Bad request: ");
    body.append(reason);
    HttpReply { status: STATUS_BAD_REQUEST, body }
}

/// The body of a refusal is never empty, whatever the parser said.
pub proof fn lemma_bad_request_text_nonempty(reason: Seq<char>)
    ensures
        bad_request_text(reason).len() == 13 + reason.len(),
        bad_request_text(reason).len() > 0,
        bad_request_text(reason).subrange(13, 13 + reason.len() as int) == reason,
{
    reveal_strlit("Bad request: ");
    assert(bad_request_text(reason).subrange(13, 13 + reason.len() as int) =~= reason);
}

} // verus!
