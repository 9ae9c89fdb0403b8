//! What the server answers where no outside handler writes the response:
//! the playground page and the replies to rejected requests.
use crate::routes::GRAPHQL_SEGMENT;
use vstd::prelude::*;

verus! {

#[verifier::external_type_specification]
#[verifier::external_body]
pub struct ExRejection(warp::Rejection);

/// Status of a request that was answered.
pub const STATUS_OK: u16 = 200;

/// Status of a request that could not be read as a GraphQL request.
pub const STATUS_BAD_REQUEST: u16 = 400;

/// Status of a request that failed for any other reason.
pub const STATUS_INTERNAL_SERVER_ERROR: u16 = 500;

/// A response, as far as this library decides it.
#[derive(Clone, Debug, PartialEq, Eq)]
pub struct Reply {
    /// The HTTP status code.
    pub status: u16,
    /// The `content-type` header, where the library sets one.
    pub content_type: Option<String>,
    /// The body.
    pub body: String,
}

/// A [`Reply`] with its texts as plain text.
pub struct ReplyText {
    pub status: u16,
    pub content_type: Option<Seq<char>>,
    pub body: Seq<char>,
}

impl View for Reply {
    type V = ReplyText;

    open spec fn view(&self) -> ReplyText {
        ReplyText {
            status: self.status,
            content_type: match self.content_type {
                Some(text) => Some(text@),
                None => None,
            },
            body: self.body@,
        }
    }
}

/// Why a request was turned away before a route answered it.
#[derive(Clone, Debug, PartialEq, Eq)]
pub enum Rejected {
    /// The request could not be read as a GraphQL request; `message` says why.
    BadRequest { message: String },
    /// Anything else.
    Unhandled,
}

/// A [`Rejected`] with its message as plain text.
pub enum RejectedText {
    BadRequest { message: Seq<char> },
    Unhandled,
}

impl View for Rejected {
    type V = RejectedText;

    open spec fn view(&self) -> RejectedText {
        match *self {
            Rejected::BadRequest { message } => RejectedText::BadRequest { message: message@ },
            Rejected::Unhandled => RejectedText::Unhandled,
        }
    }
}

/// The page that async-graphql renders for a playground talking to `endpoint`.
pub uninterp spec fn playground_document(endpoint: Seq<char>) -> Seq<char>;

/// The parse error that `rejection` carries as a bad request, displayed, if
/// it carries one.
pub uninterp spec fn bad_request_text(rejection: warp::Rejection) -> Option<Seq<char>>;

/// Whether a run of async-graphql's query parser over `query` can end with
/// `error`: with the refusal displayed, or with `None` for a parsed text.
/// One text can end both ways, since the parser also gives up where it runs
/// out of room.
pub uninterp spec fn parser_ends_with(query: Seq<char>, error: Option<Seq<char>>) -> bool;

/// The text of an optional string.
pub open spec fn text_of(found: Option<String>) -> Option<Seq<char>> {
    match found {
        Some(text) => Some(text@),
        None => None,
    }
}

/// The cause that a rejection is answered for: a bad request where one was
/// found in it, an unhandled failure otherwise.
pub open spec fn cause_of(bad_request: Option<Seq<char>>) -> RejectedText {
    match bad_request {
        Some(message) => RejectedText::BadRequest { message },
        None => RejectedText::Unhandled,
    }
}

/// What is held against a query whose text the parser refused with
/// `parse_error`: a bad request with that message. A query that was parsed
/// has nothing held against it.
pub open spec fn query_verdict(parse_error: Option<Seq<char>>) -> Option<RejectedText> {
    match parse_error {
        Some(message) => Some(RejectedText::BadRequest { message }),
        None => None,
    }
}

/// The plain text of an optional cause.
pub open spec fn verdict_text(verdict: Option<Rejected>) -> Option<RejectedText> {
    match verdict {
        Some(cause) => Some(cause@),
        None => None,
    }
}

/// The path of the GraphQL endpoint.
pub open spec fn graphql_endpoint() -> Seq<char> {
    "/"@ + GRAPHQL_SEGMENT@
}

/// An HTML page with the given markup.
pub open spec fn html_reply(html: Seq<char>) -> ReplyText {
    ReplyText { status: STATUS_OK, content_type: Some("text/html"@), body: html }
}

/// The reply to a rejected request: a request that could not be read is
/// answered with status 400 and the reason, anything else with status 500 and
/// a fixed text that gives nothing away.
pub open spec fn rejection_reply(cause: RejectedText) -> ReplyText {
    match cause {
        RejectedText::BadRequest { message } => ReplyText {
            status: STATUS_BAD_REQUEST,
            content_type: None,
            body: message,
        },
        RejectedText::Unhandled => ReplyText {
            status: STATUS_INTERNAL_SERVER_ERROR,
            content_type: None,
            body: "INTERNAL_SERVER_ERROR"@,
        },
    }
}

/// Calls `async_graphql::http::playground_source` on a configuration that
/// sets the endpoint and nothing else. The page is a fixed template into
/// which the configuration is written, so it depends on the endpoint alone.
#[verifier::external_body]
fn render_playground(endpoint: &str) -> (html: String)
    ensures
        html@ == playground_document(endpoint@),
{
    async_graphql::http::playground_source(async_graphql::http::GraphQLPlaygroundConfig::new(endpoint))
}

/// Looks in a rejection for the bad-request marker of async-graphql-warp
/// (`Rejection::find`) and renders the parse error it carries. What is found
/// depends on the rejection alone.
#[verifier::external_body]
fn find_bad_request(rejection: &warp::Rejection) -> (found: Option<String>)
    ensures
        text_of(found) == bad_request_text(*rejection),
{
    rejection.find::<async_graphql_warp::GraphQLBadRequest>().map(|found| found.0.to_string())
}

/// Runs async-graphql's query parser (`parser::parse_query`) over `query` and
/// renders the error if the text is refused. The outcome is one the parser
/// can end with on that text; which one is left open, because the parser
/// also gives up where little stack is left or a process-wide call limit is
/// reached. A refusal always says something: every error is displayed as a
/// fixed phrase or as the place in the text it was found at.
#[verifier::external_body]
fn query_parse_error(query: &str) -> (error: Option<String>)
    ensures
        parser_ends_with(query@, text_of(error)),
        error matches Some(text) ==> text@.len() > 0,
{
    async_graphql::parser::parse_query(query).err().map(|error| error.to_string())
}

/// The path of the GraphQL endpoint.
pub fn graphql_path() -> (path: String)
    ensures
        path@ == graphql_endpoint(),
{
    "/".to_owned().concat(GRAPHQL_SEGMENT)
}

/// Wraps markup into a reply that is served as an HTML page.
pub fn html_page(html: String) -> (reply: Reply)
    ensures
        reply@ == html_reply(html@),
{
    Reply { status: STATUS_OK, content_type: Some("text/html".to_owned()), body: html }
}

/// The playground page: an HTML page whose client talks to the GraphQL
/// endpoint of this server. It depends on nothing that can be configured.
pub fn playground_page() -> (reply: Reply)
    ensures
        reply@ == html_reply(playground_document(graphql_endpoint())),
{
    let endpoint = graphql_path();
    html_page(render_playground(endpoint.as_str()))
}

/// Names the cause of a rejection from what was found in it.
pub fn classify(bad_request: Option<String>) -> (cause: Rejected)
    ensures
        cause@ == cause_of(text_of(bad_request)),
{
    match bad_request {
        Some(message) => Rejected::BadRequest { message },
        None => Rejected::Unhandled,
    }
}

/// Answers a rejected request.
pub fn error_reply(cause: Rejected) -> (reply: Reply)
    ensures
        reply@ == rejection_reply(cause@),
{
    match cause {
        Rejected::BadRequest { message } => Reply {
            status: STATUS_BAD_REQUEST,
            content_type: None,
            body: message,
        },
        Rejected::Unhandled => Reply {
            status: STATUS_INTERNAL_SERVER_ERROR,
            content_type: None,
            body: "INTERNAL_SERVER_ERROR".to_owned(),
        },
    }
}

/// Answers whatever the routes rejected: a rejection that carries a bad
/// request is answered with status 400 and the parse error it carries, any
/// other with status 500 and the fixed text.
pub fn recover(rejection: &warp::Rejection) -> (reply: Reply)
    ensures
        reply@ == rejection_reply(cause_of(bad_request_text(*rejection))),
{
    let cause = classify(find_bad_request(rejection));
    error_reply(cause)
}

/// Decides what is held against a query from the outcome of parsing it: a
/// refused text is a bad request with the parser's message, a parsed one goes
/// on to be executed.
pub fn judge_query(parse_error: Option<String>) -> (verdict: Option<Rejected>)
    ensures
        verdict_text(verdict) == query_verdict(text_of(parse_error)),
{
    match parse_error {
        Some(message) => Some(Rejected::BadRequest { message }),
        None => None,
    }
}

/// Holds the text of a query against the parser before it is executed: the
/// verdict is the one that follows from an outcome of parsing that very
/// text. A query turned away is a bad request with a message that is not
/// empty. An empty text is held against the parser like any other.
pub fn check_query(query: &str) -> (verdict: Option<Rejected>)
    ensures
        exists|error: Option<Seq<char>>| #[trigger]
            parser_ends_with(query@, error) && verdict_text(verdict) == query_verdict(error),
        verdict matches Some(cause) ==> cause matches Rejected::BadRequest { message }
            && message@.len() > 0,
{
    let error = query_parse_error(query);
    proof {
        assert(parser_ends_with(query@, text_of(error)));
    }
    judge_query(error)
}

/// A query that was turned away is answered with status 400 and a body that
/// is not empty, whenever the parser's message is not empty.
pub proof fn lemma_refused_query_is_answered(parse_error: Option<Seq<char>>)
    requires
        parse_error matches Some(message) && message.len() > 0,
    ensures
        query_verdict(parse_error) matches Some(cause) && rejection_reply(cause).status == 400
            && rejection_reply(cause).body == parse_error->0 && rejection_reply(cause).body.len()
            > 0,
{
}

/// A rejection that carries a bad request is answered with status 400 and
/// the message it carries; the body is empty only where that message is.
pub proof fn lemma_bad_request_is_answered(rejection: warp::Rejection)
    requires
        bad_request_text(rejection) is Some,
    ensures
        rejection_reply(cause_of(bad_request_text(rejection))).status == 400,
        rejection_reply(cause_of(bad_request_text(rejection))).body == bad_request_text(
            rejection,
        )->0,
{
}

/// A rejected request is never answered as a success: the status is 400 for a
/// request that could not be read and 500 otherwise, and the body of a 400 is
/// the reason as it was given.
pub proof fn lemma_rejections_are_errors(cause: RejectedText)
    ensures
        rejection_reply(cause).status == 400 || rejection_reply(cause).status == 500,
        rejection_reply(cause).status == 400 <==> cause is BadRequest,
        cause matches RejectedText::BadRequest { message } ==> rejection_reply(cause).body
            == message,
        cause is Unhandled ==> rejection_reply(cause).body.len() > 0,
{
    reveal_strlit("INTERNAL_SERVER_ERROR");
}

} // verus!
