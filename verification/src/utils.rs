//! The answer to a request as plain values, and the CORS headers that every
//! answer carries.

use crate::errors::ApiError;
use crate::text::{folded, same_header_name, same_name};
use crate::types::{
    topic_views, ChatResponse, ChatResponseView, ConversationHistory, ConversationHistoryView,
    GenericResponse, GenericResponseView, Progress, ProgressView, Topic, TopicView,
};
use vstd::prelude::*;

verus! {

/// The name of the header that names the allowed origin.
pub const ALLOW_ORIGIN: &'static str = "Access-Control-Allow-Origin";

/// The name of the header that names the allowed methods.
pub const ALLOW_METHODS: &'static str = "Access-Control-Allow-Methods";

/// The name of the header that names the allowed request headers.
pub const ALLOW_HEADERS: &'static str = "Access-Control-Allow-Headers";

/// The name of the header that says how long a preflight may be kept.
pub const MAX_AGE: &'static str = "Access-Control-Max-Age";

/// The one origin that may call the backend.
pub const ALLOWED_ORIGIN: &'static str = "https://devops-ai-react.pages.dev";

/// The methods that the backend takes.
pub const ALLOWED_METHODS: &'static str = "GET, POST, OPTIONS";

/// The request header that the backend takes.
pub const ALLOWED_HEADERS: &'static str = "Content-Type";

/// For how many seconds the answer to a preflight may be kept.
pub const PREFLIGHT_MAX_AGE: &'static str = "86400";

/// What a request that was served is answered with.
#[derive(Debug)]
pub enum Payload {
    Topics(Vec<Topic>),
    Topic(Topic),
    Progress(Progress),
    Conversation(ConversationHistory),
    Status(GenericResponse),
    Chat(ChatResponse),
}

/// A payload as plain values.
pub enum PayloadView {
    Topics(Seq<TopicView>),
    Topic(TopicView),
    Progress(ProgressView),
    Conversation(ConversationHistoryView),
    Status(GenericResponseView),
    Chat(ChatResponseView),
}

impl View for Payload {
    type V = PayloadView;

    open spec fn view(&self) -> PayloadView {
        match self {
            Payload::Topics(topics) => PayloadView::Topics(topic_views(topics@)),
            Payload::Topic(topic) => PayloadView::Topic(topic@),
            Payload::Progress(progress) => PayloadView::Progress(progress@),
            Payload::Conversation(history) => PayloadView::Conversation(history@),
            Payload::Status(status) => PayloadView::Status(status@),
            Payload::Chat(chat) => PayloadView::Chat(chat@),
        }
    }
}

/// The view of the outcome of a request.
pub open spec fn outcome_view(outcome: Result<Payload, ApiError>) -> Result<PayloadView, ApiError> {
    match outcome {
        Ok(payload) => Ok(payload@),
        Err(e) => Err(e),
    }
}

/// The body of an answer: plain text, or a value to be written as JSON.
#[derive(Debug)]
pub enum ReplyBody {
    Text(String),
    Json(Payload),
}

/// The body of an answer as plain values.
pub enum ReplyBodyView {
    Text(Seq<char>),
    Json(PayloadView),
}

impl View for ReplyBody {
    type V = ReplyBodyView;

    open spec fn view(&self) -> ReplyBodyView {
        match self {
            ReplyBody::Text(text) => ReplyBodyView::Text(text@),
            ReplyBody::Json(payload) => ReplyBodyView::Json(payload@),
        }
    }
}

/// An answer to a request, with its headers by name and value, in the
/// order in which they go out.
#[derive(Debug)]
pub struct HttpReply {
    pub status: u16,
    pub headers: Vec<(String, String)>,
    pub body: ReplyBody,
}

/// An answer as plain values.
pub struct HttpReplyView {
    pub status: u16,
    pub headers: Seq<(Seq<char>, Seq<char>)>,
    pub body: ReplyBodyView,
}

/// The name and value of every header of a sequence, in order.
pub open spec fn header_views(headers: Seq<(String, String)>) -> Seq<(Seq<char>, Seq<char>)> {
    headers.map_values(|h: (String, String)| (h.0@, h.1@))
}

impl View for HttpReply {
    type V = HttpReplyView;

    open spec fn view(&self) -> HttpReplyView {
        HttpReplyView {
            status: self.status,
            headers: header_views(self.headers@),
            body: self.body@,
        }
    }
}

/// The CORS headers: one origin, three methods, one request header, and
/// the time for which a preflight may be kept.
pub open spec fn cors_headers() -> Seq<(Seq<char>, Seq<char>)> {
    seq![
        (ALLOW_ORIGIN@, ALLOWED_ORIGIN@),
        (ALLOW_METHODS@, ALLOWED_METHODS@),
        (ALLOW_HEADERS@, ALLOWED_HEADERS@),
        (MAX_AGE@, PREFLIGHT_MAX_AGE@),
    ]
}

/// The answer to an outcome, before the CORS headers are added: status 200
/// and the payload as JSON where the request was served, else the status
/// and the message of the failure.
pub open spec fn reply_for(outcome: Result<PayloadView, ApiError>) -> HttpReplyView {
    match outcome {
        Ok(payload) => HttpReplyView {
            status: 200,
            headers: Seq::empty(),
            body: ReplyBodyView::Json(payload),
        },
        Err(e) => HttpReplyView {
            status: e.status_code(),
            headers: Seq::empty(),
            body: ReplyBodyView::Text(e.message_text()),
        },
    }
}

/// Whether `name` is the name of one of the CORS headers.
pub open spec fn is_cors_name(name: Seq<char>) -> bool {
    ||| same_name(name, ALLOW_ORIGIN@)
    ||| same_name(name, ALLOW_METHODS@)
    ||| same_name(name, ALLOW_HEADERS@)
    ||| same_name(name, MAX_AGE@)
}

/// The headers of `headers` that are no CORS headers, in their order.
pub open spec fn without_cors(headers: Seq<(Seq<char>, Seq<char>)>) -> Seq<(Seq<char>, Seq<char>)>
    decreases headers.len(),
{
    if headers.len() == 0 {
        headers
    } else if is_cors_name(headers.last().0) {
        without_cors(headers.drop_last())
    } else {
        without_cors(headers.drop_last()).push(headers.last())
    }
}

/// `headers` with the CORS headers set: the headers of other names stay,
/// in their order, and the CORS headers follow them, whatever `headers`
/// held under their names.
pub open spec fn with_cors(headers: Seq<(Seq<char>, Seq<char>)>) -> Seq<(Seq<char>, Seq<char>)> {
    without_cors(headers) + cors_headers()
}

/// `without_cors` leaves no CORS header.
pub proof fn lemma_without_cors_leaves_none(headers: Seq<(Seq<char>, Seq<char>)>)
    ensures
        forall|i: int|
            0 <= i < without_cors(headers).len() ==> !is_cors_name(
                (#[trigger] without_cors(headers)[i]).0,
            ),
        without_cors(without_cors(headers)) == without_cors(headers),
    decreases headers.len(),
{
    if headers.len() > 0 {
        lemma_without_cors_leaves_none(headers.drop_last());
        if !is_cors_name(headers.last().0) {
            let kept = without_cors(headers.drop_last()).push(headers.last());
            assert(kept.drop_last() =~= without_cors(headers.drop_last()));
        }
    }
}

/// `without_cors` goes through two lists one after the other.
proof fn lemma_without_cors_of_two(
    a: Seq<(Seq<char>, Seq<char>)>,
    b: Seq<(Seq<char>, Seq<char>)>,
)
    ensures
        without_cors(a + b) == without_cors(a) + without_cors(b),
    decreases b.len(),
{
    if b.len() == 0 {
        assert(a + b =~= a);
        assert(without_cors(a) + without_cors(b) =~= without_cors(a));
    } else {
        lemma_without_cors_of_two(a, b.drop_last());
        assert((a + b).drop_last() =~= a + b.drop_last());
        assert((a + b).last() == b.last());
        if !is_cors_name(b.last().0) {
            assert((without_cors(a) + without_cors(b.drop_last())).push(b.last()) =~= without_cors(a)
                + without_cors(b.drop_last()).push(b.last()));
        }
    }
}

/// Each of the four names is the name of a CORS header, and no two of them
/// name the same header.
pub proof fn lemma_cors_names_differ()
    ensures
        forall|j: int| 0 <= j < 4 ==> is_cors_name((#[trigger] cors_headers()[j]).0),
        forall|j: int, k: int|
            0 <= j < 4 && 0 <= k < 4 && j != k ==> !same_name(
                (#[trigger] cors_headers()[j]).0,
                (#[trigger] cors_headers()[k]).0,
            ),
{
    reveal_strlit("Access-Control-Allow-Origin");
    reveal_strlit("Access-Control-Allow-Methods");
    reveal_strlit("Access-Control-Allow-Headers");
    reveal_strlit("Access-Control-Max-Age");
    assert(folded(ALLOW_METHODS@[21]) != folded(ALLOW_HEADERS@[21]));
}

/// Setting the CORS headers a second time changes nothing.
pub proof fn lemma_with_cors_is_idempotent(headers: Seq<(Seq<char>, Seq<char>)>)
    ensures
        with_cors(with_cors(headers)) == with_cors(headers),
{
    lemma_cors_names_differ();
    lemma_without_cors_leaves_none(headers);
    lemma_without_cors_of_two(without_cors(headers), cors_headers());
    lemma_without_cors_of_cors();
    assert(without_cors(headers) + Seq::<(Seq<char>, Seq<char>)>::empty() =~= without_cors(headers));
}

/// Nothing is left of the CORS headers once the CORS headers are taken
/// away.
proof fn lemma_without_cors_of_cors()
    ensures
        without_cors(cors_headers()) == Seq::<(Seq<char>, Seq<char>)>::empty(),
{
    lemma_cors_names_differ();
    let all = cors_headers();
    let three = all.drop_last();
    let two = three.drop_last();
    let one = two.drop_last();
    assert(all.last() == all[3]);
    assert(three.last() == all[2]);
    assert(two.last() == all[1]);
    assert(one.last() == all[0]);
    assert(one.drop_last().len() == 0);
    assert(without_cors(one) == without_cors(one.drop_last()));
    assert(without_cors(two) == without_cors(one));
    assert(without_cors(three) == without_cors(two));
    assert(without_cors(all) == without_cors(three));
    assert(without_cors(one.drop_last()) =~= Seq::<(Seq<char>, Seq<char>)>::empty());
}

/// Once the CORS headers are set, each of them occurs exactly once, with
/// its fixed value: they are the last four headers, and no header before
/// them has one of their names.
pub proof fn lemma_with_cors_holds_each_once(headers: Seq<(Seq<char>, Seq<char>)>)
    ensures
        ({
            let set = with_cors(headers);
            let others = set.len() - 4;
            &&& others == without_cors(headers).len()
            &&& forall|j: int| 0 <= j < 4 ==> #[trigger] set[others + j] == cors_headers()[j]
            &&& forall|i: int| 0 <= i < others ==> !is_cors_name((#[trigger] set[i]).0)
        }),
{
    lemma_without_cors_leaves_none(headers);
    let kept = without_cors(headers);
    assert forall|i: int| 0 <= i < kept.len() implies !is_cors_name(
        (#[trigger] with_cors(headers)[i]).0,
    ) by {
        assert(with_cors(headers)[i] == kept[i]);
    }
}

/// Appends one header to the list.
fn push_header(headers: &mut Vec<(String, String)>, name: &str, value: &str)
    ensures
        header_views(final(headers)@) == header_views(old(headers)@).push((name@, value@)),
{
    headers.push((name.to_owned(), value.to_owned()));
    assert(header_views(headers@) =~= header_views(old(headers)@).push((name@, value@)));
}

/// Appends the CORS headers to the list.
fn push_cors_headers(headers: &mut Vec<(String, String)>)
    ensures
        header_views(final(headers)@) == header_views(old(headers)@) + cors_headers(),
{
    push_header(headers, ALLOW_ORIGIN, ALLOWED_ORIGIN);
    push_header(headers, ALLOW_METHODS, ALLOWED_METHODS);
    push_header(headers, ALLOW_HEADERS, ALLOWED_HEADERS);
    push_header(headers, MAX_AGE, PREFLIGHT_MAX_AGE);
    assert(header_views(headers@) =~= header_views(old(headers)@) + cors_headers());
}

/// Whether `name` is the name of one of the CORS headers.
fn is_cors_header(name: &str) -> (cors: bool)
    ensures
        cors == is_cors_name(name@),
{
    same_header_name(name, ALLOW_ORIGIN) || same_header_name(name, ALLOW_METHODS)
        || same_header_name(name, ALLOW_HEADERS) || same_header_name(name, MAX_AGE)
}

/// The headers of `headers` with the CORS headers set.
fn set_cors_headers(headers: &Vec<(String, String)>) -> (set: Vec<(String, String)>)
    ensures
        header_views(set@) == with_cors(header_views(headers@)),
{
    let ghost all = header_views(headers@);
    let mut kept: Vec<(String, String)> = Vec::new();
    let mut i: usize = 0;
    assert(all.take(0) =~= Seq::empty());
    assert(header_views(kept@) =~= Seq::empty());
    while i < headers.len()
        invariant
            i <= headers@.len(),
            all == header_views(headers@),
            header_views(kept@) == without_cors(all.take(i as int)),
        decreases headers@.len() - i,
    {
        assert(all.take(i + 1).drop_last() =~= all.take(i as int));
        assert(all.take(i + 1).last() == (headers@[i as int].0@, headers@[i as int].1@));
        let header = &headers[i];
        if !is_cors_header(header.0.as_str()) {
            let ghost before = header_views(kept@);
            kept.push((header.0.clone(), header.1.clone()));
            assert(header_views(kept@) =~= before.push((header.0@, header.1@)));
        }
        i = i + 1;
    }
    assert(all.take(i as int) =~= all);
    push_cors_headers(&mut kept);
    kept
}

/// The CORS headers, by name and value.
pub fn cors_header_list() -> (headers: Vec<(String, String)>)
    ensures
        header_views(headers@) == cors_headers(),
{
    let mut headers: Vec<(String, String)> = Vec::new();
    push_cors_headers(&mut headers);
    assert(header_views(headers@) =~= cors_headers());
    headers
}

/// Sets the CORS headers on an answer. Status and body stay as they are,
/// and so do the headers of other names, in their order. Headers that the
/// answer held under the names of the CORS headers are replaced: each CORS
/// header is on the answer once, behind the others, so that a second call
/// changes nothing.
pub fn add_cors_headers(res: &mut HttpReply)
    ensures
        final(res)@ == (HttpReplyView { headers: with_cors(old(res)@.headers), ..old(res)@ }),
{
    let set = set_cors_headers(&res.headers);
    res.headers = set;
}

/// The answer to a CORS preflight: status 200, an empty body, and the CORS
/// headers.
pub fn handle_cors_preflight() -> (res: HttpReply)
    ensures
        res@ == (HttpReplyView {
            status: 200,
            headers: cors_headers(),
            body: ReplyBodyView::Text(Seq::empty()),
        }),
{
    let res = HttpReply {
        status: 200,
        headers: cors_header_list(),
        body: ReplyBody::Text(String::new()),
    };
    res
}

/// Turns the outcome of a request into its answer: the single place where
/// failures become a status and a message. The CORS headers are not yet
/// on it.
pub fn reply_to(outcome: Result<Payload, ApiError>) -> (res: HttpReply)
    ensures
        res@ == reply_for(outcome_view(outcome)),
{
    let res = match outcome {
        Ok(payload) => HttpReply { status: 200, headers: Vec::new(), body: ReplyBody::Json(payload) },
        Err(e) => HttpReply {
            status: e.status(),
            headers: Vec::new(),
            body: ReplyBody::Text(e.message()),
        },
    };
    assert(res@.headers =~= Seq::empty());
    res
}

} // verus!
