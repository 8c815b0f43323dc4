use vstd::prelude::*;
use crate::scalar::Scalar;
use vstd::string::StringExecFns;

verus! {

/// Error code reported when an invoke carries unparseable params or an
/// unknown selector.
pub const INVALID_PARAMS_CODE: i64 = -32602;

/// Error code reported when a request names a method this server does not
/// serve.
pub const METHOD_NOT_FOUND_CODE: i64 = -32601;

/// Error code reported when a handler's decoding or body fails.
pub const INTERNAL_ERROR_CODE: i64 = -32603;

/// The error object carried by a failing response.
#[derive(Debug)]
pub struct ResponseError {
    /// One of the reserved protocol codes.
    pub code: i64,
    /// Human-readable diagnostic text.
    pub message: String,
    /// Optional extra payload; this server never fills it.
    pub data: Option<String>,
}

/// The decoded params of an `"invoke"` request.
#[derive(Debug)]
pub struct InvokeParams {
    /// The name of the procedure to call.
    pub selector: String,
    /// The ordered scalars handed to it.
    pub calldata: Vec<Scalar>,
}

/// The params field of a request or notification.
#[derive(Debug)]
pub enum Params {
    /// No params.
    Null,
    /// Params in the shape of an invoke call.
    Invoke(InvokeParams),
    /// Params this core does not interpret. For an inbound `"invoke"`
    /// request the text says why the params did not fit [`InvokeParams`].
    Opaque(String),
}

/// The outcome field of a response: exactly one of a result value or an
/// error object.
#[derive(Debug)]
pub enum Outcome {
    /// Success, carrying encoded scalars.
    Output(Vec<Scalar>),
    /// Failure, carrying the error object.
    Failure(ResponseError),
    /// A payload this core does not interpret; inbound only.
    Opaque(String),
}

/// A request: answered by exactly one response echoing its id.
#[derive(Debug)]
pub struct Request {
    /// Correlates the response to this request; unique within a session.
    pub id: u64,
    /// The method called.
    pub method: String,
    /// The method's arguments.
    pub params: Params,
}

/// A response to the request whose id it echoes.
#[derive(Debug)]
pub struct Response {
    /// The id of the request answered.
    pub id: u64,
    /// Result or error.
    pub outcome: Outcome,
}

/// A one-way message: never answered.
#[derive(Debug)]
pub struct Notification {
    /// The method named.
    pub method: String,
    /// The method's arguments.
    pub params: Params,
}

/// One wire message: a tagged union of the three shapes.
#[derive(Debug)]
pub enum Message {
    /// See [`Request`].
    Request(Request),
    /// See [`Response`].
    Response(Response),
    /// See [`Notification`].
    Notification(Notification),
}

/// Issues request ids: a process-local counter, monotonically increasing,
/// so every request this side sends carries a fresh, session-unique id.
pub struct MessageFactory {
    next_id: u64,
}

impl MessageFactory {
    /// The id the next request will carry.
    pub closed spec fn pending(self) -> u64 {
        self.next_id
    }

    /// A factory whose first request will carry id 0.
    pub fn new() -> (r: MessageFactory)
        ensures
            r.pending() == 0,
    {
        MessageFactory { next_id: 0 }
    }

    /// A fresh request carrying the next id.
    pub fn request(&mut self, method: String, params: Params) -> (m: Message)
        requires
            old(self).pending() < u64::MAX,
        ensures
            final(self).pending() == old(self).pending() + 1,
            m == (Message::Request(Request { id: old(self).pending(), method, params })),
    {
        let id = self.next_id;
        self.next_id = self.next_id + 1;
        Message::Request(Request { id, method, params })
    }

    /// A notification; notifications carry no id.
    pub fn notification(method: String, params: Params) -> (m: Message)
        ensures
            m == (Message::Notification(Notification { method, params })),
    {
        Message::Notification(Notification { method, params })
    }

    /// A success response answering the request with id `id`.
    pub fn result(id: u64, values: Vec<Scalar>) -> (m: Message)
        ensures
            m == (Message::Response(Response { id, outcome: Outcome::Output(values) })),
    {
        Message::Response(Response { id, outcome: Outcome::Output(values) })
    }

    /// An error response answering the request with id `id`.
    pub fn error(id: u64, error: ResponseError) -> (m: Message)
        ensures
            m == (Message::Response(Response { id, outcome: Outcome::Failure(error) })),
    {
        Message::Response(Response { id, outcome: Outcome::Failure(error) })
    }
}

/// The views of a list of selector names.
pub open spec fn name_views(v: Seq<String>) -> Seq<Seq<char>> {
    v.map_values(|s: String| s@)
}

/// `parts` joined with a comma and a space between neighbours.
pub open spec fn comma_join(parts: Seq<Seq<char>>) -> Seq<char>
    decreases parts.len(),
{
    if parts.len() == 0 {
        Seq::empty()
    } else if parts.len() == 1 {
        parts[0]
    } else {
        parts[0] + ", "@ + comma_join(parts.skip(1))
    }
}

proof fn lemma_comma_join_push(parts: Seq<Seq<char>>, x: Seq<char>)
    ensures
        parts.len() == 0 ==> comma_join(parts.push(x)) == x,
        parts.len() > 0 ==> comma_join(parts.push(x)) =~= comma_join(parts) + ", "@ + x,
    decreases parts.len(),
{
    let p = parts.push(x);
    if parts.len() == 0 {
        assert(p.len() == 1);
        assert(p[0] == x);
    } else {
        assert(p[0] == parts[0]);
        assert(p.skip(1) =~= parts.skip(1).push(x));
        lemma_comma_join_push(parts.skip(1), x);
        if parts.len() == 1 {
            assert(comma_join(parts.skip(1)).len() == 0);
        }
    }
}

/// The diagnostic text for an unregistered selector: names the selector
/// attempted and every selector the registry provides.
pub open spec fn unknown_selector_text(sel: Seq<char>, known: Seq<Seq<char>>) -> Seq<char> {
    "unknown selector: "@ + sel + ", this oracle provides: "@ + comma_join(known)
}

/// The diagnostic text for a request method this server does not serve.
pub open spec fn method_not_found_text(method: Seq<char>) -> Seq<char> {
    "unknown request method: "@ + method
}

/// The diagnostic text for `"invoke"` params that did not parse.
pub open spec fn invalid_params_text(detail: Seq<char>) -> Seq<char> {
    "invalid invoke params: "@ + detail
}

/// Builds [`unknown_selector_text`] for concrete values.
pub fn unknown_selector_message(selector: &String, known: &Vec<String>) -> (r: String)
    ensures
        r@ == unknown_selector_text(selector@, name_views(known@)),
{
    let mut r = String::from_str("unknown selector: ");
    r.append(selector.as_str());
    r.append(", this oracle provides: ");
    let n = known.len();
    let mut i: usize = 0;
    while i < n
        invariant
            n == known@.len(),
            0 <= i <= n,
            r@ == "unknown selector: "@ + selector@ + ", this oracle provides: "@ + comma_join(
                name_views(known@).take(i as int),
            ),
        decreases n - i,
    {
        if i > 0 {
            r.append(", ");
        }
        r.append(known[i].as_str());
        proof {
            let views = name_views(known@);
            assert(views.take(i as int).push(views[i as int]) =~= views.take(i + 1));
            lemma_comma_join_push(views.take(i as int), views[i as int]);
            if i == 0 {
                assert(r@ =~= "unknown selector: "@ + selector@ + ", this oracle provides: "@
                    + comma_join(views.take(i + 1)));
            } else {
                assert(r@ =~= "unknown selector: "@ + selector@ + ", this oracle provides: "@
                    + comma_join(views.take(i + 1)));
            }
        }
        i += 1;
    }
    proof {
        assert(name_views(known@).take(n as int) =~= name_views(known@));
    }
    r
}

/// Builds [`method_not_found_text`] for a concrete method name.
pub fn method_not_found_message(method: &String) -> (r: String)
    ensures
        r@ == method_not_found_text(method@),
{
    let mut r = String::from_str("unknown request method: ");
    r.append(method.as_str());
    r
}

/// Builds [`invalid_params_text`] for a concrete detail.
pub fn invalid_params_message(detail: &String) -> (r: String)
    ensures
        r@ == invalid_params_text(detail@),
{
    let mut r = String::from_str("invalid invoke params: ");
    r.append(detail.as_str());
    r
}

} // verus!
