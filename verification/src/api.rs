//! Requests to the NationStates API and the reading of its answers.

use std::borrow::Cow;
use vstd::prelude::*;
use vstd::string::StringExecFns;
use crate::clock::Timestamp;
use crate::credentials::Credential;
use crate::credentials::CredentialKind;
use crate::credentials::CredentialView;
use crate::credentials::Pin;
use crate::profile::Nation;
use crate::profile::NationView;
use crate::text::decimal;
use crate::text::header_number;
use crate::text::header_text;
use crate::text::push_decimal;
use crate::text::read_header_number;
use crate::text::read_header_text;
use crate::text::to_decimal;

verus! {

/// Base URL of the NationStates API.
pub const API_BASE: &'static str = "https://www.nationstates.net/cgi-bin/api.cgi";

/// The NationStates API version this library is written against.
pub const API_VERSION: u16 = 11;

/// The status of an answer that carries the requested data.
pub const STATUS_OK: u16 = 200;

/// The status of an answer that rejects the credential.
pub const STATUS_FORBIDDEN: u16 = 403;

/// A named unit of data that a request asks for.
#[derive(Clone, Copy, Debug, PartialEq, Eq, Structural)]
pub enum Shard {
    Ping,
}

impl Shard {
    /// The shard's name in a query.
    pub open spec fn segment(self) -> Seq<char> {
        match self {
            Shard::Ping => "ping"@,
        }
    }

    /// The shard's name in a query.
    pub fn to_query_segment(&self) -> (r: Cow<'_, str>)
        ensures
            r@ == self.segment(),
    {
        // This may end up generated.
        match self {
            Shard::Ping => Cow::Borrowed("ping"),
        }
    }
}

/// The parts of `parts` in order, with `sep` between each two neighbours.
pub open spec fn joined(parts: Seq<Seq<char>>, sep: Seq<char>) -> Seq<char>
    decreases parts.len(),
{
    if parts.len() == 0 {
        Seq::empty()
    } else if parts.len() == 1 {
        parts[0]
    } else {
        joined(parts.drop_last(), sep) + sep + parts.last()
    }
}

/// The query that asks for `shards`: their names with a plus sign between
/// each two.
pub open spec fn query_of(shards: Seq<Shard>) -> Seq<char> {
    joined(shards.map_values(|s: Shard| s.segment()), "+"@)
}

/// Joins `segments` by `itertools::Itertools::join`, which writes each
/// item as it displays, here the string itself, and writes `sep` before
/// every item but the first.
#[verifier::external_body]
fn join_segments(segments: &Vec<Cow<'_, str>>, sep: &str) -> (r: String)
    ensures
        r@ == joined(segments.deep_view(), sep@),
{
    itertools::Itertools::join(&mut segments.iter(), sep)
}

/// The query that asks for `shards`.
pub fn query_string(shards: &[Shard]) -> (r: String)
    ensures
        r@ == query_of(shards@),
{
    let mut segments: Vec<Cow<'_, str>> = Vec::new();
    let mut i: usize = 0;
    while i < shards.len()
        invariant
            i <= shards.len(),
            segments@.len() == i,
            forall|j: int| 0 <= j < i ==> (#[trigger] segments@[j])@ == shards@[j].segment(),
        decreases shards.len() - i,
    {
        segments.push(shards[i].to_query_segment());
        i += 1;
    }
    assert(segments.deep_view() =~= shards@.map_values(|s: Shard| s.segment()));
    join_segments(&segments, "+")
}

/// What is asked, and of which nation.
pub struct Request<'a> {
    pub nation: &'a Nation,
    pub shards: Vec<Shard>,
}

/// A `Request` with its strings and lists as sequences.
pub struct RequestView {
    pub nation: NationView,
    pub shards: Seq<Shard>,
}

impl RequestView {
    /// The address that the request is sent to: the base, the nation's
    /// name, the query and the API version.
    pub open spec fn url(self) -> Seq<char> {
        API_BASE@ + "?nation="@ + self.nation.name + "&q="@ + query_of(self.shards) + "&v="@
            + decimal(API_VERSION as nat)
    }
}

impl<'a> View for Request<'a> {
    type V = RequestView;

    open spec fn view(&self) -> RequestView {
        RequestView { nation: self.nation@, shards: self.shards@ }
    }
}

impl Request<'_> {
    /// The address that the request is sent to.
    pub fn url(&self) -> (res: String)
        ensures
            res@ == self@.url(),
    {
        let mut res = API_BASE.to_owned();
        res.append("?nation=");
        res.append(self.nation.name.as_str());
        res.append("&q=");
        let query = query_string(self.shards.as_slice());
        res.append(query.as_str());
        res.append("&v=");
        push_decimal(&mut res, API_VERSION as u64);
        res
    }
}

impl CredentialKind {
    /// The name of the header that carries a credential of this kind.
    pub open spec fn header(self) -> Seq<char> {
        match self {
            CredentialKind::Pin => "X-Pin"@,
            CredentialKind::Autologin => "X-Autologin"@,
            CredentialKind::Password => "X-Password"@,
        }
    }

    /// The name of the header that carries a credential of this kind.
    pub fn header_name(&self) -> (r: &'static str)
        ensures
            r@ == self.header(),
    {
        match self {
            CredentialKind::Pin => "X-Pin",
            CredentialKind::Autologin => "X-Autologin",
            CredentialKind::Password => "X-Password",
        }
    }
}

/// Why a request brought no data.
#[derive(Clone, Copy, Debug, PartialEq, Eq, Structural)]
pub enum Failure {
    /// There was no credential to send.
    NoAuth,
    /// The server rejected the autologin token or the password.
    BadAuth,
    /// The server rejected the pin. Pins expire, and a separate login
    /// invalidates them, so another credential may still be accepted.
    BadPin,
    /// The server answered with another status, which is kept.
    Other(u16),
    /// The server's answer was not in the expected form.
    Schema,
}

/// A call that is ready to be sent: the address, and the one header that
/// authenticates it, named by `kind`.
pub struct Call {
    pub url: String,
    pub kind: CredentialKind,
    pub value: String,
}

/// A `Call` with its strings as sequences of characters.
pub struct CallView {
    pub url: Seq<char>,
    pub kind: CredentialKind,
    pub value: Seq<char>,
}

impl View for Call {
    type V = CallView;

    open spec fn view(&self) -> CallView {
        CallView { url: self.url@, kind: self.kind, value: self.value@ }
    }
}

impl Call {
    /// The name of the header that authenticates the call.
    pub fn header_name(&self) -> (r: &'static str)
        ensures
            r@ == self.kind.header(),
    {
        self.kind.header_name()
    }
}

/// A `Result` of `authenticate` with its strings as sequences of
/// characters.
pub open spec fn call_view(r: Result<Call, Failure>) -> Result<CallView, Failure> {
    match r {
        Ok(call) => Ok(call@),
        Err(failure) => Err(failure),
    }
}

impl RequestView {
    /// The call that sends the request with `credential`: a pin goes out
    /// in decimal, a token or a password as it is. Without a credential
    /// there is no call.
    pub open spec fn authenticated(self, credential: CredentialView) -> Result<CallView, Failure> {
        match credential {
            CredentialView::Pin(value) => Ok(
                CallView {
                    url: self.url(),
                    kind: CredentialKind::Pin,
                    value: decimal(value as nat),
                },
            ),
            CredentialView::Autologin(token) => Ok(
                CallView { url: self.url(), kind: CredentialKind::Autologin, value: token },
            ),
            CredentialView::Password(password) => Ok(
                CallView { url: self.url(), kind: CredentialKind::Password, value: password },
            ),
            CredentialView::Absent => Err(Failure::NoAuth),
        }
    }
}

impl Request<'_> {
    /// Attaches `credential` to the request.
    pub fn authenticate(&self, credential: Credential) -> (r: Result<Call, Failure>)
        ensures
            call_view(r) == self@.authenticated(credential@),
    {
        match credential {
            Credential::Pin(value) => Ok(
                Call { url: self.url(), kind: CredentialKind::Pin, value: to_decimal(value) },
            ),
            Credential::Autologin(token) => Ok(
                Call { url: self.url(), kind: CredentialKind::Autologin, value: token },
            ),
            Credential::Password(password) => Ok(
                Call { url: self.url(), kind: CredentialKind::Password, value: password },
            ),
            Credential::Absent => Err(Failure::NoAuth),
        }
    }
}

/// A unit of data that an answer carries.
#[derive(Clone, Copy, Debug, PartialEq, Eq, Structural)]
pub enum ResolvedShard {
    Ping,
}

/// The data of a nation that an answer carries.
#[derive(Debug)]
pub struct NationData {
    pub inner: Vec<ResolvedShard>,
}

impl View for NationData {
    type V = Seq<ResolvedShard>;

    open spec fn view(&self) -> Seq<ResolvedShard> {
        self.inner@
    }
}

/// What came back from the server, as the transport hands it over: the
/// status, the two headers that may renew a credential, and the body
/// where it could be read as nation data.
#[derive(Debug)]
pub struct RawResponse {
    pub status: u16,
    pub pin: Option<Vec<u8>>,
    pub autologin: Option<Vec<u8>>,
    pub payload: Option<NationData>,
}

/// A `RawResponse` with its lists as sequences.
pub struct RawResponseView {
    pub status: u16,
    pub pin: Option<Seq<u8>>,
    pub autologin: Option<Seq<u8>>,
    pub payload: Option<Seq<ResolvedShard>>,
}

impl View for RawResponse {
    type V = RawResponseView;

    open spec fn view(&self) -> RawResponseView {
        RawResponseView {
            status: self.status,
            pin: match self.pin {
                Some(bytes) => Some(bytes@),
                None => None,
            },
            autologin: match self.autologin {
                Some(bytes) => Some(bytes@),
                None => None,
            },
            payload: match self.payload {
                Some(data) => Some(data@),
                None => None,
            },
        }
    }
}

/// A successful answer: the data, and the credentials that it renewed.
#[derive(Debug)]
#[non_exhaustive]
pub struct Response {
    pub data: NationData,
    pub autologin: Option<String>,
    pub pin: Option<Pin>,
}

/// A `Response` with its strings and lists as sequences.
pub struct ResponseView {
    pub data: Seq<ResolvedShard>,
    pub autologin: Option<Seq<char>>,
    pub pin: Option<Pin>,
}

impl View for Response {
    type V = ResponseView;

    open spec fn view(&self) -> ResponseView {
        ResponseView { data: self.data@, autologin: self.autologin.deep_view(), pin: self.pin }
    }
}

/// A `Result` of `interpret` with its strings and lists as sequences.
pub open spec fn outcome_view(r: Result<Response, Failure>) -> Result<ResponseView, Failure> {
    match r {
        Ok(response) => Ok(response@),
        Err(failure) => Err(failure),
    }
}

impl RawResponseView {
    /// The autologin token that the answer renews: the text of its
    /// header, where the header is there and is text.
    pub open spec fn renewed_autologin(self) -> Option<Seq<char>> {
        match self.autologin {
            Some(bytes) => header_text(bytes),
            None => None,
        }
    }

    /// The pin that the answer renews: the number in its header, where
    /// the header is there and states one, issued at `received_at`.
    pub open spec fn renewed_pin(self, received_at: Timestamp) -> Option<Pin> {
        match self.pin {
            Some(bytes) => match header_number(bytes) {
                Some(value) => Some(Pin { value, timestamp: received_at }),
                None => None,
            },
            None => None,
        }
    }

    /// What the answer means for an attempt that sent a credential of
    /// the kind `attempted`. The status alone tells success from
    /// rejection from any other failure; which credential was rejected
    /// follows from what was sent.
    pub open spec fn classify(self, attempted: CredentialKind, received_at: Timestamp) -> Result<
        ResponseView,
        Failure,
    > {
        if self.status == STATUS_OK {
            match self.payload {
                Some(data) => Ok(
                    ResponseView {
                        data,
                        autologin: self.renewed_autologin(),
                        pin: self.renewed_pin(received_at),
                    },
                ),
                None => Err(Failure::Schema),
            }
        } else if self.status == STATUS_FORBIDDEN {
            if attempted == CredentialKind::Pin {
                Err(Failure::BadPin)
            } else {
                Err(Failure::BadAuth)
            }
        } else {
            Err(Failure::Other(self.status))
        }
    }
}

/// One and the same rejection is a bad pin where a pin was sent, and bad
/// authentication where an autologin token or a password was sent.
pub proof fn rejection_is_read_by_what_was_sent(raw: RawResponseView, received_at: Timestamp)
    requires
        raw.status == STATUS_FORBIDDEN,
    ensures
        raw.classify(CredentialKind::Pin, received_at) == Err::<ResponseView, Failure>(
            Failure::BadPin,
        ),
        raw.classify(CredentialKind::Autologin, received_at) == Err::<ResponseView, Failure>(
            Failure::BadAuth,
        ),
        raw.classify(CredentialKind::Password, received_at) == Err::<ResponseView, Failure>(
            Failure::BadAuth,
        ),
{
}

/// Reads the answer to an attempt that sent a credential of the kind
/// `attempted` and that arrived at `received_at`.
pub fn interpret(raw: RawResponse, attempted: CredentialKind, received_at: &Timestamp) -> (r:
    Result<Response, Failure>)
    ensures
        outcome_view(r) == raw@.classify(attempted, *received_at),
{
    let autologin = match &raw.autologin {
        Some(bytes) => read_header_text(bytes),
        None => None,
    };
    let pin = match &raw.pin {
        Some(bytes) => match read_header_number(bytes) {
            Some(value) => Some(Pin { value, timestamp: *received_at }),
            None => None,
        },
        None => None,
    };
    if raw.status == STATUS_OK {
        match raw.payload {
            Some(data) => Ok(Response { data, autologin, pin }),
            None => Err(Failure::Schema),
        }
    } else if raw.status == STATUS_FORBIDDEN {
        match attempted {
            CredentialKind::Pin => Err(Failure::BadPin),
            _ => Err(Failure::BadAuth),
        }
    } else {
        Err(Failure::Other(raw.status))
    }
}

} // verus!
