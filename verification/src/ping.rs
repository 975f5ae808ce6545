//! One ping of a nation, from the choice of a credential to the stored
//! credentials that the server's answers leave behind.
//!
//! The exchange is a state machine that the caller drives, since only
//! the caller can send a call and wait for its answer. `begin` selects a
//! credential and hands out the call that carries it (`Progress::Send`):
//! the call is then sent, and its `Attempt` is the state in which the
//! answer is awaited. `resume` reads the answer, updates the stored
//! credentials and either ends the exchange (`Progress::Done`) or hands
//! out one more call: after a rejected pin, and only once, the next
//! credential in line.

use vstd::prelude::*;
use crate::api::Call;
use crate::api::CallView;
use crate::api::Failure;
use crate::api::NationData;
use crate::api::RawResponse;
use crate::api::RawResponseView;
use crate::api::Request;
use crate::api::RequestView;
use crate::api::ResolvedShard;
use crate::api::STATUS_FORBIDDEN;
use crate::api::STATUS_OK;
use crate::api::Shard;
use crate::api::interpret;
use crate::clock::Timestamp;
use crate::clock::now;
use crate::credentials::Credential;
use crate::credentials::CredentialKind;
use crate::credentials::CredentialView;
use crate::credentials::Pin;
use crate::profile::Nation;
use crate::profile::NationView;
use crate::profile::Profile;
use crate::profile::first_named;
use crate::profile::lemma_first_named;
use crate::profile::lemma_first_named_update;
use crate::profile::unique_names;
use crate::text::decimal;
use crate::text::header_number;

verus! {

/// Why a ping brought no data.
#[derive(Clone, Copy, Debug, PartialEq, Eq, Structural)]
pub enum PingError {
    /// The profile holds no nation of that name.
    AccountNotFound,
    /// The nation has no credential that could be sent.
    NoCredential,
    /// The server rejected the pin, and no other credential was tried.
    BadPin,
    /// The server rejected the autologin token or the password.
    BadAuth,
    /// The server answered with another status, which is kept.
    TransportOrOther(u16),
    /// The server's answer was not in the expected form.
    SchemaError,
}

impl PingError {
    /// The error that reports `failure`.
    pub open spec fn of(failure: Failure) -> PingError {
        match failure {
            Failure::NoAuth => PingError::NoCredential,
            Failure::BadAuth => PingError::BadAuth,
            Failure::BadPin => PingError::BadPin,
            Failure::Other(status) => PingError::TransportOrOther(status),
            Failure::Schema => PingError::SchemaError,
        }
    }

    /// The error that reports `failure`.
    pub fn from_failure(failure: Failure) -> (r: PingError)
        ensures
            r == PingError::of(failure),
    {
        match failure {
            Failure::NoAuth => PingError::NoCredential,
            Failure::BadAuth => PingError::BadAuth,
            Failure::BadPin => PingError::BadPin,
            Failure::Other(status) => PingError::TransportOrOther(status),
            Failure::Schema => PingError::SchemaError,
        }
    }
}

/// Where in the exchange an attempt stands.
#[derive(Clone, Copy, Debug, PartialEq, Eq, Structural)]
pub enum Stage {
    /// The first attempt. If the server rejects its pin, one more
    /// attempt follows where `retry_allowed` is set.
    First { retry_allowed: bool },
    /// The attempt that follows a rejected pin. Nothing follows it.
    Retry,
}

impl Stage {
    /// How many calls were sent before an attempt at this stage.
    pub open spec fn sent_before(self) -> u8 {
        match self {
            Stage::First { .. } => 0,
            Stage::Retry => 1,
        }
    }

    /// How many calls were sent before an attempt at this stage.
    pub fn calls_before(&self) -> (r: u8)
        ensures
            r == self.sent_before(),
    {
        match self {
            Stage::First { .. } => 0,
            Stage::Retry => 1,
        }
    }

    /// Whether the nation's pin was cleared before an attempt at this
    /// stage.
    pub open spec fn pin_cleared(self) -> bool {
        self is Retry
    }
}

/// A call that was handed out and whose answer is awaited: the kind of
/// credential that it carries, fixed when it was sent, and its stage.
#[derive(Clone, Copy, Debug, PartialEq, Eq, Structural)]
pub struct Attempt {
    pub kind: CredentialKind,
    pub stage: Stage,
}

impl Attempt {
    /// How many calls were sent up to and with this attempt.
    pub open spec fn sent(self) -> u8 {
        (self.stage.sent_before() + 1) as u8
    }
}

/// How an exchange ended.
#[derive(Debug)]
pub struct Completion {
    /// The data, or why there is none.
    pub result: Result<NationData, PingError>,
    /// How many calls were sent.
    pub attempts: u8,
    /// Whether the profile is to be saved: after a success, and whenever
    /// a pin was cleared.
    pub persist: bool,
}

/// A `Completion` with its lists as sequences.
pub struct CompletionView {
    pub result: Result<Seq<ResolvedShard>, PingError>,
    pub attempts: u8,
    pub persist: bool,
}

impl View for Completion {
    type V = CompletionView;

    open spec fn view(&self) -> CompletionView {
        CompletionView {
            result: match self.result {
                Ok(data) => Ok(data@),
                Err(error) => Err(error),
            },
            attempts: self.attempts,
            persist: self.persist,
        }
    }
}

/// What the caller is to do next.
pub enum Progress {
    /// Send `call`, and hand its answer to `resume` with `attempt`.
    Send { call: Call, attempt: Attempt },
    /// The exchange is over.
    Done(Completion),
}

/// A `Progress` with its strings and lists as sequences.
pub enum ProgressView {
    Send { call: CallView, attempt: Attempt },
    Done(CompletionView),
}

impl View for Progress {
    type V = ProgressView;

    open spec fn view(&self) -> ProgressView {
        match self {
            Progress::Send { call, attempt } => ProgressView::Send { call: call@, attempt: *attempt },
            Progress::Done(completion) => ProgressView::Done(completion@),
        }
    }
}

/// The shards that a ping asks for.
pub open spec fn ping_shards() -> Seq<Shard> {
    seq![Shard::Ping]
}

/// What follows the choice of `credential` for an attempt at `stage`:
/// the call that carries it, or, without a credential, the end of the
/// exchange with no call sent at this stage.
pub open spec fn dispatched(nation: NationView, credential: CredentialView, stage: Stage) -> ProgressView {
    match (RequestView { nation, shards: ping_shards() }).authenticated(credential) {
        Ok(call) => ProgressView::Send { call, attempt: Attempt { kind: call.kind, stage } },
        Err(failure) => ProgressView::Done(
            CompletionView {
                result: Err(PingError::of(failure)),
                attempts: stage.sent_before(),
                persist: stage.pin_cleared(),
            },
        ),
    }
}

/// The first step of a ping of `account` at `now`: nothing is sent for a
/// nation that the profile does not hold or that has no credential to
/// send; otherwise the call carries the credential selected at `now`.
pub open spec fn begun(
    nations: Seq<NationView>,
    account: Seq<char>,
    retry: bool,
    now: Timestamp,
) -> ProgressView {
    match first_named(nations, account) {
        Some(i) => dispatched(
            nations[i],
            nations[i].auth.select(now),
            Stage::First { retry_allowed: retry },
        ),
        None => ProgressView::Done(
            CompletionView {
                result: Err(PingError::AccountNotFound),
                attempts: 0,
                persist: false,
            },
        ),
    }
}

/// The nation after the answer `raw` to `attempt` arrived at
/// `received_at`, and what the caller is to do next.
///
/// A success renews the nation's credentials and ends the exchange. A
/// rejected pin is cleared at once; then the first attempt, where a
/// retry is allowed, is followed by one with the next credential in
/// line, and the exchange ends otherwise. Any other failure ends the
/// exchange and changes nothing.
pub open spec fn settled(
    nation: NationView,
    attempt: Attempt,
    raw: RawResponseView,
    received_at: Timestamp,
) -> (NationView, ProgressView) {
    match raw.classify(attempt.kind, received_at) {
        Ok(response) => (
            NationView {
                name: nation.name,
                auth: nation.auth.renewed(response.autologin, response.pin),
            },
            ProgressView::Done(
                CompletionView {
                    result: Ok(response.data),
                    attempts: attempt.sent(),
                    persist: true,
                },
            ),
        ),
        Err(Failure::BadPin) => {
            let cleared = NationView { name: nation.name, auth: nation.auth.without_pin() };
            let next = if attempt.stage == (Stage::First { retry_allowed: true }) {
                dispatched(
                    cleared,
                    cleared.auth.select_excluding(Some(CredentialKind::Pin), received_at),
                    Stage::Retry,
                )
            } else {
                ProgressView::Done(
                    CompletionView {
                        result: Err(PingError::BadPin),
                        attempts: attempt.sent(),
                        persist: true,
                    },
                )
            };
            (cleared, next)
        },
        Err(failure) => (
            nation,
            ProgressView::Done(
                CompletionView {
                    result: Err(PingError::of(failure)),
                    attempts: attempt.sent(),
                    persist: attempt.stage.pin_cleared(),
                },
            ),
        ),
    }
}

/// The nations after the answer `raw` to `attempt` arrived at
/// `received_at`, and what the caller is to do next: the answer settles
/// the first nation called `account` and leaves the others as they are.
pub open spec fn resumed(
    nations: Seq<NationView>,
    account: Seq<char>,
    attempt: Attempt,
    raw: RawResponseView,
    received_at: Timestamp,
) -> (Seq<NationView>, ProgressView) {
    match first_named(nations, account) {
        Some(i) => {
            let (nation, next) = settled(nations[i], attempt, raw, received_at);
            (nations.update(i, nation), next)
        },
        None => (
            nations,
            ProgressView::Done(
                CompletionView {
                    result: Err(PingError::AccountNotFound),
                    attempts: attempt.sent(),
                    persist: false,
                },
            ),
        ),
    }
}

/// A success that renews nothing leaves every nation as it was.
pub proof fn success_without_renewal_changes_nothing(
    nations: Seq<NationView>,
    account: Seq<char>,
    attempt: Attempt,
    raw: RawResponseView,
    received_at: Timestamp,
)
    requires
        raw.classify(attempt.kind, received_at) is Ok,
        raw.renewed_autologin() is None,
        raw.renewed_pin(received_at) is None,
    ensures
        resumed(nations, account, attempt, raw, received_at).0 == nations,
{
    lemma_first_named(nations, account);
    if first_named(nations, account) is Some {
        let i = first_named(nations, account)->0;
        assert(nations.update(i, nations[i]) =~= nations);
    }
}

/// After a success that renews the autologin token, the nation holds the
/// new token and no password, whatever it held before.
pub proof fn renewed_autologin_clears_password(
    nations: Seq<NationView>,
    account: Seq<char>,
    attempt: Attempt,
    raw: RawResponseView,
    received_at: Timestamp,
)
    requires
        first_named(nations, account) is Some,
        raw.classify(attempt.kind, received_at) is Ok,
        raw.renewed_autologin() is Some,
    ensures
        ({
            let i = first_named(nations, account)->0;
            let after = resumed(nations, account, attempt, raw, received_at).0;
            &&& after[i].auth.password is None
            &&& after[i].auth.autologin == raw.renewed_autologin()
        }),
{
    lemma_first_named(nations, account);
}

/// After a success that renews the pin, the nation holds exactly the new
/// pin, stamped with the time at which the answer arrived.
pub proof fn renewed_pin_replaces_pin(
    nations: Seq<NationView>,
    account: Seq<char>,
    attempt: Attempt,
    raw: RawResponseView,
    received_at: Timestamp,
)
    requires
        first_named(nations, account) is Some,
        raw.classify(attempt.kind, received_at) is Ok,
        raw.pin is Some,
        header_number(raw.pin->0) is Some,
    ensures
        ({
            let i = first_named(nations, account)->0;
            let after = resumed(nations, account, attempt, raw, received_at).0;
            after[i].auth.pin == Some(
                Pin { value: header_number(raw.pin->0)->0, timestamp: received_at },
            )
        }),
{
    lemma_first_named(nations, account);
}

/// An answer changes the credentials of the nation that it is for and
/// nothing else: every nation keeps its name and its place, every other
/// nation its credentials, and names that were unique stay unique.
pub proof fn resuming_keeps_names(
    nations: Seq<NationView>,
    account: Seq<char>,
    attempt: Attempt,
    raw: RawResponseView,
    received_at: Timestamp,
)
    ensures
        ({
            let after = resumed(nations, account, attempt, raw, received_at).0;
            &&& after.len() == nations.len()
            &&& forall|j: int| 0 <= j < nations.len() ==> (#[trigger] after[j]).name == nations[j].name
            &&& forall|j: int|
                0 <= j < nations.len() && first_named(nations, account) != Some(j) ==> #[trigger] after[j]
                    == nations[j]
            &&& unique_names(nations) ==> unique_names(after)
        }),
{
    lemma_first_named(nations, account);
}

/// With a retry allowed, a nation that holds a fresh pin and an
/// autologin token is served in exactly two calls when the server
/// rejects the pin and accepts the token: the first call carries the
/// pin, the second the token, and the exchange ends in success. The
/// rejected pin is gone from the stored credentials, which hold the pin
/// that the second answer renewed, if any.
pub proof fn rejected_pin_is_retried_once(
    nations: Seq<NationView>,
    account: Seq<char>,
    now: Timestamp,
    rejection: RawResponseView,
    rejected_at: Timestamp,
    success: RawResponseView,
    succeeded_at: Timestamp,
)
    requires
        first_named(nations, account) is Some,
        ({
            let auth = nations[first_named(nations, account)->0].auth;
            auth.pin is Some && auth.pin->0.fresh_at(now) && auth.autologin is Some
        }),
        rejection.status == STATUS_FORBIDDEN,
        success.status == STATUS_OK,
        success.payload is Some,
    ensures
        ({
            let i = first_named(nations, account)->0;
            let auth = nations[i].auth;
            let first = begun(nations, account, true, now);
            &&& first is Send
            &&& first->call.kind == CredentialKind::Pin
            &&& first->call.value == decimal(auth.pin->0.value as nat)
            &&& ({
                let (cleared, second) = resumed(
                    nations,
                    account,
                    first->attempt,
                    rejection,
                    rejected_at,
                );
                &&& cleared[i].auth.pin is None
                &&& second is Send
                &&& second->call.kind == CredentialKind::Autologin
                &&& second->call.value == auth.autologin->0
                &&& ({
                    let (settled, last) = resumed(
                        cleared,
                        account,
                        second->attempt,
                        success,
                        succeeded_at,
                    );
                    &&& last is Done
                    &&& last->Done_0.result == Ok::<Seq<ResolvedShard>, PingError>(
                        success.payload->0,
                    )
                    &&& last->Done_0.attempts == 2
                    &&& last->Done_0.persist
                    &&& settled[i].auth.pin == success.renewed_pin(succeeded_at)
                })
            })
        }),
{
    lemma_first_named(nations, account);
    let i = first_named(nations, account)->0;
    let first = begun(nations, account, true, now);
    let (cleared, second) = resumed(nations, account, first->attempt, rejection, rejected_at);
    lemma_first_named_update(nations, account, i, cleared[i]);
    assert(cleared =~= nations.update(i, cleared[i]));
}

/// Without a retry allowed, the same exchange ends after one call: the
/// rejection is reported as a bad pin, and the pin is cleared all the
/// same, while token and password stay as they were.
pub proof fn rejected_pin_without_retry(
    nations: Seq<NationView>,
    account: Seq<char>,
    now: Timestamp,
    rejection: RawResponseView,
    rejected_at: Timestamp,
)
    requires
        first_named(nations, account) is Some,
        ({
            let auth = nations[first_named(nations, account)->0].auth;
            auth.pin is Some && auth.pin->0.fresh_at(now)
        }),
        rejection.status == STATUS_FORBIDDEN,
    ensures
        ({
            let i = first_named(nations, account)->0;
            let first = begun(nations, account, false, now);
            &&& first is Send
            &&& first->call.kind == CredentialKind::Pin
            &&& ({
                let (cleared, last) = resumed(
                    nations,
                    account,
                    first->attempt,
                    rejection,
                    rejected_at,
                );
                &&& last is Done
                &&& last->Done_0.result == Err::<Seq<ResolvedShard>, PingError>(PingError::BadPin)
                &&& last->Done_0.attempts == 1
                &&& last->Done_0.persist
                &&& cleared[i].auth == nations[i].auth.without_pin()
            })
        }),
{
    lemma_first_named(nations, account);
}

/// A nation without any credential is answered at once: no call is
/// handed out, and nothing is to be saved.
pub proof fn no_credential_sends_nothing(
    nations: Seq<NationView>,
    account: Seq<char>,
    retry: bool,
    now: Timestamp,
)
    requires
        first_named(nations, account) is Some,
        !nations[first_named(nations, account)->0].auth.usable(),
    ensures
        begun(nations, account, retry, now) == ProgressView::Done(
            CompletionView { result: Err(PingError::NoCredential), attempts: 0, persist: false },
        ),
{
}

/// An exchange sends at most two calls: one more call follows an answer
/// only where that answer rejects the pin of a first attempt and a retry
/// is allowed, and the call that follows is a retry and carries no pin.
/// Where the exchange ends, it reports every call that was sent.
pub proof fn at_most_one_retry(
    nation: NationView,
    attempt: Attempt,
    raw: RawResponseView,
    received_at: Timestamp,
)
    ensures
        ({
            let next = settled(nation, attempt, raw, received_at).1;
            &&& next is Send ==> {
                &&& attempt.stage == (Stage::First { retry_allowed: true })
                &&& attempt.kind == CredentialKind::Pin
                &&& next->attempt.stage == Stage::Retry
                &&& next->attempt.kind != CredentialKind::Pin
            }
            &&& next is Done ==> next->Done_0.attempts == attempt.sent()
        }),
{
}

/// Turns the choice of `credential` for `nation` into the next step.
fn dispatch(nation: &Nation, credential: Credential, stage: Stage) -> (r: Progress)
    ensures
        r@ == dispatched(nation@, credential@, stage),
{
    let mut shards: Vec<Shard> = Vec::new();
    shards.push(Shard::Ping);
    assert(shards@ == ping_shards());
    let request = Request { nation, shards };
    match request.authenticate(credential) {
        Ok(call) => {
            let attempt = Attempt { kind: call.kind, stage };
            Progress::Send { call, attempt }
        },
        Err(failure) => Progress::Done(
            Completion {
                result: Err(PingError::from_failure(failure)),
                attempts: stage.calls_before(),
                persist: match stage {
                    Stage::First { .. } => false,
                    Stage::Retry => true,
                },
            },
        ),
    }
}

/// Begins a ping of `account` at `now`. `retry` says whether a rejected
/// pin may be followed by an attempt with another credential.
pub fn begin_at(profile: &Profile, account: &str, retry: bool, now: &Timestamp) -> (r: Progress)
    ensures
        r@ == begun(profile@, account@, retry, *now),
{
    match profile.nations.position(account) {
        Some(i) => {
            let nation = &profile.nations.inner[i];
            let credential = nation.auth.select_at(now);
            dispatch(nation, credential, Stage::First { retry_allowed: retry })
        },
        None => Progress::Done(
            Completion { result: Err(PingError::AccountNotFound), attempts: 0, persist: false },
        ),
    }
}

/// Takes in the answer `raw` to `attempt`, which arrived at
/// `received_at`: updates the credentials of `nation` and says what the
/// caller is to do next.
pub fn settle_at(
    nation: &mut Nation,
    attempt: Attempt,
    raw: RawResponse,
    received_at: &Timestamp,
) -> (r: Progress)
    ensures
        (final(nation)@, r@) == settled(old(nation)@, attempt, raw@, *received_at),
{
    let sent: u8 = attempt.stage.calls_before() + 1;
    match interpret(raw, attempt.kind, received_at) {
        Ok(response) => {
            nation.auth.renew(response.autologin, response.pin);
            Progress::Done(Completion { result: Ok(response.data), attempts: sent, persist: true })
        },
        Err(Failure::BadPin) => {
            nation.auth.clear_pin();
            let retry = match attempt.stage {
                Stage::First { retry_allowed } => retry_allowed,
                Stage::Retry => false,
            };
            if retry {
                let credential = nation.auth.select_excluding_at(
                    Some(CredentialKind::Pin),
                    received_at,
                );
                dispatch(nation, credential, Stage::Retry)
            } else {
                Progress::Done(
                    Completion { result: Err(PingError::BadPin), attempts: sent, persist: true },
                )
            }
        },
        Err(failure) => Progress::Done(
            Completion {
                result: Err(PingError::from_failure(failure)),
                attempts: sent,
                persist: match attempt.stage {
                    Stage::First { .. } => false,
                    Stage::Retry => true,
                },
            },
        ),
    }
}

/// Takes in the answer `raw` to `attempt`, which arrived at
/// `received_at`: updates the credentials of `account` and says what the
/// caller is to do next.
pub fn resume_at(
    profile: &mut Profile,
    account: &str,
    attempt: Attempt,
    raw: RawResponse,
    received_at: &Timestamp,
) -> (r: Progress)
    ensures
        (final(profile)@, r@) == resumed(old(profile)@, account@, attempt, raw@, *received_at),
{
    match profile.nations.position(account) {
        Some(i) => {
            let next = settle_at(&mut profile.nations.inner[i], attempt, raw, received_at);
            assert(profile@ =~= old(profile)@.update(i as int, profile@[i as int]));
            next
        },
        None => Progress::Done(
            Completion {
                result: Err(PingError::AccountNotFound),
                attempts: attempt.stage.calls_before() + 1,
                persist: false,
            },
        ),
    }
}

/// Takes in the answer `raw` to `attempt`, which has just arrived: the
/// time of its arrival is read from the system clock.
pub fn resume(profile: &mut Profile, account: &str, attempt: Attempt, raw: RawResponse) -> (r:
    Progress)
    ensures
        exists|at: Timestamp|
            (final(profile)@, r@) == resumed(old(profile)@, account@, attempt, raw@, at),
{
    let at = now();
    resume_at(profile, account, attempt, raw, &at)
}

/// Begins a ping of `account` at the time that the system clock shows.
pub fn begin(profile: &Profile, account: &str, retry: bool) -> (r: Progress)
    ensures
        exists|at: Timestamp| r@ == begun(profile@, account@, retry, at),
{
    let at = now();
    begin_at(profile, account, retry, &at)
}

} // verus!
