//! The credential set of one nation: what it holds, which credential is
//! used for a request, and how a server's answer changes it.

use vstd::prelude::*;
use crate::clock::Timestamp;
use crate::clock::now;

verus! {

/// How long a pin stays valid after it was issued: two hours, in
/// nanoseconds.
pub const PIN_LIFETIME_NANOS: i128 = 7_200_000_000_000;

/// Session pin for the NationStates API.
#[derive(Clone, Copy, Debug, PartialEq, Eq, Structural)]
pub struct Pin {
    pub value: u64,
    pub timestamp: Timestamp,
}

impl Pin {
    /// Whether less than two hours lie between the pin's issue and `now`.
    pub open spec fn fresh_at(self, now: Timestamp) -> bool {
        now.total_nanos() - self.timestamp.total_nanos() < PIN_LIFETIME_NANOS
    }

    /// Check validity at `now`, based on the timestamp.
    /// Note that pins are also invalidated by additional logins.
    pub fn valid_at(&self, now: &Timestamp) -> (r: bool)
        ensures
            r == self.fresh_at(*now),
    {
        now.nanos_since(&self.timestamp) < PIN_LIFETIME_NANOS
    }

    /// Check validity against the system clock.
    pub fn valid(&self) -> (r: bool)
        ensures
            exists|at: Timestamp| r == self.fresh_at(at),
    {
        let at = now();
        self.valid_at(&at)
    }
}

/// The three kinds of proof of identity that the API accepts.
#[derive(Clone, Copy, Debug, PartialEq, Eq, Structural)]
pub enum CredentialKind {
    Pin,
    Autologin,
    Password,
}

/// The one credential chosen for an attempt, or the lack of any.
pub enum Credential {
    Pin(u64),
    Autologin(String),
    Password(String),
    Absent,
}

/// A `Credential` with its strings as sequences of characters.
pub enum CredentialView {
    Pin(u64),
    Autologin(Seq<char>),
    Password(Seq<char>),
    Absent,
}

impl CredentialView {
    /// The kind of the credential, where there is one.
    pub open spec fn kind(self) -> Option<CredentialKind> {
        match self {
            CredentialView::Pin(_) => Some(CredentialKind::Pin),
            CredentialView::Autologin(_) => Some(CredentialKind::Autologin),
            CredentialView::Password(_) => Some(CredentialKind::Password),
            CredentialView::Absent => None,
        }
    }
}

impl View for Credential {
    type V = CredentialView;

    open spec fn view(&self) -> CredentialView {
        match self {
            Credential::Pin(value) => CredentialView::Pin(*value),
            Credential::Autologin(token) => CredentialView::Autologin(token@),
            Credential::Password(password) => CredentialView::Password(password@),
            Credential::Absent => CredentialView::Absent,
        }
    }
}

impl Credential {
    /// The kind of the credential, where there is one.
    pub fn kind(&self) -> (r: Option<CredentialKind>)
        ensures
            r == self@.kind(),
    {
        match self {
            Credential::Pin(_) => Some(CredentialKind::Pin),
            Credential::Autologin(_) => Some(CredentialKind::Autologin),
            Credential::Password(_) => Some(CredentialKind::Password),
            Credential::Absent => None,
        }
    }
}

/// Authentication information for the NationStates API.
/// A usable `Auth` will have at least one `Some` in its fields.
/// Storage should prefer storing autologin tokens over passwords.
pub struct Auth {
    pub password: Option<String>,
    pub autologin: Option<String>,
    pub pin: Option<Pin>,
}

/// An `Auth` with its strings as sequences of characters.
pub struct AuthView {
    pub password: Option<Seq<char>>,
    pub autologin: Option<Seq<char>>,
    pub pin: Option<Pin>,
}

impl AuthView {
    /// The set that holds nothing.
    pub open spec fn empty() -> AuthView {
        AuthView { password: None, autologin: None, pin: None }
    }

    /// Whether at least one of the three credentials is present.
    pub open spec fn usable(self) -> bool {
        self.password is Some || self.autologin is Some || self.pin is Some
    }

    /// The credential for one attempt at `now` when the kind `excluded`,
    /// if any, may not be used: the pin where it is present and fresh,
    /// else the autologin token, else the password.
    pub open spec fn select_excluding(
        self,
        excluded: Option<CredentialKind>,
        now: Timestamp,
    ) -> CredentialView {
        if excluded != Some(CredentialKind::Pin) && self.pin is Some && self.pin->0.fresh_at(now) {
            CredentialView::Pin(self.pin->0.value)
        } else if excluded != Some(CredentialKind::Autologin) && self.autologin is Some {
            CredentialView::Autologin(self.autologin->0)
        } else if excluded != Some(CredentialKind::Password) && self.password is Some {
            CredentialView::Password(self.password->0)
        } else {
            CredentialView::Absent
        }
    }

    /// The credential for one attempt at `now`.
    pub open spec fn select(self, now: Timestamp) -> CredentialView {
        self.select_excluding(None, now)
    }

    /// The set after a successful exchange that renewed `autologin` and
    /// `pin`, where present: a new token takes the place of the old one
    /// and of the password, a new pin the place of the old pin.
    pub open spec fn renewed(self, autologin: Option<Seq<char>>, pin: Option<Pin>) -> AuthView {
        AuthView {
            password: if autologin is Some { None } else { self.password },
            autologin: if autologin is Some { autologin } else { self.autologin },
            pin: if pin is Some { pin } else { self.pin },
        }
    }

    /// The set without its pin.
    pub open spec fn without_pin(self) -> AuthView {
        AuthView { pin: None, ..self }
    }
}

impl View for Auth {
    type V = AuthView;

    open spec fn view(&self) -> AuthView {
        AuthView {
            password: self.password.deep_view(),
            autologin: self.autologin.deep_view(),
            pin: self.pin,
        }
    }
}

impl Default for Auth {
    fn default() -> (r: Self)
        ensures
            r@ == AuthView::empty(),
    {
        Auth { password: None, autologin: None, pin: None }
    }
}

/// From a set that holds only a password, the password is selected at
/// every instant.
pub proof fn password_only_selects_password(auth: AuthView, now: Timestamp)
    requires
        auth.password is Some,
        auth.autologin is None,
        auth.pin is None,
    ensures
        auth.select(now) == CredentialView::Password(auth.password->0),
{
}

/// A pin that was issued two hours or more before `now` is not valid at
/// `now`, and the selection goes as if the set held no pin.
pub proof fn expired_pin_is_skipped(auth: AuthView, now: Timestamp)
    requires
        auth.pin is Some,
        now.total_nanos() - auth.pin->0.timestamp.total_nanos() >= PIN_LIFETIME_NANOS,
    ensures
        !auth.pin->0.fresh_at(now),
        auth.select(now) == auth.without_pin().select(now),
        auth.select(now).kind() != Some(CredentialKind::Pin),
{
}

/// A set that was usable before a renewal is usable after it.
pub proof fn renewal_keeps_usable(auth: AuthView, autologin: Option<Seq<char>>, pin: Option<Pin>)
    requires
        auth.usable(),
    ensures
        auth.renewed(autologin, pin).usable(),
{
}

/// Whether `kind` is the excluded one.
fn is_excluded(excluded: &Option<CredentialKind>, kind: CredentialKind) -> (r: bool)
    ensures
        r == (*excluded == Some(kind)),
{
    match excluded {
        Some(k) => *k == kind,
        None => false,
    }
}

impl Auth {
    /// Whether at least one of the three credentials is present.
    pub fn usable(&self) -> (r: bool)
        ensures
            r == self@.usable(),
    {
        self.password.is_some() || self.autologin.is_some() || self.pin.is_some()
    }

    /// What a log may show of the set: its type, and nothing of what it
    /// holds.
    pub fn to_debug_string(&self) -> (r: String)
        ensures
            r@ == "Auth"@,
    {
        "Auth".to_owned()
    }

    /// Chooses the credential for one attempt at `now`, leaving out the
    /// kind `excluded` if one is given.
    pub fn select_excluding_at(&self, excluded: Option<CredentialKind>, now: &Timestamp) -> (r:
        Credential)
        ensures
            r@ == self@.select_excluding(excluded, *now),
    {
        if !is_excluded(&excluded, CredentialKind::Pin) {
            if let Some(pin) = &self.pin {
                if pin.valid_at(now) {
                    return Credential::Pin(pin.value);
                }
            }
        }
        if !is_excluded(&excluded, CredentialKind::Autologin) {
            if let Some(token) = &self.autologin {
                return Credential::Autologin(token.clone());
            }
        }
        if !is_excluded(&excluded, CredentialKind::Password) {
            if let Some(password) = &self.password {
                return Credential::Password(password.clone());
            }
        }
        Credential::Absent
    }

    /// Chooses the credential for one attempt at `now`: the cheapest one
    /// that is present and, for a pin, still fresh.
    pub fn select_at(&self, now: &Timestamp) -> (r: Credential)
        ensures
            r@ == self@.select(*now),
    {
        self.select_excluding_at(None, now)
    }

    /// Takes in what a successful exchange renewed.
    pub fn renew(&mut self, autologin: Option<String>, pin: Option<Pin>)
        ensures
            final(self)@ == old(self)@.renewed(autologin.deep_view(), pin),
    {
        if let Some(token) = autologin {
            self.autologin = Some(token);
            // Since autologins last as long as passwords do,
            // the stored password can go.
            self.password = None;
        }
        if let Some(pin) = pin {
            self.pin = Some(pin);
        }
    }

    /// Forgets the pin, which the server has rejected.
    pub fn clear_pin(&mut self)
        ensures
            final(self)@ == old(self)@.without_pin(),
    {
        self.pin = None;
    }
}

} // verus!
