//! An issued access token and the moment it stops being valid.

use crate::instant::{now_utc, parse_rfc3339, rfc3339_instant, Instant};
use vstd::prelude::*;

verus! {

/// An access token as the authorization server issued it.
///
/// `expiry` is an RFC 3339 timestamp, or empty where the server named no
/// lifetime; `refresh_token` is empty where none was issued.
#[derive(Debug, PartialEq, Eq)]
pub struct Credential {
    pub token: String,
    pub expiry: String,
    pub refresh_token: String,
}

/// The mathematical value of a [`Credential`]: its three texts.
pub struct CredentialView {
    pub token: Seq<char>,
    pub expiry: Seq<char>,
    pub refresh_token: Seq<char>,
}

impl CredentialView {
    /// The credential with all three texts empty.
    pub open spec fn empty() -> CredentialView {
        CredentialView { token: Seq::empty(), expiry: Seq::empty(), refresh_token: Seq::empty() }
    }

    /// The credential counts as expired at `now`: its expiry is a timestamp
    /// and `now` lies strictly after it. An expiry that is no timestamp never
    /// expires.
    pub open spec fn expired_at(self, now: Instant) -> bool {
        match rfc3339_instant(self.expiry) {
            Some(end) => now.secs > end.0 || (now.secs == end.0 && now.nanos > end.1),
            None => false,
        }
    }
}

impl View for Credential {
    type V = CredentialView;

    open spec fn view(&self) -> CredentialView {
        CredentialView {
            token: self.token@,
            expiry: self.expiry@,
            refresh_token: self.refresh_token@,
        }
    }
}

impl Clone for Credential {
    fn clone(&self) -> (r: Self)
        ensures
            r@ == self@,
    {
        Credential {
            token: self.token.clone(),
            expiry: self.expiry.clone(),
            refresh_token: self.refresh_token.clone(),
        }
    }
}

impl Default for Credential {
    fn default() -> (r: Self)
        ensures
            r@ == CredentialView::empty(),
    {
        Credential::empty()
    }
}

impl Credential {
    /// A credential with nothing in it.
    pub fn empty() -> (r: Credential)
        ensures
            r@ == CredentialView::empty(),
    {
        Credential { token: String::new(), expiry: String::new(), refresh_token: String::new() }
    }

    /// Tells whether the credential has expired by the system clock.
    ///
    /// The clock is read only where the expiry is a timestamp. Whatever the
    /// clock says: a credential whose expiry is empty or no timestamp is not
    /// expired, and one whose expiry lies before the Unix epoch is.
    pub fn is_expired(&self) -> (r: bool)
        ensures
            self.expiry@.len() == 0 ==> !r,
            rfc3339_instant(self.expiry@) is None ==> !r,
            rfc3339_instant(self.expiry@) matches Some(end) && end.0 < 0 ==> r,
    {
        match parse_rfc3339(self.expiry.as_str()) {
            None => false,
            Some(end) => {
                let now = now_utc();
                now.after(&end)
            },
        }
    }

    /// Tells whether the credential has expired at `now`.
    pub fn is_expired_at(&self, now: Instant) -> (r: bool)
        ensures
            r == self@.expired_at(now),
            self.expiry@.len() == 0 ==> !r,
    {
        match parse_rfc3339(self.expiry.as_str()) {
            None => false,
            Some(end) => now.after(&end),
        }
    }
}

/// A credential whose expiry is no timestamp is expired at no time.
pub proof fn unreadable_expiry_never_expires(credential: CredentialView, now: Instant)
    requires
        rfc3339_instant(credential.expiry) is None,
    ensures
        !credential.expired_at(now),
{
}

/// A credential whose expiry is the timestamp of `end` is expired at every
/// time strictly after `end`, and at no time before `end` or at `end` itself.
pub proof fn expiry_splits_time(credential: CredentialView, end: Instant, now: Instant)
    requires
        rfc3339_instant(credential.expiry) == Some(end.pair()),
    ensures
        now.is_after(end) ==> credential.expired_at(now),
        end.is_after(now) ==> !credential.expired_at(now),
        now == end ==> !credential.expired_at(now),
{
}

} // verus!
