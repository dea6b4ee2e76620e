//! The operator session: who is logged in, since when, and for how long.
//!
//! A session is issued at login with a fixed timeout. There is no renewal:
//! once the timeout has passed, or the operator has logged out, the session
//! grants nothing more than a view.

use vstd::prelude::*;
use vstd::string::StringExecFns;
use crate::error::DeviceError;
use crate::time::{representable, TimeDelta, Timestamp};

verus! {

/// How long the session of the administrator lasts: 24 hours.
pub const ADMIN_TIMEOUT_MILLIS: i64 = 86_400_000;

/// How long the session of any other user lasts: 5 minutes.
pub const USER_TIMEOUT_MILLIS: i64 = 300_000;

/// What a user may do: look at the sensors, or also control the device.
#[derive(Clone, Copy, Debug, PartialEq, Eq, Structural)]
pub enum AuthLevel {
    View,
    Modify,
}

impl Default for AuthLevel {
    /// Without a session there is only a view.
    fn default() -> (level: AuthLevel)
        ensures
            level == AuthLevel::View,
    {
        AuthLevel::View
    }
}

/// The name that logs in as administrator.
pub open spec fn admin_username() -> Seq<char> {
    "god"@
}

/// The timeout of the session issued to `username`, in milliseconds.
pub open spec fn timeout_for(username: Seq<char>) -> int {
    if username == admin_username() {
        ADMIN_TIMEOUT_MILLIS as int
    } else {
        USER_TIMEOUT_MILLIS as int
    }
}

/// One login: the user, the level granted, and the span of time it is
/// granted for, counted from `begin_timestamp`.
#[derive(Debug, PartialEq, Eq)]
pub struct SessionData {
    pub username: String,
    pub auth_level: AuthLevel,
    pub begin_timestamp: Timestamp,
    pub timeout_time: TimeDelta,
}

impl SessionData {
    /// The last instant at which the session is still valid.
    pub open spec fn end(self) -> int {
        self.begin_timestamp@ + self.timeout_time@
    }

    /// Whether the timeout has passed at `now`. At the instant `end` itself
    /// the session is still valid.
    pub open spec fn expired_at(self, now: int) -> bool {
        now > self.end()
    }

    /// The level that the session grants at `now`: the stored one until the
    /// timeout has passed, and a view from then on, whatever is stored.
    pub open spec fn privilege_at(self, now: int) -> AuthLevel {
        if self.expired_at(now) {
            AuthLevel::View
        } else {
            self.auth_level
        }
    }

    /// The time left at `now`, for a session that still grants control then.
    pub open spec fn time_left(self, now: int) -> Option<int> {
        if self.privilege_at(now) == AuthLevel::Modify {
            Some(self.end() - now)
        } else {
            None
        }
    }

    /// Issues a session at `now` to a user whose credentials were checked.
    /// Accepted credentials always yield a session, with control granted and
    /// the timeout that belongs to the name; rejected ones yield
    /// `InvalidCredentials`.
    pub fn login(username: &str, credentials_accepted: bool, now: Timestamp) -> (session: Result<
        SessionData,
        DeviceError,
    >)
        ensures
            match session {
                Ok(issued) => {
                    &&& credentials_accepted
                    &&& issued.username@ == username@
                    &&& issued.auth_level == AuthLevel::Modify
                    &&& issued.begin_timestamp == now
                    &&& issued.timeout_time@ == timeout_for(username@)
                },
                Err(error) => !credentials_accepted && error == DeviceError::InvalidCredentials,
            },
    {
        if !credentials_accepted {
            return Err(DeviceError::InvalidCredentials);
        }
        let name: String = String::from_str(username);
        let admin: String = String::from_str("god");
        let timeout_time = if name == admin {
            TimeDelta { millis: ADMIN_TIMEOUT_MILLIS }
        } else {
            TimeDelta { millis: USER_TIMEOUT_MILLIS }
        };
        Ok(SessionData { username: name, auth_level: AuthLevel::Modify, begin_timestamp: now, timeout_time })
    }

    /// Whether the timeout has passed at `now`.
    pub fn is_expired(&self, now: Timestamp) -> (expired: bool)
        ensures
            expired == self.expired_at(now@),
    {
        let end: i128 = (self.begin_timestamp.millis as i128) + (self.timeout_time.millis as i128);
        (now.millis as i128) > end
    }

    /// The level that the session grants at `now`.
    pub fn effective_privilege(&self, now: Timestamp) -> (level: AuthLevel)
        ensures
            level == self.privilege_at(now@),
    {
        if self.is_expired(now) {
            AuthLevel::View
        } else {
            self.auth_level
        }
    }

    /// Ends the session at once: from now on it grants a view at every instant.
    pub fn logout(&mut self)
        ensures
            final(self).auth_level == AuthLevel::View,
            final(self).username == old(self).username,
            final(self).begin_timestamp == old(self).begin_timestamp,
            final(self).timeout_time == old(self).timeout_time,
            forall|now: int| #[trigger] final(self).privilege_at(now) == AuthLevel::View,
    {
        self.auth_level = AuthLevel::View;
    }

    /// The time left before the session expires: `Some` exactly where the
    /// session grants control at `now` and the span can be represented,
    /// which it can whenever `now` is no earlier than the login.
    pub fn remaining_time(&self, now: Timestamp) -> (left: Option<TimeDelta>)
        ensures
            match left {
                Some(span) => self.time_left(now@) == Some(span@) && span@ >= 0,
                None => match self.time_left(now@) {
                    Some(millis) => !representable(millis),
                    None => true,
                },
            },
    {
        match self.effective_privilege(now) {
            AuthLevel::View => None,
            AuthLevel::Modify => {
                let end: i128 = (self.begin_timestamp.millis as i128) + (self.timeout_time.millis as i128);
                let left: i128 = end - (now.millis as i128);
                if left > 9_223_372_036_854_775_807i128 {
                    None
                } else {
                    Some(TimeDelta { millis: left as i64 })
                }
            },
        }
    }
}

/// A session grants control exactly until its timeout has passed: at
/// every instant up to and including `begin + timeout`, and at none after
/// it. The one case apart is a session that was logged out, at an instant
/// before its timeout has passed: it grants a view there.
pub proof fn control_lasts_exactly_until_expiry(session: SessionData, now: int)
    requires
        session.auth_level == AuthLevel::Modify || now > session.begin_timestamp@ + session.timeout_time@,
    ensures
        session.privilege_at(now) == AuthLevel::Modify <==> now <= session.begin_timestamp@
            + session.timeout_time@,
{
}

/// Of every session: control is granted at `now` exactly if control is
/// stored in it and `now` is not past `begin + timeout`.
pub proof fn control_needs_a_live_session(session: SessionData, now: int)
    ensures
        session.privilege_at(now) == AuthLevel::Modify <==> session.auth_level == AuthLevel::Modify && now
            <= session.begin_timestamp@ + session.timeout_time@,
{
}

/// Past its timeout a session grants a view only, whatever level is stored in it.
pub proof fn expired_session_grants_view(session: SessionData, now: int)
    requires
        now > session.begin_timestamp@ + session.timeout_time@,
    ensures
        session.privilege_at(now) == AuthLevel::View,
{
}

/// The administrator is given 24 hours and every other user 5 minutes.
pub proof fn timeout_by_username(username: Seq<char>)
    ensures
        username == admin_username() ==> timeout_for(username) == 24 * 60 * 60 * 1_000,
        username != admin_username() ==> timeout_for(username) == 5 * 60 * 1_000,
{
}

} // verus!
