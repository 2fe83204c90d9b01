use vstd::prelude::*;

use crate::text::same_text;

verus! {

/// The claims of a signed session token.
pub struct Claims {
    pub sub: String,
    pub exp: i64,
    pub iat: i64,
}

/// What a request may do, as reported to the front end.
pub enum AuthPermission {
    AuthDisabled,
    Authenticated,
    InvalidSession,
}

/// The one live admin session. Times are nanoseconds since the Unix epoch.
pub struct Session {
    pub id: String,
    pub expires_at: i128,
}

/// Why a request is turned away.
pub enum SessionError {
    NoSessionCookie,
    NoSession,
    Expired,
    WrongSession,
}

/// The verdict on a request that carries `cookie` while `session` is live.
pub open spec fn session_verdict(cookie: Option<Seq<char>>, session: Option<(Seq<char>, i128)>, now: i128) -> Result<(), SessionError> {
    match (cookie, session) {
        (None, _) => Err(SessionError::NoSessionCookie),
        (_, None) => Err(SessionError::NoSession),
        (Some(c), Some((id, expires_at))) => if expires_at < now {
            Err(SessionError::Expired)
        } else if c != id {
            Err(SessionError::WrongSession)
        } else {
            Ok(())
        },
    }
}

pub open spec fn cookie_view(cookie: Option<&str>) -> Option<Seq<char>> {
    match cookie {
        Some(c) => Some(c@),
        None => None,
    }
}

pub open spec fn session_view(session: Option<&Session>) -> Option<(Seq<char>, i128)> {
    match session {
        Some(s) => Some((s.id@, s.expires_at)),
        None => None,
    }
}

/// Checks the request's session cookie against the live session at time `now`.
pub fn check_session(cookie: Option<&str>, session: Option<&Session>, now: i128) -> (r: Result<(), SessionError>)
    ensures
        r == session_verdict(cookie_view(cookie), session_view(session), now),
{
    let c = match cookie {
        Some(c) => c,
        None => return Err(SessionError::NoSessionCookie),
    };
    let s = match session {
        Some(s) => s,
        None => return Err(SessionError::NoSession),
    };
    if s.expires_at < now {
        return Err(SessionError::Expired);
    }
    if !same_text(c, s.id.as_str()) {
        return Err(SessionError::WrongSession);
    }
    Ok(())
}

/// The permission of a request: any request when sign-in is off, else only
/// one with the live, unexpired session's id.
pub fn auth_permission(enabled: bool, cookie: Option<&str>, session: Option<&Session>, now: i128) -> (r: AuthPermission)
    ensures
        !enabled ==> r is AuthDisabled,
        enabled ==> (r is Authenticated <==> session_verdict(cookie_view(cookie), session_view(session), now) is Ok),
        enabled ==> !(r is AuthDisabled),
{
    if !enabled {
        return AuthPermission::AuthDisabled;
    }
    match check_session(cookie, session, now) {
        Ok(()) => AuthPermission::Authenticated,
        Err(_) => AuthPermission::InvalidSession,
    }
}

} // verus!
