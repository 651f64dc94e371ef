//! What happens around every request: the session is loaded or created and
//! its user attached before the handler runs, and the session is saved and
//! the cookie refreshed after it.

use crate::backend::{spec_load_user, user_view, Backend, User, UserView};
use crate::clock::Timestamp;
use crate::session::{DataView, Session, SessionId, SessionView, UserId};
use crate::store::{created, spec_load, spec_save, touched, Records, SessionStore, StoreError};
use vstd::prelude::*;

verus! {

/// Where the access gate sends a caller who has to log in.
pub const LOGIN_URL: &'static str = "/login";

/// The seconds between two sweeps of expired sessions.
pub const SWEEP_INTERVAL_SECS: u64 = 60;

/// The `SameSite` attribute of a cookie.
#[derive(Clone, Copy, Debug, PartialEq, Eq, Structural)]
pub enum SameSite {
    /// Sent with same-site requests only.
    Strict,
    /// Sent with same-site requests and with top-level navigations.
    Lax,
    /// Sent with every request.
    CrossSite,
}

/// The session cookie as it is set on a response.
#[derive(Clone, Copy, Debug, PartialEq, Eq, Structural)]
pub struct SessionCookie {
    /// The session's id.
    pub value: SessionId,
    /// Scripts cannot read the cookie.
    pub http_only: bool,
    pub same_site: SameSite,
    /// The cookie is sent over TLS only.
    pub secure: bool,
    /// The seconds for which the browser keeps the cookie: the inactivity
    /// window, so that cookie and session expire together.
    pub max_age: u64,
}

/// The cookie for a session with the id `value`.
pub open spec fn session_cookie(value: SessionId, window: u64, secure: bool) -> SessionCookie {
    SessionCookie { value, http_only: true, same_site: SameSite::Lax, secure, max_age: window }
}

/// The cookie for a session with the id `value`: readable by the server
/// alone, sent along with top-level navigations, and kept by the browser for
/// one inactivity window. `secure` says whether the deployment serves TLS.
pub fn cookie_for(value: SessionId, window: u64, secure: bool) -> (cookie: SessionCookie)
    ensures
        cookie == session_cookie(value, window, secure),
{
    SessionCookie { value, http_only: true, same_site: SameSite::Lax, secure, max_age: window }
}

/// What the sweeping task does after a sweep.
#[derive(Clone, Copy, Debug, PartialEq, Eq, Structural)]
pub struct SweepPlan {
    /// Whether the sweep that just ended has to be logged as failed.
    pub log_failure: bool,
    /// The seconds to wait before the next sweep.
    pub wait_secs: u64,
}

/// Plans the next sweep. A failed sweep is logged and tried again at the
/// next tick; it never ends the task.
pub fn after_sweep(succeeded: bool) -> (plan: SweepPlan)
    ensures
        plan == (SweepPlan { log_failure: !succeeded, wait_secs: SWEEP_INTERVAL_SECS }),
{
    SweepPlan { log_failure: !succeeded, wait_secs: SWEEP_INTERVAL_SECS }
}

/// What a handler finds attached to its request.
#[derive(Debug)]
pub struct RequestContext {
    pub session: Session,
    /// The user that the session is authenticated as, if it is.
    pub user: Option<User>,
}

/// Whether the cookie names a session that can be loaded at `now`.
pub open spec fn cookie_loads(m: Records, cookie: Option<SessionId>, now: Timestamp) -> bool {
    cookie matches Some(id) && spec_load(m, id, now) is Some
}

/// The session of a request: the one that the cookie names, or a new one
/// under the id `fresh`.
pub open spec fn opened_session(
    m: Records,
    cookie: Option<SessionId>,
    fresh: SessionId,
    now: Timestamp,
    window: u64,
) -> SessionView {
    if cookie_loads(m, cookie, now) {
        spec_load(m, cookie->0, now)->0
    } else {
        created(fresh, now, window)
    }
}

/// The user attached to a request whose session holds `identity`: the user
/// of that id, or nobody where the session holds none or the id is unknown.
pub open spec fn attached_user(users: Seq<UserView>, identity: Option<UserId>) -> Option<UserView> {
    match identity {
        Some(id) => match spec_load_user(users, id) {
            Ok(u) => Some(u),
            Err(_) => None,
        },
        None => None,
    }
}

/// The user whom the session is authenticated as, looked up without
/// verifying anything again.
pub fn resolve_user(backend: &Backend, session: &Session) -> (user: Option<User>)
    ensures
        user_view(user) == attached_user(backend@, session@.data.identity),
{
    match session.data.identity() {
        Some(id) => match backend.load_user(id) {
            Ok(u) => Some(u),
            Err(_) => None,
        },
        None => None,
    }
}

/// Opens a request: loads the session that the cookie names or, where
/// there is no cookie or no live session under it, creates one under the id
/// `fresh`; then attaches the session's user. A new session is refused
/// where `fresh` already names a record.
pub fn open_request(
    store: &mut SessionStore,
    backend: &Backend,
    cookie: Option<SessionId>,
    fresh: SessionId,
    now: Timestamp,
) -> (opened: Result<RequestContext, StoreError>)
    requires
        old(store).in_range(now),
    ensures
        final(store).spec_window() == old(store).spec_window(),
        match opened {
            Ok(ctx) => {
                &&& ctx.session@ == opened_session(
                    old(store)@,
                    cookie,
                    fresh,
                    now,
                    old(store).spec_window(),
                )
                &&& user_view(ctx.user) == attached_user(backend@, ctx.session@.data.identity)
                &&& if cookie_loads(old(store)@, cookie, now) {
                    final(store)@ == old(store)@
                } else {
                    &&& !old(store)@.contains_key(fresh)
                    &&& final(store)@ == old(store)@.insert(fresh, ctx.session@)
                }
            },
            Err(e) => {
                &&& e == StoreError::IdInUse
                &&& !cookie_loads(old(store)@, cookie, now)
                &&& old(store)@.contains_key(fresh)
                &&& final(store)@ == old(store)@
            },
        },
{
    let loaded = match cookie {
        Some(id) => match store.load(id, now) {
            Ok(s) => Some(s),
            Err(_) => None,
        },
        None => None,
    };
    let session = match loaded {
        Some(s) => s,
        None => match store.create(fresh, now) {
            Ok(s) => s,
            Err(e) => {
                return Err(e);
            },
        },
    };
    let user = resolve_user(backend, &session);
    Ok(RequestContext { session, user })
}

/// Closes a request, whatever the handler made of it: saves the session
/// with `now` as its last activity and returns the cookie to set.
pub fn close_request(
    store: &mut SessionStore,
    session: &mut Session,
    secure: bool,
    now: Timestamp,
) -> (cookie: SessionCookie)
    requires
        old(store).in_range(now),
    ensures
        final(store).spec_window() == old(store).spec_window(),
        final(session)@ == touched(old(session)@, now, old(store).spec_window()),
        final(store)@ == spec_save(old(store)@, old(session)@, now, old(store).spec_window()),
        cookie == session_cookie(old(session).id, old(store).spec_window(), secure),
{
    store.save(session, now);
    cookie_for(session.id, store.window(), secure)
}

/// Logs the session out: its identity is cleared and it gets the id
/// `fresh`, the record under the old id being deleted. The id is refused
/// where it is the session's own or already names a record; nothing
/// changes then.
pub fn logout(store: &mut SessionStore, session: &mut Session, fresh: SessionId) -> (done: Result<
    (),
    StoreError,
>)
    ensures
        final(store).spec_window() == old(store).spec_window(),
        match done {
            Ok(_) => {
                &&& fresh != old(session).id
                &&& !old(store)@.contains_key(fresh)
                &&& final(session)@ == (SessionView {
                    id: fresh,
                    data: DataView { identity: None, ..old(session)@.data },
                    ..old(session)@
                })
                &&& final(store)@ == old(store)@.remove(old(session).id)
            },
            Err(e) => {
                &&& e == StoreError::IdInUse
                &&& fresh == old(session).id || old(store)@.contains_key(fresh)
                &&& final(session)@ == old(session)@
                &&& final(store)@ == old(store)@
            },
        },
{
    match store.rotate(session, fresh) {
        Ok(_) => {
            session.data.clear_identity();
            Ok(())
        },
        Err(e) => Err(e),
    }
}

} // verus!
