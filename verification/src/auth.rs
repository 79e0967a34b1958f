//! The credential boundary.
//!
//! The engine neither issues nor validates credentials. It is handed a
//! session that someone else has validated, passes it on untouched, and
//! refuses to start where none is present.

use crate::client::{QbtError, QbtErrorView, SID_COOKIE};
use vstd::prelude::*;

verus! {

/// The name of the cookie that carries the sealed session.
pub const AUTH_COOKIE: &'static str = "bt-session";

/// The `Set-Cookie` value that makes a browser forget the session.
pub const REMOVE_COOKIE: &'static str =
    "bt-session=; path=/; expires=Thu, 01 Jan 1970 00:00:00 GMT";

/// An upstream session: the id the backend issued at login.
#[derive(Clone, Debug)]
pub struct Session {
    pub sid: String,
}

impl View for Session {
    type V = Seq<char>;

    /// The session id.
    open spec fn view(&self) -> Seq<char> {
        self.sid@
    }
}

impl Session {
    /// The session with the id `sid`.
    pub fn new(sid: String) -> (s: Session)
        ensures
            s@ == sid@,
            s.sid == sid,
    {
        Self { sid }
    }
}

/// What a request carries about who sent it: a session, or nothing.
#[derive(Clone, Debug)]
pub struct AuthSession {
    pub session: Option<Session>,
}

impl View for AuthSession {
    type V = Option<Seq<char>>;

    /// The session id, if a session is present.
    open spec fn view(&self) -> Option<Seq<char>> {
        match self.session {
            Some(session) => Some(session@),
            None => None,
        }
    }
}

impl AuthSession {
    pub fn new(session: Option<Session>) -> (a: AuthSession)
        ensures
            a.session == session,
    {
        Self { session }
    }

    /// Whether a session is present.
    pub fn has_auth(&self) -> (b: bool)
        ensures
            b == (self@ is Some),
    {
        self.session.is_some()
    }

    /// The session, or the refusal that ends a request without one.
    pub fn credential(&self) -> (r: Result<&Session, QbtError>)
        ensures
            r is Ok <==> self@ is Some,
            r matches Ok(session) ==> self.session == Some(*session),
            r matches Err(e) ==> e@ == QbtErrorView::Unauthenticated,
    {
        match &self.session {
            Some(session) => Ok(session),
            None => Err(QbtError::Unauthenticated),
        }
    }
}

/// One cookie of a request or a response.
#[derive(Clone, Debug)]
pub struct Cookie {
    pub name: String,
    pub value: String,
}

/// The value of the first cookie called `name`, if there is one.
pub open spec fn first_cookie(cookies: Seq<Cookie>, name: Seq<char>) -> Option<Seq<char>>
    decreases cookies.len(),
{
    if cookies.len() == 0 {
        None
    } else if cookies[0].name@ == name {
        Some(cookies[0].value@)
    } else {
        first_cookie(cookies.skip(1), name)
    }
}

/// Looks up the first cookie called `name`.
pub fn find_cookie<'a>(cookies: &'a Vec<Cookie>, name: &str) -> (r: Option<&'a String>)
    ensures
        match r {
            Some(value) => first_cookie(cookies@, name@) == Some(value@),
            None => first_cookie(cookies@, name@) is None,
        },
{
    let wanted = name.to_owned();
    let n = cookies.len();
    let mut i: usize = 0;
    proof {
        assert(cookies@.skip(0) =~= cookies@);
    }
    while i < n
        invariant
            n == cookies.len(),
            i <= n,
            wanted@ == name@,
            first_cookie(cookies@, name@) == first_cookie(cookies@.skip(i as int), name@),
        decreases n - i,
    {
        proof {
            assert(cookies@.skip(i as int)[0] == cookies@[i as int]);
            assert(cookies@.skip(i as int).skip(1) =~= cookies@.skip(i + 1));
        }
        if cookies[i].name == wanted {
            return Some(&cookies[i].value);
        }
        i += 1;
    }
    None
}

/// The upstream session id among the cookies that a login was answered
/// with. A login whose answer sets no such cookie has failed.
pub fn sid_from_cookies(cookies: &Vec<Cookie>) -> (r: Result<String, QbtError>)
    ensures
        match r {
            Ok(sid) => first_cookie(cookies@, SID_COOKIE@) == Some(sid@),
            Err(e) => first_cookie(cookies@, SID_COOKIE@) is None && e@
                == QbtErrorView::Unauthenticated,
        },
{
    match find_cookie(cookies, SID_COOKIE) {
        Some(value) => Ok(value.clone()),
        None => Err(QbtError::Unauthenticated),
    }
}

/// The `Set-Cookie` value that hands the sealed session `sealed` to a
/// browser.
pub fn session_cookie(sealed: &str) -> (s: String)
    ensures
        s@ == "bt-session="@ + sealed@ + "; path=/; HttpOnly"@,
{
    let mut s = "bt-session=".to_owned();
    s.append(sealed);
    s.append("; path=/; HttpOnly");
    s
}

} // verus!
