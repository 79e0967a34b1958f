//! The upstream client's side of the sync endpoint.
//!
//! The client itself does no I/O. It says which URL and which cookie a
//! request carries, and it reads from a decoded response body which kind of
//! frame the body holds. Sending the request and decoding the frame are the
//! caller's part.

use vstd::prelude::*;

verus! {

pub const BASE_QBT_URL: &'static str = "http://localhost:9090/api/v2";

pub const TORRENTS_API: &'static str = "/torrents";

pub const INFO_API: &'static str = "/info";

pub const SYNC_API: &'static str = "/sync";

pub const MAINDATA_API: &'static str = "/maindata";

pub const AUTH_LOGIN_API: &'static str = "/auth/login";

/// The name of the cookie that carries the upstream session id.
pub const SID_COOKIE: &'static str = "SID";

/// The character of a decimal digit.
pub open spec fn digit(d: nat) -> char {
    if d == 0 {
        '0'
    } else if d == 1 {
        '1'
    } else if d == 2 {
        '2'
    } else if d == 3 {
        '3'
    } else if d == 4 {
        '4'
    } else if d == 5 {
        '5'
    } else if d == 6 {
        '6'
    } else if d == 7 {
        '7'
    } else if d == 8 {
        '8'
    } else {
        '9'
    }
}

/// The decimal numeral of `n`, without sign or leading zeros.
pub open spec fn decimal(n: nat) -> Seq<char>
    decreases n,
{
    if n < 10 {
        seq![digit(n)]
    } else {
        decimal(n / 10).push(digit(n % 10))
    }
}

fn digit_str(d: u64) -> (s: &'static str)
    requires
        d < 10,
    ensures
        s@ == seq![digit(d as nat)],
{
    proof {
        reveal_strlit("0");
        reveal_strlit("1");
        reveal_strlit("2");
        reveal_strlit("3");
        reveal_strlit("4");
        reveal_strlit("5");
        reveal_strlit("6");
        reveal_strlit("7");
        reveal_strlit("8");
        reveal_strlit("9");
    }
    let s = if d == 0 {
        "0"
    } else if d == 1 {
        "1"
    } else if d == 2 {
        "2"
    } else if d == 3 {
        "3"
    } else if d == 4 {
        "4"
    } else if d == 5 {
        "5"
    } else if d == 6 {
        "6"
    } else if d == 7 {
        "7"
    } else if d == 8 {
        "8"
    } else {
        "9"
    };
    assert(s@ =~= seq![digit(d as nat)]);
    s
}

/// Writes `n` as a decimal numeral.
pub fn decimal_string(n: u64) -> (s: String)
    ensures
        s@ == decimal(n as nat),
    decreases n,
{
    if n < 10 {
        digit_str(n).to_owned()
    } else {
        let mut s = decimal_string(n / 10);
        s.append(digit_str(n % 10));
        s
    }
}

/// Why a request to the backend came to nothing.
#[derive(Clone, Debug)]
pub enum QbtError {
    /// The backend knows no session for the credential that was presented,
    /// or none was presented.
    Unauthenticated,
    /// The request did not get through, or the answer was no success: the
    /// transport's own account of it.
    Transport(String),
    /// The answer's body is not what the sync endpoint is documented to
    /// send.
    Malformed,
}

/// The mathematical value of a [`QbtError`].
pub enum QbtErrorView {
    Unauthenticated,
    Transport(Seq<char>),
    Malformed,
}

impl View for QbtError {
    type V = QbtErrorView;

    open spec fn view(&self) -> QbtErrorView {
        match self {
            QbtError::Unauthenticated => QbtErrorView::Unauthenticated,
            QbtError::Transport(message) => QbtErrorView::Transport(message@),
            QbtError::Malformed => QbtErrorView::Malformed,
        }
    }
}

impl QbtErrorView {
    /// Whether trying again later can help. A failure of the transport or a
    /// body out of shape may pass; a credential that the backend does not
    /// accept will not become valid by waiting.
    pub open spec fn retryable(self) -> bool {
        !(self is Unauthenticated)
    }

    /// The text of the error.
    pub open spec fn message(self) -> Seq<char> {
        match self {
            QbtErrorView::Unauthenticated => "Unauthenticated"@,
            QbtErrorView::Transport(message) => message,
            QbtErrorView::Malformed => "Malformed response"@,
        }
    }
}

impl QbtError {
    /// Whether the caller should try again later, at the same revision.
    pub fn is_retryable(&self) -> (b: bool)
        ensures
            b == self@.retryable(),
    {
        match self {
            QbtError::Unauthenticated => false,
            _ => true,
        }
    }

    /// The text of the error.
    pub fn to_string(&self) -> (s: String)
        ensures
            s@ == self@.message(),
    {
        match self {
            QbtError::Unauthenticated => "Unauthenticated".to_owned(),
            QbtError::Transport(message) => message.clone(),
            QbtError::Malformed => "Malformed response".to_owned(),
        }
    }
}

/// How the status code of an answer counts.
pub open spec fn status_verdict(status: u16) -> Option<QbtErrorView> {
    if 200 <= status < 300 {
        None
    } else if status == 401 || status == 403 {
        Some(QbtErrorView::Unauthenticated)
    } else {
        Some(QbtErrorView::Transport("unexpected status"@))
    }
}

/// Judges an answer by its status code. A success is no error; a refusal
/// of the credential (401, 403) is the fatal one; anything else is a
/// failure of the transport, to be tried again.
pub fn status_error(status: u16) -> (r: Option<QbtError>)
    ensures
        match r {
            None => status_verdict(status) is None,
            Some(e) => status_verdict(status) == Some(e@),
        },
{
    if 200 <= status && status < 300 {
        None
    } else if status == 401 || status == 403 {
        Some(QbtError::Unauthenticated)
    } else {
        Some(QbtError::Transport("unexpected status".to_owned()))
    }
}

/// A handle on one backend, known by the base URL of its web API.
#[derive(Clone, Debug)]
pub struct QbtClient {
    base_url: String,
}

impl View for QbtClient {
    type V = Seq<char>;

    /// The base URL.
    closed spec fn view(&self) -> Seq<char> {
        self.base_url@
    }
}

impl QbtClient {
    /// A client for the backend whose API is rooted at `base_url`.
    pub fn new(base_url: &str) -> (client: Self)
        ensures
            client@ == base_url@,
    {
        Self { base_url: base_url.to_owned() }
    }

    /// The base URL the client was made with.
    pub fn base_url(&self) -> (s: &str)
        ensures
            s@ == self@,
    {
        self.base_url.as_str()
    }

    /// The URL of the API path `path`.
    pub fn url(&self, path: &str) -> (s: String)
        ensures
            s@ == self@ + path@,
    {
        let mut s = self.base_url.clone();
        s.append(path);
        s
    }

    /// The URL that a login is posted to.
    pub fn auth_login_url(&self) -> (s: String)
        ensures
            s@ == self@ + AUTH_LOGIN_API@,
    {
        self.url(AUTH_LOGIN_API)
    }

    /// The URL that lists the torrents.
    pub fn torrents_info_url(&self) -> (s: String)
        ensures
            s@ == self@ + TORRENTS_API@ + INFO_API@,
    {
        let mut s = self.url(TORRENTS_API);
        s.append(INFO_API);
        s
    }

    /// The URL of a poll that names `rid` as the last revision seen. With
    /// `rid` zero the backend answers with a full frame.
    pub fn sync_maindata_url(&self, rid: u64) -> (s: String)
        ensures
            s@ == self@ + SYNC_API@ + MAINDATA_API@ + "?rid="@ + decimal(rid as nat),
    {
        let mut s = self.url(SYNC_API);
        s.append(MAINDATA_API);
        s.append("?rid=");
        let digits = decimal_string(rid);
        s.append(digits.as_str());
        s
    }
}

/// The kind of frame a response body holds.
#[derive(Clone, Copy, Debug, PartialEq, Eq, Structural)]
pub enum FrameKind {
    Full,
    Partial,
}

/// What a response body says under the key `full_update`.
#[derive(Clone, Copy, Debug, PartialEq, Eq, Structural)]
pub enum FullUpdateFlag {
    /// The body is no object, or the object has no such key.
    Absent,
    /// The key holds a boolean.
    Flag(bool),
    /// The key holds something that is no boolean.
    NotBoolean,
}

/// The key under which a response body says whether it is a full frame.
pub const FULL_UPDATE_KEY: &'static str = "full_update";

/// A JSON document as the JSON library holds it. The proofs see nothing of
/// its inside but what [`json_flags`] names.
#[verifier::external_type_specification]
#[verifier::external_body]
pub struct ExJsonValue(serde_json::Value);

/// What a JSON document holds, as far as flags go: the members of the JSON
/// object that `value` is, each by the boolean it is, or by `None` where it
/// is something else than a boolean. A value that is no object has no
/// members.
pub uninterp spec fn json_flags(value: serde_json::Value) -> Map<Seq<char>, Option<bool>>;

/// `serde_json::Value::get` with a string key, the member handed out as
/// `serde_json::Value::as_bool` reads it. The first gives the member called
/// `key` of a JSON object, and nothing where the value is no object or has
/// no such member; the second gives the boolean that a member is, and
/// nothing where it is none. The contract says that much, over
/// [`json_flags`]: the result is what the document holds under `key`.
#[verifier::external_body]
fn json_member_flag(data: &serde_json::Value, key: &str) -> (flag: Option<Option<bool>>)
    ensures
        flag == (if json_flags(*data).contains_key(key@) {
            Some(json_flags(*data)[key@])
        } else {
            None
        }),
{
    match data.get(key) {
        Some(member) => Some(member.as_bool()),
        None => None,
    }
}

/// What a document with the members `members` says under `key`.
pub open spec fn flag_of(members: Map<Seq<char>, Option<bool>>, key: Seq<char>) -> FullUpdateFlag {
    if !members.contains_key(key) {
        FullUpdateFlag::Absent
    } else {
        match members[key] {
            Some(full) => FullUpdateFlag::Flag(full),
            None => FullUpdateFlag::NotBoolean,
        }
    }
}

/// Which kind of frame a body holds, by its `full_update` member: a full
/// frame where the member is `true`, a partial frame where it is `false` or
/// absent. A member that is no boolean makes the body malformed.
pub open spec fn frame_kind_of(flag: FullUpdateFlag) -> Result<FrameKind, QbtErrorView> {
    match flag {
        FullUpdateFlag::Absent => Ok(FrameKind::Partial),
        FullUpdateFlag::Flag(full) => Ok(
            if full {
                FrameKind::Full
            } else {
                FrameKind::Partial
            },
        ),
        FullUpdateFlag::NotBoolean => Err(QbtErrorView::Malformed),
    }
}

/// Selects the decoding path from what the body says under `full_update`.
pub fn frame_kind(flag: FullUpdateFlag) -> (r: Result<FrameKind, QbtError>)
    ensures
        match r {
            Ok(kind) => frame_kind_of(flag) == Ok::<FrameKind, QbtErrorView>(kind),
            Err(e) => frame_kind_of(flag) == Err::<FrameKind, QbtErrorView>(e@),
        },
{
    match flag {
        FullUpdateFlag::Absent => Ok(FrameKind::Partial),
        FullUpdateFlag::Flag(true) => Ok(FrameKind::Full),
        FullUpdateFlag::Flag(false) => Ok(FrameKind::Partial),
        FullUpdateFlag::NotBoolean => Err(QbtError::Malformed),
    }
}

/// Reads what a decoded response body says under `full_update`: whether
/// the member is absent, which boolean it is, or that it is none.
/// [`frame_kind`] says what follows from each reading.
pub fn full_update_flag(data: &serde_json::Value) -> (flag: FullUpdateFlag)
    ensures
        flag == flag_of(json_flags(*data), FULL_UPDATE_KEY@),
{
    match json_member_flag(data, FULL_UPDATE_KEY) {
        None => FullUpdateFlag::Absent,
        Some(Some(full)) => FullUpdateFlag::Flag(full),
        Some(None) => FullUpdateFlag::NotBoolean,
    }
}

/// Which kind of frame the decoded response body `data` holds: a full
/// frame where its `full_update` member is `true`, a partial frame where
/// the member is `false` or absent. A member that is no boolean makes the
/// body malformed.
pub fn sync_maindata_kind(data: &serde_json::Value) -> (r: Result<FrameKind, QbtError>)
    ensures
        match r {
            Ok(kind) => frame_kind_of(flag_of(json_flags(*data), FULL_UPDATE_KEY@)) == Ok::<
                FrameKind,
                QbtErrorView,
            >(kind),
            Err(e) => frame_kind_of(flag_of(json_flags(*data), FULL_UPDATE_KEY@)) == Err::<
                FrameKind,
                QbtErrorView,
            >(e@),
        },
{
    frame_kind(full_update_flag(data))
}

/// The `Cookie` header value that presents the upstream session id `sid`.
pub fn sid_cookie(sid: &str) -> (s: String)
    ensures
        s@ == "SID="@ + sid@,
{
    let mut s = "SID=".to_owned();
    s.append(sid);
    s
}

} // verus!
