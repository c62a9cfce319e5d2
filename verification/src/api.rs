use vstd::prelude::*;
use vstd::string::*;

use crate::text::{
    concat, str_eq, contains, contains_seq, owned, split_seq, split_str, starts_with, strip_prefixes, trim,
    trim_end_by, trim_end_set, trim_start_matches, trim_str, before_char, before_char_str,
    SplitSet, TrimSet,
};
use crate::types::{
    field_bool, field_str, field_view, json_str, user_from_raw, view_str, FieldView, JsonField,
    RawUser, TrackerUser,
};
use serde_json::Value;

verus! {

/// The API used when neither the environment nor the build names one.
pub const DEFAULT_API_BASE: &'static str = "https://leapsofts-erp-backend-f9122a2e0426.herokuapp.com/api/v1";

/// A failed API call: the server refused it (`Message`) or it never got an
/// answer (`Network`). Both carry the text shown to the user.
#[derive(Debug)]
pub enum ApiError {
    Message(String),
    Network(String),
}

/// The text of an error.
pub open spec fn error_text(e: ApiError) -> Seq<char> {
    match e {
        ApiError::Message(m) => m@,
        ApiError::Network(m) => m@,
    }
}

impl ApiError {
    /// Whether the call failed for want of a network.
    pub fn is_network(&self) -> (r: bool)
        ensures
            r == (self is Network),
    {
        match self {
            ApiError::Network(_) => true,
            ApiError::Message(_) => false,
        }
    }

    /// The text shown for the error.
    pub fn message(&self) -> (r: String)
        ensures
            r@ == error_text(*self),
    {
        match self {
            ApiError::Message(m) => m.clone(),
            ApiError::Network(m) => m.clone(),
        }
    }
}

/// How a password sign-in went on.
#[derive(Debug)]
pub enum PasswordLogin {
    /// Signed in.
    Session(TrackerUser),
    /// A two-factor code is needed; carries the temporary token to send with it.
    NeedsCode(String),
    /// The account must set up two-factor sign-in first.
    NeedsSetup,
}

/// The value of a `refreshToken=` attribute of a cookie piece, if it has a non-empty one.
pub open spec fn refresh_value(piece: Seq<char>) -> Option<Seq<char>> {
    let t = trim(piece);
    if "refreshToken="@.is_prefix_of(t) && t.len() > 13 {
        Some(t.skip(13))
    } else {
        None
    }
}

/// The first refresh token among the pieces.
pub open spec fn first_refresh(ps: Seq<Seq<char>>) -> Option<Seq<char>>
    decreases ps.len(),
{
    if ps.len() == 0 {
        None
    } else {
        match refresh_value(ps[0]) {
            Some(v) => Some(v),
            None => first_refresh(ps.drop_first()),
        }
    }
}

/// The refresh token a `Set-Cookie` header carries.
pub open spec fn cookie_refresh_token(header: Seq<char>) -> Option<Seq<char>> {
    first_refresh(split_seq(header, SplitSet::Semicolon))
}

proof fn lemma_first_refresh_skip(ps: Seq<Seq<char>>, k: int)
    requires
        0 <= k <= ps.len(),
        forall|j: int| 0 <= j < k ==> refresh_value(#[trigger] ps[j]) is None,
    ensures
        first_refresh(ps) == first_refresh(ps.skip(k)),
    decreases k,
{
    if k == 0 {
        assert(ps.skip(0) =~= ps);
    } else {
        assert(refresh_value(ps[0]) is None);
        let q = ps.drop_first();
        assert forall|j: int| 0 <= j < k - 1 implies refresh_value(#[trigger] q[j]) is None by {
            assert(q[j] == ps[j + 1]);
        }
        lemma_first_refresh_skip(q, k - 1);
        assert(q.skip(k - 1) =~= ps.skip(k));
    }
}

fn refresh_value_exec(piece: &str) -> (r: Option<String>)
    ensures
        match r {
            Some(v) => refresh_value(piece@) == Some(v@),
            None => refresh_value(piece@) is None,
        },
{
    let t = trim_str(piece);
    proof {
        reveal_strlit("refreshToken=");
    }
    if starts_with(t.as_str(), "refreshToken=") {
        let n = t.unicode_len();
        if n > 13 {
            let v = owned(t.as_str().substring_char(13, n));
            assert(v@ =~= t@.skip(13));
            return Some(v);
        }
    }
    None
}

/// The refresh token of a `Set-Cookie` header: the value of its first
/// non-empty `refreshToken=` attribute.
pub fn parse_refresh_cookie(set_cookie: &str) -> (r: Option<String>)
    ensures
        match r {
            Some(v) => cookie_refresh_token(set_cookie@) == Some(v@),
            None => cookie_refresh_token(set_cookie@) is None,
        },
{
    let parts = split_str(set_cookie, SplitSet::Semicolon);
    let ghost ps = parts@.map_values(|p: String| p@);
    let mut k: usize = 0;
    while k < parts.len()
        invariant
            ps == parts@.map_values(|p: String| p@),
            ps == split_seq(set_cookie@, SplitSet::Semicolon),
            k <= parts.len(),
            forall|j: int| 0 <= j < k ==> refresh_value(#[trigger] ps[j]) is None,
        decreases parts.len() - k,
    {
        let found = refresh_value_exec(parts[k].as_str());
        assert(ps[k as int] == parts@[k as int]@);
        match found {
            Some(v) => {
                proof {
                    lemma_first_refresh_skip(ps, k as int);
                    assert(ps.skip(k as int)[0] == ps[k as int]);
                }
                return Some(v);
            },
            None => {},
        }
        k += 1;
    }
    proof {
        lemma_first_refresh_skip(ps, k as int);
        assert(ps.skip(k as int).len() == 0);
    }
    None
}

/// The API base: the first of the run-time `VITE_API_URL`, the run-time
/// `API_BASE`, the build-time `VITE_API_URL`, the build-time `API_BASE` and
/// the default that is given, without trailing `/`.
pub open spec fn api_base_of(
    run_vite: Option<Seq<char>>,
    run_api: Option<Seq<char>>,
    build_vite: Option<Seq<char>>,
    build_api: Option<Seq<char>>,
) -> Seq<char> {
    let chosen = match run_vite {
        Some(v) => v,
        None => match run_api {
            Some(v) => v,
            None => match build_vite {
                Some(v) => v,
                None => match build_api {
                    Some(v) => v,
                    None => DEFAULT_API_BASE@,
                },
            },
        },
    };
    trim_end_by(chosen, TrimSet::Slash)
}

fn view_opt(o: &Option<String>) -> (r: Option<&str>)
    ensures
        match *o {
            Some(s) => r is Some && r->0@ == s@,
            None => r is None,
        },
{
    match o {
        Some(s) => Some(s.as_str()),
        None => None,
    }
}

/// Chooses the API base from the environment and build settings.
pub fn api_base_from(
    run_vite: Option<String>,
    run_api: Option<String>,
    build_vite: Option<&str>,
    build_api: Option<&str>,
) -> (r: String)
    ensures
        r@ == api_base_of(
            match run_vite {
                Some(s) => Some(s@),
                None => None,
            },
            match run_api {
                Some(s) => Some(s@),
                None => None,
            },
            match build_vite {
                Some(s) => Some(s@),
                None => None,
            },
            match build_api {
                Some(s) => Some(s@),
                None => None,
            },
        ),
{
    let chosen: &str = match view_opt(&run_vite) {
        Some(v) => v,
        None => match view_opt(&run_api) {
            Some(v) => v,
            None => match build_vite {
                Some(v) => v,
                None => match build_api {
                    Some(v) => v,
                    None => DEFAULT_API_BASE,
                },
            },
        },
    };
    trim_end_set(chosen, TrimSet::Slash)
}

/// The host and port that the reachability probe dials for an API base:
/// the host is the text after the scheme and before the first `/` and `:`;
/// the port is 80 for `http://` bases and 443 for all others.
pub open spec fn probe_host(base: Seq<char>) -> Seq<char> {
    before_char(
        before_char(strip_prefixes(strip_prefixes(base, "https://"@), "http://"@), '/'),
        ':',
    )
}

/// The port the reachability probe dials.
pub open spec fn probe_port(base: Seq<char>) -> u16 {
    if "http://"@.is_prefix_of(base) {
        80
    } else {
        443
    }
}

/// The host and port that `is_online` dials for the API base.
pub fn probe_target(base: &str) -> (r: (String, u16))
    ensures
        r.0@ == probe_host(base@),
        r.1 == probe_port(base@),
{
    let a = trim_start_matches(base, "https://");
    let b = trim_start_matches(a.as_str(), "http://");
    let c = before_char_str(b.as_str(), '/');
    let host = before_char_str(c.as_str(), ':');
    let port = if starts_with(base, "http://") {
        80
    } else {
        443
    };
    (host, port)
}

/// Whether a response calls for refreshing the access token and retrying:
/// a 401 on a retryable call that is not the sign-in itself.
pub fn should_refresh(status: u16, retry: bool, path: &str) -> (r: bool)
    ensures
        r == (status == 401 && retry && !contains_seq(path@, "/auth/login"@)),
{
    status == 401 && retry && !contains(path, "/auth/login")
}

/// Whether a refused upload is tried again after refreshing the token: only
/// a first attempt answered with 401.
pub fn upload_should_retry(status: u16, attempt: u32) -> (r: bool)
    ensures
        r == (status == 401 && attempt == 0),
{
    status == 401 && attempt == 0
}

/// The message of a refused request: `/error/message` when that member is
/// present, else the top-level `message`; the fallback when the chosen member
/// is not a string.
pub open spec fn refusal_message(nested: JsonField, top: JsonField, fallback: Seq<char>) -> Seq<char> {
    let chosen = if nested is Missing {
        top
    } else {
        nested
    };
    match field_str(chosen) {
        Some(s) => s,
        None => fallback,
    }
}

/// The message of a refused request.
pub fn error_message(nested: &JsonField, top: &JsonField, fallback: &str) -> (r: String)
    ensures
        r@ == refusal_message(*nested, *top, fallback@),
{
    let chosen = match nested {
        JsonField::Missing => top,
        _ => nested,
    };
    match json_str(chosen) {
        Some(s) => s,
        None => owned(fallback),
    }
}

/// What `serde_json` finds in a body: `None` when `serde_json::from_str`
/// does not read the body as JSON, else the value that
/// `serde_json::Value::pointer` gives for the JSON pointer (`Missing` where
/// there is none).
pub uninterp spec fn body_member(body: Seq<char>, pointer: Seq<char>) -> Option<FieldView>;

/// Parses `body` with `serde_json::from_str` into a `serde_json::Value` and
/// looks up the JSON pointer with `serde_json::Value::pointer`; the member is
/// converted variant by variant (a number is `UInt` when
/// `serde_json::Number::as_u64` gives one). The contract claims only that the
/// result is `body_member` of the two texts: parsing is a function of the text.
#[verifier::external_body]
fn json_member(body: &str, pointer: &str) -> (r: Option<JsonField>)
    ensures
        match r {
            Some(f) => body_member(body@, pointer@) == Some(field_view(f)),
            None => body_member(body@, pointer@) is None,
        },
{
    let v: Value = serde_json::from_str(body).ok()?;
    Some(match v.pointer(pointer) {
        None => JsonField::Missing,
        Some(Value::Null) => JsonField::Null,
        Some(Value::Bool(b)) => JsonField::Bool(*b),
        Some(Value::String(s)) => JsonField::Str(s.clone()),
        Some(Value::Number(n)) => match n.as_u64() {
            Some(u) => JsonField::UInt(u),
            None => JsonField::Other,
        },
        Some(_) => JsonField::Other,
    })
}

/// A member that is absent, also when the body is no JSON at all.
pub open spec fn or_missing(v: Option<FieldView>) -> FieldView {
    match v {
        Some(f) => f,
        None => FieldView::Missing,
    }
}

/// The message of a refusal: the nested `error.message` when present, else
/// the top `message`, when it holds a string; else the fallback.
pub open spec fn refusal_of(nested: FieldView, top: FieldView, fallback: Seq<char>) -> Seq<char> {
    let chosen = if nested is Missing {
        top
    } else {
        nested
    };
    match view_str(chosen) {
        Some(s) => s,
        None => fallback,
    }
}

/// Where the value of an accepted answer lies.
#[derive(Debug, Clone, Copy, PartialEq, Eq, Structural)]
pub enum AnswerValue {
    /// The body's `data` member.
    DataMember,
    /// The whole body, which has no `data` member.
    WholeBody,
    /// The body is no JSON: the value is an object whose `message` is the text.
    TextMessage,
}

/// How a JSON call's answer reads. A body that is no JSON stands for an
/// object whose `message` is the raw text. A refused call fails with the
/// refusal message (`fallback` when the body names none); an accepted one
/// gives its `data` member, or the whole body when it has none.
pub open spec fn answer_spec(status_ok: bool, body: Seq<char>, fallback: Seq<char>) -> Result<
    AnswerValue,
    Seq<char>,
> {
    match body_member(body, ""@) {
        None => if status_ok {
            Ok(AnswerValue::TextMessage)
        } else {
            Err(body)
        },
        Some(_) => if status_ok {
            if body_member(body, "/data"@) == Some(FieldView::Missing) {
                Ok(AnswerValue::WholeBody)
            } else {
                Ok(AnswerValue::DataMember)
            }
        } else {
            Err(
                refusal_of(
                    or_missing(body_member(body, "/error/message"@)),
                    or_missing(body_member(body, "/message"@)),
                    fallback,
                ),
            )
        },
    }
}

proof fn lemma_refusal_views(nested: JsonField, top: JsonField, fallback: Seq<char>)
    ensures
        refusal_message(nested, top, fallback) == refusal_of(
            field_view(nested),
            field_view(top),
            fallback,
        ),
{
}

/// A member read from a body, `Missing` when the body is no JSON.
fn member_or_missing(body: &str, pointer: &str) -> (r: JsonField)
    ensures
        field_view(r) == or_missing(body_member(body@, pointer@)),
{
    match json_member(body, pointer) {
        Some(f) => f,
        None => JsonField::Missing,
    }
}

/// Reads the answer of a JSON call with the status's verdict `status_ok`
/// and the body text; `fallback` is the message of a refusal that names none.
pub fn answer_of(status_ok: bool, body: &str, fallback: &str) -> (r: Result<AnswerValue, ApiError>)
    ensures
        match answer_spec(status_ok, body@, fallback@) {
            Ok(v) => r == Ok::<AnswerValue, ApiError>(v),
            Err(m) => r is Err && r->Err_0 is Message && error_text(r->Err_0) == m,
        },
{
    match json_member(body, "") {
        None => {
            if status_ok {
                Ok(AnswerValue::TextMessage)
            } else {
                Err(ApiError::Message(owned(body)))
            }
        },
        Some(_) => {
            if status_ok {
                match json_member(body, "/data") {
                    Some(JsonField::Missing) => Ok(AnswerValue::WholeBody),
                    _ => Ok(AnswerValue::DataMember),
                }
            } else {
                let nested = member_or_missing(body, "/error/message");
                let top = member_or_missing(body, "/message");
                proof {
                    lemma_refusal_views(nested, top, fallback@);
                }
                Err(ApiError::Message(error_message(&nested, &top, fallback)))
            }
        },
    }
}

/// The member at the JSON pointer `path` of the value an accepted answer
/// gives (see `AnswerValue`): below `/data` for `DataMember`, in the whole
/// body for `WholeBody`; for `TextMessage` the value only has a `message`,
/// the raw text.
pub open spec fn answer_field(body: Seq<char>, kind: AnswerValue, path: Seq<char>) -> FieldView {
    match kind {
        AnswerValue::DataMember => or_missing(body_member(body, "/data"@ + path)),
        AnswerValue::WholeBody => or_missing(body_member(body, path)),
        AnswerValue::TextMessage => if path == "/message"@ {
            FieldView::Str(body)
        } else {
            FieldView::Missing
        },
    }
}

/// Reads the member at the JSON pointer `path` of an accepted answer's value.
pub fn answer_member(body: &str, kind: AnswerValue, path: &str) -> (r: JsonField)
    ensures
        field_view(r) == answer_field(body@, kind, path@),
{
    match kind {
        AnswerValue::DataMember => {
            let p = concat("/data", path);
            member_or_missing(body, p.as_str())
        },
        AnswerValue::WholeBody => member_or_missing(body, path),
        AnswerValue::TextMessage => {
            if str_eq(path, "/message") {
                JsonField::Str(owned(body))
            } else {
                JsonField::Missing
            }
        },
    }
}

/// Whether `u` holds the members of the user object found at the JSON
/// pointer `at` of an accepted answer's value.
pub open spec fn raw_user_is(u: RawUser, body: Seq<char>, kind: AnswerValue, at: Seq<char>) -> bool {
    &&& field_view(u.underscore_id) == answer_field(body, kind, at + "/_id"@)
    &&& field_view(u.id) == answer_field(body, kind, at + "/id"@)
    &&& field_view(u.email) == answer_field(body, kind, at + "/email"@)
    &&& field_view(u.first_name) == answer_field(body, kind, at + "/firstName"@)
    &&& field_view(u.last_name) == answer_field(body, kind, at + "/lastName"@)
    &&& field_view(u.idle_timeout_minutes) == answer_field(body, kind, at + "/idleTimeoutMinutes"@)
    &&& field_view(u.monitor_screenshots) == answer_field(body, kind, at + "/monitorScreenshots"@)
    &&& field_view(u.monitor_app_usage) == answer_field(body, kind, at + "/monitorAppUsage"@)
}

fn member_below(body: &str, kind: AnswerValue, at: &str, name: &str) -> (r: JsonField)
    ensures
        field_view(r) == answer_field(body@, kind, at@ + name@),
{
    let p = concat(at, name);
    answer_member(body, kind, p.as_str())
}

/// Reads the user object at the JSON pointer `at` (`""` for the value
/// itself) of an accepted answer's value.
pub fn raw_user_at(body: &str, kind: AnswerValue, at: &str) -> (u: RawUser)
    ensures
        raw_user_is(u, body@, kind, at@),
{
    RawUser {
        underscore_id: member_below(body, kind, at, "/_id"),
        id: member_below(body, kind, at, "/id"),
        email: member_below(body, kind, at, "/email"),
        first_name: member_below(body, kind, at, "/firstName"),
        last_name: member_below(body, kind, at, "/lastName"),
        idle_timeout_minutes: member_below(body, kind, at, "/idleTimeoutMinutes"),
        monitor_screenshots: member_below(body, kind, at, "/monitorScreenshots"),
        monitor_app_usage: member_below(body, kind, at, "/monitorAppUsage"),
    }
}

/// Reads the members of a password sign-in answer: `requires2FA`,
/// `tempToken`, `requires2FASetup`, `accessToken` and the `user` object.
pub fn login_answer_of(body: &str, kind: AnswerValue) -> (a: LoginAnswer)
    ensures
        field_view(a.requires_2fa) == answer_field(body@, kind, "/requires2FA"@),
        field_view(a.temp_token) == answer_field(body@, kind, "/tempToken"@),
        field_view(a.requires_2fa_setup) == answer_field(body@, kind, "/requires2FASetup"@),
        field_view(a.access_token) == answer_field(body@, kind, "/accessToken"@),
        raw_user_is(a.user, body@, kind, "/user"@),
{
    LoginAnswer {
        requires_2fa: answer_member(body, kind, "/requires2FA"),
        temp_token: answer_member(body, kind, "/tempToken"),
        requires_2fa_setup: answer_member(body, kind, "/requires2FASetup"),
        access_token: answer_member(body, kind, "/accessToken"),
        user: raw_user_at(body, kind, "/user"),
    }
}

/// The access token of a refresh answer: only an accepted answer whose
/// `data.accessToken` is a string gives one.
pub fn refreshed_token(status_ok: bool, body: &str) -> (r: Option<String>)
    ensures
        !status_ok ==> r is None,
        status_ok ==> match body_member(body@, "/data/accessToken"@) {
            Some(FieldView::Str(t)) => r is Some && r->0@ == t,
            _ => r is None,
        },
{
    if !status_ok {
        return None;
    }
    match json_member(body, "/data/accessToken") {
        Some(JsonField::Str(t)) => Some(t),
        _ => None,
    }
}

/// The message of a refused upload: read from the body as `answer_of` reads
/// it, except that a body that is no JSON names no message.
pub open spec fn upload_refusal_spec(body: Seq<char>, fallback: Seq<char>) -> Seq<char> {
    refusal_of(
        or_missing(body_member(body, "/error/message"@)),
        or_missing(body_member(body, "/message"@)),
        fallback,
    )
}

/// The error of a refused upload with this body.
pub fn upload_refusal(body: &str, fallback: &str) -> (e: ApiError)
    ensures
        e is Message,
        error_text(e) == upload_refusal_spec(body@, fallback@),
{
    let nested = member_or_missing(body, "/error/message");
    let top = member_or_missing(body, "/message");
    proof {
        lemma_refusal_views(nested, top, fallback@);
    }
    ApiError::Message(error_message(&nested, &top, fallback))
}

/// A token member that holds a non-empty string.
pub open spec fn nonempty_str(f: JsonField) -> Option<Seq<char>> {
    match field_str(f) {
        Some(s) => if s.len() > 0 {
            Some(s)
        } else {
            None
        },
        None => None,
    }
}

fn nonempty_str_exec(f: &JsonField) -> (r: Option<String>)
    ensures
        match r {
            Some(s) => nonempty_str(*f) == Some(s@),
            None => nonempty_str(*f) is None,
        },
{
    match json_str(f) {
        Some(s) => if s.unicode_len() > 0 {
            Some(s)
        } else {
            None
        },
        None => None,
    }
}

/// A signed-in session: the access token to store and the user.
pub struct SessionGrant {
    pub access_token: String,
    pub user: TrackerUser,
}

/// The session a sign-in answer grants: it must carry a non-empty
/// `accessToken`; the user is read from its `user` member.
pub fn session_user(access_token: &JsonField, user: RawUser) -> (r: Result<SessionGrant, ApiError>)
    ensures
        match nonempty_str(*access_token) {
            Some(t) => r is Ok && r->Ok_0.access_token@ == t && user_from_raw(user, r->Ok_0.user),
            None => r is Err && r->Err_0 is Message && error_text(r->Err_0)
                == "Sign-in did not return a session"@,
        },
{
    match nonempty_str_exec(access_token) {
        Some(t) => Ok(SessionGrant { access_token: t, user: TrackerUser::from_raw(user) }),
        None => Err(ApiError::Message(owned("Sign-in did not return a session"))),
    }
}

/// The members of a password sign-in answer that decide how it goes on.
pub struct LoginAnswer {
    pub requires_2fa: JsonField,
    pub temp_token: JsonField,
    pub requires_2fa_setup: JsonField,
    pub access_token: JsonField,
    pub user: RawUser,
}

/// The next step of a password sign-in, with the session it grants when it
/// signs in. A two-factor challenge must carry a non-empty temporary token.
pub fn login_step(answer: LoginAnswer) -> (r: Result<(PasswordLogin, Option<String>), ApiError>)
    ensures
        field_bool(answer.requires_2fa) == Some(true) ==> match nonempty_str(answer.temp_token) {
            Some(t) => r is Ok && r->Ok_0.0 is NeedsCode && r->Ok_0.0->NeedsCode_0@ == t
                && r->Ok_0.1 is None,
            None => r is Err && r->Err_0 is Message && error_text(r->Err_0)
                == "Two-factor challenge is missing a token"@,
        },
        field_bool(answer.requires_2fa) != Some(true) && field_bool(answer.requires_2fa_setup)
            == Some(true) ==> r is Ok && r->Ok_0.0 is NeedsSetup && r->Ok_0.1 is None,
        field_bool(answer.requires_2fa) != Some(true) && field_bool(answer.requires_2fa_setup)
            != Some(true) ==> match nonempty_str(answer.access_token) {
            Some(t) => r is Ok && r->Ok_0.0 is Session && user_from_raw(
                answer.user,
                r->Ok_0.0->Session_0,
            ) && r->Ok_0.1 is Some && r->Ok_0.1->0@ == t,
            None => r is Err && r->Err_0 is Message && error_text(r->Err_0)
                == "Sign-in did not return a session"@,
        },
{
    let needs_code = match &answer.requires_2fa {
        JsonField::Bool(b) => *b,
        _ => false,
    };
    if needs_code {
        return match nonempty_str_exec(&answer.temp_token) {
            Some(t) => Ok((PasswordLogin::NeedsCode(t), None)),
            None => Err(ApiError::Message(owned("Two-factor challenge is missing a token"))),
        };
    }
    let needs_setup = match &answer.requires_2fa_setup {
        JsonField::Bool(b) => *b,
        _ => false,
    };
    if needs_setup {
        return Ok((PasswordLogin::NeedsSetup, None));
    }
    match session_user(&answer.access_token, answer.user) {
        Ok(g) => Ok((PasswordLogin::Session(g.user), Some(g.access_token))),
        Err(e) => Err(e),
    }
}

/// A failed fetch of today's shift that only means there is no shift: its
/// text mentions status 404 or 400.
pub fn no_shift_on_error(e: &ApiError) -> (r: bool)
    ensures
        r == (contains_seq(error_text(*e), "404"@) || contains_seq(error_text(*e), "400"@)),
{
    let m = e.message();
    contains(m.as_str(), "404") || contains(m.as_str(), "400")
}

/// A refresh token read from a cookie is never empty.
pub proof fn law_refresh_token_nonempty(header: Seq<char>)
    ensures
        cookie_refresh_token(header) matches Some(v) ==> v.len() > 0,
{
    lemma_first_refresh_nonempty(split_seq(header, SplitSet::Semicolon));
}

proof fn lemma_first_refresh_nonempty(ps: Seq<Seq<char>>)
    ensures
        first_refresh(ps) matches Some(v) ==> v.len() > 0,
    decreases ps.len(),
{
    if ps.len() > 0 {
        lemma_first_refresh_nonempty(ps.drop_first());
    }
}

} // verus!
