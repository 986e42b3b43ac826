//! Requests to upstream, described as plain data for a transport to send.

use vstd::prelude::*;
use vstd::string::StringExecFns;

use crate::sessions::{RegisterSessionRequest, RegisterSessionRequestView};

verus! {

/// The origin under which every upstream endpoint lives.
pub const ORIGIN: &'static str = "https://api.myday.cloud/";

/// Where an identity token is exchanged for an access token.
pub const TOKEN_URL: &'static str = "https://api.myday.cloud/sessions/token";

/// Where a session is described; the session's identifier follows.
pub const SESSION_URL: &'static str = "https://api.myday.cloud/sessions/session/";

/// Where sessions are searched by date.
pub const SESSIONS_URL: &'static str =
    "https://api.myday.cloud/legacy/api/endpoint/CISConnectLite/sessions";

/// Where sessions are searched by registration code.
pub const SEARCH_URL: &'static str =
    "https://api.myday.cloud/legacy/api/endpoint/CISConnectLite/search";

/// Where a session is registered.
pub const REGISTER_URL: &'static str =
    "https://api.myday.cloud/legacy/api/endpoint/CISConnectLite/register";

/// The public identifier under which the gateway exchanges tokens.
pub const CLIENT_ID: &'static str = "myday-mobile-af53151c-8124-4f7b-9979-7169fcf64bf1";

/// The one grant type of the token exchange.
pub const GRANT_TYPE: &'static str = "get_token";

/// The HTTP method of a request.
#[derive(Debug, Clone, Copy, PartialEq, Eq, Structural)]
pub enum Method {
    Get,
    Post,
}

/// The value of a query parameter or of a form field. A number is kept as
/// a number: the transport writes it out.
#[derive(Debug, Clone, PartialEq, Eq)]
pub enum Value {
    Text(String),
    Number(u64),
}

/// The mathematical content of a [`Value`].
pub enum ValueView {
    Text(Seq<char>),
    Number(u64),
}

impl View for Value {
    type V = ValueView;

    open spec fn view(&self) -> ValueView {
        match self {
            Value::Text(text) => ValueView::Text(text@),
            Value::Number(number) => ValueView::Number(*number),
        }
    }
}

/// A named value: a query parameter or a form field.
#[derive(Debug, Clone, PartialEq, Eq)]
pub struct Field {
    pub name: String,
    pub value: Value,
}

impl View for Field {
    type V = (Seq<char>, ValueView);

    open spec fn view(&self) -> (Seq<char>, ValueView) {
        (self.name@, self.value@)
    }
}

impl Field {
    /// A field that holds a text.
    pub fn text(name: &str, value: &str) -> (field: Field)
        ensures
            field@ == (name@, ValueView::Text(value@)),
    {
        Field { name: String::from_str(name), value: Value::Text(String::from_str(value)) }
    }

    /// A field that holds a number.
    pub fn number(name: &str, value: u64) -> (field: Field)
        ensures
            field@ == (name@, ValueView::Number(value)),
    {
        Field { name: String::from_str(name), value: Value::Number(value) }
    }
}

/// The views of a list of fields.
pub open spec fn field_views(fields: Seq<Field>) -> Seq<(Seq<char>, ValueView)> {
    Seq::new(fields.len(), |i: int| fields[i]@)
}

/// What a request carries in its body.
#[derive(Debug, Clone, PartialEq, Eq)]
pub enum Body {
    /// Nothing.
    Empty,
    /// Fields, to be sent form-encoded.
    Form(Vec<Field>),
    /// A registration, to be sent as JSON.
    Json(RegisterSessionRequest),
}

/// The mathematical content of a [`Body`].
pub enum BodyView {
    Empty,
    Form(Seq<(Seq<char>, ValueView)>),
    Json(RegisterSessionRequestView),
}

impl View for Body {
    type V = BodyView;

    open spec fn view(&self) -> BodyView {
        match self {
            Body::Empty => BodyView::Empty,
            Body::Form(fields) => BodyView::Form(field_views(fields@)),
            Body::Json(registration) => BodyView::Json(registration@),
        }
    }
}

/// One request to upstream.
#[derive(Debug, Clone, PartialEq, Eq)]
pub struct Request {
    pub method: Method,
    pub url: String,
    /// The query parameters, in the order in which they are written.
    pub query: Vec<Field>,
    /// The value of the `Authorization` header, where the request has one.
    pub authorization: Option<String>,
    pub body: Body,
}

/// The mathematical content of a [`Request`].
pub struct RequestView {
    pub method: Method,
    pub url: Seq<char>,
    pub query: Seq<(Seq<char>, ValueView)>,
    pub authorization: Option<Seq<char>>,
    pub body: BodyView,
}

impl View for Request {
    type V = RequestView;

    open spec fn view(&self) -> RequestView {
        RequestView {
            method: self.method,
            url: self.url@,
            query: field_views(self.query@),
            authorization: match self.authorization {
                Some(value) => Some(value@),
                None => None,
            },
            body: self.body@,
        }
    }
}

/// Whether a URL lies under upstream's origin.
pub open spec fn is_upstream(url: Seq<char>) -> bool {
    ORIGIN@.is_prefix_of(url)
}

/// The `Authorization` header that presents an access token.
pub open spec fn bearer(access_token: Seq<char>) -> Seq<char> {
    "Bearer "@ + access_token
}

/// The exchange of an identity token and a device code for an access
/// token.
pub open spec fn token_request(id_token: Seq<char>, device_code: Seq<char>) -> RequestView {
    RequestView {
        method: Method::Post,
        url: TOKEN_URL@,
        query: Seq::empty(),
        authorization: None,
        body: BodyView::Form(
            seq![
                ("grant_type"@, ValueView::Text(GRANT_TYPE@)),
                ("client_id"@, ValueView::Text(CLIENT_ID@)),
                ("id_token"@, ValueView::Text(id_token)),
                ("code"@, ValueView::Text(device_code)),
            ],
        ),
    }
}

/// The question what upstream knows of one session.
pub open spec fn session_request(sid: Seq<char>, access_token: Seq<char>) -> RequestView {
    RequestView {
        method: Method::Get,
        url: SESSION_URL@ + sid,
        query: Seq::empty(),
        authorization: Some(bearer(access_token)),
        body: BodyView::Empty,
    }
}

/// The search for the sessions between two times. The times go out as
/// they came in.
pub open spec fn sessions_from_date_request(
    start_time: Seq<char>,
    end_time: Seq<char>,
    access_token: Seq<char>,
) -> RequestView {
    RequestView {
        method: Method::Get,
        url: SESSIONS_URL@,
        query: seq![
            ("endDateTime"@, ValueView::Text(end_time)),
            ("startDateTime"@, ValueView::Text(start_time)),
        ],
        authorization: Some(bearer(access_token)),
        body: BodyView::Empty,
    }
}

/// The search for the sessions under a registration code.
pub open spec fn sessions_from_code_request(
    registration_code: u64,
    access_token: Seq<char>,
) -> RequestView {
    RequestView {
        method: Method::Get,
        url: SEARCH_URL@,
        query: seq![("RegistrationCode"@, ValueView::Number(registration_code))],
        authorization: Some(bearer(access_token)),
        body: BodyView::Empty,
    }
}

/// The registration of a session under a code.
pub open spec fn register_request(
    session_id: u64,
    registration_code: Seq<char>,
    access_token: Seq<char>,
) -> RequestView {
    RequestView {
        method: Method::Post,
        url: REGISTER_URL@,
        query: Seq::empty(),
        authorization: Some(bearer(access_token)),
        body: BodyView::Json(
            RegisterSessionRequestView {
                session_id,
                registration_code,
                force_incorrect_session_registration: false,
            },
        ),
    }
}

/// The `Authorization` header that presents an access token.
pub fn bearer_header(access_token: &str) -> (header: String)
    ensures
        header@ == bearer(access_token@),
{
    String::from_str("Bearer ").concat(access_token)
}

impl Request {
    /// The exchange of an identity token and a device code for an access
    /// token.
    pub fn token(id_token: &str, device_code: &str) -> (request: Request)
        ensures
            request@ == token_request(id_token@, device_code@),
    {
        let mut form: Vec<Field> = Vec::new();
        form.push(Field::text("grant_type", GRANT_TYPE));
        form.push(Field::text("client_id", CLIENT_ID));
        form.push(Field::text("id_token", id_token));
        form.push(Field::text("code", device_code));
        let request = Request {
            method: Method::Post,
            url: String::from_str(TOKEN_URL),
            query: Vec::new(),
            authorization: None,
            body: Body::Form(form),
        };
        assert(request@.query =~= token_request(id_token@, device_code@).query);
        assert(field_views(form@) =~= token_request(id_token@, device_code@).body->Form_0);
        request
    }

    /// The question what upstream knows of one session.
    pub fn session(sid: &str, access_token: &str) -> (request: Request)
        ensures
            request@ == session_request(sid@, access_token@),
    {
        let request = Request {
            method: Method::Get,
            url: String::from_str(SESSION_URL).concat(sid),
            query: Vec::new(),
            authorization: Some(bearer_header(access_token)),
            body: Body::Empty,
        };
        assert(request@.query =~= session_request(sid@, access_token@).query);
        request
    }

    /// The search for the sessions between two times.
    pub fn sessions_from_date(start_time: &str, end_time: &str, access_token: &str) -> (request:
        Request)
        ensures
            request@ == sessions_from_date_request(start_time@, end_time@, access_token@),
    {
        let mut query: Vec<Field> = Vec::new();
        query.push(Field::text("endDateTime", end_time));
        query.push(Field::text("startDateTime", start_time));
        let request = Request {
            method: Method::Get,
            url: String::from_str(SESSIONS_URL),
            query,
            authorization: Some(bearer_header(access_token)),
            body: Body::Empty,
        };
        assert(request@.query =~= sessions_from_date_request(
            start_time@,
            end_time@,
            access_token@,
        ).query);
        request
    }

    /// The search for the sessions under a registration code.
    pub fn sessions_from_code(registration_code: u64, access_token: &str) -> (request: Request)
        ensures
            request@ == sessions_from_code_request(registration_code, access_token@),
    {
        let mut query: Vec<Field> = Vec::new();
        query.push(Field::number("RegistrationCode", registration_code));
        let request = Request {
            method: Method::Get,
            url: String::from_str(SEARCH_URL),
            query,
            authorization: Some(bearer_header(access_token)),
            body: Body::Empty,
        };
        assert(request@.query =~= sessions_from_code_request(
            registration_code,
            access_token@,
        ).query);
        request
    }

    /// The registration of a session under a code.
    pub fn register(session_id: u64, registration_code: String, access_token: &str) -> (request:
        Request)
        ensures
            request@ == register_request(session_id, registration_code@, access_token@),
    {
        let request = Request {
            method: Method::Post,
            url: String::from_str(REGISTER_URL),
            query: Vec::new(),
            authorization: Some(bearer_header(access_token)),
            body: Body::Json(RegisterSessionRequest::new(session_id, registration_code)),
        };
        assert(request@.query =~= register_request(
            session_id,
            registration_code@,
            access_token@,
        ).query);
        request
    }
}

/// Every endpoint lies under upstream's origin, whatever session the
/// session endpoint is asked about.
pub proof fn lemma_endpoints_are_upstream(sid: Seq<char>)
    ensures
        is_upstream(TOKEN_URL@),
        is_upstream(SESSION_URL@ + sid),
        is_upstream(SESSIONS_URL@),
        is_upstream(SEARCH_URL@),
        is_upstream(REGISTER_URL@),
{
    reveal_strlit("https://api.myday.cloud/");
    reveal_strlit("https://api.myday.cloud/sessions/token");
    reveal_strlit("https://api.myday.cloud/sessions/session/");
    reveal_strlit("https://api.myday.cloud/legacy/api/endpoint/CISConnectLite/sessions");
    reveal_strlit("https://api.myday.cloud/legacy/api/endpoint/CISConnectLite/search");
    reveal_strlit("https://api.myday.cloud/legacy/api/endpoint/CISConnectLite/register");
    let n = ORIGIN@.len() as int;
    assert(TOKEN_URL@.subrange(0, n) =~= ORIGIN@);
    assert((SESSION_URL@ + sid).subrange(0, n) =~= ORIGIN@);
    assert(SESSIONS_URL@.subrange(0, n) =~= ORIGIN@);
    assert(SEARCH_URL@.subrange(0, n) =~= ORIGIN@);
    assert(REGISTER_URL@.subrange(0, n) =~= ORIGIN@);
}

} // verus!
