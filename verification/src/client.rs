//! The gateway's client: the credential, and the operations that it
//! authorises.

use vstd::prelude::*;

use crate::error::{GatewayError, RegisterError};
use crate::exchange::{
    Exchange, ExchangeView, Operation, OperationView, OutcomeView, Reply, Shape, Step, StepView,
};
use crate::request::{
    bearer, is_upstream, lemma_endpoints_are_upstream, token_request, Request, RequestView,
};
use crate::session::{separators, session_id_of, unverified_claims, TokenClaims};
use crate::sessions::RegisterSessionResponse;

verus! {

/// The holder of the credential: a long-lived identity token and the
/// device code that goes with it. Neither changes once the client is made.
pub struct Client {
    token: String,
    device_code: String,
}

/// A text or a failure, seen as mathematics.
pub open spec fn text_result(result: Result<String, GatewayError>) -> Result<
    Seq<char>,
    GatewayError,
> {
    match result {
        Ok(text) => Ok(text@),
        Err(error) => Err(error),
    }
}

/// A request or a failure, seen as mathematics.
pub open spec fn request_result(result: Result<Request, GatewayError>) -> Result<
    RequestView,
    GatewayError,
> {
    match result {
        Ok(request) => Ok(request@),
        Err(error) => Err(error),
    }
}

impl Client {
    /// The identity token.
    pub closed spec fn spec_token(&self) -> Seq<char> {
        self.token@
    }

    /// The device code.
    pub closed spec fn spec_device_code(&self) -> Seq<char> {
        self.device_code@
    }

    /// The identifier of the session that the identity token stands for,
    /// or the reason why the token names none.
    pub open spec fn spec_session_token(&self) -> Result<Seq<char>, GatewayError> {
        session_id_of(unverified_claims(self.spec_token()))
    }

    /// A client for a credential.
    pub fn new(token: String, device_code: String) -> (client: Client)
        ensures
            client.spec_token() == token@,
            client.spec_device_code() == device_code@,
    {
        Client { token, device_code }
    }

    /// The identifier of the session that the identity token stands for.
    /// The token's signature is not verified.
    pub fn session_token(&self) -> (sid: Result<String, GatewayError>)
        ensures
            text_result(sid) == self.spec_session_token(),
            separators(self.spec_token()) != 2 ==> sid == Err::<String, GatewayError>(
                GatewayError::MalformedCredential,
            ),
    {
        match TokenClaims::parse(self.token.as_str()) {
            Ok(claims) => Ok(claims.sid),
            Err(error) => Err(error),
        }
    }

    /// The request that exchanges the credential for an access token.
    pub fn get_access_token(&self) -> (request: Request)
        ensures
            request@ == token_request(self.spec_token(), self.spec_device_code()),
    {
        Request::token(self.token.as_str(), self.device_code.as_str())
    }

    /// The operation's own request, authorised by an access token.
    pub fn authorise(&self, operation: &Operation, access_token: &str) -> (request: Result<
        Request,
        GatewayError,
    >)
        ensures
            request_result(request) == operation@.request(
                self.spec_session_token(),
                access_token@,
            ),
    {
        match operation {
            Operation::Expiry => match self.session_token() {
                Ok(sid) => Ok(Request::session(sid.as_str(), access_token)),
                Err(error) => Err(error),
            },
            Operation::SessionsFromDate { start_time, end_time } => Ok(
                Request::sessions_from_date(start_time.as_str(), end_time.as_str(), access_token),
            ),
            Operation::SessionsFromCode { registration_code } => Ok(
                Request::sessions_from_code(*registration_code, access_token),
            ),
            Operation::Register { session_id, registration_code } => Ok(
                Request::register(*session_id, registration_code.clone(), access_token),
            ),
        }
    }

    /// What follows on a reply, at either stage of an operation.
    ///
    /// While the access token is awaited, the reply that holds one leads
    /// to the operation's own request, and any other to a failure. Once
    /// that request is out, its reply ends the operation.
    pub open spec fn next(&self, exchange: ExchangeView, reply: Reply) -> StepView {
        match exchange {
            ExchangeView::AwaitingToken(operation) => match reply {
                Reply::Unavailable => StepView::Done(
                    operation.failed(GatewayError::UpstreamUnavailable),
                ),
                Reply::Token(token) => match operation.request(
                    self.spec_session_token(),
                    token.access_token@,
                ) {
                    Ok(request) => StepView::Send(ExchangeView::AwaitingAnswer(operation), request),
                    Err(error) => StepView::Done(operation.failed(error)),
                },
                _ => StepView::Done(operation.failed(GatewayError::UpstreamProtocolError)),
            },
            ExchangeView::AwaitingAnswer(operation) => StepView::Done(operation.concluded(reply)),
        }
    }

    /// Begins an operation: every operation opens with a token exchange
    /// of its own.
    pub fn start(&self, operation: Operation) -> (begun: (Exchange, Request))
        ensures
            begun.0@ == ExchangeView::AwaitingToken(operation@),
            begun.1@ == token_request(self.spec_token(), self.spec_device_code()),
    {
        (Exchange::AwaitingToken(operation), self.get_access_token())
    }

    /// Takes an operation one step further with upstream's reply to the
    /// request that was sent last.
    pub fn resume(&self, exchange: Exchange, reply: Reply) -> (step: Step)
        ensures
            step@ == self.next(exchange@, reply),
    {
        match exchange {
            Exchange::AwaitingToken(operation) => match reply {
                Reply::Unavailable => Step::Done(
                    operation.failed(GatewayError::UpstreamUnavailable),
                ),
                Reply::Token(token) => match self.authorise(
                    &operation,
                    token.access_token.as_str(),
                ) {
                    Ok(request) => Step::Send(Exchange::AwaitingAnswer(operation), request),
                    Err(error) => Step::Done(operation.failed(error)),
                },
                _ => Step::Done(operation.failed(GatewayError::UpstreamProtocolError)),
            },
            Exchange::AwaitingAnswer(operation) => Step::Done(operation.concluded(reply)),
        }
    }

    /// Begins the question when the current session expires.
    pub fn get_expiry(&self) -> (begun: (Exchange, Request))
        ensures
            begun.0@ == ExchangeView::AwaitingToken(OperationView::Expiry),
            begun.1@ == token_request(self.spec_token(), self.spec_device_code()),
    {
        self.start(Operation::Expiry)
    }

    /// Begins the search for the sessions between two times.
    pub fn get_sessions_from_date(&self, start_time: &str, end_time: &str) -> (begun: (
        Exchange,
        Request,
    ))
        ensures
            begun.0@ == ExchangeView::AwaitingToken(
                OperationView::SessionsFromDate { start_time: start_time@, end_time: end_time@ },
            ),
            begun.1@ == token_request(self.spec_token(), self.spec_device_code()),
    {
        self.start(
            Operation::SessionsFromDate {
                start_time: start_time.to_owned(),
                end_time: end_time.to_owned(),
            },
        )
    }

    /// Begins the search for the sessions under a registration code.
    pub fn get_sessions_from_code(&self, registration_code: u64) -> (begun: (Exchange, Request))
        ensures
            begun.0@ == ExchangeView::AwaitingToken(
                OperationView::SessionsFromCode { registration_code },
            ),
            begun.1@ == token_request(self.spec_token(), self.spec_device_code()),
    {
        self.start(Operation::SessionsFromCode { registration_code })
    }

    /// Begins the registration of a session under a code.
    pub fn register_session(&self, session_id: u64, registration_code: String) -> (begun: (
        Exchange,
        Request,
    ))
        ensures
            begun.0@ == ExchangeView::AwaitingToken(
                OperationView::Register { session_id, registration_code: registration_code@ },
            ),
            begun.1@ == token_request(self.spec_token(), self.spec_device_code()),
    {
        self.start(Operation::Register { session_id, registration_code })
    }
}

/// An operation opens with a request to upstream that carries no access
/// token.
pub proof fn lemma_token_exchange_goes_upstream(id_token: Seq<char>, device_code: Seq<char>)
    ensures
        is_upstream(token_request(id_token, device_code).url),
        token_request(id_token, device_code).authorization is None,
{
    lemma_endpoints_are_upstream(Seq::empty());
}

/// Whatever upstream replies, a request that follows goes to upstream
/// again, and presents the access token of the reply that led to it and
/// no other.
pub proof fn lemma_access_token_stays_upstream(client: Client, exchange: ExchangeView, reply: Reply)
    ensures
        client.next(exchange, reply) matches StepView::Send(_, request) ==> {
            &&& is_upstream(request.url)
            &&& reply matches Reply::Token(token)
            &&& request.authorization == Some(bearer(token.access_token@))
        },
{
    if let Ok(sid) = client.spec_session_token() {
        lemma_endpoints_are_upstream(sid);
    }
    lemma_endpoints_are_upstream(Seq::empty());
}

/// An operation takes two requests at most: the reply to its own request
/// ends it, and only the token exchange is followed by a request, which
/// is the same operation's own.
pub proof fn lemma_operation_ends(client: Client, exchange: ExchangeView, reply: Reply)
    ensures
        exchange is AwaitingAnswer ==> client.next(exchange, reply) is Done,
        client.next(exchange, reply) matches StepView::Send(then, _) ==> exchange is AwaitingToken
            && then == ExchangeView::AwaitingAnswer(exchange.operation()),
{
}

/// A reply that is not of the awaited shape ends the operation in a
/// failure: upstream was unavailable where nothing came back, and broke
/// the protocol otherwise.
pub proof fn lemma_unawaited_reply_fails(client: Client, exchange: ExchangeView, reply: Reply)
    requires
        reply.shape() != Some(exchange.awaits()),
    ensures
        client.next(exchange, reply) == StepView::Done(
            exchange.operation().failed(
                if reply is Unavailable {
                    GatewayError::UpstreamUnavailable
                } else {
                    GatewayError::UpstreamProtocolError
                },
            ),
        ),
{
}

/// An operation ends in an outcome of its own kind: a question after the
/// expiry in an expiry or a failure, a search in sessions or a failure, a
/// registration in a registration's result.
pub proof fn lemma_outcome_is_of_the_operation(
    client: Client,
    exchange: ExchangeView,
    reply: Reply,
)
    ensures
        client.next(exchange, reply) matches StepView::Done(outcome) ==> {
            match exchange.operation().answer() {
                Shape::Sessions => outcome is Sessions,
                Shape::Registration => outcome is Registration,
                _ => outcome is Expiry,
            }
        },
{
}

/// A registration succeeds only where upstream's answer holds both the
/// accepted status and the flag; any other answer to it means invalid
/// session details.
pub proof fn lemma_registration_needs_status_and_flag(
    client: Client,
    operation: OperationView,
    response: RegisterSessionResponse,
)
    requires
        operation is Register,
    ensures
        client.next(ExchangeView::AwaitingAnswer(operation), Reply::Registration(response))
            == StepView::Done(
            OutcomeView::Registration(
                if response.status@ == crate::sessions::accepted_status() && response.ok {
                    Ok(())
                } else {
                    Err(RegisterError::InvalidSessionDetails)
                },
            ),
        ),
{
}

/// A failure before upstream has answered a registration is never taken
/// for a refusal: it is reported as a failed request.
pub proof fn lemma_registration_fails_as_request_error(
    client: Client,
    operation: OperationView,
    reply: Reply,
)
    requires
        operation is Register,
        !(reply is Token),
    ensures
        client.next(ExchangeView::AwaitingToken(operation), reply) == StepView::Done(
            OutcomeView::Registration(Err(RegisterError::RequestError)),
        ),
        !(reply is Registration) ==> client.next(ExchangeView::AwaitingAnswer(operation), reply)
            == StepView::Done(OutcomeView::Registration(Err(RegisterError::RequestError))),
{
}

} // verus!
