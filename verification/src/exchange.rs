//! An operation of the gateway as a conversation with upstream: what to
//! send next, and what an answer leads to. Nothing here sends anything; a
//! transport performs each request and hands back upstream's reply.

use vstd::prelude::*;

use crate::error::{GatewayError, RegisterError};
use crate::request::{
    register_request, session_request, sessions_from_code_request, sessions_from_date_request,
    Request, RequestView,
};
use crate::session::{SessionResponse, TokenResponse};
use crate::sessions::{
    publish_all, published_all, session_views, RegisterSessionResponse, Session, SessionView,
};

verus! {

/// What a caller can ask of the gateway.
#[derive(Debug, Clone, PartialEq, Eq)]
pub enum Operation {
    /// When the current session expires.
    Expiry,
    /// The sessions between two times.
    SessionsFromDate { start_time: String, end_time: String },
    /// The sessions under a registration code.
    SessionsFromCode { registration_code: u64 },
    /// The registration of a session under a code.
    Register { session_id: u64, registration_code: String },
}

/// The mathematical content of an [`Operation`].
pub enum OperationView {
    Expiry,
    SessionsFromDate { start_time: Seq<char>, end_time: Seq<char> },
    SessionsFromCode { registration_code: u64 },
    Register { session_id: u64, registration_code: Seq<char> },
}

impl View for Operation {
    type V = OperationView;

    open spec fn view(&self) -> OperationView {
        match self {
            Operation::Expiry => OperationView::Expiry,
            Operation::SessionsFromDate { start_time, end_time } => OperationView::SessionsFromDate {
                start_time: start_time@,
                end_time: end_time@,
            },
            Operation::SessionsFromCode { registration_code } => OperationView::SessionsFromCode {
                registration_code: *registration_code,
            },
            Operation::Register { session_id, registration_code } => OperationView::Register {
                session_id: *session_id,
                registration_code: registration_code@,
            },
        }
    }
}

/// How far an operation has come.
#[derive(Debug, Clone, PartialEq, Eq)]
pub enum Exchange {
    /// The token exchange is out; the operation's own request is not.
    AwaitingToken(Operation),
    /// The operation's own request is out.
    AwaitingAnswer(Operation),
}

/// The mathematical content of an [`Exchange`].
pub enum ExchangeView {
    AwaitingToken(OperationView),
    AwaitingAnswer(OperationView),
}

impl View for Exchange {
    type V = ExchangeView;

    open spec fn view(&self) -> ExchangeView {
        match self {
            Exchange::AwaitingToken(operation) => ExchangeView::AwaitingToken(operation@),
            Exchange::AwaitingAnswer(operation) => ExchangeView::AwaitingAnswer(operation@),
        }
    }
}

impl ExchangeView {
    /// The operation that the exchange carries out.
    pub open spec fn operation(self) -> OperationView {
        match self {
            ExchangeView::AwaitingToken(operation) => operation,
            ExchangeView::AwaitingAnswer(operation) => operation,
        }
    }

    /// The shape of the answer that is awaited.
    pub open spec fn awaits(self) -> Shape {
        match self {
            ExchangeView::AwaitingToken(_) => Shape::Token,
            ExchangeView::AwaitingAnswer(operation) => operation.answer(),
        }
    }
}

impl Exchange {
    /// The shape of the answer that is awaited: the transport reads the
    /// reply's body as such.
    pub fn awaits(&self) -> (shape: Shape)
        ensures
            shape == self@.awaits(),
    {
        match self {
            Exchange::AwaitingToken(_) => Shape::Token,
            Exchange::AwaitingAnswer(operation) => operation.answer(),
        }
    }
}

/// The shape of an answer's body.
#[derive(Debug, Clone, Copy, PartialEq, Eq, Structural)]
pub enum Shape {
    /// A [`TokenResponse`].
    Token,
    /// A [`SessionResponse`].
    Session,
    /// A list of session records.
    Sessions,
    /// A [`RegisterSessionResponse`].
    Registration,
}

/// What came back for a request.
#[derive(Debug, Clone, PartialEq, Eq)]
pub enum Reply {
    /// Nothing: upstream could not be reached.
    Unavailable,
    /// An answer that is not of the awaited shape.
    Unreadable,
    Token(TokenResponse),
    Session(SessionResponse),
    Sessions(Vec<crate::sessions::SessionResponse>),
    Registration(RegisterSessionResponse),
}

/// What an operation came to.
#[derive(Debug, PartialEq, Eq)]
pub enum Outcome {
    Expiry(Result<String, GatewayError>),
    Sessions(Result<Vec<Session>, GatewayError>),
    Registration(Result<(), RegisterError>),
}

/// The mathematical content of an [`Outcome`].
pub enum OutcomeView {
    Expiry(Result<Seq<char>, GatewayError>),
    Sessions(Result<Seq<SessionView>, GatewayError>),
    Registration(Result<(), RegisterError>),
}

impl View for Outcome {
    type V = OutcomeView;

    open spec fn view(&self) -> OutcomeView {
        match self {
            Outcome::Expiry(Ok(expires)) => OutcomeView::Expiry(Ok(expires@)),
            Outcome::Expiry(Err(error)) => OutcomeView::Expiry(Err(*error)),
            Outcome::Sessions(Ok(sessions)) => OutcomeView::Sessions(Ok(session_views(sessions@))),
            Outcome::Sessions(Err(error)) => OutcomeView::Sessions(Err(*error)),
            Outcome::Registration(result) => OutcomeView::Registration(*result),
        }
    }
}

/// What to do next for an operation.
#[derive(Debug, PartialEq, Eq)]
pub enum Step {
    /// Send the request, and come back with upstream's reply.
    Send(Exchange, Request),
    /// Nothing: the operation is over.
    Done(Outcome),
}

/// The mathematical content of a [`Step`].
pub enum StepView {
    Send(ExchangeView, RequestView),
    Done(OutcomeView),
}

impl View for Step {
    type V = StepView;

    open spec fn view(&self) -> StepView {
        match self {
            Step::Send(exchange, request) => StepView::Send(exchange@, request@),
            Step::Done(outcome) => StepView::Done(outcome@),
        }
    }
}

impl OperationView {
    /// The shape in which upstream answers the operation's own request.
    pub open spec fn answer(self) -> Shape {
        match self {
            OperationView::Expiry => Shape::Session,
            OperationView::SessionsFromDate { .. } => Shape::Sessions,
            OperationView::SessionsFromCode { .. } => Shape::Sessions,
            OperationView::Register { .. } => Shape::Registration,
        }
    }

    /// The operation's end in a failure. A registration reports every
    /// such failure as a failed request: upstream has refused nothing.
    pub open spec fn failed(self, error: GatewayError) -> OutcomeView {
        match self.answer() {
            Shape::Sessions => OutcomeView::Sessions(Err(error)),
            Shape::Registration => OutcomeView::Registration(Err(RegisterError::RequestError)),
            _ => OutcomeView::Expiry(Err(error)),
        }
    }

    /// The operation's own request, given the access token that
    /// authorises it. Only the question after the session's expiry needs
    /// the session's identifier, and fails where there is none.
    pub open spec fn request(
        self,
        sid: Result<Seq<char>, GatewayError>,
        access_token: Seq<char>,
    ) -> Result<RequestView, GatewayError> {
        match self {
            OperationView::Expiry => match sid {
                Ok(sid) => Ok(session_request(sid, access_token)),
                Err(error) => Err(error),
            },
            OperationView::SessionsFromDate { start_time, end_time } => Ok(
                sessions_from_date_request(start_time, end_time, access_token),
            ),
            OperationView::SessionsFromCode { registration_code } => Ok(
                sessions_from_code_request(registration_code, access_token),
            ),
            OperationView::Register { session_id, registration_code } => Ok(
                register_request(session_id, registration_code, access_token),
            ),
        }
    }

    /// What the reply to the operation's own request leads to: a failure
    /// where nothing came back or what came back is not of the awaited
    /// shape, else what the answer says.
    pub open spec fn concluded(self, reply: Reply) -> OutcomeView {
        if reply is Unavailable {
            self.failed(GatewayError::UpstreamUnavailable)
        } else if reply.shape() != Some(self.answer()) {
            self.failed(GatewayError::UpstreamProtocolError)
        } else {
            match reply {
                Reply::Session(session) => OutcomeView::Expiry(Ok(session.expires@)),
                Reply::Sessions(records) => OutcomeView::Sessions(Ok(published_all(records@))),
                Reply::Registration(response) => OutcomeView::Registration(
                    response.spec_outcome(),
                ),
                _ => self.failed(GatewayError::UpstreamProtocolError),
            }
        }
    }
}

impl Reply {
    /// The shape of the answer, where there is a readable one.
    pub open spec fn shape(self) -> Option<Shape> {
        match self {
            Reply::Unavailable => None,
            Reply::Unreadable => None,
            Reply::Token(_) => Some(Shape::Token),
            Reply::Session(_) => Some(Shape::Session),
            Reply::Sessions(_) => Some(Shape::Sessions),
            Reply::Registration(_) => Some(Shape::Registration),
        }
    }
}

impl Operation {
    /// The shape in which upstream answers the operation's own request.
    pub fn answer(&self) -> (shape: Shape)
        ensures
            shape == self@.answer(),
    {
        match self {
            Operation::Expiry => Shape::Session,
            Operation::SessionsFromDate { .. } => Shape::Sessions,
            Operation::SessionsFromCode { .. } => Shape::Sessions,
            Operation::Register { .. } => Shape::Registration,
        }
    }

    /// The operation's end in a failure.
    pub fn failed(&self, error: GatewayError) -> (outcome: Outcome)
        ensures
            outcome@ == self@.failed(error),
    {
        match self.answer() {
            Shape::Sessions => Outcome::Sessions(Err(error)),
            Shape::Registration => Outcome::Registration(Err(RegisterError::RequestError)),
            _ => Outcome::Expiry(Err(error)),
        }
    }

    /// What the reply to the operation's own request leads to.
    pub fn concluded(&self, reply: Reply) -> (outcome: Outcome)
        ensures
            outcome@ == self@.concluded(reply),
    {
        let shape = self.answer();
        match reply {
            Reply::Unavailable => self.failed(GatewayError::UpstreamUnavailable),
            Reply::Session(session) => {
                if shape == Shape::Session {
                    Outcome::Expiry(Ok(session.expires))
                } else {
                    self.failed(GatewayError::UpstreamProtocolError)
                }
            },
            Reply::Sessions(records) => {
                if shape == Shape::Sessions {
                    Outcome::Sessions(Ok(publish_all(records)))
                } else {
                    self.failed(GatewayError::UpstreamProtocolError)
                }
            },
            Reply::Registration(response) => {
                if shape == Shape::Registration {
                    Outcome::Registration(response.outcome())
                } else {
                    self.failed(GatewayError::UpstreamProtocolError)
                }
            },
            _ => self.failed(GatewayError::UpstreamProtocolError),
        }
    }
}

} // verus!
