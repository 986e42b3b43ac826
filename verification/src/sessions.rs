//! Session records as the upstream search endpoints return them, and the
//! stable shape under which they are published.

use vstd::prelude::*;
use vstd::std_specs::convert::FromSpecImpl;
use vstd::string::StringExecFns;

use crate::error::RegisterError;

verus! {

/// A session as the upstream search endpoints describe it.
#[derive(Debug, Clone, PartialEq, Eq)]
pub struct SessionResponse {
    pub session_id: u64,
    pub name: String,
    pub description: String,
    pub start: String,
    pub end: String,
    /// Only one of the two upstream variants of the record carries it.
    pub session_status: Option<String>,
    /// Upstream may leave the field out altogether.
    pub locations: Option<Vec<String>>,
    pub attendance_status: String,
}

/// The mathematical content of a [`SessionResponse`].
pub struct SessionResponseView {
    pub session_id: u64,
    pub name: Seq<char>,
    pub description: Seq<char>,
    pub start: Seq<char>,
    pub end: Seq<char>,
    pub session_status: Option<Seq<char>>,
    pub locations: Option<Seq<Seq<char>>>,
    pub attendance_status: Seq<char>,
}

impl View for SessionResponse {
    type V = SessionResponseView;

    open spec fn view(&self) -> SessionResponseView {
        SessionResponseView {
            session_id: self.session_id,
            name: self.name@,
            description: self.description@,
            start: self.start@,
            end: self.end@,
            session_status: match self.session_status {
                Some(status) => Some(status@),
                None => None,
            },
            locations: match self.locations {
                Some(locations) => Some(locations.deep_view()),
                None => None,
            },
            attendance_status: self.attendance_status@,
        }
    }
}

/// A session in the shape published to callers: every field is present.
#[derive(Debug, Clone, PartialEq, Eq)]
pub struct Session {
    pub session_id: u64,
    pub name: String,
    pub description: String,
    pub start: String,
    pub end: String,
    pub locations: Vec<String>,
    pub session_status: Option<String>,
    pub attendance_status: String,
}

/// The mathematical content of a [`Session`].
pub struct SessionView {
    pub session_id: u64,
    pub name: Seq<char>,
    pub description: Seq<char>,
    pub start: Seq<char>,
    pub end: Seq<char>,
    pub locations: Seq<Seq<char>>,
    pub session_status: Option<Seq<char>>,
    pub attendance_status: Seq<char>,
}

impl View for Session {
    type V = SessionView;

    open spec fn view(&self) -> SessionView {
        SessionView {
            session_id: self.session_id,
            name: self.name@,
            description: self.description@,
            start: self.start@,
            end: self.end@,
            locations: self.locations.deep_view(),
            session_status: match self.session_status {
                Some(status) => Some(status@),
                None => None,
            },
            attendance_status: self.attendance_status@,
        }
    }
}

/// The published form of an upstream record: absent locations become the
/// empty sequence, everything else is handed through.
pub open spec fn published(record: SessionResponseView) -> SessionView {
    SessionView {
        session_id: record.session_id,
        name: record.name,
        description: record.description,
        start: record.start,
        end: record.end,
        locations: match record.locations {
            Some(locations) => locations,
            None => Seq::empty(),
        },
        session_status: record.session_status,
        attendance_status: record.attendance_status,
    }
}

/// A record without locations is published with an empty list of them.
pub proof fn lemma_missing_locations_are_empty(record: SessionResponseView)
    requires
        record.locations is None,
    ensures
        published(record).locations == Seq::<Seq<char>>::empty(),
{
}

/// The locations of a record are published as they are, in their order.
pub proof fn lemma_locations_are_kept(record: SessionResponseView)
    requires
        record.locations is Some,
    ensures
        published(record).locations == record.locations->0,
{
}

/// The conversion is described by the contract of `from` itself, over
/// views: ghost code cannot write down the empty `Vec` that stands in for
/// absent locations, so `from_spec` is left open and not relied on.
impl FromSpecImpl<SessionResponse> for Session {
    open spec fn obeys_from_spec() -> bool {
        false
    }

    open spec fn from_spec(session: SessionResponse) -> Session {
        arbitrary()
    }
}

impl From<SessionResponse> for Session {
    /// Publishes an upstream record.
    fn from(session: SessionResponse) -> (mapped: Session)
        ensures
            mapped@ == published(session@),
            session@.locations is None ==> mapped@.locations == Seq::<Seq<char>>::empty(),
            session@.locations matches Some(locations) ==> mapped@.locations == locations,
    {
        let locations = match session.locations {
            Some(locations) => locations,
            None => Vec::new(),
        };
        assert(session.locations is None ==> locations.deep_view() =~= Seq::empty());
        Session {
            session_id: session.session_id,
            name: session.name,
            description: session.description,
            start: session.start,
            end: session.end,
            locations,
            session_status: session.session_status,
            attendance_status: session.attendance_status,
        }
    }
}

/// The published forms of a list of upstream records, one for one and in
/// the order in which they came.
pub open spec fn published_all(records: Seq<SessionResponse>) -> Seq<SessionView> {
    Seq::new(records.len(), |i: int| published(records[i]@))
}

/// The views of a list of sessions.
pub open spec fn session_views(sessions: Seq<Session>) -> Seq<SessionView> {
    Seq::new(sessions.len(), |i: int| sessions[i]@)
}

/// Publishes every record of an upstream answer.
pub fn publish_all(records: Vec<SessionResponse>) -> (sessions: Vec<Session>)
    ensures
        session_views(sessions@) == published_all(records@),
{
    let mut sessions: Vec<Session> = Vec::new();
    for record in iter: records
        invariant
            sessions@.len() == iter.index(),
            forall|i: int| 0 <= i < sessions@.len() ==> sessions@[i]@ == published(iter.seq()[i]@),
    {
        sessions.push(Session::from(record));
    }
    assert(session_views(sessions@) =~= published_all(records@));
    sessions
}

/// The body of a registration, as upstream takes it.
#[derive(Debug, Clone, PartialEq, Eq)]
pub struct RegisterSessionRequest {
    pub session_id: u64,
    pub registration_code: String,
    pub force_incorrect_session_registration: bool,
}

/// The mathematical content of a [`RegisterSessionRequest`].
pub struct RegisterSessionRequestView {
    pub session_id: u64,
    pub registration_code: Seq<char>,
    pub force_incorrect_session_registration: bool,
}

impl View for RegisterSessionRequest {
    type V = RegisterSessionRequestView;

    open spec fn view(&self) -> RegisterSessionRequestView {
        RegisterSessionRequestView {
            session_id: self.session_id,
            registration_code: self.registration_code@,
            force_incorrect_session_registration: self.force_incorrect_session_registration,
        }
    }
}

impl RegisterSessionRequest {
    /// The registration of one session under a code. It never asks
    /// upstream to accept a code that does not match the session.
    pub fn new(session_id: u64, registration_code: String) -> (request: RegisterSessionRequest)
        ensures
            request.session_id == session_id,
            request.registration_code == registration_code,
            !request.force_incorrect_session_registration,
    {
        RegisterSessionRequest {
            session_id,
            registration_code,
            force_incorrect_session_registration: false,
        }
    }
}

/// Upstream's answer to a registration.
#[derive(Debug, Clone, PartialEq, Eq)]
pub struct RegisterSessionResponse {
    pub status: String,
    pub ok: bool,
}

/// The one status with which upstream reports an accepted registration.
pub open spec fn accepted_status() -> Seq<char> {
    seq!['2', '0', '0']
}

impl RegisterSessionResponse {
    /// Whether upstream accepted the registration: both the status and
    /// the flag must say so.
    pub open spec fn accepted(&self) -> bool {
        self.status@ == accepted_status() && self.ok
    }

    /// What the answer means for the caller: success where upstream
    /// accepted, invalid session details in every other case.
    pub open spec fn spec_outcome(&self) -> Result<(), RegisterError> {
        if self.accepted() {
            Ok(())
        } else {
            Err(RegisterError::InvalidSessionDetails)
        }
    }

    /// What the answer means for the caller: success where upstream
    /// accepted, invalid session details in every other case.
    pub fn outcome(&self) -> (outcome: Result<(), RegisterError>)
        ensures
            outcome == self.spec_outcome(),
            outcome is Ok <==> self.accepted(),
            outcome is Err <==> self.status@ != accepted_status() || !self.ok,
            outcome matches Err(error) ==> error == RegisterError::InvalidSessionDetails,
    {
        proof {
            reveal_strlit("200");
            assert("200"@ =~= accepted_status());
        }
        let accepted = String::from_str("200");
        if self.status == accepted && self.ok {
            Ok(())
        } else {
            Err(RegisterError::InvalidSessionDetails)
        }
    }
}

} // verus!
