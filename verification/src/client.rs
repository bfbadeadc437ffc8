//! The controller client. It performs no I/O itself: it says which request
//! comes next and decides, from each reply, how an operation goes on. The
//! caller sends the requests, over one cookie-keeping HTTP session, and
//! hands the replies back.

use vstd::prelude::*;
use crate::error::{classify, ErrorCodeView, UnifiApiErrorCode};
use crate::wire::{
    login_request, port_request, ReplyView, Request, RequestView, UnifiApiResponse,
    UnifiApiReturnCode,
};

verus! {

/// The client: where the controller is, who logs in, the two profiles a
/// port can be put under, and whether a session has been opened.
#[derive(Debug)]
pub struct UnifiApi {
    base_url: String,
    login: String,
    password: String,
    port_enable_profile_id: String,
    port_disable_profile_id: String,
    session_established: bool,
}

/// The mathematical value of a [`UnifiApi`].
pub struct UnifiApiView {
    pub base_url: Seq<char>,
    pub login: Seq<char>,
    pub password: Seq<char>,
    pub port_enable_profile_id: Seq<char>,
    pub port_disable_profile_id: Seq<char>,
    pub session_established: bool,
}

impl View for UnifiApi {
    type V = UnifiApiView;

    closed spec fn view(&self) -> UnifiApiView {
        UnifiApiView {
            base_url: self.base_url@,
            login: self.login@,
            password: self.password@,
            port_enable_profile_id: self.port_enable_profile_id@,
            port_disable_profile_id: self.port_disable_profile_id@,
            session_established: self.session_established,
        }
    }
}

/// How an operation ended.
pub type Outcome = Result<(), UnifiApiErrorCode>;

/// The mathematical value of an [`Outcome`].
pub type OutcomeView = Result<(), ErrorCodeView>;

/// The value of an outcome.
pub open spec fn outcome_view(outcome: Outcome) -> OutcomeView {
    match outcome {
        Ok(()) => Ok(()),
        Err(code) => Err(code@),
    }
}

/// Where a port change stands. In every phase but the last, one request is
/// under way and its reply is awaited.
#[derive(Debug)]
pub enum Phase {
    /// No session was open: the login that opens the first one is under way.
    Connecting,
    /// The change itself is under way, for the first time.
    Changing,
    /// The controller asked for a login: it is under way.
    Reconnecting,
    /// The change is under way for the second and last time.
    Retrying,
    /// Nothing is under way any more.
    Finished(Outcome),
}

/// The mathematical value of a [`Phase`].
pub enum PhaseView {
    Connecting,
    Changing,
    Reconnecting,
    Retrying,
    Finished(OutcomeView),
}

impl View for Phase {
    type V = PhaseView;

    open spec fn view(&self) -> PhaseView {
        match self {
            Phase::Connecting => PhaseView::Connecting,
            Phase::Changing => PhaseView::Changing,
            Phase::Reconnecting => PhaseView::Reconnecting,
            Phase::Retrying => PhaseView::Retrying,
            Phase::Finished(outcome) => PhaseView::Finished(outcome_view(*outcome)),
        }
    }
}

/// One attempt to put a port of a device under a profile.
#[derive(Debug)]
pub struct PortChange {
    device_id: String,
    port_number: i32,
    profile_id: String,
    phase: Phase,
}

/// The mathematical value of a [`PortChange`].
pub struct PortChangeView {
    pub device_id: Seq<char>,
    pub port_number: int,
    pub profile_id: Seq<char>,
    pub phase: PhaseView,
}

impl View for PortChange {
    type V = PortChangeView;

    closed spec fn view(&self) -> PortChangeView {
        PortChangeView {
            device_id: self.device_id@,
            port_number: self.port_number as int,
            profile_id: self.profile_id@,
            phase: self.phase@,
        }
    }
}

/// What the caller has to do next.
#[derive(Debug)]
pub enum Step {
    /// Send this request and hand its reply to [`UnifiApi::on_reply`].
    Send(Request),
    /// Stop: the operation is over, with this outcome.
    Done(Outcome),
}

/// The mathematical value of a [`Step`].
pub enum StepView {
    Send(RequestView),
    Done(OutcomeView),
}

impl View for Step {
    type V = StepView;

    open spec fn view(&self) -> StepView {
        match self {
            Step::Send(request) => StepView::Send(request@),
            Step::Done(outcome) => StepView::Done(outcome_view(*outcome)),
        }
    }
}

/// A port change begins with a login where the client has no session yet,
/// and with the change itself where it has one.
pub open spec fn first_phase(api: UnifiApiView) -> PhaseView {
    if api.session_established {
        PhaseView::Changing
    } else {
        PhaseView::Connecting
    }
}

/// The port change that a client begins for the given device, port and
/// profile.
pub open spec fn port_change(
    api: UnifiApiView,
    device_id: Seq<char>,
    port_number: int,
    profile_id: Seq<char>,
) -> PortChangeView {
    PortChangeView { device_id, port_number, profile_id, phase: first_phase(api) }
}

/// The request with which a client logs in.
pub open spec fn login_request_of(api: UnifiApiView) -> RequestView {
    login_request(api.base_url, api.login, api.password)
}

/// The request with which a port change asks for its change. It is the
/// same in every phase.
pub open spec fn change_request_of(api: UnifiApiView, change: PortChangeView) -> RequestView {
    port_request(api.base_url, change.device_id, change.port_number, change.profile_id)
}

/// What is to be done in each phase.
pub open spec fn pending(api: UnifiApiView, change: PortChangeView) -> StepView {
    match change.phase {
        PhaseView::Connecting | PhaseView::Reconnecting => StepView::Send(login_request_of(api)),
        PhaseView::Changing | PhaseView::Retrying => StepView::Send(
            change_request_of(api, change),
        ),
        PhaseView::Finished(outcome) => StepView::Done(outcome),
    }
}

/// The text that an error reply reports: its message, or the empty text
/// where it carries none.
pub open spec fn reported_message(reply: ReplyView) -> Seq<char> {
    match reply.msg {
        Some(text) => text,
        None => Seq::empty(),
    }
}

/// What a reply to a login means: success, or a failure that carries the
/// controller's message as it came. A login never classifies the message.
pub open spec fn login_outcome(reply: ReplyView) -> OutcomeView {
    match reply.rc {
        UnifiApiReturnCode::Success => Ok(()),
        UnifiApiReturnCode::Error => Err(ErrorCodeView::Unknown(reported_message(reply))),
    }
}

/// What a reply to a change request means: success, or the classified
/// message of the controller. An error without a message is an
/// unclassified one with an empty text; it never asks for a login.
pub open spec fn change_outcome(reply: ReplyView) -> OutcomeView {
    match reply.rc {
        UnifiApiReturnCode::Success => Ok(()),
        UnifiApiReturnCode::Error => match reply.msg {
            Some(text) => Err(classify(text)),
            None => Err(ErrorCodeView::Unknown(Seq::empty())),
        },
    }
}

/// The phase that follows when `reply` answers the request of `phase`.
///
/// A failed login ends the operation. The first change request is followed
/// by one login if the controller asks for it, and that login by one more
/// change request, whose outcome is final whatever it is.
pub open spec fn phase_after(phase: PhaseView, reply: ReplyView) -> PhaseView {
    match phase {
        PhaseView::Connecting => match login_outcome(reply) {
            Ok(()) => PhaseView::Changing,
            Err(code) => PhaseView::Finished(Err(code)),
        },
        PhaseView::Changing => match change_outcome(reply) {
            Err(ErrorCodeView::LoginRequired) => PhaseView::Reconnecting,
            outcome => PhaseView::Finished(outcome),
        },
        PhaseView::Reconnecting => match login_outcome(reply) {
            Ok(()) => PhaseView::Retrying,
            Err(code) => PhaseView::Finished(Err(code)),
        },
        PhaseView::Retrying => PhaseView::Finished(change_outcome(reply)),
        PhaseView::Finished(outcome) => PhaseView::Finished(outcome),
    }
}

/// The port change after `reply` answered its request: only the phase
/// moves.
pub open spec fn change_after(change: PortChangeView, reply: ReplyView) -> PortChangeView {
    PortChangeView { phase: phase_after(change.phase, reply), ..change }
}

/// Whether a reply answers a login.
pub open spec fn answers_login(phase: PhaseView) -> bool {
    phase is Connecting || phase is Reconnecting
}

/// The client after `reply` answered the request of `phase`: a login that
/// succeeded has opened a session, nothing else changes.
pub open spec fn api_after(api: UnifiApiView, phase: PhaseView, reply: ReplyView) -> UnifiApiView {
    UnifiApiView {
        session_established: api.session_established
            || (answers_login(phase) && reply.rc is Success),
        ..api
    }
}

fn change_result(reply: UnifiApiResponse) -> (outcome: Outcome)
    ensures
        outcome_view(outcome) == change_outcome(reply@),
{
    match reply.meta.rc {
        UnifiApiReturnCode::Success => Ok(()),
        UnifiApiReturnCode::Error => match reply.meta.msg {
            Some(text) => Err(UnifiApiErrorCode::from(text)),
            None => Err(UnifiApiErrorCode::Unknown(String::new())),
        },
    }
}

fn copy_outcome(outcome: &Outcome) -> (copy: Outcome)
    ensures
        outcome_view(copy) == outcome_view(*outcome),
{
    match outcome {
        Ok(()) => Ok(()),
        Err(UnifiApiErrorCode::LoginRequired) => Err(UnifiApiErrorCode::LoginRequired),
        Err(UnifiApiErrorCode::Unknown(msg)) => Err(UnifiApiErrorCode::Unknown(msg.clone())),
    }
}

impl UnifiApi {
    /// A client for the controller at `base_url`, with no profile set and
    /// no session.
    pub fn new(base_url: &str, login: &str, password: &str) -> (api: UnifiApi)
        ensures
            api@ == (UnifiApiView {
                base_url: base_url@,
                login: login@,
                password: password@,
                port_enable_profile_id: Seq::empty(),
                port_disable_profile_id: Seq::empty(),
                session_established: false,
            }),
    {
        UnifiApi {
            base_url: base_url.to_owned(),
            login: login.to_owned(),
            password: password.to_owned(),
            port_enable_profile_id: String::new(),
            port_disable_profile_id: String::new(),
            session_established: false,
        }
    }

    /// Sets the profile that `enable_port` puts a port under.
    pub fn set_port_enable_profile_id(&mut self, port_enable_profile_id: String)
        ensures
            final(self)@ == (UnifiApiView {
                port_enable_profile_id: port_enable_profile_id@,
                ..old(self)@
            }),
    {
        self.port_enable_profile_id = port_enable_profile_id
    }

    /// Sets the profile that `disable_port` puts a port under.
    pub fn set_port_disable_profile_id(&mut self, port_disable_profile_id: String)
        ensures
            final(self)@ == (UnifiApiView {
                port_disable_profile_id: port_disable_profile_id@,
                ..old(self)@
            }),
    {
        self.port_disable_profile_id = port_disable_profile_id
    }

    /// Whether a login of this client has succeeded.
    pub fn has_session(&self) -> (established: bool)
        ensures
            established == self@.session_established,
    {
        self.session_established
    }

    /// The request that logs this client in. Its reply goes to
    /// [`UnifiApi::login_reply`].
    pub fn login(&self) -> (request: Request)
        ensures
            request@ == login_request_of(self@),
    {
        Request::login(self.base_url.as_str(), self.login.as_str(), self.password.as_str())
    }

    /// Takes the reply to a login: on success the client has a session, on
    /// failure the controller's message is handed on unchanged, as an empty
    /// text where the reply carries none.
    pub fn login_reply(&mut self, reply: UnifiApiResponse) -> (outcome: Outcome)
        ensures
            outcome_view(outcome) == login_outcome(reply@),
            final(self)@ == (UnifiApiView {
                session_established: old(self)@.session_established || outcome is Ok,
                ..old(self)@
            }),
    {
        match reply.meta.rc {
            UnifiApiReturnCode::Success => {
                self.session_established = true;
                Ok(())
            },
            UnifiApiReturnCode::Error => Err(
                UnifiApiErrorCode::Unknown(
                    match reply.meta.msg {
                        Some(text) => text,
                        None => String::new(),
                    },
                ),
            ),
        }
    }

    /// Begins a change of one port to the profile `profile_id`. Nothing has
    /// been sent yet: [`UnifiApi::step`] says what to send.
    pub fn change_port_settings(
        &self,
        device_id: &str,
        port_number: i32,
        profile_id: &str,
    ) -> (change: PortChange)
        ensures
            change@ == port_change(self@, device_id@, port_number as int, profile_id@),
    {
        PortChange {
            device_id: device_id.to_owned(),
            port_number,
            profile_id: profile_id.to_owned(),
            phase: if self.session_established {
                Phase::Changing
            } else {
                Phase::Connecting
            },
        }
    }

    /// Begins a change of one port to the profile for disabled ports.
    pub fn disable_port(&self, device_id: &str, port_number: i32) -> (change: PortChange)
        ensures
            change@ == port_change(
                self@,
                device_id@,
                port_number as int,
                self@.port_disable_profile_id,
            ),
    {
        self.change_port_settings(device_id, port_number, self.port_disable_profile_id.as_str())
    }

    /// Begins a change of one port to the profile for enabled ports.
    pub fn enable_port(&self, device_id: &str, port_number: i32) -> (change: PortChange)
        ensures
            change@ == port_change(
                self@,
                device_id@,
                port_number as int,
                self@.port_enable_profile_id,
            ),
    {
        self.change_port_settings(device_id, port_number, self.port_enable_profile_id.as_str())
    }

    /// What the caller has to do next for `change`: send a request, or stop
    /// with the outcome.
    pub fn step(&self, change: &PortChange) -> (step: Step)
        ensures
            step@ == pending(self@, change@),
    {
        match &change.phase {
            Phase::Connecting | Phase::Reconnecting => Step::Send(self.login()),
            Phase::Changing | Phase::Retrying => Step::Send(
                Request::port_overrides(
                    self.base_url.as_str(),
                    change.device_id.as_str(),
                    change.port_number,
                    change.profile_id.as_str(),
                ),
            ),
            Phase::Finished(outcome) => Step::Done(copy_outcome(outcome)),
        }
    }

    /// Takes the reply to the request that [`UnifiApi::step`] gave for
    /// `change` and moves the change on. A change that is over stays as it
    /// is.
    pub fn on_reply(&mut self, change: PortChange, reply: UnifiApiResponse) -> (next: PortChange)
        ensures
            next@ == change_after(change@, reply@),
            final(self)@ == api_after(old(self)@, change@.phase, reply@),
    {
        let PortChange { device_id, port_number, profile_id, phase } = change;
        let phase = match phase {
            Phase::Connecting => match self.login_reply(reply) {
                Ok(()) => Phase::Changing,
                Err(code) => Phase::Finished(Err(code)),
            },
            Phase::Changing => match change_result(reply) {
                Err(UnifiApiErrorCode::LoginRequired) => Phase::Reconnecting,
                outcome => Phase::Finished(outcome),
            },
            Phase::Reconnecting => match self.login_reply(reply) {
                Ok(()) => Phase::Retrying,
                Err(code) => Phase::Finished(Err(code)),
            },
            Phase::Retrying => Phase::Finished(change_result(reply)),
            Phase::Finished(outcome) => Phase::Finished(outcome),
        };
        PortChange { device_id, port_number, profile_id, phase }
    }
}

} // verus!
