//! The caller's side of a capture: starting a session, refusing a second one
//! while the first is pending, and turning the outcome into a result.

use crate::config::{
    get_listen_address, listen_address, CaptureConfig, CaptureConfigView, Platform,
};
use crate::session::{CaptureSession, Phase, SessionView};
use crate::signal::{CompletionSignal, Outcome, OutcomeView, SignalState};
use vstd::prelude::*;
use vstd::string::*;

verus! {

/// What [`SessionError::AlreadyActive`] says.
pub const ALREADY_ACTIVE_MESSAGE: &'static str = "an OAuth capture session is already active";

/// Why a capture did not succeed.
#[derive(Clone, Debug, PartialEq, Eq)]
pub enum SessionError {
    /// A session is pending; a second one is refused rather than left to
    /// race for the port.
    AlreadyActive,
    /// The listener could not be started; the text is the failure report.
    StartFailed(String),
}

/// A [`SessionError`] as a plain value.
pub enum SessionErrorView {
    AlreadyActive,
    StartFailed(Seq<char>),
}

impl View for SessionError {
    type V = SessionErrorView;

    open spec fn view(&self) -> SessionErrorView {
        match self {
            SessionError::AlreadyActive => SessionErrorView::AlreadyActive,
            SessionError::StartFailed(report) => SessionErrorView::StartFailed(report@),
        }
    }
}

/// The text of an error.
pub open spec fn error_message(error: SessionErrorView) -> Seq<char> {
    match error {
        SessionErrorView::AlreadyActive => ALREADY_ACTIVE_MESSAGE@,
        SessionErrorView::StartFailed(report) => report,
    }
}

impl SessionError {
    /// The error as text, for a caller that reports failures as strings.
    pub fn message(&self) -> (text: String)
        ensures
            text@ == error_message(self@),
    {
        match self {
            SessionError::AlreadyActive => String::from_str(ALREADY_ACTIVE_MESSAGE),
            SessionError::StartFailed(report) => report.clone(),
        }
    }
}

/// What starting a capture asks of the caller.
#[derive(Debug)]
pub enum Launch {
    /// There is nothing to run on this platform: the operation is complete,
    /// and the redirect data arrive by deep link.
    Immediate,
    /// Run a listener: bind `address`, feed `session` with what happens, and
    /// wait on `signal` for the outcome.
    Listen { session: CaptureSession, signal: CompletionSignal, address: String },
}

/// A lifecycle controller as a plain value.
pub struct ControllerView {
    pub platform: Platform,
    pub config: CaptureConfigView,
    pub active: bool,
}

/// Starts capture sessions, one at a time.
#[derive(Debug)]
pub struct LifecycleController {
    platform: Platform,
    config: CaptureConfig,
    active: bool,
}

impl View for LifecycleController {
    type V = ControllerView;

    closed spec fn view(&self) -> ControllerView {
        ControllerView { platform: self.platform, config: self.config@, active: self.active }
    }
}

/// The result that a caller gets for what it took from the completion
/// signal: the failure report as an error if a failure was delivered, and
/// success otherwise, whatever was captured.
pub open spec fn conclusion(taken: Option<OutcomeView>) -> Result<(), SessionErrorView> {
    match taken {
        Some(OutcomeView::Failed(report)) => Err(SessionErrorView::StartFailed(report)),
        _ => Ok(()),
    }
}

/// The outcome as a plain value, if there is one.
pub open spec fn outcome_view(taken: Option<Outcome>) -> Option<OutcomeView> {
    match taken {
        Some(outcome) => Some(outcome@),
        None => None,
    }
}

/// A result as a plain value.
pub open spec fn result_view(result: Result<(), SessionError>) -> Result<(), SessionErrorView> {
    match result {
        Ok(()) => Ok(()),
        Err(error) => Err(error@),
    }
}

/// The session that a controller hands out: on the configured port, about
/// to bind.
pub open spec fn fresh_session(controller: ControllerView) -> SessionView {
    SessionView { port: controller.config.port, phase: Phase::Binding }
}

/// The controller after a session was started on it.
pub open spec fn started(controller: ControllerView) -> ControllerView {
    ControllerView { active: true, ..controller }
}

/// The controller after its session was concluded.
pub open spec fn concluded(controller: ControllerView) -> ControllerView {
    ControllerView { active: false, ..controller }
}

impl LifecycleController {
    /// A controller with no session pending.
    pub fn new(platform: Platform, config: CaptureConfig) -> (controller: Self)
        ensures
            controller@ == (ControllerView { platform, config: config@, active: false }),
    {
        LifecycleController { platform, config, active: false }
    }

    /// The platform that the controller was made for.
    pub fn platform(&self) -> (platform: Platform)
        ensures
            platform == self@.platform,
    {
        self.platform
    }

    /// The configuration that the controller was made with.
    pub fn config(&self) -> (config: &CaptureConfig)
        ensures
            config@ == self@.config,
    {
        &self.config
    }

    /// Whether a session is pending.
    pub fn is_active(&self) -> (active: bool)
        ensures
            active == self@.active,
    {
        self.active
    }

    /// Ends the pending session with what the caller took from the completion
    /// signal, `None` if the listener left without delivering anything. The
    /// controller is free for the next session afterwards.
    pub fn conclude(&mut self, taken: Option<Outcome>) -> (result: Result<(), SessionError>)
        ensures
            final(self)@ == concluded(old(self)@),
            result_view(result) == conclusion(outcome_view(taken)),
    {
        self.active = false;
        match taken {
            Some(Outcome::Failed(report)) => Err(SessionError::StartFailed(report)),
            _ => Ok(()),
        }
    }
}

/// Starts one capture.
///
/// On a mobile platform there is nothing to start and the controller is left
/// as it is. On a desktop platform a pending session makes this fail with
/// [`SessionError::AlreadyActive`]; otherwise the controller becomes active
/// and hands out a fresh session for the configured port, a fresh completion
/// signal, and the address to bind.
pub fn start_oauth_server(
    controller: &mut LifecycleController,
) -> (launch: Result<Launch, SessionError>)
    ensures
        launch is Err <==> old(controller)@.platform is Desktop && old(controller)@.active,
        launch matches Ok(Launch::Immediate) <==> old(controller)@.platform is Mobile,
        (match launch {
            Ok(Launch::Immediate) => {
                &&& old(controller)@.platform is Mobile
                &&& final(controller)@ == old(controller)@
            },
            Ok(Launch::Listen { session, signal, address }) => {
                &&& old(controller)@.platform is Desktop
                &&& !old(controller)@.active
                &&& final(controller)@ == started(old(controller)@)
                &&& session@ == fresh_session(old(controller)@)
                &&& signal@ == SignalState::Open
                &&& address@ == listen_address(old(controller)@.config.port)
            },
            Err(error) => {
                &&& old(controller)@.platform is Desktop
                &&& old(controller)@.active
                &&& error@ == SessionErrorView::AlreadyActive
                &&& final(controller)@ == old(controller)@
            },
        }),
{
    match controller.platform {
        Platform::Mobile => Ok(Launch::Immediate),
        Platform::Desktop => {
            if controller.active {
                Err(SessionError::AlreadyActive)
            } else {
                controller.active = true;
                let port = controller.config.port;
                Ok(
                    Launch::Listen {
                        session: CaptureSession::new(port),
                        signal: CompletionSignal::new(),
                        address: get_listen_address(port),
                    },
                )
            }
        },
    }
}

/// Two captures in a row do not touch each other: once the first is
/// concluded, whatever its outcome, the controller is what it was before the
/// first was started, so the second is given the same fresh session and the
/// same address as the first.
pub proof fn lemma_sequential_sessions_are_independent(controller: ControllerView)
    requires
        !controller.active,
    ensures
        concluded(started(controller)) == controller,
        fresh_session(concluded(started(controller))) == fresh_session(controller),
        listen_address(concluded(started(controller)).config.port) == listen_address(
            controller.config.port,
        ),
{
}

} // verus!
