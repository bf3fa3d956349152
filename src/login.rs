//! The login of the instant messaging session by a scanned code: the
//! decisions between fetching a code, polling its status, exchanging the
//! confirmation for a session and finishing a device lock.
use vstd::prelude::*;

verus! {

/// Seconds to wait before each query of a code's status.
pub const POLL_INTERVAL_SECS: u64 = 3;

/// The status of a login code, as the network reports it.
#[derive(Debug, Clone)]
pub enum QrStatus {
    /// A new code: its image, and the signature to query it by.
    ImageFetch { image: Vec<u8>, sig: Vec<u8> },
    WaitingForScan,
    WaitingForConfirm,
    /// The code expired.
    Timeout,
    /// The code was approved; the confirmation is held by the caller.
    Confirmed,
    /// The login was canceled on the other side.
    Canceled,
}

/// What the outside work of the last action gave.
#[derive(Debug, Clone)]
pub enum LoginEvent {
    Status(QrStatus),
    /// The answer to the exchange of a confirmation: whether it asks for a
    /// device lock step.
    LoginResponse { device_lock: bool },
    /// The device lock step was done.
    DeviceLockDone,
}

#[derive(Debug, Clone, Copy, PartialEq, Eq, Structural)]
pub enum LoginError {
    Canceled,
}

/// The outside work to do next.
#[derive(Debug, Clone)]
pub enum LoginAction {
    /// Request a new code.
    FetchQrcode,
    /// Make the image obtainable, wait the poll interval, then query the
    /// status with the held signature.
    PublishAndPoll { image: Vec<u8> },
    /// Wait the poll interval, then query the status with the held signature.
    Poll,
    /// Exchange the confirmation for a session.
    Login,
    /// Complete the device lock step.
    DeviceLockLogin,
    /// Logged in.
    Done,
    Fail(LoginError),
}

#[derive(Debug, Clone, Copy, PartialEq, Eq, Structural)]
pub enum LoginPhase {
    /// Waiting on the status of a code.
    Polling,
    /// Waiting on the answer to the exchange of a confirmation.
    Exchanging,
    /// Waiting on the device lock step.
    DeviceLock,
    LoggedIn,
    Canceled,
}

/// The login in progress: its phase and the signature of the current code.
#[derive(Debug)]
pub struct LoginMachine {
    pub phase: LoginPhase,
    pub sig: Vec<u8>,
}

pub enum StatusView {
    ImageFetch { image: Seq<u8>, sig: Seq<u8> },
    WaitingForScan,
    WaitingForConfirm,
    Timeout,
    Confirmed,
    Canceled,
}

pub enum EventView {
    Status(StatusView),
    LoginResponse { device_lock: bool },
    DeviceLockDone,
}

pub enum ActionView {
    FetchQrcode,
    PublishAndPoll { image: Seq<u8> },
    Poll,
    Login,
    DeviceLockLogin,
    Done,
    Fail(LoginError),
}

impl View for QrStatus {
    type V = StatusView;

    open spec fn view(&self) -> StatusView {
        match self {
            QrStatus::ImageFetch { image, sig } => StatusView::ImageFetch { image: image@, sig: sig@ },
            QrStatus::WaitingForScan => StatusView::WaitingForScan,
            QrStatus::WaitingForConfirm => StatusView::WaitingForConfirm,
            QrStatus::Timeout => StatusView::Timeout,
            QrStatus::Confirmed => StatusView::Confirmed,
            QrStatus::Canceled => StatusView::Canceled,
        }
    }
}

impl View for LoginEvent {
    type V = EventView;

    open spec fn view(&self) -> EventView {
        match self {
            LoginEvent::Status(s) => EventView::Status(s@),
            LoginEvent::LoginResponse { device_lock } => EventView::LoginResponse {
                device_lock: *device_lock,
            },
            LoginEvent::DeviceLockDone => EventView::DeviceLockDone,
        }
    }
}

impl View for LoginAction {
    type V = ActionView;

    open spec fn view(&self) -> ActionView {
        match self {
            LoginAction::FetchQrcode => ActionView::FetchQrcode,
            LoginAction::PublishAndPoll { image } => ActionView::PublishAndPoll { image: image@ },
            LoginAction::Poll => ActionView::Poll,
            LoginAction::Login => ActionView::Login,
            LoginAction::DeviceLockLogin => ActionView::DeviceLockLogin,
            LoginAction::Done => ActionView::Done,
            LoginAction::Fail(e) => ActionView::Fail(*e),
        }
    }
}

/// The action that a phase waits on.
pub open spec fn pending_login_action(phase: LoginPhase) -> ActionView {
    match phase {
        LoginPhase::Polling => ActionView::Poll,
        LoginPhase::Exchanging => ActionView::Login,
        LoginPhase::DeviceLock => ActionView::DeviceLockLogin,
        LoginPhase::LoggedIn => ActionView::Done,
        LoginPhase::Canceled => ActionView::Fail(LoginError::Canceled),
    }
}

/// One step of the login: the next phase, signature and action.
/// A new code replaces the signature and is published before polling; an
/// expired code drops its signature and a new code is requested without a
/// query; a confirmed code is exchanged, with one device lock step where the
/// answer asks for it; a canceled login fails for good; any other status is
/// polled again. An event that the phase does not wait on changes nothing.
pub open spec fn login_step(phase: LoginPhase, sig: Seq<u8>, ev: EventView) -> (
    LoginPhase,
    Seq<u8>,
    ActionView,
) {
    match (phase, ev) {
        (LoginPhase::Polling, EventView::Status(s)) => match s {
            StatusView::ImageFetch { image, sig: new_sig } => (
                LoginPhase::Polling,
                new_sig,
                ActionView::PublishAndPoll { image },
            ),
            StatusView::Timeout => (LoginPhase::Polling, Seq::empty(), ActionView::FetchQrcode),
            StatusView::Confirmed => (LoginPhase::Exchanging, sig, ActionView::Login),
            StatusView::Canceled => (
                LoginPhase::Canceled,
                sig,
                ActionView::Fail(LoginError::Canceled),
            ),
            _ => (LoginPhase::Polling, sig, ActionView::Poll),
        },
        (LoginPhase::Exchanging, EventView::LoginResponse { device_lock }) => if device_lock {
            (LoginPhase::DeviceLock, sig, ActionView::DeviceLockLogin)
        } else {
            (LoginPhase::LoggedIn, sig, ActionView::Done)
        },
        (LoginPhase::DeviceLock, EventView::DeviceLockDone) => (
            LoginPhase::LoggedIn,
            sig,
            ActionView::Done,
        ),
        _ => (phase, sig, pending_login_action(phase)),
    }
}

impl LoginMachine {
    /// A login that starts by requesting a code.
    pub fn new() -> (r: (LoginMachine, LoginAction))
        ensures
            r.0.phase == LoginPhase::Polling,
            r.0.sig@.len() == 0,
            r.1@ == ActionView::FetchQrcode,
    {
        (LoginMachine { phase: LoginPhase::Polling, sig: Vec::new() }, LoginAction::FetchQrcode)
    }

    /// Takes in what the last action gave and says what to do next.
    pub fn step(&mut self, ev: LoginEvent) -> (r: LoginAction)
        ensures
            (final(self).phase, final(self).sig@, r@) == login_step(old(self).phase, old(self).sig@, ev@),
    {
        match (self.phase, ev) {
            (LoginPhase::Polling, LoginEvent::Status(s)) => match s {
                QrStatus::ImageFetch { image, sig } => {
                    self.sig = sig;
                    LoginAction::PublishAndPoll { image }
                },
                QrStatus::Timeout => {
                    self.sig = Vec::new();
                    LoginAction::FetchQrcode
                },
                QrStatus::Confirmed => {
                    self.phase = LoginPhase::Exchanging;
                    LoginAction::Login
                },
                QrStatus::Canceled => {
                    self.phase = LoginPhase::Canceled;
                    LoginAction::Fail(LoginError::Canceled)
                },
                _ => LoginAction::Poll,
            },
            (LoginPhase::Exchanging, LoginEvent::LoginResponse { device_lock }) => {
                if device_lock {
                    self.phase = LoginPhase::DeviceLock;
                    LoginAction::DeviceLockLogin
                } else {
                    self.phase = LoginPhase::LoggedIn;
                    LoginAction::Done
                }
            },
            (LoginPhase::DeviceLock, LoginEvent::DeviceLockDone) => {
                self.phase = LoginPhase::LoggedIn;
                LoginAction::Done
            },
            (phase, _) => match phase {
                LoginPhase::Polling => LoginAction::Poll,
                LoginPhase::Exchanging => LoginAction::Login,
                LoginPhase::DeviceLock => LoginAction::DeviceLockLogin,
                LoginPhase::LoggedIn => LoginAction::Done,
                LoginPhase::Canceled => LoginAction::Fail(LoginError::Canceled),
            },
        }
    }
}

/// An expired code is never queried again: its signature is dropped and a
/// new code is requested.
pub proof fn lemma_timeout_requests_new_code(sig: Seq<u8>)
    ensures
        login_step(LoginPhase::Polling, sig, EventView::Status(StatusView::Timeout)) == (
            LoginPhase::Polling,
            Seq::<u8>::empty(),
            ActionView::FetchQrcode,
        ),
{
}

/// A canceled login fails, and once canceled it stays canceled and fails
/// again on every later event, with no further polling.
pub proof fn lemma_canceled_is_final(sig: Seq<u8>, ev: EventView)
    ensures
        login_step(LoginPhase::Polling, sig, EventView::Status(StatusView::Canceled)) == (
            LoginPhase::Canceled,
            sig,
            ActionView::Fail(LoginError::Canceled),
        ),
        login_step(LoginPhase::Canceled, sig, ev) == (
            LoginPhase::Canceled,
            sig,
            ActionView::Fail(LoginError::Canceled),
        ),
{
}

} // verus!
