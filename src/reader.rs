//! What the read loop of the chat connection does with each frame, and the
//! two-frame handshake of the login socket.
use vstd::prelude::*;
use crate::protocol::{Envelope, EnvelopeModel, DecodeError, decode, decode_text};

verus! {

/// A frame read from a socket, as far as the read loop tells frames apart.
/// `Data` carries the text of any other frame.
#[derive(Debug)]
pub enum Frame {
    Ping,
    Close,
    Data(String),
}

/// What the read loop does with one frame.
#[derive(Debug)]
pub enum ReadStep {
    /// Nothing to do; read the next frame.
    Skip,
    /// The socket is closing: leave the loop.
    Stop,
    /// Hand the envelope to the event sink under `event_name`, then go on.
    Emit(Envelope),
    /// Report the decode error, drop the frame, and go on.
    Drop(DecodeError),
}

/// The read loop's decision on one frame. Pings are skipped, a close frame
/// ends the loop, and any other frame is decoded: a bad frame is dropped
/// without ending the loop.
pub fn read_step(frame: Frame) -> (r: ReadStep)
    ensures
        match frame {
            Frame::Ping => r is Skip,
            Frame::Close => r is Stop,
            Frame::Data(t) => match r {
                ReadStep::Emit(e) => decode_text(t@) == Ok::<EnvelopeModel, DecodeError>(e@),
                ReadStep::Drop(x) => decode_text(t@) == Err::<EnvelopeModel, DecodeError>(x),
                _ => false,
            },
        },
{
    match frame {
        Frame::Ping => ReadStep::Skip,
        Frame::Close => ReadStep::Stop,
        Frame::Data(t) => match decode(t.as_str()) {
            Ok(e) => ReadStep::Emit(e),
            Err(x) => ReadStep::Drop(x),
        },
    }
}

/// The event that carries each kind of envelope. A `Disconnect` from the
/// server is passed on as a "disconnected" event; the loop goes on until the
/// server closes the socket.
pub open spec fn event_name_of(e: EnvelopeModel) -> Seq<char> {
    match e {
        EnvelopeModel::Session(_) => "session"@,
        EnvelopeModel::ConnectedUsers(_) => "connected_users"@,
        EnvelopeModel::Message(_) => "message"@,
        EnvelopeModel::Disconnect(_) => "disconnected"@,
    }
}

pub fn event_name(e: &Envelope) -> (r: &'static str)
    ensures
        r@ == event_name_of(e@),
{
    match e {
        Envelope::Session(_) => "session",
        Envelope::ConnectedUsers(_) => "connected_users",
        Envelope::Message(_) => "message",
        Envelope::Disconnect(_) => "disconnected",
    }
}

/// Where the login handshake stands.
#[derive(Debug, Clone, Copy, PartialEq, Eq, Structural)]
pub enum LoginStage {
    AwaitingUrl,
    AwaitingSession,
    Complete,
}

/// What the login socket gave.
#[derive(Debug)]
pub enum LoginInput {
    Frame(String),
    ReadFailed,
    Ended,
}

/// What the login flow does next.
#[derive(Debug)]
pub enum LoginAction {
    /// Emit "open_login_url" with this text.
    OpenUrl(String),
    /// Emit "session" with this text; the flow is then complete.
    Session(String),
    /// Read no further.
    Stop,
}

/// The login handshake: the first frame is a login URL, the second the
/// session; a read error or the end of the socket before that ends the flow
/// without a session.
pub struct LoginFlow {
    stage: LoginStage,
}

impl LoginFlow {
    pub closed spec fn stage(&self) -> LoginStage {
        self.stage
    }

    pub fn new() -> (r: Self)
        ensures
            r.stage() == LoginStage::AwaitingUrl,
    {
        LoginFlow { stage: LoginStage::AwaitingUrl }
    }

    /// Whether the flow reads no further.
    pub fn is_complete(&self) -> (r: bool)
        ensures
            r == (self.stage() == LoginStage::Complete),
    {
        self.stage == LoginStage::Complete
    }

    pub fn step(&mut self, input: LoginInput) -> (r: LoginAction)
        ensures
            match (old(self).stage(), input) {
                (LoginStage::AwaitingUrl, LoginInput::Frame(t)) => final(self).stage()
                    == LoginStage::AwaitingSession && (r matches LoginAction::OpenUrl(u) && u@ == t@),
                (LoginStage::AwaitingSession, LoginInput::Frame(t)) => final(self).stage()
                    == LoginStage::Complete && (r matches LoginAction::Session(s) && s@ == t@),
                _ => final(self).stage() == LoginStage::Complete && r is Stop,
            },
    {
        match (self.stage, input) {
            (LoginStage::AwaitingUrl, LoginInput::Frame(t)) => {
                self.stage = LoginStage::AwaitingSession;
                LoginAction::OpenUrl(t)
            },
            (LoginStage::AwaitingSession, LoginInput::Frame(t)) => {
                self.stage = LoginStage::Complete;
                LoginAction::Session(t)
            },
            _ => {
                self.stage = LoginStage::Complete;
                LoginAction::Stop
            },
        }
    }
}

} // verus!
