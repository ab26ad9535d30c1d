//! The single slot that holds the write half of the live chat connection,
//! the outcomes of the commands that use it, and the headers of the
//! authenticated upgrade request.
use vstd::prelude::*;

verus! {

/// Why a send or a disconnect failed.
#[derive(Debug, Clone, Copy, PartialEq, Eq, Structural)]
pub enum SendError {
    /// No connection is held.
    NotConnected,
    /// The write on the socket failed.
    Transport,
}

/// What taking the handle out of a slot that holds `h` gives.
pub open spec fn taken<H>(h: Option<H>) -> Result<H, SendError> {
    match h {
        Some(x) => Ok(x),
        None => Err(SendError::NotConnected),
    }
}

/// The connection slot: at most one live handle. The caller keeps it under
/// a lock; a send holds the lock from `begin_send` to `end_send`, so that the
/// frames of two sends never interleave.
pub struct ConnectionState<H> {
    slot: Option<H>,
}

impl<H> ConnectionState<H> {
    /// The handle that the slot holds.
    pub closed spec fn handle(&self) -> Option<H> {
        self.slot
    }

    /// An empty slot.
    pub fn new() -> (r: Self)
        ensures
            r.handle() is None,
    {
        ConnectionState { slot: None }
    }

    pub fn is_connected(&self) -> (r: bool)
        ensures
            r == self.handle() is Some,
    {
        self.slot.is_some()
    }

    /// Installs the handle of a connection that has just been opened. The
    /// slot then holds that handle alone; a handle it held before is handed
    /// back, for the caller to close, which ends that connection's read loop.
    pub fn install(&mut self, handle: H) -> (replaced: Option<H>)
        ensures
            final(self).handle() == Some(handle),
            replaced == old(self).handle(),
    {
        let replaced = self.slot.take();
        self.slot = Some(handle);
        replaced
    }

    /// Takes the handle out for one send; `NotConnected` where none is held.
    pub fn begin_send(&mut self) -> (r: Result<H, SendError>)
        ensures
            r == taken(old(self).handle()),
            final(self).handle() is None,
    {
        match self.slot.take() {
            Some(h) => Ok(h),
            None => Err(SendError::NotConnected),
        }
    }

    /// Puts the handle back after a send and reports how the write went. A
    /// failed write keeps the connection: the caller may try again.
    pub fn end_send(&mut self, handle: H, written: bool) -> (r: Result<(), SendError>)
        ensures
            final(self).handle() == Some(handle),
            r == if written {
                Ok::<(), SendError>(())
            } else {
                Err(SendError::Transport)
            },
    {
        self.slot = Some(handle);
        if written {
            Ok(())
        } else {
            Err(SendError::Transport)
        }
    }

    /// Takes the handle out for good, for the disconnect notice to be sent on
    /// it before it is dropped; `NotConnected` where none is held. The slot is
    /// empty afterwards in every case, whatever becomes of the notice.
    pub fn begin_disconnect(&mut self) -> (r: Result<H, SendError>)
        ensures
            r == taken(old(self).handle()),
            final(self).handle() is None,
    {
        match self.slot.take() {
            Some(h) => Ok(h),
            None => Err(SendError::NotConnected),
        }
    }
}

/// The outcome of a disconnect whose notice was tried: a failed notice is
/// still reported, though the connection is released.
pub fn end_disconnect(notice_sent: bool) -> (r: Result<(), SendError>)
    ensures
        r == if notice_sent {
            Ok::<(), SendError>(())
        } else {
            Err(SendError::Transport)
        },
{
    if notice_sent {
        Ok(())
    } else {
        Err(SendError::Transport)
    }
}

/// A fresh slot refuses a send and stays empty: nothing is sent before a
/// connection is installed.
pub proof fn lemma_send_before_connect<H>(s: ConnectionState<H>)
    requires
        s.handle() is None,
    ensures
        taken(s.handle()) == Err::<H, SendError>(SendError::NotConnected),
{
}

/// The boolean signal that a command gives its caller: `Ok(true)` on
/// success, `Err(false)` on any failure.
pub fn command_reply(r: Result<(), SendError>) -> (reply: Result<bool, bool>)
    ensures
        reply == match r {
            Ok(_) => Ok::<bool, bool>(true),
            Err(_) => Err::<bool, bool>(false),
        },
{
    match r {
        Ok(_) => Ok(true),
        Err(_) => Err(false),
    }
}

/// The value of an `Authorization` header that carries a bearer token.
pub fn bearer(token: &str) -> (r: String)
    ensures
        r@ == "Bearer "@ + token@,
{
    let mut r = String::from_str("Bearer ");
    r.append(token);
    r
}

/// The headers of the upgrade request that opens the chat connection.
pub open spec fn upgrade_headers_model(token: Seq<char>) -> Seq<(Seq<char>, Seq<char>)> {
    seq![
        ("sec-websocket-key"@, "foo"@),
        ("host"@, "localhost:8080"@),
        ("connection"@, "upgrade"@),
        ("upgrade"@, "websocket"@),
        ("sec-websocket-version"@, "13"@),
        ("Authorization"@, "Bearer "@ + token),
    ]
}

pub open spec fn headers_view(h: Seq<(String, String)>) -> Seq<(Seq<char>, Seq<char>)> {
    h.map_values(|p: (String, String)| (p.0@, p.1@))
}

fn header(name: &str, value: &str) -> (r: (String, String))
    ensures
        r.0@ == name@,
        r.1@ == value@,
{
    (String::from_str(name), String::from_str(value))
}

/// The headers, names and values, of the upgrade request for a token.
pub fn upgrade_headers(token: &str) -> (r: Vec<(String, String)>)
    ensures
        headers_view(r@) == upgrade_headers_model(token@),
{
    let mut r: Vec<(String, String)> = Vec::new();
    r.push(header("sec-websocket-key", "foo"));
    r.push(header("host", "localhost:8080"));
    r.push(header("connection", "upgrade"));
    r.push(header("upgrade", "websocket"));
    r.push(header("sec-websocket-version", "13"));
    r.push((String::from_str("Authorization"), bearer(token)));
    assert(headers_view(r@) =~= upgrade_headers_model(token@));
    r
}

/// Whether the program's arguments ask for the stored data to be cleared:
/// the first argument after the program's name is `reset`.
pub fn asks_reset(args: &Vec<String>) -> (r: bool)
    ensures
        r == (args@.len() > 1 && args@[1]@ == "reset"@),
{
    args.len() > 1 && args[1] == String::from_str("reset")
}

} // verus!
