//! The demonstration shell behind `/webshell/:session_id`: it greets the
//! client and echoes what it is sent until the client closes.
use vstd::prelude::*;
use vstd::string::*;

verus! {

/// A WebSocket message, as far as the shell tells them apart.
pub enum WsMessage {
    Text(String),
    Binary(Vec<u8>),
    Close,
    /// Pings, pongs and other control frames.
    Other,
}

/// What the shell does with a message it received.
pub enum ShellAction {
    /// Send this message back.
    Send(WsMessage),
    /// Stop serving the socket.
    Stop,
    /// Do nothing and wait for the next message.
    Ignore,
}

/// The message the shell opens with.
pub fn shell_greeting() -> (r: String)
    ensures
        r@ == "Connected to fake shell"@,
{
    String::from_str("Connected to fake shell")
}

/// The shell's answer to a message: text is echoed after `echo: `, binary
/// data is sent back unchanged, a close ends the session, anything else is
/// ignored.
pub fn shell_reply(msg: WsMessage) -> (r: ShellAction)
    ensures
        match msg {
            WsMessage::Text(t) => r matches ShellAction::Send(WsMessage::Text(out)) && out@
                == "echo: "@ + t@,
            WsMessage::Binary(b) => r matches ShellAction::Send(WsMessage::Binary(out)) && out@
                == b@,
            WsMessage::Close => r is Stop,
            WsMessage::Other => r is Ignore,
        },
{
    match msg {
        WsMessage::Text(t) => {
            let mut out = String::from_str("echo: ");
            out.append(t.as_str());
            ShellAction::Send(WsMessage::Text(out))
        },
        WsMessage::Binary(b) => ShellAction::Send(WsMessage::Binary(b)),
        WsMessage::Close => ShellAction::Stop,
        WsMessage::Other => ShellAction::Ignore,
    }
}

} // verus!
