//! The listener's part that is not reading and writing: what a line of text
//! that came in is, and what is sent for one that is no message.

use crate::json::Json;
use crate::models::error_codes::PARSE_ERROR;
use crate::models::ipc_message::IpcError;
use crate::models::ipc_message::IpcMessage;
use crate::models::ipc_message::MessageModel;
use crate::text::chars_of;
use crate::text::join;
use crate::text::text_between;
use crate::text::trim;
use crate::text::trim_bounds;
use vstd::prelude::*;

verus! {

/// Where the backend listens on systems with sockets in the file system.
pub const SOCKET_PATH: &'static str = "/tmp/blindodon_ipc.sock";

/// Where the backend listens on systems with named pipes.
pub const PIPE_NAME: &'static str = "\\\\.\\pipe\\blindodon_ipc";

/// The identifier of a response to what was no message.
pub const UNKNOWN_ID: &'static str = "unknown";

/// What one wait for a connection brought.
#[derive(Debug, Clone, PartialEq, Eq)]
pub enum ListenEvent {
    /// A peer connected.
    Connected,
    /// Accepting a connection failed, for the reason given.
    AcceptFailed(String),
    /// The signal to stop came.
    Shutdown,
}

/// What the listener does after a wait.
#[derive(Debug, Clone, Copy, PartialEq, Eq, Structural)]
pub enum ListenStep {
    /// Serve the new connection by itself, and wait on.
    Serve,
    /// Wait on.
    Retry,
    /// Accept no more: leave the loop and give up the endpoint.
    Stop,
}

/// What the listener does after the wait `event`: a failure to accept does
/// not end it, only the signal to stop does.
pub fn next_accept(event: &ListenEvent) -> (step: ListenStep)
    ensures
        step == match *event {
            ListenEvent::Connected => ListenStep::Serve,
            ListenEvent::AcceptFailed(_) => ListenStep::Retry,
            ListenEvent::Shutdown => ListenStep::Stop,
        },
{
    match event {
        ListenEvent::Connected => ListenStep::Serve,
        ListenEvent::AcceptFailed(_) => ListenStep::Retry,
        ListenEvent::Shutdown => ListenStep::Stop,
    }
}

/// What one read from a connection brought.
#[derive(Debug, Clone, PartialEq, Eq)]
pub enum ReadEvent {
    /// The peer closed the connection.
    EndOfStream,
    /// A line of text, with or without its end-of-line mark.
    Line(String),
    /// The read failed, for the reason given.
    Failed(String),
}

/// What the connection's loop does after a read.
#[derive(Debug, Clone, PartialEq, Eq)]
pub enum ReadStep {
    /// Leave the loop: the connection is over.
    Stop,
    /// Read on: the line was blank.
    Skip,
    /// Parse this text as a message and answer it.
    Parse(String),
}

/// What the loop does after the read `event`, as a mathematical value.
pub open spec fn read_step(event: ReadEvent) -> Option<Option<Seq<char>>> {
    match event {
        ReadEvent::EndOfStream => None,
        ReadEvent::Failed(_) => None,
        ReadEvent::Line(line) => if trim(line@).len() == 0 {
            Some(None)
        } else {
            Some(Some(trim(line@)))
        },
    }
}

/// What the connection's loop does after the read `event`: it stops at the
/// end of the stream and after a failed read, skips a blank line, and
/// parses any other line without the white space around it.
pub fn next_read(event: &ReadEvent) -> (step: ReadStep)
    ensures
        match step {
            ReadStep::Stop => read_step(*event) is None,
            ReadStep::Skip => read_step(*event) == Some(None::<Seq<char>>),
            ReadStep::Parse(text) => read_step(*event) == Some(Some(text@)),
        },
{
    match event {
        ReadEvent::EndOfStream => ReadStep::Stop,
        ReadEvent::Failed(_) => ReadStep::Stop,
        ReadEvent::Line(line) => {
            let chars = chars_of(line.as_str());
            let (lo, hi) = trim_bounds(&chars);
            if lo == hi {
                ReadStep::Skip
            } else {
                ReadStep::Parse(text_between(&chars, lo, hi))
            }
        },
    }
}

/// The response to a frame that is no message, for the reason `reason`.
pub open spec fn parse_failure_of(reason: Seq<char>) -> MessageModel {
    MessageModel::failure(UNKNOWN_ID@, PARSE_ERROR as int, "Failed to parse message: "@ + reason)
}

/// The response to a frame that is no message, for the reason `reason`: an
/// error under the identifier `unknown`.
pub fn parse_failure(reason: &str) -> (r: IpcMessage)
    ensures
        r@ == parse_failure_of(reason@),
{
    IpcMessage::response_err(
        UNKNOWN_ID,
        IpcError::new(PARSE_ERROR, join("Failed to parse message: ", reason).as_str()),
    )
}

/// The message that a frame holds, or the response to send for a frame that
/// holds none: `parsed` is the document of the frame, or the reason for
/// which its text is no document.
pub fn accept(parsed: &Result<Json, String>) -> (r: Result<IpcMessage, IpcMessage>)
    ensures
        match r {
            Ok(msg) => parsed matches Ok(doc) && MessageModel::of_json(doc@) == Ok::<
                MessageModel,
                Seq<char>,
            >(msg@),
            Err(response) => match *parsed {
                Ok(doc) => MessageModel::of_json(doc@) matches Err(reason) && response@
                    == parse_failure_of(reason),
                Err(reason) => response@ == parse_failure_of(reason@),
            },
        },
{
    match parsed {
        Ok(doc) => match IpcMessage::from_json(doc) {
            Ok(msg) => Ok(msg),
            Err(reason) => Err(parse_failure(reason.as_str())),
        },
        Err(reason) => Err(parse_failure(reason.as_str())),
    }
}

/// The text of a frame that is written: `text` and the end-of-line mark.
pub fn frame(text: &str) -> (r: String)
    ensures
        r@ == text@ + "\n"@,
{
    join(text, "\n")
}

} // verus!
