//! The state of a front end that either sends stored records or listens
//! for them, and the decisions it takes on the messages of its worker.
use vstd::prelude::*;

use crate::record::{ParseError, Record};
use crate::text::{decimal, push_text, u32_text};
use crate::udp::Error;

verus! {

/// std's sending half of a channel, held for the front end's worker.
#[verifier::external_type_specification]
#[verifier::external_body]
#[verifier::reject_recursive_types(T)]
pub struct ExChannelSender<T>(std::sync::mpsc::Sender<T>);

/// std's receiving half of a channel, held for the front end's worker.
#[verifier::external_type_specification]
#[verifier::external_body]
#[verifier::reject_recursive_types(T)]
pub struct ExChannelReceiver<T>(std::sync::mpsc::Receiver<T>);

/// What the front end does.
#[derive(Clone, Copy, Debug, PartialEq, Eq, Structural)]
pub enum Mode {
    Send,
    Listen,
}

impl Default for Mode {
    fn default() -> (r: Mode)
        ensures
            r == Mode::Send,
    {
        Mode::Send
    }
}

/// A message from the front end to its worker.
#[derive(Clone, Copy, Debug, PartialEq, Eq, Structural)]
pub enum ControlMessage {
    /// Asks the worker to shut down gracefully.
    Stop,
}

/// A message from a worker to the front end, to report completion or to
/// give it a line for its log.
#[derive(Debug)]
pub enum StatusMessage {
    /// The worker finished successfully.
    Success,
    /// The worker failed and stopped.
    Failure(String),
    /// A non-fatal error occurred, which the user should hear of.
    Warning(String),
    /// The worker still runs and has a line for the user.
    Info(String),
}

/// The channels to the running worker.
pub struct Task {
    /// Where the front end sends its control messages.
    pub control: std::sync::mpsc::Sender<ControlMessage>,
    /// Where the worker's status messages arrive.
    pub status: std::sync::mpsc::Receiver<StatusMessage>,
}

/// The state of the front end.
pub struct App {
    /// Whether to render at twice the pixel density.
    pub hdpi: bool,
    /// The selected mode.
    pub mode: Mode,
    /// The local address to bind to, to send or to listen.
    pub bind_addr: String,
    /// The address to send to.
    pub tx_addr: String,
    /// The database file to read records from.
    pub db_file: String,
    /// The channels to the worker that is running, if any.
    pub task: Option<Task>,
    /// Whether the last worker finished successfully, once one has.
    pub status: Option<bool>,
    /// The log shown to the user.
    pub log: String,
}

impl Default for App {
    fn default() -> (r: App)
        ensures
            r.hdpi,
            r.mode == Mode::Send,
            r.bind_addr@ == "0.0.0.0:8142"@,
            r.tx_addr@ == ""@,
            r.db_file@ == "test/test.sqlite"@,
            r.task is None,
            r.status is None,
            r.log@ == Seq::<char>::empty(),
    {
        App {
            hdpi: true,
            mode: Mode::default(),
            bind_addr: "0.0.0.0:8142".to_owned(),
            tx_addr: "".to_owned(),
            db_file: "test/test.sqlite".to_owned(),
            task: None,
            status: None,
            log: String::new(),
        }
    }
}

/// The line that a status message adds to the log, if any.
pub open spec fn log_line(msg: StatusMessage) -> Seq<char> {
    match msg {
        StatusMessage::Success => Seq::empty(),
        StatusMessage::Failure(t) => t@ + "\n"@,
        StatusMessage::Warning(t) => t@ + "\n"@,
        StatusMessage::Info(t) => t@ + "\n"@,
    }
}

impl App {
    /// Takes in a message of the worker: a line for the log, and on its
    /// end, the outcome, with the worker's channels dropped.
    pub fn apply_status(&mut self, msg: StatusMessage)
        ensures
            final(self).log@ == old(self).log@ + log_line(msg),
            final(self).hdpi == old(self).hdpi,
            final(self).mode == old(self).mode,
            final(self).bind_addr == old(self).bind_addr,
            final(self).tx_addr == old(self).tx_addr,
            final(self).db_file == old(self).db_file,
            match msg {
                StatusMessage::Success => final(self).status == Some(true) && final(self).task is None,
                StatusMessage::Failure(_) => final(self).status == Some(false)
                    && final(self).task is None,
                _ => final(self).status == old(self).status && final(self).task == old(self).task,
            },
    {
        match msg {
            StatusMessage::Success => {
                self.status = Some(true);
                self.task = None;
                assert(self.log@ =~= old(self).log@ + log_line(msg));
            },
            StatusMessage::Failure(t) => {
                push_text(&mut self.log, t.as_str());
                push_text(&mut self.log, "\n");
                self.status = Some(false);
                self.task = None;
                assert(self.log@ =~= old(self).log@ + log_line(msg));
            },
            StatusMessage::Warning(t) => {
                push_text(&mut self.log, t.as_str());
                push_text(&mut self.log, "\n");
                assert(self.log@ =~= old(self).log@ + log_line(msg));
            },
            StatusMessage::Info(t) => {
                push_text(&mut self.log, t.as_str());
                push_text(&mut self.log, "\n");
                assert(self.log@ =~= old(self).log@ + log_line(msg));
            },
        }
    }
}

/// The line reported for a received record.
pub open spec fn record_line(id: u32, data: Seq<char>) -> Seq<char> {
    "Got record ["@ + decimal(id as nat) + " : "@ + data + "]"@
}

/// What a listening worker reports for one result of its receiver: the
/// record it got, a warning for a corrupted packet or a socket fault, and
/// nothing for a receive that timed out.
pub fn listen_status(res: &Result<Record, Error<ParseError>>) -> (r: Option<StatusMessage>)
    ensures
        match res {
            Ok(rec) => r matches Some(StatusMessage::Info(t)) && t@ == record_line(
                rec.id,
                rec.data@,
            ),
            Err(Error::ParseError(_)) => r matches Some(StatusMessage::Warning(t)) && t@
                == "Got corrupted packet"@,
            Err(Error::Io(f)) => if f.is_timeout() {
                r is None
            } else {
                r matches Some(StatusMessage::Warning(t)) && t@
                    == "Error while reading from socket: "@ + f.message@
            },
        },
{
    match res {
        Ok(rec) => {
            let mut t = String::new();
            push_text(&mut t, "Got record [");
            let id = u32_text(rec.id);
            push_text(&mut t, id.as_str());
            push_text(&mut t, " : ");
            push_text(&mut t, rec.data.as_str());
            push_text(&mut t, "]");
            assert(t@ =~= record_line(rec.id, rec.data@));
            Some(StatusMessage::Info(t))
        },
        Err(Error::ParseError(_)) => Some(StatusMessage::Warning("Got corrupted packet".to_owned())),
        Err(Error::Io(f)) => {
            if f.is_timeout() {
                None
            } else {
                let mut t = String::new();
                push_text(&mut t, "Error while reading from socket: ");
                push_text(&mut t, f.message.as_str());
                assert(t@ =~= "Error while reading from socket: "@ + f.message@);
                Some(StatusMessage::Warning(t))
            }
        },
    }
}

} // verus!
