//! What the mail guard and the mail dispatch answer, and the requests and
//! envelopes handed to them.
use vstd::prelude::*;
use vstd::string::*;
use crate::command::{SmtpHelo, SmtpMail, SmtpPath};
use crate::session::Transaction;

verus! {

/// Why a sender was not accepted.
#[derive(Clone, Copy, Debug, PartialEq, Eq, Structural)]
pub enum StartMailFailure {
    /// End the session
    TerminateSession,
    Rejected,
    InvalidSender,
    InvalidParameter,
    StorageExhausted,
    FailedTemporarily,
}

/// The guard's answer to a MAIL command.
#[derive(Clone, Debug, PartialEq, Eq)]
pub enum StartMailResult {
    /// Failed, with a description
    Failed(StartMailFailure, String),
    /// Accepted: the transaction to go on with
    Accepted(Transaction),
}

/// The guard's answer to a RCPT command.
#[derive(Clone, Debug, PartialEq, Eq)]
pub enum AddRecipientResult {
    /// No guard decided
    Inconclusive(SmtpPath),
    Rejected,
    /// Rejected, but the mail may go to the given path
    RejectedWithNewPath(SmtpPath),
    /// Accepted: the path to record
    Accepted(SmtpPath),
}

/// Why mail data was not taken.
#[derive(Clone, Copy, Debug, PartialEq, Eq, Structural)]
pub enum DispatchError {
    FailedTemporarily,
    FailedPermanently,
}

/// Mail envelope before sending mail data
#[derive(Debug, Clone)]
pub struct Envelope {
    /// Service name
    pub name: String,
    /// Local server endpoint
    pub local: Option<String>,
    /// Remote peer endpoint
    pub peer: Option<String>,
    /// The SMTP helo sent by peer
    pub helo: Option<SmtpHelo>,
    /// The SMTP mail from:path sent by peer
    pub mail: Option<SmtpMail>,
    /// unique mail request identifier
    pub id: String,
    /// A list of SMTP rcpt to:path sent by peer
    pub rcpts: Vec<SmtpPath>,
}

/// Request to check if mail is accepted from given sender
#[derive(Debug, Clone)]
pub struct AcceptSenderRequest {
    /// Service name
    pub name: String,
    /// Local server endpoint
    pub local: Option<String>,
    /// Remote peer endpoint
    pub peer: Option<String>,
    /// The SMTP helo sent by peer
    pub helo: Option<SmtpHelo>,
    /// The SMTP mail from:path sent by peer
    pub mail: Option<SmtpMail>,
    /// unique mail request identifier
    pub id: String,
}

#[derive(Debug, Clone, Copy, PartialEq, Eq, Structural)]
pub enum AcceptSenderResult {
    Failed,
    Rejected,
    Accepted,
}

/// Request to check if mail is accepted for given recipient
#[derive(Debug, Clone)]
pub struct AcceptRecipientRequest {
    /// Service name
    pub name: String,
    /// Local server endpoint
    pub local: Option<String>,
    /// Remote peer endpoint
    pub peer: Option<String>,
    /// The SMTP helo sent by peer
    pub helo: Option<SmtpHelo>,
    /// The SMTP mail from:path sent by peer
    pub mail: Option<SmtpMail>,
    /// unique mail request identifier
    pub id: String,
    /// The SMTP rcpt to:path sent by peer we want to check
    pub rcpt: SmtpPath,
}

#[derive(Debug, Clone)]
pub enum AcceptRecipientResult {
    Failed,
    Rejected,
    RejectedWithNewPath(SmtpPath),
    AcceptedWithNewPath(SmtpPath),
    Accepted(SmtpPath),
}

/// Why a queue did not take a mail.
#[derive(Debug, Clone, Copy, PartialEq, Eq, Structural)]
pub enum QueueError {
    Refused,
    Failed,
}

impl QueueError {
    pub open spec fn message_spec(&self) -> Seq<char> {
        match self {
            QueueError::Failed => "Mail queue failed temporarily"@,
            QueueError::Refused => "Mail was refused by the server"@,
        }
    }

    /// A description for people.
    pub fn message(&self) -> (r: &'static str)
        ensures
            r@ == self.message_spec(),
    {
        match self {
            QueueError::Failed => "Mail queue failed temporarily",
            QueueError::Refused => "Mail was refused by the server",
        }
    }

    pub fn to_string(&self) -> (r: String)
        ensures
            r@ == self.message_spec(),
    {
        String::from_str(self.message())
    }
}

} // verus!

verus! {

/// A fresh mail id. Relies on uuid::Uuid::new_v4 (random; it panics only where
/// the system's random source fails) and on its `Display`, which writes the
/// hyphenated form: 32 hexadecimal digits and 4 hyphens.
#[verifier::external_body]
pub(crate) fn new_mail_id() -> (r: String)
    ensures
        r@.len() == 36,
{
    uuid::Uuid::new_v4().to_string()
}

} // verus!
