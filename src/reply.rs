//! The reply vocabulary and the events that cross the driver boundary.
use vstd::prelude::*;
use vstd::string::*;
use crate::command::SmtpCommand;
use crate::session::{SessionInfo, SmtpExtension};

verus! {

/// A status reply of the server.
#[derive(Clone, Debug, PartialEq, Eq)]
pub enum SmtpReply {
    /// 220, the greeting: the service name
    ServiceReadyInfo(String),
    /// 220, answer to STARTTLS before the handshake
    StartTlsReadyInfo,
    /// 221, the service name
    ClosingConnectionInfo(String),
    /// 250
    OkInfo,
    /// 250, answer to HELO
    OkHeloInfo { local: String, remote: String },
    /// 250, answer to EHLO and LHLO, one line per extension
    OkEhloInfo { local: String, remote: String, extensions: Vec<SmtpExtension> },
    /// 354
    StartMailInputChallenge,
    /// 421, with a description
    ServiceNotAvailableError(String),
    /// 450
    MailboxNotAvailableError,
    /// 451
    ProcesingError,
    /// 452
    StorageFailure,
    /// 454
    TlsNotAvailableError,
    /// 500
    CommandSyntaxFailure,
    /// 502
    CommandNotImplementedFailure,
    /// 503
    CommandSequenceFailure,
    /// 550
    MailboxNotAvailableFailure,
    /// 551, with the path to try instead
    UserNotLocalFailure(String),
    /// 553
    MailboxNameInvalidFailure,
    /// 554
    TransactionFailure,
    /// 554, DATA without an accepted recipient
    NoValidRecipientsFailure,
    /// 555
    UnknownMailParametersFailure,
}

impl SmtpReply {
    pub open spec fn code_spec(&self) -> u16 {
        match self {
            SmtpReply::ServiceReadyInfo(_) => 220,
            SmtpReply::StartTlsReadyInfo => 220,
            SmtpReply::ClosingConnectionInfo(_) => 221,
            SmtpReply::OkInfo => 250,
            SmtpReply::OkHeloInfo { .. } => 250,
            SmtpReply::OkEhloInfo { .. } => 250,
            SmtpReply::StartMailInputChallenge => 354,
            SmtpReply::ServiceNotAvailableError(_) => 421,
            SmtpReply::MailboxNotAvailableError => 450,
            SmtpReply::ProcesingError => 451,
            SmtpReply::StorageFailure => 452,
            SmtpReply::TlsNotAvailableError => 454,
            SmtpReply::CommandSyntaxFailure => 500,
            SmtpReply::CommandNotImplementedFailure => 502,
            SmtpReply::CommandSequenceFailure => 503,
            SmtpReply::MailboxNotAvailableFailure => 550,
            SmtpReply::UserNotLocalFailure(_) => 551,
            SmtpReply::MailboxNameInvalidFailure => 553,
            SmtpReply::TransactionFailure => 554,
            SmtpReply::NoValidRecipientsFailure => 554,
            SmtpReply::UnknownMailParametersFailure => 555,
        }
    }

    /// The three digit status code.
    pub fn code(&self) -> (r: u16)
        ensures
            r == self.code_spec(),
    {
        match self {
            SmtpReply::ServiceReadyInfo(_) => 220,
            SmtpReply::StartTlsReadyInfo => 220,
            SmtpReply::ClosingConnectionInfo(_) => 221,
            SmtpReply::OkInfo => 250,
            SmtpReply::OkHeloInfo { .. } => 250,
            SmtpReply::OkEhloInfo { .. } => 250,
            SmtpReply::StartMailInputChallenge => 354,
            SmtpReply::ServiceNotAvailableError(_) => 421,
            SmtpReply::MailboxNotAvailableError => 450,
            SmtpReply::ProcesingError => 451,
            SmtpReply::StorageFailure => 452,
            SmtpReply::TlsNotAvailableError => 454,
            SmtpReply::CommandSyntaxFailure => 500,
            SmtpReply::CommandNotImplementedFailure => 502,
            SmtpReply::CommandSequenceFailure => 503,
            SmtpReply::MailboxNotAvailableFailure => 550,
            SmtpReply::UserNotLocalFailure(_) => 551,
            SmtpReply::MailboxNameInvalidFailure => 553,
            SmtpReply::TransactionFailure => 554,
            SmtpReply::NoValidRecipientsFailure => 554,
            SmtpReply::UnknownMailParametersFailure => 555,
        }
    }
}

/// One line of the extension list of an EHLO reply: `250-` before the last
/// line, `250 ` on it.
pub open spec fn extension_line(exts: Seq<SmtpExtension>, j: int) -> Seq<char> {
    (if j + 1 == exts.len() {
        "250 "@
    } else {
        "250-"@
    }) + exts[j].code_spec() + "\r\n"@
}

/// The first `n` lines of the extension list.
pub open spec fn extension_lines(exts: Seq<SmtpExtension>, n: nat) -> Seq<char>
    decreases n,
{
    if n == 0 {
        Seq::empty()
    } else {
        extension_lines(exts, (n - 1) as nat) + extension_line(exts, n - 1)
    }
}

impl SmtpReply {
    /// The reply as sent: status lines, each ended by CRLF.
    pub open spec fn text_spec(&self) -> Seq<char> {
        match self {
            SmtpReply::ServiceReadyInfo(name) => "220 "@ + name@ + " service ready\r\n"@,
            SmtpReply::StartTlsReadyInfo => "220 2.0.0 Ready to start TLS\r\n"@,
            SmtpReply::ClosingConnectionInfo(name) => "221 2.0.0 "@ + name@
                + " service closing transmission channel\r\n"@,
            SmtpReply::OkInfo => "250 2.0.0 Ok\r\n"@,
            SmtpReply::OkHeloInfo { local, remote } => "250 "@ + local@ + " greets "@ + remote@
                + "\r\n"@,
            SmtpReply::OkEhloInfo { local, remote, extensions } => (if extensions@.len() == 0 {
                "250 "@
            } else {
                "250-"@
            }) + local@ + " greets "@ + remote@ + "\r\n"@ + extension_lines(
                extensions@,
                extensions@.len(),
            ),
            SmtpReply::StartMailInputChallenge => "354 Start mail input; end with <CRLF>.<CRLF>\r\n"@,
            SmtpReply::ServiceNotAvailableError(d) => "421 4.3.0 "@ + d@ + "\r\n"@,
            SmtpReply::MailboxNotAvailableError => "450 4.2.0 Mailbox unavailable\r\n"@,
            SmtpReply::ProcesingError => "451 4.3.0 Local error in processing\r\n"@,
            SmtpReply::StorageFailure => "452 4.3.1 Insufficient system storage\r\n"@,
            SmtpReply::TlsNotAvailableError => "454 4.7.0 TLS not available\r\n"@,
            SmtpReply::CommandSyntaxFailure => "500 5.5.2 Syntax error, command unrecognized\r\n"@,
            SmtpReply::CommandNotImplementedFailure => "502 5.5.1 Command not implemented\r\n"@,
            SmtpReply::CommandSequenceFailure => "503 5.5.1 Bad sequence of commands\r\n"@,
            SmtpReply::MailboxNotAvailableFailure => "550 5.1.1 Mailbox unavailable\r\n"@,
            SmtpReply::UserNotLocalFailure(path) => "551 5.1.6 User not local; please try <"@
                + path@ + ">\r\n"@,
            SmtpReply::MailboxNameInvalidFailure => "553 5.1.3 Mailbox name not allowed\r\n"@,
            SmtpReply::TransactionFailure => "554 5.0.0 Transaction failed\r\n"@,
            SmtpReply::NoValidRecipientsFailure => "554 5.5.1 No valid recipients\r\n"@,
            SmtpReply::UnknownMailParametersFailure => "555 5.5.4 Parameters not recognized\r\n"@,
        }
    }

    /// The reply as sent: status lines, each ended by CRLF.
    pub fn to_string(&self) -> (r: String)
        ensures
            r@ == self.text_spec(),
    {
        match self {
            SmtpReply::ServiceReadyInfo(name) => {
                let mut s = String::from_str("220 ");
                s.append(name.as_str());
                s.append(" service ready\r\n");
                s
            },
            SmtpReply::StartTlsReadyInfo => String::from_str("220 2.0.0 Ready to start TLS\r\n"),
            SmtpReply::ClosingConnectionInfo(name) => {
                let mut s = String::from_str("221 2.0.0 ");
                s.append(name.as_str());
                s.append(" service closing transmission channel\r\n");
                s
            },
            SmtpReply::OkInfo => String::from_str("250 2.0.0 Ok\r\n"),
            SmtpReply::OkHeloInfo { local, remote } => {
                let mut s = String::from_str("250 ");
                s.append(local.as_str());
                s.append(" greets ");
                s.append(remote.as_str());
                s.append("\r\n");
                s
            },
            SmtpReply::OkEhloInfo { local, remote, extensions } => {
                let mut s = if extensions.len() == 0 {
                    String::from_str("250 ")
                } else {
                    String::from_str("250-")
                };
                s.append(local.as_str());
                s.append(" greets ");
                s.append(remote.as_str());
                s.append("\r\n");
                let ghost head = s@;
                let mut i: usize = 0;
                while i < extensions.len()
                    invariant
                        i <= extensions@.len(),
                        s@ == head + extension_lines(extensions@, i as nat),
                    decreases extensions@.len() - i,
                {
                    if i + 1 == extensions.len() {
                        s.append("250 ");
                    } else {
                        s.append("250-");
                    }
                    s.append(extensions[i].code());
                    s.append("\r\n");
                    i = i + 1;
                    assert(s@ =~= head + extension_lines(extensions@, i as nat));
                }
                s
            },
            SmtpReply::StartMailInputChallenge => String::from_str(
                "354 Start mail input; end with <CRLF>.<CRLF>\r\n",
            ),
            SmtpReply::ServiceNotAvailableError(d) => {
                let mut s = String::from_str("421 4.3.0 ");
                s.append(d.as_str());
                s.append("\r\n");
                s
            },
            SmtpReply::MailboxNotAvailableError => String::from_str("450 4.2.0 Mailbox unavailable\r\n"),
            SmtpReply::ProcesingError => String::from_str("451 4.3.0 Local error in processing\r\n"),
            SmtpReply::StorageFailure => String::from_str("452 4.3.1 Insufficient system storage\r\n"),
            SmtpReply::TlsNotAvailableError => String::from_str("454 4.7.0 TLS not available\r\n"),
            SmtpReply::CommandSyntaxFailure => String::from_str(
                "500 5.5.2 Syntax error, command unrecognized\r\n",
            ),
            SmtpReply::CommandNotImplementedFailure => String::from_str(
                "502 5.5.1 Command not implemented\r\n",
            ),
            SmtpReply::CommandSequenceFailure => String::from_str(
                "503 5.5.1 Bad sequence of commands\r\n",
            ),
            SmtpReply::MailboxNotAvailableFailure => String::from_str(
                "550 5.1.1 Mailbox unavailable\r\n",
            ),
            SmtpReply::UserNotLocalFailure(path) => {
                let mut s = String::from_str("551 5.1.6 User not local; please try <");
                s.append(path.as_str());
                s.append(">\r\n");
                s
            },
            SmtpReply::MailboxNameInvalidFailure => String::from_str(
                "553 5.1.3 Mailbox name not allowed\r\n",
            ),
            SmtpReply::TransactionFailure => String::from_str("554 5.0.0 Transaction failed\r\n"),
            SmtpReply::NoValidRecipientsFailure => String::from_str(
                "554 5.5.1 No valid recipients\r\n",
            ),
            SmtpReply::UnknownMailParametersFailure => String::from_str(
                "555 5.5.4 Parameters not recognized\r\n",
            ),
        }
    }
}

/// Instructions for the transport, at the level of bytes.
#[derive(Clone, Debug, PartialEq, Eq)]
pub enum DriverControl {
    /// Write an SMTP response
    Response(Vec<u8>),
    /// Start TLS encryption
    StartTls,
    /// Shut the stream down
    Shutdown,
}

/// What the driver hands to the transport.
#[derive(Clone, Debug, PartialEq, Eq)]
pub enum WriteControl {
    /// Write a reply
    Reply(SmtpReply),
    /// Write the reply, then upgrade the connection to TLS
    StartTls(SmtpReply),
    /// Write the reply, then read mail data
    StartData(SmtpReply),
    /// Write the reply, then close the connection
    Shutdown(SmtpReply),
}

impl WriteControl {
    pub open spec fn reply_spec(&self) -> SmtpReply {
        match self {
            WriteControl::Reply(r) => *r,
            WriteControl::StartTls(r) => *r,
            WriteControl::StartData(r) => *r,
            WriteControl::Shutdown(r) => *r,
        }
    }

    /// The reply to write.
    pub fn reply(&self) -> (r: &SmtpReply)
        ensures
            *r == self.reply_spec(),
    {
        match self {
            WriteControl::Reply(r) => r,
            WriteControl::StartTls(r) => r,
            WriteControl::StartData(r) => r,
            WriteControl::Shutdown(r) => r,
        }
    }
}

/// What the transport hands to the driver.
#[derive(Clone, Debug, PartialEq, Eq)]
pub enum ReadControl {
    /// A peer connected; the session to serve
    PeerConnected(SessionInfo),
    /// The peer closed the connection
    PeerShutdown,
    /// A line that did not parse
    Raw(Vec<u8>),
    /// A parsed command and its line
    Command(SmtpCommand, Vec<u8>),
    /// A piece of mail data
    MailDataChunk(Vec<u8>),
    /// The end of mail data, with its line
    EndOfMailData(Vec<u8>),
    /// An empty line
    Empty(Vec<u8>),
    /// A dot escaped in mail data
    EscapeDot(Vec<u8>),
}

} // verus!
