//! The verb-dispatch state machine: one inbound event applied to the session
//! state, with the replies it queues and the collaborator call it asks for.
use vstd::prelude::*;
use crate::command::{SmtpCommand, SmtpHelo, SmtpMail, SmtpPath};
use crate::mail::{new_mail_id, AddRecipientResult, DispatchError, StartMailFailure, StartMailResult};
use crate::reply::{ReadControl, SmtpReply, WriteControl};
use crate::session::{SessionInfo, SmtpExtension, Transaction};

verus! {

/// The collaborator call that the state machine waits for.
#[derive(Clone, Copy, Debug, PartialEq, Eq, Structural)]
pub enum Awaiting {
    StartMail,
    AddRecipient,
    OpenMailBody,
    WriteMailBody,
    CloseMailBody,
}

/// A call to make on the state machine's behalf; its outcome goes back through
/// [`SmtpState::resume`].
#[derive(Clone, Debug, PartialEq, Eq)]
pub enum PendingCall {
    /// Ask the guard to start the mail of the state's transaction
    StartMail,
    /// Ask the guard to accept the recipient
    AddRecipient(SmtpPath),
    /// Ask the dispatch to open a sink for the state's transaction
    OpenMailBody,
    /// Write the bytes into the open sink
    WriteMailBody(Vec<u8>),
    /// Close the sink, which commits the mail
    CloseMailBody,
}

impl PendingCall {
    /// The call awaited once this one is handed out.
    pub open spec fn kind(&self) -> Awaiting {
        match self {
            PendingCall::StartMail => Awaiting::StartMail,
            PendingCall::AddRecipient(_) => Awaiting::AddRecipient,
            PendingCall::OpenMailBody => Awaiting::OpenMailBody,
            PendingCall::WriteMailBody(_) => Awaiting::WriteMailBody,
            PendingCall::CloseMailBody => Awaiting::CloseMailBody,
        }
    }
}

/// The outcome of a collaborator call.
#[derive(Debug, PartialEq, Eq)]
pub enum CallOutcome {
    MailStarted(StartMailResult),
    RecipientChecked(AddRecipientResult),
    BodyOpened(Result<(), DispatchError>),
    BodyWritten(Result<(), DispatchError>),
    BodyClosed(Result<(), DispatchError>),
}

impl CallOutcome {
    /// The call that this outcome answers.
    pub open spec fn answers(&self) -> Awaiting {
        match self {
            CallOutcome::MailStarted(_) => Awaiting::StartMail,
            CallOutcome::RecipientChecked(_) => Awaiting::AddRecipient,
            CallOutcome::BodyOpened(_) => Awaiting::OpenMailBody,
            CallOutcome::BodyWritten(_) => Awaiting::WriteMailBody,
            CallOutcome::BodyClosed(_) => Awaiting::CloseMailBody,
        }
    }
}

/// The state of one SMTP session: the session record, the transaction in
/// flight, the collaborator call awaited and the replies not yet taken.
#[derive(Clone, Debug, PartialEq, Eq)]
pub struct SmtpState {
    pub session: SessionInfo,
    pub transaction: Transaction,
    pub awaiting: Option<Awaiting>,
    /// Queued replies, first to go first
    pub writes: Vec<WriteControl>,
}

/// The reply to a sender that the guard did not accept.
pub open spec fn mail_failure_reply(f: StartMailFailure) -> SmtpReply {
    match f {
        StartMailFailure::TerminateSession => SmtpReply::ProcesingError,
        StartMailFailure::Rejected => SmtpReply::MailboxNotAvailableFailure,
        StartMailFailure::InvalidSender => SmtpReply::MailboxNameInvalidFailure,
        StartMailFailure::InvalidParameter => SmtpReply::UnknownMailParametersFailure,
        StartMailFailure::StorageExhausted => SmtpReply::StorageFailure,
        StartMailFailure::FailedTemporarily => SmtpReply::ProcesingError,
    }
}

/// The reply to a failure of the dispatch.
pub open spec fn dispatch_failure_reply(e: DispatchError) -> SmtpReply {
    match e {
        DispatchError::FailedTemporarily => SmtpReply::ProcesingError,
        DispatchError::FailedPermanently => SmtpReply::TransactionFailure,
    }
}

fn mail_failure(f: StartMailFailure) -> (r: SmtpReply)
    ensures
        r == mail_failure_reply(f),
{
    match f {
        StartMailFailure::TerminateSession => SmtpReply::ProcesingError,
        StartMailFailure::Rejected => SmtpReply::MailboxNotAvailableFailure,
        StartMailFailure::InvalidSender => SmtpReply::MailboxNameInvalidFailure,
        StartMailFailure::InvalidParameter => SmtpReply::UnknownMailParametersFailure,
        StartMailFailure::StorageExhausted => SmtpReply::StorageFailure,
        StartMailFailure::FailedTemporarily => SmtpReply::ProcesingError,
    }
}

fn dispatch_failure(e: DispatchError) -> (r: SmtpReply)
    ensures
        r == dispatch_failure_reply(e),
{
    match e {
        DispatchError::FailedTemporarily => SmtpReply::ProcesingError,
        DispatchError::FailedPermanently => SmtpReply::TransactionFailure,
    }
}

/// `post` queued exactly `w` after what `pre` had queued.
pub open spec fn said(pre: SmtpState, post: SmtpState, w: WriteControl) -> bool {
    post.writes@ == pre.writes@.push(w)
}

/// `post` queued one reply after what `pre` had queued.
pub open spec fn said_one(pre: SmtpState, post: SmtpState) -> bool {
    &&& post.writes@.len() == pre.writes@.len() + 1
    &&& post.writes@.drop_last() == pre.writes@
}

/// Only the replies changed: `w` was queued.
pub open spec fn only_said(pre: SmtpState, post: SmtpState, w: WriteControl) -> bool {
    &&& said(pre, post, w)
    &&& post.session == pre.session
    &&& post.transaction == pre.transaction
    &&& post.awaiting == pre.awaiting
}

/// The transaction was reset, the session kept, `w` queued.
pub open spec fn reset_and_said(pre: SmtpState, post: SmtpState, w: WriteControl) -> bool {
    &&& said(pre, post, w)
    &&& post.session == pre.session
    &&& post.transaction.is_empty_spec()
    &&& post.awaiting == pre.awaiting
}

/// The answer to a greeting: the extension list for EHLO and LHLO only.
pub open spec fn greeting_reply(w: WriteControl, helo: SmtpHelo, session: SessionInfo) -> bool {
    if helo.is_extended_spec() {
        w matches WriteControl::Reply(SmtpReply::OkEhloInfo { local, remote, extensions })
            && local == session.service_name && remote@ == helo.host_spec().text_spec()
            && extensions@ == session.extensions@
    } else {
        w matches WriteControl::Reply(SmtpReply::OkHeloInfo { local, remote })
            && local == session.service_name && remote@ == helo.host_spec().text_spec()
    }
}

/// HELO, EHLO or LHLO: the transaction is reset, the greeting recorded, the
/// extensions kept, the greeting answered.
pub open spec fn helo_applied(pre: SmtpState, post: SmtpState, helo: SmtpHelo) -> bool {
    &&& post.transaction.is_empty_spec()
    &&& post.session.smtp_helo == Some(helo)
    &&& post.session.peer_name matches Some(n) && n@ == helo.host_spec().text_spec()
    &&& post.session.connection == pre.session.connection
    &&& post.session.extensions == pre.session.extensions
    &&& post.session.service_name == pre.session.service_name
    &&& post.session.last_command_at == pre.session.last_command_at
    &&& post.session.command_timeout == pre.session.command_timeout
    &&& post.awaiting == pre.awaiting
    &&& said_one(pre, post)
    &&& greeting_reply(post.writes@.last(), helo, pre.session)
}

/// MAIL: refused with a sequence failure before a greeting, the transaction
/// left as it was; otherwise a new
/// transaction holds the command and the guard is asked.
pub open spec fn mail_applied(pre: SmtpState, post: SmtpState, mail: SmtpMail, r: Option<PendingCall>) -> bool {
    if pre.session.smtp_helo is None {
        &&& only_said(pre, post, WriteControl::Reply(SmtpReply::CommandSequenceFailure))
        &&& r is None
    } else {
        &&& post.session == pre.session
        &&& post.writes == pre.writes
        &&& post.transaction.mail == Some(mail)
        &&& post.transaction.id@.len() == 0
        &&& post.transaction.rcpts@.len() == 0
        &&& post.transaction.extra_headers@.len() == 0
        &&& !post.transaction.sink_open
        &&& post.awaiting == Some(Awaiting::StartMail)
        &&& r == Some(PendingCall::StartMail)
    }
}

/// RCPT: refused without a sender; otherwise the guard is asked.
pub open spec fn rcpt_applied(pre: SmtpState, post: SmtpState, path: SmtpPath, r: Option<PendingCall>) -> bool {
    if pre.transaction.mail is None {
        &&& only_said(pre, post, WriteControl::Reply(SmtpReply::CommandSequenceFailure))
        &&& r is None
    } else {
        &&& post.session == pre.session
        &&& post.transaction == pre.transaction
        &&& post.writes == pre.writes
        &&& post.awaiting == Some(Awaiting::AddRecipient)
        &&& r == Some(PendingCall::AddRecipient(path))
    }
}

/// DATA: refused without a sender or without a recipient; otherwise the
/// dispatch is asked for a sink.
pub open spec fn data_applied(pre: SmtpState, post: SmtpState, r: Option<PendingCall>) -> bool {
    if pre.transaction.mail is None {
        &&& only_said(pre, post, WriteControl::Reply(SmtpReply::CommandSequenceFailure))
        &&& r is None
    } else if pre.transaction.rcpts@.len() == 0 {
        &&& only_said(pre, post, WriteControl::Reply(SmtpReply::NoValidRecipientsFailure))
        &&& r is None
    } else {
        &&& post.session == pre.session
        &&& post.transaction == pre.transaction
        &&& post.writes == pre.writes
        &&& post.awaiting == Some(Awaiting::OpenMailBody)
        &&& r == Some(PendingCall::OpenMailBody)
    }
}

/// STARTTLS: refused where TLS is not offered or already on; otherwise the
/// greeting and transaction are dropped, STARTTLS is no longer offered, the
/// connection counts as encrypted and the upgrade is requested.
pub open spec fn starttls_applied(pre: SmtpState, post: SmtpState) -> bool {
    if pre.session.connection.encrypted || !pre.session.extensions@.contains(SmtpExtension::StartTls) {
        only_said(pre, post, WriteControl::Reply(SmtpReply::TlsNotAvailableError))
    } else {
        &&& said(pre, post, WriteControl::StartTls(SmtpReply::StartTlsReadyInfo))
        &&& post.transaction.is_empty_spec()
        &&& post.session.smtp_helo is None
        &&& post.session.peer_name is None
        &&& post.session.connection.encrypted
        &&& post.session.connection.local_addr == pre.session.connection.local_addr
        &&& post.session.connection.peer_addr == pre.session.connection.peer_addr
        &&& post.session.extensions@ == pre.session.extensions@.filter(
            |e: SmtpExtension| e != SmtpExtension::StartTls,
        )
        &&& post.session.service_name == pre.session.service_name
        &&& post.session.last_command_at == pre.session.last_command_at
        &&& post.session.command_timeout == pre.session.command_timeout
        &&& post.awaiting == pre.awaiting
    }
}

/// QUIT and the peer's shutdown: the transaction is dropped and the session
/// closed with a farewell.
pub open spec fn closed(pre: SmtpState, post: SmtpState) -> bool {
    &&& post.session == pre.session
    &&& post.transaction.is_empty_spec()
    &&& post.awaiting == pre.awaiting
    &&& said_one(pre, post)
    &&& post.writes@.last() matches WriteControl::Shutdown(SmtpReply::ClosingConnectionInfo(n))
        && n == pre.session.service_name
}

/// What a command does to the state.
pub open spec fn command_applied(pre: SmtpState, post: SmtpState, cmd: SmtpCommand, r: Option<PendingCall>) -> bool {
    match cmd {
        SmtpCommand::Helo(helo) => helo_applied(pre, post, helo) && r is None,
        SmtpCommand::Mail(mail) => mail_applied(pre, post, mail, r),
        SmtpCommand::Rcpt(path) => rcpt_applied(pre, post, path, r),
        SmtpCommand::Data => data_applied(pre, post, r),
        SmtpCommand::Rset => reset_and_said(pre, post, WriteControl::Reply(SmtpReply::OkInfo)) && r is None,
        SmtpCommand::Noop(_) => only_said(pre, post, WriteControl::Reply(SmtpReply::OkInfo)) && r is None,
        SmtpCommand::Quit => closed(pre, post) && r is None,
        SmtpCommand::StartTls => starttls_applied(pre, post) && r is None,
        _ => only_said(pre, post, WriteControl::Reply(SmtpReply::CommandNotImplementedFailure)) && r is None,
    }
}

/// A piece of mail data: handed to the open sink, dropped where none is open.
pub open spec fn chunk_applied(pre: SmtpState, post: SmtpState, bytes: Vec<u8>, r: Option<PendingCall>) -> bool {
    if pre.transaction.sink_open {
        &&& post.session == pre.session
        &&& post.transaction == pre.transaction
        &&& post.writes == pre.writes
        &&& post.awaiting == Some(Awaiting::WriteMailBody)
        &&& r == Some(PendingCall::WriteMailBody(bytes))
    } else {
        post == pre && r is None
    }
}

/// The end of mail data: the open sink is closed; where none is open the
/// transaction is dropped with a processing error.
pub open spec fn end_applied(pre: SmtpState, post: SmtpState, r: Option<PendingCall>) -> bool {
    if pre.transaction.sink_open {
        &&& post.session == pre.session
        &&& post.transaction == pre.transaction
        &&& post.writes == pre.writes
        &&& post.awaiting == Some(Awaiting::CloseMailBody)
        &&& r == Some(PendingCall::CloseMailBody)
    } else {
        reset_and_said(pre, post, WriteControl::Reply(SmtpReply::ProcesingError)) && r is None
    }
}

/// What an inbound event does to the state.
pub open spec fn control_applied(pre: SmtpState, post: SmtpState, ctl: ReadControl, r: Option<PendingCall>) -> bool {
    match ctl {
        ReadControl::PeerConnected(session) => {
            &&& post.session == session
            &&& post.transaction.is_empty_spec()
            &&& post.awaiting == pre.awaiting
            &&& said_one(pre, post)
            &&& post.writes@.last() matches WriteControl::Reply(SmtpReply::ServiceReadyInfo(n))
                && n == session.service_name
            &&& r is None
        },
        ReadControl::PeerShutdown => closed(pre, post) && r is None,
        ReadControl::Raw(_) => only_said(pre, post, WriteControl::Reply(SmtpReply::CommandSyntaxFailure)) && r is None,
        ReadControl::Command(cmd, _) => command_applied(pre, post, cmd, r),
        ReadControl::MailDataChunk(bytes) => chunk_applied(pre, post, bytes, r),
        ReadControl::EndOfMailData(_) => end_applied(pre, post, r),
        ReadControl::Empty(_) => post == pre && r is None,
        ReadControl::EscapeDot(_) => post == pre && r is None,
    }
}

/// The guard's answer to MAIL.
pub open spec fn mail_started(pre: SmtpState, post: SmtpState, res: StartMailResult) -> bool {
    &&& post.session == pre.session
    &&& post.awaiting is None
    &&& match res {
        StartMailResult::Accepted(t) => {
            &&& post.transaction.mail == t.mail
            &&& post.transaction.rcpts == t.rcpts
            &&& post.transaction.extra_headers == t.extra_headers
            &&& post.transaction.sink_open == t.sink_open
            &&& t.id@.len() > 0 ==> post.transaction.id == t.id
            &&& t.id@.len() == 0 ==> post.transaction.id@.len() == 36
            &&& said(pre, post, WriteControl::Reply(SmtpReply::OkInfo))
        },
        StartMailResult::Failed(f, d) => {
            &&& post.transaction.is_empty_spec()
            &&& f == StartMailFailure::TerminateSession ==> said(
                pre,
                post,
                WriteControl::Shutdown(SmtpReply::ServiceNotAvailableError(d)),
            )
            &&& f != StartMailFailure::TerminateSession ==> said(
                pre,
                post,
                WriteControl::Reply(mail_failure_reply(f)),
            )
        },
    }
}

/// The guard's answer to RCPT: only an accepted path joins the recipients.
pub open spec fn recipient_checked(pre: SmtpState, post: SmtpState, res: AddRecipientResult) -> bool {
    &&& post.session == pre.session
    &&& post.awaiting is None
    &&& match res {
        AddRecipientResult::Accepted(p) => {
            &&& post.transaction == Transaction { rcpts: post.transaction.rcpts, ..pre.transaction }
            &&& post.transaction.rcpts@ == pre.transaction.rcpts@.push(p)
            &&& said(pre, post, WriteControl::Reply(SmtpReply::OkInfo))
        },
        AddRecipientResult::Inconclusive(_) => {
            &&& post.transaction == pre.transaction
            &&& said(pre, post, WriteControl::Reply(SmtpReply::MailboxNotAvailableError))
        },
        AddRecipientResult::Rejected => {
            &&& post.transaction == pre.transaction
            &&& said(pre, post, WriteControl::Reply(SmtpReply::MailboxNotAvailableFailure))
        },
        AddRecipientResult::RejectedWithNewPath(p) => {
            &&& post.transaction == pre.transaction
            &&& said_one(pre, post)
            &&& post.writes@.last() matches WriteControl::Reply(SmtpReply::UserNotLocalFailure(a))
                && a@ == p.address_spec()
        },
    }
}

/// The dispatch's answer to the request for a sink.
pub open spec fn body_opened(pre: SmtpState, post: SmtpState, res: Result<(), DispatchError>) -> bool {
    &&& post.session == pre.session
    &&& post.awaiting is None
    &&& match res {
        Ok(()) => {
            &&& post.transaction == Transaction { sink_open: true, ..pre.transaction }
            &&& said(pre, post, WriteControl::StartData(SmtpReply::StartMailInputChallenge))
        },
        Err(e) => {
            &&& post.transaction == pre.transaction
            &&& said(pre, post, WriteControl::Reply(dispatch_failure_reply(e)))
        },
    }
}

/// The sink's answer to written data: a failed sink is given up.
pub open spec fn body_written(pre: SmtpState, post: SmtpState, res: Result<(), DispatchError>) -> bool {
    &&& post.session == pre.session
    &&& post.awaiting is None
    &&& post.writes == pre.writes
    &&& match res {
        Ok(()) => post.transaction == pre.transaction,
        Err(_) => post.transaction == Transaction { sink_open: false, ..pre.transaction },
    }
}

/// The sink's answer to its close: the final disposition; the transaction ends.
pub open spec fn body_closed(pre: SmtpState, post: SmtpState, res: Result<(), DispatchError>) -> bool {
    &&& post.session == pre.session
    &&& post.awaiting is None
    &&& post.transaction.is_empty_spec()
    &&& match res {
        Ok(()) => said(pre, post, WriteControl::Reply(SmtpReply::OkInfo)),
        Err(e) => said(pre, post, WriteControl::Reply(dispatch_failure_reply(e))),
    }
}

/// What an outcome does to the state: nothing unless it answers the call
/// awaited.
pub open spec fn resumed(pre: SmtpState, post: SmtpState, outcome: CallOutcome) -> bool {
    if pre.awaiting != Some(outcome.answers()) {
        post == pre
    } else {
        match outcome {
            CallOutcome::MailStarted(res) => mail_started(pre, post, res),
            CallOutcome::RecipientChecked(res) => recipient_checked(pre, post, res),
            CallOutcome::BodyOpened(res) => body_opened(pre, post, res),
            CallOutcome::BodyWritten(res) => body_written(pre, post, res),
            CallOutcome::BodyClosed(res) => body_closed(pre, post, res),
        }
    }
}

impl SmtpState {
    /// Well-formed: no sender without a greeting, and a sender is only
    /// awaited from the guard after a greeting.
    pub open spec fn wf(&self) -> bool {
        &&& self.session.smtp_helo is None ==> self.transaction.mail is None
        &&& self.awaiting == Some(Awaiting::StartMail) ==> self.session.smtp_helo is Some
    }

    /// A state for the given session, with an empty transaction.
    pub fn new(session: SessionInfo) -> (r: SmtpState)
        ensures
            r.wf(),
            r.session == session,
            r.transaction.is_empty_spec(),
            r.awaiting is None,
            r.writes@.len() == 0,
    {
        SmtpState { session, transaction: Transaction::new(), awaiting: None, writes: Vec::new() }
    }

    pub fn session(&self) -> (r: &SessionInfo)
        ensures
            *r == self.session,
    {
        &self.session
    }

    pub fn transaction(&self) -> (r: &Transaction)
        ensures
            *r == self.transaction,
    {
        &self.transaction
    }

    /// Queues a reply.
    pub fn say(&mut self, w: WriteControl)
        ensures
            only_said(*old(self), *final(self), w),
            said_one(*old(self), *final(self)),
            final(self).writes@.last() == w,
    {
        self.writes.push(w);
        assert(self.writes@.drop_last() =~= old(self).writes@);
    }

    /// Takes the first queued reply.
    pub fn pop(&mut self) -> (r: Option<WriteControl>)
        ensures
            old(self).writes@.len() == 0 ==> r is None && *final(self) == *old(self),
            old(self).writes@.len() > 0 ==> r == Some(old(self).writes@[0])
                && final(self).writes@ == old(self).writes@.drop_first()
                && final(self).session == old(self).session
                && final(self).transaction == old(self).transaction
                && final(self).awaiting == old(self).awaiting,
    {
        if self.writes.len() == 0 {
            None
        } else {
            Some(self.writes.remove(0))
        }
    }

    fn reset(&mut self)
        ensures
            final(self).transaction.is_empty_spec(),
            final(self).session == old(self).session,
            final(self).writes == old(self).writes,
            final(self).awaiting == old(self).awaiting,
    {
        self.transaction = Transaction::new();
    }

    /// Applies HELO, EHLO or LHLO.
    pub fn helo(&mut self, helo: SmtpHelo)
        ensures
            helo_applied(*old(self), *final(self), helo),
    {
        let local = self.session.service_name.clone();
        let remote = helo.host().to_string();
        let peer = helo.host().to_string();
        let extended = helo.is_extended();
        self.reset();
        self.session.peer_name = Some(peer);
        if extended {
            let extensions = self.session.extensions.to_vec();
            self.session.smtp_helo = Some(helo);
            self.say(WriteControl::Reply(SmtpReply::OkEhloInfo { local, remote, extensions }));
        } else {
            self.session.smtp_helo = Some(helo);
            self.say(WriteControl::Reply(SmtpReply::OkHeloInfo { local, remote }));
        }
    }

    /// Applies MAIL and its relatives.
    pub fn mail(&mut self, mail: SmtpMail) -> (r: Option<PendingCall>)
        ensures
            mail_applied(*old(self), *final(self), mail, r),
    {
        if self.session.smtp_helo.is_none() {
            self.say(WriteControl::Reply(SmtpReply::CommandSequenceFailure));
            None
        } else {
            self.reset();
            self.transaction.mail = Some(mail);
            self.awaiting = Some(Awaiting::StartMail);
            Some(PendingCall::StartMail)
        }
    }

    /// Applies RCPT.
    pub fn rcpt(&mut self, path: SmtpPath) -> (r: Option<PendingCall>)
        ensures
            rcpt_applied(*old(self), *final(self), path, r),
    {
        if self.transaction.mail.is_none() {
            self.say(WriteControl::Reply(SmtpReply::CommandSequenceFailure));
            None
        } else {
            self.awaiting = Some(Awaiting::AddRecipient);
            Some(PendingCall::AddRecipient(path))
        }
    }

    /// Applies DATA.
    pub fn data(&mut self) -> (r: Option<PendingCall>)
        ensures
            data_applied(*old(self), *final(self), r),
    {
        if self.transaction.mail.is_none() {
            self.say(WriteControl::Reply(SmtpReply::CommandSequenceFailure));
            None
        } else if self.transaction.rcpts.len() == 0 {
            self.say(WriteControl::Reply(SmtpReply::NoValidRecipientsFailure));
            None
        } else {
            self.awaiting = Some(Awaiting::OpenMailBody);
            Some(PendingCall::OpenMailBody)
        }
    }

    /// Applies RSET.
    pub fn rset(&mut self)
        ensures
            reset_and_said(*old(self), *final(self), WriteControl::Reply(SmtpReply::OkInfo)),
    {
        self.reset();
        self.say(WriteControl::Reply(SmtpReply::OkInfo));
    }

    /// Applies QUIT, or the peer's shutdown.
    pub fn quit(&mut self)
        ensures
            closed(*old(self), *final(self)),
    {
        let name = self.session.service_name.clone();
        self.reset();
        self.say(WriteControl::Shutdown(SmtpReply::ClosingConnectionInfo(name)));
    }

    /// Applies STARTTLS.
    pub fn start_tls(&mut self)
        ensures
            starttls_applied(*old(self), *final(self)),
    {
        if self.session.connection.encrypted || !self.session.extensions.is_enabled(
            SmtpExtension::StartTls,
        ) {
            self.say(WriteControl::Reply(SmtpReply::TlsNotAvailableError));
        } else {
            self.reset();
            self.session.smtp_helo = None;
            self.session.peer_name = None;
            self.session.connection.encrypted = true;
            self.session.extensions.disable(SmtpExtension::StartTls);
            self.say(WriteControl::StartTls(SmtpReply::StartTlsReadyInfo));
        }
    }

    /// Applies a command.
    pub fn apply_command(&mut self, cmd: SmtpCommand) -> (r: Option<PendingCall>)
        ensures
            command_applied(*old(self), *final(self), cmd, r),
    {
        match cmd {
            SmtpCommand::Helo(helo) => {
                self.helo(helo);
                None
            },
            SmtpCommand::Mail(mail) => self.mail(mail),
            SmtpCommand::Rcpt(path) => self.rcpt(path),
            SmtpCommand::Data => self.data(),
            SmtpCommand::Rset => {
                self.rset();
                None
            },
            SmtpCommand::Noop(_) => {
                self.say(WriteControl::Reply(SmtpReply::OkInfo));
                None
            },
            SmtpCommand::Quit => {
                self.quit();
                None
            },
            SmtpCommand::StartTls => {
                self.start_tls();
                None
            },
            _ => {
                self.say(WriteControl::Reply(SmtpReply::CommandNotImplementedFailure));
                None
            },
        }
    }

    /// Applies an inbound event.
    pub fn apply_control(&mut self, ctl: ReadControl) -> (r: Option<PendingCall>)
        ensures
            control_applied(*old(self), *final(self), ctl, r),
    {
        match ctl {
            ReadControl::PeerConnected(session) => {
                let name = session.service_name.clone();
                self.session = session;
                self.reset();
                self.say(WriteControl::Reply(SmtpReply::ServiceReadyInfo(name)));
                None
            },
            ReadControl::PeerShutdown => {
                self.quit();
                None
            },
            ReadControl::Raw(_) => {
                self.say(WriteControl::Reply(SmtpReply::CommandSyntaxFailure));
                None
            },
            ReadControl::Command(cmd, _) => self.apply_command(cmd),
            ReadControl::MailDataChunk(bytes) => {
                if self.transaction.sink_open {
                    self.awaiting = Some(Awaiting::WriteMailBody);
                    Some(PendingCall::WriteMailBody(bytes))
                } else {
                    None
                }
            },
            ReadControl::EndOfMailData(_) => {
                if self.transaction.sink_open {
                    self.awaiting = Some(Awaiting::CloseMailBody);
                    Some(PendingCall::CloseMailBody)
                } else {
                    self.reset();
                    self.say(WriteControl::Reply(SmtpReply::ProcesingError));
                    None
                }
            },
            ReadControl::Empty(_) => None,
            ReadControl::EscapeDot(_) => None,
        }
    }

    /// Takes the outcome of the awaited collaborator call; an outcome that
    /// answers another call is ignored.
    pub fn resume(&mut self, outcome: CallOutcome)
        ensures
            resumed(*old(self), *final(self), outcome),
    {
        let matches_call = match (&self.awaiting, &outcome) {
            (Some(Awaiting::StartMail), CallOutcome::MailStarted(_)) => true,
            (Some(Awaiting::AddRecipient), CallOutcome::RecipientChecked(_)) => true,
            (Some(Awaiting::OpenMailBody), CallOutcome::BodyOpened(_)) => true,
            (Some(Awaiting::WriteMailBody), CallOutcome::BodyWritten(_)) => true,
            (Some(Awaiting::CloseMailBody), CallOutcome::BodyClosed(_)) => true,
            _ => false,
        };
        if !matches_call {
            return ;
        }
        self.awaiting = None;
        match outcome {
            CallOutcome::MailStarted(StartMailResult::Accepted(t)) => {
                let mut t = t;
                if t.id.as_str().is_empty() {
                    t.id = new_mail_id();
                }
                self.transaction = t;
                self.say(WriteControl::Reply(SmtpReply::OkInfo));
            },
            CallOutcome::MailStarted(StartMailResult::Failed(f, d)) => {
                self.reset();
                if f == StartMailFailure::TerminateSession {
                    self.say(WriteControl::Shutdown(SmtpReply::ServiceNotAvailableError(d)));
                } else {
                    let reply = mail_failure(f);
                    self.say(WriteControl::Reply(reply));
                }
            },
            CallOutcome::RecipientChecked(AddRecipientResult::Accepted(p)) => {
                self.transaction.rcpts.push(p);
                self.say(WriteControl::Reply(SmtpReply::OkInfo));
            },
            CallOutcome::RecipientChecked(AddRecipientResult::Inconclusive(_)) => {
                self.say(WriteControl::Reply(SmtpReply::MailboxNotAvailableError));
            },
            CallOutcome::RecipientChecked(AddRecipientResult::Rejected) => {
                self.say(WriteControl::Reply(SmtpReply::MailboxNotAvailableFailure));
            },
            CallOutcome::RecipientChecked(AddRecipientResult::RejectedWithNewPath(p)) => {
                let a = p.address();
                self.say(WriteControl::Reply(SmtpReply::UserNotLocalFailure(a)));
            },
            CallOutcome::BodyOpened(Ok(())) => {
                self.transaction.sink_open = true;
                self.say(WriteControl::StartData(SmtpReply::StartMailInputChallenge));
            },
            CallOutcome::BodyOpened(Err(e)) => {
                let reply = dispatch_failure(e);
                self.say(WriteControl::Reply(reply));
            },
            CallOutcome::BodyWritten(Ok(())) => {},
            CallOutcome::BodyWritten(Err(_)) => {
                self.transaction.sink_open = false;
            },
            CallOutcome::BodyClosed(Ok(())) => {
                self.reset();
                self.say(WriteControl::Reply(SmtpReply::OkInfo));
            },
            CallOutcome::BodyClosed(Err(e)) => {
                self.reset();
                let reply = dispatch_failure(e);
                self.say(WriteControl::Reply(reply));
            },
        }
    }
}

} // verus!

verus! {

/// An inbound command or event that can be applied to the session state.
pub trait SmtpSessionCommand: Sized {
    /// The protocol verb word.
    spec fn command_verb(&self) -> Seq<char>;

    /// What applying the command does to the state, and the call it asks for.
    spec fn applied_to(&self, pre: SmtpState, post: SmtpState, r: Option<PendingCall>) -> bool;

    fn verb(&self) -> (r: &str)
        ensures
            r@ == self.command_verb(),
    ;

    fn apply(self, state: &mut SmtpState) -> (r: Option<PendingCall>)
        ensures
            self.applied_to(*old(state), *final(state), r),
    ;
}

impl SmtpSessionCommand for SmtpCommand {
    open spec fn command_verb(&self) -> Seq<char> {
        self.verb_spec()
    }

    open spec fn applied_to(&self, pre: SmtpState, post: SmtpState, r: Option<PendingCall>) -> bool {
        command_applied(pre, post, *self, r)
    }

    fn verb(&self) -> (r: &str) {
        SmtpCommand::verb(self)
    }

    fn apply(self, state: &mut SmtpState) -> (r: Option<PendingCall>) {
        state.apply_command(self)
    }
}

impl SmtpSessionCommand for SmtpHelo {
    open spec fn command_verb(&self) -> Seq<char> {
        self.verb_spec()
    }

    open spec fn applied_to(&self, pre: SmtpState, post: SmtpState, r: Option<PendingCall>) -> bool {
        helo_applied(pre, post, *self) && r is None
    }

    fn verb(&self) -> (r: &str) {
        SmtpHelo::verb(self)
    }

    fn apply(self, state: &mut SmtpState) -> (r: Option<PendingCall>) {
        state.helo(self);
        None
    }
}

impl SmtpSessionCommand for SmtpMail {
    open spec fn command_verb(&self) -> Seq<char> {
        self.verb_spec()
    }

    open spec fn applied_to(&self, pre: SmtpState, post: SmtpState, r: Option<PendingCall>) -> bool {
        mail_applied(pre, post, *self, r)
    }

    fn verb(&self) -> (r: &str) {
        SmtpMail::verb(self)
    }

    fn apply(self, state: &mut SmtpState) -> (r: Option<PendingCall>) {
        state.mail(self)
    }
}

impl SmtpSessionCommand for ReadControl {
    open spec fn command_verb(&self) -> Seq<char> {
        match self {
            ReadControl::Command(cmd, _) => cmd.verb_spec(),
            ReadControl::EndOfMailData(_) => "."@,
            _ => Seq::empty(),
        }
    }

    open spec fn applied_to(&self, pre: SmtpState, post: SmtpState, r: Option<PendingCall>) -> bool {
        control_applied(pre, post, *self, r)
    }

    fn verb(&self) -> (r: &str) {
        proof {
            reveal_strlit("");
        }
        match self {
            ReadControl::Command(cmd, _) => cmd.verb(),
            ReadControl::EndOfMailData(_) => ".",
            _ => "",
        }
    }

    fn apply(self, state: &mut SmtpState) -> (r: Option<PendingCall>) {
        state.apply_control(self)
    }
}

} // verus!
