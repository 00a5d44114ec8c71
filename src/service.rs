//! Reference services: the default mail service, the session logger, the
//! 8BITMIME switch, the maildir settings and the sendmail transport.
use vstd::prelude::*;
use vstd::string::*;
use crate::command::SmtpPath;
use crate::mail::{new_mail_id, AddRecipientResult, DispatchError, Envelope, StartMailResult};
use crate::machine::SmtpState;
use crate::driver::{SessionService, StatefulSession};
use crate::session::{SessionInfo, SmtpExtension, Transaction};

verus! {

/// Adjusts a new session, for instance by enabling extensions. An extension
/// once enabled stays enabled.
pub trait EsmtpService {
    fn prepare_session(&self, session: &mut SessionInfo)
        ensures
            forall|e: SmtpExtension| #[trigger] old(session).extensions@.contains(e)
                ==> final(session).extensions@.contains(e),
    ;
}

/// The reference mail service: it accepts every sender and recipient and
/// takes a mail where its envelope is complete.
#[derive(Clone, Debug)]
pub struct DefaultMailService;

/// The data sink of a mail taken by [`DefaultMailService`].
#[derive(Clone, Debug, PartialEq, Eq)]
pub struct MailSink {
    pub id: String,
}

/// The envelope names a peer, a local end, a greeting, a sender and at least
/// one recipient.
pub open spec fn envelope_complete(e: Envelope) -> bool {
    &&& e.peer is Some
    &&& e.local is Some
    &&& e.helo is Some
    &&& e.mail is Some
    &&& e.rcpts@.len() > 0
}

/// The guard's acceptance of `t`, with an id assigned where it had none.
pub open spec fn accepted_with_id(t: Transaction, r: StartMailResult) -> bool {
    r matches StartMailResult::Accepted(u) && u.mail == t.mail && u.rcpts == t.rcpts
        && u.extra_headers == t.extra_headers && u.sink_open == t.sink_open && (t.id@.len() > 0
        ==> u.id == t.id) && (t.id@.len() == 0 ==> u.id@.len() == 36)
}

impl DefaultMailService {
    pub fn name(&self) -> (r: &'static str)
        ensures
            r@ == "samotop"@,
    {
        "samotop"
    }

    /// Enables 8BITMIME.
    pub fn prepare_session(&self, session: &mut SessionInfo)
        ensures
            final(session).extensions@ == if old(session).extensions@.contains(
                SmtpExtension::EightBitMime,
            ) {
                old(session).extensions@
            } else {
                old(session).extensions@.push(SmtpExtension::EightBitMime)
            },
            final(session).connection == old(session).connection,
            final(session).service_name == old(session).service_name,
            final(session).smtp_helo == old(session).smtp_helo,
            final(session).peer_name == old(session).peer_name,
    {
        session.extensions.enable(SmtpExtension::EightBitMime);
    }

    /// Accepts every recipient.
    pub fn add_recipient(&self, rcpt: SmtpPath) -> (r: AddRecipientResult)
        ensures
            r == AddRecipientResult::Accepted(rcpt),
    {
        AddRecipientResult::Accepted(rcpt)
    }

    /// Accepts every sender, giving the transaction a fresh id if it has none.
    pub fn start_mail(&self, transaction: Transaction) -> (r: StartMailResult)
        ensures
            accepted_with_id(transaction, r),
    {
        let mut t = transaction;
        if t.id.as_str().is_empty() {
            t.id = new_mail_id();
        }
        StartMailResult::Accepted(t)
    }

    /// Takes a mail with a complete envelope.
    pub fn mail(&self, envelope: Envelope) -> (r: Option<MailSink>)
        ensures
            r is Some <==> envelope_complete(envelope),
            r matches Some(sink) ==> sink.id == envelope.id,
    {
        if envelope.peer.is_some() && envelope.local.is_some() && envelope.helo.is_some()
            && envelope.mail.is_some() && envelope.rcpts.len() != 0 {
            Some(MailSink { id: envelope.id })
        } else {
            None
        }
    }
}

impl EsmtpService for DefaultMailService {
    fn prepare_session(&self, session: &mut SessionInfo) {
        DefaultMailService::prepare_session(self, session)
    }
}

/// Wraps a service and enables 8BITMIME after it.
#[derive(Clone, Debug)]
pub struct EnableEightBit<T>(pub T);

impl<T: EsmtpService> EnableEightBit<T> {
    pub fn prepare_session(&self, session: &mut SessionInfo)
        ensures
            final(session).extensions@.contains(SmtpExtension::EightBitMime),
            forall|e: SmtpExtension| #[trigger] old(session).extensions@.contains(e)
                ==> final(session).extensions@.contains(e),
    {
        self.0.prepare_session(session);
        let ghost mid = session.extensions@;
        session.extensions.enable(SmtpExtension::EightBitMime);
        assert forall|e: SmtpExtension| mid.contains(e) implies session.extensions@.contains(e) by {
            if !(session.extensions@ == mid) {
                let k = choose|k: int| 0 <= k < mid.len() && mid[k] == e;
                assert(session.extensions@[k] == e);
            }
        }
    }
}

impl<T: EsmtpService> EsmtpService for EnableEightBit<T> {
    fn prepare_session(&self, session: &mut SessionInfo) {
        EnableEightBit::prepare_session(self, session)
    }
}

/// A guard and dispatch that decide nothing: recipients stay inconclusive,
/// senders and mail bodies are let through.
#[derive(Clone, Debug, Default)]
pub struct SessionLogger;

impl SessionLogger {
    pub fn add_recipient(&self, rcpt: SmtpPath) -> (r: AddRecipientResult)
        ensures
            r == AddRecipientResult::Inconclusive(rcpt),
    {
        AddRecipientResult::Inconclusive(rcpt)
    }

    pub fn start_mail(&self, transaction: Transaction) -> (r: StartMailResult)
        ensures
            r == StartMailResult::Accepted(transaction),
    {
        StartMailResult::Accepted(transaction)
    }

    pub fn open_mail_body(&self, state: &SmtpState) -> (r: Result<(), DispatchError>)
        ensures
            r is Ok,
    {
        Ok(())
    }
}

/// Settings of a service that writes each mail to a file in a directory.
#[derive(Clone, Debug)]
pub struct Config<D> {
    pub dir: D,
}

impl<D> Config<D> {
    pub fn new(dir: D) -> (r: Self)
        ensures
            r.dir == dir,
    {
        Config { dir }
    }

    /// The mail service of these settings: 8BITMIME enabled after `extend`,
    /// mail written to the directory before `dispatch`.
    pub fn setup<ES, DS>(self, extend: ES, dispatch: DS) -> (r: (EnableEightBit<ES>, SimpleDirMail<D, DS>))
        ensures
            r.0.0 == extend,
            r.1.dir == self.dir,
            r.1.inner == dispatch,
    {
        (EnableEightBit(extend), SimpleDirMail::new(self.dir, dispatch))
    }
}

/// A dispatch that writes each mail to a file in a directory.
#[derive(Clone, Debug)]
pub struct SimpleDirMail<D, S> {
    pub dir: D,
    pub inner: S,
}

impl<D, S> SimpleDirMail<D, S> {
    pub fn new(dir: D, inner: S) -> (r: Self)
        ensures
            r.dir == dir,
            r.inner == inner,
    {
        SimpleDirMail { dir, inner }
    }
}

/// Sends mail through a local sendmail command.
#[derive(Debug, Default)]
pub struct SendmailTransport {
    pub command: String,
}

/// The text of each string.
pub open spec fn string_views(v: Seq<String>) -> Seq<Seq<char>> {
    v.map_values(|s: String| s@)
}

/// The sendmail arguments: `-i -f <from> <to>...`, the sender `""` where
/// there is none.
pub open spec fn sendmail_args_spec(from: Option<Seq<char>>, to: Seq<Seq<char>>) -> Seq<Seq<char>> {
    seq!["-i"@, "-f"@, match from {
        Some(f) => f,
        None => "\"\""@,
    }] + to
}

impl SendmailTransport {
    /// A transport with the default `/usr/sbin/sendmail` command.
    pub fn new() -> (r: SendmailTransport)
        ensures
            r.command@ == "/usr/sbin/sendmail"@,
    {
        SendmailTransport { command: String::from_str("/usr/sbin/sendmail") }
    }

    /// A transport with the given sendmail command.
    pub fn new_with_command(command: String) -> (r: SendmailTransport)
        ensures
            r.command == command,
    {
        SendmailTransport { command }
    }

    /// The arguments of the command for a mail from `from` to `to`.
    pub fn arguments(&self, from: Option<String>, to: Vec<String>) -> (r: Vec<String>)
        ensures
            string_views(r@) == sendmail_args_spec(
                match from {
                    Some(f) => Some(f@),
                    None => None,
                },
                string_views(to@),
            ),
    {
        let ghost fv = match &from {
            Some(f) => Some(f@),
            None => None,
        };
        let mut r: Vec<String> = Vec::new();
        r.push(String::from_str("-i"));
        r.push(String::from_str("-f"));
        match from {
            Some(f) => r.push(f),
            None => r.push(String::from_str("\"\"")),
        }
        let ghost head = r@;
        let mut i: usize = 0;
        while i < to.len()
            invariant
                i <= to@.len(),
                r@.len() == 3 + i,
                r@.subrange(0, 3) == head,
                forall|j: int| 0 <= j < i ==> #[trigger] r@[3 + j] == to@[j],
            decreases to@.len() - i,
        {
            r.push(to[i].clone());
            i = i + 1;
        }
        assert(string_views(r@) =~= sendmail_args_spec(fv, string_views(to@))) by {
            assert(head[0]@ == "-i"@);
            assert(head[1]@ == "-f"@);
            assert(r@[0] == head[0]);
            assert(r@[1] == head[1]);
            assert(r@[2] == head[2]);
            assert forall|j: int| 3 <= j < r@.len() implies #[trigger] string_views(r@)[j]
                == sendmail_args_spec(fv, string_views(to@))[j] by {
                assert(r@[3 + (j - 3)] == to@[j - 3]);
            }
        }
        r
    }
}

} // verus!

verus! {

/// Serves sessions with a mail service: each new session offers PIPELINING,
/// then whatever the service adds.
#[derive(Clone, Debug)]
pub struct StatefulSessionService<S> {
    pub mail_service: S,
}

impl<S> StatefulSessionService<S> {
    pub fn new(mail_service: S) -> (r: Self)
        ensures
            r.mail_service == mail_service,
    {
        StatefulSessionService { mail_service }
    }
}

impl<S: EsmtpService> SessionService for StatefulSessionService<S> {
    /// A driver over a fresh state: empty transaction, nothing queued or
    /// awaited.
    fn start(&self, session: SessionInfo) -> (r: StatefulSession) {
        self.start_session(session)
    }
}

impl<S: EsmtpService> StatefulSessionService<S> {
    /// A driver over a fresh state for the session: PIPELINING is enabled
    /// before the service prepares the session.
    pub fn start_session(&self, session: SessionInfo) -> (r: StatefulSession)
        ensures
            r.state matches Some(st) && st.transaction.is_empty_spec() && st.writes@.len() == 0
                && st.awaiting is None && st.wf() && st.session.extensions@.contains(
                SmtpExtension::Pipelining,
            ) && (forall|e: SmtpExtension| #[trigger] session.extensions@.contains(e)
                ==> st.session.extensions@.contains(e)),
            !r.ending,
    {
        let ghost given = session.extensions@;
        let mut session = session;
        session.extensions.enable(SmtpExtension::Pipelining);
        proof {
            assert forall|e: SmtpExtension| given.contains(e) implies session.extensions@.contains(e) by {
                if !(session.extensions@ == given) {
                    let k = choose|k: int| 0 <= k < given.len() && given[k] == e;
                    assert(session.extensions@[k] == e);
                }
            }
        }
        let ghost before = session.extensions@;
        assert(before.contains(SmtpExtension::Pipelining));
        self.mail_service.prepare_session(&mut session);
        assert(session.extensions@.contains(SmtpExtension::Pipelining));
        assert forall|e: SmtpExtension| given.contains(e) implies session.extensions@.contains(e) by {
            assert(before.contains(e));
        }
        StatefulSession::new(SmtpState::new(session))
    }
}

} // verus!
