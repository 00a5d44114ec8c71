use samotop::command::{SmtpAddress, SmtpCommand, SmtpHelo, SmtpHost, SmtpMail, SmtpPath};
use samotop::machine::{CallOutcome, PendingCall, SmtpSessionCommand, SmtpState};
use samotop::mail::{AddRecipientResult, DispatchError, StartMailFailure, StartMailResult};
use samotop::reply::{ReadControl, SmtpReply, WriteControl};
use samotop::session::{ConnectionInfo, SessionInfo, SmtpExtension, Transaction};

fn domain(name: &str) -> SmtpHost {
    SmtpHost::Domain(name.to_owned())
}

fn mailbox(name: &str, host: &str) -> SmtpPath {
    SmtpPath::Direct(SmtpAddress::Mailbox(name.to_owned(), domain(host)))
}

fn state() -> SmtpState {
    SmtpState::new(SessionInfo::new(ConnectionInfo::default(), "mx.test".to_owned()))
}

fn greeted() -> SmtpState {
    let mut st = state();
    st.session.smtp_helo = Some(SmtpHelo::Helo(domain("xx.io")));
    st
}

fn dirty(st: &mut SmtpState) {
    st.transaction.id = "someid".to_owned();
    st.transaction.mail = Some(SmtpMail::Mail(SmtpPath::Null, vec![]));
    st.transaction.rcpts.push(SmtpPath::Null);
    st.transaction.extra_headers.insert_str(0, "feeeha");
}

fn all_replies(st: &mut SmtpState) -> Vec<WriteControl> {
    let mut out = vec![];
    while let Some(w) = st.pop() {
        out.push(w);
    }
    out
}

#[test]
fn helo_transaction_gets_reset() {
    let mut set = state();
    dirty(&mut set);
    let sut = SmtpHelo::Helo(domain("wex.xor.ro"));
    let r = sut.apply(&mut set);
    assert_eq!(r, None);
    assert!(set.transaction().is_empty());
}

#[test]
fn helo_is_set() {
    let mut set = state();
    let sut = SmtpHelo::Helo(domain("wex.xor.ro"));
    sut.apply(&mut set);
    assert_eq!(set.session().smtp_helo, Some(SmtpHelo::Helo(domain("wex.xor.ro"))));
    assert_eq!(set.session().peer_name, Some("wex.xor.ro".to_owned()));
}

#[test]
fn is_sync_and_send() {
    fn is_sync<T: Sync>(_subj: &T) {}
    fn is_send<T: Send>(_subj: &T) {}
    let sut = SmtpHelo::Helo(domain("wex.xor.ro"));
    let mut set = state();
    sut.apply(&mut set);
    is_sync(&set);
    is_send(&set);
}

#[test]
fn mail_transaction_gets_reset() {
    let mut set = greeted();
    dirty(&mut set);
    let sut = SmtpMail::Mail(SmtpPath::Postmaster, vec![]);
    let r = sut.apply(&mut set);
    assert_eq!(r, Some(PendingCall::StartMail));
    let t = set.transaction.clone();
    set.resume(CallOutcome::MailStarted(StartMailResult::Accepted(t)));
    assert_eq!(set.pop(), Some(WriteControl::Reply(SmtpReply::OkInfo)));
    assert_ne!(set.transaction().id, "someid");
    assert_eq!(set.transaction().id.len(), 36);
    assert!(set.transaction().rcpts.is_empty());
    assert!(set.transaction().extra_headers.is_empty());
}

#[test]
fn mail_is_set() {
    let mut set = greeted();
    let sut = SmtpMail::Mail(SmtpPath::Postmaster, vec![]);
    sut.apply(&mut set);
    let t = set.transaction.clone();
    set.resume(CallOutcome::MailStarted(StartMailResult::Accepted(t)));
    assert_eq!(set.pop(), Some(WriteControl::Reply(SmtpReply::OkInfo)));
    assert_eq!(set.transaction().mail, Some(SmtpMail::Mail(SmtpPath::Postmaster, vec![])));
}

#[test]
fn command_sequence_is_enforced() {
    // MAIL command requires HELO/EHLO
    let mut set = state();
    let sut = SmtpMail::Mail(SmtpPath::Postmaster, vec![]);
    let r = sut.apply(&mut set);
    assert_eq!(r, None);
    assert_eq!(set.pop(), Some(WriteControl::Reply(SmtpReply::CommandSequenceFailure)));
    assert_eq!(set.transaction().mail, None);
}

#[test]
fn mail_before_greeting_leaves_transaction() {
    let mut set = state();
    set.transaction.id = "someid".to_owned();
    set.transaction.rcpts.push(SmtpPath::Null);
    let before = set.transaction.clone();
    set.apply_command(SmtpCommand::Mail(SmtpMail::Send(mailbox("a", "a.test"), vec![])));
    assert_eq!(all_replies(&mut set), vec![WriteControl::Reply(SmtpReply::CommandSequenceFailure)]);
    assert_eq!(set.transaction, before);
    assert_eq!(set.transaction.mail, None);
    assert_eq!(set.awaiting, None);
}

#[test]
fn rset_empties_transaction() {
    let mut set = greeted();
    dirty(&mut set);
    set.transaction.sink_open = true;
    let r = set.apply_command(SmtpCommand::Rset);
    assert_eq!(r, None);
    assert_eq!(set.pop(), Some(WriteControl::Reply(SmtpReply::OkInfo)));
    assert!(set.transaction.is_empty());
    assert_eq!(set.transaction.id, "");
    assert_eq!(set.session.smtp_helo, Some(SmtpHelo::Helo(domain("xx.io"))));
}

#[test]
fn ehlo_lists_enabled_extensions_in_order() {
    let mut set = state();
    set.session.extensions.enable(SmtpExtension::Pipelining);
    set.session.extensions.enable(SmtpExtension::EightBitMime);
    set.apply_command(SmtpCommand::Helo(SmtpHelo::Ehlo(domain("a.test"))));
    set.apply_command(SmtpCommand::Helo(SmtpHelo::Ehlo(domain("a.test"))));
    let expected = WriteControl::Reply(SmtpReply::OkEhloInfo {
        local: "mx.test".to_owned(),
        remote: "a.test".to_owned(),
        extensions: vec![SmtpExtension::Pipelining, SmtpExtension::EightBitMime],
    });
    assert_eq!(all_replies(&mut set), vec![expected.clone(), expected]);
}

#[test]
fn helo_gives_no_extension_list() {
    let mut set = state();
    set.session.extensions.enable(SmtpExtension::Pipelining);
    set.apply_command(SmtpCommand::Helo(SmtpHelo::Helo(domain("a.test"))));
    assert_eq!(
        all_replies(&mut set),
        vec![WriteControl::Reply(SmtpReply::OkHeloInfo {
            local: "mx.test".to_owned(),
            remote: "a.test".to_owned(),
        })]
    );
}

#[test]
fn ehlo_reply_text() {
    let reply = SmtpReply::OkEhloInfo {
        local: "mx.test".to_owned(),
        remote: "a.test".to_owned(),
        extensions: vec![SmtpExtension::Pipelining, SmtpExtension::EightBitMime],
    };
    assert_eq!(
        reply.to_string(),
        "250-mx.test greets a.test\r\n250-PIPELINING\r\n250 8BITMIME\r\n"
    );
    let bare = SmtpReply::OkEhloInfo {
        local: "mx.test".to_owned(),
        remote: "a.test".to_owned(),
        extensions: vec![],
    };
    assert_eq!(bare.to_string(), "250 mx.test greets a.test\r\n");
    assert_eq!(SmtpReply::OkInfo.to_string(), "250 2.0.0 Ok\r\n");
    assert_eq!(SmtpReply::CommandSequenceFailure.code(), 503);
}

/// Runs the events through the state with a guard and dispatch that accept
/// everything but the recipients, which `rcpt` decides; returns the replies
/// and the transaction seen at the close of the sink.
fn run(
    events: Vec<ReadControl>,
    rcpt: fn(SmtpPath) -> AddRecipientResult,
) -> (Vec<WriteControl>, Option<Transaction>, SmtpState) {
    let mut st = state();
    let mut out = vec![];
    let mut committed = None;
    for ev in events {
        if let Some(call) = st.apply_control(ev) {
            let outcome = match call {
                PendingCall::StartMail => {
                    CallOutcome::MailStarted(StartMailResult::Accepted(st.transaction.clone()))
                }
                PendingCall::AddRecipient(p) => CallOutcome::RecipientChecked(rcpt(p)),
                PendingCall::OpenMailBody => CallOutcome::BodyOpened(Ok(())),
                PendingCall::WriteMailBody(_) => CallOutcome::BodyWritten(Ok(())),
                PendingCall::CloseMailBody => {
                    committed = Some(st.transaction.clone());
                    CallOutcome::BodyClosed(Ok(()))
                }
            };
            st.resume(outcome);
        }
        out.extend(all_replies(&mut st));
    }
    (out, committed, st)
}

fn mail_session() -> Vec<ReadControl> {
    vec![
        ReadControl::Command(SmtpCommand::Helo(SmtpHelo::Ehlo(domain("a.test"))), vec![]),
        ReadControl::Command(
            SmtpCommand::Mail(SmtpMail::Mail(mailbox("a", "a.test"), vec![])),
            vec![],
        ),
        ReadControl::Command(SmtpCommand::Rcpt(mailbox("b", "b.test")), vec![]),
        ReadControl::Command(SmtpCommand::Data, vec![]),
        ReadControl::MailDataChunk(b"Subject: hi\r\n\r\nbody\r\n".to_vec()),
        ReadControl::EndOfMailData(b".\r\n".to_vec()),
    ]
}

#[test]
fn accepted_mail_session() {
    let (replies, committed, st) = run(mail_session(), AddRecipientResult::Accepted);
    let codes: Vec<u16> = replies.iter().map(|w| w.reply().code()).collect();
    assert_eq!(codes, vec![250, 250, 250, 354, 250]);
    assert!(matches!(replies[0], WriteControl::Reply(SmtpReply::OkEhloInfo { .. })));
    assert!(matches!(replies[3], WriteControl::StartData(_)));
    let t = committed.expect("the sink was closed");
    assert_eq!(t.rcpts, vec![mailbox("b", "b.test")]);
    assert_eq!(t.mail, Some(SmtpMail::Mail(mailbox("a", "a.test"), vec![])));
    assert_eq!(t.id.len(), 36);
    assert!(st.transaction.is_empty());
}

#[test]
fn rejected_recipient_session() {
    let (replies, committed, _) = run(mail_session(), |_| AddRecipientResult::Rejected);
    let codes: Vec<u16> = replies.iter().map(|w| w.reply().code()).collect();
    assert_eq!(codes, vec![250, 250, 550, 554, 451]);
    assert_eq!(replies[2], WriteControl::Reply(SmtpReply::MailboxNotAvailableFailure));
    assert_eq!(replies[3], WriteControl::Reply(SmtpReply::NoValidRecipientsFailure));
    assert!(committed.is_none());
}

#[test]
fn recipient_outcomes() {
    let (replies, _, _) = run(mail_session()[..3].to_vec(), AddRecipientResult::Inconclusive);
    assert_eq!(replies[2], WriteControl::Reply(SmtpReply::MailboxNotAvailableError));
    let (replies, _, st) = run(mail_session()[..3].to_vec(), |_| {
        AddRecipientResult::RejectedWithNewPath(mailbox("c", "c.test"))
    });
    assert_eq!(
        replies[2],
        WriteControl::Reply(SmtpReply::UserNotLocalFailure("c@c.test".to_owned()))
    );
    assert!(st.transaction.rcpts.is_empty());
}

#[test]
fn rcpt_without_sender_fails() {
    let mut st = greeted();
    let r = st.apply_command(SmtpCommand::Rcpt(mailbox("b", "b.test")));
    assert_eq!(r, None);
    assert_eq!(st.pop(), Some(WriteControl::Reply(SmtpReply::CommandSequenceFailure)));
}

#[test]
fn data_without_sender_fails() {
    let mut st = greeted();
    assert_eq!(st.apply_command(SmtpCommand::Data), None);
    assert_eq!(st.pop(), Some(WriteControl::Reply(SmtpReply::CommandSequenceFailure)));
}

#[test]
fn sender_refusals() {
    let cases = vec![
        (StartMailFailure::Rejected, SmtpReply::MailboxNotAvailableFailure),
        (StartMailFailure::InvalidSender, SmtpReply::MailboxNameInvalidFailure),
        (StartMailFailure::InvalidParameter, SmtpReply::UnknownMailParametersFailure),
        (StartMailFailure::StorageExhausted, SmtpReply::StorageFailure),
        (StartMailFailure::FailedTemporarily, SmtpReply::ProcesingError),
    ];
    for (failure, reply) in cases {
        let mut st = greeted();
        st.apply_command(SmtpCommand::Mail(SmtpMail::Mail(SmtpPath::Null, vec![])));
        st.resume(CallOutcome::MailStarted(StartMailResult::Failed(failure, "no".to_owned())));
        assert_eq!(st.pop(), Some(WriteControl::Reply(reply)));
        assert_eq!(st.transaction.mail, None);
    }
    let mut st = greeted();
    st.apply_command(SmtpCommand::Mail(SmtpMail::Mail(SmtpPath::Null, vec![])));
    st.resume(CallOutcome::MailStarted(StartMailResult::Failed(
        StartMailFailure::TerminateSession,
        "bye".to_owned(),
    )));
    assert_eq!(
        st.pop(),
        Some(WriteControl::Shutdown(SmtpReply::ServiceNotAvailableError("bye".to_owned())))
    );
}

#[test]
fn dispatch_failures() {
    let mut st = greeted();
    st.apply_command(SmtpCommand::Mail(SmtpMail::Mail(SmtpPath::Null, vec![])));
    let t = st.transaction.clone();
    st.resume(CallOutcome::MailStarted(StartMailResult::Accepted(t)));
    st.apply_command(SmtpCommand::Rcpt(mailbox("b", "b.test")));
    st.resume(CallOutcome::RecipientChecked(AddRecipientResult::Accepted(mailbox("b", "b.test"))));
    all_replies(&mut st);
    st.apply_command(SmtpCommand::Data);
    st.resume(CallOutcome::BodyOpened(Err(DispatchError::FailedPermanently)));
    assert_eq!(st.pop(), Some(WriteControl::Reply(SmtpReply::TransactionFailure)));
    st.apply_command(SmtpCommand::Data);
    st.resume(CallOutcome::BodyOpened(Ok(())));
    assert_eq!(
        st.pop(),
        Some(WriteControl::StartData(SmtpReply::StartMailInputChallenge))
    );
    st.apply_control(ReadControl::EndOfMailData(vec![]));
    st.resume(CallOutcome::BodyClosed(Err(DispatchError::FailedTemporarily)));
    assert_eq!(st.pop(), Some(WriteControl::Reply(SmtpReply::ProcesingError)));
    assert!(st.transaction.is_empty());
}

#[test]
fn mismatched_outcome_is_ignored() {
    let mut st = greeted();
    st.resume(CallOutcome::BodyClosed(Ok(())));
    assert_eq!(st.pop(), None);
    assert_eq!(st.awaiting, None);
}

#[test]
fn unknown_and_invalid_commands() {
    let mut st = greeted();
    dirty(&mut st);
    let before = st.transaction.clone();
    st.apply_command(SmtpCommand::Expn("x".to_owned()));
    st.apply_command(SmtpCommand::Other("XYZZY".to_owned(), vec![]));
    st.apply_control(ReadControl::Raw(b"bad".to_vec()));
    st.apply_control(ReadControl::Empty(vec![]));
    st.apply_command(SmtpCommand::Noop(vec![]));
    assert_eq!(
        all_replies(&mut st),
        vec![
            WriteControl::Reply(SmtpReply::CommandNotImplementedFailure),
            WriteControl::Reply(SmtpReply::CommandNotImplementedFailure),
            WriteControl::Reply(SmtpReply::CommandSyntaxFailure),
            WriteControl::Reply(SmtpReply::OkInfo),
        ]
    );
    assert_eq!(st.transaction, before);
}

#[test]
fn quit_and_connect() {
    let mut st = state();
    let session = SessionInfo::new(ConnectionInfo::default(), "other".to_owned());
    st.apply_control(ReadControl::PeerConnected(session));
    st.apply_command(SmtpCommand::Quit);
    assert_eq!(
        all_replies(&mut st),
        vec![
            WriteControl::Reply(SmtpReply::ServiceReadyInfo("other".to_owned())),
            WriteControl::Shutdown(SmtpReply::ClosingConnectionInfo("other".to_owned())),
        ]
    );
}

#[test]
fn starttls_is_offered_once() {
    let mut st = state();
    st.session.extensions.enable(SmtpExtension::StartTls);
    st.session.extensions.enable(SmtpExtension::EightBitMime);
    st.apply_command(SmtpCommand::Helo(SmtpHelo::Ehlo(domain("a.test"))));
    st.apply_command(SmtpCommand::StartTls);
    assert_eq!(st.session.smtp_helo, None);
    assert!(st.session.connection.encrypted);
    st.apply_command(SmtpCommand::Mail(SmtpMail::Mail(SmtpPath::Null, vec![])));
    st.apply_command(SmtpCommand::Helo(SmtpHelo::Ehlo(domain("a.test"))));
    st.apply_command(SmtpCommand::StartTls);
    let replies = all_replies(&mut st);
    assert_eq!(replies[1], WriteControl::StartTls(SmtpReply::StartTlsReadyInfo));
    assert_eq!(replies[2], WriteControl::Reply(SmtpReply::CommandSequenceFailure));
    assert_eq!(
        replies[3],
        WriteControl::Reply(SmtpReply::OkEhloInfo {
            local: "mx.test".to_owned(),
            remote: "a.test".to_owned(),
            extensions: vec![SmtpExtension::EightBitMime],
        })
    );
    assert_eq!(replies[4], WriteControl::Reply(SmtpReply::TlsNotAvailableError));
}

#[test]
fn verbs() {
    assert_eq!(SmtpCommand::Rcpt(SmtpPath::Null).verb(), "RCPT");
    assert_eq!(SmtpCommand::Other("XYZZY".to_owned(), vec![]).verb(), "XYZZY");
    assert_eq!(SmtpHelo::Lhlo(domain("a")).verb(), "LHLO");
    assert_eq!(SmtpMail::Saml(SmtpPath::Null, vec![]).verb(), "SAML");
    assert!(!SmtpHelo::Helo(domain("a")).is_extended());
    assert!(SmtpHelo::Ehlo(domain("a")).is_extended());
}
