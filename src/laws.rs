//! Laws of the session state machine, the TLS stream and the connection slot,
//! stated over the contracts of the functions they relate.
use vstd::prelude::*;
use crate::command::{SmtpCommand, SmtpHelo, SmtpMail};
use crate::machine::{control_applied, command_applied, resumed, CallOutcome, helo_applied, starttls_applied, PendingCall, SmtpState};
use crate::reply::{ReadControl, SmtpReply, WriteControl};
use crate::session::SmtpExtension;
use crate::tls::{encrypt_spec, handshake_done_spec, NetworkStream, TlsError};
use crate::transport::{count_send_spec, ConnectionSlot, SendPlan};

verus! {

/// MAIL before any greeting always yields a command-sequence failure and
/// leaves no sender in the transaction, which it leaves as it was.
pub proof fn lemma_mail_needs_greeting(pre: SmtpState, post: SmtpState, mail: SmtpMail, r: Option<PendingCall>)
    requires
        pre.wf(),
        pre.session.smtp_helo is None,
        command_applied(pre, post, SmtpCommand::Mail(mail), r),
    ensures
        post.writes@ == pre.writes@.push(WriteControl::Reply(SmtpReply::CommandSequenceFailure)),
        post.transaction == pre.transaction,
        post.transaction.mail is None,
        r is None,
{
}

/// An event applied while no call is awaited keeps the state well-formed.
pub proof fn lemma_control_keeps_wf(pre: SmtpState, post: SmtpState, ctl: ReadControl, r: Option<PendingCall>)
    requires
        pre.wf(),
        pre.awaiting is None,
        control_applied(pre, post, ctl, r),
    ensures
        post.wf(),
{
}

/// An outcome of a collaborator call keeps the state well-formed.
pub proof fn lemma_resume_keeps_wf(pre: SmtpState, post: SmtpState, outcome: CallOutcome)
    requires
        pre.wf(),
        resumed(pre, post, outcome),
    ensures
        post.wf(),
{
}

/// RSET always leaves an empty transaction: no id, no sender, no recipients,
/// no extra headers; the session is untouched.
pub proof fn lemma_rset_empties_transaction(pre: SmtpState, post: SmtpState, r: Option<PendingCall>)
    requires
        command_applied(pre, post, SmtpCommand::Rset, r),
    ensures
        post.transaction.id@.len() == 0,
        post.transaction.mail is None,
        post.transaction.rcpts@.len() == 0,
        post.transaction.extra_headers@.len() == 0,
        post.session == pre.session,
        post.writes@ == pre.writes@.push(WriteControl::Reply(SmtpReply::OkInfo)),
{
}

/// A greeting always resets the transaction in flight, whatever it held.
pub proof fn lemma_greeting_resets_transaction(pre: SmtpState, post: SmtpState, helo: SmtpHelo, r: Option<PendingCall>)
    requires
        command_applied(pre, post, SmtpCommand::Helo(helo), r),
    ensures
        post.transaction.is_empty_spec(),
        post.session.smtp_helo == Some(helo),
{
}

/// EHLO and LHLO list exactly the enabled extensions, in their order; HELO
/// lists none.
pub proof fn lemma_greeting_lists_extensions(pre: SmtpState, post: SmtpState, helo: SmtpHelo)
    requires
        helo_applied(pre, post, helo),
    ensures
        helo.is_extended_spec() ==> (post.writes@.last() matches WriteControl::Reply(
            SmtpReply::OkEhloInfo { extensions, .. },
        ) && extensions@ == pre.session.extensions@),
        !helo.is_extended_spec() ==> (post.writes@.last() matches WriteControl::Reply(
            SmtpReply::OkHeloInfo { .. },
        )),
{
}

/// Two extended greetings in a row list the same extensions in the same
/// order.
pub proof fn lemma_extension_order_is_stable(
    s0: SmtpState,
    s1: SmtpState,
    s2: SmtpState,
    first: SmtpHelo,
    second: SmtpHelo,
)
    requires
        first.is_extended_spec(),
        second.is_extended_spec(),
        helo_applied(s0, s1, first),
        helo_applied(s1, s2, second),
    ensures
        s1.writes@.last() matches WriteControl::Reply(SmtpReply::OkEhloInfo { extensions: a, .. })
            && s2.writes@.last() matches WriteControl::Reply(
            SmtpReply::OkEhloInfo { extensions: b, .. },
        ) && a@ == b@,
{
}

/// An event that asks for a collaborator call queues no reply and leaves
/// that call awaited: the next event waits for its outcome.
pub proof fn lemma_one_call_in_flight(pre: SmtpState, post: SmtpState, ctl: ReadControl, call: PendingCall)
    requires
        control_applied(pre, post, ctl, Some(call)),
    ensures
        post.awaiting == Some(call.kind()),
        post.writes == pre.writes,
        post.session == pre.session,
{
}

/// After a finished handshake the stream is encrypted and cannot be upgraded
/// again.
pub proof fn lemma_handshake_encrypts<S, E, U, H>(
    s0: NetworkStream<S, E, U, H>,
    s1: NetworkStream<S, E, U, H>,
    s2: NetworkStream<S, E, U, H>,
    r1: Result<(), TlsError>,
    e: E,
    r2: Result<(), E>,
)
    requires
        encrypt_spec(s0, s1, r1),
        r1 is Ok,
        handshake_done_spec(s1, s2, e, r2),
    ensures
        r2 is Ok,
        s2.is_encrypted_spec(),
        !(s2.state is Plain),
{
}

/// Once STARTTLS is accepted, the session no longer offers it: a later EHLO
/// does not list it and a second STARTTLS is refused.
pub proof fn lemma_starttls_not_offered_twice(
    s0: SmtpState,
    s1: SmtpState,
    s2: SmtpState,
    s3: SmtpState,
    helo: SmtpHelo,
)
    requires
        starttls_applied(s0, s1),
        s1.writes@.last() is StartTls,
        helo_applied(s1, s2, helo),
        starttls_applied(s2, s3),
    ensures
        s1.session.connection.encrypted,
        helo.is_extended_spec() ==> (s2.writes@.last() matches WriteControl::Reply(
            SmtpReply::OkEhloInfo { extensions, .. },
        ) && !extensions@.contains(SmtpExtension::StartTls)),
        s3.writes@ == s2.writes@.push(WriteControl::Reply(SmtpReply::TlsNotAvailableError)),
{
    if !(s0.session.connection.encrypted || !s0.session.extensions@.contains(SmtpExtension::StartTls)) {
        let p = |e: SmtpExtension| e != SmtpExtension::StartTls;
        if s1.session.extensions@.contains(SmtpExtension::StartTls) {
            s0.session.extensions@.lemma_filter_contains_rev(p, SmtpExtension::StartTls);
        }
    }
}

/// `encrypt` twice in a row fails the second time with an invalid-state
/// error, and the failed call changes nothing.
pub proof fn lemma_encrypt_twice_fails<S, E, U, H>(
    s0: NetworkStream<S, E, U, H>,
    s1: NetworkStream<S, E, U, H>,
    s2: NetworkStream<S, E, U, H>,
    r1: Result<(), TlsError>,
    r2: Result<(), TlsError>,
)
    requires
        encrypt_spec(s0, s1, r1),
        encrypt_spec(s1, s2, r2),
    ensures
        r2 == Err::<(), TlsError>(TlsError::InvalidState),
        s2 == s1,
{
}

/// With a countdown of two, three sends in a row (each released before the
/// next) reuse the connection twice and reconnect exactly once, on the third.
pub proof fn lemma_reuse_countdown<S>(
    s0: ConnectionSlot<S>,
    s1: ConnectionSlot<S>,
    s2: ConnectionSlot<S>,
    c1: bool,
    c2: bool,
)
    requires
        s0.reuse_spec() == Some(2u16),
        !s0.leased,
        count_send_spec(s0, None, s1, c1),
        count_send_spec(s1, None, s2, c2),
    ensures
        s0.next_plan() == SendPlan::Reuse,
        s1.next_plan() == SendPlan::Reuse,
        s2.next_plan() == SendPlan::Reconnect,
{
}

} // verus!
