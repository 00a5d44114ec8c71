use samotop::driver::{ControlError, DriverAction, SessionService, StatefulSession};
use samotop::machine::{CallOutcome, PendingCall, SmtpState};
use samotop::reply::{ReadControl, SmtpReply, WriteControl};
use samotop::command::{SmtpCommand, SmtpHelo, SmtpHost, SmtpMail, SmtpPath};
use samotop::service::{DefaultMailService, StatefulSessionService};
use samotop::session::{ConnectionInfo, SessionInfo, SmtpExtension};
use samotop::tls::{host_of_address, NetworkStream, StartTls, TcpConnector, TlsError, TlsMode, TlsService, TlsState, TlsUpgrade};
use samotop::transport::{
    Error, Response,
    mail_parameters, new_connection, should_encrypt, ClientSecurity, ConnectionSlot, MailParameter,
    SendPlan, ServerExtension, ServerInfo, SmtpTransport,
};

#[derive(Debug, PartialEq)]
struct Upgrade(bool);

impl TlsUpgrade<u8, (u8, String)> for Upgrade {
    fn is_enabled(&self) -> bool {
        self.0
    }
    fn upgrade_to_tls(self, stream: u8, name: String) -> (u8, String) {
        (stream, name)
    }
}

type Stream = NetworkStream<u8, u16, Upgrade, (u8, String)>;

fn plain(enabled: bool) -> Stream {
    NetworkStream::new(7, Upgrade(enabled), "mx.test".to_owned(), None)
}

#[test]
fn encrypt_starts_handshake() {
    let mut s = plain(true);
    assert!(s.can_encrypt());
    assert!(!s.is_encrypted());
    assert_eq!(s.encrypt(), Ok(()));
    assert!(matches!(&s.state, TlsState::Handshake((7, name)) if name == "mx.test"));
    assert!(s.is_encrypted());
    assert!(!s.can_encrypt());
}

#[test]
fn encrypt_twice_fails() {
    let mut s = plain(true);
    assert_eq!(s.encrypt(), Ok(()));
    assert_eq!(s.encrypt(), Err(TlsError::InvalidState));
    assert!(matches!(s.state, TlsState::Handshake(_)));
}

#[test]
fn handshake_done_encrypts() {
    let mut s = plain(true);
    s.encrypt().unwrap();
    assert_eq!(s.handshake_done(99), Ok(()));
    assert!(matches!(s.state, TlsState::Encrypted(99)));
    assert!(s.is_encrypted());
    assert!(!s.can_encrypt());
    assert_eq!(s.encrypt(), Err(TlsError::InvalidState));
    assert_eq!(s.handshake_done(5), Err(5));
}

#[test]
fn disabled_upgrade_cannot_encrypt() {
    let mut s = plain(false);
    assert!(!s.can_encrypt());
    assert!(!s.handshake_failed());
    s.encrypt().unwrap();
    assert!(s.handshake_failed());
    assert!(matches!(s.state, TlsState::Failed));
    assert!(!s.is_encrypted());
}

#[test]
fn tls_mode_decides_upgrade() {
    let mut s = plain(true);
    TcpConnector::new(TlsMode::StartTls, ()).start_tls_mode(&mut s).unwrap();
    assert!(!s.is_encrypted());
    TcpConnector::new(TlsMode::Tls, ()).start_tls_mode(&mut s).unwrap();
    assert!(s.is_encrypted());
}

#[test]
fn starttls_offered_only_on_plain_connections() {
    let mut session = SessionInfo::default();
    assert!(StartTls.prepare_session(&mut session, TlsService { available: true }));
    assert!(session.extensions.is_enabled(SmtpExtension::StartTls));
    let mut encrypted = SessionInfo::default();
    encrypted.connection.encrypted = true;
    assert!(!StartTls.prepare_session(&mut encrypted, TlsService { available: true }));
    assert_eq!(encrypted.extensions.len(), 0);
    let mut unavailable = SessionInfo::default();
    assert!(!StartTls.prepare_session(&mut unavailable, TlsService { available: false }));
    assert_eq!(unavailable.extensions.len(), 0);
}

#[test]
fn reuse_of_two_reconnects_on_third_send() {
    let info = ServerInfo { name: "mx".to_owned(), features: vec![] };
    let mut slot: ConnectionSlot<u8> = ConnectionSlot::new();
    slot.release(samotop::transport::SmtpConnection { stream: 1, reuse: 2, server_info: info.clone() });
    let mut plans = vec![];
    for stream in 2..5u8 {
        let plan = slot.plan();
        plans.push(plan);
        let fresh = match plan {
            SendPlan::Reuse => None,
            _ => Some(new_connection(stream, info.clone(), 1)),
        };
        assert!(slot.count_send(fresh));
    }
    assert_eq!(plans, vec![SendPlan::Reuse, SendPlan::Reuse, SendPlan::Reconnect]);
    let held = slot.lease().unwrap();
    assert_eq!(held.stream, 4);
    assert_eq!(held.reuse, 1);
    assert_eq!(slot.plan(), SendPlan::Wait);
    slot.release(held);
    assert_eq!(slot.plan(), SendPlan::Reuse);
    let _ = slot.lease();
    slot.lease_lost();
    assert_eq!(slot.plan(), SendPlan::Connect);
    let retired = slot.retire();
    assert!(retired.is_none());
}

#[test]
fn fresh_connection_countdown() {
    let info = ServerInfo { name: "mx".to_owned(), features: vec![] };
    assert_eq!(new_connection(0u8, info.clone(), 1).reuse, 2);
    assert_eq!(new_connection(0u8, info, u16::MAX).reuse, u16::MAX);
    let mut slot: ConnectionSlot<u8> = ConnectionSlot::new();
    assert!(!slot.count_send(None));
    let t: SmtpTransport<(), (), u8> = SmtpTransport::new((), ());
    assert_eq!(t.inner.plan(), SendPlan::Connect);
}

#[test]
fn client_decisions() {
    let info = ServerInfo {
        name: "mx".to_owned(),
        features: vec![ServerExtension::SmtpUtfEight, ServerExtension::EightBitMime],
    };
    assert_eq!(
        mail_parameters(&info),
        vec![MailParameter::EightBitMime, MailParameter::SmtpUtfEight]
    );
    assert!(should_encrypt(ClientSecurity::Required, false, false, false));
    assert!(!should_encrypt(ClientSecurity::Required, true, true, true));
    assert!(should_encrypt(ClientSecurity::Opportunistic, false, true, true));
    assert!(!should_encrypt(ClientSecurity::Opportunistic, false, true, false));
    assert!(!should_encrypt(ClientSecurity::Wrapper, false, true, true));
    assert!(!should_encrypt(ClientSecurity::Insecure, false, true, true));
}

#[test]
fn use_samotop_service() {
    let _ = StatefulSessionService::new(DefaultMailService);
}

#[test]
fn driver_drains_replies_before_input() {
    let service = StatefulSessionService::new(DefaultMailService);
    let mut driver: StatefulSession =
        service.start(SessionInfo::new(ConnectionInfo::default(), "mx.test".to_owned()));
    {
        let st = driver.state.as_ref().unwrap();
        assert!(st.session.extensions.is_enabled(SmtpExtension::Pipelining));
        assert!(st.session.extensions.is_enabled(SmtpExtension::EightBitMime));
    }
    assert_eq!(driver.poll_output(), DriverAction::NeedInput);
    let host = SmtpHost::Domain("a.test".to_owned());
    driver
        .push_input(Some(Ok(ReadControl::Command(SmtpCommand::Helo(SmtpHelo::Helo(host)), vec![]))))
        .unwrap();
    assert!(matches!(driver.poll_output(), DriverAction::Emit(WriteControl::Reply(SmtpReply::OkHeloInfo { .. }))));
    let call = driver.push_input(Some(Ok(ReadControl::Command(
        SmtpCommand::Mail(SmtpMail::Mail(SmtpPath::Null, vec![])),
        vec![],
    ))));
    assert_eq!(call, Ok(Some(PendingCall::StartMail)));
    assert_eq!(driver.poll_output(), DriverAction::Wait);
    let rcpt = ReadControl::Command(SmtpCommand::Rcpt(SmtpPath::Null), vec![]);
    assert_eq!(driver.push_input(Some(Ok(rcpt))), Err(ControlError::Wait));
    assert_eq!(driver.poll_output(), DriverAction::Wait);
    let t = driver.state.as_ref().unwrap().transaction.clone();
    driver.resume(CallOutcome::MailStarted(DefaultMailService.start_mail(t)));
    assert_eq!(driver.poll_output(), DriverAction::Emit(WriteControl::Reply(SmtpReply::OkInfo)));
    assert_eq!(driver.push_input(Some(Err(()))), Ok(None));
    assert_eq!(
        driver.poll_output(),
        DriverAction::Emit(WriteControl::Shutdown(SmtpReply::ProcesingError))
    );
    assert_eq!(driver.poll_output(), DriverAction::End);
    assert_eq!(driver.poll_output(), DriverAction::End);
}

#[test]
fn driver_ends_with_input() {
    let mut driver = StatefulSession::new(SmtpState::new(SessionInfo::default()));
    assert_eq!(driver.push_input(None), Ok(None));
    assert_eq!(driver.poll_output(), DriverAction::End);
    assert_eq!(driver.push_input(None), Err(ControlError::Ended));
}

#[test]
fn quit_ends_the_session() {
    let mut driver = StatefulSession::new(SmtpState::new(SessionInfo::default()));
    assert_eq!(
        driver.push_input(Some(Ok(ReadControl::Command(SmtpCommand::Quit, vec![])))),
        Ok(None)
    );
    assert!(matches!(driver.poll_output(), DriverAction::Emit(WriteControl::Shutdown(_))));
    let noop = ReadControl::Command(SmtpCommand::Noop(vec![]), vec![]);
    assert_eq!(driver.push_input(Some(Ok(noop))), Err(ControlError::Ended));
    assert_eq!(driver.poll_output(), DriverAction::End);
}

#[test]
fn negative_replies_become_errors() {
    let r = |code| Response { code, message: vec!["x".to_owned()] };
    assert_eq!(Error::from_response(r(451)), Error::Transient(r(451)));
    assert_eq!(Error::from_response(r(550)), Error::Permanent(r(550)));
    assert_eq!(Error::from_response(r(250)), Error::Transient(r(250)));
}

#[test]
fn host_of_server_address() {
    assert_eq!(host_of_address("mx.test:25"), "mx.test");
    assert_eq!(host_of_address("mx.test"), "mx.test");
    assert_eq!(host_of_address(":25"), "");
    assert_eq!(host_of_address(""), "");
}
