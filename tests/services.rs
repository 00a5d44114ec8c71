use samotop::command::{SmtpAddress, SmtpHelo, SmtpHost, SmtpMail, SmtpPath};
use samotop::mail::{AddRecipientResult, Envelope, QueueError, StartMailResult};
use samotop::service::{
    Config, DefaultMailService, EnableEightBit, EsmtpService, SendmailTransport, SessionLogger,
    SimpleDirMail,
};
use samotop::machine::SmtpState;
use samotop::session::{ConnectionInfo, ExtensionSet, SessionInfo, SmtpExtension, Transaction};

fn path() -> SmtpPath {
    SmtpPath::Direct(SmtpAddress::Mailbox("b".to_owned(), SmtpHost::Domain("b.test".to_owned())))
}

#[test]
fn test_setup() {
    let sut = SessionLogger;
    let tran = sut.start_mail(Transaction::default());
    assert_eq!(tran, StartMailResult::Accepted(Transaction::default()));
    assert_eq!(sut.add_recipient(path()), AddRecipientResult::Inconclusive(path()));
    assert_eq!(sut.open_mail_body(&SmtpState::new(SessionInfo::default())), Ok(()));
}

#[test]
fn default_service_assigns_id() {
    let svc = DefaultMailService;
    assert_eq!(svc.name(), "samotop");
    match svc.start_mail(Transaction::default()) {
        StartMailResult::Accepted(t) => {
            assert_eq!(t.id.len(), 36);
            assert_ne!(t.id, "");
        }
        other => panic!("unexpected {:?}", other),
    }
    let mut kept = Transaction::default();
    kept.id = "given".to_owned();
    match svc.start_mail(kept) {
        StartMailResult::Accepted(t) => assert_eq!(t.id, "given"),
        other => panic!("unexpected {:?}", other),
    }
    assert_eq!(svc.add_recipient(path()), AddRecipientResult::Accepted(path()));
}

fn envelope(rcpts: Vec<SmtpPath>) -> Envelope {
    Envelope {
        name: "mx".to_owned(),
        local: Some("127.0.0.1:25".to_owned()),
        peer: Some("127.0.0.1:4000".to_owned()),
        helo: Some(SmtpHelo::Helo(SmtpHost::Domain("a.test".to_owned()))),
        mail: Some(SmtpMail::Mail(SmtpPath::Null, vec![])),
        id: "m1".to_owned(),
        rcpts,
    }
}

#[test]
fn default_service_takes_complete_envelopes() {
    let svc = DefaultMailService;
    assert_eq!(svc.mail(envelope(vec![path()])).map(|s| s.id), Some("m1".to_owned()));
    assert!(svc.mail(envelope(vec![])).is_none());
    let mut no_helo = envelope(vec![path()]);
    no_helo.helo = None;
    assert!(svc.mail(no_helo).is_none());
}

#[test]
fn eight_bit_is_enabled() {
    let mut session = SessionInfo::new(ConnectionInfo::default(), "mx".to_owned());
    EnableEightBit(DefaultMailService).prepare_session(&mut session);
    assert!(session.extensions.is_enabled(SmtpExtension::EightBitMime));
    assert_eq!(session.extensions.len(), 1);
    let (extend, dir) = Config::new("/tmp/mail").setup(DefaultMailService, 5u8);
    assert_eq!(dir.dir, "/tmp/mail");
    assert_eq!(dir.inner, 5);
    let mut other = SessionInfo::default();
    EsmtpService::prepare_session(&extend, &mut other);
    assert!(other.extensions.is_enabled(SmtpExtension::EightBitMime));
    let d = SimpleDirMail::new("x", ());
    assert_eq!(d.dir, "x");
}

#[test]
fn extension_set_keeps_order() {
    let mut set = ExtensionSet::new();
    assert!(set.enable(SmtpExtension::Pipelining));
    assert!(set.enable(SmtpExtension::StartTls));
    assert!(!set.enable(SmtpExtension::Pipelining));
    assert!(set.enable(SmtpExtension::SmtpUtf8));
    set.disable(SmtpExtension::StartTls);
    assert_eq!(set.to_vec(), vec![SmtpExtension::Pipelining, SmtpExtension::SmtpUtf8]);
    assert_eq!(SmtpExtension::EightBitMime.code(), "8BITMIME");
}

#[test]
fn sendmail_arguments() {
    let t = SendmailTransport::new();
    assert_eq!(t.command, "/usr/sbin/sendmail");
    let t = SendmailTransport::new_with_command("/bin/sm".to_owned());
    assert_eq!(t.command, "/bin/sm");
    assert_eq!(
        t.arguments(Some("a@a.test".to_owned()), vec!["b@b.test".to_owned(), "c@c.test".to_owned()]),
        vec!["-i", "-f", "a@a.test", "b@b.test", "c@c.test"]
    );
    assert_eq!(t.arguments(None, vec![]), vec!["-i", "-f", "\"\""]);
}

#[test]
fn queue_error_text() {
    assert_eq!(QueueError::Failed.to_string(), "Mail queue failed temporarily");
    assert_eq!(QueueError::Refused.to_string(), "Mail was refused by the server");
}

#[test]
fn host_and_path_text() {
    let v4 = SmtpHost::Ipv4([192, 168, 0, 10]);
    assert_eq!(v4.domain(), "192.168.0.10");
    assert_eq!(v4.to_string(), "[192.168.0.10]");
    let v6 = SmtpHost::Ipv6([0x2001, 0xdb8, 0, 0, 0, 0, 0, 1]);
    assert_eq!(v6.to_string(), "[IPv6:2001:db8::1]");
    let v6 = |g: [u16; 8]| SmtpHost::Ipv6(g).domain();
    assert_eq!(v6([0; 8]), "::");
    assert_eq!(v6([0, 0, 0, 0, 0, 0, 0, 1]), "::1");
    assert_eq!(v6([1, 0, 0, 0, 0, 0, 0, 0]), "1::");
    assert_eq!(v6([1, 0, 2, 3, 4, 5, 6, 7]), "1:0:2:3:4:5:6:7");
    assert_eq!(v6([1, 0, 0, 2, 0, 0, 3, 4]), "1::2:0:0:3:4");
    assert_eq!(v6([1, 0, 0, 2, 0, 0, 0, 4]), "1:0:0:2::4");
    assert_eq!(v6([0, 0, 0, 0, 0, 0xffff, 0xc0a8, 0x0001]), "::ffff:192.168.0.1");
    assert_eq!(v6([0xfe80, 0, 0, 0, 0xabcd, 0, 0, 0x12]), "fe80::abcd:0:0:12");
    let other = SmtpHost::Other { label: "x".to_owned(), literal: "y".to_owned() };
    assert_eq!(other.domain(), "x:y");
    assert_eq!(other.to_string(), "[x:y]");
    let p = SmtpPath::Relay(
        vec![SmtpHost::Domain("r.test".to_owned())],
        SmtpAddress::Mailbox("a".to_owned(), v4),
    );
    assert_eq!(p.address(), "a@[192.168.0.10]");
    assert_eq!(p.to_string(), "<a@[192.168.0.10]>");
    assert_eq!(SmtpPath::Null.to_string(), "<>");
    assert_eq!(SmtpPath::Postmaster.address(), "POSTMASTER");
    assert_eq!(SmtpHelo::Ehlo(SmtpHost::Domain("a.test".to_owned())).name(), "a.test");
}
