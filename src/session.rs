//! Session and transaction state: negotiated extensions, the peer's identity
//! and the mail transaction in flight.
use vstd::prelude::*;
use crate::command::{SmtpHelo, SmtpMail, SmtpPath};

verus! {

/// An ESMTP capability that a session may offer.
#[derive(Clone, Copy, Debug, PartialEq, Eq, Structural)]
pub enum SmtpExtension {
    StartTls,
    EightBitMime,
    Pipelining,
    SmtpUtf8,
}

impl SmtpExtension {
    pub open spec fn code_spec(&self) -> Seq<char> {
        match self {
            SmtpExtension::StartTls => "STARTTLS"@,
            SmtpExtension::EightBitMime => "8BITMIME"@,
            SmtpExtension::Pipelining => "PIPELINING"@,
            SmtpExtension::SmtpUtf8 => "SMTPUTF8"@,
        }
    }

    /// The capability's keyword as announced in an EHLO reply.
    pub fn code(&self) -> (r: &'static str)
        ensures
            r@ == self.code_spec(),
    {
        match self {
            SmtpExtension::StartTls => "STARTTLS",
            SmtpExtension::EightBitMime => "8BITMIME",
            SmtpExtension::Pipelining => "PIPELINING",
            SmtpExtension::SmtpUtf8 => "SMTPUTF8",
        }
    }
}

/// The enabled extensions of a session, each at most once, in the order in
/// which they were enabled.
#[derive(Clone, Debug, PartialEq, Eq)]
pub struct ExtensionSet {
    items: Vec<SmtpExtension>,
}

impl View for ExtensionSet {
    type V = Seq<SmtpExtension>;

    closed spec fn view(&self) -> Seq<SmtpExtension> {
        self.items@
    }
}

impl ExtensionSet {
    /// No extension is listed twice.
    pub open spec fn wf(&self) -> bool {
        self@.no_duplicates()
    }

    pub fn new() -> (r: ExtensionSet)
        ensures
            r@ == Seq::<SmtpExtension>::empty(),
            r.wf(),
    {
        ExtensionSet { items: Vec::new() }
    }

    /// True if `ext` is enabled.
    pub fn is_enabled(&self, ext: SmtpExtension) -> (r: bool)
        ensures
            r == self@.contains(ext),
    {
        let mut i: usize = 0;
        while i < self.items.len()
            invariant
                i <= self.items@.len(),
                forall|j: int| 0 <= j < i ==> self.items@[j] != ext,
            decreases self.items@.len() - i,
        {
            if self.items[i] == ext {
                return true;
            }
            i = i + 1;
        }
        false
    }

    /// Enables `ext`; an extension already enabled keeps its place.
    /// Returns whether it was added.
    pub fn enable(&mut self, ext: SmtpExtension) -> (added: bool)
        ensures
            added == !old(self)@.contains(ext),
            added ==> final(self)@ == old(self)@.push(ext),
            !added ==> final(self)@ == old(self)@,
            old(self).wf() ==> final(self).wf(),
            final(self)@.contains(ext),
    {
        if self.is_enabled(ext) {
            false
        } else {
            proof {
                if self.items@.no_duplicates() {
                    let s = self.items@.push(ext);
                    assert forall|i: int, j: int| 0 <= i < s.len() && 0 <= j < s.len() && i != j
                        implies s[i] != s[j] by {
                        if i == s.len() - 1 {
                            assert(self.items@.contains(s[j]));
                        } else if j == s.len() - 1 {
                            assert(self.items@.contains(s[i]));
                        }
                    }
                }
            }
            self.items.push(ext);
            assert(self.items@[self.items@.len() - 1] == ext);
            true
        }
    }

    /// Disables `ext`; the others keep their order.
    pub fn disable(&mut self, ext: SmtpExtension)
        ensures
            final(self)@ == old(self)@.filter(|e: SmtpExtension| e != ext),
    {
        let ghost old_items = self.items@;
        let mut kept: Vec<SmtpExtension> = Vec::new();
        let mut i: usize = 0;
        while i < self.items.len()
            invariant
                i <= old_items.len(),
                self.items@ == old_items,
                kept@ == old_items.subrange(0, i as int).filter(|e: SmtpExtension| e != ext),
            decreases old_items.len() - i,
        {
            let e = self.items[i];
            proof {
                let p = |x: SmtpExtension| x != ext;
                assert(old_items.subrange(0, i + 1) == old_items.subrange(0, i as int).push(e));
                old_items.subrange(0, i as int).lemma_filter_push(e, p);
            }
            if e != ext {
                kept.push(e);
            }
            i = i + 1;
        }
        assert(old_items.subrange(0, old_items.len() as int) == old_items);
        self.items = kept;
    }

    /// The enabled extensions in order.
    pub fn to_vec(&self) -> (r: Vec<SmtpExtension>)
        ensures
            r@ == self@,
    {
        let mut r: Vec<SmtpExtension> = Vec::new();
        let mut i: usize = 0;
        while i < self.items.len()
            invariant
                i <= self.items@.len(),
                r@ == self.items@.subrange(0, i as int),
            decreases self.items@.len() - i,
        {
            r.push(self.items[i]);
            i = i + 1;
        }
        r
    }

    pub fn len(&self) -> (r: usize)
        ensures
            r == self@.len(),
    {
        self.items.len()
    }
}

impl Default for ExtensionSet {
    fn default() -> (r: ExtensionSet)
        ensures
            r@ == Seq::<SmtpExtension>::empty(),
    {
        ExtensionSet::new()
    }
}

/// Description of the underlying connection.
#[derive(Clone, Debug, PartialEq, Eq)]
pub struct ConnectionInfo {
    pub local_addr: String,
    pub peer_addr: String,
    /// The connection is encrypted, or is being upgraded.
    pub encrypted: bool,
}

impl ConnectionInfo {
    pub fn new(local_addr: String, peer_addr: String) -> (r: ConnectionInfo)
        ensures
            r.local_addr == local_addr,
            r.peer_addr == peer_addr,
            !r.encrypted,
    {
        ConnectionInfo { local_addr, peer_addr, encrypted: false }
    }
}

impl Default for ConnectionInfo {
    fn default() -> (r: ConnectionInfo)
        ensures
            r.local_addr@.len() == 0,
            r.peer_addr@.len() == 0,
            !r.encrypted,
    {
        ConnectionInfo { local_addr: String::new(), peer_addr: String::new(), encrypted: false }
    }
}

/// The per-connection record of a session.
#[derive(Clone, Debug, PartialEq, Eq)]
pub struct SessionInfo {
    /// Description of the underlying connection
    pub connection: ConnectionInfo,
    /// ESMTP extensions enabled for this session
    pub extensions: ExtensionSet,
    /// The name of the service serving this session
    pub service_name: String,
    /// The greeting command of the peer, once given
    pub smtp_helo: Option<SmtpHelo>,
    /// The name of the peer as introduced by the HELO command
    pub peer_name: Option<String>,
    /// When the last command came, in milliseconds of the transport's clock
    pub last_command_at: Option<u64>,
    /// How long in total to wait for a command, in milliseconds
    pub command_timeout: u64,
}

impl SessionInfo {
    pub fn new(connection: ConnectionInfo, service_name: String) -> (r: SessionInfo)
        ensures
            r.connection == connection,
            r.service_name == service_name,
            r.extensions@ == Seq::<SmtpExtension>::empty(),
            r.smtp_helo is None,
            r.peer_name is None,
            r.last_command_at is None,
            r.command_timeout == 0,
    {
        SessionInfo {
            connection,
            extensions: ExtensionSet::new(),
            service_name,
            smtp_helo: None,
            peer_name: None,
            last_command_at: None,
            command_timeout: 0,
        }
    }
}

impl Default for SessionInfo {
    fn default() -> (r: SessionInfo)
        ensures
            r.service_name@.len() == 0,
            r.extensions@ == Seq::<SmtpExtension>::empty(),
            r.smtp_helo is None,
            r.peer_name is None,
            !r.connection.encrypted,
    {
        SessionInfo::new(ConnectionInfo::default(), String::new())
    }
}

/// One mail attempt: sender, id, recipients, extra headers and whether its
/// data sink is open.
#[derive(Clone, Debug, PartialEq, Eq)]
pub struct Transaction {
    /// Unique mail request identifier, empty until assigned
    pub id: String,
    /// The MAIL command that started the transaction
    pub mail: Option<SmtpMail>,
    /// The accepted recipients, in order
    pub rcpts: Vec<SmtpPath>,
    /// Headers to prepend to the mail data
    pub extra_headers: String,
    /// The mail data sink is open
    pub sink_open: bool,
}

impl Transaction {
    /// The transaction holds nothing.
    pub open spec fn is_empty_spec(&self) -> bool {
        &&& self.id@.len() == 0
        &&& self.mail is None
        &&& self.rcpts@.len() == 0
        &&& self.extra_headers@.len() == 0
        &&& !self.sink_open
    }

    pub fn new() -> (r: Transaction)
        ensures
            r.is_empty_spec(),
    {
        Transaction {
            id: String::new(),
            mail: None,
            rcpts: Vec::new(),
            extra_headers: String::new(),
            sink_open: false,
        }
    }

    pub fn is_empty(&self) -> (r: bool)
        ensures
            r == self.is_empty_spec(),
    {
        self.id.as_str().is_empty() && self.mail.is_none() && self.rcpts.len() == 0
            && self.extra_headers.as_str().is_empty() && !self.sink_open
    }
}

impl Default for Transaction {
    fn default() -> (r: Transaction)
        ensures
            r.is_empty_spec(),
    {
        Transaction::new()
    }
}

} // verus!
