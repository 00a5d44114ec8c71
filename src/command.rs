//! The command model: hosts, paths, the HELO and MAIL families and the
//! commands and events that the state machine consumes.
use vstd::prelude::*;
use vstd::string::*;
use crate::text::{decimal, hexadecimal, push_decimal, push_hexadecimal};

verus! {

/// A host as named in a command: a domain or an address literal.
#[derive(Eq, PartialEq, Debug, Clone)]
pub enum SmtpHost {
    Domain(String),
    /// An IPv4 address literal, four octets.
    Ipv4([u8; 4]),
    /// An IPv6 address literal, eight 16 bit groups.
    Ipv6([u16; 8]),
    Invalid { label: String, literal: String },
    Other { label: String, literal: String },
}

/// Dotted decimal form of an IPv4 address.
pub open spec fn ipv4_text(a: Seq<u8>) -> Seq<char> {
    decimal(a[0] as nat) + "."@ + decimal(a[1] as nat) + "."@ + decimal(a[2] as nat) + "."@
        + decimal(a[3] as nat)
}

/// The first `n` groups of an IPv6 address in hexadecimal, separated by colons.
pub open spec fn ipv6_groups(a: Seq<u16>, n: nat) -> Seq<char>
    decreases n,
{
    if n == 0 {
        Seq::empty()
    } else if n == 1 {
        hexadecimal(a[0] as nat)
    } else {
        ipv6_groups(a, (n - 1) as nat) + ":"@ + hexadecimal(a[n - 1] as nat)
    }
}

/// Groups in hexadecimal, separated by colons.
pub open spec fn hex_groups(a: Seq<u16>) -> Seq<char> {
    ipv6_groups(a, a.len())
}

/// The number of zero groups in the run that starts at `i`.
pub open spec fn zero_run(a: Seq<u16>, i: int) -> nat
    decreases a.len() - i,
{
    if i < 0 || i >= a.len() || a[i] != 0 {
        0
    } else {
        1 + zero_run(a, i + 1)
    }
}

/// The longest run of zero groups among those that start before `n`.
pub open spec fn longest_run(a: Seq<u16>, n: int) -> nat
    decreases n,
{
    if n <= 0 {
        0
    } else if zero_run(a, n - 1) > longest_run(a, n - 1) {
        zero_run(a, n - 1)
    } else {
        longest_run(a, n - 1)
    }
}

/// The first start, at or after `i`, of a run of `len` zero groups; the
/// length of `a` where there is none.
pub open spec fn first_run(a: Seq<u16>, len: nat, i: int) -> int
    decreases a.len() - i,
{
    if i < 0 || i >= a.len() {
        a.len() as int
    } else if zero_run(a, i) == len {
        i
    } else {
        first_run(a, len, i + 1)
    }
}

/// An IPv4 address mapped into IPv6: five zero groups, then `ffff`.
pub open spec fn is_ipv4_mapped(a: Seq<u16>) -> bool {
    a[0] == 0 && a[1] == 0 && a[2] == 0 && a[3] == 0 && a[4] == 0 && a[5] == 0xffff
}

/// The text form of an IPv6 address (RFC 5952): an IPv4-mapped address as
/// `::ffff:` and the dotted IPv4 address; otherwise the groups in hexadecimal,
/// the first of the longest runs of two or more zero groups written `::`.
pub open spec fn ipv6_text(a: Seq<u16>) -> Seq<char> {
    if is_ipv4_mapped(a) {
        "::ffff:"@ + ipv4_text(seq![(a[6] / 256) as u8, (a[6] % 256) as u8, (a[7] / 256) as u8, (a[7] % 256) as u8])
    } else {
        let len = longest_run(a, 8);
        let start = first_run(a, len, 0);
        if len > 1 {
            hex_groups(a.subrange(0, start)) + "::"@ + hex_groups(a.subrange(start + len, 8))
        } else {
            hex_groups(a)
        }
    }
}

proof fn lemma_zero_run_bound(a: Seq<u16>, i: int)
    requires
        0 <= i <= a.len(),
    ensures
        i + zero_run(a, i) <= a.len(),
    decreases a.len() - i,
{
    if i < a.len() && a[i] == 0 {
        lemma_zero_run_bound(a, i + 1);
    }
}

proof fn lemma_longest_is_a_run(a: Seq<u16>, n: int)
    requires
        0 <= n <= a.len(),
        longest_run(a, n) > 0,
    ensures
        exists|k: int| 0 <= k < n && zero_run(a, k) == longest_run(a, n),
    decreases n,
{
    if zero_run(a, n - 1) > longest_run(a, n - 1) {
        assert(zero_run(a, n - 1) == longest_run(a, n));
    } else {
        lemma_longest_is_a_run(a, n - 1);
        let k = choose|k: int| 0 <= k < n - 1 && zero_run(a, k) == longest_run(a, n - 1);
        assert(zero_run(a, k) == longest_run(a, n));
    }
}

proof fn lemma_first_run_found(a: Seq<u16>, len: nat, i: int, k: int)
    requires
        0 <= i <= k < a.len(),
        zero_run(a, k) == len,
    ensures
        i <= first_run(a, len, i) <= k,
        zero_run(a, first_run(a, len, i)) == len,
    decreases k - i,
{
    if zero_run(a, i) != len {
        lemma_first_run_found(a, len, i + 1, k);
    }
}

/// Appends the groups `a[from..to]` in hexadecimal, separated by colons.
fn push_groups(s: &mut String, a: &[u16; 8], from: usize, to: usize)
    requires
        from <= to <= 8,
    ensures
        final(s)@ == old(s)@ + hex_groups(a@.subrange(from as int, to as int)),
{
    let ghost sub = a@.subrange(from as int, to as int);
    let mut i: usize = from;
    while i < to
        invariant
            from <= i <= to <= 8,
            sub == a@.subrange(from as int, to as int),
            s@ == old(s)@ + ipv6_groups(sub, (i - from) as nat),
        decreases to - i,
    {
        if i > from {
            s.append(":");
        }
        push_hexadecimal(s, a[i] as u32);
        proof {
            assert(sub[i - from] == a@[i as int]);
            if i == from {
                assert(ipv6_groups(sub, 1) == hexadecimal(sub[0] as nat));
            }
        }
        i = i + 1;
        assert(s@ =~= old(s)@ + ipv6_groups(sub, (i - from) as nat));
    }
}

/// The length of the run of zero groups that starts at `i`.
fn zero_run_at(a: &[u16; 8], i: usize) -> (r: usize)
    requires
        i <= 8,
    ensures
        r == zero_run(a@, i as int),
{
    let mut j: usize = i;
    while j < 8 && a[j] == 0
        invariant
            i <= j <= 8,
            zero_run(a@, i as int) == (j - i) + zero_run(a@, j as int),
        decreases 8 - j,
    {
        j = j + 1;
    }
    j - i
}

/// Appends the text form of an IPv6 address.
fn push_ipv6(s: &mut String, a: &[u16; 8])
    ensures
        final(s)@ == old(s)@ + ipv6_text(a@),
{
    if a[0] == 0 && a[1] == 0 && a[2] == 0 && a[3] == 0 && a[4] == 0 && a[5] == 0xffff {
        s.append("::ffff:");
        push_decimal(s, (a[6] / 256) as u32);
        s.append(".");
        push_decimal(s, (a[6] % 256) as u32);
        s.append(".");
        push_decimal(s, (a[7] / 256) as u32);
        s.append(".");
        push_decimal(s, (a[7] % 256) as u32);
        assert(s@ =~= old(s)@ + ipv6_text(a@));
        return;
    }
    let mut best: usize = 0;
    let mut n: usize = 0;
    while n < 8
        invariant
            n <= 8,
            best == longest_run(a@, n as int),
            best <= 8,
        decreases 8 - n,
    {
        let run = zero_run_at(a, n);
        proof {
            lemma_zero_run_bound(a@, n as int);
        }
        if run > best {
            best = run;
        }
        n = n + 1;
    }
    if best > 1 {
        let mut start: usize = 0;
        proof {
            lemma_longest_is_a_run(a@, 8);
            let k = choose|k: int| 0 <= k < 8 && zero_run(a@, k) == longest_run(a@, 8);
            lemma_first_run_found(a@, best as nat, 0, k);
            lemma_zero_run_bound(a@, first_run(a@, best as nat, 0));
        }
        while zero_run_at(a, start) != best
            invariant
                start <= first_run(a@, best as nat, 0) < 8,
                first_run(a@, best as nat, start as int) == first_run(a@, best as nat, 0),
                zero_run(a@, first_run(a@, best as nat, 0)) == best,
            decreases 8 - start,
        {
            start = start + 1;
        }
        push_groups(s, a, 0, start);
        s.append("::");
        push_groups(s, a, start + best, 8);
        assert(s@ =~= old(s)@ + ipv6_text(a@));
    } else {
        push_groups(s, a, 0, 8);
        assert(a@.subrange(0, 8) == a@);
    }
}

impl SmtpHost {
    /// The host's name without literal brackets.
    pub open spec fn domain_spec(&self) -> Seq<char> {
        match self {
            SmtpHost::Domain(s) => s@,
            SmtpHost::Ipv4(a) => ipv4_text(a@),
            SmtpHost::Ipv6(a) => ipv6_text(a@),
            SmtpHost::Invalid { label, literal } => label@ + ":"@ + literal@,
            SmtpHost::Other { label, literal } => label@ + ":"@ + literal@,
        }
    }

    /// The host as written in a command: address literals in brackets.
    pub open spec fn text_spec(&self) -> Seq<char> {
        match self {
            SmtpHost::Domain(s) => s@,
            SmtpHost::Ipv4(a) => "["@ + ipv4_text(a@) + "]"@,
            SmtpHost::Ipv6(a) => "[IPv6:"@ + ipv6_text(a@) + "]"@,
            SmtpHost::Invalid { label, literal } => "["@ + label@ + ":"@ + literal@ + "]"@,
            SmtpHost::Other { label, literal } => "["@ + label@ + ":"@ + literal@ + "]"@,
        }
    }

    /// Appends the host's name without brackets.
    fn push_domain(&self, s: &mut String)
        ensures
            final(s)@ == old(s)@ + self.domain_spec(),
    {
        match self {
            SmtpHost::Domain(d) => {
                s.append(d.as_str());
            },
            SmtpHost::Ipv4(a) => {
                push_decimal(s, a[0] as u32);
                s.append(".");
                push_decimal(s, a[1] as u32);
                s.append(".");
                push_decimal(s, a[2] as u32);
                s.append(".");
                push_decimal(s, a[3] as u32);
            },
            SmtpHost::Ipv6(a) => {
                push_ipv6(s, a);
            },
            SmtpHost::Invalid { label, literal } => {
                s.append(label.as_str());
                s.append(":");
                s.append(literal.as_str());
            },
            SmtpHost::Other { label, literal } => {
                s.append(label.as_str());
                s.append(":");
                s.append(literal.as_str());
            },
        }
        assert(s@ =~= old(s)@ + self.domain_spec());
    }

    /// The host's name without literal brackets.
    pub fn domain(&self) -> (r: String)
        ensures
            r@ == self.domain_spec(),
    {
        let mut s = String::new();
        self.push_domain(&mut s);
        assert(s@ =~= self.domain_spec());
        s
    }

    /// Appends the host as written in a command.
    pub fn push_text(&self, s: &mut String)
        ensures
            final(s)@ == old(s)@ + self.text_spec(),
    {
        match self {
            SmtpHost::Domain(d) => {
                s.append(d.as_str());
            },
            SmtpHost::Ipv4(_) => {
                s.append("[");
                self.push_domain(s);
                s.append("]");
            },
            SmtpHost::Ipv6(_) => {
                s.append("[IPv6:");
                self.push_domain(s);
                s.append("]");
            },
            SmtpHost::Invalid { .. } => {
                s.append("[");
                self.push_domain(s);
                s.append("]");
            },
            SmtpHost::Other { .. } => {
                s.append("[");
                self.push_domain(s);
                s.append("]");
            },
        }
        assert(s@ =~= old(s)@ + self.text_spec());
    }

    /// The host as written in a command: address literals in brackets.
    pub fn to_string(&self) -> (r: String)
        ensures
            r@ == self.text_spec(),
    {
        let mut s = String::new();
        self.push_text(&mut s);
        assert(s@ =~= self.text_spec());
        s
    }
}

/// A mailbox: local part and host.
#[derive(Eq, PartialEq, Debug, Clone)]
pub enum SmtpAddress {
    Mailbox(String, SmtpHost),
}

/// A reverse or forward path of MAIL and RCPT.
#[derive(Eq, PartialEq, Debug, Clone)]
pub enum SmtpPath {
    Direct(SmtpAddress),
    /// A source route of relay hosts, then the mailbox.
    Relay(Vec<SmtpHost>, SmtpAddress),
    Postmaster,
    /// The null reverse path of bounces.
    Null,
}

impl SmtpAddress {
    pub open spec fn text_spec(&self) -> Seq<char> {
        match self {
            SmtpAddress::Mailbox(name, host) => name@ + "@"@ + host.text_spec(),
        }
    }

    fn push_text(&self, s: &mut String)
        ensures
            final(s)@ == old(s)@ + self.text_spec(),
    {
        match self {
            SmtpAddress::Mailbox(name, host) => {
                s.append(name.as_str());
                s.append("@");
                host.push_text(s);
            },
        }
        assert(s@ =~= old(s)@ + self.text_spec());
    }
}

impl SmtpPath {
    /// The mailbox of the path: empty for the null path, `POSTMASTER` for the
    /// postmaster, `name@host` otherwise, relays left out.
    pub open spec fn address_spec(&self) -> Seq<char> {
        match self {
            SmtpPath::Direct(addr) => addr.text_spec(),
            SmtpPath::Relay(_, addr) => addr.text_spec(),
            SmtpPath::Postmaster => "POSTMASTER"@,
            SmtpPath::Null => Seq::empty(),
        }
    }

    pub fn address(&self) -> (r: String)
        ensures
            r@ == self.address_spec(),
    {
        let mut s = String::new();
        match self {
            SmtpPath::Direct(addr) => addr.push_text(&mut s),
            SmtpPath::Relay(_, addr) => addr.push_text(&mut s),
            SmtpPath::Postmaster => s.append("POSTMASTER"),
            SmtpPath::Null => {},
        }
        assert(s@ =~= self.address_spec());
        s
    }

    /// The path as written in a command, in angle brackets.
    pub fn to_string(&self) -> (r: String)
        ensures
            r@ == "<"@ + self.address_spec() + ">"@,
    {
        let mut s = String::from_str("<");
        let a = self.address();
        s.append(a.as_str());
        s.append(">");
        s
    }
}

/// The greeting commands.
#[derive(Eq, PartialEq, Debug, Clone)]
pub enum SmtpHelo {
    Helo(SmtpHost),
    Ehlo(SmtpHost),
    Lhlo(SmtpHost),
}

impl SmtpHelo {
    pub open spec fn verb_spec(&self) -> Seq<char> {
        match self {
            SmtpHelo::Helo(_) => "HELO"@,
            SmtpHelo::Ehlo(_) => "EHLO"@,
            SmtpHelo::Lhlo(_) => "LHLO"@,
        }
    }

    pub open spec fn is_extended_spec(&self) -> bool {
        !(self is Helo)
    }

    pub open spec fn host_spec(&self) -> SmtpHost {
        match self {
            SmtpHelo::Helo(h) => *h,
            SmtpHelo::Ehlo(h) => *h,
            SmtpHelo::Lhlo(h) => *h,
        }
    }

    pub fn verb(&self) -> (r: &'static str)
        ensures
            r@ == self.verb_spec(),
    {
        match self {
            SmtpHelo::Helo(_) => "HELO",
            SmtpHelo::Ehlo(_) => "EHLO",
            SmtpHelo::Lhlo(_) => "LHLO",
        }
    }

    /// True for EHLO and LHLO, which are answered with the extension list.
    pub fn is_extended(&self) -> (r: bool)
        ensures
            r == self.is_extended_spec(),
    {
        match self {
            SmtpHelo::Helo(_) => false,
            SmtpHelo::Ehlo(_) => true,
            SmtpHelo::Lhlo(_) => true,
        }
    }

    pub fn host(&self) -> (r: &SmtpHost)
        ensures
            *r == self.host_spec(),
    {
        match self {
            SmtpHelo::Helo(h) => h,
            SmtpHelo::Ehlo(h) => h,
            SmtpHelo::Lhlo(h) => h,
        }
    }

    /// The peer's name as it introduced itself.
    pub fn name(&self) -> (r: String)
        ensures
            r@ == self.host_spec().text_spec(),
    {
        self.host().to_string()
    }
}

/// The commands that start a mail transaction.
#[derive(Eq, PartialEq, Debug, Clone)]
pub enum SmtpMail {
    Mail(SmtpPath, Vec<String>),
    Send(SmtpPath, Vec<String>),
    Saml(SmtpPath, Vec<String>),
    Soml(SmtpPath, Vec<String>),
}

impl SmtpMail {
    pub open spec fn verb_spec(&self) -> Seq<char> {
        match self {
            SmtpMail::Mail(..) => "MAIL"@,
            SmtpMail::Send(..) => "SEND"@,
            SmtpMail::Saml(..) => "SAML"@,
            SmtpMail::Soml(..) => "SOML"@,
        }
    }

    pub open spec fn path_spec(&self) -> SmtpPath {
        match self {
            SmtpMail::Mail(p, _) => *p,
            SmtpMail::Send(p, _) => *p,
            SmtpMail::Saml(p, _) => *p,
            SmtpMail::Soml(p, _) => *p,
        }
    }

    pub fn verb(&self) -> (r: &'static str)
        ensures
            r@ == self.verb_spec(),
    {
        match self {
            SmtpMail::Mail(..) => "MAIL",
            SmtpMail::Send(..) => "SEND",
            SmtpMail::Saml(..) => "SAML",
            SmtpMail::Soml(..) => "SOML",
        }
    }

    /// The reverse path of the sender.
    pub fn path(&self) -> (r: &SmtpPath)
        ensures
            *r == self.path_spec(),
    {
        match self {
            SmtpMail::Mail(p, _) => p,
            SmtpMail::Send(p, _) => p,
            SmtpMail::Saml(p, _) => p,
            SmtpMail::Soml(p, _) => p,
        }
    }
}

/// A parsed SMTP command.
#[derive(Eq, PartialEq, Debug, Clone)]
pub enum SmtpCommand {
    StartTls,
    Helo(SmtpHelo),
    Mail(SmtpMail),
    Rcpt(SmtpPath),
    Expn(String),
    Vrfy(String),
    Help(Vec<String>),
    Noop(Vec<String>),
    Quit,
    Rset,
    Data,
    Turn,
    /// A command outside of the base set: its verb, then its parameters.
    Other(String, Vec<String>),
}

impl SmtpCommand {
    pub open spec fn verb_spec(&self) -> Seq<char> {
        match self {
            SmtpCommand::StartTls => "STARTTLS"@,
            SmtpCommand::Helo(h) => h.verb_spec(),
            SmtpCommand::Mail(m) => m.verb_spec(),
            SmtpCommand::Rcpt(_) => "RCPT"@,
            SmtpCommand::Expn(_) => "EXPN"@,
            SmtpCommand::Vrfy(_) => "VRFY"@,
            SmtpCommand::Help(_) => "HELP"@,
            SmtpCommand::Noop(_) => "NOOP"@,
            SmtpCommand::Quit => "QUIT"@,
            SmtpCommand::Rset => "RSET"@,
            SmtpCommand::Data => "DATA"@,
            SmtpCommand::Turn => "TURN"@,
            SmtpCommand::Other(verb, _) => verb@,
        }
    }

    /// The command's verb word.
    pub fn verb(&self) -> (r: &str)
        ensures
            r@ == self.verb_spec(),
    {
        match self {
            SmtpCommand::StartTls => "STARTTLS",
            SmtpCommand::Helo(h) => h.verb(),
            SmtpCommand::Mail(m) => m.verb(),
            SmtpCommand::Rcpt(_) => "RCPT",
            SmtpCommand::Expn(_) => "EXPN",
            SmtpCommand::Vrfy(_) => "VRFY",
            SmtpCommand::Help(_) => "HELP",
            SmtpCommand::Noop(_) => "NOOP",
            SmtpCommand::Quit => "QUIT",
            SmtpCommand::Rset => "RSET",
            SmtpCommand::Data => "DATA",
            SmtpCommand::Turn => "TURN",
            SmtpCommand::Other(verb, _) => verb.as_str(),
        }
    }
}

/// The two ends of a connection, as the server names them.
#[derive(Eq, PartialEq, Debug, Clone)]
pub struct SmtpConnection {
    pub local_name: String,
    pub local_addr: Option<String>,
    pub peer_addr: Option<String>,
}

} // verus!
