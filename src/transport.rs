//! The client transport's bookkeeping: the single connection slot, its reuse
//! countdown, and the decisions of connection setup and mail preparation.
use vstd::prelude::*;

verus! {

/// How the client secures the connection.
#[derive(Debug, Clone, Copy, PartialEq, Eq, Structural)]
pub enum ClientSecurity {
    /// Insecure connection only
    Insecure,
    /// Use `STARTTLS` when the server and the stream allow it
    Opportunistic,
    /// Always use `STARTTLS`
    Required,
    /// The connection is TLS from its start
    Wrapper,
}

/// An ESMTP extension that a server announced.
#[derive(Debug, Clone, Copy, PartialEq, Eq, Structural)]
pub enum ServerExtension {
    EightBitMime,
    SmtpUtfEight,
    StartTls,
}

/// What the server announced in its EHLO reply.
#[derive(Debug, Clone)]
pub struct ServerInfo {
    /// The name the server gave
    pub name: String,
    /// The extensions the server supports
    pub features: Vec<ServerExtension>,
}

impl ServerInfo {
    pub fn supports_feature(&self, ext: ServerExtension) -> (r: bool)
        ensures
            r == self.features@.contains(ext),
    {
        let mut i: usize = 0;
        while i < self.features.len()
            invariant
                i <= self.features@.len(),
                forall|j: int| 0 <= j < i ==> self.features@[j] != ext,
            decreases self.features@.len() - i,
        {
            if self.features[i] == ext {
                return true;
            }
            i = i + 1;
        }
        false
    }
}

/// A parameter of the client's MAIL command.
#[derive(Debug, Clone, Copy, PartialEq, Eq, Structural)]
pub enum MailParameter {
    /// `BODY=8BITMIME`
    EightBitMime,
    /// `SMTPUTF8`
    SmtpUtfEight,
}

/// The MAIL parameters that the server's extensions allow, 8BITMIME first.
pub open spec fn mail_parameters_spec(features: Seq<ServerExtension>) -> Seq<MailParameter> {
    let a = if features.contains(ServerExtension::EightBitMime) {
        seq![MailParameter::EightBitMime]
    } else {
        Seq::empty()
    };
    let b = if features.contains(ServerExtension::SmtpUtfEight) {
        seq![MailParameter::SmtpUtfEight]
    } else {
        Seq::empty()
    };
    a + b
}

pub fn mail_parameters(info: &ServerInfo) -> (r: Vec<MailParameter>)
    ensures
        r@ == mail_parameters_spec(info.features@),
{
    let mut r: Vec<MailParameter> = Vec::new();
    if info.supports_feature(ServerExtension::EightBitMime) {
        r.push(MailParameter::EightBitMime);
    }
    if info.supports_feature(ServerExtension::SmtpUtfEight) {
        r.push(MailParameter::SmtpUtfEight);
    }
    assert(r@ =~= mail_parameters_spec(info.features@));
    r
}

/// Whether connection setup upgrades with STARTTLS: never on an encrypted
/// stream; always where required; where opportunistic, when the server offers
/// it and the stream can do it.
pub open spec fn should_encrypt_spec(
    security: ClientSecurity,
    encrypted: bool,
    server_offers: bool,
    stream_can: bool,
) -> bool {
    !encrypted && match security {
        ClientSecurity::Required => true,
        ClientSecurity::Opportunistic => server_offers && stream_can,
        ClientSecurity::Wrapper => false,
        ClientSecurity::Insecure => false,
    }
}

pub fn should_encrypt(security: ClientSecurity, encrypted: bool, server_offers: bool, stream_can: bool) -> (r: bool)
    ensures
        r == should_encrypt_spec(security, encrypted, server_offers, stream_can),
{
    if encrypted {
        return false;
    }
    match security {
        ClientSecurity::Required => true,
        ClientSecurity::Opportunistic => server_offers && stream_can,
        ClientSecurity::Wrapper => false,
        ClientSecurity::Insecure => false,
    }
}

/// A live connection to the server: the stream, how many more mails it may
/// carry before a reconnect, and what the server announced.
#[derive(Debug)]
pub struct SmtpConnection<S> {
    pub stream: S,
    /// How many more times the stream can be used
    pub reuse: u16,
    pub server_info: ServerInfo,
}

/// `n + 1`, saturating.
pub open spec fn reuse_budget(max_reuse_count: u16) -> u16 {
    if max_reuse_count == u16::MAX {
        u16::MAX
    } else {
        (max_reuse_count + 1) as u16
    }
}

/// What a send does with the slot.
#[derive(Debug, Clone, Copy, PartialEq, Eq, Structural)]
pub enum SendPlan {
    /// The slot is empty: connect
    Connect,
    /// Use the connection in the slot
    Reuse,
    /// The connection's countdown is spent: QUIT it and connect anew
    Reconnect,
    /// The connection is leased to another send: wait for its release
    Wait,
}

/// The plan for a send, from the countdown of the connection held, if any.
pub open spec fn plan_spec(reuse: Option<u16>) -> SendPlan {
    match reuse {
        None => SendPlan::Connect,
        Some(n) => if n == 0 {
            SendPlan::Reconnect
        } else {
            SendPlan::Reuse
        },
    }
}

/// `d` is `c` after one more send.
pub open spec fn counted_down<S>(c: SmtpConnection<S>, d: SmtpConnection<S>) -> bool {
    &&& d.stream == c.stream
    &&& d.server_info == c.server_info
    &&& d.reuse == if c.reuse == 0 {
        0
    } else {
        (c.reuse - 1) as u16
    }
}

/// One send counted on the slot: the fresh connection, if any, replaces the
/// one held, and the countdown of the connection then held goes down by one.
pub open spec fn count_send_spec<S>(
    pre: ConnectionSlot<S>,
    fresh: Option<SmtpConnection<S>>,
    post: ConnectionSlot<S>,
    counted: bool,
) -> bool {
    &&& counted == (pre.slot is Some || fresh is Some)
    &&& fresh matches Some(c) ==> (post.slot matches Some(d) && counted_down(c, d))
    &&& fresh is None && pre.slot is Some ==> (post.slot matches Some(d) && counted_down(
        pre.slot.unwrap(),
        d,
    ))
    &&& !counted ==> post.slot is None
    &&& post.leased == pre.leased
}

/// The single slot that holds the transport's connection between sends; while
/// a send carries the connection away, the slot is leased.
#[derive(Debug)]
pub struct ConnectionSlot<S> {
    pub slot: Option<SmtpConnection<S>>,
    pub leased: bool,
}

impl<S> ConnectionSlot<S> {
    /// The countdown of the connection held, if any.
    pub open spec fn reuse_spec(&self) -> Option<u16> {
        match self.slot {
            Some(c) => Some(c.reuse),
            None => None,
        }
    }

    /// What the next send must do first.
    pub open spec fn next_plan(&self) -> SendPlan {
        if self.leased {
            SendPlan::Wait
        } else {
            plan_spec(self.reuse_spec())
        }
    }

    pub fn new() -> (r: Self)
        ensures
            r.slot is None,
            !r.leased,
    {
        ConnectionSlot { slot: None, leased: false }
    }

    /// What the next send must do first.
    pub fn plan(&self) -> (r: SendPlan)
        ensures
            r == self.next_plan(),
    {
        if self.leased {
            return SendPlan::Wait;
        }
        match &self.slot {
            None => SendPlan::Connect,
            Some(c) => if c.reuse == 0 {
                SendPlan::Reconnect
            } else {
                SendPlan::Reuse
            },
        }
    }

    /// Takes the connection out of the slot to carry it with a mail's data;
    /// the slot is leased until the connection comes back.
    pub fn lease(&mut self) -> (r: Option<SmtpConnection<S>>)
        ensures
            r == old(self).slot,
            final(self).slot is None,
            final(self).leased == (old(self).leased || old(self).slot is Some),
    {
        let r = self.slot.take();
        if r.is_some() {
            self.leased = true;
        }
        r
    }

    /// Takes out a connection whose countdown is spent, to QUIT it.
    pub fn retire(&mut self) -> (r: Option<SmtpConnection<S>>)
        ensures
            r == old(self).slot,
            final(self).slot is None,
            final(self).leased == old(self).leased,
    {
        self.slot.take()
    }

    /// Puts a connection back once its mail's data is closed.
    pub fn release(&mut self, conn: SmtpConnection<S>)
        ensures
            final(self).slot == Some(conn),
            !final(self).leased,
    {
        self.slot = Some(conn);
        self.leased = false;
    }

    /// Ends the lease of a connection that was lost on an error: the next
    /// send connects anew.
    pub fn lease_lost(&mut self)
        ensures
            final(self).slot == old(self).slot,
            !final(self).leased,
    {
        self.leased = false;
    }

    /// Counts a send on the connection held: after a connect the fresh
    /// connection goes into the slot first. The countdown goes down by one,
    /// saturating.
    pub fn count_send(&mut self, fresh: Option<SmtpConnection<S>>) -> (counted: bool)
        ensures
            count_send_spec(*old(self), fresh, *final(self), counted),
    {
        if let Some(c) = fresh {
            self.slot = Some(c);
        }
        match self.slot.take() {
            None => false,
            Some(mut c) => {
                c.reuse = c.reuse.saturating_sub(1);
                self.slot = Some(c);
                true
            },
        }
    }
}

/// A fresh connection: it may carry `max_reuse_count + 1` mails, saturating.
pub fn new_connection<S>(stream: S, server_info: ServerInfo, max_reuse_count: u16) -> (r: SmtpConnection<S>)
    ensures
        r.stream == stream,
        r.server_info == server_info,
        r.reuse == reuse_budget(max_reuse_count),
{
    SmtpConnection { stream, reuse: max_reuse_count.saturating_add(1), server_info }
}

/// The settings of a client transport.
pub trait ConnectionConfiguration {
    /// The server's address
    fn address(&self) -> String;
    /// The timeout of each exchange, in milliseconds
    fn timeout(&self) -> u64;
    fn security(&self) -> ClientSecurity;
    /// The name to give in EHLO
    fn hello_name(&self) -> String;
    /// How many more mails a connection may carry after its first
    fn max_reuse_count(&self) -> u16;
}

/// The SMTP client transport: its connector, its settings and the connection
/// slot leased to the sends.
#[derive(Debug)]
pub struct SmtpTransport<Conf, Conn, S> {
    pub connector: Conn,
    pub configuration: Conf,
    pub inner: ConnectionSlot<S>,
}

impl<Conf, Conn, S> SmtpTransport<Conf, Conn, S> {
    pub fn new(configuration: Conf, connector: Conn) -> (r: Self)
        ensures
            r.configuration == configuration,
            r.connector == connector,
            r.inner.slot is None,
    {
        SmtpTransport { connector, configuration, inner: ConnectionSlot::new() }
    }
}

} // verus!

verus! {

/// A reply of the server to the client.
#[derive(Debug, Clone, PartialEq, Eq)]
pub struct Response {
    /// The three digit status code
    pub code: u16,
    /// The text lines of the reply
    pub message: Vec<String>,
}

/// The errors of the SMTP client.
#[derive(Debug, Clone, PartialEq, Eq)]
pub enum Error {
    /// Transient SMTP error, 4xx reply code
    Transient(Response),
    /// Permanent SMTP error, 5xx reply code
    Permanent(Response),
    /// Error parsing a response
    ResponseParsing(String),
    /// Internal client error
    Client(String),
    /// DNS resolution error
    Resolution,
    NoStream,
    NoServerInfo,
}

/// A negative reply is a permanent error for 5xx codes and a transient one
/// otherwise.
pub open spec fn error_of_spec(response: Response) -> Error {
    if 500 <= response.code < 600 {
        Error::Permanent(response)
    } else {
        Error::Transient(response)
    }
}

impl Error {
    /// The error that a server's negative reply stands for.
    pub fn from_response(response: Response) -> (r: Error)
        ensures
            r == error_of_spec(response),
    {
        if response.code >= 500 && response.code < 600 {
            Error::Permanent(response)
        } else {
            Error::Transient(response)
        }
    }
}

} // verus!
