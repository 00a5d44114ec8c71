//! A byte stream that can be upgraded to TLS in band: plain, handshaking,
//! encrypted. The same state machine serves STARTTLS on both sides.
use vstd::prelude::*;
use vstd::string::*;
use crate::session::{SessionInfo, SmtpExtension};

verus! {

/// Starts a TLS handshake over a plain stream `S`; the handshake in flight is
/// an `H`. Implemented by TLS providers.
pub trait TlsUpgrade<S, H>: Sized {
    /// Whether an upgrade can be made: the setup it needs is present.
    fn is_enabled(&self) -> bool;

    /// Starts the handshake over `stream`, for the peer of the given name.
    fn upgrade_to_tls(self, stream: S, name: String) -> H;
}

/// The stages of the stream.
#[derive(Debug)]
pub enum TlsState<S, E, U, H> {
    /// Plain stream with its potential upgrade
    Plain(S, U),
    /// Pending TLS handshake
    Handshake(H),
    /// Encrypted stream
    Encrypted(E),
    /// The handshake failed: the stream is broken for good
    Failed,
    /// Transitional state while the plain stream is moved into its upgrade,
    /// inside `encrypt` only
    Moved,
}

/// The error of an upgrade asked for outside of the plain stage.
#[derive(Debug, Clone, Copy, PartialEq, Eq, Structural)]
pub enum TlsError {
    InvalidState,
}

/// Whether the TLS connection is made at once or by STARTTLS.
#[derive(Debug, Copy, Clone, PartialEq, Eq, Structural)]
pub enum TlsMode {
    Tls,
    StartTls,
}

/// A stream that may be upgraded to TLS: plain `S`, encrypted `E`, upgrade
/// `U`, handshake in flight `H`.
#[derive(Debug)]
pub struct NetworkStream<S, E, U, H> {
    pub state: TlsState<S, E, U, H>,
    pub peer_addr: Option<String>,
    pub peer_name: String,
}

/// `encrypt` moves a plain stream to the handshake and refuses, changing
/// nothing, in every other stage.
pub open spec fn encrypt_spec<S, E, U, H>(
    pre: NetworkStream<S, E, U, H>,
    post: NetworkStream<S, E, U, H>,
    r: Result<(), TlsError>,
) -> bool {
    if pre.state is Plain {
        &&& r is Ok
        &&& post.state is Handshake
        &&& post.peer_addr == pre.peer_addr
        &&& post.peer_name == pre.peer_name
    } else {
        r == Err::<(), TlsError>(TlsError::InvalidState) && post == pre
    }
}

/// A finished handshake makes the stream encrypted; in any other stage the
/// encrypted stream is handed back and nothing changes.
pub open spec fn handshake_done_spec<S, E, U, H>(
    pre: NetworkStream<S, E, U, H>,
    post: NetworkStream<S, E, U, H>,
    e: E,
    r: Result<(), E>,
) -> bool {
    if pre.state is Handshake {
        &&& r is Ok
        &&& post.state == TlsState::<S, E, U, H>::Encrypted(e)
        &&& post.peer_addr == pre.peer_addr
        &&& post.peer_name == pre.peer_name
    } else {
        r == Err::<(), E>(e) && post == pre
    }
}

impl<S, E, U, H> NetworkStream<S, E, U, H> {
    /// True in the handshake and encrypted stages.
    pub open spec fn is_encrypted_spec(&self) -> bool {
        self.state is Handshake || self.state is Encrypted
    }

    /// A plain stream with its potential upgrade.
    pub fn new(stream: S, upgrade: U, peer_name: String, peer_addr: Option<String>) -> (r: Self)
        ensures
            r.state == TlsState::<S, E, U, H>::Plain(stream, upgrade),
            r.peer_name == peer_name,
            r.peer_addr == peer_addr,
    {
        NetworkStream { state: TlsState::Plain(stream, upgrade), peer_addr, peer_name }
    }

    /// Returns true if the stream is encrypted or hand shaking.
    pub fn is_encrypted(&self) -> (r: bool)
        ensures
            r == self.is_encrypted_spec(),
    {
        match self.state {
            TlsState::Plain(_, _) => false,
            TlsState::Handshake(_) => true,
            TlsState::Encrypted(_) => true,
            TlsState::Failed => false,
            TlsState::Moved => false,
        }
    }

    /// The peer's address, if known.
    pub fn peer_addr(&self) -> (r: Option<String>)
        ensures
            r == self.peer_addr,
    {
        self.peer_addr.clone()
    }

    /// Takes the result of the handshake.
    pub fn handshake_done(&mut self, e: E) -> (r: Result<(), E>)
        ensures
            handshake_done_spec(*old(self), *final(self), e, r),
    {
        if let TlsState::Handshake(_) = self.state {
            self.state = TlsState::Encrypted(e);
            Ok(())
        } else {
            Err(e)
        }
    }

    /// Takes the failure of the handshake: the stream is broken from now on.
    pub fn handshake_failed(&mut self) -> (r: bool)
        ensures
            r == old(self).state is Handshake,
            r ==> final(self).state is Failed,
            !r ==> *final(self) == *old(self),
            final(self).peer_addr == old(self).peer_addr,
            final(self).peer_name == old(self).peer_name,
    {
        if let TlsState::Handshake(_) = self.state {
            self.state = TlsState::Failed;
            true
        } else {
            false
        }
    }
}

impl<S, E, U: TlsUpgrade<S, H>, H> NetworkStream<S, E, U, H> {
    /// Initiates the TLS negotiation; reads and writes must wait until the
    /// handshake is done.
    pub fn encrypt(&mut self) -> (r: Result<(), TlsError>)
        ensures
            encrypt_spec(*old(self), *final(self), r),
    {
        let mut st = TlsState::Moved;
        core::mem::swap(&mut self.state, &mut st);
        match st {
            TlsState::Plain(stream, upgrade) => {
                let name = self.peer_name.clone();
                self.state = TlsState::Handshake(upgrade.upgrade_to_tls(stream, name));
                Ok(())
            },
            otherwise => {
                self.state = otherwise;
                Err(TlsError::InvalidState)
            },
        }
    }

    /// Returns true only if calling `encrypt` would make sense: the stream is
    /// plain and its upgrade says it is enabled. What the upgrade says is its
    /// implementer's; outside the plain stage the answer is false.
    pub fn can_encrypt(&self) -> (r: bool)
        ensures
            r ==> self.state is Plain,
            !(self.state is Plain) ==> !r,
    {
        match &self.state {
            TlsState::Plain(_, upgrade) => upgrade.is_enabled(),
            _ => false,
        }
    }
}

/// A stream that may be able to upgrade to TLS, but maybe not.
pub trait MaybeTls {
    /// Initiates the TLS negotiation.
    fn encrypt(&mut self) -> Result<(), TlsError>;

    /// True only if calling `encrypt` would make sense.
    fn can_encrypt(&self) -> bool;

    /// True if the stream is encrypted or hand shaking.
    fn is_encrypted(&self) -> bool;
}

impl<S, E, U: TlsUpgrade<S, H>, H> MaybeTls for NetworkStream<S, E, U, H> {
    fn encrypt(&mut self) -> Result<(), TlsError> {
        NetworkStream::encrypt(self)
    }

    fn can_encrypt(&self) -> bool {
        NetworkStream::can_encrypt(self)
    }

    fn is_encrypted(&self) -> bool {
        NetworkStream::is_encrypted(self)
    }
}

/// `host` is the part of `address` before its first colon: the whole address
/// where it has none.
pub open spec fn host_of_spec(address: Seq<char>, host: Seq<char>) -> bool {
    &&& host.len() <= address.len()
    &&& host == address.take(host.len() as int)
    &&& forall|j: int| 0 <= j < host.len() ==> address[j] != ':'
    &&& host.len() == address.len() || address[host.len() as int] == ':'
}

/// The host named by a server address: the port, if any, is cut off.
pub fn host_of_address(address: &str) -> (r: String)
    ensures
        host_of_spec(address@, r@),
{
    let n = address.unicode_len();
    let mut i: usize = 0;
    while i < n
        invariant
            n == address@.len(),
            i <= n,
            forall|j: int| 0 <= j < i ==> address@[j] != ':',
        ensures
            i <= n,
            forall|j: int| 0 <= j < i ==> address@[j] != ':',
            i == n || address@[i as int] == ':',
        decreases n - i,
    {
        if address.get_char(i) == ':' {
            break;
        }
        i = i + 1;
    }
    let host = String::from_str(address.substring_char(0, i));
    assert(host@ =~= address@.take(i as int));
    host
}

/// Makes TCP connections, upgraded according to the TLS mode.
#[derive(Debug)]
pub struct TcpConnector<TLS> {
    pub tls_mode: TlsMode,
    pub provider: TLS,
}

impl<TLS> TcpConnector<TLS> {
    pub fn new(tls_mode: TlsMode, provider: TLS) -> (r: Self)
        ensures
            r.tls_mode == tls_mode,
            r.provider == provider,
    {
        TcpConnector { tls_mode, provider }
    }

    /// Applies the TLS mode to a fresh connection: with `Tls` the handshake
    /// starts at once; with `StartTls` the stream stays as it is.
    pub fn start_tls_mode<S, E, U: TlsUpgrade<S, H>, H>(&self, stream: &mut NetworkStream<S, E, U, H>) -> (r: Result<(), TlsError>)
        ensures
            self.tls_mode is Tls ==> encrypt_spec(*old(stream), *final(stream), r),
            self.tls_mode is StartTls ==> r is Ok && *final(stream) == *old(stream),
    {
        match self.tls_mode {
            TlsMode::Tls => stream.encrypt(),
            TlsMode::StartTls => Ok(()),
        }
    }
}

/// STARTTLS, RFC 3207: offers the upgrade where it can be made.
#[derive(Debug, Clone, PartialEq, Eq)]
pub struct StartTls;

/// Whether a TLS provider is configured.
#[derive(Debug, Clone, Copy, PartialEq, Eq, Structural)]
pub struct TlsService {
    pub available: bool,
}

impl StartTls {
    /// Offers STARTTLS on a session whose connection is not encrypted yet,
    /// where TLS is available. Returns whether it is offered.
    pub fn prepare_session(&self, session: &mut SessionInfo, tls: TlsService) -> (r: bool)
        ensures
            r == (!old(session).connection.encrypted && tls.available),
            r ==> final(session).extensions@ == if old(session).extensions@.contains(
                SmtpExtension::StartTls,
            ) {
                old(session).extensions@
            } else {
                old(session).extensions@.push(SmtpExtension::StartTls)
            },
            !r ==> *final(session) == *old(session),
            final(session).connection == old(session).connection,
            final(session).service_name == old(session).service_name,
            final(session).smtp_helo == old(session).smtp_helo,
            final(session).peer_name == old(session).peer_name,
    {
        if !session.connection.encrypted && tls.available {
            session.extensions.enable(SmtpExtension::StartTls);
            true
        } else {
            false
        }
    }
}

} // verus!
