//! TLS transport using rustls.
use vstd::prelude::*;
use bytes::BytesMut;
use std::sync::Arc;
use rustls::pki_types::ServerName;
use crate::buf::{
    bytes_mut_as_slice, bytes_mut_clear, bytes_mut_extend, bytes_mut_len, bytes_mut_seq,
    bytes_mut_split_to, bytes_mut_with_capacity,
};
use crate::io::{error_kind, io_error_from_kind, io_error_kind, io_error_new, IoErrorKind};
use super::plain::unsent;
use super::{Transport, TransportState};

verus! {

#[verifier::external_type_specification]
#[verifier::external_body]
pub struct ExClientConnection(rustls::ClientConnection);

#[verifier::external_type_specification]
#[verifier::external_body]
pub struct ExClientConfig(rustls::ClientConfig);

#[verifier::external_type_specification]
#[verifier::external_body]
pub struct ExRootCertStore(rustls::RootCertStore);

#[verifier::external_type_specification]
#[verifier::external_body]
pub struct ExIoState(rustls::IoState);

#[verifier::external_type_specification]
#[verifier::external_body]
pub struct ExTlsError(rustls::Error);

#[verifier::external_type_specification]
#[verifier::external_body]
pub struct ExServerName<'a>(ServerName<'a>);

/// Whether `ServerName::try_from` accepts `name`: a valid DNS name or an IP
/// address.
pub uninterp spec fn server_name_accepted(name: Seq<char>) -> bool;

/// `RootCertStore::from_iter` over `webpki_roots::TLS_SERVER_ROOTS`: the
/// Mozilla root certificates.
#[verifier::external_body]
fn webpki_root_store() -> (r: rustls::RootCertStore) {
    rustls::RootCertStore::from_iter(webpki_roots::TLS_SERVER_ROOTS.iter().cloned())
}

/// `ClientConfig::builder().with_root_certificates(roots).with_no_client_auth()`:
/// a client configuration that trusts `roots` and presents no client
/// certificate, with the process-default (ring) crypto provider.
#[verifier::external_body]
fn client_config(roots: rustls::RootCertStore) -> (r: rustls::ClientConfig) {
    rustls::ClientConfig::builder().with_root_certificates(roots).with_no_client_auth()
}

/// Sets the `alpn_protocols` field of a client configuration.
#[verifier::external_body]
fn set_alpn_protocols(config: &mut rustls::ClientConfig, protocols: Vec<Vec<u8>>) {
    config.alpn_protocols = protocols;
}

/// `ServerName::try_from(String)`: succeeds exactly on the names that
/// `server_name_accepted` holds of; its error becomes an `InvalidInput`
/// I/O error.
#[verifier::external_body]
fn parse_server_name(name: &str) -> (r: std::io::Result<ServerName<'static>>)
    ensures
        r is Ok <==> server_name_accepted(name@),
        r matches Err(e) ==> io_error_kind(e) == IoErrorKind::InvalidInput,
{
    ServerName::try_from(name.to_string()).map_err(
        |e| std::io::Error::new(std::io::ErrorKind::InvalidInput, e),
    )
}

/// `ClientConnection::new`: starts a client handshake with the server
/// `name`. Nothing is stated of whether it succeeds.
#[verifier::external_body]
fn new_client_connection(config: &Arc<rustls::ClientConfig>, name: ServerName<'static>) -> (r:
    Result<rustls::ClientConnection, rustls::Error>) {
    rustls::ClientConnection::new(config.clone(), name)
}

/// `std::io::Error::other` on a TLS error.
#[verifier::external_body]
fn tls_io_error(e: rustls::Error) -> (r: std::io::Error)
    ensures
        io_error_kind(r) == IoErrorKind::Other,
{
    std::io::Error::other(e)
}

/// `ClientConnection::read_tls` from a cursor over `data`: the number of
/// bytes of `data` that the connection took in, which is what one `read` of
/// the cursor gave, so at most `data.len()`.
#[verifier::external_body]
fn read_tls(conn: &mut rustls::ClientConnection, data: &[u8]) -> (r: std::io::Result<usize>)
    ensures
        r matches Ok(n) ==> n <= data@.len(),
{
    conn.read_tls(&mut std::io::Cursor::new(data))
}

/// `ClientConnection::process_new_packets`: the TLS records read so far are
/// processed. Nothing is stated of its outcome, which depends on the peer.
#[verifier::external_body]
fn process_new_packets(conn: &mut rustls::ClientConnection) -> (r: Result<
    rustls::IoState,
    rustls::Error,
>) {
    conn.process_new_packets()
}

/// `IoState::plaintext_bytes_to_read`.
#[verifier::external_body]
fn plaintext_bytes_to_read(state: &rustls::IoState) -> (r: usize) {
    state.plaintext_bytes_to_read()
}

/// `Read::read` on `ClientConnection::reader()`: by the contract of
/// `std::io::Read`, at most `buf.len()` bytes are read.
#[verifier::external_body]
fn read_plaintext(conn: &mut rustls::ClientConnection, buf: &mut [u8]) -> (r: std::io::Result<
    usize,
>)
    ensures
        final(buf)@.len() == old(buf)@.len(),
        r matches Ok(n) ==> n <= old(buf)@.len(),
{
    std::io::Read::read(&mut conn.reader(), buf)
}

/// `Write::write` on `ClientConnection::writer()`: by the contract of
/// `std::io::Write`, at most `data.len()` bytes are taken.
#[verifier::external_body]
fn write_plaintext(conn: &mut rustls::ClientConnection, data: &[u8]) -> (r: std::io::Result<
    usize,
>)
    ensures
        r matches Ok(n) ==> n <= data@.len(),
{
    std::io::Write::write(&mut conn.writer(), data)
}

/// `CommonState::is_handshaking`.
#[verifier::external_body]
fn is_handshaking(conn: &rustls::ClientConnection) -> (r: bool) {
    conn.is_handshaking()
}

/// `CommonState::wants_write`.
#[verifier::external_body]
fn wants_write(conn: &rustls::ClientConnection) -> (r: bool) {
    conn.wants_write()
}

/// `ClientConnection::write_tls` into a vector: `n` bytes are appended to
/// `buf`. It does not fail here: it fails only when the writer fails or
/// reports more than it was given, and a `Vec<u8>` writer appends all it is
/// given.
#[verifier::external_body]
fn write_tls(conn: &mut rustls::ClientConnection, buf: &mut Vec<u8>) -> (r: std::io::Result<
    usize,
>)
    ensures
        r is Ok,
        r matches Ok(n) ==> final(buf)@.len() == old(buf)@.len() + n && final(buf)@.take(
            old(buf)@.len() as int,
        ) == old(buf)@,
{
    conn.write_tls(buf)
}

/// `CommonState::alpn_protocol`: the protocol agreed by ALPN, if any.
#[verifier::external_body]
fn negotiated_alpn(conn: &rustls::ClientConnection) -> (r: Option<&[u8]>) {
    conn.alpn_protocol()
}

/// `CommonState::send_close_notify`: a `close_notify` alert is queued.
#[verifier::external_body]
fn send_close_notify(conn: &mut rustls::ClientConnection) {
    conn.send_close_notify()
}

/// TLS configuration for client connections.
pub struct TlsConfig {
    /// rustls client configuration.
    config: Arc<rustls::ClientConfig>,
}

impl TlsConfig {
    /// Create a new TLS configuration with default root certificates.
    pub fn new() -> (r: std::io::Result<Self>)
        ensures
            r is Ok,
    {
        let root_store = webpki_root_store();
        let config = client_config(root_store);
        Ok(Self { config: Arc::new(config) })
    }

    /// Create a TLS configuration with ALPN protocols.
    pub fn with_alpn(protocols: Vec<Vec<u8>>) -> (r: std::io::Result<Self>)
        ensures
            r is Ok,
    {
        let root_store = webpki_root_store();
        let mut config = client_config(root_store);
        set_alpn_protocols(&mut config, protocols);
        Ok(Self { config: Arc::new(config) })
    }

    /// Create a TLS configuration for HTTP/2: ALPN offers `h2`.
    pub fn http2() -> (r: std::io::Result<Self>)
        ensures
            r is Ok,
    {
        let h2: Vec<u8> = vec![0x68u8, 0x32u8];
        Self::with_alpn(vec![h2])
    }
}

impl Default for TlsConfig {
    fn default() -> (r: Self) {
        let root_store = webpki_root_store();
        let config = client_config(root_store);
        Self { config: Arc::new(config) }
    }
}

/// A TLS transport as plain values.
pub struct TlsTransportView {
    pub state: TransportState,
    /// Encrypted bytes received from the socket and not yet taken by TLS.
    pub incoming: Seq<u8>,
    /// Encrypted bytes waiting to go out on the socket.
    pub pending: Seq<u8>,
    /// Decrypted application data not yet read.
    pub plaintext: Seq<u8>,
}

/// TLS transport using rustls.
///
/// This wraps a rustls `ClientConnection` and provides a completion-based
/// interface.
pub struct TlsTransport {
    /// The TLS connection state.
    conn: rustls::ClientConnection,
    /// Current transport state.
    state: TransportState,
    /// Buffer for incoming encrypted data from the socket.
    incoming: BytesMut,
    /// Buffer for outgoing encrypted data to the socket.
    outgoing: BytesMut,
    /// How much of outgoing has been sent.
    outgoing_pos: usize,
    /// Buffer for decrypted application data.
    plaintext: BytesMut,
    /// The plaintext bytes that rustls's writer reported taking, in order.
    accepted: Ghost<Seq<u8>>,
}

impl View for TlsTransport {
    type V = TlsTransportView;

    closed spec fn view(&self) -> TlsTransportView {
        TlsTransportView {
            state: self.state,
            incoming: bytes_mut_seq(self.incoming),
            pending: unsent(bytes_mut_seq(self.outgoing), self.outgoing_pos),
            plaintext: bytes_mut_seq(self.plaintext),
        }
    }
}

/// `b` extends `a`: `a` is a prefix of `b`.
pub open spec fn extends(a: Seq<u8>, b: Seq<u8>) -> bool {
    a.len() <= b.len() && b.take(a.len() as int) == a
}

/// What holds of a TLS transport after TLS output was moved to the
/// outgoing buffer: only more bytes wait to go out.
pub open spec fn tls_output_added(old_v: TlsTransportView, new_v: TlsTransportView) -> bool {
    &&& new_v.state == old_v.state
    &&& new_v.incoming == old_v.incoming
    &&& new_v.plaintext == old_v.plaintext
    &&& extends(old_v.pending, new_v.pending)
}

/// What holds of a TLS transport after its received data was processed,
/// whatever the peer sent: some of the encrypted input was taken, data was
/// only added to the plaintext and outgoing buffers, and the state moved
/// from handshaking to ready, or to error when TLS failed.
pub open spec fn tls_processed(old_v: TlsTransportView, new_v: TlsTransportView) -> bool {
    &&& exists|k: int| 0 <= k <= old_v.incoming.len() && new_v.incoming == old_v.incoming.skip(k)
    &&& extends(old_v.plaintext, new_v.plaintext)
    &&& extends(old_v.pending, new_v.pending)
    &&& new_v.state == old_v.state || new_v.state == TransportState::Error || (old_v.state
        == TransportState::Handshaking && new_v.state == TransportState::Ready)
}

impl TlsTransport {
    /// Create a new TLS transport for the given server name.
    ///
    /// The handshake starts: its first flight waits in the outgoing buffer.
    pub fn new(config: &TlsConfig, server_name: &str) -> (r: std::io::Result<Self>)
        ensures
            !server_name_accepted(server_name@) ==> (r matches Err(e) && io_error_kind(e)
                == IoErrorKind::InvalidInput),
            server_name_accepted(server_name@) ==> (r matches Err(e) ==> io_error_kind(e)
                == IoErrorKind::Other),
            r matches Ok(t) ==> {
                &&& t@.state == TransportState::Handshaking
                &&& t@.incoming.len() == 0
                &&& t@.plaintext.len() == 0
            },
    {
        let name = match parse_server_name(server_name) {
            Ok(name) => name,
            Err(e) => return Err(e),
        };
        let conn = match new_client_connection(&config.config, name) {
            Ok(conn) => conn,
            Err(e) => return Err(tls_io_error(e)),
        };
        let mut transport = Self {
            conn,
            state: TransportState::Handshaking,
            incoming: bytes_mut_with_capacity(16384),
            outgoing: bytes_mut_with_capacity(16384),
            outgoing_pos: 0,
            plaintext: bytes_mut_with_capacity(16384),
            accepted: Ghost(Seq::empty()),
        };
        // Generate initial handshake data
        match transport.flush_tls_to_outgoing() {
            Ok(()) => {},
            Err(e) => return Err(e),
        }
        Ok(transport)
    }

    /// Move pending TLS output to the outgoing buffer.
    fn flush_tls_to_outgoing(&mut self) -> (r: std::io::Result<()>)
        ensures
            final(self).accepted == old(self).accepted,
            tls_output_added(old(self)@, final(self)@),
            r matches Err(e) ==> io_error_kind(e) == IoErrorKind::Other,
    {
        proof {
            lemma_extends_refl(old(self)@.pending);
        }
        if wants_write(&self.conn) {
            let mut buf: Vec<u8> = Vec::with_capacity(4096);
            loop
                invariant
                    self@ == old(self)@,
                    self.accepted == old(self).accepted,
                    extends(old(self)@.pending, old(self)@.pending),
                decreases usize::MAX - buf.len(),
            {
                match write_tls(&mut self.conn, &mut buf) {
                    Ok(0) => break ,
                    Ok(_) => {},
                    Err(e) => {
                        if error_kind(&e) == IoErrorKind::WouldBlock {
                            break ;
                        }
                        return Err(e);
                    },
                }
            }
            let ghost before = bytes_mut_seq(self.outgoing);
            let used = bytes_mut_len(&self.outgoing);
            if used > isize::MAX as usize || buf.len() > isize::MAX as usize - used {
                return Err(io_error_new(IoErrorKind::Other, "outgoing TLS buffer full"));
            }
            bytes_mut_extend(&mut self.outgoing, buf.as_slice());
            proof {
                lemma_unsent_extended(before, buf@, self.outgoing_pos);
            }
        }
        Ok(())
    }

    /// Get the negotiated ALPN protocol, if any.
    pub fn alpn_protocol(&self) -> Option<&[u8]> {
        negotiated_alpn(&self.conn)
    }
}

impl TlsTransport {
    /// Take what TLS decrypted into the plaintext buffer, reading at most
    /// `available` bytes.
    fn take_plaintext(&mut self, available: usize) -> (r: std::io::Result<()>)
        ensures
            final(self).accepted == old(self).accepted,
            final(self)@.state == old(self)@.state,
            final(self)@.incoming == old(self)@.incoming,
            final(self)@.pending == old(self)@.pending,
            extends(old(self)@.plaintext, final(self)@.plaintext),
            r matches Err(e) ==> io_error_kind(e) != IoErrorKind::WouldBlock,
    {
        proof {
            lemma_extends_refl(old(self)@.plaintext);
        }
        let mut remaining = available;
        let mut chunk = [0u8; 16384];
        while remaining > 0
            invariant
                plaintext_only_changed(old(self)@, self@),
                self.accepted == old(self).accepted,
                extends(old(self)@.plaintext, self@.plaintext),
                chunk@.len() == 16384,
            decreases remaining,
        {
            let n = match read_plaintext(&mut self.conn, &mut chunk) {
                Ok(n) => n,
                Err(e) => {
                    // No more plaintext to read for now.
                    if error_kind(&e) == IoErrorKind::WouldBlock {
                        break ;
                    }
                    return Err(e);
                },
            };
            if n == 0 {
                break ;
            }
            let used = bytes_mut_len(&self.plaintext);
            if used > isize::MAX as usize || n > isize::MAX as usize - used {
                return Err(io_error_new(IoErrorKind::Other, "plaintext buffer full"));
            }
            let got = vstd::slice::slice_subrange(&chunk, 0, n);
            let ghost before = self@.plaintext;
            bytes_mut_extend(&mut self.plaintext, got);
            proof {
                assert(self@.plaintext.take(before.len() as int) =~= before);
                lemma_extends_trans(old(self)@.plaintext, before, self@.plaintext);
            }
            remaining = if n >= remaining {
                0
            } else {
                remaining - n
            };
        }
        Ok(())
    }

    /// Process TLS state and move data between buffers.
    fn process_tls(&mut self) -> (r: std::io::Result<()>)
        ensures
            final(self).accepted == old(self).accepted,
            tls_processed(old(self)@, final(self)@),
            r matches Err(e) ==> io_error_kind(e) != IoErrorKind::WouldBlock,
            r is Ok ==> final(self)@.state == old(self)@.state || (old(self)@.state
                == TransportState::Handshaking && final(self)@.state == TransportState::Ready),
    {
        proof {
            lemma_extends_refl(old(self)@.plaintext);
            lemma_extends_refl(old(self)@.pending);
            assert(old(self)@.incoming.skip(0) =~= old(self)@.incoming);
        }
        // Feed incoming encrypted data to TLS
        let len = bytes_mut_len(&self.incoming);
        if len > 0 {
            match read_tls(&mut self.conn, bytes_mut_as_slice(&self.incoming)) {
                Ok(n) => {
                    let _ = bytes_mut_split_to(&mut self.incoming, n);
                },
                Err(e) => {
                    if error_kind(&e) != IoErrorKind::WouldBlock {
                        return Err(e);
                    }
                },
            }
        }
        let ghost v1 = self@;
        // Process TLS messages
        match process_new_packets(&mut self.conn) {
            Ok(io_state) => {
                // Read any decrypted data
                let available = plaintext_bytes_to_read(&io_state);
                if available > 0 {
                    match self.take_plaintext(available) {
                        Ok(()) => {},
                        Err(e) => return Err(e),
                    }
                }
                // Check if handshake completed
                if self.state == TransportState::Handshaking && !is_handshaking(&self.conn) {
                    self.state = TransportState::Ready;
                }
            },
            Err(e) => {
                self.state = TransportState::Error;
                return Err(tls_io_error(e));
            },
        }
        let ghost v2 = self@;
        // Flush any pending TLS output
        let r = self.flush_tls_to_outgoing();
        proof {
            lemma_extends_trans(old(self)@.pending, v2.pending, self@.pending);
        }
        r
    }
}

impl Transport for TlsTransport {
    closed spec fn accepted(&self) -> Seq<u8> {
        self.accepted@
    }

    closed spec fn pending_bytes(&self) -> Seq<u8> {
        self@.pending
    }

    fn state(&self) -> (r: TransportState)
        ensures
            r == self@.state,
    {
        self.state
    }

    /// Encrypts what TLS takes of `data` once the handshake is complete.
    fn send(&mut self, data: &[u8]) -> (r: std::io::Result<usize>)
        ensures
            old(self)@.state != TransportState::Ready ==> {
                &&& r is Err
                &&& io_error_kind(r->Err_0) == IoErrorKind::NotConnected
                &&& final(self)@ == old(self)@
            },
            old(self)@.state == TransportState::Ready ==> tls_output_added(old(self)@, final(self)@),
    {
        proof {
            assert(self.accepted@ + data@.take(0) =~= self.accepted@);
        }
        if self.state != TransportState::Ready {
            return Err(io_error_new(IoErrorKind::NotConnected, "TLS handshake not complete"));
        }
        proof {
            lemma_extends_refl(old(self)@.pending);
        }
        // Write plaintext to TLS
        let n = match write_plaintext(&mut self.conn, data) {
            Ok(n) => n,
            Err(e) => return Err(e),
        };
        self.accepted = Ghost(self.accepted@ + data@.take(n as int));
        // Encrypt and move to outgoing buffer
        match self.flush_tls_to_outgoing() {
            Ok(()) => {},
            Err(e) => return Err(e),
        }
        Ok(n)
    }

    /// Reads as much decrypted data as fits in `buf`.
    fn recv(&mut self, buf: &mut [u8]) -> (r: std::io::Result<usize>)
        ensures
            final(buf)@.len() == old(buf)@.len(),
            r matches Ok(n) ==> n <= old(buf)@.len(),
            old(self)@.plaintext.len() == 0 ==> {
                &&& r is Err
                &&& io_error_kind(r->Err_0) == IoErrorKind::WouldBlock
                &&& final(self)@ == old(self)@
                &&& final(buf)@ == old(buf)@
            },
            old(self)@.plaintext.len() > 0 ==> {
                let n = if old(buf)@.len() < old(self)@.plaintext.len() {
                    old(buf)@.len()
                } else {
                    old(self)@.plaintext.len()
                };
                &&& r == Ok::<usize, std::io::Error>(n as usize)
                &&& final(buf)@ == old(self)@.plaintext.take(n as int) + old(buf)@.skip(n as int)
                &&& final(self)@ == (TlsTransportView {
                    plaintext: old(self)@.plaintext.skip(n as int),
                    ..old(self)@
                })
            },
    {
        let len = bytes_mut_len(&self.plaintext);
        if len == 0 {
            return Err(io_error_from_kind(IoErrorKind::WouldBlock));
        }
        let n = if buf.len() < len {
            buf.len()
        } else {
            len
        };
        let src = bytes_mut_as_slice(&self.plaintext);
        let mut i: usize = 0;
        while i < n
            invariant
                i <= n,
                n <= buf@.len(),
                n <= src@.len(),
                buf@.len() == old(buf)@.len(),
                forall|j: int| 0 <= j < i ==> buf@[j] == src@[j],
                forall|j: int| i <= j < buf@.len() ==> buf@[j] == old(buf)@[j],
            decreases n - i,
        {
            buf[i] = src[i];
            i = i + 1;
        }
        // Remove read bytes
        let _ = bytes_mut_split_to(&mut self.plaintext, n);
        proof {
            assert(buf@ =~= old(self)@.plaintext.take(n as int) + old(buf)@.skip(n as int));
        }
        Ok(n)
    }

    /// Takes in encrypted bytes from the socket and processes them; the
    /// incoming buffer refuses (`WouldBlock`) only bytes that would take it
    /// past `isize::MAX`.
    fn on_recv(&mut self, data: &[u8]) -> (r: std::io::Result<()>)
        ensures
            (r matches Err(e) && io_error_kind(e) == IoErrorKind::WouldBlock) <==> old(
                self,
            )@.incoming.len() + data@.len() > isize::MAX,
            old(self)@.incoming.len() + data@.len() > isize::MAX ==> final(self)@ == old(self)@,
            old(self)@.incoming.len() + data@.len() <= isize::MAX ==> tls_processed(
                TlsTransportView { incoming: old(self)@.incoming + data@, ..old(self)@ },
                final(self)@,
            ),
            r is Ok ==> final(self)@.state == old(self)@.state || (old(self)@.state
                == TransportState::Handshaking && final(self)@.state == TransportState::Ready),
    {
        let used = bytes_mut_len(&self.incoming);
        if used > isize::MAX as usize || data.len() > isize::MAX as usize - used {
            return Err(io_error_from_kind(IoErrorKind::WouldBlock));
        }
        bytes_mut_extend(&mut self.incoming, data);
        self.process_tls()
    }

    fn pending_send(&self) -> (r: &[u8])
        ensures
            r@ == self@.pending,
    {
        let len = bytes_mut_len(&self.outgoing);
        let all = bytes_mut_as_slice(&self.outgoing);
        if self.outgoing_pos <= len {
            vstd::slice::slice_subrange(all, self.outgoing_pos, len)
        } else {
            let r = vstd::slice::slice_subrange(all, len, len);
            assert(r@ =~= Seq::<u8>::empty());
            r
        }
    }

    /// Drops the first `n` pending bytes, or all of them.
    fn advance_send(&mut self, n: usize)
        ensures
            final(self)@ == (TlsTransportView {
                pending: if n < old(self)@.pending.len() {
                    old(self)@.pending.skip(n as int)
                } else {
                    Seq::empty()
                },
                ..old(self)@
            }),
    {
        let len = bytes_mut_len(&self.outgoing);
        if self.outgoing_pos >= len || n >= len - self.outgoing_pos {
            // All data sent: clear the buffer
            bytes_mut_clear(&mut self.outgoing);
            self.outgoing_pos = 0;
            proof {
                assert(self@.pending =~= Seq::<u8>::empty());
            }
        } else {
            self.outgoing_pos = self.outgoing_pos + n;
            proof {
                assert(self@.pending =~= old(self)@.pending.skip(n as int));
            }
        }
    }

    /// Queues a `close_notify` alert and closes the transport.
    fn shutdown(&mut self) -> (r: std::io::Result<()>)
        ensures
            r is Ok ==> final(self)@.state == TransportState::Closed,
            final(self)@.incoming == old(self)@.incoming,
            final(self)@.plaintext == old(self)@.plaintext,
            extends(old(self)@.pending, final(self)@.pending),
    {
        send_close_notify(&mut self.conn);
        match self.flush_tls_to_outgoing() {
            Ok(()) => {},
            Err(e) => return Err(e),
        }
        self.state = TransportState::Closed;
        Ok(())
    }
}

/// Of the fields of a TLS transport, at most the plaintext differs.
pub open spec fn plaintext_only_changed(old_v: TlsTransportView, new_v: TlsTransportView) -> bool {
    &&& new_v.state == old_v.state
    &&& new_v.incoming == old_v.incoming
    &&& new_v.pending == old_v.pending
}

/// Every sequence extends itself.
proof fn lemma_extends_refl(s: Seq<u8>)
    ensures
        extends(s, s),
{
    assert(s.take(s.len() as int) =~= s);
}

/// Extending is transitive.
proof fn lemma_extends_trans(a: Seq<u8>, b: Seq<u8>, c: Seq<u8>)
    requires
        extends(a, b),
        extends(b, c),
    ensures
        extends(a, c),
{
    assert(c.take(a.len() as int) =~= c.take(b.len() as int).take(a.len() as int));
}

/// Appending to the outgoing bytes appends to the unsent ones.
proof fn lemma_unsent_extended(buf: Seq<u8>, extra: Seq<u8>, pos: usize)
    ensures
        extends(unsent(buf, pos), unsent(buf + extra, pos)),
{
    if pos <= buf.len() {
        assert((buf + extra).skip(pos as int).take((buf.len() - pos) as int)
            =~= buf.skip(pos as int));
    } else if pos <= buf.len() + extra.len() {
        assert(unsent(buf, pos) =~= Seq::<u8>::empty());
        assert(unsent(buf + extra, pos).take(0) =~= Seq::<u8>::empty());
    } else {
        assert(unsent(buf, pos) =~= Seq::<u8>::empty());
        assert(unsent(buf + extra, pos).take(0) =~= Seq::<u8>::empty());
    }
}

} // verus!
