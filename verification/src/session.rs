//! Secure-channel upgrade: session configuration and the worker-task
//! discipline that bridges the blocking attestation provider into the
//! cooperative world.
//!
//! The attestation provider is an opaque synchronous API: initialize a
//! session from a configuration, negotiate against a socket, then transmit
//! and receive bytes.  Its calls block and cannot be canceled, so a secured
//! connection is served by a fixed-capacity in-memory duplex pipe and two
//! dedicated worker tasks — a writer that drains the pipe into the
//! provider's transmit call and a reader that feeds the provider's receive
//! results back into the pipe.  This module holds everything about that
//! arrangement that is decidable from plain values: how the session
//! configuration is laid out, when an upgrade may proceed and when it has
//! failed, and what each worker does with each outcome the provider hands
//! back.  The process performs the blocking calls and reports their results
//! as events.

use vstd::prelude::*;

use crate::error::NegotiationError;

verus! {

/// Length of each fixed name buffer of the provider's configuration.
pub const PROFILE_NAME_LEN: usize = 32;

/// Configuration flag bit demanding mutual (both-sided) attestation.
pub const SESSION_FLAG_MUTUAL: u64 = 1;

/// Configuration flag bit selecting the responder (server) role.
pub const SESSION_FLAG_SERVER: u64 = 2;

/// Capacity, in bytes, of the in-memory duplex pipe between the cooperative
/// world and the provider's worker tasks.
pub const PIPE_CAPACITY: usize = 1024;

/// Size of the scratch buffer each worker task reads into.
pub const WORKER_BUF_LEN: usize = 1024;

/// A name padded with zero bytes to the provider's fixed buffer length.
pub open spec fn spec_padded_name(name: Seq<u8>) -> Seq<u8>
    recommends
        name.len() <= PROFILE_NAME_LEN,
{
    name + Seq::new((PROFILE_NAME_LEN - name.len()) as nat, |i: int| 0u8)
}

/// Writes `name` into a fresh zeroed buffer of the provider's fixed length.
pub fn pad_name(name: &[u8]) -> (r: Vec<u8>)
    requires
        name@.len() <= PROFILE_NAME_LEN,
    ensures
        r@ == spec_padded_name(name@),
        r@.len() == PROFILE_NAME_LEN,
{
    let mut r: Vec<u8> = Vec::new();
    let mut i: usize = 0;
    while i < name.len()
        invariant
            i <= name@.len(),
            name@.len() <= PROFILE_NAME_LEN,
            r@ == name@.subrange(0, i as int),
        decreases name@.len() - i,
    {
        r.push(name[i]);
        i = i + 1;
        assert(r@ =~= name@.subrange(0, i as int));
    }
    assert(r@ =~= name@);
    while i < PROFILE_NAME_LEN
        invariant
            name@.len() <= i <= PROFILE_NAME_LEN,
            r@.len() == i,
            r@ == name@ + Seq::new((i - name@.len()) as nat, |k: int| 0u8),
        decreases PROFILE_NAME_LEN - i,
    {
        r.push(0);
        i = i + 1;
        assert(r@ =~= name@ + Seq::new((i - name@.len()) as nat, |k: int| 0u8));
    }
    r
}

/// The provider's session configuration, with every name buffer already
/// padded to its fixed length.
pub struct SessionConf {
    /// Transport layer implementation name (padded).
    pub tls_type: Vec<u8>,
    /// Cryptography implementation name (padded).
    pub crypto_type: Vec<u8>,
    /// Evidence-generation (attester) profile name (padded).
    pub attester_type: Vec<u8>,
    /// Evidence-checking (verifier) profile name (padded).
    pub verifier_type: Vec<u8>,
    /// Enclave the evidence speaks for, where one applies.
    pub enclave_id: u64,
    /// Role and attestation-policy flag bits.
    pub flags: u64,
}

/// The view of a name option: the named bytes, or empty when absent.
pub open spec fn spec_name_of(name: Option<&[u8]>) -> Seq<u8> {
    match name {
        Some(n) => n@,
        None => Seq::empty(),
    }
}

/// A session handle of the attestation provider, as far as the logic sees
/// it: the configuration the session was created from.
pub struct RatsTls {
    /// The configuration handed to the provider at initialization.
    pub conf: SessionConf,
}

impl RatsTls {
    /// Lays out the provider configuration for one session: each given name
    /// is placed in its zero-padded fixed buffer (an absent name leaves the
    /// buffer zeroed), and the role and mutual-attestation choices become
    /// flag bits.  The provider itself then accepts or refuses the session;
    /// its answer is an [`UpgradeEvent`].
    pub fn new(
        server: bool,
        enclave_id: u64,
        tls_type: Option<&[u8]>,
        crypto: Option<&[u8]>,
        attester: Option<&[u8]>,
        verifier: Option<&[u8]>,
        mutual: bool,
    ) -> (r: RatsTls)
        requires
            spec_name_of(tls_type).len() <= PROFILE_NAME_LEN,
            spec_name_of(crypto).len() <= PROFILE_NAME_LEN,
            spec_name_of(attester).len() <= PROFILE_NAME_LEN,
            spec_name_of(verifier).len() <= PROFILE_NAME_LEN,
        ensures
            r.conf.tls_type@ == spec_padded_name(spec_name_of(tls_type)),
            r.conf.crypto_type@ == spec_padded_name(spec_name_of(crypto)),
            r.conf.attester_type@ == spec_padded_name(spec_name_of(attester)),
            r.conf.verifier_type@ == spec_padded_name(spec_name_of(verifier)),
            r.conf.enclave_id == enclave_id,
            r.conf.flags == (if mutual {
                SESSION_FLAG_MUTUAL
            } else {
                0u64
            }) | (if server {
                SESSION_FLAG_SERVER
            } else {
                0u64
            }),
    {
        let mutual_bit: u64 = if mutual {
            SESSION_FLAG_MUTUAL
        } else {
            0
        };
        let server_bit: u64 = if server {
            SESSION_FLAG_SERVER
        } else {
            0
        };
        let flags: u64 = mutual_bit | server_bit;
        RatsTls {
            conf: SessionConf {
                tls_type: pad_name(unwrap_name(tls_type)),
                crypto_type: pad_name(unwrap_name(crypto)),
                attester_type: pad_name(unwrap_name(attester)),
                verifier_type: pad_name(unwrap_name(verifier)),
                enclave_id,
                flags,
            },
        }
    }
}

/// The bytes of an optional name; an absent name is empty.
fn unwrap_name<'a>(name: Option<&'a [u8]>) -> (r: &'a [u8])
    ensures
        r@ == spec_name_of(name),
{
    match name {
        Some(n) => n,
        None => &[],
    }
}

/// Security state of one connection.
#[derive(Clone, Copy, Debug, PartialEq, Eq, Structural)]
pub enum ChannelState {
    /// Plain TCP, upgrade not yet decided.
    Raw,
    /// Attested upgrade in progress.
    Negotiating,
    /// Usable duplex stream — either the handshake succeeded or no upgrade
    /// was requested.
    Secured,
    /// The upgrade failed; the connection attempt is over.
    Failed,
}

/// What the process reports about an upgrade in progress.
#[derive(Clone, Copy, Debug, PartialEq, Eq, Structural)]
pub enum UpgradeEvent {
    /// This connection does not request attestation.
    UpgradeNotRequested,
    /// The provider accepted the session configuration.
    InitOk,
    /// The provider refused the session, with its error code.
    InitFailed { code: u64 },
    /// The blocking handshake against the socket succeeded.
    HandshakeOk,
    /// The blocking handshake failed.
    HandshakeFailed,
}

/// What the process must do next with this connection.
#[derive(Clone, Copy, Debug, PartialEq, Eq, Structural)]
pub enum UpgradeAction {
    /// Hand the raw stream on unchanged.
    UseRawStream,
    /// Run the provider's blocking handshake on a dedicated thread.
    RunHandshake,
    /// Allocate the duplex pipe and spawn the two worker tasks.
    SpawnWorkers,
    /// Close the raw socket; nothing further runs for this connection.
    CloseSocket,
}

/// Which events can arrive in which state.
pub open spec fn upgrade_event_ok(s: ChannelState, ev: UpgradeEvent) -> bool {
    match ev {
        UpgradeEvent::UpgradeNotRequested => s is Raw,
        UpgradeEvent::InitOk => s is Raw,
        UpgradeEvent::InitFailed { .. } => s is Raw,
        UpgradeEvent::HandshakeOk => s is Negotiating,
        UpgradeEvent::HandshakeFailed => s is Negotiating,
    }
}

/// The upgrade transition: a connection without upgrade is usable at once;
/// an accepted session moves to negotiation; a successful handshake spawns
/// the workers; any provider failure ends the attempt and closes the socket.
pub open spec fn upgrade_step(s: ChannelState, ev: UpgradeEvent) -> (ChannelState, UpgradeAction)
    recommends
        upgrade_event_ok(s, ev),
{
    match ev {
        UpgradeEvent::UpgradeNotRequested => (ChannelState::Secured, UpgradeAction::UseRawStream),
        UpgradeEvent::InitOk => (ChannelState::Negotiating, UpgradeAction::RunHandshake),
        UpgradeEvent::InitFailed { .. } => (ChannelState::Failed, UpgradeAction::CloseSocket),
        UpgradeEvent::HandshakeOk => (ChannelState::Secured, UpgradeAction::SpawnWorkers),
        UpgradeEvent::HandshakeFailed => (ChannelState::Failed, UpgradeAction::CloseSocket),
    }
}

/// Tracks one connection's upgrade from raw socket to usable stream.
pub struct Upgrader {
    /// Where the connection stands.
    pub state: ChannelState,
    /// The failure that ended the attempt, once one has.
    pub error: Option<NegotiationError>,
}

impl Upgrader {
    /// A freshly accepted or dialed raw connection.
    pub fn new() -> (u: Upgrader)
        ensures
            u.state == ChannelState::Raw,
            u.error is None,
    {
        Upgrader { state: ChannelState::Raw, error: None }
    }

    /// Feeds the upgrade one event and follows [`upgrade_step`] exactly,
    /// recording the error that a failing event carries.
    pub fn on_event(&mut self, ev: UpgradeEvent) -> (a: UpgradeAction)
        requires
            upgrade_event_ok(old(self).state, ev),
            old(self).error is None,
        ensures
            final(self).state == upgrade_step(old(self).state, ev).0,
            a == upgrade_step(old(self).state, ev).1,
            (match ev {
                UpgradeEvent::InitFailed { code } => final(self).error == Some(
                    NegotiationError::InitFailed { code },
                ),
                UpgradeEvent::HandshakeFailed => final(self).error == Some(
                    NegotiationError::HandshakeFailed,
                ),
                _ => final(self).error is None,
            }),
    {
        match ev {
            UpgradeEvent::UpgradeNotRequested => {
                self.state = ChannelState::Secured;
                UpgradeAction::UseRawStream
            },
            UpgradeEvent::InitOk => {
                self.state = ChannelState::Negotiating;
                UpgradeAction::RunHandshake
            },
            UpgradeEvent::InitFailed { code } => {
                self.state = ChannelState::Failed;
                self.error = Some(NegotiationError::InitFailed { code });
                UpgradeAction::CloseSocket
            },
            UpgradeEvent::HandshakeOk => {
                self.state = ChannelState::Secured;
                UpgradeAction::SpawnWorkers
            },
            UpgradeEvent::HandshakeFailed => {
                self.state = ChannelState::Failed;
                self.error = Some(NegotiationError::HandshakeFailed);
                UpgradeAction::CloseSocket
            },
        }
    }

    /// The attempt's result: the stream is usable exactly when the upgrade
    /// reached `Secured`; a failed attempt names its negotiation error.
    pub fn outcome(&self) -> (r: Result<(), NegotiationError>)
        requires
            self.state is Secured || self.state is Failed,
            self.state is Failed <==> self.error is Some,
        ensures
            r == Ok::<(), NegotiationError>(()) <==> self.state is Secured,
            (r matches Err(e) && Some(e) == self.error) <==> self.state is Failed,
    {
        match self.error {
            Some(e) => Err(e),
            None => Ok(()),
        }
    }
}

/// A provider failure never yields a usable stream: the attempt moves to
/// `Failed`, the only action is to close the raw socket, and in particular
/// no worker task is spawned.
pub proof fn lemma_failure_never_secures(s: ChannelState, ev: UpgradeEvent)
    requires
        upgrade_event_ok(s, ev),
        ev matches UpgradeEvent::InitFailed { .. } || ev is HandshakeFailed,
    ensures
        upgrade_step(s, ev).0 is Failed,
        upgrade_step(s, ev).1 == UpgradeAction::CloseSocket,
{
}

/// Worker tasks exist only for connections whose handshake succeeded: the
/// spawn action occurs exactly on a successful handshake out of
/// negotiation.
pub proof fn lemma_workers_only_after_handshake(s: ChannelState, ev: UpgradeEvent)
    requires
        upgrade_event_ok(s, ev),
        upgrade_step(s, ev).1 is SpawnWorkers,
    ensures
        s is Negotiating,
        ev is HandshakeOk,
        upgrade_step(s, ev).0 is Secured,
{
}

/// Progress of handing one buffer of pipe bytes to the provider's transmit
/// call, which may accept any prefix of what it is offered.  The drain
/// offers the untransmitted suffix again and again, so the buffer's bytes
/// reach the provider contiguously, in order, each exactly once.
pub struct TransmitDrain {
    /// How many bytes the buffer holds.
    pub len: usize,
    /// How many leading bytes the provider has accepted so far.
    pub off: usize,
    /// Whether a transmit call failed; the buffer's remainder is abandoned
    /// and the writer task winds down.
    pub failed: bool,
}

impl TransmitDrain {
    /// The offset never runs past the buffer.
    pub open spec fn wf(self) -> bool {
        self.off <= self.len
    }

    /// Whether every byte of the buffer has been handed over.
    pub open spec fn done(self) -> bool {
        self.off == self.len && !self.failed
    }

    /// Starts draining a buffer of `len` bytes.
    pub fn new(len: usize) -> (d: TransmitDrain)
        ensures
            d.wf(),
            d.len == len,
            d.off == 0,
            !d.failed,
    {
        TransmitDrain { len, off: 0, failed: false }
    }

    /// The byte range to offer the provider next: the whole untransmitted
    /// suffix, or nothing when the drain is finished either way.
    pub fn next_chunk(&self) -> (r: Option<(usize, usize)>)
        requires
            self.wf(),
        ensures
            !self.failed && self.off < self.len ==> r == Some((self.off, self.len)),
            self.failed || self.off == self.len ==> r is None,
    {
        if self.failed || self.off == self.len {
            None
        } else {
            Some((self.off, self.len))
        }
    }

    /// The provider accepted `wrote` bytes of the offered suffix: the
    /// offset advances by exactly that amount, so no byte is skipped or
    /// repeated.
    pub fn on_transmit(&mut self, wrote: usize)
        requires
            old(self).wf(),
            !old(self).failed,
            wrote <= old(self).len - old(self).off,
        ensures
            final(self).wf(),
            final(self).len == old(self).len,
            final(self).off == old(self).off + wrote,
            !final(self).failed,
    {
        self.off = self.off + wrote;
    }

    /// A transmit call failed: the drain stops where it stands.
    pub fn on_transmit_error(&mut self)
        requires
            old(self).wf(),
        ensures
            final(self).wf(),
            final(self).len == old(self).len,
            final(self).off == old(self).off,
            final(self).failed,
    {
        self.failed = true;
    }
}

/// Where the writer worker task stands.
#[derive(Clone, Copy, Debug, PartialEq, Eq, Structural)]
pub enum WriterTaskState {
    /// Waiting on the pipe's inbound side for bytes to forward.
    ReadingPipe,
    /// Handing a buffer of pipe bytes to the provider.
    Draining,
    /// The task has exited.
    Finished,
}

/// What the writer worker task does next.
#[derive(Clone, Copy, Debug, PartialEq, Eq, Structural)]
pub enum WriterTaskAction {
    /// Read the next buffer from the pipe.
    ReadPipe,
    /// Offer the buffer's untransmitted suffix to the provider.
    TransmitChunk,
    /// Half-close the socket's write direction, then exit.
    HalfCloseWrite,
}

/// The writer worker task: repeatedly reads from the pipe's inbound side
/// and transmits through the provider until the pipe signals end-of-input
/// or a call fails, then half-closes the underlying socket's write side.
pub struct SecureWriterTask {
    /// Where the task stands.
    pub state: WriterTaskState,
}

impl SecureWriterTask {
    /// A freshly spawned writer task, about to read the pipe.
    pub fn new() -> (t: SecureWriterTask)
        ensures
            t.state == WriterTaskState::ReadingPipe,
    {
        SecureWriterTask { state: WriterTaskState::ReadingPipe }
    }

    /// The pipe handed over `n` bytes.  Zero means end-of-input: the task
    /// half-closes the socket's write side and exits; otherwise it drains
    /// the buffer into the provider.
    pub fn on_pipe_data(&mut self, n: usize) -> (a: WriterTaskAction)
        requires
            old(self).state == WriterTaskState::ReadingPipe,
        ensures
            n == 0 ==> final(self).state == WriterTaskState::Finished && a
                == WriterTaskAction::HalfCloseWrite,
            n > 0 ==> final(self).state == WriterTaskState::Draining && a
                == WriterTaskAction::TransmitChunk,
    {
        if n == 0 {
            self.state = WriterTaskState::Finished;
            WriterTaskAction::HalfCloseWrite
        } else {
            self.state = WriterTaskState::Draining;
            WriterTaskAction::TransmitChunk
        }
    }

    /// Reading the pipe failed: treat it as end-of-input.
    pub fn on_pipe_error(&mut self) -> (a: WriterTaskAction)
        requires
            old(self).state == WriterTaskState::ReadingPipe,
        ensures
            final(self).state == WriterTaskState::Finished,
            a == WriterTaskAction::HalfCloseWrite,
    {
        self.state = WriterTaskState::Finished;
        WriterTaskAction::HalfCloseWrite
    }

    /// The current buffer has been fully transmitted: back to the pipe.
    pub fn on_drain_done(&mut self, drain: &TransmitDrain) -> (a: WriterTaskAction)
        requires
            old(self).state == WriterTaskState::Draining,
            drain.done(),
        ensures
            final(self).state == WriterTaskState::ReadingPipe,
            a == WriterTaskAction::ReadPipe,
    {
        self.state = WriterTaskState::ReadingPipe;
        WriterTaskAction::ReadPipe
    }

    /// A transmit call failed: half-close the socket's write side and exit.
    pub fn on_drain_failed(&mut self, drain: &TransmitDrain) -> (a: WriterTaskAction)
        requires
            old(self).state == WriterTaskState::Draining,
            drain.failed,
        ensures
            final(self).state == WriterTaskState::Finished,
            a == WriterTaskAction::HalfCloseWrite,
    {
        self.state = WriterTaskState::Finished;
        WriterTaskAction::HalfCloseWrite
    }
}

/// Where the reader worker task stands.
#[derive(Clone, Copy, Debug, PartialEq, Eq, Structural)]
pub enum ReaderTaskState {
    /// Blocked in (or about to make) the provider's receive call.
    Receiving,
    /// The task has exited.
    Finished,
}

/// What the reader worker task does next.
#[derive(Clone, Copy, Debug, PartialEq, Eq, Structural)]
pub enum ReaderTaskAction {
    /// Write the received bytes into the pipe's outbound side.
    WriteToPipe,
    /// Half-close the socket's read side and close the pipe's write side,
    /// then exit — pending readers of the pipe see end-of-stream instead of
    /// stalling forever.
    HalfCloseReadAndEndPipe,
}

/// The reader worker task: repeatedly calls the provider's receive and
/// forwards each buffer into the pipe until receive fails or returns zero
/// bytes, then half-closes the socket's read side and ends the pipe.
///
/// A task blocked inside the provider's receive cannot be preempted
/// locally; it runs until the peer shuts down its write side or the socket
/// errors.  That bounded leak is a property of the provider, reproduced
/// here rather than papered over.
pub struct SecureReaderTask {
    /// Where the task stands.
    pub state: ReaderTaskState,
}

impl SecureReaderTask {
    /// A freshly spawned reader task.
    pub fn new() -> (t: SecureReaderTask)
        ensures
            t.state == ReaderTaskState::Receiving,
    {
        SecureReaderTask { state: ReaderTaskState::Receiving }
    }

    /// The provider's receive returned `n` bytes.  Zero means the peer is
    /// done sending: the task winds down; otherwise the bytes go into the
    /// pipe.
    pub fn on_receive(&mut self, n: usize) -> (a: ReaderTaskAction)
        requires
            old(self).state == ReaderTaskState::Receiving,
        ensures
            n == 0 ==> final(self).state == ReaderTaskState::Finished && a
                == ReaderTaskAction::HalfCloseReadAndEndPipe,
            n > 0 ==> final(self).state == ReaderTaskState::Receiving && a
                == ReaderTaskAction::WriteToPipe,
    {
        if n == 0 {
            self.state = ReaderTaskState::Finished;
            ReaderTaskAction::HalfCloseReadAndEndPipe
        } else {
            ReaderTaskAction::WriteToPipe
        }
    }

    /// The provider's receive failed: wind down.
    pub fn on_receive_error(&mut self) -> (a: ReaderTaskAction)
        requires
            old(self).state == ReaderTaskState::Receiving,
        ensures
            final(self).state == ReaderTaskState::Finished,
            a == ReaderTaskAction::HalfCloseReadAndEndPipe,
    {
        self.state = ReaderTaskState::Finished;
        ReaderTaskAction::HalfCloseReadAndEndPipe
    }

    /// Writing into the pipe failed — its consumer is gone: wind down.
    pub fn on_pipe_write_failed(&mut self) -> (a: ReaderTaskAction)
        requires
            old(self).state == ReaderTaskState::Receiving,
        ensures
            final(self).state == ReaderTaskState::Finished,
            a == ReaderTaskAction::HalfCloseReadAndEndPipe,
    {
        self.state = ReaderTaskState::Finished;
        ReaderTaskAction::HalfCloseReadAndEndPipe
    }
}

} // verus!
