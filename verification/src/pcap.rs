//! The byte layout and the write-state machine of a pcap log of IP packets.
//!
//! A log starts with a 24-byte file header. Each packet is logged as a 16-byte record header
//! (seconds, nanoseconds, captured length, original length) followed by the packet's bytes. All
//! header fields of a log are written in one byte order: the machine's own (byteorder's
//! `NativeEndian`), as the file header's magic number shows it.

use crate::wire::IpPacket;
use byteorder::{BigEndian, ByteOrder, LittleEndian, NativeEndian};
use vstd::prelude::*;

verus! {

/// Magic number of a pcap file whose timestamps have nanosecond resolution.
pub const PCAP_MAGIC: u32 = 0xa1b2_3c4d;

/// Major version of the pcap format.
pub const PCAP_VERSION_MAJOR: u16 = 2;

/// Minor version of the pcap format.
pub const PCAP_VERSION_MINOR: u16 = 4;

/// Largest packet length that the log declares it captures.
pub const PCAP_SNAPLEN: u32 = 65_536;

/// Link type of raw IP packets.
pub const LINKTYPE_RAW: u32 = 101;

/// Length of the file header.
pub const FILE_HEADER_LEN: usize = 24;

/// Length of a record header.
pub const RECORD_HEADER_LEN: usize = 16;

/// `n` in little-endian byte order.
pub open spec fn u32_le(n: u32) -> Seq<u8> {
    seq![(n & 0xff) as u8, ((n >> 8) & 0xff) as u8, ((n >> 16) & 0xff) as u8, ((n >> 24) & 0xff) as u8]
}

/// `n` in big-endian byte order.
pub open spec fn u32_be(n: u32) -> Seq<u8> {
    seq![((n >> 24) & 0xff) as u8, ((n >> 16) & 0xff) as u8, ((n >> 8) & 0xff) as u8, (n & 0xff) as u8]
}

/// `n` in little-endian byte order.
pub open spec fn u16_le(n: u16) -> Seq<u8> {
    seq![(n & 0xff) as u8, ((n >> 8) & 0xff) as u8]
}

/// `n` in big-endian byte order.
pub open spec fn u16_be(n: u16) -> Seq<u8> {
    seq![((n >> 8) & 0xff) as u8, (n & 0xff) as u8]
}

/// A byte order.
#[derive(Clone, Copy, Debug, PartialEq, Eq, Structural)]
pub enum Endian {
    /// Least significant byte first.
    Little,
    /// Most significant byte first.
    Big,
}

/// `n` in byte order `order`.
pub open spec fn u32_in(order: Endian, n: u32) -> Seq<u8> {
    match order {
        Endian::Little => u32_le(n),
        Endian::Big => u32_be(n),
    }
}

/// `n` in byte order `order`.
pub open spec fn u16_in(order: Endian, n: u16) -> Seq<u8> {
    match order {
        Endian::Little => u16_le(n),
        Endian::Big => u16_be(n),
    }
}

/// The four bytes of `n` in the machine's byte order.
///
/// Calls `byteorder::NativeEndian::write_u32`, which copies `n.to_le_bytes()` (little-endian
/// machines) or `n.to_be_bytes()` (big-endian machines) into the buffer. Which of the two depends
/// on the machine, so the contract states only that it is one of them.
#[verifier::external_body]
fn native_u32_bytes(n: u32) -> (r: [u8; 4])
    ensures
        r@ == u32_le(n) || r@ == u32_be(n),
{
    let mut buf = [0u8; 4];
    NativeEndian::write_u32(&mut buf, n);
    buf
}

/// The four bytes of `n`, least significant first.
///
/// Calls `byteorder::LittleEndian::write_u32`, which copies `n.to_le_bytes()` into the buffer.
#[verifier::external_body]
fn le_u32_bytes(n: u32) -> (r: [u8; 4])
    ensures
        r@ == u32_le(n),
{
    let mut buf = [0u8; 4];
    LittleEndian::write_u32(&mut buf, n);
    buf
}

/// The four bytes of `n`, most significant first.
///
/// Calls `byteorder::BigEndian::write_u32`, which copies `n.to_be_bytes()` into the buffer.
#[verifier::external_body]
fn be_u32_bytes(n: u32) -> (r: [u8; 4])
    ensures
        r@ == u32_be(n),
{
    let mut buf = [0u8; 4];
    BigEndian::write_u32(&mut buf, n);
    buf
}

/// The two bytes of `n`, least significant first.
///
/// Calls `byteorder::LittleEndian::write_u16`, which copies `n.to_le_bytes()` into the buffer.
#[verifier::external_body]
fn le_u16_bytes(n: u16) -> (r: [u8; 2])
    ensures
        r@ == u16_le(n),
{
    let mut buf = [0u8; 2];
    LittleEndian::write_u16(&mut buf, n);
    buf
}

/// The two bytes of `n`, most significant first.
///
/// Calls `byteorder::BigEndian::write_u16`, which copies `n.to_be_bytes()` into the buffer.
#[verifier::external_body]
fn be_u16_bytes(n: u16) -> (r: [u8; 2])
    ensures
        r@ == u16_be(n),
{
    let mut buf = [0u8; 2];
    BigEndian::write_u16(&mut buf, n);
    buf
}

/// The four bytes of `n` in byte order `order`.
fn u32_bytes(order: Endian, n: u32) -> (r: [u8; 4])
    ensures
        r@ == u32_in(order, n),
{
    match order {
        Endian::Little => le_u32_bytes(n),
        Endian::Big => be_u32_bytes(n),
    }
}

/// The two bytes of `n` in byte order `order`.
fn u16_bytes(order: Endian, n: u16) -> (r: [u8; 2])
    ensures
        r@ == u16_in(order, n),
{
    match order {
        Endian::Little => le_u16_bytes(n),
        Endian::Big => be_u16_bytes(n),
    }
}

/// `h` is a pcap file header for raw IP packets, every field in byte order `order`.
pub open spec fn is_file_header(h: Seq<u8>, order: Endian) -> bool {
    &&& h.len() == FILE_HEADER_LEN
    &&& h.subrange(0, 4) == u32_in(order, PCAP_MAGIC)
    &&& h.subrange(4, 6) == u16_in(order, PCAP_VERSION_MAJOR)
    &&& h.subrange(6, 8) == u16_in(order, PCAP_VERSION_MINOR)
    &&& h.subrange(8, 12) == u32_in(order, 0)
    &&& h.subrange(12, 16) == u32_in(order, 0)
    &&& h.subrange(16, 20) == u32_in(order, PCAP_SNAPLEN)
    &&& h.subrange(20, 24) == u32_in(order, LINKTYPE_RAW)
}

/// `h` is the record header, every field in byte order `order`, of a packet of `len` bytes
/// captured at `secs` seconds and `nanos` nanoseconds.
pub open spec fn is_record_header(h: Seq<u8>, order: Endian, secs: u32, nanos: u32, len: u32) -> bool {
    &&& h.len() == RECORD_HEADER_LEN
    &&& h.subrange(0, 4) == u32_in(order, secs)
    &&& h.subrange(4, 8) == u32_in(order, nanos)
    &&& h.subrange(8, 12) == u32_in(order, len)
    &&& h.subrange(12, 16) == u32_in(order, len)
}

/// The file header that starts every log, and the byte order of all its fields, which the log's
/// records use too. The magic number is written by the machine's native byte order; the order is
/// read back from it, and every other field is written in that order.
pub fn file_header() -> (r: ([u8; 24], Endian))
    ensures
        is_file_header(r.0@, r.1),
{
    let magic = native_u32_bytes(PCAP_MAGIC);
    assert(((PCAP_MAGIC & 0xff) as u8) == 0x4du8) by (bit_vector);
    assert((((PCAP_MAGIC >> 24) & 0xff) as u8) == 0xa1u8) by (bit_vector);
    let order = if magic[0] == 0x4d {
        Endian::Little
    } else {
        Endian::Big
    };
    assert(magic@ == u32_in(order, PCAP_MAGIC));
    let major = u16_bytes(order, PCAP_VERSION_MAJOR);
    let minor = u16_bytes(order, PCAP_VERSION_MINOR);
    // The time zone is the signed 32-bit value 0, whose bytes are those of the unsigned 0.
    let zone = u32_bytes(order, 0);
    let sigfigs = u32_bytes(order, 0);
    let snaplen = u32_bytes(order, PCAP_SNAPLEN);
    let link = u32_bytes(order, LINKTYPE_RAW);
    let r = [
        magic[0], magic[1], magic[2], magic[3],
        major[0], major[1],
        minor[0], minor[1],
        zone[0], zone[1], zone[2], zone[3],
        sigfigs[0], sigfigs[1], sigfigs[2], sigfigs[3],
        snaplen[0], snaplen[1], snaplen[2], snaplen[3],
        link[0], link[1], link[2], link[3],
    ];
    assert(r@.subrange(0, 4) =~= magic@);
    assert(r@.subrange(4, 6) =~= major@);
    assert(r@.subrange(6, 8) =~= minor@);
    assert(r@.subrange(8, 12) =~= zone@);
    assert(r@.subrange(12, 16) =~= sigfigs@);
    assert(r@.subrange(16, 20) =~= snaplen@);
    assert(r@.subrange(20, 24) =~= link@);
    (r, order)
}

/// The record header, in byte order `order`, of a packet of `len` bytes captured at `secs`
/// seconds and `nanos` nanoseconds after the epoch. Seconds and length are truncated to 32 bits,
/// as the format holds them.
pub fn record_header(order: Endian, secs: u64, nanos: u32, len: usize) -> (r: [u8; 16])
    ensures
        is_record_header(r@, order, secs as u32, nanos, len as u32),
{
    let s = u32_bytes(order, #[verifier::truncate] (secs as u32));
    let n = u32_bytes(order, nanos);
    let l = u32_bytes(order, #[verifier::truncate] (len as u32));
    let r = [
        s[0], s[1], s[2], s[3],
        n[0], n[1], n[2], n[3],
        l[0], l[1], l[2], l[3],
        l[0], l[1], l[2], l[3],
    ];
    assert(r@.subrange(0, 4) =~= s@);
    assert(r@.subrange(4, 8) =~= n@);
    assert(r@.subrange(8, 12) =~= l@);
    assert(r@.subrange(12, 16) =~= l@);
    r
}

/// The abstract state of a log: what it is writing, and how far it has got.
pub enum LogModel {
    /// Writing the record header of a packet; the packet's bytes follow.
    WritingHeader { header: Seq<u8>, bytes: Seq<u8>, written: nat },
    /// Writing a packet's bytes.
    WritingPayload { bytes: Seq<u8>, written: nat },
    /// Nothing to write; a packet may be accepted.
    Ready,
    /// A write failed; the log can no longer be used.
    Failed,
}

impl LogModel {
    /// The state's counters lie inside what they count.
    pub open spec fn wf(self) -> bool {
        match self {
            LogModel::WritingHeader { header, bytes, written } => header.len() == RECORD_HEADER_LEN
                && written < header.len(),
            LogModel::WritingPayload { bytes, written } => written <= bytes.len(),
            _ => true,
        }
    }

    /// The bytes that the next write hands to the file.
    pub open spec fn chunk(self) -> Seq<u8> {
        match self {
            LogModel::WritingHeader { header, bytes, written } => header.subrange(
                written as int,
                header.len() as int,
            ),
            LogModel::WritingPayload { bytes, written } => bytes.subrange(
                written as int,
                bytes.len() as int,
            ),
            _ => Seq::empty(),
        }
    }

    /// All bytes still to be written for the current packet.
    pub open spec fn remaining(self) -> Seq<u8> {
        match self {
            LogModel::WritingHeader { header, bytes, written } => header.subrange(
                written as int,
                header.len() as int,
            ) + bytes,
            LogModel::WritingPayload { bytes, written } => bytes.subrange(
                written as int,
                bytes.len() as int,
            ),
            _ => Seq::empty(),
        }
    }

    /// The state after the file accepted `n` bytes of the chunk.
    pub open spec fn advance(self, n: nat) -> LogModel {
        match self {
            LogModel::WritingHeader { header, bytes, written } => if written + n == header.len() {
                LogModel::WritingPayload { bytes, written: 0 }
            } else {
                LogModel::WritingHeader { header, bytes, written: written + n }
            },
            LogModel::WritingPayload { bytes, written } => if written + n == bytes.len() {
                LogModel::Ready
            } else {
                LogModel::WritingPayload { bytes, written: written + n }
            },
            other => other,
        }
    }

    /// Whether every size in `writes` fits the chunk that is offered when it is made.
    pub open spec fn valid_writes(self, writes: Seq<nat>) -> bool
        decreases writes.len(),
    {
        if writes.len() == 0 {
            true
        } else {
            writes[0] <= self.chunk().len() && self.advance(writes[0]).valid_writes(
                writes.drop_first(),
            )
        }
    }

    /// The bytes handed to the file by the writes `writes`, in order.
    pub open spec fn output(self, writes: Seq<nat>) -> Seq<u8>
        decreases writes.len(),
    {
        if writes.len() == 0 {
            Seq::empty()
        } else {
            self.chunk().take(writes[0] as int) + self.advance(writes[0]).output(
                writes.drop_first(),
            )
        }
    }

    /// The state after the writes `writes`.
    pub open spec fn after(self, writes: Seq<nat>) -> LogModel
        decreases writes.len(),
    {
        if writes.len() == 0 {
            self
        } else {
            self.advance(writes[0]).after(writes.drop_first())
        }
    }
}

/// One write of `n` bytes of the chunk keeps the state well-formed, and the bytes written
/// followed by what then remains are what remained before.
pub proof fn lemma_advance(m: LogModel, n: nat)
    requires
        m.wf(),
        n <= m.chunk().len(),
    ensures
        m.advance(n).wf(),
        m.remaining() == m.chunk().take(n as int) + m.advance(n).remaining(),
{
    match m {
        LogModel::WritingHeader { header, bytes, written } => {
            let h = header.subrange(written as int, header.len() as int);
            if written + n == header.len() {
                assert(h.take(n as int) =~= h);
                assert(bytes.subrange(0, bytes.len() as int) =~= bytes);
            } else {
                assert(h =~= h.take(n as int) + header.subrange((written + n) as int, header.len() as int));
                assert(h + bytes =~= h.take(n as int) + (header.subrange(
                    (written + n) as int,
                    header.len() as int,
                ) + bytes));
            }
        },
        LogModel::WritingPayload { bytes, written } => {
            let b = bytes.subrange(written as int, bytes.len() as int);
            if written + n == bytes.len() {
                assert(b.take(n as int) =~= b);
                assert(b =~= b.take(n as int) + Seq::<u8>::empty());
            } else {
                assert(b =~= b.take(n as int) + bytes.subrange((written + n) as int, bytes.len() as int));
            }
        },
        _ => {
            assert(m.remaining() =~= m.chunk().take(n as int) + m.advance(n).remaining());
        },
    }
}

/// Whatever sizes the file accepts, the log hands it exactly the bytes that remained, in order:
/// the output so far followed by what still remains is always what remained at the start. When
/// the log is ready again, the output is the whole of it.
pub proof fn lemma_log_writes_in_order(m: LogModel, writes: Seq<nat>)
    requires
        m.wf(),
        m.valid_writes(writes),
    ensures
        m.after(writes).wf(),
        m.remaining() == m.output(writes) + m.after(writes).remaining(),
        m.after(writes) is Ready ==> m.output(writes) == m.remaining(),
    decreases writes.len(),
{
    if writes.len() == 0 {
        assert(m.remaining() =~= Seq::<u8>::empty() + m.remaining());
    } else {
        let n = writes[0];
        lemma_advance(m, n);
        lemma_log_writes_in_order(m.advance(n), writes.drop_first());
        let rest = m.advance(n);
        assert(m.remaining() =~= m.output(writes) + m.after(writes).remaining());
    }
    if m.after(writes) is Ready {
        assert(m.output(writes) + m.after(writes).remaining() =~= m.output(writes));
    }
}

/// What a log is writing, and how far it has got.
#[derive(Debug)]
pub enum LogPhase {
    /// Writing the record header of a packet; the packet's bytes follow.
    WritingHeader { header: [u8; 16], bytes: Vec<u8>, written: usize },
    /// Writing a packet's bytes.
    WritingPayload { bytes: Vec<u8>, written: usize },
    /// Nothing to write; a packet may be accepted.
    Ready,
    /// A write failed; the log can no longer be used.
    Failed,
}

/// Why a log refused a packet.
#[derive(Debug, Clone, Copy, PartialEq, Eq)]
pub enum LogError {
    /// The previous packet has not been written out yet.
    WouldBlock,
}

impl View for LogPhase {
    type V = LogModel;

    open spec fn view(&self) -> LogModel {
        match self {
            LogPhase::WritingHeader { header, bytes, written } => LogModel::WritingHeader {
                header: header@,
                bytes: bytes@,
                written: *written as nat,
            },
            LogPhase::WritingPayload { bytes, written } => LogModel::WritingPayload {
                bytes: bytes@,
                written: *written as nat,
            },
            LogPhase::Ready => LogModel::Ready,
            LogPhase::Failed => LogModel::Failed,
        }
    }
}

/// The write state of a log: the byte order of its headers, and what it is writing.
#[derive(Debug)]
pub struct LogState {
    order: Endian,
    phase: LogPhase,
}

impl View for LogState {
    type V = LogModel;

    closed spec fn view(&self) -> LogModel {
        self.phase@
    }
}

impl LogState {
    /// What the log is writing always lies inside its counters.
    #[verifier::type_invariant]
    spec fn inv(self) -> bool {
        self.phase@.wf()
    }

    /// The byte order of every record header the log writes.
    pub closed spec fn order(&self) -> Endian {
        self.order
    }

    /// A log that has written its file header, in byte order `order`, and waits for packets.
    pub fn new(order: Endian) -> (r: LogState)
        ensures
            r@ == LogModel::Ready,
            r.order() == order,
    {
        LogState { order, phase: LogPhase::Ready }
    }

    /// Whether a packet may be accepted (the log's sink is ready).
    pub fn is_ready(&self) -> (r: bool)
        ensures
            r == (self@ is Ready),
    {
        match self.phase {
            LogPhase::Ready => true,
            _ => false,
        }
    }

    /// Whether a write has failed.
    pub fn has_failed(&self) -> (r: bool)
        ensures
            r == (self@ is Failed),
    {
        match self.phase {
            LogPhase::Failed => true,
            _ => false,
        }
    }

    /// Accepts a packet captured at `secs` seconds and `nanos` nanoseconds after the epoch, if
    /// the previous one has been written out; otherwise refuses it and stays as it was.
    pub fn start_send(&mut self, packet: IpPacket, secs: u64, nanos: u32) -> (r: Result<(), LogError>)
        requires
            !(old(self)@ is Failed),
        ensures
            final(self).order() == old(self).order(),
            old(self)@ is Ready ==> {
                &&& r is Ok
                &&& final(self)@ matches LogModel::WritingHeader { header, bytes, written } && {
                    &&& written == 0
                    &&& bytes == packet@
                    &&& is_record_header(
                        header,
                        old(self).order(),
                        secs as u32,
                        nanos,
                        packet@.len() as u32,
                    )
                }
                &&& final(self)@.wf()
            },
            !(old(self)@ is Ready) ==> r == Err::<(), LogError>(LogError::WouldBlock),
            !(old(self)@ is Ready) ==> final(self)@ == old(self)@,
    {
        match self.phase {
            LogPhase::Ready => {
                let bytes = packet.into_bytes();
                let header = record_header(self.order, secs, nanos, bytes.len());
                self.phase = LogPhase::WritingHeader { header, bytes, written: 0 };
                Ok(())
            },
            _ => Err(LogError::WouldBlock),
        }
    }

    /// The bytes to hand to the file next; empty when the log is ready.
    pub fn chunk(&self) -> (r: &[u8])
        ensures
            r@ == self@.chunk(),
            self@.wf(),
    {
        proof {
            use_type_invariant(self);
        }
        match &self.phase {
            LogPhase::WritingHeader { header, bytes, written } => {
                let s = header.as_slice();
                &s[*written..RECORD_HEADER_LEN]
            },
            LogPhase::WritingPayload { bytes, written } => {
                let s = bytes.as_slice();
                &s[*written..bytes.len()]
            },
            _ => {
                let empty: &[u8] = &[];
                assert(empty@ =~= Seq::<u8>::empty());
                empty
            },
        }
    }

    /// Records that the file accepted the first `n` bytes of the chunk.
    pub fn advance(&mut self, n: usize)
        requires
            n <= old(self)@.chunk().len(),
        ensures
            final(self)@ == old(self)@.advance(n as nat),
            final(self)@.wf(),
            final(self).order() == old(self).order(),
            old(self)@.remaining() == old(self)@.chunk().take(n as int) + final(self)@.remaining(),
    {
        proof {
            use_type_invariant(&*self);
            lemma_advance(self@, n as nat);
        }
        let mut phase = LogPhase::Failed;
        std::mem::swap(&mut self.phase, &mut phase);
        match phase {
            LogPhase::WritingHeader { header, bytes, written } => {
                let new_written = written + n;
                if new_written == RECORD_HEADER_LEN {
                    self.phase = LogPhase::WritingPayload { bytes, written: 0 };
                } else {
                    self.phase = LogPhase::WritingHeader { header, bytes, written: new_written };
                }
            },
            LogPhase::WritingPayload { bytes, written } => {
                let len = bytes.len();
                let new_written = written + n;
                if new_written == len {
                    self.phase = LogPhase::Ready;
                } else {
                    self.phase = LogPhase::WritingPayload { bytes, written: new_written };
                }
            },
            other => {
                self.phase = other;
            },
        }
    }

    /// Records that a write failed.
    pub fn fail(&mut self)
        ensures
            final(self)@ is Failed,
            final(self).order() == old(self).order(),
    {
        self.phase = LogPhase::Failed;
    }
}

} // verus!
