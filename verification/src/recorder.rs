//! The `.pitraw` raw-recording format.
//!
//! A recording is the magic `PITRAW01` followed by one entry per packet:
//! `[u64 timestamp_nanos][u16 packet_len][packet_bytes...]`, integers
//! little-endian. Reading stops at the first incomplete entry.

use vstd::prelude::*;

use crate::wire::{le_u16, le_u64, read_u16, read_u64};

verus! {

/// The eight bytes `PITRAW01` that open every recording.
pub const MAGIC: [u8; 8] = [80, 73, 84, 82, 65, 87, 48, 49];

/// One recorded packet.
#[derive(Debug, Clone)]
pub struct RawPacket {
    /// Nanoseconds since the recording started.
    pub timestamp_nanos: u64,
    pub data: Vec<u8>,
}

impl View for RawPacket {
    type V = (u64, Seq<u8>);

    open spec fn view(&self) -> (u64, Seq<u8>) {
        (self.timestamp_nanos, self.data@)
    }
}

/// Why a byte stream is not a recording.
#[derive(Debug, Clone, Copy, PartialEq, Eq, Structural)]
pub enum RecordingError {
    /// Fewer bytes than the magic.
    TooShort,
    /// The first eight bytes are not `PITRAW01`.
    BadMagic,
}

/// The little-endian bytes of `v`.
pub open spec fn u16_le_bytes(v: u16) -> Seq<u8> {
    seq![(v % 0x100) as u8, (v / 0x100) as u8]
}

/// The little-endian bytes of `v`.
pub open spec fn u64_le_bytes(v: u64) -> Seq<u8> {
    seq![
        (v % 0x100) as u8,
        ((v / 0x100) % 0x100) as u8,
        ((v / 0x1_0000) % 0x100) as u8,
        ((v / 0x100_0000) % 0x100) as u8,
        ((v / 0x1_0000_0000) % 0x100) as u8,
        ((v / 0x100_0000_0000) % 0x100) as u8,
        ((v / 0x1_0000_0000_0000) % 0x100) as u8,
        ((v / 0x100_0000_0000_0000) % 0x100) as u8,
    ]
}

/// The bytes of one entry. The length field holds the packet length modulo
/// 2^16, as the recorder writes it.
pub open spec fn entry_bytes(timestamp_nanos: u64, data: Seq<u8>) -> Seq<u8> {
    u64_le_bytes(timestamp_nanos) + u16_le_bytes((data.len() % 0x1_0000) as u16) + data
}

/// The entries of `s` (the bytes after the magic), up to the first
/// incomplete one.
pub open spec fn entries(s: Seq<u8>) -> Seq<(u64, Seq<u8>)>
    decreases s.len(),
{
    if s.len() < 10 {
        Seq::empty()
    } else {
        let n = le_u16(s, 8) as int;
        if s.len() < 10 + n {
            Seq::empty()
        } else {
            seq![(le_u64(s, 0), s.subrange(10, 10 + n))] + entries(s.subrange(10 + n, s.len() as int))
        }
    }
}

/// What reading the recording `s` gives.
pub open spec fn read_recording(s: Seq<u8>) -> Result<Seq<(u64, Seq<u8>)>, RecordingError> {
    if s.len() < 8 {
        Err(RecordingError::TooShort)
    } else if s.subrange(0, 8) != MAGIC@ {
        Err(RecordingError::BadMagic)
    } else {
        Ok(entries(s.subrange(8, s.len() as int)))
    }
}

/// Appends the little-endian bytes of `v` to `out`.
fn push_u16_le(out: &mut Vec<u8>, v: u16)
    ensures
        final(out)@ == old(out)@ + u16_le_bytes(v),
{
    out.push((v % 0x100) as u8);
    out.push((v / 0x100) as u8);
    assert(final(out)@ =~= old(out)@ + u16_le_bytes(v));
}

/// Appends the little-endian bytes of `v` to `out`.
fn push_u64_le(out: &mut Vec<u8>, v: u64)
    ensures
        final(out)@ == old(out)@ + u64_le_bytes(v),
{
    out.push((v % 0x100) as u8);
    out.push(((v / 0x100) % 0x100) as u8);
    out.push(((v / 0x1_0000) % 0x100) as u8);
    out.push(((v / 0x100_0000) % 0x100) as u8);
    out.push(((v / 0x1_0000_0000) % 0x100) as u8);
    out.push(((v / 0x100_0000_0000) % 0x100) as u8);
    out.push(((v / 0x1_0000_0000_0000) % 0x100) as u8);
    out.push(((v / 0x100_0000_0000_0000) % 0x100) as u8);
    assert(final(out)@ =~= old(out)@ + u64_le_bytes(v));
}

/// The bytes that record `data` received `timestamp_nanos` after the start.
pub fn encode_entry(timestamp_nanos: u64, data: &[u8]) -> (r: Vec<u8>)
    ensures
        r@ == entry_bytes(timestamp_nanos, data@),
{
    let mut out: Vec<u8> = Vec::new();
    push_u64_le(&mut out, timestamp_nanos);
    let len = (data.len() % 0x1_0000) as u16;
    push_u16_le(&mut out, len);
    let ghost before = out@;
    let mut i: usize = 0;
    while i < data.len()
        invariant
            i <= data@.len(),
            out@ == before + data@.take(i as int),
        decreases data@.len() - i,
    {
        out.push(data[i]);
        i = i + 1;
        assert(out@ =~= before + data@.take(i as int));
    }
    assert(data@.take(data@.len() as int) =~= data@);
    out
}

/// Reads a whole recording: the packets in the order they were recorded.
pub fn parse_recording(bytes: &[u8]) -> (r: Result<Vec<RawPacket>, RecordingError>)
    ensures
        match r {
            Ok(ps) => read_recording(bytes@) == Ok::<_, RecordingError>(ps@.map_values(|p: RawPacket| p@)),
            Err(e) => read_recording(bytes@) == Err::<Seq<(u64, Seq<u8>)>, _>(e),
        },
{
    if bytes.len() < 8 {
        return Err(RecordingError::TooShort);
    }
    let mut k: usize = 0;
    while k < 8
        invariant
            bytes@.len() >= 8,
            k <= 8,
            forall|j: int| 0 <= j < k ==> bytes@[j] == MAGIC@[j],
        decreases 8 - k,
    {
        if bytes[k] != MAGIC[k] {
            assert(bytes@.subrange(0, 8)[k as int] != MAGIC@[k as int]);
            return Err(RecordingError::BadMagic);
        }
        k = k + 1;
    }
    assert(bytes@.subrange(0, 8) =~= MAGIC@);
    let ghost body = bytes@.subrange(8, bytes@.len() as int);
    let mut out: Vec<RawPacket> = Vec::new();
    let mut pos: usize = 8;
    let mut done = false;
    while !done && bytes.len() - pos >= 10
        invariant
            8 <= pos <= bytes@.len(),
            body == bytes@.subrange(8, bytes@.len() as int),
            entries(body) == out@.map_values(|p: RawPacket| p@) + entries(bytes@.subrange(pos as int, bytes@.len() as int)),
            done ==> entries(bytes@.subrange(pos as int, bytes@.len() as int)) =~= Seq::<(u64, Seq<u8>)>::empty(),
        decreases bytes@.len() - pos + (if done { 0int } else { 1int }),
    {
        let ghost rest = bytes@.subrange(pos as int, bytes@.len() as int);
        let ts = read_u64(bytes, pos);
        let n = read_u16(bytes, pos + 8) as usize;
        assert(ts == le_u64(rest, 0));
        assert(n == le_u16(rest, 8));
        if n > bytes.len() - pos - 10 {
            done = true;
            assert(entries(rest) =~= Seq::<(u64, Seq<u8>)>::empty());
            continue;
        }
        let mut data: Vec<u8> = Vec::new();
        let start = pos + 10;
        let mut i: usize = 0;
        while i < n
            invariant
                start + n <= bytes.len(),
                i <= n,
                data@ == bytes@.subrange(start as int, start + i),
            decreases n - i,
        {
            data.push(bytes[start + i]);
            i = i + 1;
            assert(data@ =~= bytes@.subrange(start as int, start + i));
        }
        let ghost old_out = out@.map_values(|p: RawPacket| p@);
        out.push(RawPacket { timestamp_nanos: ts, data });
        assert(rest.subrange(10, 10 + n as int) =~= bytes@.subrange(start as int, start + n));
        assert(rest.subrange(10 + n as int, rest.len() as int) =~= bytes@.subrange(start + n, bytes@.len() as int));
        assert(out@.map_values(|p: RawPacket| p@) =~= old_out.push((ts, rest.subrange(10, 10 + n as int))));
        assert(entries(rest) == seq![(ts, rest.subrange(10, 10 + n as int))] + entries(
            bytes@.subrange(start + n, bytes@.len() as int),
        ));
        assert(old_out + entries(rest) =~= out@.map_values(|p: RawPacket| p@) + entries(
            bytes@.subrange(start + n, bytes@.len() as int),
        ));
        pos = start + n;
    }
    let ghost rest = bytes@.subrange(pos as int, bytes@.len() as int);
    assert(entries(rest) =~= Seq::<(u64, Seq<u8>)>::empty());
    assert(entries(body) =~= out@.map_values(|p: RawPacket| p@));
    Ok(out)
}

/// The file name of the recording of a session: `{session_id}.pitraw`.
pub open spec fn recording_file_name(session_id: Seq<char>) -> Seq<char> {
    session_id + ".pitraw"@
}

/// The path of the recording of a session below the storage directory, as
/// its path components: `recordings / {session_id}.pitraw` (the caller
/// joins them with `Path::join`).
pub fn recording_path(session_id: &str) -> (r: Vec<String>)
    ensures
        r@.len() == 2,
        r@[0]@ == "recordings"@,
        r@[1]@ == recording_file_name(session_id@),
{
    let mut file = session_id.to_owned();
    file.append(".pitraw");
    vec!["recordings".to_owned(), file]
}

/// Rough number of packets in a recording file of `file_size` bytes
/// (entries average about 200 bytes).
pub fn estimated_packet_count(file_size: u64) -> (r: u64)
    ensures
        r == (if file_size >= 8 { (file_size - 8) / 200 } else { 0 }),
{
    let data_size = file_size.saturating_sub(8);
    data_size / 200
}


/// The bytes of a recording of `packets` (magic excluded), in order.
pub open spec fn entries_bytes(packets: Seq<(u64, Seq<u8>)>) -> Seq<u8>
    decreases packets.len(),
{
    if packets.len() == 0 {
        Seq::empty()
    } else {
        entry_bytes(packets[0].0, packets[0].1) + entries_bytes(packets.drop_first())
    }
}

proof fn lemma_u16_le_roundtrip(v: u16, rest: Seq<u8>)
    ensures
        le_u16(u16_le_bytes(v) + rest, 0) == v,
{
    let s = u16_le_bytes(v) + rest;
    assert(s[0] == (v % 0x100) as u8);
    assert(s[1] == (v / 0x100) as u8);
}

proof fn lemma_u64_le_roundtrip(v: u64, rest: Seq<u8>)
    ensures
        le_u64(u64_le_bytes(v) + rest, 0) == v,
{
    let s = u64_le_bytes(v) + rest;
    let q1 = v / 0x100;
    let q2 = v / 0x1_0000;
    let q3 = v / 0x100_0000;
    let q4 = v / 0x1_0000_0000;
    let q5 = v / 0x100_0000_0000;
    let q6 = v / 0x1_0000_0000_0000;
    let q7 = v / 0x100_0000_0000_0000;
    assert(v == v % 0x100 + 0x100 * q1);
    assert(q1 == q1 % 0x100 + 0x100 * q2);
    assert(q2 == q2 % 0x100 + 0x100 * q3);
    assert(q3 == q3 % 0x100 + 0x100 * q4);
    assert(q4 == q4 % 0x100 + 0x100 * q5);
    assert(q5 == q5 % 0x100 + 0x100 * q6);
    assert(q6 == q6 % 0x100 + 0x100 * q7);
    assert(q7 < 0x100);
    assert(s[0] == v % 0x100);
    assert(s[1] == q1 % 0x100);
    assert(s[2] == q2 % 0x100);
    assert(s[3] == q3 % 0x100);
    assert(s[4] == q4 % 0x100);
    assert(s[5] == q5 % 0x100);
    assert(s[6] == q6 % 0x100);
    assert(s[7] == q7 % 0x100);
}

/// Reading the entries that follow one encoded entry.
proof fn lemma_entries_cons(t: u64, d: Seq<u8>, rest: Seq<u8>)
    requires
        d.len() < 0x1_0000,
    ensures
        entries(entry_bytes(t, d) + rest) == seq![(t, d)] + entries(rest),
{
    let s = entry_bytes(t, d) + rest;
    let n: int = d.len() as int;
    lemma_u64_le_roundtrip(t, u16_le_bytes(n as u16) + d + rest);
    assert(s =~= u64_le_bytes(t) + (u16_le_bytes(n as u16) + d + rest));
    let tail = s.subrange(8, s.len() as int);
    assert(tail =~= u16_le_bytes(n as u16) + (d + rest));
    lemma_u16_le_roundtrip(n as u16, d + rest);
    assert(le_u16(s, 8) == le_u16(tail, 0));
    assert(s.subrange(10, 10 + n) =~= d);
    assert(s.subrange(10 + n, s.len() as int) =~= rest);
}

/// A recording reads back as the packets that were recorded, in order,
/// provided each packet is shorter than 2^16 bytes (longer ones have their
/// length field truncated by the recorder).
pub proof fn lemma_recording_roundtrip(packets: Seq<(u64, Seq<u8>)>)
    requires
        forall|i: int| 0 <= i < packets.len() ==> #[trigger] packets[i].1.len() < 0x1_0000,
    ensures
        read_recording(MAGIC@ + entries_bytes(packets)) == Ok::<_, RecordingError>(packets),
{
    lemma_entries_roundtrip(packets);
    let s = MAGIC@ + entries_bytes(packets);
    assert(s.subrange(0, 8) =~= MAGIC@);
    assert(s.subrange(8, s.len() as int) =~= entries_bytes(packets));
}

proof fn lemma_entries_roundtrip(packets: Seq<(u64, Seq<u8>)>)
    requires
        forall|i: int| 0 <= i < packets.len() ==> #[trigger] packets[i].1.len() < 0x1_0000,
    ensures
        entries(entries_bytes(packets)) == packets,
    decreases packets.len(),
{
    if packets.len() == 0 {
        assert(entries(Seq::<u8>::empty()) =~= packets);
    } else {
        let rest = packets.drop_first();
        assert forall|i: int| 0 <= i < rest.len() implies #[trigger] rest[i].1.len() < 0x1_0000 by {
            assert(rest[i] == packets[i + 1]);
        }
        lemma_entries_roundtrip(rest);
        assert(packets[0].1.len() < 0x1_0000);
        lemma_entries_cons(packets[0].0, packets[0].1, entries_bytes(rest));
        assert(seq![(packets[0].0, packets[0].1)] + rest =~= packets);
    }
}

} // verus!
