use vstd::prelude::*;

use mavlink::Message;

verus! {

/// `mavlink::ardupilotmega::MavMessage`, a message of the ArduPilotMega
/// dialect, carried through unread.
#[verifier::external_type_specification]
#[verifier::external_body]
pub struct ExMavMessage(mavlink::ardupilotmega::MavMessage);

/// The start-of-frame marker of MAVLink v1.
pub const MAV_STX_V1: u8 = 0xFE;

/// The start-of-frame marker of MAVLink v2.
pub const MAV_STX_V2: u8 = 0xFD;

/// The incompatibility flag that marks a signed MAVLink v2 frame.
pub const MAVLINK_IFLAG_SIGNED: u8 = 0x01;

/// The largest MAVLink payload.
pub const MAX_PAYLOAD_LEN: usize = 255;

/// The length of the signature that follows a signed MAVLink v2 frame.
pub const SIGNATURE_LEN: usize = 13;

/// The MAVLink protocol version of a link.
#[derive(Clone, Copy, Debug, PartialEq, Eq, Structural)]
pub enum MavVersion {
    V1,
    V2,
}

/// The header fields of a MAVLink frame.
#[derive(Clone, Copy, Debug, PartialEq, Eq, Structural)]
pub struct MavFrameHeader {
    pub sequence: u8,
    pub system_id: u8,
    pub component_id: u8,
}

/// One step of CRC-16/MCRF4XX on one bit, reflected with polynomial 0x8408.
pub open spec fn crc_shift(c: u16) -> u16 {
    if c & 1 == 1 {
        (c >> 1u16) ^ 0x8408u16
    } else {
        c >> 1u16
    }
}

/// CRC-16/MCRF4XX after one more byte.
pub open spec fn crc_add_byte(c: u16, b: u8) -> u16 {
    let x = c ^ (b as u16);
    crc_shift(crc_shift(crc_shift(crc_shift(crc_shift(crc_shift(crc_shift(crc_shift(x))))))))
}

/// CRC-16/MCRF4XX, the MAVLink checksum, of `data` starting from the sum `c`.
pub open spec fn crc_from(c: u16, data: Seq<u8>) -> u16
    decreases data.len(),
{
    if data.len() == 0 {
        c
    } else {
        crc_add_byte(crc_from(c, data.drop_last()), data.last())
    }
}

/// CRC-16/MCRF4XX of `data`: initial value 0xFFFF, reflected input and
/// output, no final XOR.
pub open spec fn crc16_mcrf4xx(data: Seq<u8>) -> u16 {
    crc_from(0xFFFFu16, data)
}

/// Computes the MAVLink checksum with `crc_any`'s `CRCu16::crc16mcrf4cc`:
/// one digest of `data`, then `get_crc`. The crate builds it from a lookup
/// table for the reflected polynomial 0x8408, starts from 0xFFFF and applies
/// no final XOR, which is the sum `crc16_mcrf4xx` defines bit by bit.
#[verifier::external_body]
pub(crate) fn crc16_mcrf4cc(data: &[u8]) -> (r: u16)
    ensures
        r == crc16_mcrf4xx(data@),
{
    let mut crc = crc_any::CRCu16::crc16mcrf4cc();
    crc.digest(data);
    crc.get_crc()
}

/// The CRC_EXTRA seed byte of a message id in the ArduPilotMega dialect
/// (0 for an unknown id).
pub uninterp spec fn mavlink_extra_crc(msgid: u32) -> u8;

/// Calls `Message::extra_crc` of `mavlink::ardupilotmega::MavMessage`, a
/// table lookup by message id that the crate generates from the dialect's
/// definitions; its result depends on the id alone.
#[verifier::external_body]
pub(crate) fn extra_crc(msgid: u32) -> (r: u8)
    ensures
        r == mavlink_extra_crc(msgid),
{
    mavlink::ardupilotmega::MavMessage::extra_crc(msgid)
}

/// Whether the ArduPilotMega dialect parses a MAVLink v2 payload as the
/// message with the given id.
pub uninterp spec fn mavlink_v2_parses(msgid: u32, payload: Seq<u8>) -> bool;

/// Calls `Message::parse` of `mavlink::ardupilotmega::MavMessage` for MAVLink
/// v2. Whether it succeeds depends on the id and the payload alone; the
/// message it builds is not described.
#[verifier::external_body]
pub(crate) fn parse_v2_payload(msgid: u32, payload: &[u8]) -> (r: Option<
    mavlink::ardupilotmega::MavMessage,
>)
    ensures
        r is Some <==> mavlink_v2_parses(msgid, payload@),
{
    match mavlink::ardupilotmega::MavMessage::parse(mavlink::MavlinkVersion::V2, msgid, payload) {
        Ok(m) => Some(m),
        Err(_) => None,
    }
}

/// The nine header bytes of a MAVLink v2 frame after the marker: payload
/// length, incompatibility and compatibility flags (both zero), sequence,
/// system and component ids, and the message id in three little-endian
/// bytes.
pub open spec fn v2_header_bytes(len: u8, h: MavFrameHeader, msgid: u32) -> Seq<u8> {
    seq![
        len,
        0u8,
        0u8,
        h.sequence,
        h.system_id,
        h.component_id,
        (msgid & 0x0000FF) as u8,
        ((msgid & 0x00FF00) >> 8u32) as u8,
        ((msgid & 0xFF0000) >> 16u32) as u8,
    ]
}

/// A MAVLink v2 frame: the marker, the header, the payload, then the checksum
/// of header, payload and CRC_EXTRA byte, low byte first.
pub open spec fn spec_encode_v2(h: MavFrameHeader, msgid: u32, payload: Seq<u8>) -> Seq<u8> {
    let header = v2_header_bytes(payload.len() as u8, h, msgid);
    let crc = crc16_mcrf4xx(header + payload + seq![mavlink_extra_crc(msgid)]);
    seq![MAV_STX_V2] + header + payload + seq![(crc & 0xFF) as u8, (crc >> 8u16) as u8]
}

/// Encodes a MAVLink v2 frame for a message id and its serialized payload.
pub fn encode_v2_frame(h: MavFrameHeader, msgid: u32, payload: &[u8]) -> (r: Vec<u8>)
    ensures
        r@ == spec_encode_v2(h, msgid, payload@),
{
    let len = payload.len() as u8;
    let mut header: Vec<u8> = Vec::new();
    header.push(len);
    header.push(0u8);
    header.push(0u8);
    header.push(h.sequence);
    header.push(h.system_id);
    header.push(h.component_id);
    header.push((msgid & 0x0000FF) as u8);
    header.push(((msgid & 0x00FF00) >> 8u32) as u8);
    header.push(((msgid & 0xFF0000) >> 16u32) as u8);
    proof {
        assert(header@ =~= v2_header_bytes(payload@.len() as u8, h, msgid));
    }
    let extra = extra_crc(msgid);
    let mut summed: Vec<u8> = Vec::new();
    append_slice(&mut summed, header.as_slice());
    append_slice(&mut summed, payload);
    summed.push(extra);
    proof {
        assert(summed@ =~= header@ + payload@ + seq![mavlink_extra_crc(msgid)]);
    }
    let crc = crc16_mcrf4cc(summed.as_slice());
    let mut out: Vec<u8> = Vec::new();
    out.push(MAV_STX_V2);
    append_slice(&mut out, header.as_slice());
    append_slice(&mut out, payload);
    out.push((crc & 0xFF) as u8);
    out.push((crc >> 8u16) as u8);
    proof {
        assert(out@ =~= spec_encode_v2(h, msgid, payload@));
    }
    out
}

/// Appends the bytes of `src` to `dst`.
pub(crate) fn append_slice(dst: &mut Vec<u8>, src: &[u8])
    ensures
        final(dst)@ == old(dst)@ + src@,
{
    let mut i: usize = 0;
    while i < src.len()
        invariant
            i <= src@.len(),
            dst@ == old(dst)@ + src@.subrange(0, i as int),
        decreases src@.len() - i,
    {
        dst.push(src[i]);
        i = i + 1;
        proof {
            assert(dst@ =~= old(dst)@ + src@.subrange(0, i as int));
        }
    }
    proof {
        assert(src@.subrange(0, src@.len() as int) =~= src@);
    }
}

/// The first position at or after `i` that holds `b`.
pub open spec fn first_index_from(s: Seq<u8>, b: u8, i: int) -> Option<int>
    decreases s.len() - i,
{
    if i < 0 || i >= s.len() {
        None
    } else if s[i] == b {
        Some(i)
    } else {
        first_index_from(s, b, i + 1)
    }
}

/// The first position at or after `i` that holds `b` is a position of `b`,
/// and none before it, from `i` on, holds `b`.
pub proof fn lemma_first_index_from(s: Seq<u8>, b: u8, i: int)
    requires
        0 <= i,
    ensures
        first_index_from(s, b, i) matches Some(j) ==> i <= j < s.len() && s[j] == b && (forall|
            k: int,
        | i <= k < j ==> s[k] != b),
        first_index_from(s, b, i) is None ==> forall|k: int| i <= k < s.len() ==> s[k] != b,
    decreases s.len() - i,
{
    if i < s.len() && s[i] != b {
        lemma_first_index_from(s, b, i + 1);
    }
}

/// Finds the first position that holds `b`.
pub fn first_index_of(s: &[u8], b: u8) -> (r: Option<usize>)
    ensures
        match (r, first_index_from(s@, b, 0)) {
            (Some(i), Some(j)) => i == j,
            (None, None) => true,
            _ => false,
        },
        r matches Some(i) ==> i < s@.len() && s@[i as int] == b,
{
    proof {
        lemma_first_index_from(s@, b, 0);
    }
    let mut i: usize = 0;
    while i < s.len()
        invariant
            i <= s@.len(),
            first_index_from(s@, b, 0) == first_index_from(s@, b, i as int),
        decreases s@.len() - i,
    {
        if s[i] == b {
            return Some(i);
        }
        i = i + 1;
    }
    None
}

/// The marker that starts a frame of the given version.
pub open spec fn magic(v: MavVersion) -> u8 {
    match v {
        MavVersion::V1 => MAV_STX_V1,
        MavVersion::V2 => MAV_STX_V2,
    }
}

/// The bytes of a frame besides its payload: marker, length, header and
/// checksum; 8 in MAVLink v1 and 12 in MAVLink v2.
pub open spec fn frame_overhead(v: MavVersion) -> int {
    match v {
        MavVersion::V1 => 8,
        MavVersion::V2 => 12,
    }
}

/// Where the next frame lies in a receive buffer.
#[derive(Clone, Copy, Debug, PartialEq, Eq, Structural)]
pub enum FrameSearch {
    /// More bytes must be received before a frame can be cut out.
    NeedMore,
    /// A frame spans `start..end`.
    Frame { start: usize, end: usize },
}

/// The next frame in a receive buffer: it starts at the first marker that
/// has at least two bytes after it, and its length follows from the payload
/// length byte after the marker. Until the buffer holds such a marker and the
/// whole frame, more bytes are needed.
pub open spec fn spec_find_frame(buf: Seq<u8>, v: MavVersion) -> FrameSearch {
    match first_index_from(buf, magic(v), 0) {
        Some(p) => if p + 2 < buf.len() {
            let size = buf[p + 1] as int + frame_overhead(v);
            if p + size > buf.len() {
                FrameSearch::NeedMore
            } else {
                FrameSearch::Frame { start: p as usize, end: (p + size) as usize }
            }
        } else {
            FrameSearch::NeedMore
        },
        None => FrameSearch::NeedMore,
    }
}

/// Locates the next frame in the bytes received from the flight controller.
pub fn find_frame(buf: &[u8], v: MavVersion) -> (r: FrameSearch)
    ensures
        r == spec_find_frame(buf@, v),
{
    let m = match v {
        MavVersion::V1 => MAV_STX_V1,
        MavVersion::V2 => MAV_STX_V2,
    };
    match first_index_of(buf, m) {
        Some(p) => {
            if buf.len() >= 3 && p < buf.len() - 2 {
                let overhead: usize = match v {
                    MavVersion::V1 => 8,
                    MavVersion::V2 => 12,
                };
                let size = buf[p + 1] as usize + overhead;
                if size > buf.len() - p {
                    FrameSearch::NeedMore
                } else {
                    FrameSearch::Frame { start: p, end: p + size }
                }
            } else {
                FrameSearch::NeedMore
            }
        },
        None => FrameSearch::NeedMore,
    }
}

/// The bytes that follow a MAVLink v2 payload of length `len` up to the
/// size of the largest payload, all zero.
pub open spec fn zero_padding(len: int) -> Seq<u8> {
    Seq::new((MAX_PAYLOAD_LEN - len) as nat, |i: int| 0u8)
}

/// What reading a MAVLink v2 frame from the start of a byte stream gives.
pub enum V2Decoded {
    /// The stream must deliver more bytes.
    NeedMore,
    /// A frame whose checksum did not match was skipped; `consumed` bytes are
    /// used up.
    BadChecksum { consumed: usize },
    /// A frame with a matching checksum. The payload is zero-padded to the
    /// largest payload size; `consumed` bytes are used up.
    Frame { header: MavFrameHeader, msgid: u32, payload: Vec<u8>, consumed: usize },
}

/// The mathematical value of a `V2Decoded`.
pub enum V2DecodedValue {
    NeedMore,
    BadChecksum { consumed: int },
    Frame { header: MavFrameHeader, msgid: u32, payload: Seq<u8>, consumed: int },
}

impl View for V2Decoded {
    type V = V2DecodedValue;

    open spec fn view(&self) -> V2DecodedValue {
        match self {
            V2Decoded::NeedMore => V2DecodedValue::NeedMore,
            V2Decoded::BadChecksum { consumed } => V2DecodedValue::BadChecksum {
                consumed: *consumed as int,
            },
            V2Decoded::Frame { header, msgid, payload, consumed } => V2DecodedValue::Frame {
                header: *header,
                msgid: *msgid,
                payload: payload@,
                consumed: *consumed as int,
            },
        }
    }
}

/// Reads a MAVLink v2 frame from the start of a byte stream: bytes up to the
/// first marker are skipped; then come nine header bytes, the payload, the
/// two checksum bytes and, in a signed frame, a 13-byte signature. The
/// checksum is taken over the header, the payload, and the CRC_EXTRA byte of
/// the message id. The payload is handed on zero-padded to 255 bytes, as the
/// dialect's parser reads trailing zero fields that a sender left out.
pub open spec fn spec_decode_v2(s: Seq<u8>) -> V2DecodedValue {
    match first_index_from(s, MAV_STX_V2, 0) {
        None => V2DecodedValue::NeedMore,
        Some(p) => if p + 10 > s.len() {
            V2DecodedValue::NeedMore
        } else {
            let len = s[p + 1] as int;
            let signed = s[p + 2] & MAVLINK_IFLAG_SIGNED == MAVLINK_IFLAG_SIGNED;
            let end = p + 10 + len + 2 + if signed {
                SIGNATURE_LEN as int
            } else {
                0
            };
            if end > s.len() {
                V2DecodedValue::NeedMore
            } else {
                let msgid = (s[p + 7] as int + s[p + 8] as int * 256 + s[p + 9] as int
                    * 65536) as u32;
                let padded = s.subrange(p + 10, p + 10 + len) + zero_padding(len);
                let received = (s[p + 10 + len] as int + s[p + 11 + len] as int * 256) as u16;
                let computed = crc16_mcrf4xx(
                    s.subrange(p + 1, p + 10 + len) + seq![mavlink_extra_crc(msgid)],
                );
                if computed != received {
                    V2DecodedValue::BadChecksum { consumed: end }
                } else {
                    V2DecodedValue::Frame {
                        header: MavFrameHeader {
                            sequence: s[p + 4],
                            system_id: s[p + 5],
                            component_id: s[p + 6],
                        },
                        msgid,
                        payload: padded,
                        consumed: end,
                    }
                }
            }
        },
    }
}

/// Reads a MAVLink v2 frame from the start of the received bytes.
pub fn decode_v2_frame(s: &[u8]) -> (r: V2Decoded)
    ensures
        r@ == spec_decode_v2(s@),
{
    let p = match first_index_of(s, MAV_STX_V2) {
        Some(p) => p,
        None => return V2Decoded::NeedMore,
    };
    if s.len() - p < 10 {
        return V2Decoded::NeedMore;
    }
    let len = s[p + 1] as usize;
    let signed = s[p + 2] & MAVLINK_IFLAG_SIGNED == MAVLINK_IFLAG_SIGNED;
    let frame_len = 10 + len + 2 + if signed {
        SIGNATURE_LEN
    } else {
        0
    };
    if s.len() - p < frame_len {
        return V2Decoded::NeedMore;
    }
    let end = p + frame_len;
    let msgid = s[p + 7] as u32 + s[p + 8] as u32 * 256 + s[p + 9] as u32 * 65536;
    let mut padded: Vec<u8> = Vec::new();
    let mut i: usize = 0;
    while i < len
        invariant
            i <= len,
            p + 10 + len <= s.len(),
            padded@ == s@.subrange(p + 10, p + 10 + i),
        decreases len - i,
    {
        padded.push(s[p + 10 + i]);
        i = i + 1;
        proof {
            assert(padded@ =~= s@.subrange(p + 10, p + 10 + i));
        }
    }
    while i < MAX_PAYLOAD_LEN
        invariant
            len <= i <= MAX_PAYLOAD_LEN,
            p + 10 + len <= s.len(),
            padded@ == s@.subrange(p + 10, p + 10 + len as int) + Seq::new(
                (i - len) as nat,
                |j: int| 0u8,
            ),
        decreases MAX_PAYLOAD_LEN - i,
    {
        padded.push(0u8);
        i = i + 1;
        proof {
            assert(padded@ =~= s@.subrange(p + 10, p + 10 + len as int) + Seq::new(
                (i - len) as nat,
                |j: int| 0u8,
            ));
        }
    }
    proof {
        assert(padded@ =~= s@.subrange(p + 10, p + 10 + len as int) + zero_padding(len as int));
    }
    let received = s[p + 10 + len] as u16 + s[p + 11 + len] as u16 * 256;
    let extra = extra_crc(msgid);
    let mut summed: Vec<u8> = Vec::new();
    let mut k: usize = p + 1;
    while k < p + 10 + len
        invariant
            p + 1 <= k <= p + 10 + len,
            p + 10 + len <= s.len(),
            summed@ == s@.subrange(p + 1, k as int),
        decreases p + 10 + len - k,
    {
        summed.push(s[k]);
        k = k + 1;
        proof {
            assert(summed@ =~= s@.subrange(p + 1, k as int));
        }
    }
    summed.push(extra);
    let computed = crc16_mcrf4cc(summed.as_slice());
    proof {
        assert(summed@ =~= s@.subrange(p + 1, p + 10 + len) + seq![mavlink_extra_crc(msgid)]);
    }
    if computed != received {
        V2Decoded::BadChecksum { consumed: end }
    } else {
        V2Decoded::Frame {
            header: MavFrameHeader {
                sequence: s[p + 4],
                system_id: s[p + 5],
                component_id: s[p + 6],
            },
            msgid,
            payload: padded,
            consumed: end,
        }
    }
}

/// What reading a MAVLink v2 message from the start of a byte stream gives.
pub enum V2Read {
    /// The stream must deliver more bytes.
    NeedMore,
    /// A frame whose checksum did not match was skipped.
    BadChecksum { consumed: usize },
    /// A frame whose payload the dialect does not parse as its message id.
    Unparsed { msgid: u32, consumed: usize },
    /// A message.
    Message { header: MavFrameHeader, message: mavlink::ardupilotmega::MavMessage, consumed: usize },
}

/// Reads a MAVLink v2 message from the start of the received bytes: cuts out
/// the frame and checks its checksum as `decode_v2_frame` does, then parses
/// the zero-padded payload.
pub fn read_v2_message(s: &[u8]) -> (r: V2Read)
    ensures
        match (r, spec_decode_v2(s@)) {
            (V2Read::NeedMore, V2DecodedValue::NeedMore) => true,
            (V2Read::BadChecksum { consumed }, V2DecodedValue::BadChecksum { consumed: c }) => consumed == c,
            (V2Read::Unparsed { msgid, consumed }, V2DecodedValue::Frame { msgid: id, payload, consumed: c, .. }) =>
                msgid == id && consumed == c && !mavlink_v2_parses(id, payload),
            (V2Read::Message { header, consumed, .. }, V2DecodedValue::Frame { header: h, msgid, payload, consumed: c }) =>
                header == h && consumed == c && mavlink_v2_parses(msgid, payload),
            _ => false,
        },
{
    match decode_v2_frame(s) {
        V2Decoded::NeedMore => V2Read::NeedMore,
        V2Decoded::BadChecksum { consumed } => V2Read::BadChecksum { consumed },
        V2Decoded::Frame { header, msgid, payload, consumed } => {
            match parse_v2_payload(msgid, payload.as_slice()) {
                Some(message) => V2Read::Message { header, message, consumed },
                None => V2Read::Unparsed { msgid, consumed },
            }
        },
    }
}

/// Why `mavlink` could not read a message from a cut-out frame.
#[derive(Clone, Copy, Debug, PartialEq, Eq, Structural)]
pub enum MavReadFailure {
    /// The frame's bytes ran out: on a single frame, this is how the crate's
    /// reader reports a checksum that did not match, since it then goes on
    /// looking for a frame after it.
    EndOfInput,
    /// The frame's payload does not parse as a message of the dialect.
    Parse,
}

/// How `mavlink::read_versioned_msg` ends on the given bytes: `None` when it
/// reads a message, otherwise why it does not.
pub uninterp spec fn mavlink_read_failure(frame: Seq<u8>, version: MavVersion) -> Option<
    MavReadFailure,
>;

/// Calls `mavlink::read_versioned_msg` on the bytes of one frame. The crate's
/// reader is a function of the bytes and the version: whether it reads a
/// message, or fails with an I/O error (on a byte slice, the end of the
/// input) or a parse error, is named by `mavlink_read_failure`. The message
/// that it reads is not described.
#[verifier::external_body]
pub(crate) fn read_versioned_frame(frame: &[u8], v: MavVersion) -> (r: Result<
    mavlink::ardupilotmega::MavMessage,
    MavReadFailure,
>)
    ensures
        match r {
            Ok(_) => mavlink_read_failure(frame@, v) is None,
            Err(e) => mavlink_read_failure(frame@, v) == Some(e),
        },
{
    let version = match v {
        MavVersion::V1 => mavlink::MavlinkVersion::V1,
        MavVersion::V2 => mavlink::MavlinkVersion::V2,
    };
    match mavlink::read_versioned_msg::<mavlink::ardupilotmega::MavMessage, _>(&mut &frame[..], version) {
        Ok((_, m)) => Ok(m),
        Err(mavlink::error::MessageReadError::Io(_)) => Err(MavReadFailure::EndOfInput),
        Err(mavlink::error::MessageReadError::Parse(_)) => Err(MavReadFailure::Parse),
    }
}

/// The header fields of the frame that starts at `start`: after the marker
/// and the length byte in MAVLink v1, and after the marker, the length and
/// the two flag bytes in MAVLink v2.
pub open spec fn frame_header_at(buf: Seq<u8>, start: int, v: MavVersion) -> MavFrameHeader {
    let first = match v {
        MavVersion::V1 => start + 2,
        MavVersion::V2 => start + 4,
    };
    MavFrameHeader { sequence: buf[first], system_id: buf[first + 1], component_id: buf[first + 2] }
}

/// What one attempt to take a message out of the receive buffer gives.
pub enum RecvStep {
    /// More bytes must be received first.
    NeedMore,
    /// A frame was cut out, but its checksum did not match; the buffer moved
    /// one byte past its marker.
    SkippedBadFrame,
    /// A message, with the header fields of its frame; the buffer moved past
    /// its frame.
    Message { header: MavFrameHeader, message: mavlink::ardupilotmega::MavMessage },
    /// The frame's payload does not parse; the buffer is left as it was.
    Failed,
}

/// Bytes received from the flight controller that no message has consumed.
pub struct MavlinkReceiver {
    buf: Vec<u8>,
    version: MavVersion,
}

impl MavlinkReceiver {
    /// The bytes not yet consumed.
    pub closed spec fn buffer(&self) -> Seq<u8> {
        self.buf@
    }

    /// The protocol version of the link.
    pub closed spec fn link_version(&self) -> MavVersion {
        self.version
    }

    /// A receiver for a link of the given version, with nothing received.
    pub fn new(version: MavVersion) -> (r: MavlinkReceiver)
        ensures
            r.buffer() == Seq::<u8>::empty(),
            r.link_version() == version,
    {
        MavlinkReceiver { buf: Vec::new(), version }
    }

    /// Adds received bytes at the end of the buffer.
    pub fn feed(&mut self, bytes: &[u8])
        ensures
            final(self).buffer() == old(self).buffer() + bytes@,
            final(self).link_version() == old(self).link_version(),
    {
        append_slice(&mut self.buf, bytes);
    }

    /// Takes the next message out of the buffer: locates the next frame as
    /// `find_frame` does and has `mavlink` read it. On success the buffer
    /// moves past the frame; when the frame's checksum does not match, one
    /// byte past its marker, and the search goes on from there on the next
    /// call; when the payload does not parse, it stays as it is.
    pub fn next_message(&mut self) -> (r: RecvStep)
        ensures
            final(self).link_version() == old(self).link_version(),
            match spec_find_frame(old(self).buffer(), old(self).link_version()) {
                FrameSearch::NeedMore => r is NeedMore && final(self).buffer() == old(self).buffer(),
                FrameSearch::Frame { start, end } => {
                    let outcome = mavlink_read_failure(
                        old(self).buffer().subrange(start as int, end as int),
                        old(self).link_version(),
                    );
                    match r {
                        RecvStep::Message { header, .. } => outcome is None && header
                            == frame_header_at(old(self).buffer(), start as int, old(self).link_version())
                            && final(self).buffer() == old(self).buffer().skip(end as int),
                        RecvStep::SkippedBadFrame => outcome == Some(MavReadFailure::EndOfInput)
                            && final(self).buffer() == old(self).buffer().skip(start + 1),
                        RecvStep::Failed => outcome == Some(MavReadFailure::Parse)
                            && final(self).buffer() == old(self).buffer(),
                        RecvStep::NeedMore => false,
                    }
                },
            },
    {
        match find_frame(self.buf.as_slice(), self.version) {
            FrameSearch::NeedMore => RecvStep::NeedMore,
            FrameSearch::Frame { start, end } => {
                proof {
                    lemma_first_index_from(self.buf@, magic(self.version), 0);
                    assert(self.buf@.len() == self.buf.len());
                    assert(start < end && end <= self.buf@.len());
                }
                let mut frame: Vec<u8> = Vec::new();
                let mut i: usize = start;
                while i < end
                    invariant
                        start <= i <= end,
                        end <= self.buf@.len(),
                        frame@ == self.buf@.subrange(start as int, i as int),
                    decreases end - i,
                {
                    frame.push(self.buf[i]);
                    i = i + 1;
                    proof {
                        assert(frame@ =~= self.buf@.subrange(start as int, i as int));
                    }
                }
                let first: usize = match self.version {
                    MavVersion::V1 => start + 2,
                    MavVersion::V2 => start + 4,
                };
                let header = MavFrameHeader {
                    sequence: self.buf[first],
                    system_id: self.buf[first + 1],
                    component_id: self.buf[first + 2],
                };
                match read_versioned_frame(frame.as_slice(), self.version) {
                    Ok(message) => {
                        let rest = self.buf.split_off(end);
                        self.buf = rest;
                        RecvStep::Message { header, message }
                    },
                    Err(MavReadFailure::EndOfInput) => {
                        let rest = self.buf.split_off(start + 1);
                        self.buf = rest;
                        RecvStep::SkippedBadFrame
                    },
                    Err(MavReadFailure::Parse) => RecvStep::Failed,
                }
            },
        }
    }
}

/// Numbers outgoing MAVLink frames, wrapping after 255.
#[derive(Debug)]
pub struct MavSequence {
    next: u8,
}

impl MavSequence {
    /// The number that the next frame gets.
    pub closed spec fn peek(&self) -> u8 {
        self.next
    }

    /// A counter that starts at 0.
    pub fn new() -> (r: MavSequence)
        ensures
            r.peek() == 0,
    {
        MavSequence { next: 0 }
    }

    /// The number for the next frame; the counter moves on, wrapping after 255.
    pub fn take(&mut self) -> (r: u8)
        ensures
            r == old(self).peek(),
            final(self).peek() == (if old(self).peek() == 255 { 0 } else { old(self).peek() + 1 }),
    {
        let r = self.next;
        self.next = if self.next == 255 {
            0
        } else {
            self.next + 1
        };
        r
    }
}

/// The three message id bytes of a frame give back a message id below 2^24.
proof fn lemma_msgid_bytes(msgid: u32)
    requires
        msgid < 0x1000000,
    ensures
        ((msgid & 0x0000FF) as u8) as int + (((msgid & 0x00FF00) >> 8u32) as u8) as int * 256 + ((
        (msgid & 0xFF0000) >> 16u32) as u8) as int * 65536 == msgid as int,
{
    assert(((msgid & 0x0000FF) as u8) as u32 + (((msgid & 0x00FF00) >> 8u32) as u8) as u32 * 256
        + (((msgid & 0xFF0000) >> 16u32) as u8) as u32 * 65536 == msgid) by (bit_vector)
        requires
            msgid < 0x1000000,
    ;
}

/// The two checksum bytes of a frame give back the checksum.
proof fn lemma_crc_bytes(crc: u16)
    ensures
        ((crc & 0xFF) as u8) as int + ((crc >> 8u16) as u8) as int * 256 == crc as int,
{
    assert(((crc & 0xFF) as u8) as u16 + ((crc >> 8u16) as u8) as u16 * 256 == crc) by (bit_vector);
}

/// A frame that the library encodes is found whole by the receive scanner,
/// whatever bytes follow it: it starts at the marker and its length follows
/// from its length byte.
pub proof fn lemma_encoded_frame_found(h: MavFrameHeader, msgid: u32, payload: Seq<u8>, rest: Seq<u8>)
    requires
        payload.len() <= MAX_PAYLOAD_LEN,
    ensures
        spec_find_frame(spec_encode_v2(h, msgid, payload) + rest, MavVersion::V2) == (FrameSearch::Frame {
            start: 0,
            end: (payload.len() + 12) as usize,
        }),
{
    let s = spec_encode_v2(h, msgid, payload) + rest;
    assert(s[0] == MAV_STX_V2);
    assert(s[1] == payload.len() as u8);
    assert(first_index_from(s, MAV_STX_V2, 0) == Some(0int));
}

/// Reading back a frame that the library encodes gives its header, message id
/// and payload (zero-padded to the largest payload size), for a message id
/// below 2^24 and any payload up to 255 bytes; bytes after the frame are not
/// read.
pub proof fn lemma_v2_round_trip(h: MavFrameHeader, msgid: u32, payload: Seq<u8>, rest: Seq<u8>)
    requires
        msgid < 0x1000000,
        payload.len() <= MAX_PAYLOAD_LEN,
    ensures
        spec_decode_v2(spec_encode_v2(h, msgid, payload) + rest) == (V2DecodedValue::Frame {
            header: h,
            msgid,
            payload: payload + zero_padding(payload.len() as int),
            consumed: payload.len() + 12int,
        }),
{
    let e = spec_encode_v2(h, msgid, payload);
    let s = e + rest;
    let len = payload.len() as int;
    let header = v2_header_bytes(payload.len() as u8, h, msgid);
    let crc = crc16_mcrf4xx(header + payload + seq![mavlink_extra_crc(msgid)]);
    assert(s[0] == MAV_STX_V2);
    assert(first_index_from(s, MAV_STX_V2, 0) == Some(0int));
    assert(s[1] == payload.len() as u8);
    assert(s[1] as int == len);
    assert(s[2] == 0u8);
    assert(0u8 & MAVLINK_IFLAG_SIGNED != MAVLINK_IFLAG_SIGNED) by (bit_vector);
    lemma_msgid_bytes(msgid);
    assert(s[7] == (msgid & 0x0000FF) as u8);
    assert(s[8] == ((msgid & 0x00FF00) >> 8u32) as u8);
    assert(s[9] == ((msgid & 0xFF0000) >> 16u32) as u8);
    assert(s.subrange(10, 10 + len) =~= payload);
    assert(s.subrange(1, 10) =~= header);
    assert(s.subrange(1, 10 + len) =~= header + payload);
    assert(s[10 + len] == (crc & 0xFF) as u8);
    assert(s[11 + len] == (crc >> 8u16) as u8);
    lemma_crc_bytes(crc);
    assert(s[4] == h.sequence);
    assert(s[5] == h.system_id);
    assert(s[6] == h.component_id);
}

/// An encoded MAVLink v2 frame has the protocol's layout: the marker 0xFD,
/// the payload length, two zero flag bytes, the sequence, system and component
/// ids, the message id in three little-endian bytes, the payload, and the
/// CRC-16/MCRF4XX of everything after the marker followed by the CRC_EXTRA
/// byte, low byte first.
pub proof fn lemma_v2_frame_layout(h: MavFrameHeader, msgid: u32, payload: Seq<u8>)
    requires
        msgid < 0x1000000,
        payload.len() <= MAX_PAYLOAD_LEN,
    ensures
        ({
            let f = spec_encode_v2(h, msgid, payload);
            let len = payload.len() as int;
            &&& f.len() == len + 12
            &&& f[0] == 0xFDu8
            &&& f[1] as int == len
            &&& f[2] == 0u8
            &&& f[3] == 0u8
            &&& f[4] == h.sequence
            &&& f[5] == h.system_id
            &&& f[6] == h.component_id
            &&& f[7] as int + f[8] as int * 256 + f[9] as int * 65536 == msgid as int
            &&& f.subrange(10, 10 + len) == payload
            &&& f[10 + len] as int + f[11 + len] as int * 256 == crc16_mcrf4xx(
                f.subrange(1, 10 + len) + seq![mavlink_extra_crc(msgid)],
            ) as int
        }),
{
    let f = spec_encode_v2(h, msgid, payload);
    let len = payload.len() as int;
    let header = v2_header_bytes(payload.len() as u8, h, msgid);
    let crc = crc16_mcrf4xx(header + payload + seq![mavlink_extra_crc(msgid)]);
    lemma_msgid_bytes(msgid);
    lemma_crc_bytes(crc);
    assert(f.subrange(10, 10 + len) =~= payload);
    assert(f.subrange(1, 10 + len) =~= header + payload);
    assert(f[1] == payload.len() as u8);
}

} // verus!
