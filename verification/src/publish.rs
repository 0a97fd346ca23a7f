//! Builder and decoder for the PUBLISH packet, the only packet with a
//! variable-length body (topic plus payload).
//!
//! The wire layout is: one header byte whose high nibble is the PUBLISH type
//! and whose low nibble packs DUP (bit 3), QoS (bits 2-1) and RETAIN
//! (bit 0); one remaining-length byte; a two-byte big-endian topic length;
//! the topic bytes; and the payload bytes.
//!
//! The decoder yields `None` both for buffers of another packet type and for
//! malformed PUBLISH buffers. This deliberately keeps the original's
//! non-error "not this packet type" signal, in contrast to the structured
//! errors of the CONNACK and SUBACK decoders.

use vstd::prelude::*;
use vstd::slice::slice_subrange;
use vstd::slice::slice_to_vec;
use vstd::string::StringSliceAdditionalSpecFns;
use vstd::utf8::decode_utf8;
use vstd::utf8::encode_utf8;
use vstd::utf8::encode_utf8_decode_utf8;
use vstd::utf8::encode_utf8_valid_utf8;
use vstd::utf8::valid_utf8;

use crate::codes::spec_ctrl_pkt_byte;
use crate::codes::spec_qos_byte;
use crate::codes::spec_qos_from_byte;
use crate::codes::CtrlPkt;
use crate::codes::QoS;

verus! {

/// Reasons an encoder write is refused.
#[derive(Debug, PartialEq, Eq, Structural, Clone, Copy)]
pub enum PublishError {
    /// The remaining-length byte would exceed its one-byte range.
    RemainingLenOverflow,
    /// The write would run past the buffer's capacity.
    CapacityExceeded,
}

/// Marker for topic or payload bytes that are not valid UTF-8.
#[derive(Debug, PartialEq, Eq, Structural, Clone, Copy)]
pub struct NotUtf8;

/// The DUP flag carried in bit 3 of a PUBLISH header byte.
pub open spec fn spec_dup_of(h: u8) -> bool {
    h & 0x08 == 0x08
}

/// The two QoS bits carried in bits 2-1 of a PUBLISH header byte.
pub open spec fn spec_qos_bits_of(h: u8) -> u8 {
    (h >> 1) & 0x03
}

/// The QoS level carried in a PUBLISH header byte, or `None` when the two
/// bits encode no level.
pub open spec fn spec_qos_of(h: u8) -> Option<QoS> {
    match spec_qos_from_byte(spec_qos_bits_of(h)) {
        Ok(q) => Some(q),
        Err(_) => None,
    }
}

/// The RETAIN flag carried in bit 0 of a PUBLISH header byte.
pub open spec fn spec_retain_of(h: u8) -> bool {
    h & 0x01 == 0x01
}

/// The PUBLISH header byte with the given DUP, QoS and RETAIN flags.
pub open spec fn spec_flags_byte(dup: bool, qos: QoS, retain: bool) -> u8 {
    0x30 | (if dup {
        0x08u8
    } else {
        0u8
    }) | (spec_qos_byte(qos) << 1) | (if retain {
        0x01u8
    } else {
        0u8
    })
}

/// The bytes of a PUBLISH packet with the given header byte, topic and
/// payload: header, remaining length, two-byte big-endian topic length,
/// topic, payload.
pub open spec fn spec_publish_packet(header: u8, topic: Seq<u8>, payload: Seq<u8>) -> Seq<u8>
    recommends
        2 + topic.len() + payload.len() <= 255,
{
    seq![
        header,
        (2 + topic.len() + payload.len()) as u8,
        (topic.len() / 256) as u8,
        (topic.len() % 256) as u8,
    ] + topic + payload
}

/// The topic length field of a PUBLISH buffer (bytes 2-3, big-endian).
pub open spec fn spec_topic_len(s: Seq<u8>) -> int
    recommends
        s.len() >= 4,
{
    (s[2] as int) * 256 + (s[3] as int)
}

/// The payload length a PUBLISH buffer declares: the remaining length minus
/// the topic length (clamped to 255) minus 2, floored at 0 so malformed
/// lengths cannot underflow.
pub open spec fn spec_payload_len(s: Seq<u8>) -> int
    recommends
        s.len() >= 4,
{
    let t8 = if spec_topic_len(s) > 255 {
        255int
    } else {
        spec_topic_len(s)
    };
    let p = (s[1] as int) - t8 - 2;
    if p > 0 {
        p
    } else {
        0
    }
}

/// True when a buffer decodes as a PUBLISH packet: it has the four fixed
/// bytes, its header carries the PUBLISH type nibble, and the topic and
/// payload ranges both lie within the buffer.
pub open spec fn spec_publish_ok(s: Seq<u8>) -> bool {
    &&& s.len() >= 4
    &&& s[0] >> 4 == spec_ctrl_pkt_byte(CtrlPkt::PUBLISH)
    &&& 4 + spec_topic_len(s) <= s.len()
    &&& 4 + spec_topic_len(s) + spec_payload_len(s) <= s.len()
}

/// The topic bytes of a PUBLISH buffer.
pub open spec fn spec_publish_topic(s: Seq<u8>) -> Seq<u8>
    recommends
        spec_publish_ok(s),
{
    s.subrange(4, 4 + spec_topic_len(s))
}

/// The payload bytes of a PUBLISH buffer.
pub open spec fn spec_publish_payload(s: Seq<u8>) -> Seq<u8>
    recommends
        spec_publish_ok(s),
{
    s.subrange(4 + spec_topic_len(s), 4 + spec_topic_len(s) + spec_payload_len(s))
}

/// Builder for a PUBLISH packet over a fixed-capacity buffer of `N` bytes.
///
/// The capacity must be at least 4 (header, remaining length and topic
/// length field); [`PublishBuilder::new`] requires it statically. The topic
/// is meant to be set once, before payload bytes are appended; after other
/// writes the bytes between the new topic and the packet's end are
/// unspecified.
#[derive(Debug)]
pub struct PublishBuilder<const N: usize> {
    buf: Vec<u8>,
}

impl<const N: usize> PublishBuilder<N> {
    /// The header byte: PUBLISH type nibble plus the three flag bits.
    pub closed spec fn spec_header(self) -> u8 {
        self.buf@[0]
    }

    /// The remaining-length byte's value.
    pub closed spec fn spec_rem_len(self) -> int {
        self.buf@[1] as int
    }

    /// The topic length field's value.
    pub closed spec fn spec_topic_len(self) -> int {
        (self.buf@[2] as int) * 256 + (self.buf@[3] as int)
    }

    /// The topic bytes written so far.
    pub closed spec fn topic_bytes(self) -> Seq<u8> {
        self.buf@.subrange(4, 4 + self.spec_topic_len())
    }

    /// The payload bytes written so far.
    pub closed spec fn payload_bytes(self) -> Seq<u8> {
        self.buf@.subrange(4 + self.spec_topic_len(), 2 + self.spec_rem_len())
    }

    /// The encoded packet: the buffer's prefix of header, remaining length
    /// and remaining-length-worth of content.
    pub closed spec fn packet_bytes(self) -> Seq<u8> {
        self.buf@.subrange(0, 2 + self.spec_rem_len())
    }

    /// Well-formedness: the buffer has exactly the chosen capacity, the
    /// encoded packet fits in it, the header carries the PUBLISH nibble, and
    /// the topic lies within the encoded content.
    pub closed spec fn wf(self) -> bool {
        &&& N >= 4
        &&& self.buf@.len() == N
        &&& 2 <= self.spec_rem_len() <= 255
        &&& 2 + self.spec_rem_len() <= N
        &&& self.spec_topic_len() + 2 <= self.spec_rem_len()
        &&& self.spec_header() >> 4 == spec_ctrl_pkt_byte(CtrlPkt::PUBLISH)
    }

    /// A fresh builder: header byte set to the PUBLISH type nibble with all
    /// flags clear, remaining length 2 (the empty topic's length field), no
    /// topic, no payload.
    pub fn new() -> (r: PublishBuilder<N>)
        requires
            N >= 4,
        ensures
            r.wf(),
            r.spec_header() == (spec_ctrl_pkt_byte(CtrlPkt::PUBLISH) * 16) as u8,
            r.spec_rem_len() == 2,
            r.topic_bytes() == Seq::<u8>::empty(),
            r.payload_bytes() == Seq::<u8>::empty(),
    {
        let mut buf: Vec<u8> = Vec::new();
        buf.push(CtrlPkt::PUBLISH.to_byte() * 16);
        buf.push(2);
        let mut i: usize = 2;
        while i < N
            invariant
                2 <= i <= N || (i == 2 && N >= 2),
                buf@.len() == i,
                buf@[0] == (spec_ctrl_pkt_byte(CtrlPkt::PUBLISH) * 16) as u8,
                buf@[1] == 2,
                forall|k: int| 2 <= k < i ==> buf@[k] == 0,
            decreases N - i,
        {
            buf.push(0);
            i = i + 1;
        }
        let r = PublishBuilder { buf };
        proof {
            let h0 = r.spec_header();
            assert(h0 >> 4 == 3) by (bit_vector)
                requires
                    h0 == 0x30,
            ;
            assert(r.topic_bytes() =~= Seq::<u8>::empty());
            assert(r.payload_bytes() =~= Seq::<u8>::empty());
        }
        r
    }

    /// Sets or clears the DUP flag (header bit 3), leaving every other bit
    /// and the packet's content untouched.
    pub fn set_dup(self, dup: bool) -> (r: PublishBuilder<N>)
        requires
            self.wf(),
        ensures
            r.wf(),
            r.spec_header() == (if dup {
                self.spec_header() | 0x08
            } else {
                self.spec_header() & 0xF7
            }),
            r.spec_rem_len() == self.spec_rem_len(),
            r.topic_bytes() == self.topic_bytes(),
            r.payload_bytes() == self.payload_bytes(),
    {
        let mut buf = self.buf;
        let h = buf[0];
        let h2 = if dup {
            h | 0x08
        } else {
            h & 0xF7
        };
        buf.set(0, h2);
        let r = PublishBuilder { buf };
        proof {
            assert((h | 0x08u8) >> 4 == h >> 4 && (h & 0xF7u8) >> 4 == h >> 4) by (bit_vector);
            assert(r.topic_bytes() =~= self.topic_bytes());
            assert(r.payload_bytes() =~= self.payload_bytes());
        }
        r
    }

    /// Writes the QoS level into header bits 2-1, leaving every other bit
    /// and the packet's content untouched.
    pub fn set_qos(self, qos: QoS) -> (r: PublishBuilder<N>)
        requires
            self.wf(),
        ensures
            r.wf(),
            r.spec_header() == (self.spec_header() & 0xF9) | (spec_qos_byte(qos) << 1),
            r.spec_rem_len() == self.spec_rem_len(),
            r.topic_bytes() == self.topic_bytes(),
            r.payload_bytes() == self.payload_bytes(),
    {
        let mut buf = self.buf;
        let h = buf[0];
        let q = qos.to_byte();
        let h2 = (h & 0xF9) | (q << 1);
        buf.set(0, h2);
        let r = PublishBuilder { buf };
        proof {
            assert(q <= 2);
            assert(((h & 0xF9u8) | (q << 1)) >> 4 == h >> 4) by (bit_vector)
                requires
                    q <= 2,
            ;
            assert(r.topic_bytes() =~= self.topic_bytes());
            assert(r.payload_bytes() =~= self.payload_bytes());
        }
        r
    }

    /// Sets or clears the RETAIN flag (header bit 0), leaving every other
    /// bit and the packet's content untouched.
    pub fn set_retain(self, retain: bool) -> (r: PublishBuilder<N>)
        requires
            self.wf(),
        ensures
            r.wf(),
            r.spec_header() == (if retain {
                self.spec_header() | 0x01
            } else {
                self.spec_header() & 0xFE
            }),
            r.spec_rem_len() == self.spec_rem_len(),
            r.topic_bytes() == self.topic_bytes(),
            r.payload_bytes() == self.payload_bytes(),
    {
        let mut buf = self.buf;
        let h = buf[0];
        let h2 = if retain {
            h | 0x01
        } else {
            h & 0xFE
        };
        buf.set(0, h2);
        let r = PublishBuilder { buf };
        proof {
            assert((h | 0x01u8) >> 4 == h >> 4 && (h & 0xFEu8) >> 4 == h >> 4) by (bit_vector);
            assert(r.topic_bytes() =~= self.topic_bytes());
            assert(r.payload_bytes() =~= self.payload_bytes());
        }
        r
    }

    /// The encoded packet's length in bytes: header, remaining-length byte
    /// and remaining-length-worth of content.
    pub fn len(&self) -> (r: usize)
        requires
            self.wf(),
        ensures
            r == 2 + self.spec_rem_len(),
    {
        self.buf[1] as usize + 2
    }

    /// Writes the topic: its byte length as a two-byte big-endian prefix at
    /// bytes 2-3, the topic bytes from byte 4 on, and the remaining-length
    /// byte incremented by the topic's byte length.
    ///
    /// Fails with [`PublishError::RemainingLenOverflow`] when the new
    /// remaining length would not fit in one byte, and with
    /// [`PublishError::CapacityExceeded`] when the grown packet would not
    /// fit in the buffer; the builder is consumed either way.
    pub fn set_topic(self, topic: &str) -> (r: Result<PublishBuilder<N>, PublishError>)
        requires
            self.wf(),
        ensures
            r is Ok <==> {
                &&& self.spec_rem_len() + topic.spec_bytes().len() <= 255
                &&& 2 + self.spec_rem_len() + topic.spec_bytes().len() <= N
            },
            r matches Err(e) ==> e == (if self.spec_rem_len() + topic.spec_bytes().len() > 255 {
                PublishError::RemainingLenOverflow
            } else {
                PublishError::CapacityExceeded
            }),
            r matches Ok(b) ==> {
                &&& b.wf()
                &&& b.spec_header() == self.spec_header()
                &&& b.spec_rem_len() == self.spec_rem_len() + topic.spec_bytes().len()
                &&& b.topic_bytes() == topic.spec_bytes()
                &&& self.spec_rem_len() == 2 ==> b.payload_bytes() == Seq::<u8>::empty()
            },
    {
        let tb: &[u8] = topic.as_bytes();
        let tl: usize = tb.len();
        let rl: usize = self.buf[1] as usize;
        if tl > 255 - rl {
            return Err(PublishError::RemainingLenOverflow);
        }
        if tl > N - 2 - rl {
            return Err(PublishError::CapacityExceeded);
        }
        let mut buf = self.buf;
        buf.set(1, (rl + tl) as u8);
        buf.set(2, 0);
        buf.set(3, tl as u8);
        let ghost base = buf@;
        let mut idx: usize = 0;
        while idx < tl
            invariant
                idx <= tl,
                4 + tl <= N,
                tl == tb@.len(),
                buf@.len() == N,
                base.len() == N,
                forall|k: int| 0 <= k < N && !(4 <= k < 4 + idx) ==> buf@[k] == base[k],
                forall|k: int| 4 <= k < 4 + idx ==> buf@[k] == tb@[k - 4],
            decreases tl - idx,
        {
            buf.set(4 + idx, tb[idx]);
            idx = idx + 1;
        }
        let r = PublishBuilder { buf };
        proof {
            assert(buf@[0] == base[0] && buf@[1] == base[1] && buf@[2] == base[2] && buf@[3]
                == base[3]);
            assert(r.spec_topic_len() == tl);
            assert(r.spec_rem_len() == rl + tl);
            assert(r.wf());
            assert(r.topic_bytes() =~= tb@);
            if self.spec_rem_len() == 2 {
                assert(r.payload_bytes() =~= Seq::<u8>::empty());
            }
        }
        Ok(r)
    }

    /// Freezes the builder into an immutable packet view.
    pub fn finalize(self) -> (r: Publish<N>)
        requires
            self.wf(),
        ensures
            r.wf(),
            r.spec_header() == self.spec_header(),
            r.spec_rem_len() == self.spec_rem_len(),
            r.topic_bytes() == self.topic_bytes(),
            r.payload_bytes() == self.payload_bytes(),
            r.packet_bytes() == self.packet_bytes(),
    {
        Publish { bldr: self }
    }
}

/// A finalized PUBLISH packet over a fixed-capacity buffer of `N` bytes.
///
/// Payload bytes can still be appended with [`Publish::write_str`]; they go
/// at the packet's current logical end.
#[derive(Debug)]
pub struct Publish<const N: usize> {
    bldr: PublishBuilder<N>,
}

impl<const N: usize> Publish<N> {
    /// The header byte of the packet.
    pub closed spec fn spec_header(self) -> u8 {
        self.bldr.spec_header()
    }

    /// The remaining-length byte's value.
    pub closed spec fn spec_rem_len(self) -> int {
        self.bldr.spec_rem_len()
    }

    /// The topic bytes of the packet.
    pub closed spec fn topic_bytes(self) -> Seq<u8> {
        self.bldr.topic_bytes()
    }

    /// The payload bytes of the packet.
    pub closed spec fn payload_bytes(self) -> Seq<u8> {
        self.bldr.payload_bytes()
    }

    /// The encoded packet bytes.
    pub closed spec fn packet_bytes(self) -> Seq<u8> {
        self.bldr.packet_bytes()
    }

    /// Well-formedness, inherited from the builder.
    pub closed spec fn wf(self) -> bool {
        self.bldr.wf()
    }

    /// Appends the string's bytes at the packet's current logical end,
    /// incrementing the remaining-length byte once per appended byte.
    ///
    /// Fails, leaving the packet unchanged, with
    /// [`PublishError::RemainingLenOverflow`] when the new remaining length
    /// would not fit in one byte, and with
    /// [`PublishError::CapacityExceeded`] when the grown packet would not
    /// fit in the buffer.
    pub fn write_str(&mut self, s: &str) -> (r: Result<(), PublishError>)
        requires
            old(self).wf(),
        ensures
            final(self).wf(),
            r is Ok <==> {
                &&& old(self).spec_rem_len() + s.spec_bytes().len() <= 255
                &&& 2 + old(self).spec_rem_len() + s.spec_bytes().len() <= N
            },
            r matches Err(e) ==> {
                &&& *final(self) == *old(self)
                &&& e == (if old(self).spec_rem_len() + s.spec_bytes().len() > 255 {
                    PublishError::RemainingLenOverflow
                } else {
                    PublishError::CapacityExceeded
                })
            },
            r is Ok ==> {
                &&& final(self).spec_header() == old(self).spec_header()
                &&& final(self).spec_rem_len() == old(self).spec_rem_len() + s.spec_bytes().len()
                &&& final(self).topic_bytes() == old(self).topic_bytes()
                &&& final(self).payload_bytes() == old(self).payload_bytes() + s.spec_bytes()
            },
    {
        let sb: &[u8] = s.as_bytes();
        let sl: usize = sb.len();
        let rl: usize = self.bldr.buf[1] as usize;
        if sl > 255 - rl {
            return Err(PublishError::RemainingLenOverflow);
        }
        if sl > N - 2 - rl {
            return Err(PublishError::CapacityExceeded);
        }
        let ghost base = self.bldr.buf@;
        let mut idx: usize = 0;
        while idx < sl
            invariant
                idx <= sl,
                2 + rl + sl <= N,
                rl <= 255,
                sl == sb@.len(),
                self.bldr.buf@.len() == N,
                base.len() == N,
                forall|k: int|
                    0 <= k < N && !(2 + rl <= k < 2 + rl + idx) ==> self.bldr.buf@[k] == base[k],
                forall|k: int| 2 + rl <= k < 2 + rl + idx ==> self.bldr.buf@[k] == sb@[k - 2 - rl],
            decreases sl - idx,
        {
            self.bldr.buf.set(2 + rl + idx, sb[idx]);
            idx = idx + 1;
        }
        self.bldr.buf.set(1, (rl + sl) as u8);
        proof {
            assert(final(self).topic_bytes() =~= old(self).topic_bytes());
            assert(final(self).payload_bytes() =~= old(self).payload_bytes() + sb@);
        }
        Ok(())
    }

    /// The encoded packet: exactly the buffer's used prefix, not its unused
    /// tail capacity.
    pub fn as_slice(&self) -> (r: &[u8])
        requires
            self.wf(),
        ensures
            r@ == self.packet_bytes(),
    {
        let l = self.bldr.len();
        slice_subrange(self.bldr.buf.as_slice(), 0, l)
    }
}

/// The encoded prefix of a well-formed builder is exactly the PUBLISH packet
/// for its header, topic and payload.
pub proof fn lemma_builder_packet<const N: usize>(b: PublishBuilder<N>)
    requires
        b.wf(),
    ensures
        b.packet_bytes() == spec_publish_packet(b.spec_header(), b.topic_bytes(), b.payload_bytes()),
{
    assert(b.packet_bytes() =~= spec_publish_packet(
        b.spec_header(),
        b.topic_bytes(),
        b.payload_bytes(),
    ));
}

/// The encoded prefix of a finalized packet is exactly the PUBLISH packet
/// for its header, topic and payload.
pub proof fn lemma_publish_packet<const N: usize>(p: Publish<N>)
    requires
        p.wf(),
    ensures
        p.packet_bytes() == spec_publish_packet(p.spec_header(), p.topic_bytes(), p.payload_bytes()),
{
    lemma_builder_packet(p.bldr);
}

/// A decoded PUBLISH packet's logical fields.
///
/// The topic bytes are interpreted as UTF-8 text; a failed interpretation is
/// carried in `topic` rather than failing the whole decode. The payload
/// stays opaque bytes, with [`PublishDe::payload_utf8`] as the on-demand
/// text interpretation.
#[derive(Debug, PartialEq, Eq)]
pub struct PublishDe {
    /// The DUP flag (header bit 3).
    pub dup_flag: bool,
    /// The QoS level (header bits 2-1), or `None` when the two bits encode
    /// no level.
    pub qos_level: Option<QoS>,
    /// The RETAIN flag (header bit 0).
    pub retain: bool,
    /// The topic text, or [`NotUtf8`] when the topic bytes are not valid
    /// UTF-8.
    pub topic: Result<String, NotUtf8>,
    /// The payload bytes.
    pub payload: Vec<u8>,
}

/// Relies on `core::str::from_utf8`: it succeeds exactly when the bytes are
/// valid UTF-8, and the returned string views those same bytes.
#[verifier::external_body]
fn str_from_utf8(bytes: &[u8]) -> (r: Option<&str>)
    ensures
        r is Some <==> valid_utf8(bytes@),
        r matches Some(s) ==> s.spec_bytes() == bytes@,
{
    core::str::from_utf8(bytes).ok()
}

impl PublishDe {
    /// Parses a raw PUBLISH buffer into its logical fields, yielding `None`
    /// exactly when [`spec_publish_ok`] refuses the buffer.
    pub fn new(buf: &[u8]) -> (r: Option<PublishDe>)
        ensures
            r is Some <==> spec_publish_ok(buf@),
            r matches Some(d) ==> {
                &&& d.dup_flag == spec_dup_of(buf@[0])
                &&& d.qos_level == spec_qos_of(buf@[0])
                &&& d.retain == spec_retain_of(buf@[0])
                &&& d.payload@ == spec_publish_payload(buf@)
                &&& (d.topic is Ok <==> valid_utf8(spec_publish_topic(buf@)))
                &&& (d.topic matches Ok(t) ==> t@ == decode_utf8(spec_publish_topic(buf@)))
            },
    {
        let n = buf.len();
        if n == 0 {
            return None;
        }
        let first_byte = buf[0];
        if first_byte >> 4 != CtrlPkt::PUBLISH.to_byte() {
            return None;
        }
        if n < 4 {
            return None;
        }
        let remain_len: usize = buf[1] as usize;
        let topic_len: usize = (buf[2] as usize) * 256 + (buf[3] as usize);
        let t8: usize = if topic_len > 255 {
            255
        } else {
            topic_len
        };
        let payload_len: usize = if remain_len > t8 + 2 {
            remain_len - t8 - 2
        } else {
            0
        };
        if topic_len > n - 4 {
            return None;
        }
        if payload_len > n - 4 - topic_len {
            return None;
        }
        let topic_slice = slice_subrange(buf, 4, 4 + topic_len);
        let payload_slice = slice_subrange(buf, 4 + topic_len, 4 + topic_len + payload_len);
        let topic: Result<String, NotUtf8> = match str_from_utf8(topic_slice) {
            Some(t) => {
                proof {
                    encode_utf8_decode_utf8(t@);
                }
                Ok(t.to_owned())
            },
            None => Err(NotUtf8),
        };
        Some(
            PublishDe {
                dup_flag: first_byte & 0x08 == 0x08,
                qos_level: match QoS::from_byte((first_byte >> 1) & 0x03) {
                    Ok(q) => Some(q),
                    Err(_) => None,
                },
                retain: first_byte & 0x01 == 0x01,
                topic,
                payload: slice_to_vec(payload_slice),
            },
        )
    }

    /// Interprets the payload bytes as UTF-8 text, failing exactly when they
    /// are not valid UTF-8.
    pub fn payload_utf8(&self) -> (r: Result<String, NotUtf8>)
        ensures
            r is Ok <==> valid_utf8(self.payload@),
            r matches Ok(p) ==> p@ == decode_utf8(self.payload@),
    {
        match str_from_utf8(self.payload.as_slice()) {
            Some(s) => {
                proof {
                    encode_utf8_decode_utf8(s@);
                }
                Ok(s.to_owned())
            },
            None => Err(NotUtf8),
        }
    }
}

/// Setting DUP, QoS and RETAIN in turn on a fresh header yields exactly the
/// flags byte for that combination.
pub proof fn lemma_flags_byte(dup: bool, qos: QoS, retain: bool)
    ensures
        ({
            let h0 = (spec_ctrl_pkt_byte(CtrlPkt::PUBLISH) * 16) as u8;
            let h1 = if dup {
                h0 | 0x08
            } else {
                h0 & 0xF7
            };
            let h2 = (h1 & 0xF9) | (spec_qos_byte(qos) << 1);
            let h3 = if retain {
                h2 | 0x01
            } else {
                h2 & 0xFE
            };
            h3 == spec_flags_byte(dup, qos, retain)
        }),
{
    let q = spec_qos_byte(qos);
    assert(q <= 2);
    assert(((if dup {
        0x30u8 | 0x08
    } else {
        0x30u8 & 0xF7
    } & 0xF9) | (q << 1) | (if retain {
        0x01u8
    } else {
        0u8
    })) == (0x30u8 | (if dup {
        0x08u8
    } else {
        0u8
    }) | (q << 1) | (if retain {
        0x01u8
    } else {
        0u8
    }))) by (bit_vector)
        requires
            q <= 2,
    ;
    assert((if retain {
        ((if dup {
            0x30u8 | 0x08
        } else {
            0x30u8 & 0xF7
        } & 0xF9) | (q << 1)) | 0x01
    } else {
        ((if dup {
            0x30u8 | 0x08
        } else {
            0x30u8 & 0xF7
        } & 0xF9) | (q << 1)) & 0xFE
    }) == ((if dup {
        0x30u8 | 0x08
    } else {
        0x30u8 & 0xF7
    } & 0xF9) | (q << 1) | (if retain {
        0x01u8
    } else {
        0u8
    }))) by (bit_vector)
        requires
            q <= 2,
    ;
}

/// Round trip: a PUBLISH packet carrying the given flags, topic and payload
/// decodes back to exactly those flags, that topic and that payload.
pub proof fn lemma_publish_round_trip(dup: bool, qos: QoS, retain: bool, topic: Seq<u8>, payload: Seq<u8>)
    requires
        2 + topic.len() + payload.len() <= 255,
    ensures
        ({
            let s = spec_publish_packet(spec_flags_byte(dup, qos, retain), topic, payload);
            &&& spec_publish_ok(s)
            &&& spec_dup_of(s[0]) == dup
            &&& spec_qos_of(s[0]) == Some(qos)
            &&& spec_retain_of(s[0]) == retain
            &&& spec_publish_topic(s) == topic
            &&& spec_publish_payload(s) == payload
        }),
{
    let q = spec_qos_byte(qos);
    assert(q <= 2);
    let h = spec_flags_byte(dup, qos, retain);
    assert(({
        let hh = 0x30u8 | (if dup {
            0x08u8
        } else {
            0u8
        }) | (q << 1) | (if retain {
            0x01u8
        } else {
            0u8
        });
        &&& hh >> 4 == 3
        &&& (hh & 0x08 == 0x08) == dup
        &&& (hh >> 1) & 0x03 == q
        &&& (hh & 0x01 == 0x01) == retain
    })) by (bit_vector)
        requires
            q <= 2,
    ;
    let s = spec_publish_packet(h, topic, payload);
    let t = topic.len() as int;
    let p = payload.len() as int;
    assert(s.len() == 4 + t + p);
    assert(s[0] == h);
    assert(s[1] == (2 + t + p) as u8);
    assert(s[2] == (topic.len() / 256) as u8);
    assert(s[3] == (topic.len() % 256) as u8);
    assert(spec_topic_len(s) == t);
    assert(spec_payload_len(s) == p);
    assert(spec_publish_topic(s) =~= topic);
    assert(spec_publish_payload(s) =~= payload);
    crate::codes::lemma_qos_byte_round_trip(qos);
}

/// Round trip for a topic taken from a string: the packet carrying the
/// string's UTF-8 bytes decodes back to the same flags, the same payload,
/// and topic bytes that are valid UTF-8 and decode to the same characters.
pub proof fn lemma_publish_round_trip_str(
    dup: bool,
    qos: QoS,
    retain: bool,
    topic: Seq<char>,
    payload: Seq<u8>,
)
    requires
        2 + encode_utf8(topic).len() + payload.len() <= 255,
    ensures
        ({
            let s = spec_publish_packet(spec_flags_byte(dup, qos, retain), encode_utf8(topic), payload);
            &&& spec_publish_ok(s)
            &&& spec_dup_of(s[0]) == dup
            &&& spec_qos_of(s[0]) == Some(qos)
            &&& spec_retain_of(s[0]) == retain
            &&& valid_utf8(spec_publish_topic(s))
            &&& decode_utf8(spec_publish_topic(s)) == topic
            &&& spec_publish_payload(s) == payload
        }),
{
    lemma_publish_round_trip(dup, qos, retain, encode_utf8(topic), payload);
    encode_utf8_valid_utf8(topic);
    encode_utf8_decode_utf8(topic);
}

/// Decoding is a pure function of the buffer's bytes: two decodes of the
/// same bytes give equal results.
pub proof fn lemma_publish_decode_deterministic(b1: Seq<u8>, b2: Seq<u8>)
    requires
        b1 == b2,
    ensures
        spec_publish_ok(b1) == spec_publish_ok(b2),
        spec_publish_ok(b1) ==> {
            &&& spec_dup_of(b1[0]) == spec_dup_of(b2[0])
            &&& spec_qos_of(b1[0]) == spec_qos_of(b2[0])
            &&& spec_retain_of(b1[0]) == spec_retain_of(b2[0])
            &&& spec_publish_topic(b1) == spec_publish_topic(b2)
            &&& spec_publish_payload(b1) == spec_publish_payload(b2)
        },
{
}

} // verus!
