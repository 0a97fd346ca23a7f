//! Decoder for the 5-byte SUBACK reply.
//!
//! Validation is short-circuiting: presence of the header byte, its control
//! packet type, presence and value of the remaining-length byte, the two
//! big-endian packet-identifier bytes, and the return-code byte.
//!
//! The remaining length must be exactly 3 (packet identifier plus return
//! code). Checking it is a deliberate design choice: a truncated but
//! structurally plausible buffer should not be accepted, and CONNACK decoding
//! already validates its remaining length the same way.

use vstd::prelude::*;

use crate::codes::spec_ctrl_pkt_byte;
use crate::codes::CtrlPkt;

verus! {

/// Subscribe return codes carried in the last byte of a SUBACK.
///
/// Not a dense range: any byte outside this set is invalid.
#[derive(Debug, PartialEq, Eq, Structural, Clone, Copy)]
pub enum SubCode {
    /// Success: maximum QoS 0.
    MaxQoS0,
    /// Success: maximum QoS 1.
    MaxQoS1,
    /// Success: maximum QoS 2.
    MaxQoS2,
    /// Failure.
    Failure,
}

/// The wire value of a subscribe return code.
pub open spec fn spec_sub_code_byte(c: SubCode) -> u8 {
    match c {
        SubCode::MaxQoS0 => 0x00,
        SubCode::MaxQoS1 => 0x01,
        SubCode::MaxQoS2 => 0x02,
        SubCode::Failure => 0x80,
    }
}

/// The subscribe return code encoded by a byte, or the byte itself when it
/// matches none.
pub open spec fn spec_sub_code_from_byte(b: u8) -> Result<SubCode, u8> {
    if b == 0x00 {
        Ok(SubCode::MaxQoS0)
    } else if b == 0x01 {
        Ok(SubCode::MaxQoS1)
    } else if b == 0x02 {
        Ok(SubCode::MaxQoS2)
    } else if b == 0x80 {
        Ok(SubCode::Failure)
    } else {
        Err(b)
    }
}

impl SubCode {
    /// Total mapping of a subscribe return code to its wire byte.
    pub fn to_byte(self) -> (r: u8)
        ensures
            r == spec_sub_code_byte(self),
    {
        match self {
            SubCode::MaxQoS0 => 0x00,
            SubCode::MaxQoS1 => 0x01,
            SubCode::MaxQoS2 => 0x02,
            SubCode::Failure => 0x80,
        }
    }

    /// Partial mapping from a wire byte, failing with the offending byte when
    /// it encodes no subscribe return code.
    pub fn from_byte(b: u8) -> (r: Result<SubCode, u8>)
        ensures
            r == spec_sub_code_from_byte(b),
    {
        if b == 0x00 {
            Ok(SubCode::MaxQoS0)
        } else if b == 0x01 {
            Ok(SubCode::MaxQoS1)
        } else if b == 0x02 {
            Ok(SubCode::MaxQoS2)
        } else if b == 0x80 {
            Ok(SubCode::Failure)
        } else {
            Err(b)
        }
    }
}

/// `to_byte` is injective on subscribe return codes.
pub proof fn lemma_sub_code_byte_injective(a: SubCode, b: SubCode)
    requires
        spec_sub_code_byte(a) == spec_sub_code_byte(b),
    ensures
        a == b,
{
}

/// Decoding the wire byte of a subscribe return code gives it back.
pub proof fn lemma_sub_code_byte_round_trip(c: SubCode)
    ensures
        spec_sub_code_from_byte(spec_sub_code_byte(c)) == Ok::<SubCode, u8>(c),
{
}

/// Reasons a SUBACK buffer is rejected.
#[derive(Debug, PartialEq, Eq, Structural, Clone, Copy)]
pub enum SubError {
    /// Packet length is too short.
    Underflow,
    /// Control packet type in the header is not a SUBACK.
    InvalidCtrlPkt(u8),
    /// Remaining length in the packet is invalid.
    InvalidLen(u8),
    /// SUBACK code is invalid.
    InvalidCode(u8),
}

/// The result of decoding a SUBACK buffer: the packet identifier and the
/// subscribe return code on success, the first failing check's error
/// otherwise.
pub open spec fn spec_suback_decode(s: Seq<u8>) -> Result<(u16, SubCode), SubError> {
    if s.len() < 1 {
        Err(SubError::Underflow)
    } else if s[0] != spec_ctrl_pkt_byte(CtrlPkt::SUBACK) * 16 {
        Err(SubError::InvalidCtrlPkt(s[0]))
    } else if s.len() < 2 {
        Err(SubError::Underflow)
    } else if s[1] != 3 {
        Err(SubError::InvalidLen(s[1]))
    } else if s.len() < 5 {
        Err(SubError::Underflow)
    } else {
        match spec_sub_code_from_byte(s[4]) {
            Ok(c) => Ok((((s[2] as u16) * 256 + (s[3] as u16)) as u16, c)),
            Err(b) => Err(SubError::InvalidCode(b)),
        }
    }
}

/// A successfully decoded SUBACK reply.
#[derive(Debug, PartialEq, Eq, Structural, Clone, Copy)]
pub struct SubackResult {
    pkt_id: u16,
    code: SubCode,
}

impl SubackResult {
    /// The packet identifier of the decoded reply.
    pub closed spec fn spec_pkt_id(self) -> u16 {
        self.pkt_id
    }

    /// The subscribe return code of the decoded reply.
    pub closed spec fn spec_code(self) -> SubCode {
        self.code
    }

    /// Validates and parses a SUBACK buffer, exactly as
    /// [`spec_suback_decode`] describes.
    pub fn from_buf(buf: &[u8]) -> (r: Result<SubackResult, SubError>)
        ensures
            r matches Ok(a) ==> spec_suback_decode(buf@) == Ok::<(u16, SubCode), SubError>(
                (a.spec_pkt_id(), a.spec_code()),
            ),
            r matches Err(e) ==> spec_suback_decode(buf@) == Err::<(u16, SubCode), SubError>(e),
    {
        let n = buf.len();
        if n < 1 {
            return Err(SubError::Underflow);
        }
        let byte1 = buf[0];
        if byte1 != CtrlPkt::SUBACK.to_byte() * 16 {
            return Err(SubError::InvalidCtrlPkt(byte1));
        }
        if n < 2 {
            return Err(SubError::Underflow);
        }
        let byte2 = buf[1];
        if byte2 != 3 {
            return Err(SubError::InvalidLen(byte2));
        }
        if n < 5 {
            return Err(SubError::Underflow);
        }
        let pkt_id = (buf[2] as u16) * 256 + (buf[3] as u16);
        match SubCode::from_byte(buf[4]) {
            Ok(code) => Ok(SubackResult { pkt_id, code }),
            Err(b) => Err(SubError::InvalidCode(b)),
        }
    }

    /// The packet identifier the server acknowledged.
    pub fn pkt_id(&self) -> (r: u16)
        ensures
            r == self.spec_pkt_id(),
    {
        self.pkt_id
    }

    /// The subscribe return code the server granted.
    pub fn code(&self) -> (r: SubCode)
        ensures
            r == self.spec_code(),
    {
        self.code
    }
}

/// Decoding is a pure function of the buffer's bytes: two decodes of the same
/// bytes give equal results.
pub proof fn lemma_suback_decode_deterministic(b1: Seq<u8>, b2: Seq<u8>)
    requires
        b1 == b2,
    ensures
        spec_suback_decode(b1) == spec_suback_decode(b2),
{
}

} // verus!
