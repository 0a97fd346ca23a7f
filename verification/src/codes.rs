//! Shared enumerations: control packet types and quality-of-service levels.
//!
//! Each enumeration offers a total, injective mapping to a single wire byte
//! (`to_byte`) and a partial mapping back (`from_byte`) that fails with the
//! offending byte. These conversions are the sole source of truth for valid
//! wire values; the decoders go through them rather than re-checking bytes.

use vstd::prelude::*;

verus! {

/// Control packet types, carried in the high nibble of a packet's first byte.
#[derive(Debug, PartialEq, Eq, Structural, Clone, Copy)]
#[allow(clippy::upper_case_acronyms)]
pub enum CtrlPkt {
    CONNECT,
    CONNACK,
    PUBLISH,
    PUBACK,
    PUBREC,
    PUBREL,
    PUBCOMP,
    SUBSCRIBE,
    SUBACK,
    UNSUBSCRIBE,
    UNSUBACK,
    PINGREQ,
    PINGRESP,
    DISCONNECT,
}

/// The wire value of a control packet type.
pub open spec fn spec_ctrl_pkt_byte(p: CtrlPkt) -> u8 {
    match p {
        CtrlPkt::CONNECT => 0x1,
        CtrlPkt::CONNACK => 0x2,
        CtrlPkt::PUBLISH => 0x3,
        CtrlPkt::PUBACK => 0x4,
        CtrlPkt::PUBREC => 0x5,
        CtrlPkt::PUBREL => 0x6,
        CtrlPkt::PUBCOMP => 0x7,
        CtrlPkt::SUBSCRIBE => 0x8,
        CtrlPkt::SUBACK => 0x9,
        CtrlPkt::UNSUBACK => 0xB,
        CtrlPkt::UNSUBSCRIBE => 0xA,
        CtrlPkt::PINGREQ => 0xC,
        CtrlPkt::PINGRESP => 0xD,
        CtrlPkt::DISCONNECT => 0xE,
    }
}

/// The control packet type encoded by a byte, or the byte itself when it
/// matches none.
pub open spec fn spec_ctrl_pkt_from_byte(b: u8) -> Result<CtrlPkt, u8> {
    if b == 0x1 {
        Ok(CtrlPkt::CONNECT)
    } else if b == 0x2 {
        Ok(CtrlPkt::CONNACK)
    } else if b == 0x3 {
        Ok(CtrlPkt::PUBLISH)
    } else if b == 0x4 {
        Ok(CtrlPkt::PUBACK)
    } else if b == 0x5 {
        Ok(CtrlPkt::PUBREC)
    } else if b == 0x6 {
        Ok(CtrlPkt::PUBREL)
    } else if b == 0x7 {
        Ok(CtrlPkt::PUBCOMP)
    } else if b == 0x8 {
        Ok(CtrlPkt::SUBSCRIBE)
    } else if b == 0x9 {
        Ok(CtrlPkt::SUBACK)
    } else if b == 0xA {
        Ok(CtrlPkt::UNSUBSCRIBE)
    } else if b == 0xB {
        Ok(CtrlPkt::UNSUBACK)
    } else if b == 0xC {
        Ok(CtrlPkt::PINGREQ)
    } else if b == 0xD {
        Ok(CtrlPkt::PINGRESP)
    } else if b == 0xE {
        Ok(CtrlPkt::DISCONNECT)
    } else {
        Err(b)
    }
}

impl CtrlPkt {
    /// Total mapping of a control packet type to its wire byte.
    pub fn to_byte(self) -> (r: u8)
        ensures
            r == spec_ctrl_pkt_byte(self),
    {
        match self {
            CtrlPkt::CONNECT => 0x1,
            CtrlPkt::CONNACK => 0x2,
            CtrlPkt::PUBLISH => 0x3,
            CtrlPkt::PUBACK => 0x4,
            CtrlPkt::PUBREC => 0x5,
            CtrlPkt::PUBREL => 0x6,
            CtrlPkt::PUBCOMP => 0x7,
            CtrlPkt::SUBSCRIBE => 0x8,
            CtrlPkt::SUBACK => 0x9,
            CtrlPkt::UNSUBSCRIBE => 0xA,
            CtrlPkt::UNSUBACK => 0xB,
            CtrlPkt::PINGREQ => 0xC,
            CtrlPkt::PINGRESP => 0xD,
            CtrlPkt::DISCONNECT => 0xE,
        }
    }

    /// Partial mapping from a wire byte, failing with the offending byte when
    /// it encodes no control packet type.
    pub fn from_byte(b: u8) -> (r: Result<CtrlPkt, u8>)
        ensures
            r == spec_ctrl_pkt_from_byte(b),
    {
        if b == 0x1 {
            Ok(CtrlPkt::CONNECT)
        } else if b == 0x2 {
            Ok(CtrlPkt::CONNACK)
        } else if b == 0x3 {
            Ok(CtrlPkt::PUBLISH)
        } else if b == 0x4 {
            Ok(CtrlPkt::PUBACK)
        } else if b == 0x5 {
            Ok(CtrlPkt::PUBREC)
        } else if b == 0x6 {
            Ok(CtrlPkt::PUBREL)
        } else if b == 0x7 {
            Ok(CtrlPkt::PUBCOMP)
        } else if b == 0x8 {
            Ok(CtrlPkt::SUBSCRIBE)
        } else if b == 0x9 {
            Ok(CtrlPkt::SUBACK)
        } else if b == 0xA {
            Ok(CtrlPkt::UNSUBSCRIBE)
        } else if b == 0xB {
            Ok(CtrlPkt::UNSUBACK)
        } else if b == 0xC {
            Ok(CtrlPkt::PINGREQ)
        } else if b == 0xD {
            Ok(CtrlPkt::PINGRESP)
        } else if b == 0xE {
            Ok(CtrlPkt::DISCONNECT)
        } else {
            Err(b)
        }
    }
}

/// `to_byte` is injective: two control packet types with the same wire byte
/// are the same type.
pub proof fn lemma_ctrl_pkt_byte_injective(a: CtrlPkt, b: CtrlPkt)
    requires
        spec_ctrl_pkt_byte(a) == spec_ctrl_pkt_byte(b),
    ensures
        a == b,
{
}

/// Decoding the wire byte of a control packet type gives that type back.
pub proof fn lemma_ctrl_pkt_byte_round_trip(p: CtrlPkt)
    ensures
        spec_ctrl_pkt_from_byte(spec_ctrl_pkt_byte(p)) == Ok::<CtrlPkt, u8>(p),
{
}

/// Quality of service levels for PUBLISH, packed into bits 2-1 of the flags.
#[derive(Debug, PartialEq, Eq, Structural, Clone, Copy)]
pub enum QoS {
    /// QoS 0
    AtMostOnce,
    /// QoS 1
    AtLeastOnce,
    /// QoS 2
    ExactlyOnce,
}

/// The wire value of a quality-of-service level.
pub open spec fn spec_qos_byte(q: QoS) -> u8 {
    match q {
        QoS::AtMostOnce => 0,
        QoS::AtLeastOnce => 1,
        QoS::ExactlyOnce => 2,
    }
}

/// The quality-of-service level encoded by a byte, or the byte itself when it
/// matches none.
pub open spec fn spec_qos_from_byte(b: u8) -> Result<QoS, u8> {
    if b == 0 {
        Ok(QoS::AtMostOnce)
    } else if b == 1 {
        Ok(QoS::AtLeastOnce)
    } else if b == 2 {
        Ok(QoS::ExactlyOnce)
    } else {
        Err(b)
    }
}

impl QoS {
    /// Total mapping of a quality-of-service level to its wire value.
    pub fn to_byte(self) -> (r: u8)
        ensures
            r == spec_qos_byte(self),
    {
        match self {
            QoS::AtMostOnce => 0,
            QoS::AtLeastOnce => 1,
            QoS::ExactlyOnce => 2,
        }
    }

    /// Partial mapping from a wire value, failing with the offending byte when
    /// it encodes no quality-of-service level.
    pub fn from_byte(b: u8) -> (r: Result<QoS, u8>)
        ensures
            r == spec_qos_from_byte(b),
    {
        if b == 0 {
            Ok(QoS::AtMostOnce)
        } else if b == 1 {
            Ok(QoS::AtLeastOnce)
        } else if b == 2 {
            Ok(QoS::ExactlyOnce)
        } else {
            Err(b)
        }
    }
}

/// `to_byte` is injective on quality-of-service levels.
pub proof fn lemma_qos_byte_injective(a: QoS, b: QoS)
    requires
        spec_qos_byte(a) == spec_qos_byte(b),
    ensures
        a == b,
{
}

/// Decoding the wire value of a quality-of-service level gives it back.
pub proof fn lemma_qos_byte_round_trip(q: QoS)
    ensures
        spec_qos_from_byte(spec_qos_byte(q)) == Ok::<QoS, u8>(q),
{
}

} // verus!
