//! Decoder for the 4-byte CONNACK reply.
//!
//! Validation is short-circuiting, in this order: presence of the header
//! byte, its control packet type, presence and value of the remaining-length
//! byte (which must be exactly 2), presence of the acknowledge-flags byte
//! (bit 0 of which is the session-present flag), and presence and validity of
//! the return-code byte.

use vstd::prelude::*;

use crate::codes::spec_ctrl_pkt_byte;
use crate::codes::CtrlPkt;

verus! {

/// Connect return codes carried in the last byte of a CONNACK.
#[derive(Debug, PartialEq, Eq, Structural, Clone, Copy)]
pub enum ConnectCode {
    /// Connection accepted.
    Accept,
    /// Connection refused: unacceptable protocol version.
    BadProto,
    /// Connection refused: identifier rejected.
    BadId,
    /// Connection refused: server unavailable.
    Unavailable,
    /// Connection refused: bad user name or password.
    BadCreds,
    /// Connection refused: not authorized.
    NotAuth,
}

/// The wire value of a connect return code.
pub open spec fn spec_connect_code_byte(c: ConnectCode) -> u8 {
    match c {
        ConnectCode::Accept => 0,
        ConnectCode::BadProto => 1,
        ConnectCode::BadId => 2,
        ConnectCode::Unavailable => 3,
        ConnectCode::BadCreds => 4,
        ConnectCode::NotAuth => 5,
    }
}

/// The connect return code encoded by a byte, or the byte itself when it
/// matches none.
pub open spec fn spec_connect_code_from_byte(b: u8) -> Result<ConnectCode, u8> {
    if b == 0 {
        Ok(ConnectCode::Accept)
    } else if b == 1 {
        Ok(ConnectCode::BadProto)
    } else if b == 2 {
        Ok(ConnectCode::BadId)
    } else if b == 3 {
        Ok(ConnectCode::Unavailable)
    } else if b == 4 {
        Ok(ConnectCode::BadCreds)
    } else if b == 5 {
        Ok(ConnectCode::NotAuth)
    } else {
        Err(b)
    }
}

impl ConnectCode {
    /// True exactly when the code is [`ConnectCode::Accept`].
    pub fn is_accept(&self) -> (r: bool)
        ensures
            r == (*self == ConnectCode::Accept),
    {
        match self {
            ConnectCode::Accept => true,
            _ => false,
        }
    }

    /// Total mapping of a connect return code to its wire byte.
    pub fn to_byte(self) -> (r: u8)
        ensures
            r == spec_connect_code_byte(self),
    {
        match self {
            ConnectCode::Accept => 0,
            ConnectCode::BadProto => 1,
            ConnectCode::BadId => 2,
            ConnectCode::Unavailable => 3,
            ConnectCode::BadCreds => 4,
            ConnectCode::NotAuth => 5,
        }
    }

    /// Partial mapping from a wire byte, failing with the offending byte when
    /// it encodes no connect return code.
    pub fn from_byte(b: u8) -> (r: Result<ConnectCode, u8>)
        ensures
            r == spec_connect_code_from_byte(b),
    {
        if b == 0 {
            Ok(ConnectCode::Accept)
        } else if b == 1 {
            Ok(ConnectCode::BadProto)
        } else if b == 2 {
            Ok(ConnectCode::BadId)
        } else if b == 3 {
            Ok(ConnectCode::Unavailable)
        } else if b == 4 {
            Ok(ConnectCode::BadCreds)
        } else if b == 5 {
            Ok(ConnectCode::NotAuth)
        } else {
            Err(b)
        }
    }
}

/// `to_byte` is injective on connect return codes.
pub proof fn lemma_connect_code_byte_injective(a: ConnectCode, b: ConnectCode)
    requires
        spec_connect_code_byte(a) == spec_connect_code_byte(b),
    ensures
        a == b,
{
}

/// Decoding the wire byte of a connect return code gives it back.
pub proof fn lemma_connect_code_byte_round_trip(c: ConnectCode)
    ensures
        spec_connect_code_from_byte(spec_connect_code_byte(c)) == Ok::<ConnectCode, u8>(c),
{
}

/// Length in bytes of a complete CONNACK packet.
pub const CONNACK_LEN: usize = 4;

/// Reasons a CONNACK buffer is rejected.
#[derive(Debug, PartialEq, Eq, Structural, Clone, Copy)]
pub enum ConnectError {
    /// Packet length is too short.
    Underflow,
    /// Control packet type in the header is not a CONNACK.
    InvalidCtrlPkt(u8),
    /// Remaining length in the packet is invalid.
    InvalidLen(u8),
    /// Connect code is invalid.
    InvalidCode(u8),
}

/// The result of decoding a CONNACK buffer: the session-present flag and the
/// connect return code on success, the first failing check's error otherwise.
pub open spec fn spec_connack_decode(s: Seq<u8>) -> Result<(bool, ConnectCode), ConnectError> {
    if s.len() < 1 {
        Err(ConnectError::Underflow)
    } else if s[0] != spec_ctrl_pkt_byte(CtrlPkt::CONNACK) * 16 {
        Err(ConnectError::InvalidCtrlPkt(s[0]))
    } else if s.len() < 2 {
        Err(ConnectError::Underflow)
    } else if s[1] != 2 {
        Err(ConnectError::InvalidLen(s[1]))
    } else if s.len() < 4 {
        Err(ConnectError::Underflow)
    } else {
        match spec_connect_code_from_byte(s[3]) {
            Ok(c) => Ok(((s[2] & 1) == 1, c)),
            Err(b) => Err(ConnectError::InvalidCode(b)),
        }
    }
}

/// A successfully decoded CONNACK reply.
#[derive(Debug, PartialEq, Eq, Structural, Clone, Copy)]
pub struct ConnackResult {
    session_present: bool,
    code: ConnectCode,
}

impl ConnackResult {
    /// The session-present flag of the decoded reply.
    pub closed spec fn spec_session_present(self) -> bool {
        self.session_present
    }

    /// The connect return code of the decoded reply.
    pub closed spec fn spec_code(self) -> ConnectCode {
        self.code
    }

    /// Validates and parses a CONNACK buffer, exactly as
    /// [`spec_connack_decode`] describes.
    pub fn from_buf(buf: &[u8]) -> (r: Result<ConnackResult, ConnectError>)
        ensures
            r matches Ok(c) ==> spec_connack_decode(buf@) == Ok::<(bool, ConnectCode), ConnectError>(
                (c.spec_session_present(), c.spec_code()),
            ),
            r matches Err(e) ==> spec_connack_decode(buf@) == Err::<(bool, ConnectCode), ConnectError>(
                e,
            ),
    {
        let n = buf.len();
        if n < 1 {
            return Err(ConnectError::Underflow);
        }
        let byte1 = buf[0];
        if byte1 != CtrlPkt::CONNACK.to_byte() * 16 {
            return Err(ConnectError::InvalidCtrlPkt(byte1));
        }
        if n < 2 {
            return Err(ConnectError::Underflow);
        }
        let byte2 = buf[1];
        if byte2 != 2 {
            return Err(ConnectError::InvalidLen(byte2));
        }
        if n < 4 {
            return Err(ConnectError::Underflow);
        }
        let session_present = buf[2] & 1 == 1;
        match ConnectCode::from_byte(buf[3]) {
            Ok(code) => Ok(ConnackResult { session_present, code }),
            Err(b) => Err(ConnectError::InvalidCode(b)),
        }
    }

    /// Whether the server found session state for the client.
    pub fn session_present(&self) -> (r: bool)
        ensures
            r == self.spec_session_present(),
    {
        self.session_present
    }

    /// The server's connect return code.
    pub fn code(&self) -> (r: ConnectCode)
        ensures
            r == self.spec_code(),
    {
        self.code
    }
}

/// Decoding is a pure function of the buffer's bytes: two decodes of the same
/// bytes give equal results.
pub proof fn lemma_connack_decode_deterministic(b1: Seq<u8>, b2: Seq<u8>)
    requires
        b1 == b2,
    ensures
        spec_connack_decode(b1) == spec_connack_decode(b2),
{
}

} // verus!
