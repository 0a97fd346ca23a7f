//! Encoders for the CONNECT packet.
//!
//! Two concrete encoders share one byte layout: [`Connect`] produces a
//! fixed-size 14-byte packet with an empty client identifier, and
//! [`ConnectAlloc`] produces a dynamically sized packet carrying an arbitrary
//! client identifier.

use vstd::prelude::*;
use vstd::string::StringSliceAdditionalSpecFns;

use crate::codes::spec_ctrl_pkt_byte;
use crate::codes::CtrlPkt;

verus! {

/// The 14 bytes of a CONNECT packet with protocol name "MQTT", protocol
/// level 4, the clean-session flag set, the given keep-alive seconds
/// (big-endian) and a zero-length client identifier.
pub open spec fn spec_connect_bytes(keep_alive: u16) -> Seq<u8> {
    seq![
        (spec_ctrl_pkt_byte(CtrlPkt::CONNECT) * 16) as u8,
        12,
        0,
        4,
        0x4D,
        0x51,
        0x54,
        0x54,
        4,
        2,
        (keep_alive / 256) as u8,
        (keep_alive % 256) as u8,
        0,
        0,
    ]
}

/// A fixed-size CONNECT packet.
#[derive(Debug, Clone, Copy)]
pub struct Connect {
    buf: [u8; 14],
}

impl View for Connect {
    type V = Seq<u8>;

    closed spec fn view(&self) -> Seq<u8> {
        self.buf@
    }
}

impl Default for Connect {
    /// The constant packet: protocol name "MQTT", protocol level 4,
    /// clean-session flag set, keep-alive 3600 seconds, empty client
    /// identifier.
    fn default() -> (r: Connect)
        ensures
            r@ == spec_connect_bytes(3600),
    {
        let r = Connect {
            buf: [0x10, 12, 0, 4, 0x4D, 0x51, 0x54, 0x54, 4, 2, 14, 16, 0, 0],
        };
        proof {
            assert(r.buf@ =~= spec_connect_bytes(3600));
        }
        r
    }
}

impl Connect {
    /// Length in bytes of the fixed CONNECT packet.
    pub const LEN: usize = 14;

    /// Returns the packet with the two keep-alive bytes overwritten
    /// (big-endian); every other byte is unchanged.
    #[must_use]
    pub fn set_keep_alive(self, keep_alive: u16) -> (r: Connect)
        ensures
            r@ == self@.update(10, (keep_alive / 256) as u8).update(11, (keep_alive % 256) as u8),
            forall|k: u16|
                self@ == #[trigger] spec_connect_bytes(k) ==> r@ == spec_connect_bytes(keep_alive),
    {
        let mut buf = self.buf;
        buf[10] = (keep_alive / 256) as u8;
        buf[11] = (keep_alive % 256) as u8;
        let r = Connect { buf };
        proof {
            assert forall|k: u16| self@ == spec_connect_bytes(k) implies r@ == spec_connect_bytes(
                keep_alive,
            ) by {
                assert(r@ =~= spec_connect_bytes(keep_alive));
            }
        }
        r
    }

    /// Consumes the encoder and yields the finished bytes.
    pub fn into_array(self) -> (r: [u8; 14])
        ensures
            r@ == self@,
    {
        self.buf
    }
}

/// The bytes of a CONNECT packet carrying the given client identifier: the
/// first 12 bytes of the fixed packet (keep-alive 3600), then the
/// identifier's length as two big-endian bytes, then the identifier.
///
/// The remaining-length byte stays at 12 whatever the identifier's length.
pub open spec fn spec_connect_alloc_bytes(id: Seq<u8>) -> Seq<u8> {
    spec_connect_bytes(3600).subrange(0, 12) + seq![
        (id.len() / 256) as u8,
        (id.len() % 256) as u8,
    ] + id
}

/// A dynamically sized CONNECT packet with a caller-supplied client
/// identifier.
#[derive(Debug)]
pub struct ConnectAlloc {
    buf: Vec<u8>,
}

impl View for ConnectAlloc {
    type V = Seq<u8>;

    closed spec fn view(&self) -> Seq<u8> {
        self.buf@
    }
}

impl ConnectAlloc {
    /// Builds a CONNECT packet whose client-identifier field holds the given
    /// identifier, preceded by its length as two big-endian bytes.
    ///
    /// The identifier's byte length must fit in 16 bits; callers validate it
    /// before calling.
    pub fn with_client_id(client_id: &str) -> (r: ConnectAlloc)
        requires
            client_id.spec_bytes().len() <= u16::MAX,
        ensures
            r@ == spec_connect_alloc_bytes(client_id.spec_bytes()),
    {
        let id_bytes: &[u8] = client_id.as_bytes();
        let id_len: usize = id_bytes.len();
        let base: [u8; 14] = Connect::default().into_array();
        let mut buf: Vec<u8> = Vec::new();
        let mut i: usize = 0;
        while i < 12
            invariant
                i <= 12,
                base@ == spec_connect_bytes(3600),
                buf@ == base@.subrange(0, i as int),
            decreases 12 - i,
        {
            buf.push(base[i]);
            proof {
                assert(buf@ =~= base@.subrange(0, i + 1));
            }
            i = i + 1;
        }
        buf.push((id_len / 256) as u8);
        buf.push((id_len % 256) as u8);
        let ghost prefix = buf@;
        let mut j: usize = 0;
        while j < id_len
            invariant
                j <= id_len,
                id_len == id_bytes@.len(),
                buf@ == prefix + id_bytes@.subrange(0, j as int),
            decreases id_len - j,
        {
            buf.push(id_bytes[j]);
            proof {
                assert(buf@ =~= prefix + id_bytes@.subrange(0, j + 1));
            }
            j = j + 1;
        }
        let r = ConnectAlloc { buf };
        proof {
            assert(id_bytes@.subrange(0, id_bytes@.len() as int) =~= id_bytes@);
            assert(r@ =~= spec_connect_alloc_bytes(client_id.spec_bytes()));
        }
        r
    }

    /// The finished packet bytes.
    pub fn as_bytes(&self) -> (r: &[u8])
        ensures
            r@ == self@,
    {
        self.buf.as_slice()
    }
}

} // verus!
