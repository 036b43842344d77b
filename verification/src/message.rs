//! Length-prefixed compressed message framing.
//!
//! A message on the wire is a four-byte big-endian length followed by that
//! many bytes of zstd-compressed payload. This module owns the verified
//! part of the protocol: the frame invariant (the declared length always
//! equals the carried data), the big-endian length prefix, and the
//! compression step behind trusted wrappers. Reading and writing sockets,
//! and serializing values to payload bytes, are the caller's concern.

use vstd::prelude::*;
use vstd::seq_lib::*;

verus! {

/// Errors raised while framing or unframing a message.
#[derive(Debug, Clone, Copy, PartialEq, Eq, Structural)]
pub enum NetError {
    /// The zstd stream failed to compress or decompress.
    Compression,
    /// The payload does not fit the four-byte length prefix.
    Oversized,
}

/// The zstd frame produced for `data` at the default compression level;
/// for a fixed zstd version, a function of the input bytes alone.
pub uninterp spec fn zstd_frame(data: Seq<u8>) -> Seq<u8>;

/// The bytes a complete zstd frame decompresses to; for a fixed zstd
/// version, a function of the input bytes alone.
pub uninterp spec fn zstd_extract(data: Seq<u8>) -> Seq<u8>;

#[verifier::external_type_specification]
#[verifier::external_body]
pub struct ExIoError(std::io::Error);

/// Relies on zstd::encode_all at the default compression level: the frame
/// it produces depends on the input bytes alone.
#[verifier::external_body]
fn zstd_compress(data: &Vec<u8>) -> (r: Result<Vec<u8>, std::io::Error>)
    ensures
        r matches Ok(v) ==> v@ == zstd_frame(data@),
{
    zstd::encode_all(data.as_slice(), 0)
}

/// Relies on zstd::decode_all: the bytes a complete frame decompresses to
/// depend on the input bytes alone; malformed input fails.
#[verifier::external_body]
fn zstd_decompress(data: &Vec<u8>) -> (r: Result<Vec<u8>, std::io::Error>)
    ensures
        r matches Ok(v) ==> v@ == zstd_extract(data@),
{
    zstd::decode_all(data.as_slice())
}

/// The big-endian bytes of a 32-bit length.
pub open spec fn spec_u32_be_bytes(x: u32) -> Seq<u8> {
    seq![
        ((x >> 24) & 0xff) as u8,
        ((x >> 16) & 0xff) as u8,
        ((x >> 8) & 0xff) as u8,
        (x & 0xff) as u8,
    ]
}

/// The 32-bit length four big-endian bytes spell.
pub open spec fn spec_u32_from_be_bytes(s: Seq<u8>) -> u32
    recommends
        s.len() == 4,
{
    (s[0] as u32) << 24 | (s[1] as u32) << 16 | (s[2] as u32) << 8 | (s[3] as u32)
}

/// The big-endian length prefix round-trips: every length is recovered
/// from its four bytes, and every four bytes are recovered from their
/// length.
pub proof fn lemma_u32_be_round_trip()
    ensures
        forall|x: u32| #[trigger] spec_u32_from_be_bytes(spec_u32_be_bytes(x)) == x,
        forall|s: Seq<u8>|
            s.len() == 4 ==> #[trigger] spec_u32_be_bytes(spec_u32_from_be_bytes(s)) == s,
{
    assert forall|x: u32| #[trigger] spec_u32_from_be_bytes(spec_u32_be_bytes(x)) == x by {
        let b0 = ((x >> 24) & 0xff) as u32;
        let b1 = ((x >> 16) & 0xff) as u32;
        let b2 = ((x >> 8) & 0xff) as u32;
        let b3 = (x & 0xff) as u32;
        assert(b0 << 24 | b1 << 16 | b2 << 8 | b3 == x) by (bit_vector)
            requires
                b0 == ((x >> 24) & 0xff) as u32 && b1 == ((x >> 16) & 0xff) as u32 && b2 == ((
                x >> 8) & 0xff) as u32 && b3 == (x & 0xff) as u32,
        ;
        assert(((((x >> 24) & 0xff) as u8) as u32) == (x >> 24) & 0xff) by (bit_vector);
        assert(((((x >> 16) & 0xff) as u8) as u32) == (x >> 16) & 0xff) by (bit_vector);
        assert(((((x >> 8) & 0xff) as u8) as u32) == (x >> 8) & 0xff) by (bit_vector);
        assert((((x & 0xff) as u8) as u32) == x & 0xff) by (bit_vector);
    }
    assert forall|s: Seq<u8>|
        s.len() == 4 implies #[trigger] spec_u32_be_bytes(spec_u32_from_be_bytes(s)) == s by {
        let x = spec_u32_from_be_bytes(s);
        let s0 = s[0] as u32;
        let s1 = s[1] as u32;
        let s2 = s[2] as u32;
        let s3 = s[3] as u32;
        assert((x == s0 << 24 | s1 << 16 | s2 << 8 | s3 && s0 < 256 && s1 < 256 && s2 < 256
            && s3 < 256) ==> s0 == (x >> 24) & 0xff && s1 == (x >> 16) & 0xff && s2 == (x
            >> 8) & 0xff && s3 == x & 0xff) by (bit_vector);
        assert_seqs_equal!(spec_u32_be_bytes(spec_u32_from_be_bytes(s)) == s);
    }
}

/// The big-endian bytes of a 32-bit length.
pub fn u32_to_be_bytes(x: u32) -> (r: Vec<u8>)
    ensures
        r@ == spec_u32_be_bytes(x),
{
    let mut r: Vec<u8> = Vec::new();
    r.push((x >> 24) as u8);
    r.push((x >> 16) as u8);
    r.push((x >> 8) as u8);
    r.push(x as u8);
    proof {
        assert(((x >> 24) as u8) == ((x >> 24) & 0xff) as u8) by (bit_vector);
        assert(((x >> 16) as u8) == ((x >> 16) & 0xff) as u8) by (bit_vector);
        assert(((x >> 8) as u8) == ((x >> 8) & 0xff) as u8) by (bit_vector);
        assert((x as u8) == (x & 0xff) as u8) by (bit_vector);
        assert(r@ =~= spec_u32_be_bytes(x));
    }
    r
}

/// The 32-bit length four big-endian bytes spell.
pub fn u32_from_be_bytes(s: &Vec<u8>) -> (r: u32)
    requires
        s@.len() == 4,
    ensures
        r == spec_u32_from_be_bytes(s@),
{
    (s[0] as u32) << 24 | (s[1] as u32) << 16 | (s[2] as u32) << 8 | (s[3] as u32)
}

/// A framed message: a 32-bit length and exactly that many bytes of
/// compressed data.
#[derive(Debug)]
pub struct Message {
    length: u32,
    data: Vec<u8>,
}

impl View for Message {
    type V = Seq<u8>;

    closed spec fn view(&self) -> Seq<u8> {
        self.data@
    }
}

impl Message {
    /// The declared length.
    pub closed spec fn spec_length(&self) -> int {
        self.length as int
    }

    /// The frame invariant: the declared length equals the carried data.
    pub open spec fn wf(&self) -> bool {
        self.spec_length() == self@.len()
    }

    /// Frames a payload: compresses it and records the compressed length.
    /// Fails if compression fails or the compressed payload exceeds the
    /// 32-bit length prefix.
    pub fn encode(payload: &Vec<u8>) -> (r: Result<Message, NetError>)
        ensures
            match r {
                Ok(m) => m.wf() && m@ == zstd_frame(payload@),
                Err(e) => e == NetError::Compression || (e == NetError::Oversized
                    && zstd_frame(payload@).len() > u32::MAX),
            },
    {
        match zstd_compress(payload) {
            Ok(compressed) => {
                if compressed.len() <= u32::MAX as usize {
                    Ok(Message { length: compressed.len() as u32, data: compressed })
                } else {
                    Err(NetError::Oversized)
                }
            },
            Err(_) => Err(NetError::Compression),
        }
    }

    /// Unframes a message: decompresses the carried data.
    pub fn decode(self) -> (r: Result<Vec<u8>, NetError>)
        ensures
            match r {
                Ok(v) => v@ == zstd_extract(self@),
                Err(e) => e == NetError::Compression,
            },
    {
        match zstd_decompress(&self.data) {
            Ok(v) => Ok(v),
            Err(_) => Err(NetError::Compression),
        }
    }

    /// Adopts bytes read off the wire as a message; fails if they exceed
    /// the 32-bit length prefix.
    pub fn from_data(data: Vec<u8>) -> (r: Result<Message, NetError>)
        ensures
            match r {
                Ok(m) => m.wf() && m@ == data@,
                Err(e) => e == NetError::Oversized && data@.len() > u32::MAX,
            },
    {
        if data.len() <= u32::MAX as usize {
            Ok(Message { length: data.len() as u32, data })
        } else {
            Err(NetError::Oversized)
        }
    }

    /// The four-byte big-endian length prefix of this frame.
    pub fn length_prefix(&self) -> (r: Vec<u8>)
        ensures
            r@ == spec_u32_be_bytes(self.spec_length() as u32),
            r@.len() == 4,
    {
        u32_to_be_bytes(self.length)
    }

    /// The carried compressed bytes.
    pub fn data(&self) -> (r: &Vec<u8>)
        ensures
            r@ == self@,
    {
        &self.data
    }
}

} // verus!
