//! The replay container: the framed byte envelope around raw replay
//! data, and its gzip compression for upload.
//!
//! The frame is fixed: an eleven-byte preamble whose tail names the
//! raw payload, the payload length as a four-byte big-endian integer,
//! the payload itself, and a thirteen-byte metadata trailer. The frame
//! must come out byte for byte as the remote decoder expects it.

use vstd::prelude::*;

use std::io::Write;

verus! {

/// The four bytes of a 32-bit value, most significant first.
pub open spec fn be32_bytes(n: u32) -> Seq<u8> {
    seq![(n >> 24) as u8, (n >> 16) as u8, (n >> 8) as u8, n as u8]
}

/// The 32-bit value read from four bytes, most significant first.
pub open spec fn be32_val(s: Seq<u8>) -> u32
    recommends
        s.len() == 4,
{
    ((s[0] as u32) << 24 | (s[1] as u32) << 16 | (s[2] as u32) << 8 | (s[3] as u32)) as u32
}

/// Writing a 32-bit value big-endian and reading it back is the
/// identity.
pub proof fn lemma_be32_roundtrip(n: u32)
    ensures
        be32_val(be32_bytes(n)) == n,
{
    assert((((n >> 24) as u8) as u32) << 24 | (((n >> 16) as u8) as u32) << 16 | (((n >> 8) as u8)
        as u32) << 8 | ((n as u8) as u32) == n) by (bit_vector);
}

/// The eleven preamble bytes that precede the length field.
pub open spec fn container_preamble() -> Seq<u8> {
    seq![0x7bu8, 0x55u8, 0x03u8, 0x72u8, 0x61u8, 0x77u8, 0x5bu8, 0x24u8, 0x55u8, 0x23u8, 0x6cu8]
}

/// The thirteen trailer bytes that close the container.
pub open spec fn container_trailer() -> Seq<u8> {
    seq![0x55u8, 0x08u8, 0x6du8, 0x65u8, 0x74u8, 0x61u8, 0x64u8, 0x61u8, 0x74u8, 0x61u8, 0x7bu8, 0x7du8, 0x7du8]
}

/// The framed container around raw replay bytes: preamble, big-endian
/// payload length, payload, trailer.
pub open spec fn container_bytes(data: Seq<u8>) -> Seq<u8>
    recommends
        data.len() <= u32::MAX,
{
    container_preamble() + be32_bytes(data.len() as u32) + data + container_trailer()
}

/// Appends a 32-bit value as four big-endian bytes.
fn push_be32(out: &mut Vec<u8>, n: u32)
    ensures
        final(out)@ == old(out)@ + be32_bytes(n),
{
    out.push(#[verifier::truncate] ((n >> 24) as u8));
    out.push(#[verifier::truncate] ((n >> 16) as u8));
    out.push(#[verifier::truncate] ((n >> 8) as u8));
    out.push(#[verifier::truncate] (n as u8));
    proof {
        assert(out@ =~= old(out)@ + be32_bytes(n));
    }
}

/// Wraps raw replay bytes in the fixed container frame.
pub fn build_replay_container(data: &Vec<u8>) -> (r: Vec<u8>)
    requires
        data@.len() <= u32::MAX,
    ensures
        r@ == container_bytes(data@),
{
    let mut out: Vec<u8> = Vec::new();
    out.push(0x7b);
    out.push(0x55);
    out.push(0x03);
    out.push(0x72);
    out.push(0x61);
    out.push(0x77);
    out.push(0x5b);
    out.push(0x24);
    out.push(0x55);
    out.push(0x23);
    out.push(0x6c);
    proof {
        assert(out@ =~= container_preamble());
    }
    push_be32(&mut out, data.len() as u32);
    out.extend_from_slice(data.as_slice());
    out.push(0x55);
    out.push(0x08);
    out.push(0x6d);
    out.push(0x65);
    out.push(0x74);
    out.push(0x61);
    out.push(0x64);
    out.push(0x61);
    out.push(0x74);
    out.push(0x61);
    out.push(0x7b);
    out.push(0x7d);
    out.push(0x7d);
    proof {
        assert(out@ =~= container_bytes(data@));
    }
    out
}

/// The length field embedded in a framed container names exactly the
/// length of the raw payload that was framed.
pub proof fn lemma_container_length_roundtrip(data: Seq<u8>)
    requires
        data.len() <= u32::MAX,
    ensures
        container_bytes(data).subrange(11, 15) == be32_bytes(data.len() as u32),
        be32_val(container_bytes(data).subrange(11, 15)) == data.len(),
{
    assert(container_bytes(data).subrange(11, 15) =~= be32_bytes(data.len() as u32));
    lemma_be32_roundtrip(data.len() as u32);
}

/// Reads the embedded big-endian length field out of a framed
/// container.
pub fn container_payload_len(framed: &Vec<u8>) -> (r: u32)
    requires
        framed@.len() >= 15,
    ensures
        r == be32_val(framed@.subrange(11, 15)),
{
    let b0 = framed[11];
    let b1 = framed[12];
    let b2 = framed[13];
    let b3 = framed[14];
    proof {
        assert(framed@.subrange(11, 15) =~= seq![framed@[11], framed@[12], framed@[13], framed@[14]]);
        assert((b0 as u32) << 24 <= 0xff000000 && (b1 as u32) << 16 <= 0xff0000 && (b2 as u32) << 8
            <= 0xff00) by (bit_vector);
    }
    (b0 as u32) << 24 | (b1 as u32) << 16 | (b2 as u32) << 8 | (b3 as u32)
}

/// The gzip stream that compressing a byte string yields. The exact
/// bytes depend only on the input, but stating them would mean
/// restating the whole DEFLATE algorithm, so they only get a name.
pub uninterp spec fn gzip_of(s: Seq<u8>) -> Seq<u8>;

/// Relies on flate2's `GzEncoder` over an in-memory buffer:
/// `write_all` then `finish` yield the complete gzip stream of the
/// input, which begins with the fixed ten-byte gzip header and its
/// two magic bytes. The only error source is the sink, and writing
/// into a `Vec` cannot fail, so the stream is always produced.
#[verifier::external_body]
fn gzip_bytes(input: &[u8]) -> (r: Vec<u8>)
    ensures
        r@ == gzip_of(input@),
        r@.len() >= 10,
        r@[0] == 0x1f,
        r@[1] == 0x8b,
{
    let mut encoder = flate2::write::GzEncoder::new(Vec::new(), flate2::Compression::default());
    encoder.write_all(input).expect("writing a gzip stream into a Vec cannot fail");
    encoder.finish().expect("finishing a gzip stream into a Vec cannot fail")
}

/// Compresses a framed container with gzip. Compressing into memory
/// cannot fail: the result is always the complete gzip stream, magic
/// bytes first.
pub fn compress(framed: &Vec<u8>) -> (r: Vec<u8>)
    ensures
        r@ == gzip_of(framed@),
        r@.len() >= 10,
        r@[0] == 0x1f,
        r@[1] == 0x8b,
{
    gzip_bytes(framed.as_slice())
}

} // verus!
