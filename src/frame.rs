//! The wire format: an eight-byte header whose upper four bytes give, little
//! endian, the number of payload bytes that follow it.

use vstd::prelude::*;

verus! {

/// Number of bytes in a frame header.
pub const HEADER_LEN: usize = 8;

/// The value of four bytes read as a little-endian unsigned integer.
pub open spec fn le_u32(b0: u8, b1: u8, b2: u8, b3: u8) -> nat {
    b0 as nat + 256 * (b1 as nat) + 65536 * (b2 as nat) + 16777216 * (b3 as nat)
}

/// The payload length that a header announces (bytes 4 to 7).
pub open spec fn declared_len(header: Seq<u8>) -> nat
    recommends
        header.len() >= 8,
{
    le_u32(header[4], header[5], header[6], header[7])
}

/// Total size on the wire of the frame that starts with `header`.
pub open spec fn frame_len(header: Seq<u8>) -> nat
    recommends
        header.len() >= 8,
{
    8 + declared_len(header)
}

/// `f` is one complete frame: a header and exactly the payload it announces.
pub open spec fn is_frame(f: Seq<u8>) -> bool {
    f.len() >= 8 && f.len() == frame_len(f)
}

/// Reads the payload length out of the first eight bytes of `header`.
pub fn payload_length(header: &[u8]) -> (r: u32)
    requires
        header@.len() >= 8,
    ensures
        r as nat == declared_len(header@),
{
    let b4 = header[4] as u32;
    let b5 = header[5] as u32;
    let b6 = header[6] as u32;
    let b7 = header[7] as u32;
    b4 + 256 * b5 + 65536 * b6 + 16777216 * b7
}

} // verus!
