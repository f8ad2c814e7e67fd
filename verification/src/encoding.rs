//! Text encoding of opaque bytes.

use base64::engine::general_purpose;
use base64::Engine;
use vstd::prelude::*;

verus! {

/// The standard base64 text of a byte string: the alphabet `A-Z a-z 0-9 + /`,
/// padded with `=` to a multiple of four characters.
pub uninterp spec fn base64_standard(data: Seq<u8>) -> Seq<char>;

/// How many characters the base64 text of `len` bytes has.
pub open spec fn base64_len(len: nat) -> nat {
    (len / 3) * 4 + if len % 3 > 0 {
        4nat
    } else {
        0nat
    }
}

/// Whether the base64 text of `len` bytes has a length that `usize` can hold.
pub fn base64_len_fits(len: usize) -> (fits: bool)
    ensures
        fits == (base64_len(len as nat) <= usize::MAX),
{
    let groups: usize = len / 3;
    let rest: usize = if len % 3 > 0 {
        4
    } else {
        0
    };
    groups <= (usize::MAX - rest) / 4
}

/// Encodes bytes with `base64`'s `STANDARD` engine (`Engine::encode`).
///
/// Trusted: the text is a function of the bytes alone. The engine refuses an
/// input whose text would be longer than `usize` can count; no slice in
/// memory is that long.
#[verifier::external_body]
pub fn base64_encode(data: &[u8]) -> (text: String)
    requires
        base64_len(data@.len()) <= usize::MAX,
    ensures
        text@ == base64_standard(data@),
{
    general_purpose::STANDARD.encode(data)
}

} // verus!
