use vstd::prelude::*;
use vstd::string::StringSliceAdditionalSpecFns;

verus! {

/// The longest seed a program address accepts.
pub const MAX_SEED_BYTES: usize = 32;

/// The bytes of `bytes` cut to at most `MAX_SEED_BYTES`.
pub open spec fn fitted(bytes: Seq<u8>) -> Seq<u8> {
    if bytes.len() > MAX_SEED_BYTES {
        bytes.take(MAX_SEED_BYTES as int)
    } else {
        bytes
    }
}

/// The UTF-8 bytes of `input`, cut to their first 32 so that they can serve
/// as one seed of a program address.
pub fn fit_string(input: &str) -> (out: &[u8])
    ensures
        out@ == fitted(input.spec_bytes()),
        out@.len() <= MAX_SEED_BYTES,
        out@ == input.spec_bytes().take(out@.len() as int),
{
    let bytes = input.as_bytes();
    if bytes.len() > MAX_SEED_BYTES {
        vstd::slice::slice_subrange(bytes, 0, MAX_SEED_BYTES)
    } else {
        bytes
    }
}

} // verus!
