use vstd::prelude::*;

use crate::error::DecodeError;
use crate::varint::rest_of;
use crate::wire::{read_signed, read_varstring, signed_read, varstring_read};

verus! {

/// Decodes the payload of a 1.7 clientbound chat packet (id 0x02): one
/// varint-prefixed string.
pub fn decode_0x2(data: &[u8]) -> (r: Result<String, DecodeError>)
    ensures
        match varstring_read(data@) {
            Ok((text, _)) => r matches Ok(s) && s@ == text,
            Err(e) => r == Err::<String, DecodeError>(e),
        },
{
    assert(rest_of(data@, 0) =~= data@);
    let (text, _) = read_varstring(data, 0)?;
    Ok(text)
}

/// Decodes the payload of a 1.7 clientbound held-item change (id 0x09): the
/// selected hotbar slot as a signed byte.
pub fn decode_0x9(data: &[u8]) -> (r: Result<i8, DecodeError>)
    ensures
        match signed_read(data@, 1) {
            Ok(v) => r == Ok::<i8, DecodeError>(v as i8),
            Err(e) => r == Err::<i8, DecodeError>(e),
        },
{
    assert(rest_of(data@, 0) =~= data@);
    let (v, _) = read_signed(data, 0, 1)?;
    Ok(#[verifier::truncate] (v as i8))
}

} // verus!
