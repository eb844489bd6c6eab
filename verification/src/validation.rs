use vstd::prelude::*;

use crate::constants::{MAX_NAME_LEN, MAX_SYMBOL_LEN, MAX_URI_LEN};
use crate::errors::ErrorCode;

verus! {

/// The bytes of `"https://"`.
pub open spec fn https_scheme() -> Seq<u8> {
    seq![104u8, 116u8, 116u8, 112u8, 115u8, 58u8, 47u8, 47u8]
}

/// The bytes of `"ipfs://"`.
pub open spec fn ipfs_scheme() -> Seq<u8> {
    seq![105u8, 112u8, 102u8, 115u8, 58u8, 47u8, 47u8]
}

/// `bytes` begins with `prefix`.
pub open spec fn has_prefix(bytes: Seq<u8>, prefix: Seq<u8>) -> bool {
    prefix.len() <= bytes.len() && bytes.subrange(0, prefix.len() as int) == prefix
}

/// A listing name is 1 to `MAX_NAME_LEN` bytes long.
pub open spec fn name_is_valid(bytes: Seq<u8>) -> bool {
    0 < bytes.len() <= MAX_NAME_LEN
}

/// A listing symbol is 1 to `MAX_SYMBOL_LEN` bytes long.
pub open spec fn symbol_is_valid(bytes: Seq<u8>) -> bool {
    0 < bytes.len() <= MAX_SYMBOL_LEN
}

/// A metadata URI is longer than 10 bytes, at most `MAX_URI_LEN` bytes long,
/// and uses the `https://` or the `ipfs://` scheme.
pub open spec fn uri_is_valid(bytes: Seq<u8>) -> bool {
    &&& 10 < bytes.len() <= MAX_URI_LEN
    &&& (has_prefix(bytes, https_scheme()) || has_prefix(bytes, ipfs_scheme()))
}

/// Whether `bytes` begins with `prefix`.
pub fn starts_with_bytes(bytes: &[u8], prefix: &[u8]) -> (r: bool)
    ensures
        r == has_prefix(bytes@, prefix@),
{
    if prefix.len() > bytes.len() {
        return false;
    }
    let mut i: usize = 0;
    while i < prefix.len()
        invariant
            prefix@.len() <= bytes@.len(),
            i <= prefix@.len(),
            forall|j: int| 0 <= j < i ==> bytes@[j] == prefix@[j],
        decreases prefix@.len() - i,
    {
        if bytes[i] != prefix[i] {
            assert(bytes@.subrange(0, prefix@.len() as int)[i as int] != prefix@[i as int]);
            return false;
        }
        i = i + 1;
    }
    assert(bytes@.subrange(0, prefix@.len() as int) =~= prefix@);
    true
}

/// Checks a metadata URI; `InvalidUri` unless it is valid.
pub fn validate_uri(uri: &str) -> (r: Result<(), ErrorCode>)
    ensures
        r is Ok <==> uri_is_valid(vstd::utf8::encode_utf8(uri@)),
        r is Err ==> r == Err::<(), ErrorCode>(ErrorCode::InvalidUri),
{
    let bytes = uri.as_bytes();
    let len = bytes.len();
    if !(len > 10 && len <= MAX_URI_LEN) {
        return Err(ErrorCode::InvalidUri);
    }
    let https: [u8; 8] = [104, 116, 116, 112, 115, 58, 47, 47];
    let ipfs: [u8; 7] = [105, 112, 102, 115, 58, 47, 47];
    assert(https@ =~= https_scheme());
    assert(ipfs@ =~= ipfs_scheme());
    if starts_with_bytes(bytes, https.as_slice()) || starts_with_bytes(bytes, ipfs.as_slice()) {
        Ok(())
    } else {
        Err(ErrorCode::InvalidUri)
    }
}

/// Checks a listing name; `NameTooLong` unless it is valid.
pub fn validate_name(name: &str) -> (r: Result<(), ErrorCode>)
    ensures
        r is Ok <==> name_is_valid(vstd::utf8::encode_utf8(name@)),
        r is Err ==> r == Err::<(), ErrorCode>(ErrorCode::NameTooLong),
{
    let len = name.as_bytes().len();
    if len > 0 && len <= MAX_NAME_LEN {
        Ok(())
    } else {
        Err(ErrorCode::NameTooLong)
    }
}

/// Checks a listing symbol; `SymbolTooLong` unless it is valid.
pub fn validate_symbol(symbol: &str) -> (r: Result<(), ErrorCode>)
    ensures
        r is Ok <==> symbol_is_valid(vstd::utf8::encode_utf8(symbol@)),
        r is Err ==> r == Err::<(), ErrorCode>(ErrorCode::SymbolTooLong),
{
    let len = symbol.as_bytes().len();
    if len > 0 && len <= MAX_SYMBOL_LEN {
        Ok(())
    } else {
        Err(ErrorCode::SymbolTooLong)
    }
}

} // verus!
