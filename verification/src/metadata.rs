//! Best-effort MIME detection from the first bytes of a file's content.
//! Reading the file is the caller's part; the classification of the bytes
//! and the fallback live here.

use vstd::prelude::*;

verus! {

/// What content sniffing yields for a byte prefix: a MIME type, or `None`
/// when the bytes match no known signature.  A function of the bytes alone.
pub uninterp spec fn mime_sniff(bytes: Seq<u8>) -> Option<Seq<char>>;

/// Relies on `infer::get` and `infer::Type::mime_type`: the MIME type
/// matching the magic bytes at the start of the buffer, if any.
#[verifier::external_body]
fn sniff_mime(data: &Vec<u8>) -> (r: Option<String>)
    ensures
        r matches Some(s) ==> mime_sniff(data@) == Some(s@),
        r is None ==> mime_sniff(data@) is None,
{
    infer::get(data.as_slice()).map(|k| k.mime_type().to_string())
}

/// The MIME type reported for a byte prefix: the sniffed type, or the
/// generic byte-stream type when nothing matches.
pub open spec fn spec_mime_type(bytes: Seq<u8>) -> Seq<char> {
    match mime_sniff(bytes) {
        Some(s) => s,
        None => "application/octet-stream"@,
    }
}

/// Classifies the first bytes of a file's content.
pub fn mime_type_for(data: &Vec<u8>) -> (r: String)
    ensures
        r@ == spec_mime_type(data@),
{
    match sniff_mime(data) {
        Some(s) => s,
        None => String::from_str("application/octet-stream"),
    }
}

} // verus!
