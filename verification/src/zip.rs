//! Gzip helpers for package metadata, backed by flate2.

use vstd::prelude::*;
use vstd::utf8::{decode_utf8, encode_utf8, valid_utf8};
use std::io::{Read, Write};

verus! {

/// What gunzipping a byte sequence yields: the decompressed bytes, or
/// nothing when the input is not a complete gzip stream. Decompression
/// is a pure function of the input bytes.
pub uninterp spec fn gunzip_of(data: Seq<u8>) -> Option<Seq<u8>>;

/// Compresses the data as one gzip stream.
///
/// Relies on `flate2::write::GzEncoder` (best compression into a byte
/// vector, where writing cannot fail): what it produces, the paired
/// `flate2::read::GzDecoder` decompresses back to the input.
#[verifier::external_body]
pub fn zip_metadata(data: &[u8]) -> (r: Result<Vec<u8>, String>)
    ensures
        r is Ok ==> gunzip_of(r->Ok_0@) == Some(data@),
{
    let mut e = flate2::write::GzEncoder::new(Vec::new(), flate2::Compression::best());
    if let Err(err) = e.write_all(data) {
        return Err(format!("{}", err));
    }
    match e.finish() {
        Ok(v) => Ok(v),
        Err(err) => Err(format!("{}", err)),
    }
}

/// Decompresses one gzip stream.
///
/// Relies on `flate2::read::GzDecoder` with `Read::read_to_end`: it
/// yields exactly the decompressed bytes of a complete gzip stream and
/// reports an error on any other input.
#[verifier::external_body]
pub fn unzip_metadata(data: &[u8]) -> (r: Result<Vec<u8>, String>)
    ensures
        r is Ok <==> gunzip_of(data@) is Some,
        r is Ok ==> Some(r->Ok_0@) == gunzip_of(data@),
{
    let mut d = flate2::read::GzDecoder::new(data);
    let mut res = vec![];
    match d.read_to_end(&mut res) {
        Ok(_) => Ok(res),
        Err(err) => Err(format!("{}", err)),
    }
}

/// Relies on `String::from_utf8`: succeeds exactly on valid UTF-8 and
/// decodes it.
#[verifier::external_body]
fn utf8_to_string(bytes: Vec<u8>) -> (r: Option<String>)
    ensures
        r is Some <==> valid_utf8(bytes@),
        r is Some ==> r->0@ == decode_utf8(bytes@),
{
    String::from_utf8(bytes).ok()
}

/// Compresses the UTF-8 bytes of a string as one gzip stream.
pub fn zip_metadata_str(s: &str) -> (r: Result<Vec<u8>, String>)
    ensures
        r is Ok ==> gunzip_of(r->Ok_0@) == Some(encode_utf8(s@)),
{
    zip_metadata(s.as_bytes())
}

/// Decompresses one gzip stream into a string: the stream must hold
/// valid UTF-8.
pub fn unzip_metadata_str(data: &[u8]) -> (r: Result<String, String>)
    ensures
        r is Ok <==> gunzip_of(data@) is Some && valid_utf8(gunzip_of(data@)->0),
        r is Ok ==> r->Ok_0@ == decode_utf8(gunzip_of(data@)->0),
{
    let bytes = match unzip_metadata(data) {
        Ok(b) => b,
        Err(e) => {
            return Err(e);
        },
    };
    match utf8_to_string(bytes) {
        Some(s) => Ok(s),
        None => Err("invalid utf-8 sequence".to_owned()),
    }
}

} // verus!
