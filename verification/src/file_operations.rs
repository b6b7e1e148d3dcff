//! Work on the contents of files: choosing the codec of an archive,
//! decompressing it, and hashing.

use crate::text::ends_with;
use std::io::Read;
use vstd::prelude::*;
use vstd::slice::slice_to_vec;
use vstd::string::StrSliceExecFns;
use vstd::string::StringExecFns;

verus! {

/// How the stream of an archive is compressed.
#[derive(Debug, Clone, Copy, PartialEq, Eq, Structural)]
pub enum Codec {
    Gzip,
    Bzip2,
    Xz,
    Zstd,
    /// Not compressed at all.
    Plain,
}

/// Why an archive could not be decompressed.
#[derive(Debug, Clone, PartialEq, Eq)]
pub struct DecodeError {
    /// The codec that refused the data.
    pub codec: Codec,
    /// What the codec said.
    pub reason: String,
}

/// Whether `name` ends with `suffix`.
pub open spec fn has_suffix(name: Seq<char>, suffix: Seq<char>) -> bool {
    suffix.is_suffix_of(name)
}

/// The codec that the name of an archive stands for. It is chosen by the
/// suffix of the name alone. A name with none of the known suffixes is
/// taken for an archive that is not compressed.
pub open spec fn codec_for(name: Seq<char>) -> Codec {
    if has_suffix(name, ".tar.gz"@) || has_suffix(name, ".tgz"@) {
        Codec::Gzip
    } else if has_suffix(name, ".tar.bz2"@) || has_suffix(name, ".tbz2"@) {
        Codec::Bzip2
    } else if has_suffix(name, ".tar.xz"@) || has_suffix(name, ".txz"@) {
        Codec::Xz
    } else if has_suffix(name, ".tar.zst"@) || has_suffix(name, ".tzst"@) {
        Codec::Zstd
    } else {
        Codec::Plain
    }
}

/// Chooses the codec for the archive named `file_name`.
pub fn detect_codec(file_name: &str) -> (codec: Codec)
    ensures
        codec == codec_for(file_name@),
{
    if ends_with(file_name, ".tar.gz") || ends_with(file_name, ".tgz") {
        Codec::Gzip
    } else if ends_with(file_name, ".tar.bz2") || ends_with(file_name, ".tbz2") {
        Codec::Bzip2
    } else if ends_with(file_name, ".tar.xz") || ends_with(file_name, ".txz") {
        Codec::Xz
    } else if ends_with(file_name, ".tar.zst") || ends_with(file_name, ".tzst") {
        Codec::Zstd
    } else {
        Codec::Plain
    }
}

/// The data of the gzip member that `data` begins with, if it is one.
pub uninterp spec fn gzip_unpacked(data: Seq<u8>) -> Option<Seq<u8>>;

/// The data of the bzip2 stream that `data` begins with, if it is one.
pub uninterp spec fn bzip2_unpacked(data: Seq<u8>) -> Option<Seq<u8>>;

/// The data of the xz stream that `data` begins with, if it is one.
pub uninterp spec fn xz_unpacked(data: Seq<u8>) -> Option<Seq<u8>>;

/// The data of the zstd frames that `data` is made of, if it is.
pub uninterp spec fn zstd_unpacked(data: Seq<u8>) -> Option<Seq<u8>>;

/// Reads `flate2::read::GzDecoder` over `data` to its end. What comes out
/// is a function of `data`; the contract gives it its name. Of the text of
/// an error nothing is stated.
#[verifier::external_body]
fn gunzip(data: &[u8]) -> (result: Result<Vec<u8>, String>)
    ensures
        match result {
            Ok(bytes) => gzip_unpacked(data@) == Some(bytes@),
            Err(_) => gzip_unpacked(data@) is None,
        },
{
    let mut bytes = Vec::new();
    match flate2::read::GzDecoder::new(data).read_to_end(&mut bytes) {
        Ok(_) => Ok(bytes),
        Err(e) => Err(e.to_string()),
    }
}

/// Reads `bzip2::read::BzDecoder` over `data` to its end. What comes out
/// is a function of `data`; the contract gives it its name. Of the text of
/// an error nothing is stated.
#[verifier::external_body]
fn bunzip2(data: &[u8]) -> (result: Result<Vec<u8>, String>)
    ensures
        match result {
            Ok(bytes) => bzip2_unpacked(data@) == Some(bytes@),
            Err(_) => bzip2_unpacked(data@) is None,
        },
{
    let mut bytes = Vec::new();
    match bzip2::read::BzDecoder::new(data).read_to_end(&mut bytes) {
        Ok(_) => Ok(bytes),
        Err(e) => Err(e.to_string()),
    }
}

/// Reads `xz2::read::XzDecoder` over `data` to its end. What comes out is
/// a function of `data`; the contract gives it its name. Of the text of an
/// error nothing is stated.
#[verifier::external_body]
fn unxz(data: &[u8]) -> (result: Result<Vec<u8>, String>)
    ensures
        match result {
            Ok(bytes) => xz_unpacked(data@) == Some(bytes@),
            Err(_) => xz_unpacked(data@) is None,
        },
{
    let mut bytes = Vec::new();
    match xz2::read::XzDecoder::new(data).read_to_end(&mut bytes) {
        Ok(_) => Ok(bytes),
        Err(e) => Err(e.to_string()),
    }
}

/// Makes a `zstd::stream::Decoder` over `data` and reads it to its end.
/// What comes out is a function of `data`; the contract gives it its name.
/// Of the text of an error nothing is stated.
#[verifier::external_body]
fn unzstd(data: &[u8]) -> (result: Result<Vec<u8>, String>)
    ensures
        match result {
            Ok(bytes) => zstd_unpacked(data@) == Some(bytes@),
            Err(_) => zstd_unpacked(data@) is None,
        },
{
    let mut bytes = Vec::new();
    match zstd::stream::Decoder::new(data).and_then(|mut d| d.read_to_end(&mut bytes)) {
        Ok(_) => Ok(bytes),
        Err(e) => Err(e.to_string()),
    }
}

/// The archive that `data` holds under `codec`, if `data` is what the codec
/// reads. Without compression it is `data` itself.
pub open spec fn unpacked(codec: Codec, data: Seq<u8>) -> Option<Seq<u8>> {
    match codec {
        Codec::Gzip => gzip_unpacked(data),
        Codec::Bzip2 => bzip2_unpacked(data),
        Codec::Xz => xz_unpacked(data),
        Codec::Zstd => zstd_unpacked(data),
        Codec::Plain => Some(data),
    }
}

/// Whether `result` is what decompressing `data` under `codec` gives.
pub open spec fn decoded_as(
    codec: Codec,
    data: Seq<u8>,
    result: Result<Vec<u8>, DecodeError>,
) -> bool {
    match unpacked(codec, data) {
        Some(bytes) => result matches Ok(v) && v@ == bytes,
        None => result matches Err(e) && e.codec == codec,
    }
}

fn refused(codec: Codec, outcome: Result<Vec<u8>, String>) -> (result: Result<
    Vec<u8>,
    DecodeError,
>)
    ensures
        match outcome {
            Ok(bytes) => result == Ok::<Vec<u8>, DecodeError>(bytes),
            Err(_) => result matches Err(e) && e.codec == codec,
        },
{
    match outcome {
        Ok(bytes) => Ok(bytes),
        Err(reason) => Err(DecodeError { codec, reason }),
    }
}

/// Decompresses `data` under `codec`.
pub fn decode(codec: Codec, data: &[u8]) -> (result: Result<Vec<u8>, DecodeError>)
    ensures
        decoded_as(codec, data@, result),
        codec == Codec::Plain ==> result is Ok,
{
    match codec {
        Codec::Gzip => refused(codec, gunzip(data)),
        Codec::Bzip2 => refused(codec, bunzip2(data)),
        Codec::Xz => refused(codec, unxz(data)),
        Codec::Zstd => refused(codec, unzstd(data)),
        Codec::Plain => Ok(slice_to_vec(data)),
    }
}

/// Decompresses the contents `data` of the archive named `file_name`, with
/// the codec that its name stands for. A name with an unknown suffix is no
/// error: the data is then returned as it is.
pub fn decode_archive(file_name: &str, data: &[u8]) -> (result: Result<Vec<u8>, DecodeError>)
    ensures
        decoded_as(codec_for(file_name@), data@, result),
        codec_for(file_name@) == Codec::Plain ==> (result matches Ok(v) && v@ == data@),
{
    decode(detect_codec(file_name), data)
}

/// The SHA-256 digest of `data`.
pub uninterp spec fn sha256(data: Seq<u8>) -> Seq<u8>;

/// Computes `sha2::Sha256::digest`. The digest is a function of `data`; the
/// contract gives it its name and states its length, 32 bytes.
#[verifier::external_body]
fn sha256_digest(data: &[u8]) -> (digest: Vec<u8>)
    ensures
        digest@ == sha256(data@),
        digest@.len() == 32,
{
    <sha2::Sha256 as sha2::Digest>::digest(data).to_vec()
}

/// The sixteen digits, in order.
pub open spec fn hex_digits() -> Seq<char> {
    seq!['0', '1', '2', '3', '4', '5', '6', '7', '8', '9', 'a', 'b', 'c', 'd', 'e', 'f']
}

/// `bytes` in lowercase hexadecimal: two digits for each byte, the high
/// half first.
pub open spec fn hex_text(bytes: Seq<u8>) -> Seq<char> {
    Seq::new(
        2 * bytes.len(),
        |i: int|
            if i % 2 == 0 {
                hex_digits()[bytes[i / 2] as int / 16]
            } else {
                hex_digits()[bytes[i / 2] as int % 16]
            },
    )
}

/// Writes `bytes` in lowercase hexadecimal.
pub fn to_hex(bytes: &[u8]) -> (text: String)
    ensures
        text@ == hex_text(bytes@),
        text@.len() == 2 * bytes@.len(),
{
    let digits = "0123456789abcdef";
    proof {
        reveal_strlit("0123456789abcdef");
    }
    let mut text = String::new();
    let mut i: usize = 0;
    while i < bytes.len()
        invariant
            i <= bytes.len(),
            digits@ == hex_digits(),
            text@ == hex_text(bytes@.take(i as int)),
        decreases bytes.len() - i,
    {
        let high = (bytes[i] / 16) as usize;
        let low = (bytes[i] % 16) as usize;
        let ghost before = text@;
        text.append(digits.substring_char(high, high + 1));
        text.append(digits.substring_char(low, low + 1));
        proof {
            let grown = bytes@.take(i + 1);
            assert(text@ == before + seq![hex_digits()[high as int]] + seq![
                hex_digits()[low as int],
            ]);
            assert forall|k: int| 0 <= k < 2 * (i + 1) implies text@[k] == hex_text(grown)[k] by {
                if k < 2 * i {
                    assert(bytes@.take(i as int)[k / 2] == grown[k / 2]);
                }
            }
        }
        i += 1;
    }
    text
}

/// The SHA-256 digest of `content`, in lowercase hexadecimal.
pub fn sha256sum(content: &[u8]) -> (text: String)
    ensures
        text@ == hex_text(sha256(content@)),
        text@.len() == 64,
{
    let digest = sha256_digest(content);
    to_hex(digest.as_slice())
}

} // verus!
