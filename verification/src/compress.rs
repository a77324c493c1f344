//! The two compression codecs: XZ, the legacy one, at its highest level, and
//! Zstandard, the default, at its default level.
use crate::error::DebError;
use crate::shared::DebCompression;
use std::io::{Read, Write};
use vstd::prelude::*;

verus! {

/// What the XZ encoder of the given level writes for a buffer.
pub uninterp spec fn xz_encoded(level: u32, data: Seq<u8>) -> Seq<u8>;

/// What the XZ decoder reads from a stream of bytes, where it reads it to its
/// end without an error.
pub uninterp spec fn xz_decoded(bytes: Seq<u8>) -> Option<Seq<u8>>;

/// What the Zstandard encoder of the given level writes for a buffer.
pub uninterp spec fn zstd_encoded(level: i32, data: Seq<u8>) -> Seq<u8>;

/// What the Zstandard decoder reads from a stream of bytes, where it reads it
/// to its end without an error.
pub uninterp spec fn zstd_decoded(bytes: Seq<u8>) -> Option<Seq<u8>>;

/// The level at which XZ compresses: its highest.
pub const XZ_LEVEL: u32 = 9;

/// The level at which Zstandard compresses: 0, which stands for its default.
pub const ZSTD_LEVEL: i32 = 0;

/// `xz::write::XzEncoder`: writes all of `data` to an encoder of the given
/// level, which is 0 to 9, and finishes the stream. Writing into a vector
/// does not fail. The compression is lossless: what comes out is a stream
/// that the decoder reads back as `data`.
#[verifier::external_body]
fn xz_encode(data: &[u8], level: u32) -> (r: Result<Vec<u8>, std::io::Error>)
    requires
        level <= 9,
    ensures
        r is Ok,
        r matches Ok(out) ==> out@ == xz_encoded(level, data@),
        r matches Ok(out) ==> xz_decoded(out@) == Some(data@),
{
    let mut encoder = xz::write::XzEncoder::new(Vec::new(), level);
    encoder.write_all(data)?;
    encoder.finish()
}

/// `xz::read::XzDecoder`: reads a decoder over `data` to its end.
#[verifier::external_body]
fn xz_decode(data: &[u8]) -> (r: Result<Vec<u8>, std::io::Error>)
    ensures
        r is Ok == xz_decoded(data@) is Some,
        r matches Ok(out) ==> xz_decoded(data@) == Some(out@),
{
    let mut out = Vec::new();
    xz::read::XzDecoder::new(data).read_to_end(&mut out)?;
    Ok(out)
}

/// `zstd::stream::copy_encode`: compresses all of `data` at the given level.
/// At level 0, which stands for the default level, and into a vector, it does
/// not fail. The compression is lossless: what comes out is a stream that the
/// decoder reads back as `data`.
#[verifier::external_body]
fn zstd_encode(data: &[u8], level: i32) -> (r: Result<Vec<u8>, std::io::Error>)
    ensures
        level == 0 ==> r is Ok,
        r matches Ok(out) ==> out@ == zstd_encoded(level, data@),
        r matches Ok(out) ==> zstd_decoded(out@) == Some(data@),
{
    let mut out = Vec::new();
    zstd::stream::copy_encode(data, &mut out, level)?;
    Ok(out)
}

/// `zstd::stream::copy_decode`: decompresses all of `data`.
#[verifier::external_body]
fn zstd_decode(data: &[u8]) -> (r: Result<Vec<u8>, std::io::Error>)
    ensures
        r is Ok == zstd_decoded(data@) is Some,
        r matches Ok(out) ==> zstd_decoded(data@) == Some(out@),
{
    let mut out = Vec::new();
    zstd::stream::copy_decode(data, &mut out)?;
    Ok(out)
}

/// What a buffer is compressed to under a codec: by XZ at its highest level,
/// by Zstandard at its default level.
pub open spec fn compressed(compression: DebCompression, data: Seq<u8>) -> Seq<u8> {
    match compression {
        DebCompression::Xz => xz_encoded(XZ_LEVEL, data),
        DebCompression::Zstd => zstd_encoded(ZSTD_LEVEL, data),
    }
}

/// What a compressed stream decompresses to under a codec, if it is a stream
/// of that codec.
pub open spec fn decompressed(compression: DebCompression, bytes: Seq<u8>) -> Option<Seq<u8>> {
    match compression {
        DebCompression::Xz => xz_decoded(bytes),
        DebCompression::Zstd => zstd_decoded(bytes),
    }
}

/// Compresses a buffer with the given codec: with XZ at its highest level,
/// with Zstandard at its default level.
///
/// What comes out decompresses to the buffer again.
pub fn compress(compression: DebCompression, data: &[u8]) -> (out: Vec<u8>)
    ensures
        out@ == compressed(compression, data@),
        decompressed(compression, out@) == Some(data@),
{
    let encoded = match compression {
        DebCompression::Xz => xz_encode(data, XZ_LEVEL),
        DebCompression::Zstd => zstd_encode(data, ZSTD_LEVEL),
    };
    match encoded {
        Ok(out) => out,
        Err(_) => unreached(),
    }
}

/// Decompresses a buffer with the given codec.
///
/// Fails with `CorruptCompressedStream` exactly where the buffer is no stream
/// of that codec.
pub fn decompress(compression: DebCompression, data: &[u8]) -> (r: Result<Vec<u8>, DebError>)
    ensures
        match decompressed(compression, data@) {
            Some(out) => r is Ok && r->Ok_0@ == out,
            None => r == Err::<Vec<u8>, DebError>(DebError::CorruptCompressedStream),
        },
{
    let decoded = match compression {
        DebCompression::Xz => xz_decode(data),
        DebCompression::Zstd => zstd_decode(data),
    };
    match decoded {
        Ok(out) => Ok(out),
        Err(_) => Err(DebError::CorruptCompressedStream),
    }
}

} // verus!
