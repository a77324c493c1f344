use deb_rust::compress::{compress, decompress};
use deb_rust::{DebCompression, DebError};

fn round_trip(compression: DebCompression, data: &[u8]) {
    let packed = compress(compression, data);
    assert_eq!(decompress(compression, &packed).unwrap(), data);
}

fn large_buffer() -> Vec<u8> {
    let mut data = Vec::with_capacity(3 * 1024 * 1024);
    let mut state: u32 = 12345;
    for i in 0..3 * 1024 * 1024 {
        state = state.wrapping_mul(1664525).wrapping_add(1013904223);
        data.push(if i % 3 == 0 { (state >> 24) as u8 } else { (i % 251) as u8 });
    }
    data
}

#[test]
fn zstd_round_trips_an_empty_buffer() {
    round_trip(DebCompression::Zstd, &[]);
}

#[test]
fn zstd_round_trips_one_byte() {
    round_trip(DebCompression::Zstd, &[42]);
}

#[test]
fn zstd_round_trips_megabytes() {
    round_trip(DebCompression::Zstd, &large_buffer());
}

#[test]
fn xz_round_trips_an_empty_buffer() {
    round_trip(DebCompression::Xz, &[]);
}

#[test]
fn xz_round_trips_one_byte() {
    round_trip(DebCompression::Xz, &[42]);
}

#[test]
fn xz_round_trips_megabytes() {
    round_trip(DebCompression::Xz, &large_buffer());
}

#[test]
fn compressed_streams_carry_the_magic_of_their_codec() {
    let data = vec![b'a'; 4096];
    let zstd = compress(DebCompression::Zstd, &data);
    assert_eq!(&zstd[..4], &[0x28, 0xb5, 0x2f, 0xfd]);
    assert!(zstd.len() < data.len());
    let xz = compress(DebCompression::Xz, &data);
    assert_eq!(&xz[..6], &[0xfd, b'7', b'z', b'X', b'Z', 0x00]);
    assert!(xz.len() < data.len());
}

#[test]
fn a_stream_of_the_other_codec_is_corrupt() {
    let data = vec![b'a'; 100];
    let zstd = compress(DebCompression::Zstd, &data);
    let xz = compress(DebCompression::Xz, &data);
    assert_eq!(decompress(DebCompression::Xz, &zstd), Err(DebError::CorruptCompressedStream));
    assert_eq!(decompress(DebCompression::Zstd, &xz), Err(DebError::CorruptCompressedStream));
}

#[test]
fn garbage_is_corrupt() {
    assert_eq!(
        decompress(DebCompression::Zstd, b"not a stream"),
        Err(DebError::CorruptCompressedStream)
    );
    assert_eq!(
        decompress(DebCompression::Xz, b"not a stream"),
        Err(DebError::CorruptCompressedStream)
    );
}
