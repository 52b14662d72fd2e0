use datutils::codec::gzip::{load_gz, save_gz};
use datutils::codec::lz4::{load_lz4, save_lz4};
use datutils::codec::raw::{load_raw, save_raw};
use datutils::codec::xz::{load_xz, save_xz, XZ_LEVEL, XZ_LEVEL_MAX};
use datutils::codec::zstd::{load_zstd, save_zstd, ZSTD_LEVEL};
use datutils::codec::{compress, decompress, tagged};
use datutils::scheme::CompressionScheme;
use datutils::{load, save};
use std::io::Write;

fn sample() -> Vec<u8> {
    let mut bytes = Vec::new();
    for i in 0..5000u32 {
        bytes.push((i % 7) as u8);
        bytes.push((i / 256) as u8);
    }
    bytes
}

const SCHEMES: [CompressionScheme; 5] = [
    CompressionScheme::Raw,
    CompressionScheme::Lz4,
    CompressionScheme::Zstd,
    CompressionScheme::Gzip,
    CompressionScheme::Xz,
];

#[test]
fn raw_is_the_identity() {
    assert_eq!(save_raw(b"abc"), b"abc".to_vec());
    assert_eq!(load_raw(b"abc"), b"abc".to_vec());
    assert_eq!(save_raw(b""), Vec::<u8>::new());
    assert_eq!(load_raw(b""), Vec::<u8>::new());
}

#[test]
fn lz4_writes_a_frame_and_reads_it_back() {
    let data = sample();
    let frame = save_lz4(&data).unwrap();
    assert_eq!(&frame[..4], &[0x04, 0x22, 0x4d, 0x18]);
    assert!(frame.len() < data.len());
    assert_eq!(load_lz4(&frame).unwrap(), data);
}

#[test]
fn zstd_writes_a_frame_and_reads_it_back() {
    let data = sample();
    let frame = save_zstd(&data).unwrap();
    assert_eq!(&frame[..4], &[0x28, 0xb5, 0x2f, 0xfd]);
    assert!(frame.len() < data.len());
    assert_eq!(load_zstd(&frame).unwrap(), data);
}

#[test]
fn gzip_writes_a_member_and_reads_it_back() {
    let data = sample();
    let member = save_gz(&data).unwrap();
    assert_eq!(&member[..3], &[0x1f, 0x8b, 0x08]);
    assert!(member.len() < data.len());
    assert_eq!(load_gz(&member).unwrap(), data);
}

#[test]
fn xz_writes_a_stream_and_reads_it_back() {
    let data = sample();
    let stream = save_xz(&data).unwrap();
    assert_eq!(&stream[..6], &[0xfd, 0x37, 0x7a, 0x58, 0x5a, 0x00]);
    assert!(stream.len() < data.len());
    assert_eq!(load_xz(&stream).unwrap(), data);
}

#[test]
fn levels_are_the_fixed_ones() {
    assert_eq!(ZSTD_LEVEL, 0);
    assert_eq!(XZ_LEVEL, 6);
    assert_eq!(XZ_LEVEL_MAX, 9);
}

#[test]
fn empty_envelope_round_trips() {
    for scheme in SCHEMES {
        let contents = compress(scheme, b"").unwrap();
        assert_eq!(decompress(scheme, &contents).unwrap(), Vec::<u8>::new());
        if scheme != CompressionScheme::Raw {
            assert!(!contents.is_empty());
        }
    }
}

#[test]
fn every_scheme_round_trips() {
    let data = sample();
    for scheme in SCHEMES {
        let contents = compress(scheme, &data).unwrap();
        assert_eq!(decompress(scheme, &contents).unwrap(), data);
    }
}

#[test]
fn large_envelope_round_trips() {
    let mut data = Vec::new();
    let mut state: u32 = 42;
    for _ in 0..300_000 {
        data.push((state >> 24) as u8);
        state = state.wrapping_mul(1664525).wrapping_add(1013904223);
    }
    for scheme in SCHEMES {
        let contents = compress(scheme, &data).unwrap();
        assert_eq!(decompress(scheme, &contents).unwrap(), data);
    }
}

#[test]
fn decoders_reject_what_is_no_frame() {
    let junk = b"this is not a compressed stream of any kind";
    assert_eq!(load_lz4(junk).unwrap_err().scheme, CompressionScheme::Lz4);
    assert_eq!(load_zstd(junk).unwrap_err().scheme, CompressionScheme::Zstd);
    assert_eq!(load_gz(junk).unwrap_err().scheme, CompressionScheme::Gzip);
    assert_eq!(load_xz(junk).unwrap_err().scheme, CompressionScheme::Xz);
    assert_eq!(decompress(CompressionScheme::Raw, junk).unwrap(), junk.to_vec());
}

#[test]
fn decoders_reject_empty_input() {
    assert!(load_lz4(b"").is_err());
    assert!(load_zstd(b"").is_err());
    assert!(load_gz(b"").is_err());
    assert!(load_xz(b"").is_err());
}

#[test]
fn decoders_reject_another_codecs_frame() {
    let data = sample();
    let frame = save_zstd(&data).unwrap();
    assert!(load_lz4(&frame).is_err());
    assert!(load_gz(&frame).is_err());
    assert!(load_xz(&frame).is_err());
    let member = save_gz(&data).unwrap();
    assert!(load_zstd(&member).is_err());
}

#[test]
fn corrupted_byte_is_detected() {
    let data = sample();
    for scheme in [CompressionScheme::Lz4, CompressionScheme::Gzip, CompressionScheme::Xz] {
        let mut contents = compress(scheme, &data).unwrap();
        let last = contents.len() - 1;
        contents[last] ^= 0xff;
        let e = decompress(scheme, &contents).unwrap_err();
        assert_eq!(e.scheme, scheme);
    }
}

#[test]
fn lz4_frame_without_its_end_is_an_error() {
    let data = sample();
    let frame = save_lz4(&data).unwrap();
    for cut in 1..=8 {
        let e = load_lz4(&frame[..frame.len() - cut]).unwrap_err();
        assert_eq!(e.scheme, CompressionScheme::Lz4);
    }
}

#[test]
fn save_and_load_go_by_the_path() {
    let data = sample();
    assert_eq!(save("a.lz4", &data).unwrap(), save_lz4(&data).unwrap());
    assert_eq!(save("a.zstd", &data).unwrap(), save_zstd(&data).unwrap());
    assert_eq!(save("a.gz", &data).unwrap(), save_gz(&data).unwrap());
    assert_eq!(save("a.xz", &data).unwrap(), save_xz(&data).unwrap());
    assert_eq!(save("a.bin", &data).unwrap(), data);
    let frame = save("dir/a.b.zstd", &data).unwrap();
    assert_eq!(load("elsewhere/c.zstd", &frame).unwrap(), data);
    assert_eq!(load("c.zst", &frame).unwrap(), frame);
    assert_eq!(load("c.gz", &frame).unwrap_err().scheme, CompressionScheme::Gzip);
}

#[test]
fn tagged_passes_success_through() {
    let outcome: Result<u8, std::io::Error> = Ok(7);
    assert_eq!(tagged(CompressionScheme::Gzip, outcome).unwrap(), 7);
}

#[test]
fn tagged_names_the_scheme_and_keeps_the_cause() {
    let cause = std::io::Error::new(std::io::ErrorKind::InvalidData, "broken");
    let outcome: Result<u8, std::io::Error> = Err(cause);
    let e = tagged(CompressionScheme::Xz, outcome).unwrap_err();
    assert_eq!(e.scheme, CompressionScheme::Xz);
    assert_eq!(e.cause.kind(), std::io::ErrorKind::InvalidData);
    assert_eq!(e.cause.to_string(), "broken");
}

#[test]
fn lz4_output_is_the_codecs_with_its_defaults() {
    let data = sample();
    let mut enc = lz4::EncoderBuilder::new().build(Vec::new()).unwrap();
    enc.write_all(&data).unwrap();
    let (frame, outcome) = enc.finish();
    outcome.unwrap();
    assert_eq!(save_lz4(&data).unwrap(), frame);
}

#[test]
fn zstd_output_is_the_codecs_at_level_zero() {
    let data = sample();
    let mut enc = zstd::Encoder::new(Vec::new(), 0).unwrap();
    enc.write_all(&data).unwrap();
    let at_zero = enc.finish().unwrap();
    let mut enc = zstd::Encoder::new(Vec::new(), 19).unwrap();
    enc.write_all(&data).unwrap();
    let at_nineteen = enc.finish().unwrap();
    let saved = save_zstd(&data).unwrap();
    assert_eq!(saved, at_zero);
    assert_ne!(saved, at_nineteen);
}

#[test]
fn gzip_output_is_the_codecs_at_its_default_level() {
    let data = sample();
    let mut enc = flate2::write::GzEncoder::new(Vec::new(), flate2::Compression::default());
    enc.write_all(&data).unwrap();
    assert_eq!(save_gz(&data).unwrap(), enc.finish().unwrap());
}

#[test]
fn xz_output_is_the_codecs_at_preset_six() {
    let data = sample();
    let mut enc = xz::write::XzEncoder::new(Vec::new(), 6);
    enc.write_all(&data).unwrap();
    let at_six = enc.finish().unwrap();
    let mut enc = xz::write::XzEncoder::new(Vec::new(), 0);
    enc.write_all(&data).unwrap();
    let at_zero = enc.finish().unwrap();
    let saved = save_xz(&data).unwrap();
    assert_eq!(saved, at_six);
    assert_ne!(saved, at_zero);
}

#[test]
fn compressing_twice_gives_the_same_bytes() {
    let data = sample();
    for scheme in SCHEMES {
        assert_eq!(compress(scheme, &data).unwrap(), compress(scheme, &data).unwrap());
        assert_eq!(compress(scheme, b"").unwrap(), compress(scheme, b"").unwrap());
    }
}

#[test]
fn no_shorter_beginning_of_a_frame_is_accepted() {
    let inputs: [&[u8]; 3] = [b"", b"\x01", b"some bytes, some bytes, some bytes"];
    for scheme in [
        CompressionScheme::Lz4,
        CompressionScheme::Zstd,
        CompressionScheme::Gzip,
        CompressionScheme::Xz,
    ] {
        for input in inputs {
            let contents = compress(scheme, input).unwrap();
            for kept in 0..contents.len() {
                let e = decompress(scheme, &contents[..kept]).unwrap_err();
                assert_eq!(e.scheme, scheme);
            }
            assert_eq!(decompress(scheme, &contents).unwrap(), input.to_vec());
        }
    }
}
