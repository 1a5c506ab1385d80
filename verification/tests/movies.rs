use flashnx::library::banner::{
    decode_banner, picture_fits, promote, set_banner_texture, Pixels,
};
use flashnx::library::state::{static_compression_label, Compression, State};
use flashnx::library::swf::{
    as3_of_prefix, detect_as3, magic_of, parse_as3_flag, read_swf_header,
};
use std::io::Write;

// A stage rectangle with fields of 15 bits takes 9 bytes; frame rate and count
// take 4; then comes the first tag.
fn body(tag: u16, flags: u8) -> Vec<u8> {
    let mut b = vec![15 << 3];
    b.extend(vec![0; 8]);
    b.extend(vec![0; 4]);
    b.push((tag << 6) as u8);
    b.push((tag >> 2) as u8);
    b.push(flags);
    b
}

fn movie(magic: &str, version: u8, size: u32, rest: &[u8]) -> Vec<u8> {
    let mut m = magic.as_bytes().to_vec();
    m.push(version);
    m.extend(size.to_le_bytes());
    m.extend(rest);
    m
}

#[test]
fn the_first_tag_says_the_engine() {
    assert_eq!(parse_as3_flag(&body(69, 0x08)), Some(true));
    assert_eq!(parse_as3_flag(&body(69, 0xff)), Some(true));
    assert_eq!(parse_as3_flag(&body(69, 0x10)), Some(false));
    assert_eq!(parse_as3_flag(&body(9, 0x08)), Some(false));
    assert_eq!(parse_as3_flag(&body(69, 8)[..15]), None);
    assert_eq!(parse_as3_flag(&body(69, 8)[..14]), None);
    assert_eq!(parse_as3_flag(&[]), None);
}

#[test]
fn the_version_decides_where_the_start_is_short() {
    assert!(!as3_of_prefix(7, Compression::Fws, &body(69, 8)));
    assert!(as3_of_prefix(8, Compression::Fws, &body(69, 8)));
    assert!(!as3_of_prefix(8, Compression::Fws, &[]));
    assert!(as3_of_prefix(9, Compression::Fws, &[]));
    assert!(as3_of_prefix(13, Compression::Zws, &[]));
    assert!(!as3_of_prefix(7, Compression::Zws, &[]));
}

#[test]
fn a_packed_body_is_unpacked() {
    let mut z = flate2::write::ZlibEncoder::new(Vec::new(), flate2::Compression::default());
    let mut long = body(69, 0x08);
    long.extend(vec![7; 500]);
    z.write_all(&long).unwrap();
    let packed = z.finish().unwrap();
    assert!(detect_as3(9, Compression::Cws, &packed));
    let mut z = flate2::write::ZlibEncoder::new(Vec::new(), flate2::Compression::default());
    z.write_all(&body(69, 0x00)).unwrap();
    let packed = z.finish().unwrap();
    assert!(!detect_as3(9, Compression::Cws, &packed));
    assert!(detect_as3(9, Compression::Cws, b"no zlib stream"));
    assert!(!detect_as3(8, Compression::Cws, b"no zlib stream"));
    // Plain bytes in a packed movie are not read as they stand.
    assert!(detect_as3(9, Compression::Cws, &body(9, 0)));
}

#[test]
fn headers() {
    let m = movie("FWS", 9, 0x0102_0304, &body(69, 8));
    let h = read_swf_header(&m).unwrap();
    assert_eq!(h.size_bytes, 0x0102_0304);
    assert_eq!(h.version, 9);
    assert_eq!(h.compression, Compression::Fws);
    assert!(h.is_as3);
    assert!(read_swf_header(&m[..7]).is_none());
    assert!(read_swf_header(b"PK\x03\x04....").is_none());
    assert_eq!(magic_of(b"ZWS"), Some(Compression::Zws));
    assert_eq!(magic_of(b"FW"), None);
}

#[test]
fn signatures_name_their_packing() {
    for c in [Compression::Fws, Compression::Cws, Compression::Zws] {
        assert_eq!(static_compression_label(c.label()), Some(c));
    }
    assert_eq!(static_compression_label("XWS"), None);
}

#[test]
fn pixels_become_four_bytes() {
    assert_eq!(promote(Pixels::Rgba, vec![1, 2, 3, 4]), Some(vec![1, 2, 3, 4]));
    assert_eq!(
        promote(Pixels::Rgb, vec![1, 2, 3, 4, 5, 6, 7]),
        Some(vec![1, 2, 3, 255, 4, 5, 6, 255])
    );
    assert_eq!(promote(Pixels::GrayAlpha, vec![9, 8]), Some(vec![9, 9, 9, 8]));
    assert_eq!(promote(Pixels::Gray, vec![5, 6]), Some(vec![5, 5, 5, 255, 6, 6, 6, 255]));
    assert_eq!(promote(Pixels::Indexed, vec![5]), None);
}

#[test]
fn a_banner_is_decoded() {
    let mut file = Vec::new();
    {
        let mut e = png::Encoder::new(&mut file, 2, 1);
        e.set_color(png::ColorType::Rgb);
        e.set_depth(png::BitDepth::Eight);
        let mut w = e.write_header().unwrap();
        w.write_image_data(&[10, 20, 30, 40, 50, 60]).unwrap();
    }
    assert!(picture_fits(&file));
    assert!(picture_fits(b"no picture"));
    let mut wide = file.clone();
    wide[16..24].copy_from_slice(&[0, 0, 0x7f, 0xff, 0, 0, 0x20, 0]);
    assert!(picture_fits(&wide));
    wide[16..24].copy_from_slice(&[0, 0, 0x80, 0, 0, 0, 0x20, 0]);
    assert!(!picture_fits(&wide));
    assert_eq!(
        decode_banner(&file),
        Some((vec![10, 20, 30, 255, 40, 50, 60, 255], 2, 1))
    );
    assert_eq!(decode_banner(b"no picture"), None);
    assert_eq!(decode_banner(&file[..file.len() / 2]), None);
}

#[test]
fn the_banner_texture_is_kept() {
    let mut s = State::new();
    set_banner_texture(&mut s, 7, 640, 160);
    assert_eq!((s.banner.tex, s.banner.w, s.banner.h), (7, 640, 160));
}
