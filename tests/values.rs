use image::GenericImageView;
use wz::{
    decode_text, encode_path, image_len, read_image, read_int32, read_int64, read_len, read_name,
    read_scalar, read_string, read_vector, read_vex_len, Accessor, Dtype, WzError,
};

const ALL_TAGS: [Dtype; 14] = [
    Dtype::NIL,
    Dtype::I16,
    Dtype::I32,
    Dtype::I64,
    Dtype::F32,
    Dtype::F64,
    Dtype::VEC,
    Dtype::UNK,
    Dtype::ARY,
    Dtype::IMG,
    Dtype::VEX,
    Dtype::AO,
    Dtype::UOL,
    Dtype::STR,
];

#[test]
fn from_u8_decodes_every_known_tag() {
    for (code, t) in ALL_TAGS.iter().enumerate() {
        assert_eq!(Dtype::from_u8(code as u8), Some(*t));
    }
}

#[test]
fn from_u8_rejects_unknown_tags() {
    assert_eq!(Dtype::from_u8(14), None);
    assert_eq!(Dtype::from_u8(200), None);
    assert_eq!(Dtype::from_u8(255), None);
}

#[test]
fn to_str_names_each_kind() {
    let names = [
        "NIL", "I16", "I32", "I64", "F32", "F64", "VEC", "UNK", "ARY", "IMG", "VEX", "AO", "UOL",
        "STR",
    ];
    for (t, n) in ALL_TAGS.iter().zip(names.iter()) {
        assert_eq!(t.to_str(), *n);
    }
}

#[test]
fn containers_are_arrays_and_images() {
    for t in ALL_TAGS.iter() {
        assert_eq!(t.is_container(), *t == Dtype::ARY || *t == Dtype::IMG);
    }
}

#[test]
fn int32_on_string_node_is_type_error() {
    assert_eq!(read_int32(13, 1, 0), Err(WzError::TypeError));
    // Even a native layer that claims success gives no integer for a string.
    assert_eq!(read_int32(13, 0, 42), Err(WzError::TypeError));
}

#[test]
fn int32_reads_i16_and_i32_nodes() {
    assert_eq!(read_int32(1, 0, -7), Ok(-7));
    assert_eq!(read_int32(2, 0, 123456), Ok(123456));
    assert_eq!(read_int32(2, 1, 123456), Err(WzError::TypeError));
}

#[test]
fn int64_and_vector_reads() {
    assert_eq!(read_int64(3, 0, -9_000_000_000), Ok(-9_000_000_000));
    assert_eq!(read_int64(2, 0, 5), Err(WzError::TypeError));
    assert_eq!(read_vector(6, 0, 3, -4), Ok((3, -4)));
    assert_eq!(read_vector(6, 2, 3, -4), Err(WzError::TypeError));
    assert_eq!(read_vector(10, 0, 3, -4), Err(WzError::TypeError));
}

#[test]
fn float_reads_go_through_read_scalar() {
    assert_eq!(read_scalar(Accessor::Float32, 4, 0, 1.5f32), Ok(1.5f32));
    assert_eq!(read_scalar(Accessor::Float64, 5, 0, 2.25f64), Ok(2.25f64));
    assert_eq!(read_scalar(Accessor::Float32, 5, 0, 1.5f32), Err(WzError::TypeError));
}

#[test]
fn exactly_one_accessor_accepts_each_tag() {
    let accessors = [
        Accessor::Int32,
        Accessor::Int64,
        Accessor::Float32,
        Accessor::Float64,
        Accessor::Str,
        Accessor::Vector,
        Accessor::Image,
    ];
    for code in 0u8..=20 {
        let ok: Vec<Accessor> =
            accessors.iter().copied().filter(|a| read_scalar(*a, code, 0, ()).is_ok()).collect();
        let expected = match Dtype::from_u8(code) {
            Some(Dtype::I16) | Some(Dtype::I32) => vec![Accessor::Int32],
            Some(Dtype::I64) => vec![Accessor::Int64],
            Some(Dtype::F32) => vec![Accessor::Float32],
            Some(Dtype::F64) => vec![Accessor::Float64],
            Some(Dtype::STR) => vec![Accessor::Str],
            Some(Dtype::VEC) => vec![Accessor::Vector],
            Some(Dtype::IMG) => vec![Accessor::Image],
            _ => vec![],
        };
        assert_eq!(ok, expected, "tag {}", code);
    }
}

#[test]
fn string_accessor_on_other_types_is_type_error() {
    let raw = Some(b"sample".to_vec());
    assert_eq!(read_string(2, &raw), Err(WzError::TypeError));
    assert_eq!(read_string(13, &raw), Ok("sample".to_string()));
}

#[test]
fn string_accessor_decode_failures() {
    assert_eq!(read_string(13, &None), Err(WzError::DecodeError));
    assert_eq!(read_string(13, &Some(vec![0x61, 0xff, 0x62])), Err(WzError::DecodeError));
}

#[test]
fn name_decodes_utf8() {
    let raw = Some("Zöé字".as_bytes().to_vec());
    assert_eq!(read_name(&raw), Ok("Zöé字".to_string()));
    assert_eq!(read_name(&Some(Vec::new())), Ok(String::new()));
}

#[test]
fn name_with_invalid_utf8_is_decode_error() {
    // A lone continuation byte and a truncated two-byte sequence.
    assert_eq!(read_name(&Some(vec![0x80])), Err(WzError::DecodeError));
    assert_eq!(read_name(&Some(vec![b'a', 0xc3])), Err(WzError::DecodeError));
    assert_eq!(read_name(&None), Err(WzError::DecodeError));
}

#[test]
fn decode_text_gives_the_encoded_text() {
    let raw = Some(vec![0x68, 0x69]);
    assert_eq!(decode_text(&raw), Ok("hi".to_string()));
}

#[test]
fn len_is_the_count_for_containers_only() {
    assert_eq!(read_len(8, 0, 3), 3);
    assert_eq!(read_len(9, 0, 2), 2);
    assert_eq!(read_len(8, 1, 3), 0);
    assert_eq!(read_len(13, 0, 3), 0);
    assert_eq!(read_len(99, 0, 3), 0);
}

#[test]
fn vex_len_is_the_count_for_polygons_only() {
    assert_eq!(read_vex_len(10, 0, 5), 5);
    assert_eq!(read_vex_len(10, 1, 5), 0);
    assert_eq!(read_vex_len(8, 0, 5), 0);
}

#[test]
fn encode_path_appends_nul() {
    assert_eq!(encode_path("Info/0"), Ok(b"Info/0\0".to_vec()));
    assert_eq!(encode_path(""), Ok(vec![0u8]));
    assert_eq!(encode_path("é"), Ok(vec![0xc3, 0xa9, 0]));
}

#[test]
fn encode_path_rejects_embedded_nul() {
    assert_eq!(encode_path("a\0b"), Err(WzError::InvalidPath));
}

#[test]
fn image_len_is_four_bytes_per_pixel() {
    assert_eq!(image_len(3, 2), Some(24));
    assert_eq!(image_len(0, 7), Some(0));
    assert_eq!(image_len(u32::MAX, u32::MAX), None);
    assert_eq!(image_len(65536, 65536), Some(17_179_869_184));
}

#[test]
fn read_image_copies_pixels() {
    let pixels: Vec<u8> = (0u8..16).collect();
    let img = read_image(9, 2, 2, 8, 1, Some(pixels.clone())).unwrap();
    assert_eq!(img.width(), 2);
    assert_eq!(img.height(), 2);
    assert_eq!(img.depth(), 8);
    assert_eq!(img.scale(), 1);
    assert_eq!(img.data(), &pixels[..]);
}

#[test]
fn read_image_errors() {
    assert!(matches!(read_image(13, 1, 1, 8, 0, Some(vec![0; 4])), Err(WzError::TypeError)));
    assert!(matches!(read_image(9, 1, 1, 8, 0, None), Err(WzError::DecodeError)));
    assert!(matches!(read_image(9, 2, 1, 8, 0, Some(vec![0; 4])), Err(WzError::DecodeError)));
}

#[test]
fn image_becomes_bgra_dynamic_image() {
    let pixels: Vec<u8> = (0u8..24).collect();
    let img = read_image(9, 3, 2, 8, 0, Some(pixels.clone())).unwrap();
    let dynamic = img.into_dynamic().unwrap();
    assert_eq!(dynamic.dimensions(), (3, 2));
    assert_eq!(dynamic.as_bytes(), &pixels[..]);
    assert_eq!(dynamic.color(), image::ColorType::Bgra8);
}

#[test]
fn error_descriptions() {
    assert_eq!(WzError::InvalidPath.describe(), "path holds a NUL byte");
    assert_eq!(WzError::TypeError.describe(), "node has another type");
}
