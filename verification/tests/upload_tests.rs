use imogen::upload::{begin_upload_part, finish_upload_part, PendingUpload, UploadResult};

fn png_bytes(w: u32, h: u32) -> Vec<u8> {
    let img = image::DynamicImage::ImageRgba8(image::RgbaImage::from_pixel(
        w,
        h,
        image::Rgba([10, 20, 30, 255]),
    ));
    let mut out: Vec<u8> = Vec::new();
    img.write_to(&mut std::io::Cursor::new(&mut out), image::ImageOutputFormat::Png)
        .unwrap();
    out
}

fn pending(name: &str) -> PendingUpload {
    match begin_upload_part(true, Some(name.to_string())) {
        Ok(p) => p,
        Err(_) => panic!("part with a filename was rejected"),
    }
}

#[test]
fn upload_result_new_is_empty() {
    let r = UploadResult::new();
    assert!(r.filename.is_none());
    assert!(r.errors.is_empty());
}

#[test]
fn with_error_appends_in_order() {
    let r = UploadResult::new().with_error("first").with_error("second");
    assert_eq!(r.errors, vec!["first".to_string(), "second".to_string()]);
    assert!(r.filename.is_none());
}

#[test]
fn missing_disposition_is_reported() {
    match begin_upload_part(false, None) {
        Err(u) => {
            assert!(u.filename.is_none());
            assert_eq!(
                u.errors,
                vec![
                    "The multi-part form was improperly formatted: Content-Disposition was not present"
                        .to_string()
                ]
            );
        }
        Ok(_) => panic!("part without Content-Disposition was accepted"),
    }
}

#[test]
fn missing_filename_is_reported() {
    match begin_upload_part(true, None) {
        Err(u) => {
            assert!(u.filename.is_none());
            assert_eq!(
                u.errors,
                vec![
                    "The multi-part form was improperly formatted: A filename was not provided"
                        .to_string()
                ]
            );
        }
        Ok(_) => panic!("part without a filename was accepted"),
    }
}

#[test]
fn empty_filename_is_not_recorded() {
    let p = pending("");
    assert!(p.filename.is_none());
    assert_eq!(p.base_name, "");
}

#[test]
fn base_name_strips_extension() {
    let p = pending("photo.of.me.png");
    assert_eq!(p.filename, Some("photo.of.me.png".to_string()));
    assert_eq!(p.base_name, "photo.of.me");
}

#[test]
fn valid_png_upload_is_accepted() {
    let data = png_bytes(8, 4);
    let (outcome, stored) = finish_upload_part(pending("a.png"), false, data);
    assert_eq!(outcome.filename, Some("a.png".to_string()));
    assert!(outcome.errors.is_empty());
    let stored = stored.expect("accepted upload must yield canonical bytes");
    let decoded = image::load_from_memory(&stored).expect("canonical bytes must decode");
    assert_eq!((decoded.width(), decoded.height()), (8, 4));
    assert_eq!(
        image::guess_format(&stored).expect("canonical bytes must sniff"),
        image::ImageFormat::WebP
    );
}

#[test]
fn duplicate_upload_is_rejected_and_stores_nothing() {
    let data = png_bytes(8, 4);
    let (first, stored_first) = finish_upload_part(pending("a.png"), false, data.clone());
    assert!(first.errors.is_empty());
    assert_eq!(first.filename, Some("a.png".to_string()));
    assert!(stored_first.is_some());

    let (second, stored_second) = finish_upload_part(pending("a.png"), true, data);
    assert!(!second.errors.is_empty());
    assert_eq!(
        second.errors,
        vec!["Another file with this name already exists.".to_string()]
    );
    assert!(stored_second.is_none());
}

#[test]
fn empty_data_is_rejected() {
    let (outcome, stored) = finish_upload_part(pending("a.png"), false, Vec::new());
    assert_eq!(outcome.errors, vec!["No file data was provided.".to_string()]);
    assert!(stored.is_none());
}

#[test]
fn unrecognized_format_is_rejected() {
    let (outcome, stored) = finish_upload_part(pending("a.txt"), false, b"hello world".to_vec());
    assert_eq!(
        outcome.errors,
        vec![
            "Unsupported file format. Try converting to .png, .jpeg, or .webp before uploading."
                .to_string()
        ]
    );
    assert!(stored.is_none());
}

#[test]
fn corrupt_png_is_rejected_as_undecodable() {
    // A valid PNG signature followed by garbage sniffs as PNG but does not decode.
    let mut data: Vec<u8> = vec![0x89, b'P', b'N', b'G', 0x0d, 0x0a, 0x1a, 0x0a];
    data.extend_from_slice(&[0u8; 32]);
    let (outcome, stored) = finish_upload_part(pending("a.png"), false, data);
    assert_eq!(
        outcome.errors,
        vec!["File data could not be decoded.".to_string()]
    );
    assert!(stored.is_none());
}

#[test]
fn oversized_image_is_rejected() {
    // 16384 exceeds the lossless WebP dimension limit of 16383.
    let data = png_bytes(16384, 1);
    let (outcome, stored) = finish_upload_part(pending("wide.png"), false, data);
    assert_eq!(
        outcome.errors,
        vec!["Image dimensions are not supported.".to_string()]
    );
    assert!(stored.is_none());
}

#[test]
fn sixteen_bit_png_upload_is_accepted_and_serves_jpeg() {
    // A 16-bit PNG decodes to a deeper color type; normalization re-encodes
    // it to 8-bit canonical WebP, from which every output format can be
    // served.
    let img = image::DynamicImage::ImageRgba16(image::ImageBuffer::from_pixel(
        12,
        5,
        image::Rgba([1000u16, 2000, 3000, 65535]),
    ));
    let mut data: Vec<u8> = Vec::new();
    img.write_to(&mut std::io::Cursor::new(&mut data), image::ImageOutputFormat::Png)
        .unwrap();
    let (outcome, stored) = finish_upload_part(pending("deep.png"), false, data);
    assert!(outcome.errors.is_empty());
    let stored = stored.expect("accepted upload must yield canonical bytes");
    let decoded = image::load_from_memory(&stored).expect("canonical bytes must decode");
    assert_eq!((decoded.width(), decoded.height()), (12, 5));

    let params = imogen::transform::ProcessingInstructions {
        stretch: None,
        sampling: None,
        w: None,
        h: None,
    };
    let out = imogen::transform::try_processing_image(
        stored,
        &params,
        imogen::transform::OutputFormat::Jpeg,
    )
    .expect("jpeg re-encode of the canonical image must succeed");
    assert_eq!(image::guess_format(&out).unwrap(), image::ImageFormat::Jpeg);
}

#[test]
fn jpeg_upload_is_accepted() {
    let img = image::DynamicImage::ImageRgb8(image::RgbImage::from_pixel(
        6,
        3,
        image::Rgb([200, 100, 50]),
    ));
    let mut data: Vec<u8> = Vec::new();
    img.write_to(&mut std::io::Cursor::new(&mut data), image::ImageOutputFormat::Jpeg(255))
        .unwrap();
    let (outcome, stored) = finish_upload_part(pending("b.jpeg"), false, data);
    assert!(outcome.errors.is_empty());
    let stored = stored.expect("accepted upload must yield canonical bytes");
    let decoded = image::load_from_memory(&stored).expect("canonical bytes must decode");
    assert_eq!((decoded.width(), decoded.height()), (6, 3));
}
