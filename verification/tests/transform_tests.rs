use imogen::transform::{try_processing_image, OutputFormat, ProcessingInstructions};
use imogen::ImageServiceFailure;

fn no_params() -> ProcessingInstructions {
    ProcessingInstructions { stretch: None, sampling: None, w: None, h: None }
}

fn canonical_webp(w: u32, h: u32) -> Vec<u8> {
    let data = {
        let img = image::DynamicImage::ImageRgba8(image::RgbaImage::from_fn(w, h, |x, y| {
            image::Rgba([(x % 251) as u8, (y % 241) as u8, ((x + y) % 253) as u8, 255])
        }));
        let mut out: Vec<u8> = Vec::new();
        img.write_to(&mut std::io::Cursor::new(&mut out), image::ImageOutputFormat::Png)
            .unwrap();
        out
    };
    let pending = match imogen::upload::begin_upload_part(true, Some("t.png".to_string())) {
        Ok(p) => p,
        Err(_) => panic!("part with a filename was rejected"),
    };
    let (outcome, stored) = imogen::upload::finish_upload_part(pending, false, data);
    assert!(outcome.errors.is_empty());
    stored.expect("accepted upload must yield canonical bytes")
}

fn dims_of(bytes: &[u8]) -> (u32, u32) {
    let decoded = image::load_from_memory(bytes).expect("output must decode");
    (decoded.width(), decoded.height())
}

#[test]
fn identity_transform_keeps_dimensions() {
    let canonical = canonical_webp(20, 10);
    let out = try_processing_image(canonical, &no_params(), OutputFormat::Webp)
        .expect("identity transform must succeed");
    assert_eq!(dims_of(&out), (20, 10));
}

#[test]
fn aspect_preserving_resize_width_only() {
    // Source 200 by 100, w=100 requested: the output fits the width bound and
    // keeps the 2:1 ratio exactly.
    let canonical = canonical_webp(200, 100);
    let params = ProcessingInstructions { stretch: None, sampling: None, w: Some(100), h: None };
    let out = try_processing_image(canonical, &params, OutputFormat::Webp)
        .expect("resize must succeed");
    let (ow, oh) = dims_of(&out);
    assert!(ow <= 100);
    assert_eq!((ow, oh), (100, 50));
    assert_eq!(ow as u64 * 100, oh as u64 * 200);
}

#[test]
fn aspect_preserving_resize_rounds_within_half_a_pixel() {
    // Source 200 by 100, w=99 requested: 99 * 100 / 200 = 49.5 is no whole
    // pixel, so the height may round, but by no more than half a pixel:
    // 2*|oh*200 - 99*100| <= 200.
    let canonical = canonical_webp(200, 100);
    let params = ProcessingInstructions { stretch: None, sampling: None, w: Some(99), h: None };
    let out = try_processing_image(canonical, &params, OutputFormat::Webp)
        .expect("resize must succeed");
    let (ow, oh) = dims_of(&out);
    assert_eq!(ow, 99);
    let diff = (i64::from(oh) * 200 - 99 * 100).abs();
    assert!(2 * diff <= 200, "height {} strays more than half a pixel", oh);
}

#[test]
fn stretch_resize_is_exact() {
    let canonical = canonical_webp(200, 100);
    let params = ProcessingInstructions {
        stretch: Some(true),
        sampling: None,
        w: Some(100),
        h: Some(100),
    };
    let out = try_processing_image(canonical, &params, OutputFormat::Webp)
        .expect("stretch resize must succeed");
    assert_eq!(dims_of(&out), (100, 100));
}

#[test]
fn unknown_sampling_name_falls_back_to_nearest() {
    let canonical = canonical_webp(200, 100);
    let bogus = ProcessingInstructions {
        stretch: None,
        sampling: Some("bogus".to_string()),
        w: Some(50),
        h: None,
    };
    let omitted = ProcessingInstructions { stretch: None, sampling: None, w: Some(50), h: None };
    let with_bogus = try_processing_image(canonical.clone(), &bogus, OutputFormat::Webp)
        .expect("unknown sampling name must not fail");
    let with_omitted = try_processing_image(canonical, &omitted, OutputFormat::Webp)
        .expect("omitted sampling must not fail");
    assert_eq!(with_bogus, with_omitted);
}

#[test]
fn named_sampling_kernels_are_distinct_from_nearest() {
    let canonical = canonical_webp(64, 32);
    let nearest = ProcessingInstructions { stretch: None, sampling: None, w: Some(23), h: None };
    let triangle = ProcessingInstructions {
        stretch: None,
        sampling: Some("triangle".to_string()),
        w: Some(23),
        h: None,
    };
    let a = try_processing_image(canonical.clone(), &nearest, OutputFormat::Webp).unwrap();
    let b = try_processing_image(canonical, &triangle, OutputFormat::Webp).unwrap();
    assert_eq!(dims_of(&a), dims_of(&b));
    assert_ne!(a, b);
}

#[test]
fn png_output_is_png_with_same_dimensions() {
    let canonical = canonical_webp(20, 10);
    let out = try_processing_image(canonical, &no_params(), OutputFormat::Png)
        .expect("png re-encode must succeed");
    assert_eq!(image::guess_format(&out).unwrap(), image::ImageFormat::Png);
    assert_eq!(dims_of(&out), (20, 10));
}

#[test]
fn jpeg_output_is_jpeg_with_same_dimensions() {
    let canonical = canonical_webp(20, 10);
    let out = try_processing_image(canonical, &no_params(), OutputFormat::Jpeg)
        .expect("jpeg re-encode must succeed");
    assert_eq!(image::guess_format(&out).unwrap(), image::ImageFormat::Jpeg);
    assert_eq!(dims_of(&out), (20, 10));
}

#[test]
fn undecodable_canonical_bytes_fail() {
    let garbage = b"not a webp file at all".to_vec();
    let r = try_processing_image(garbage, &no_params(), OutputFormat::Webp);
    match r {
        Err(f) => {
            assert_eq!(f, ImageServiceFailure::CouldNotReadToBuffer);
            assert_eq!(f.http_status(), 500);
        }
        Ok(_) => panic!("garbage bytes must not transform"),
    }
}

#[test]
fn upscale_within_box_touches_the_binding_bound() {
    // Source 10 by 10 into a 30 by 20 box: the height binds, 20 by 20.
    let canonical = canonical_webp(10, 10);
    let params = ProcessingInstructions { stretch: None, sampling: None, w: Some(30), h: Some(20) };
    let out = try_processing_image(canonical, &params, OutputFormat::Webp)
        .expect("upscale must succeed");
    assert_eq!(dims_of(&out), (20, 20));
}
