use imgconv::codec::{encode_rgb_png, expand_palette, PaletteColor};
use imgconv::convert::{finalize_batch, plan_batch, BatchItem, ItemAction, PlannedItem, WriteOutcome};
use imgconv::settings::{ConflictResolution, ConversionSettings};

fn settings(quality: u8, lossless: bool) -> ConversionSettings {
    ConversionSettings {
        output_path: String::from("out"),
        file_prefix: String::from(""),
        conflict_resolution: ConflictResolution::Numbering,
        quality,
        lossless,
    }
}

fn small_image() -> image::RgbImage {
    image::RgbImage::from_fn(8, 8, |x, y| {
        image::Rgb([(x * 31) as u8, (y * 29) as u8, ((x + y) * 17) as u8])
    })
}

fn noisy_image() -> image::RgbImage {
    image::RgbImage::from_fn(16, 16, |x, y| {
        image::Rgb([
            ((x * 97 + y * 31) % 251) as u8,
            ((x * 13 + y * 211) % 241) as u8,
            ((x * 181 + y * 7) % 239) as u8,
        ])
    })
}

fn png_bytes(img: &image::RgbImage) -> Vec<u8> {
    let mut cur = std::io::Cursor::new(Vec::new());
    image::DynamicImage::ImageRgb8(img.clone())
        .write_to(&mut cur, image::ImageFormat::Png)
        .unwrap();
    cur.into_inner()
}

fn item(path: &str, data: Result<Vec<u8>, String>) -> BatchItem {
    BatchItem { source_path: String::from(path), data }
}

fn all_done(n: usize) -> Vec<WriteOutcome> {
    let mut v = Vec::new();
    for _ in 0..n {
        v.push(WriteOutcome::Done);
    }
    v
}

#[test]
fn batch_preserves_length_and_order() {
    let s = settings(80, false);
    let items = vec![
        item("a.png", Ok(png_bytes(&small_image()))),
        item("b.png", Err(String::from("permission denied"))),
        item("c.png", Ok(vec![1, 2, 3])),
    ];
    let plan = plan_batch(&items, "jpg", &s, &Vec::new());
    assert_eq!(plan.len(), 3);
    let results = finalize_batch(&plan, &all_done(3));
    assert_eq!(results.len(), 3);
    assert_eq!(results[0].source_path, "a.png");
    assert_eq!(results[1].source_path, "b.png");
    assert_eq!(results[2].source_path, "c.png");
}

#[test]
fn corrupt_item_fails_alone() {
    // One corrupt source and one valid source: the failures stay isolated.
    let s = settings(80, false);
    let items = vec![
        item("a.png", Ok(Vec::from(&b"not a png at all"[..]))),
        item("b.png", Ok(png_bytes(&small_image()))),
    ];
    let plan = plan_batch(&items, "jpg", &s, &Vec::new());
    let results = finalize_batch(&plan, &all_done(2));
    assert!(!results[0].success);
    assert!(results[0].output_path.is_none());
    assert!(results[0].error.as_ref().unwrap().contains("decode"));
    assert!(results[1].success);
    assert_eq!(results[1].output_path.as_deref(), Some("out/b.jpg"));
    assert!(results[1].error.is_none());
    match &plan[1].action {
        ItemAction::WriteEncoded { bytes, file_name, .. } => {
            assert_eq!(file_name, "b.jpg");
            assert!(!bytes.is_empty());
            // The produced bytes are a JPEG bitstream, not the PNG input.
            assert_eq!(&bytes[..2], &[0xFF, 0xD8]);
            let out = image::load_from_memory(bytes).unwrap();
            assert_eq!(out.width(), 8);
            assert_eq!(out.height(), 8);
        }
        other => panic!("expected encoded bytes, got {:?}", other),
    }
}

#[test]
fn undecodable_heic_source_fails_with_decode_error() {
    // A HEIC payload the decoder does not understand: the item fails with a
    // decode error and plans no file.
    let mut heic = vec![0u8, 0, 0, 24];
    heic.extend_from_slice(b"ftypheic");
    heic.extend_from_slice(&[0u8; 32]);
    let s = settings(80, false);
    let items = vec![item("photo.heic", Ok(heic))];
    let plan = plan_batch(&items, "png", &s, &Vec::new());
    assert!(matches!(plan[0].action, ItemAction::Fail { .. }));
    let results = finalize_batch(&plan, &all_done(1));
    assert!(!results[0].success);
    assert!(results[0].output_path.is_none());
    assert!(results[0].error.as_ref().unwrap().contains("decode"));
}

#[test]
fn unsupported_target_fails_without_output() {
    let s = settings(80, false);
    let items = vec![item("a.png", Ok(png_bytes(&small_image())))];
    let plan = plan_batch(&items, "bmp", &s, &Vec::new());
    assert!(matches!(plan[0].action, ItemAction::Fail { .. }));
    let results = finalize_batch(&plan, &all_done(1));
    assert!(!results[0].success);
    assert!(results[0].output_path.is_none());
    assert_eq!(results[0].error.as_deref(), Some("Unsupported format: bmp"));
}

#[test]
fn heic_target_is_a_deliberate_gap() {
    let s = settings(80, false);
    let items = vec![item("a.png", Ok(png_bytes(&small_image())))];
    let plan = plan_batch(&items, "HEIC", &s, &Vec::new());
    let results = finalize_batch(&plan, &all_done(1));
    assert!(!results[0].success);
    assert_eq!(
        results[0].error.as_deref(),
        Some("Unsupported format: heic is not supported")
    );
}

#[test]
fn same_stem_items_get_numbered_names() {
    // The second item with the same stem sees the first one's planned name.
    let s = settings(80, false);
    let items = vec![
        item("one/photo.png", Ok(png_bytes(&small_image()))),
        item("two/photo.png", Ok(png_bytes(&small_image()))),
    ];
    let plan = plan_batch(&items, "jpg", &s, &Vec::new());
    match (&plan[0].action, &plan[1].action) {
        (
            ItemAction::WriteEncoded { file_name: n0, .. },
            ItemAction::WriteEncoded { file_name: n1, .. },
        ) => {
            assert_eq!(n0, "photo.jpg");
            assert_eq!(n1, "photo_1.jpg");
        }
        other => panic!("expected two encoded items, got {:?}", other),
    }
}

#[test]
fn existing_names_force_numbering() {
    let s = settings(80, false);
    let existing = vec![String::from("photo.jpg"), String::from("photo_1.jpg")];
    let items = vec![item("photo.png", Ok(png_bytes(&small_image())))];
    let plan = plan_batch(&items, "jpg", &s, &existing);
    match &plan[0].action {
        ItemAction::WriteEncoded { file_name, output_path, .. } => {
            assert_eq!(file_name, "photo_2.jpg");
            assert_eq!(output_path, "out/photo_2.jpg");
        }
        other => panic!("expected encoded bytes, got {:?}", other),
    }
}

#[test]
fn overwrite_reuses_default_name() {
    let mut s = settings(80, false);
    s.conflict_resolution = ConflictResolution::Overwrite;
    let existing = vec![String::from("photo.jpg")];
    let items = vec![item("photo.png", Ok(png_bytes(&small_image())))];
    let plan = plan_batch(&items, "jpg", &s, &existing);
    match &plan[0].action {
        ItemAction::WriteEncoded { file_name, .. } => assert_eq!(file_name, "photo.jpg"),
        other => panic!("expected encoded bytes, got {:?}", other),
    }
}

#[test]
fn lossless_png_round_trips_exactly() {
    let img = small_image();
    let s = settings(30, true);
    let items = vec![item("pic.bmp", Ok(png_bytes(&img)))];
    let plan = plan_batch(&items, "png", &s, &Vec::new());
    match &plan[0].action {
        ItemAction::WriteEncoded { bytes, .. } => {
            let out = image::load_from_memory(bytes).unwrap();
            assert_eq!(
                out.to_rgba8().into_raw(),
                image::DynamicImage::ImageRgb8(img).to_rgba8().into_raw()
            );
        }
        other => panic!("expected encoded bytes, got {:?}", other),
    }
}

#[test]
fn lossless_webp_round_trips_exactly() {
    let img = small_image();
    let s = settings(30, true);
    let items = vec![item("pic.png", Ok(png_bytes(&img)))];
    let plan = plan_batch(&items, "webp", &s, &Vec::new());
    match &plan[0].action {
        ItemAction::WriteEncoded { bytes, file_name, .. } => {
            assert_eq!(file_name, "pic.webp");
            let out = image::load_from_memory(bytes).unwrap();
            assert_eq!(
                out.to_rgba8().into_raw(),
                image::DynamicImage::ImageRgb8(img).to_rgba8().into_raw()
            );
        }
        other => panic!("expected encoded bytes, got {:?}", other),
    }
}

#[test]
fn round_trip_check_functions_agree() {
    let img = image::DynamicImage::ImageRgb8(small_image());
    let rgba = img.to_rgba8().into_raw();
    let back = imgconv::codec::reencode_lossless_png(&rgba, 8, 8).unwrap();
    assert_eq!(back.to_rgba8().into_raw(), rgba);

    let back2 = imgconv::codec::reencode_lossless_webp(&rgba, 8, 8).unwrap();
    assert_eq!(back2.to_rgba8().into_raw(), rgba);
}

#[test]
fn grayscale_source_round_trips_like_rgb() {
    // A grayscale source and an RGB source holding the same pixels have the
    // same RGBA expansion, and the lossless PNG path reproduces it for both.
    let gray = image::GrayImage::from_fn(8, 8, |x, y| image::Luma([(x * 7 + y * 23) as u8]));
    let dyn_gray = image::DynamicImage::ImageLuma8(gray);
    let expansion = dyn_gray.to_rgba8().into_raw();

    let mut cur = std::io::Cursor::new(Vec::new());
    dyn_gray.write_to(&mut cur, image::ImageFormat::Png).unwrap();
    let gray_png = cur.into_inner();

    let s = settings(50, true);
    let items = vec![item("gray.png", Ok(gray_png))];
    let plan = plan_batch(&items, "png", &s, &Vec::new());
    match &plan[0].action {
        ItemAction::WriteEncoded { bytes, .. } => {
            let out = image::load_from_memory(bytes).unwrap();
            assert_eq!(out.to_rgba8().into_raw(), expansion);
        }
        other => panic!("expected encoded bytes, got {:?}", other),
    }

    let back = imgconv::codec::reencode_lossless_png(&expansion, 8, 8).unwrap();
    assert_eq!(back.to_rgba8().into_raw(), expansion);
}

#[test]
fn lossless_webp_keeps_rgb_under_transparency() {
    // Fully transparent pixels keep their RGB values through the lossless
    // WebP round trip.
    let mut rgba = vec![0u8; 4 * 4 * 4];
    for (i, px) in rgba.chunks_mut(4).enumerate() {
        px[0] = (i * 17) as u8;
        px[1] = (i * 29) as u8;
        px[2] = (i * 43) as u8;
        px[3] = if i % 2 == 0 { 0 } else { 255 };
    }
    let back = imgconv::codec::reencode_lossless_webp(&rgba, 4, 4).unwrap();
    assert_eq!(back.to_rgba8().into_raw(), rgba);
}

#[test]
fn lossy_jpeg_diverges_on_noisy_input() {
    // The lossless fidelity law must not be expected of JPEG.
    let img = noisy_image();
    let s = settings(10, false);
    let items = vec![item("pic.png", Ok(png_bytes(&img)))];
    let plan = plan_batch(&items, "jpg", &s, &Vec::new());
    match &plan[0].action {
        ItemAction::WriteEncoded { bytes, .. } => {
            let out = image::load_from_memory(bytes).unwrap();
            assert_ne!(
                out.to_rgba8().into_raw(),
                image::DynamicImage::ImageRgb8(img).to_rgba8().into_raw()
            );
        }
        other => panic!("expected encoded bytes, got {:?}", other),
    }
}

#[test]
fn quantized_png_strategy_carries_the_pixels() {
    let img = small_image();
    let dynimg = image::DynamicImage::ImageRgb8(img.clone());
    let s = settings(80, false);
    let items = vec![item("pic.png", Ok(png_bytes(&img)))];
    let plan = plan_batch(&items, "png", &s, &Vec::new());
    match &plan[0].action {
        ItemAction::QuantizePng { rgba, width, height, max_colors, file_name, .. } => {
            assert_eq!(file_name, "pic.png");
            assert_eq!((*width, *height), (8, 8));
            assert_eq!(*max_colors, 96);
            assert_eq!(rgba, &dynimg.to_rgba8().into_raw());

            // Carry the strategy out the way the application would.
            let mut liq = imagequant::new();
            liq.set_max_colors(*max_colors).unwrap();
            let pixels: Vec<imagequant::RGBA> = rgba
                .chunks(4)
                .map(|p| imagequant::RGBA::new(p[0], p[1], p[2], p[3]))
                .collect();
            let mut qimg = liq
                .new_image(pixels, *width as usize, *height as usize, 0.0)
                .unwrap();
            let mut res = liq.quantize(&mut qimg).unwrap();
            res.set_dithering_level(0.5).unwrap();
            let (palette, indices) = res.remapped(&mut qimg).unwrap();
            let pal: Vec<PaletteColor> = palette
                .iter()
                .map(|c| PaletteColor { r: c.r, g: c.g, b: c.b, a: c.a })
                .collect();
            let rgb = expand_palette(&pal, &indices).unwrap();
            assert_eq!(rgb.len(), indices.len() * 3);
            let bytes = encode_rgb_png(&rgb, *width, *height).unwrap();
            let out = image::load_from_memory(&bytes).unwrap();
            assert_eq!((out.width(), out.height()), (8, 8));
        }
        other => panic!("expected the quantize strategy, got {:?}", other),
    }
}

#[test]
fn expand_palette_expands_and_rejects() {
    let pal = vec![
        PaletteColor { r: 1, g: 2, b: 3, a: 255 },
        PaletteColor { r: 9, g: 8, b: 7, a: 255 },
    ];
    let rgb = expand_palette(&pal, &vec![0, 1, 1]).unwrap();
    assert_eq!(rgb, vec![1, 2, 3, 9, 8, 7, 9, 8, 7]);
    // An index outside the palette is refused.
    assert!(expand_palette(&pal, &vec![0, 2]).is_none());
}

#[test]
fn lossy_webp_strategy_carries_quality() {
    let img = small_image();
    let s = settings(42, false);
    let items = vec![item("pic.png", Ok(png_bytes(&img)))];
    let plan = plan_batch(&items, "webp", &s, &Vec::new());
    match &plan[0].action {
        ItemAction::EncodeWebpLossy { rgba, width, height, quality, .. } => {
            assert_eq!(*quality, 42);
            assert_eq!((*width, *height), (8, 8));
            // Carry the strategy out the way the application would.
            let bytes = webpx::Encoder::new_rgba(rgba, *width, *height)
                .quality(*quality as f32)
                .encode(webpx::Unstoppable)
                .unwrap();
            let out = image::load_from_memory(&bytes).unwrap();
            assert_eq!((out.width(), out.height()), (8, 8));
        }
        other => panic!("expected the lossy WebP strategy, got {:?}", other),
    }
}

#[test]
fn avif_target_produces_an_avif_container() {
    let img = small_image();
    let s = settings(50, false);
    let items = vec![item("pic.png", Ok(png_bytes(&img)))];
    let plan = plan_batch(&items, "avif", &s, &Vec::new());
    match &plan[0].action {
        ItemAction::WriteEncoded { bytes, file_name, .. } => {
            assert_eq!(file_name, "pic.avif");
            assert!(bytes.len() > 12);
            assert_eq!(&bytes[4..8], b"ftyp");
        }
        other => panic!("expected encoded bytes, got {:?}", other),
    }
}

#[test]
fn empty_batch_gives_empty_results() {
    let s = settings(80, false);
    let plan = plan_batch(&Vec::new(), "jpg", &s, &Vec::new());
    assert_eq!(plan.len(), 0);
    let results = finalize_batch(&plan, &Vec::new());
    assert_eq!(results.len(), 0);
}

#[test]
fn lossless_flag_has_no_effect_on_jpeg() {
    // JPEG has no lossless path; the flag is ignored.
    let s = settings(80, true);
    let items = vec![item("pic.png", Ok(png_bytes(&small_image())))];
    let plan = plan_batch(&items, "jpg", &s, &Vec::new());
    match &plan[0].action {
        ItemAction::WriteEncoded { bytes, file_name, .. } => {
            assert_eq!(file_name, "pic.jpg");
            assert_eq!(&bytes[..2], &[0xFF, 0xD8]);
        }
        other => panic!("expected encoded bytes, got {:?}", other),
    }
}

#[test]
fn lossless_avif_still_encodes() {
    let s = settings(10, true);
    let items = vec![item("pic.png", Ok(png_bytes(&small_image())))];
    let plan = plan_batch(&items, "avif", &s, &Vec::new());
    match &plan[0].action {
        ItemAction::WriteEncoded { bytes, .. } => {
            assert_eq!(&bytes[4..8], b"ftyp");
        }
        other => panic!("expected encoded bytes, got {:?}", other),
    }
}

#[test]
fn write_failure_turns_into_a_failed_result() {
    let s = settings(80, false);
    let items = vec![item("a.png", Ok(png_bytes(&small_image())))];
    let plan = plan_batch(&items, "jpg", &s, &Vec::new());
    let outcomes = vec![WriteOutcome::Failed { detail: String::from("disk full") }];
    let results = finalize_batch(&plan, &outcomes);
    assert!(!results[0].success);
    assert!(results[0].output_path.is_none());
    assert_eq!(
        results[0].error.as_deref(),
        Some("Failed to write output: disk full")
    );
}

#[test]
fn failed_plan_ignores_write_outcome() {
    let plan: Vec<PlannedItem> = {
        let s = settings(80, false);
        let items = vec![item("a.png", Err(String::from("no such file")))];
        plan_batch(&items, "jpg", &s, &Vec::new())
    };
    let results = finalize_batch(&plan, &vec![WriteOutcome::Done]);
    assert!(!results[0].success);
    assert_eq!(
        results[0].error.as_deref(),
        Some("Failed to decode image: no such file")
    );
}

#[test]
fn mime_detection_from_content() {
    let png = png_bytes(&small_image());
    assert_eq!(imgconv::metadata::mime_type_for(&png), "image/png");
    let garbage = Vec::from(&b"certainly not an image"[..]);
    assert_eq!(
        imgconv::metadata::mime_type_for(&garbage),
        "application/octet-stream"
    );
}
