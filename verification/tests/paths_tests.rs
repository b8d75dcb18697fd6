use imgconv::decimal::u64_to_string;
use imgconv::convert::join_path;
use imgconv::paths::{make_default_name, make_numbered_name, resolve_output_name, source_stem};
use imgconv::settings::{ConflictResolution, ConversionSettings};

fn settings(policy: ConflictResolution, prefix: &str) -> ConversionSettings {
    ConversionSettings {
        output_path: String::from("out"),
        file_prefix: String::from(prefix),
        conflict_resolution: policy,
        quality: 80,
        lossless: false,
    }
}

#[test]
fn decimal_rendering() {
    assert_eq!(u64_to_string(0), "0");
    assert_eq!(u64_to_string(7), "7");
    assert_eq!(u64_to_string(10), "10");
    assert_eq!(u64_to_string(42), "42");
    assert_eq!(u64_to_string(1234567890123), "1234567890123");
}

#[test]
fn stem_of_ordinary_paths() {
    assert_eq!(source_stem("photo.heic"), "photo");
    assert_eq!(source_stem("/a/b/c.png"), "c");
    assert_eq!(source_stem("dir/picture.jpeg"), "picture");
    assert_eq!(source_stem("noext"), "noext");
}

#[test]
fn stem_edge_cases() {
    // Only a leading dot: a hidden file, not an extension.
    assert_eq!(source_stem(".bashrc"), ".bashrc");
    // Several dots: only the last one starts the extension.
    assert_eq!(source_stem("/tmp/c.tar.gz"), "c.tar");
    // Trailing dot gives an empty extension.
    assert_eq!(source_stem("a."), "a");
    // Trailing separators are ignored.
    assert_eq!(source_stem("some/dir/"), "dir");
    // No usable file name: fall back to the literal.
    assert_eq!(source_stem("/"), "image");
    assert_eq!(source_stem(""), "image");
    assert_eq!(source_stem(".."), "image");
    assert_eq!(source_stem("a/.."), "image");
}

#[test]
fn name_construction() {
    assert_eq!(make_default_name("pre_", "photo", "jpg"), "pre_photo.jpg");
    assert_eq!(make_default_name("", "photo", "webp"), "photo.webp");
    assert_eq!(make_numbered_name("pre_", "photo", 3, "jpg"), "pre_photo_3.jpg");
    assert_eq!(make_numbered_name("", "x", 12, "png"), "x_12.png");
}

#[test]
fn join_path_variants() {
    assert_eq!(join_path("out", "a.png"), "out/a.png");
    assert_eq!(join_path("out/", "a.png"), "out/a.png");
    assert_eq!(join_path("", "a.png"), "a.png");
}

#[test]
fn overwrite_keeps_default_name() {
    // Under Overwrite the default name is returned even when taken.
    let s = settings(ConflictResolution::Overwrite, "");
    let taken = vec![String::from("photo.png")];
    let r = resolve_output_name(&s, "photo", "png", &taken);
    assert_eq!(r, "photo.png");
}

#[test]
fn numbering_uses_default_when_free() {
    let s = settings(ConflictResolution::Numbering, "");
    let taken = vec![String::from("other.png")];
    let r = resolve_output_name(&s, "photo", "png", &taken);
    assert_eq!(r, "photo.png");
}

#[test]
fn numbering_picks_first_free_suffix() {
    let s = settings(ConflictResolution::Numbering, "");
    let taken = vec![String::from("photo.png")];
    let r = resolve_output_name(&s, "photo", "png", &taken);
    assert_eq!(r, "photo_1.png");

    let taken2 = vec![
        String::from("photo.png"),
        String::from("photo_1.png"),
        String::from("photo_2.png"),
    ];
    let r2 = resolve_output_name(&s, "photo", "png", &taken2);
    assert_eq!(r2, "photo_3.png");
}

#[test]
fn numbering_respects_prefix() {
    let s = settings(ConflictResolution::Numbering, "conv_");
    let taken = vec![String::from("conv_photo.jpg"), String::from("photo.jpg")];
    let r = resolve_output_name(&s, "photo", "jpg", &taken);
    assert_eq!(r, "conv_photo_1.jpg");
}

#[test]
fn numbering_always_terminates_within_the_cap() {
    // Even a directory listing made purely of candidate names leaves a
    // free candidate within one more than its length.
    let s = settings(ConflictResolution::Numbering, "");
    let taken = vec![
        String::from("p.png"),
        String::from("p_1.png"),
        String::from("p_2.png"),
        String::from("p_3.png"),
        String::from("p_4.png"),
    ];
    let r = resolve_output_name(&s, "p", "png", &taken);
    assert_eq!(r, "p_5.png");
}
