//! Target-format dispatch: the external format string is parsed once, at the
//! boundary, into a closed enum, and every later decision matches on that
//! enum.  The quality/lossless settings are turned into a concrete encoding
//! strategy here as well.

use vstd::prelude::*;
use crate::settings::ConversionSettings;

verus! {

/// The closed set of target formats the converter knows about.
///
/// `Heic` is recognised but deliberately unsupported: asking for it is a
/// permanent, descriptive error rather than a partial implementation.
#[derive(Clone, Copy, Debug, PartialEq, Eq, Structural)]
pub enum TargetFormat {
    Jpg,
    Png,
    Webp,
    Avif,
    Heic,
}

/// The code point of a character with ASCII upper case folded to lower case.
/// Case-insensitive comparison of format names compares these.
pub open spec fn lower_cp(c: char) -> int {
    if 65 <= c as int && c as int <= 90 {
        c as int + 32
    } else {
        c as int
    }
}

/// Two character sequences are equal up to ASCII case.
pub open spec fn seq_eq_ci(a: Seq<char>, b: Seq<char>) -> bool {
    a.len() == b.len() && forall|i: int| 0 <= i < a.len() ==> lower_cp(a[i]) == lower_cp(b[i])
}

/// What `parse_target_format` returns, as a function of the input characters:
/// `jpg` and `jpeg` both name JPEG; every comparison ignores ASCII case;
/// anything outside the closed set is `None`.
pub open spec fn spec_target_format(s: Seq<char>) -> Option<TargetFormat> {
    if seq_eq_ci(s, "jpg"@) || seq_eq_ci(s, "jpeg"@) {
        Some(TargetFormat::Jpg)
    } else if seq_eq_ci(s, "png"@) {
        Some(TargetFormat::Png)
    } else if seq_eq_ci(s, "webp"@) {
        Some(TargetFormat::Webp)
    } else if seq_eq_ci(s, "avif"@) {
        Some(TargetFormat::Avif)
    } else if seq_eq_ci(s, "heic"@) {
        Some(TargetFormat::Heic)
    } else {
        None
    }
}

/// The file extension written for each target format.
pub open spec fn spec_extension(f: TargetFormat) -> Seq<char> {
    match f {
        TargetFormat::Jpg => "jpg"@,
        TargetFormat::Png => "png"@,
        TargetFormat::Webp => "webp"@,
        TargetFormat::Avif => "avif"@,
        TargetFormat::Heic => "heic"@,
    }
}

/// ASCII-lowered code point of one character.
fn lower_cp_exec(c: char) -> (r: u32)
    ensures
        r == lower_cp(c),
{
    let u = c as u32;
    if 65 <= u && u <= 90 {
        u + 32
    } else {
        u
    }
}

/// Compares two strings for equality up to ASCII case.
fn str_eq_ci(a: &str, b: &str) -> (r: bool)
    ensures
        r == seq_eq_ci(a@, b@),
{
    let alen = a.unicode_len();
    let blen = b.unicode_len();
    if alen != blen {
        return false;
    }
    let mut i: usize = 0;
    while i < alen
        invariant
            alen == a@.len(),
            blen == b@.len(),
            alen == blen,
            i <= alen,
            forall|j: int| 0 <= j < i ==> lower_cp(a@[j]) == lower_cp(b@[j]),
        decreases alen - i,
    {
        let ca = a.get_char(i);
        let cb = b.get_char(i);
        if lower_cp_exec(ca) != lower_cp_exec(cb) {
            return false;
        }
        i = i + 1;
    }
    true
}

/// Parses the external format string into the closed enum, ignoring ASCII
/// case; `jpg` and `jpeg` both map to JPEG.  Unrecognised strings give `None`.
pub fn parse_target_format(s: &str) -> (r: Option<TargetFormat>)
    ensures
        r == spec_target_format(s@),
{
    if str_eq_ci(s, "jpg") || str_eq_ci(s, "jpeg") {
        Some(TargetFormat::Jpg)
    } else if str_eq_ci(s, "png") {
        Some(TargetFormat::Png)
    } else if str_eq_ci(s, "webp") {
        Some(TargetFormat::Webp)
    } else if str_eq_ci(s, "avif") {
        Some(TargetFormat::Avif)
    } else if str_eq_ci(s, "heic") {
        Some(TargetFormat::Heic)
    } else {
        None
    }
}

/// The palette size of the pseudo-lossy PNG strategy: `256 - 2 * quality`,
/// never below two colours.  Higher quality keeps more colours.
pub open spec fn palette_colors(q: u8) -> u32 {
    if 256 - 2 * (q as int) >= 2 {
        (256 - 2 * (q as int)) as u32
    } else {
        2
    }
}

/// Computes the palette size for the pseudo-lossy PNG strategy.
pub fn palette_colors_exec(q: u8) -> (r: u32)
    requires
        q <= 100,
    ensures
        r == palette_colors(q),
{
    256 - 2 * (q as u32)
}

/// The file extension written for a target format.
pub fn extension_of(f: TargetFormat) -> (r: &'static str)
    ensures
        r@ == spec_extension(f),
{
    match f {
        TargetFormat::Jpg => "jpg",
        TargetFormat::Png => "png",
        TargetFormat::Webp => "webp",
        TargetFormat::Avif => "avif",
        TargetFormat::Heic => "heic",
    }
}

} // verus!
