//! The per-item conversion pipeline and the batch orchestration.
//!
//! An item is planned from plain values: the bytes read from the source
//! file, the target-format string, the settings, and the names already
//! present in the destination directory.  The plan either fails the item
//! with a descriptive error, carries finished bytes to write, or — for the
//! two strategies whose encoders take fractional parameters the library
//! does not hold — hands the caller the exact pixel data and knobs to run
//! the encoder with.  Writing the planned files, and reporting each write's
//! outcome back, is the caller's part; the result records are then
//! assembled here.

use vstd::prelude::*;
use crate::codec::{
    avif_encoding, decode_image_bytes, encode_avif, encode_jpeg, encode_png_lossless,
    encode_webp_lossless, image_decoded, image_dimensions, image_model, jpeg_encoding,
    png_lossless_encoding, rgba_bytes, webp_lossless_encoding, ImageModel,
};
use crate::format::{
    extension_of, palette_colors, parse_target_format, spec_extension, spec_target_format,
    TargetFormat,
};
use crate::paths::{resolve_output_name, resolved_name_ok, source_stem, spec_stem_or_default};
use crate::settings::{ConversionResult, ConversionSettings};

verus! {

/// Why one item of a batch failed.  Each variant carries what its message
/// needs; the batch as a whole never fails.
#[derive(Clone, Debug)]
pub enum ConvertError {
    /// The source could not be read or its bytes are not a decodable image.
    Decode { detail: String },
    /// The requested target format is outside the closed set.
    UnsupportedFormat { requested: String },
    /// HEIC is recognised but deliberately not supported.
    HeicUnsupported,
    /// The encoder rejected the pixel buffer.
    Encode { detail: String },
}

/// The message surfaced in the result record for each failure.
pub open spec fn spec_message(e: ConvertError) -> Seq<char> {
    match e {
        ConvertError::Decode { detail } => "Failed to decode image: "@ + detail@,
        ConvertError::UnsupportedFormat { requested } => "Unsupported format: "@ + requested@,
        ConvertError::HeicUnsupported => "Unsupported format: heic is not supported"@,
        ConvertError::Encode { detail } => "Failed to encode image: "@ + detail@,
    }
}

impl ConvertError {
    /// Renders the failure as the human-readable message of the result
    /// record.
    pub fn message(&self) -> (r: String)
        ensures
            r@ == spec_message(*self),
    {
        match self {
            ConvertError::Decode { detail } => {
                let mut s = String::from_str("Failed to decode image: ");
                s.append(detail.as_str());
                s
            },
            ConvertError::UnsupportedFormat { requested } => {
                let mut s = String::from_str("Unsupported format: ");
                s.append(requested.as_str());
                s
            },
            ConvertError::HeicUnsupported => String::from_str(
                "Unsupported format: heic is not supported",
            ),
            ConvertError::Encode { detail } => {
                let mut s = String::from_str("Failed to encode image: ");
                s.append(detail.as_str());
                s
            },
        }
    }
}

/// What is to happen for one planned item.
#[derive(Clone, Debug)]
pub enum ItemAction {
    /// The item failed; nothing is written.
    Fail { error: ConvertError },
    /// Finished bytes, to be written to `output_path`.
    WriteEncoded { file_name: String, output_path: String, bytes: Vec<u8> },
    /// The pseudo-lossy PNG strategy: the caller quantizes the RGBA pixels
    /// to at most `max_colors` colours, expands the palette through
    /// `expand_palette`, encodes through `encode_rgb_png`, and writes.
    QuantizePng {
        file_name: String,
        output_path: String,
        rgba: Vec<u8>,
        width: u32,
        height: u32,
        max_colors: u32,
    },
    /// The lossy WebP strategy: the caller runs the WebP encoder at
    /// `quality` over the RGBA pixels and writes.
    EncodeWebpLossy {
        file_name: String,
        output_path: String,
        rgba: Vec<u8>,
        width: u32,
        height: u32,
        quality: u8,
    },
}

/// One planned item: the echoed source path and what is to happen.
#[derive(Clone, Debug)]
pub struct PlannedItem {
    pub source_path: String,
    pub action: ItemAction,
}

/// `dir` and `name` joined with a single separator.
pub open spec fn joined_path(dir: Seq<char>, name: Seq<char>) -> Seq<char> {
    if dir.len() == 0 {
        name
    } else if dir.last() == '/' {
        dir + name
    } else {
        dir + "/"@ + name
    }
}

/// Joins the destination directory and a file name.
pub fn join_path(dir: &str, name: &str) -> (r: String)
    ensures
        r@ == joined_path(dir@, name@),
{
    let dlen = dir.unicode_len();
    if dlen == 0 {
        return String::from_str(name);
    }
    let mut s = String::from_str(dir);
    if dir.get_char(dlen - 1) != '/' {
        s.append("/");
    }
    s.append(name);
    s
}

/// The encoding step of the plan, as a relation between the chosen format,
/// the settings, the decoded image's model, the resolved name, and the
/// action taken.
pub open spec fn encode_step_ok(
    f: TargetFormat,
    settings: ConversionSettings,
    m: ImageModel,
    name: Seq<char>,
    out_path: Seq<char>,
    action: ItemAction,
) -> bool {
    match f {
        TargetFormat::Jpg => match jpeg_encoding(m, settings.quality) {
            Some(b) => action matches ItemAction::WriteEncoded { file_name, output_path, bytes }
                && file_name@ == name && output_path@ == out_path && bytes@ == b && bytes@.len()
                > 0,
            None => action matches ItemAction::Fail { error }
                && error matches ConvertError::Encode { .. },
        },
        TargetFormat::Png => if settings.lossless {
            match png_lossless_encoding(m.2, m.0, m.1) {
                Some(b) => action matches ItemAction::WriteEncoded {
                    file_name,
                    output_path,
                    bytes,
                } && file_name@ == name && output_path@ == out_path && bytes@ == b && bytes@.len()
                    > 0,
                None => action matches ItemAction::Fail { error }
                    && error matches ConvertError::Encode { .. },
            }
        } else {
            action matches ItemAction::QuantizePng {
                file_name,
                output_path,
                rgba,
                width,
                height,
                max_colors,
            } && file_name@ == name && output_path@ == out_path && rgba@ == m.2 && width == m.0
                && height == m.1 && max_colors == palette_colors(settings.quality)
        },
        TargetFormat::Webp => if settings.lossless {
            match webp_lossless_encoding(m.2, m.0, m.1) {
                Some(b) => action matches ItemAction::WriteEncoded {
                    file_name,
                    output_path,
                    bytes,
                } && file_name@ == name && output_path@ == out_path && bytes@ == b && bytes@.len()
                    > 0,
                None => action matches ItemAction::Fail { error }
                    && error matches ConvertError::Encode { .. },
            }
        } else {
            action matches ItemAction::EncodeWebpLossy {
                file_name,
                output_path,
                rgba,
                width,
                height,
                quality,
            } && file_name@ == name && output_path@ == out_path && rgba@ == m.2 && width == m.0
                && height == m.1 && quality == settings.quality
        },
        TargetFormat::Avif => match avif_encoding(m.2, m.0, m.1, avif_quality(settings)) {
            Some(b) => action matches ItemAction::WriteEncoded { file_name, output_path, bytes }
                && file_name@ == name && output_path@ == out_path && bytes@ == b && bytes@.len()
                > 0,
            None => action matches ItemAction::Fail { error }
                && error matches ConvertError::Encode { .. },
        },
        TargetFormat::Heic => action matches ItemAction::Fail { error }
            && error is HeicUnsupported,
    }
}

/// The quality handed to the AVIF encoder: 100 for a lossless request, the
/// quality knob clamped into 1..=100 otherwise, so a zero never reaches the
/// encoder.
pub open spec fn avif_quality(settings: ConversionSettings) -> u8 {
    if settings.lossless {
        100
    } else if settings.quality < 1 {
        1
    } else if settings.quality > 100 {
        100
    } else {
        settings.quality
    }
}

/// The name-resolution and encoding tail of the plan: the correctly
/// resolved name was used, and the chosen strategy was carried out for it.
pub open spec fn resolution_step_ok(
    f: TargetFormat,
    settings: ConversionSettings,
    stem: Seq<char>,
    taken: Seq<String>,
    m: ImageModel,
    action: ItemAction,
) -> bool {
    exists|name: Seq<char>|
        #[trigger] resolved_name_ok(settings, stem, spec_extension(f), taken, name)
            && encode_step_ok(
            f,
            settings,
            m,
            name,
            joined_path(settings.output_path@, name),
            action,
        )
}

/// What `plan_item` promises of the action it returns, for every input.
pub open spec fn planned_action_ok(
    data: Result<Vec<u8>, String>,
    target: Seq<char>,
    settings: ConversionSettings,
    taken: Seq<String>,
    stem: Seq<char>,
    action: ItemAction,
) -> bool {
    match data {
        Result::Err(e) => action matches ItemAction::Fail { error }
            && error matches ConvertError::Decode { detail } && detail@ == e@,
        Result::Ok(bytes) => match image_decoded(bytes@) {
            None => action matches ItemAction::Fail { error }
                && error matches ConvertError::Decode { .. },
            Some(m) => match spec_target_format(target) {
                None => action matches ItemAction::Fail { error }
                    && error matches ConvertError::UnsupportedFormat { requested }
                    && requested@ == target,
                Some(TargetFormat::Heic) => action matches ItemAction::Fail { error }
                    && error is HeicUnsupported,
                Some(f) => resolution_step_ok(f, settings, stem, taken, m, action),
            },
        },
    }
}

/// Plans one item: decodes the bytes, dispatches on the target format,
/// resolves the output name against `taken`, and selects the encoding
/// strategy.  Every failure is caught and returned as a failing action;
/// nothing panics and nothing escapes the item.
pub fn plan_item(
    source_path: &String,
    data: &Result<Vec<u8>, String>,
    target: &str,
    settings: &ConversionSettings,
    taken: &Vec<String>,
) -> (r: PlannedItem)
    requires
        settings.valid(),
        taken@.len() < usize::MAX,
    ensures
        r.source_path@ == source_path@,
        planned_action_ok(
            *data,
            target@,
            *settings,
            taken@,
            spec_stem_or_default(source_path@),
            r.action,
        ),
{
    let action = plan_action(source_path, data, target, settings, taken);
    PlannedItem { source_path: source_path.clone(), action }
}

fn plan_action(
    source_path: &String,
    data: &Result<Vec<u8>, String>,
    target: &str,
    settings: &ConversionSettings,
    taken: &Vec<String>,
) -> (action: ItemAction)
    requires
        settings.valid(),
        taken@.len() < usize::MAX,
    ensures
        planned_action_ok(
            *data,
            target@,
            *settings,
            taken@,
            spec_stem_or_default(source_path@),
            action,
        ),
{
    let bytes = match data {
        Result::Ok(b) => b,
        Result::Err(e) => {
            return ItemAction::Fail { error: ConvertError::Decode { detail: e.clone() } };
        },
    };
    let img = match decode_image_bytes(bytes) {
        Ok(img) => img,
        Err(detail) => {
            return ItemAction::Fail { error: ConvertError::Decode { detail } };
        },
    };
    let f = match parse_target_format(target) {
        Some(f) => f,
        None => {
            return ItemAction::Fail {
                error: ConvertError::UnsupportedFormat { requested: String::from_str(target) },
            };
        },
    };
    if f == TargetFormat::Heic {
        return ItemAction::Fail { error: ConvertError::HeicUnsupported };
    }
    let ext = extension_of(f);
    let stem = source_stem(source_path.as_str());
    let name = resolve_output_name(settings, stem.as_str(), ext, taken);
    let out_path = join_path(settings.output_path.as_str(), name.as_str());
    encode_action(&img, f, settings, name, out_path)
}

/// Runs the encoding strategy chosen for `f` under `settings`.
fn encode_action(
    img: &image::DynamicImage,
    f: TargetFormat,
    settings: &ConversionSettings,
    name: String,
    out_path: String,
) -> (action: ItemAction)
    requires
        settings.valid(),
        f != TargetFormat::Heic,
    ensures
        encode_step_ok(f, *settings, image_model(*img), name@, out_path@, action),
{
    if f == TargetFormat::Jpg {
        match encode_jpeg(img, settings.quality) {
            Ok(bytes) => ItemAction::WriteEncoded { file_name: name, output_path: out_path, bytes },
            Err(detail) => ItemAction::Fail { error: ConvertError::Encode { detail } },
        }
    } else if f == TargetFormat::Png {
        let dims = image_dimensions(img);
        let rgba = rgba_bytes(img);
        if settings.lossless {
            match encode_png_lossless(&rgba, dims.0, dims.1) {
                Ok(bytes) => ItemAction::WriteEncoded {
                    file_name: name,
                    output_path: out_path,
                    bytes,
                },
                Err(detail) => ItemAction::Fail { error: ConvertError::Encode { detail } },
            }
        } else {
            ItemAction::QuantizePng {
                file_name: name,
                output_path: out_path,
                rgba,
                width: dims.0,
                height: dims.1,
                max_colors: crate::format::palette_colors_exec(settings.quality),
            }
        }
    } else if f == TargetFormat::Webp {
        let dims = image_dimensions(img);
        let rgba = rgba_bytes(img);
        if settings.lossless {
            match encode_webp_lossless(&rgba, dims.0, dims.1) {
                Ok(bytes) => ItemAction::WriteEncoded {
                    file_name: name,
                    output_path: out_path,
                    bytes,
                },
                Err(detail) => ItemAction::Fail { error: ConvertError::Encode { detail } },
            }
        } else {
            ItemAction::EncodeWebpLossy {
                file_name: name,
                output_path: out_path,
                rgba,
                width: dims.0,
                height: dims.1,
                quality: settings.quality,
            }
        }
    } else {
        let q: u8 = if settings.lossless {
            100
        } else if settings.quality < 1 {
            1
        } else {
            settings.quality
        };
        let dims = image_dimensions(img);
        let rgba = rgba_bytes(img);
        match encode_avif(&rgba, dims.0, dims.1, q) {
            Ok(bytes) => ItemAction::WriteEncoded { file_name: name, output_path: out_path, bytes },
            Err(detail) => ItemAction::Fail { error: ConvertError::Encode { detail } },
        }
    }
}

/// The lossless flag has no effect on the JPEG strategy: two plans for the
/// same image and name, under settings differing at most in the flag but
/// agreeing on the quality, both succeed with the same bytes or both fail.
pub proof fn lemma_jpeg_ignores_lossless(
    s1: ConversionSettings,
    s2: ConversionSettings,
    m: ImageModel,
    name: Seq<char>,
    out_path: Seq<char>,
    a1: ItemAction,
    a2: ItemAction,
)
    requires
        s1.quality == s2.quality,
        encode_step_ok(TargetFormat::Jpg, s1, m, name, out_path, a1),
        encode_step_ok(TargetFormat::Jpg, s2, m, name, out_path, a2),
    ensures
        a1 matches ItemAction::WriteEncoded { bytes: b1, .. } ==> (a2
            matches ItemAction::WriteEncoded { bytes: b2, .. } && b1@ == b2@),
        a2 matches ItemAction::WriteEncoded { .. } ==> a1 matches ItemAction::WriteEncoded { .. },
{
}

/// One input of a batch: the source path and the outcome of reading it.
pub struct BatchItem {
    pub source_path: String,
    /// The bytes of the source file, or the error reading it gave.
    pub data: Result<Vec<u8>, String>,
}

/// The file name an action will create, if any.
pub open spec fn action_file_name(a: ItemAction) -> Option<String> {
    match a {
        ItemAction::Fail { .. } => None,
        ItemAction::WriteEncoded { file_name, .. } => Some(file_name),
        ItemAction::QuantizePng { file_name, .. } => Some(file_name),
        ItemAction::EncodeWebpLossy { file_name, .. } => Some(file_name),
    }
}

/// The full output path an action writes to; empty for a failed item.
pub open spec fn action_output_path(a: ItemAction) -> Seq<char> {
    match a {
        ItemAction::Fail { .. } => Seq::empty(),
        ItemAction::WriteEncoded { output_path, .. } => output_path@,
        ItemAction::QuantizePng { output_path, .. } => output_path@,
        ItemAction::EncodeWebpLossy { output_path, .. } => output_path@,
    }
}

/// The names occupied after the planned items have been carried out: the
/// names already present plus each planned file name, in order.
pub open spec fn taken_after(existing: Seq<String>, plan: Seq<PlannedItem>) -> Seq<String>
    decreases plan.len(),
{
    if plan.len() == 0 {
        existing
    } else {
        let prev = taken_after(existing, plan.drop_last());
        match action_file_name(plan.last().action) {
            Some(n) => prev.push(n),
            None => prev,
        }
    }
}

proof fn lemma_taken_after_len(existing: Seq<String>, plan: Seq<PlannedItem>)
    ensures
        taken_after(existing, plan).len() <= existing.len() + plan.len(),
    decreases plan.len(),
{
    if plan.len() > 0 {
        lemma_taken_after_len(existing, plan.drop_last());
    }
}

/// Plans a whole batch: one planned item per input, in order, each planned
/// against the names the earlier items will already have claimed.  No
/// item's failure touches any other item.
pub fn plan_batch(
    items: &Vec<BatchItem>,
    target: &str,
    settings: &ConversionSettings,
    existing: &Vec<String>,
) -> (r: Vec<PlannedItem>)
    requires
        settings.valid(),
        existing@.len() + items@.len() < usize::MAX,
    ensures
        r@.len() == items@.len(),
        forall|i: int| 0 <= i < items@.len() ==> r@[i].source_path@ == items@[i].source_path@,
        forall|i: int|
            0 <= i < items@.len() ==> planned_action_ok(
                items@[i].data,
                target@,
                *settings,
                taken_after(existing@, r@.take(i)),
                spec_stem_or_default(items@[i].source_path@),
                r@[i].action,
            ),
{
    let mut taken = clone_names(existing);
    let mut out: Vec<PlannedItem> = Vec::new();
    let mut i: usize = 0;
    while i < items.len()
        invariant
            settings.valid(),
            existing@.len() + items@.len() < usize::MAX,
            i <= items@.len(),
            out@.len() == i,
            taken@ == taken_after(existing@, out@),
            taken@.len() <= existing@.len() + i,
            forall|j: int| 0 <= j < i ==> out@[j].source_path@ == items@[j].source_path@,
            forall|j: int|
                0 <= j < i ==> planned_action_ok(
                    items@[j].data,
                    target@,
                    *settings,
                    taken_after(existing@, out@.take(j)),
                    spec_stem_or_default(items@[j].source_path@),
                    out@[j].action,
                ),
        decreases items@.len() - i,
    {
        let ghost old_out = out@;
        let ghost old_taken = taken@;
        let item = &items[i];
        let planned = plan_item(&item.source_path, &item.data, target, settings, &taken);
        let new_name: Option<String> = match &planned.action {
            ItemAction::Fail { .. } => None,
            ItemAction::WriteEncoded { file_name, .. } => Some(file_name.clone()),
            ItemAction::QuantizePng { file_name, .. } => Some(file_name.clone()),
            ItemAction::EncodeWebpLossy { file_name, .. } => Some(file_name.clone()),
        };
        out.push(planned);
        match new_name {
            Some(n) => taken.push(n),
            None => {},
        }
        proof {
            assert(out@.drop_last() =~= old_out);
            assert(taken@ == taken_after(existing@, out@));
            lemma_taken_after_len(existing@, out@);
            assert(out@.take(i as int) =~= old_out);
            assert forall|j: int| 0 <= j < i implies out@.take(j) =~= old_out.take(j) by {}
        }
        i = i + 1;
    }
    proof {
        assert(out@.take(items@.len() as int) =~= out@);
    }
    out
}

/// Copies a list of names.
fn clone_names(v: &Vec<String>) -> (r: Vec<String>)
    ensures
        r@ =~= v@,
{
    let mut out: Vec<String> = Vec::new();
    let mut i: usize = 0;
    while i < v.len()
        invariant
            i <= v@.len(),
            out@.len() == i,
            forall|j: int| 0 <= j < i ==> out@[j] == v@[j],
        decreases v@.len() - i,
    {
        out.push(v[i].clone());
        i = i + 1;
    }
    out
}

/// How carrying out one planned action went, reported by the caller: the
/// planned file was written in full, or failed with a description.
pub enum WriteOutcome {
    Done,
    Failed { detail: String },
}

/// The message surfaced when writing a planned file failed.
pub open spec fn write_failure_message(detail: Seq<char>) -> Seq<char> {
    "Failed to write output: "@ + detail
}

/// How a result record must relate to its planned item and the reported
/// outcome of carrying it out.
pub open spec fn result_matches(p: PlannedItem, o: WriteOutcome, res: ConversionResult) -> bool {
    &&& res.source_path@ == p.source_path@
    &&& res.well_formed()
    &&& match p.action {
        ItemAction::Fail { error } => !res.success && (res.error matches Some(msg) && msg@
            == spec_message(error)),
        _ => match o {
            WriteOutcome::Done => res.success && (res.output_path matches Some(op) && op@
                == action_output_path(p.action)),
            WriteOutcome::Failed { detail } => !res.success && (res.error matches Some(msg) && msg@
                == write_failure_message(detail@)),
        },
    }
}

/// Builds the result record for one item from its plan and the reported
/// outcome of carrying the plan out.
pub fn finalize_item(planned: &PlannedItem, outcome: &WriteOutcome) -> (r: ConversionResult)
    ensures
        result_matches(*planned, *outcome, r),
{
    let source_path = planned.source_path.clone();
    match &planned.action {
        ItemAction::Fail { error } => ConversionResult {
            source_path,
            output_path: None,
            success: false,
            error: Some(error.message()),
        },
        action => {
            let out_path: String = match action {
                ItemAction::Fail { .. } => String::new(),
                ItemAction::WriteEncoded { output_path, .. } => output_path.clone(),
                ItemAction::QuantizePng { output_path, .. } => output_path.clone(),
                ItemAction::EncodeWebpLossy { output_path, .. } => output_path.clone(),
            };
            match outcome {
                WriteOutcome::Done => ConversionResult {
                    source_path,
                    output_path: Some(out_path),
                    success: true,
                    error: None,
                },
                WriteOutcome::Failed { detail } => {
                    let mut msg = String::from_str("Failed to write output: ");
                    msg.append(detail.as_str());
                    ConversionResult {
                        source_path,
                        output_path: None,
                        success: false,
                        error: Some(msg),
                    }
                },
            }
        },
    }
}

/// Assembles the batch's result list: one record per planned item, in
/// order, each echoing its source path.
pub fn finalize_batch(plan: &Vec<PlannedItem>, outcomes: &Vec<WriteOutcome>) -> (r: Vec<
    ConversionResult,
>)
    requires
        outcomes@.len() == plan@.len(),
    ensures
        r@.len() == plan@.len(),
        forall|i: int| 0 <= i < plan@.len() ==> result_matches(plan@[i], outcomes@[i], r@[i]),
{
    let mut out: Vec<ConversionResult> = Vec::new();
    let mut i: usize = 0;
    while i < plan.len()
        invariant
            outcomes@.len() == plan@.len(),
            i <= plan@.len(),
            out@.len() == i,
            forall|j: int| 0 <= j < i ==> result_matches(plan@[j], outcomes@[j], out@[j]),
        decreases plan@.len() - i,
    {
        let res = finalize_item(&plan[i], &outcomes[i]);
        out.push(res);
        i = i + 1;
    }
    out
}

/// An unsupported or unrecognised target format always fails the item:
/// whatever the source bytes held, the planned action writes nothing.
pub proof fn lemma_unsupported_target_fails(
    data: Result<Vec<u8>, String>,
    target: Seq<char>,
    settings: ConversionSettings,
    taken: Seq<String>,
    stem: Seq<char>,
    action: ItemAction,
)
    requires
        planned_action_ok(data, target, settings, taken, stem, action),
        spec_target_format(target) is None || spec_target_format(target) == Some(
            TargetFormat::Heic,
        ),
    ensures
        action matches ItemAction::Fail { .. },
        action_file_name(action) is None,
{
}

} // verus!
