//! Encoding raw RGB8 / RGBA8 pixels as PNG for the encoding benchmark.
use vstd::prelude::*;

use crate::text::{decimal, u64_to_decimal};

verus! {

/// Deflate level of the low-compression variant that mirrors Chromium's canvas path.
pub const PNG_DEFLATE_LEVEL_1: u8 = 1;

/// Deflate level of the variant that avoids zlib-rs's fixed-Huffman level-1 path.
pub const PNG_DEFLATE_LEVEL_2: u8 = 2;

/// How the encoder compresses.
#[derive(Clone, Copy, Debug, PartialEq, Eq)]
pub enum CompressionSettings {
    /// `png`'s balanced compression preset with adaptive row filtering.
    BalancedAdaptive,
    /// Deflate at the given level (1 to 9) with the `Up` row filter.
    LevelUp(u8),
}

/// The settings that a benchmark compression variant selects.
pub open spec fn spec_compression_settings(variant: u8) -> Option<CompressionSettings> {
    if variant == 0 {
        Some(CompressionSettings::BalancedAdaptive)
    } else if variant == 1 {
        Some(CompressionSettings::LevelUp(PNG_DEFLATE_LEVEL_1))
    } else if variant == 2 {
        Some(CompressionSettings::LevelUp(PNG_DEFLATE_LEVEL_2))
    } else {
        None
    }
}

/// The benchmark's compression variants are 0, 1 and 2, and each selects its
/// own encoder setting: variant 0 the balanced preset with adaptive
/// filtering, and a variant `v` above 0 deflate level `v` with the `Up`
/// filter (so variant 1 is `PNG_DEFLATE_LEVEL_1` and variant 2
/// `PNG_DEFLATE_LEVEL_2`). No two variants benchmark the same setting.
pub proof fn lemma_compression_variants(a: u8, b: u8)
    ensures
        spec_compression_settings(a) is Some <==> a < 3,
        a == 0 ==> spec_compression_settings(a) == Some(CompressionSettings::BalancedAdaptive),
        1 <= a < 3 ==> spec_compression_settings(a) == Some(CompressionSettings::LevelUp(a)),
        PNG_DEFLATE_LEVEL_1 == 1 && PNG_DEFLATE_LEVEL_2 == 2,
        a != b && a < 3 && b < 3 ==> spec_compression_settings(a) != spec_compression_settings(b),
{
}

/// Maps a compression variant of the benchmark page to encoder settings.
pub fn configure_compression(compression_variant: u8) -> (r: Result<CompressionSettings, String>)
    ensures
        match r {
            Ok(s) => spec_compression_settings(compression_variant) == Some(s),
            Err(e) => spec_compression_settings(compression_variant) is None && e@
                == "unknown PNG compression variant: "@ + decimal(compression_variant as nat),
        },
{
    match compression_variant {
        0 => Ok(CompressionSettings::BalancedAdaptive),
        1 => Ok(CompressionSettings::LevelUp(PNG_DEFLATE_LEVEL_1)),
        2 => Ok(CompressionSettings::LevelUp(PNG_DEFLATE_LEVEL_2)),
        _ => {
            let mut message = String::from_str("unknown PNG compression variant: ");
            message.append(u64_to_decimal(compression_variant as u64).as_str());
            Err(message)
        },
    }
}

/// What the `png` encoder produces for 8-bit pixels (RGBA when `has_alpha`,
/// else RGB) of a `width` × `height` image with the given settings: the
/// encoded file, or the message of the encoder's error.
pub uninterp spec fn png_encoding(
    pixels: Seq<u8>,
    width: u32,
    height: u32,
    has_alpha: bool,
    settings: CompressionSettings,
) -> Result<Seq<u8>, Seq<char>>;

/// Whether an encoder outcome is the one that `png_encoding` names.
pub open spec fn is_png_outcome(r: Result<Vec<u8>, String>, named: Result<Seq<u8>, Seq<char>>) -> bool {
    match r {
        Ok(bytes) => named == Ok::<Seq<u8>, Seq<char>>(bytes@),
        Err(e) => named == Err::<Seq<u8>, Seq<char>>(e@),
    }
}

/// Runs the `png` crate's encoder with its balanced compression preset and
/// adaptive row filtering: `Encoder::new` over an in-memory buffer,
/// `set_color` (RGBA or RGB), `set_depth(Eight)`,
/// `set_compression(Compression::Balanced)`, `set_filter(Filter::Adaptive)`,
/// then `write_header`, `Writer::write_image_data` and `Writer::finish`,
/// turning an `EncodingError` into its message. The contract only names the
/// outcome: it claims that the outcome is a function of the arguments. The
/// encoder multiplies out the image's byte size, so that size must fit in `usize`.
#[verifier::external_body]
fn png_encode_balanced(pixels: &[u8], width: u32, height: u32, has_alpha: bool) -> (r: Result<
    Vec<u8>,
    String,
>)
    requires
        width as int * height as int * channels(has_alpha) <= usize::MAX,
    ensures
        is_png_outcome(
            r,
            png_encoding(pixels@, width, height, has_alpha, CompressionSettings::BalancedAdaptive),
        ),
{
    let mut bytes = Vec::new();
    let mut encoder = png::Encoder::new(&mut bytes, width, height);
    encoder.set_color(if has_alpha { png::ColorType::Rgba } else { png::ColorType::Rgb });
    encoder.set_depth(png::BitDepth::Eight);
    encoder.set_compression(png::Compression::Balanced);
    encoder.set_filter(png::Filter::Adaptive);
    let mut writer = encoder.write_header().map_err(|e| e.to_string())?;
    writer.write_image_data(pixels).map_err(|e| e.to_string())?;
    writer.finish().map_err(|e| e.to_string())?;
    Ok(bytes)
}

/// Runs the `png` crate's encoder as `png_encode_balanced` does, but with
/// `set_deflate_compression(DeflateCompression::Level(level))` and
/// `set_filter(Filter::Up)`. The contract only names the outcome: it claims
/// that the outcome is a function of the arguments. The image's byte size
/// must fit in `usize`, and the deflate level must be one that the miniz
/// backend accepts (1 to 9).
#[verifier::external_body]
fn png_encode_level_up(pixels: &[u8], width: u32, height: u32, has_alpha: bool, level: u8) -> (r:
    Result<Vec<u8>, String>)
    requires
        width as int * height as int * channels(has_alpha) <= usize::MAX,
        1 <= level <= 9,
    ensures
        is_png_outcome(
            r,
            png_encoding(pixels@, width, height, has_alpha, CompressionSettings::LevelUp(level)),
        ),
{
    let mut bytes = Vec::new();
    let mut encoder = png::Encoder::new(&mut bytes, width, height);
    encoder.set_color(if has_alpha { png::ColorType::Rgba } else { png::ColorType::Rgb });
    encoder.set_depth(png::BitDepth::Eight);
    encoder.set_deflate_compression(png::DeflateCompression::Level(level));
    encoder.set_filter(png::Filter::Up);
    let mut writer = encoder.write_header().map_err(|e| e.to_string())?;
    writer.write_image_data(pixels).map_err(|e| e.to_string())?;
    writer.finish().map_err(|e| e.to_string())?;
    Ok(bytes)
}

/// Bytes per pixel.
pub open spec fn channels(has_alpha: bool) -> int {
    if has_alpha { 4 } else { 3 }
}

/// The message for a pixel buffer of the wrong length.
pub open spec fn length_message(expected: nat, has_alpha: bool, received: nat) -> Seq<char> {
    "expected "@ + decimal(expected) + (if has_alpha { " RGBA"@ } else { " RGB"@ })
        + " bytes, received "@ + decimal(received)
}

/// Encodes 8-bit RGB or RGBA pixels as PNG with the given benchmark
/// compression variant. The pixel buffer must hold exactly
/// `width * height * channels` bytes.
pub fn encode_pixels(
    pixels: &[u8],
    width: u32,
    height: u32,
    has_alpha: bool,
    compression_variant: u8,
) -> (r: Result<Vec<u8>, String>)
    requires
        width as int * height as int * channels(has_alpha) <= usize::MAX,
    ensures
        ({
            let expected = width as int * height as int * channels(has_alpha);
            if pixels@.len() != expected {
                r matches Err(e) && e@ == length_message(
                    expected as nat,
                    has_alpha,
                    pixels@.len(),
                )
            } else {
                match spec_compression_settings(compression_variant) {
                    None => r matches Err(e) && e@ == "unknown PNG compression variant: "@
                        + decimal(compression_variant as nat),
                    Some(settings) => is_png_outcome(
                        r,
                        png_encoding(pixels@, width, height, has_alpha, settings),
                    ),
                }
            }
        }),
{
    let channel_count: usize = if has_alpha { 4 } else { 3 };
    assert(width as int * height as int <= usize::MAX) by (nonlinear_arith)
        requires
            width as int * height as int * channels(has_alpha) <= usize::MAX,
            width >= 0,
            height >= 0,
    ;
    let expected_len = width as usize * height as usize * channel_count;
    if pixels.len() != expected_len {
        let mut message = String::from_str("expected ");
        message.append(u64_to_decimal(expected_len as u64).as_str());
        if has_alpha {
            message.append(" RGBA");
        } else {
            message.append(" RGB");
        }
        message.append(" bytes, received ");
        message.append(u64_to_decimal(pixels.len() as u64).as_str());
        return Err(message);
    }
    match configure_compression(compression_variant)? {
        CompressionSettings::BalancedAdaptive => png_encode_balanced(pixels, width, height, has_alpha),
        CompressionSettings::LevelUp(level) => png_encode_level_up(
            pixels,
            width,
            height,
            has_alpha,
            level,
        ),
    }
}

} // verus!
