//! The SVG scene's asset selection, and the decoding steps for its assets:
//! Brotli decompression of the downloaded file and premultiplication of the
//! raster images embedded in it.
use vstd::prelude::*;

use crate::scene_ids::ParamId;
use crate::text::{decimal, u64_to_decimal};

verus! {

/// Number of SVG assets the scene can show.
pub const SVG_ASSET_COUNT: usize = 3;

/// A downloadable SVG asset: its display name and its file name.
#[derive(Clone, Copy, Debug)]
pub struct SvgAssetDesc {
    pub name: &'static str,
    pub path: &'static str,
}

/// The asset at `index`, if there is one.
pub fn svg_asset(index: usize) -> (d: Option<SvgAssetDesc>)
    ensures
        d is Some <==> index < SVG_ASSET_COUNT,
        index == 0 ==> (d matches Some(a) && a.name@ == "Ghostscript Tiger"@ && a.path@
            == "Ghostscript_Tiger.svg.br"@),
        index == 1 ==> (d matches Some(a) && a.name@ == "Coat of Arms"@ && a.path@
            == "coat_of_arms.svg.br"@),
        index == 2 ==> (d matches Some(a) && a.name@ == "Heraldry"@ && a.path@
            == "heraldry.svg.br"@),
{
    match index {
        0 => Some(SvgAssetDesc { name: "Ghostscript Tiger", path: "Ghostscript_Tiger.svg.br" }),
        1 => Some(SvgAssetDesc { name: "Coat of Arms", path: "coat_of_arms.svg.br" }),
        2 => Some(SvgAssetDesc { name: "Heraldry", path: "heraldry.svg.br" }),
        _ => None,
    }
}

/// The benchmark scene that renders one of the SVG assets.
#[derive(Debug)]
pub struct SvgScene {
    pub selected: usize,
}

impl SvgScene {
    /// A scene showing the first asset; assets are fetched on demand.
    pub fn new() -> (s: SvgScene)
        ensures
            s.selected == 0,
    {
        SvgScene { selected: 0 }
    }

    /// Applies a parameter whose value has been converted to an index:
    /// the asset parameter selects an existing asset; anything else is ignored.
    pub fn set_param_index(&mut self, param: ParamId, index: usize)
        ensures
            final(self).selected == (if param == ParamId::SvgAsset && index < SVG_ASSET_COUNT {
                index
            } else {
                old(self).selected
            }),
    {
        if param == ParamId::SvgAsset {
            if index < SVG_ASSET_COUNT {
                self.selected = index;
            }
        }
    }
}

/// Every asset requested in `before` is still requested in `after`: no
/// operation makes an asset downloadable again, so each is fetched once.
pub open spec fn stays_requested(before: Seq<AssetLoad>, after: Seq<AssetLoad>) -> bool {
    &&& before.len() == after.len()
    &&& forall|i: int|
        0 <= i < before.len() && !(before[i] is NotLoaded) ==> !(#[trigger] after[i] is NotLoaded)
}

/// How far the download of one asset has got.
#[derive(Debug)]
pub enum AssetLoad {
    NotLoaded,
    /// The download has been started and has not finished.
    Loading,
    /// The asset has been downloaded and parsed; the page holds it.
    Ready,
    /// The download or the parsing failed with this message.
    Failed(String),
}

/// The download state of every asset, indexed like `svg_asset`. An asset is
/// downloaded on demand, once.
#[derive(Debug)]
pub struct AssetCache {
    pub states: Vec<AssetLoad>,
}

impl AssetCache {
    /// No asset downloaded yet.
    pub fn new() -> (c: AssetCache)
        ensures
            c.states@.len() == SVG_ASSET_COUNT,
            forall|i: int| 0 <= i < c.states@.len() ==> #[trigger] c.states@[i] is NotLoaded,
    {
        let states = vec![AssetLoad::NotLoaded, AssetLoad::NotLoaded, AssetLoad::NotLoaded];
        AssetCache { states }
    }

    /// Decides whether the page must start downloading asset `index` now: only
    /// an asset that has never been requested is; it is then marked loading.
    pub fn begin_loading(&mut self, index: usize) -> (start: bool)
        ensures
            stays_requested(old(self).states@, final(self).states@),
            start == (index < old(self).states@.len() && old(self).states@[index as int] is NotLoaded),
            start ==> final(self).states@ == old(self).states@.update(index as int, AssetLoad::Loading),
            !start ==> final(self).states@ == old(self).states@,
    {
        if index < self.states.len() {
            if let AssetLoad::NotLoaded = self.states[index] {
                self.states.set(index, AssetLoad::Loading);
                return true;
            }
        }
        false
    }

    /// Records the outcome of the download of asset `index`.
    pub fn finish_loading(&mut self, index: usize, result: Result<(), String>)
        requires
            index < old(self).states@.len(),
        ensures
            stays_requested(old(self).states@, final(self).states@),
            forall|i: int|
                0 <= i < old(self).states@.len() && i != index ==> #[trigger] final(self).states@[i]
                    == old(self).states@[i],
            match result {
                Ok(()) => final(self).states@[index as int] is Ready,
                Err(e) => final(self).states@[index as int] == AssetLoad::Failed(e),
            },
    {
        match result {
            Ok(()) => self.states.set(index, AssetLoad::Ready),
            Err(e) => self.states.set(index, AssetLoad::Failed(e)),
        }
    }

    /// Whether asset `index` can be rendered.
    pub fn is_ready(&self, index: usize) -> (r: bool)
        ensures
            r == (index < self.states@.len() && self.states@[index as int] is Ready),
    {
        index < self.states.len() && matches!(self.states[index], AssetLoad::Ready)
    }

    /// The failure of asset `index`, if its download failed.
    pub fn failure(&self, index: usize) -> (r: Option<&String>)
        ensures
            match r {
                Some(e) => index < self.states@.len() && self.states@[index as int]
                    == AssetLoad::Failed(*e),
                None => !(index < self.states@.len() && self.states@[index as int] is Failed),
            },
    {
        if index < self.states.len() {
            if let AssetLoad::Failed(e) = &self.states[index] {
                return Some(e);
            }
        }
        None
    }
}

/// The kind of one parsed SVG draw command; the page keeps its path,
/// transform, color and size.
#[derive(Clone, Copy, Debug, PartialEq, Eq)]
pub enum DrawKind {
    Fill,
    Stroke,
    PushClip,
    PopClip,
    Image { image_idx: usize },
}

/// One backend call of the SVG scene's frame; the index names the command
/// whose path, transform, paint or stroke the page passes.
#[derive(Clone, Copy, Debug, PartialEq, Eq)]
pub enum RenderCall {
    SetTransform(usize),
    SetPaint(usize),
    SetStroke(usize),
    FillPath(usize),
    StrokePath(usize),
    PushClipPath(usize),
    PopClipPath,
    FillImageRect(usize),
    ResetTransform,
}

/// The backend calls of command `i`: a fill sets its transform and paint and
/// fills; a stroke also sets its stroke style and strokes; a clip sets its
/// transform and pushes; an image whose decoded index exists is drawn as a
/// painted rectangle, and one whose index does not exist is skipped.
pub open spec fn command_calls(kind: DrawKind, i: usize, image_count: nat) -> Seq<RenderCall> {
    match kind {
        DrawKind::Fill => seq![
            RenderCall::SetTransform(i),
            RenderCall::SetPaint(i),
            RenderCall::FillPath(i),
        ],
        DrawKind::Stroke => seq![
            RenderCall::SetTransform(i),
            RenderCall::SetPaint(i),
            RenderCall::SetStroke(i),
            RenderCall::StrokePath(i),
        ],
        DrawKind::PushClip => seq![RenderCall::SetTransform(i), RenderCall::PushClipPath(i)],
        DrawKind::PopClip => seq![RenderCall::PopClipPath],
        DrawKind::Image { image_idx } => if image_idx < image_count {
            seq![RenderCall::SetTransform(i), RenderCall::SetPaint(i), RenderCall::FillImageRect(i)]
        } else {
            seq![]
        },
    }
}

/// The calls of all `cmds`, in order.
pub open spec fn commands_calls(cmds: Seq<DrawKind>, image_count: nat) -> Seq<RenderCall>
    decreases cmds.len(),
{
    if cmds.len() == 0 {
        seq![]
    } else {
        commands_calls(cmds.drop_last(), image_count) + command_calls(
            cmds.last(),
            (cmds.len() - 1) as usize,
            image_count,
        )
    }
}

/// A frame of the SVG scene: nothing until the asset is ready, then every
/// command's calls in order, and a final reset of the transform.
pub open spec fn spec_render_calls(ready: bool, cmds: Seq<DrawKind>, image_count: nat) -> Seq<
    RenderCall,
> {
    if !ready {
        seq![]
    } else {
        commands_calls(cmds, image_count).push(RenderCall::ResetTransform)
    }
}

/// The backend calls that render one frame of the SVG scene, given whether
/// the selected asset is ready, its draw commands and how many of its
/// embedded images were decoded.
pub fn render_calls(ready: bool, cmds: &Vec<DrawKind>, image_count: usize) -> (calls: Vec<RenderCall>)
    ensures
        calls@ == spec_render_calls(ready, cmds@, image_count as nat),
{
    let mut calls: Vec<RenderCall> = Vec::new();
    if !ready {
        return calls;
    }
    let mut i: usize = 0;
    while i < cmds.len()
        invariant
            i <= cmds@.len(),
            calls@ == commands_calls(cmds@.take(i as int), image_count as nat),
        decreases cmds@.len() - i,
    {
        let ghost before = calls@;
        match cmds[i] {
            DrawKind::Fill => {
                calls.push(RenderCall::SetTransform(i));
                calls.push(RenderCall::SetPaint(i));
                calls.push(RenderCall::FillPath(i));
            },
            DrawKind::Stroke => {
                calls.push(RenderCall::SetTransform(i));
                calls.push(RenderCall::SetPaint(i));
                calls.push(RenderCall::SetStroke(i));
                calls.push(RenderCall::StrokePath(i));
            },
            DrawKind::PushClip => {
                calls.push(RenderCall::SetTransform(i));
                calls.push(RenderCall::PushClipPath(i));
            },
            DrawKind::PopClip => {
                calls.push(RenderCall::PopClipPath);
            },
            DrawKind::Image { image_idx } => {
                if image_idx < image_count {
                    calls.push(RenderCall::SetTransform(i));
                    calls.push(RenderCall::SetPaint(i));
                    calls.push(RenderCall::FillImageRect(i));
                }
            },
        }
        proof {
            let t = cmds@.take(i + 1);
            assert(t.drop_last() =~= cmds@.take(i as int));
            assert(t.last() == cmds@[i as int]);
            assert(calls@ =~= before + command_calls(cmds@[i as int], i, image_count as nat));
        }
        i = i + 1;
    }
    assert(cmds@.take(cmds@.len() as int) =~= cmds@);
    calls.push(RenderCall::ResetTransform);
    calls
}

/// `base` with a trailing `/` added unless it already ends in one.
pub open spec fn spec_with_trailing_slash(base: Seq<char>) -> Seq<char> {
    if base.len() > 0 && base.last() == '/' {
        base
    } else {
        base + "/"@
    }
}

/// Makes a base URL end in `/`, so that asset file names can be appended.
pub fn with_trailing_slash(base: String) -> (r: String)
    ensures
        r@ == spec_with_trailing_slash(base@),
{
    let chars = crate::list_parse::chars_of(base.as_str());
    if chars.len() > 0 && chars[chars.len() - 1] == '/' {
        base
    } else {
        let mut r = base;
        r.append("/");
        r
    }
}

/// What Brotli decompression yields for `data`: the decompressed bytes or
/// the message of the read error.
pub uninterp spec fn brotli_decompression(data: Seq<u8>) -> Result<Seq<u8>, Seq<char>>;

/// Reads `brotli_decompressor::Decompressor::new` over `data` (4096-byte
/// buffer) to the end, turning an I/O error into its message. The contract
/// only names the outcome as a function of `data`.
#[verifier::external_body]
fn brotli_decompress(data: &[u8]) -> (r: Result<Vec<u8>, String>)
    ensures
        match r {
            Ok(bytes) => brotli_decompression(data@) == Ok::<Seq<u8>, Seq<char>>(bytes@),
            Err(e) => brotli_decompression(data@) == Err::<Seq<u8>, Seq<char>>(e@),
        },
{
    let mut decompressed = Vec::new();
    let mut decoder = brotli_decompressor::Decompressor::new(std::io::Cursor::new(data), 4096);
    std::io::Read::read_to_end(&mut decoder, &mut decompressed).map_err(|error| error.to_string())?;
    Ok(decompressed)
}

/// Decompresses a downloaded asset; a failure names the asset.
pub fn decompress_asset(name: &str, compressed: &[u8]) -> (r: Result<Vec<u8>, String>)
    ensures
        match brotli_decompression(compressed@) {
            Ok(bytes) => r matches Ok(v) && v@ == bytes,
            Err(e) => r matches Err(m) && m@ == "failed to decompress "@ + name@ + ": "@ + e,
        },
{
    match brotli_decompress(compressed) {
        Ok(bytes) => Ok(bytes),
        Err(error) => {
            let mut message = String::from_str("failed to decompress ");
            message.append(name);
            message.append(": ");
            message.append(error.as_str());
            Err(message)
        },
    }
}

/// The raster formats that SVG files embed.
#[derive(Clone, Copy, Debug, PartialEq, Eq)]
pub enum RasterFormat {
    Jpeg,
    Png,
    Gif,
    WebP,
}

/// What the `image` crate's decoder reports for `data` in `format`: the
/// decoded image's width and height, or the message of its error. Unlike the
/// pixels, these do not depend on which code path the decoder picks.
pub uninterp spec fn raster_decode_shape(data: Seq<u8>, format: RasterFormat) -> Result<
    (u32, u32),
    Seq<char>,
>;

/// Calls `image::load_from_memory_with_format`, then `DynamicImage::into_rgba8`,
/// `ImageBuffer::dimensions` and `ImageBuffer::into_raw`, turning an
/// `ImageError` into its message. The outcome's size or error message is
/// named by `raster_decode_shape` of the bytes and the format. On success the
/// raw buffer holds at least four bytes per pixel, as `ImageBuffer::from_raw`
/// requires of every buffer. Which pixels come out is left unsaid: some decoders pick their colour
/// conversion code by the machine's CPU features, so the same bytes need not
/// decode alike everywhere; nor does the contract rule out a panic of a
/// decoder on malformed input.
#[verifier::external_body]
fn decode_rgba8(data: &[u8], format: RasterFormat) -> (r: Result<(Vec<u8>, u32, u32), String>)
    ensures
        match r {
            Ok((raw, w, h)) => {
                &&& raster_decode_shape(data@, format) == Ok::<(u32, u32), Seq<char>>((w, h))
                &&& 4 * w * h <= raw@.len()
            },
            Err(e) => raster_decode_shape(data@, format) == Err::<(u32, u32), Seq<char>>(e@),
        },
{
    let format = match format {
        RasterFormat::Jpeg => image::ImageFormat::Jpeg,
        RasterFormat::Png => image::ImageFormat::Png,
        RasterFormat::Gif => image::ImageFormat::Gif,
        RasterFormat::WebP => image::ImageFormat::WebP,
    };
    let rgba = image::load_from_memory_with_format(data, format)
        .map_err(|error| error.to_string())?
        .into_rgba8();
    let (width, height) = rgba.dimensions();
    Ok((rgba.into_raw(), width, height))
}

/// A premultiplied RGBA8 pixel.
#[derive(Clone, Copy, Debug, PartialEq, Eq)]
pub struct PremulPixel {
    pub r: u8,
    pub g: u8,
    pub b: u8,
    pub a: u8,
}

/// A channel scaled by `alpha / 255`, rounded down.
pub open spec fn premultiply(channel: u8, alpha: u8) -> u8 {
    ((channel as int * alpha as int) / 255) as u8
}

/// The premultiplied pixel whose straight RGBA bytes start at `raw[4 * i]`.
pub open spec fn premultiplied_pixel(raw: Seq<u8>, i: int) -> PremulPixel {
    let a = raw[4 * i + 3];
    PremulPixel {
        r: premultiply(raw[4 * i], a),
        g: premultiply(raw[4 * i + 1], a),
        b: premultiply(raw[4 * i + 2], a),
        a,
    }
}

/// The alpha byte of the pixel starting at `raw[4 * i]`.
pub open spec fn alpha_at(raw: Seq<u8>, i: int) -> u8 {
    raw[4 * i + 3]
}

/// Some whole pixel of `raw` is not fully opaque.
pub open spec fn has_translucent_pixel(raw: Seq<u8>) -> bool {
    exists|i: int| 0 <= i < raw.len() / 4 && #[trigger] alpha_at(raw, i) != 255
}

/// A decoded raster image, premultiplied and ready to upload.
#[derive(Clone, Debug)]
pub struct DecodedImage {
    pub pixels: Vec<PremulPixel>,
    pub width: u16,
    pub height: u16,
    pub may_have_opacities: bool,
}

/// Premultiplies straight RGBA8 bytes, pixel by pixel (a trailing partial
/// pixel is ignored), and reports whether any pixel is translucent.
pub fn premultiply_pixels(raw: &Vec<u8>) -> (r: (Vec<PremulPixel>, bool))
    ensures
        r.0@.len() == raw@.len() / 4,
        forall|i: int| 0 <= i < r.0@.len() ==> #[trigger] r.0@[i] == premultiplied_pixel(raw@, i),
        r.1 == has_translucent_pixel(raw@),
{
    let count = raw.len() / 4;
    let mut pixels: Vec<PremulPixel> = Vec::new();
    let mut translucent = false;
    let mut i: usize = 0;
    while i < count
        invariant
            count == raw@.len() / 4,
            i <= count,
            pixels@.len() == i,
            forall|k: int| 0 <= k < i ==> #[trigger] pixels@[k] == premultiplied_pixel(raw@, k),
            translucent == exists|k: int| 0 <= k < i && #[trigger] alpha_at(raw@, k) != 255,
        decreases count - i,
    {
        assert(4 * i + 4 <= raw.len()) by (nonlinear_arith)
            requires
                i < count,
                count == raw.len() / 4,
        ;
        let r = raw[4 * i];
        let g = raw[4 * i + 1];
        let b = raw[4 * i + 2];
        let a = raw[4 * i + 3];
        if a != 255 {
            translucent = true;
        }
        let alpha = a as u16;
        assert(r as u16 * alpha <= 65025) by (nonlinear_arith)
            requires
                r <= 255,
                alpha <= 255,
        ;
        assert(g as u16 * alpha <= 65025) by (nonlinear_arith)
            requires
                g <= 255,
                alpha <= 255,
        ;
        assert(b as u16 * alpha <= 65025) by (nonlinear_arith)
            requires
                b <= 255,
                alpha <= 255,
        ;
        let pixel = PremulPixel {
            r: ((r as u16 * alpha) / 255) as u8,
            g: ((g as u16 * alpha) / 255) as u8,
            b: ((b as u16 * alpha) / 255) as u8,
            a,
        };
        pixels.push(pixel);
        proof {
            if translucent {
                if a != 255 {
                    assert(alpha_at(raw@, i as int) != 255);
                }
            }
        }
        i = i + 1;
    }
    (pixels, translucent)
}

/// The message for an embedded image dimension that does not fit in `u16`.
pub open spec fn dimension_message(prefix: Seq<char>, value: u32) -> Seq<char> {
    prefix + decimal(value as nat) + " exceeds u16::MAX"@
}

/// The views of a decoder outcome: raw RGBA bytes, width and height, or the message.
pub open spec fn decoded_view(d: Result<(Vec<u8>, u32, u32), String>) -> Result<
    (Seq<u8>, u32, u32),
    Seq<char>,
> {
    match d {
        Ok((raw, w, h)) => Ok((raw@, w, h)),
        Err(e) => Err(e@),
    }
}

/// `r` is what becomes of the decoder outcome `decoded`: a decoding error
/// is reported, a dimension over `u16::MAX` is refused, and otherwise the
/// pixels are premultiplied one by one.
pub open spec fn image_outcome(
    decoded: Result<(Seq<u8>, u32, u32), Seq<char>>,
    r: Result<DecodedImage, String>,
) -> bool {
    match decoded {
        Err(e) => r matches Err(m) && m@ == "failed to decode embedded SVG image: "@ + e,
        Ok((raw, w, h)) => if w > u16::MAX {
            r matches Err(m) && m@ == dimension_message("embedded SVG image width "@, w)
        } else if h > u16::MAX {
            r matches Err(m) && m@ == dimension_message("embedded SVG image height "@, h)
        } else {
            r matches Ok(img) && {
                &&& img.width == w
                &&& img.height == h
                &&& img.pixels@.len() == raw.len() / 4
                &&& forall|i: int|
                    0 <= i < img.pixels@.len() ==> #[trigger] img.pixels@[i]
                        == premultiplied_pixel(raw, i)
                &&& img.may_have_opacities == has_translucent_pixel(raw)
            }
        },
    }
}

/// The size or the error message of a decoder outcome.
pub open spec fn outcome_shape(d: Result<(Seq<u8>, u32, u32), Seq<char>>) -> Result<
    (u32, u32),
    Seq<char>,
> {
    match d {
        Ok((raw, w, h)) => Ok((w, h)),
        Err(e) => Err(e),
    }
}

/// Decodes a raster image embedded in an SVG file into premultiplied pixels.
/// The result is what `image_from_rgba8` makes of a decoder outcome for
/// `data` and `format`: one of the size or with the error message that the
/// decoder reports for them, with at least four bytes per pixel.
pub fn decode_raster_image(format: RasterFormat, data: &[u8]) -> (r: Result<DecodedImage, String>)
    ensures
        exists|d: Result<(Seq<u8>, u32, u32), Seq<char>>|
            {
                &&& outcome_shape(d) == raster_decode_shape(data@, format)
                &&& (d matches Ok((raw, w, h)) ==> 4 * w * h <= raw.len())
                &&& #[trigger] image_outcome(d, r)
            },
{
    let decoded = decode_rgba8(data, format);
    let ghost d = decoded_view(decoded);
    assert(outcome_shape(d) == raster_decode_shape(data@, format));
    let r = image_from_rgba8(decoded);
    assert(image_outcome(d, r));
    r
}

/// Turns a decoder outcome (raw RGBA bytes, width and height, or the
/// decoder's message) into a premultiplied image ready to upload.
pub fn image_from_rgba8(decoded: Result<(Vec<u8>, u32, u32), String>) -> (r: Result<
    DecodedImage,
    String,
>)
    ensures
        image_outcome(decoded_view(decoded), r),
{
    let (raw, width, height) = match decoded {
        Ok(decoded) => decoded,
        Err(error) => {
            let mut message = String::from_str("failed to decode embedded SVG image: ");
            message.append(error.as_str());
            return Err(message);
        },
    };
    if width > 65535 {
        let mut message = String::from_str("embedded SVG image width ");
        message.append(u64_to_decimal(width as u64).as_str());
        message.append(" exceeds u16::MAX");
        return Err(message);
    }
    if height > 65535 {
        let mut message = String::from_str("embedded SVG image height ");
        message.append(u64_to_decimal(height as u64).as_str());
        message.append(" exceeds u16::MAX");
        return Err(message);
    }
    let (pixels, may_have_opacities) = premultiply_pixels(&raw);
    Ok(DecodedImage { pixels, width: width as u16, height: height as u16, may_have_opacities })
}

} // verus!
