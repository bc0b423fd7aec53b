//! The predefined benchmarks and the choice of calibration targets among them.
use vstd::prelude::*;

use crate::scene_ids::{ParamId, SceneId};
use crate::text::str_equals;

verus! {

broadcast use vstd::string::group_string_axioms;

/// The groups of benchmarks that share one calibrated shape count.
#[derive(Debug, Clone, Copy, PartialEq, Eq, Hash, Structural)]
pub enum ScaleGroup {
    Rects5,
    Rects50,
    Rects200,
    Images,
    StrokesLines3,
    StrokesLines20,
    StrokesQuads3,
    StrokesQuads20,
    StrokesCubics3,
    StrokesCubics20,
    FillsPolyline,
    ClipGlobal,
    ClipPerShape,
    Text8,
    Text24,
    Text60,
}

/// How a benchmark's shape count scales: the parameter that holds it, the
/// group it is calibrated with, and the count used without a calibration.
#[derive(Debug, Clone, Copy, PartialEq, Eq)]
pub struct BenchScale {
    pub param: ParamId,
    pub group: ScaleGroup,
    pub default_calibrated_value: usize,
}

/// A predefined benchmark with fixed parameters. Parameter values are whole
/// numbers; the scenes receive them as floating-point values.
#[derive(Debug)]
pub struct BenchDef {
    pub name: &'static str,
    pub description: &'static str,
    pub category: &'static str,
    pub scene_id: SceneId,
    pub scale: Option<BenchScale>,
    pub params: Vec<(ParamId, u32)>,
}

/// A scaled benchmark lists its count parameter first.
pub open spec fn count_param_first(d: BenchDef) -> bool {
    d.scale matches Some(s) ==> d.params@.len() > 0 && d.params@[0].0 == s.param
}

impl BenchDef {
    /// A benchmark whose first parameter is a shape count scaled with `group`.
    fn scaled(
        name: &'static str,
        description: &'static str,
        category: &'static str,
        scene_id: SceneId,
        group: ScaleGroup,
        default_calibrated_value: usize,
        params: Vec<(ParamId, u32)>,
    ) -> (d: BenchDef)
        requires
            params@.len() > 0,
        ensures
            d.name == name,
            d.description == description,
            d.category == category,
            d.scene_id == scene_id,
            d.scale == Some(BenchScale { param: params@[0].0, group, default_calibrated_value }),
            d.params@ == params@,
            count_param_first(d),
    {
        let param = params[0].0;
        BenchDef {
            name,
            description,
            category,
            scene_id,
            scale: Some(BenchScale { param, group, default_calibrated_value }),
            params,
        }
    }

    /// A benchmark that does not scale.
    fn fixed(
        name: &'static str,
        description: &'static str,
        category: &'static str,
        scene_id: SceneId,
        params: Vec<(ParamId, u32)>,
    ) -> (d: BenchDef)
        ensures
            d.name == name,
            d.description == description,
            d.category == category,
            d.scene_id == scene_id,
            d.scale is None,
            d.params@ == params@,
            count_param_first(d),
    {
        BenchDef { name, description, category, scene_id, scale: None, params }
    }
}

/// A benchmark definition with its texts as characters.
pub struct BenchDefView {
    pub name: Seq<char>,
    pub description: Seq<char>,
    pub category: Seq<char>,
    pub scene_id: SceneId,
    pub scale: Option<BenchScale>,
    pub params: Seq<(ParamId, u32)>,
}

impl View for BenchDef {
    type V = BenchDefView;

    open spec fn view(&self) -> BenchDefView {
        BenchDefView {
            name: self.name@,
            description: self.description@,
            category: self.category@,
            scene_id: self.scene_id,
            scale: self.scale,
            params: self.params@,
        }
    }
}

/// A definition whose first parameter is a shape count scaled with `group`.
pub open spec fn scaled_view(
    name: Seq<char>,
    description: Seq<char>,
    category: Seq<char>,
    scene_id: SceneId,
    group: ScaleGroup,
    default_calibrated_value: usize,
    params: Seq<(ParamId, u32)>,
) -> BenchDefView {
    BenchDefView {
        name,
        description,
        category,
        scene_id,
        scale: Some(BenchScale { param: params[0].0, group, default_calibrated_value }),
        params,
    }
}

/// A definition that does not scale.
pub open spec fn fixed_view(
    name: Seq<char>,
    description: Seq<char>,
    category: Seq<char>,
    scene_id: SceneId,
    params: Seq<(ParamId, u32)>,
) -> BenchDefView {
    BenchDefView { name, description, category, scene_id, scale: None, params }
}

/// The predefined benchmark at position `i` (`0 <= i < BENCH_DEF_COUNT`), in list order.
pub open spec fn spec_bench_def(i: int) -> BenchDefView {
    if i == 0 {
        scaled_view(
            "Rect - 5×5 - Solid"@,
            "rendering small semi-transparent rectangles"@,
            "Rects (alpha)"@,
            SceneId::Rect,
            ScaleGroup::Rects5,
            3_044_740,
            seq![(ParamId::NumRects, 3_044_740u32), (ParamId::RectSize, 5u32), (ParamId::PaintMode, 0u32), (ParamId::Rotated, 0u32), (ParamId::Opaque, 0u32)],
        )
    } else if i == 1 {
        scaled_view(
            "Rect - 50×50 - Solid"@,
            "rendering medium semi-transparent rectangles"@,
            "Rects (alpha)"@,
            SceneId::Rect,
            ScaleGroup::Rects50,
            1_012_253,
            seq![(ParamId::NumRects, 1_012_253u32), (ParamId::RectSize, 50u32), (ParamId::PaintMode, 0u32), (ParamId::Rotated, 0u32), (ParamId::Opaque, 0u32)],
        )
    } else if i == 2 {
        scaled_view(
            "Rect - 200×200 - Solid"@,
            "rendering large semi-transparent rectangles"@,
            "Rects (alpha)"@,
            SceneId::Rect,
            ScaleGroup::Rects200,
            68_803,
            seq![(ParamId::NumRects, 68_803u32), (ParamId::RectSize, 200u32), (ParamId::PaintMode, 0u32), (ParamId::Rotated, 0u32), (ParamId::Opaque, 0u32)],
        )
    } else if i == 3 {
        scaled_view(
            "Rect - 2x Overlap"@,
            "alpha rects, ~2x avg per-pixel overlap — rect size adapts to viewport"@,
            "Rects (alpha, low overdraw)"@,
            SceneId::Rect,
            ScaleGroup::Rects50,
            1_012_253,
            seq![(ParamId::NumRects, 1_012_253u32), (ParamId::PaintMode, 0u32), (ParamId::Rotated, 0u32), (ParamId::Opaque, 0u32), (ParamId::TargetOverlap, 2u32)],
        )
    } else if i == 4 {
        scaled_view(
            "Rect - 4x Overlap"@,
            "alpha rects, ~4x avg per-pixel overlap — rect size adapts to viewport"@,
            "Rects (alpha, low overdraw)"@,
            SceneId::Rect,
            ScaleGroup::Rects50,
            1_012_253,
            seq![(ParamId::NumRects, 1_012_253u32), (ParamId::PaintMode, 0u32), (ParamId::Rotated, 0u32), (ParamId::Opaque, 0u32), (ParamId::TargetOverlap, 4u32)],
        )
    } else if i == 5 {
        scaled_view(
            "Rect - 5×5 - Solid (opaque)"@,
            "rendering small fully opaque rectangles"@,
            "Rects (opaque)"@,
            SceneId::Rect,
            ScaleGroup::Rects5,
            3_044_740,
            seq![(ParamId::NumRects, 3_044_740u32), (ParamId::RectSize, 5u32), (ParamId::PaintMode, 0u32), (ParamId::Rotated, 0u32), (ParamId::Opaque, 1u32)],
        )
    } else if i == 6 {
        scaled_view(
            "Rect - 50×50 - Solid (opaque)"@,
            "rendering medium fully opaque rectangles"@,
            "Rects (opaque)"@,
            SceneId::Rect,
            ScaleGroup::Rects50,
            1_012_253,
            seq![(ParamId::NumRects, 1_012_253u32), (ParamId::RectSize, 50u32), (ParamId::PaintMode, 0u32), (ParamId::Rotated, 0u32), (ParamId::Opaque, 1u32)],
        )
    } else if i == 7 {
        scaled_view(
            "Rect - 200×200 - Solid (opaque)"@,
            "rendering large fully opaque rectangles"@,
            "Rects (opaque)"@,
            SceneId::Rect,
            ScaleGroup::Rects200,
            68_803,
            seq![(ParamId::NumRects, 68_803u32), (ParamId::RectSize, 200u32), (ParamId::PaintMode, 0u32), (ParamId::Rotated, 0u32), (ParamId::Opaque, 1u32)],
        )
    } else if i == 8 {
        scaled_view(
            "Rect - 200×200 - Image - Nearest"@,
            "rendering transparent images with NN sampling"@,
            "Images (alpha)"@,
            SceneId::Rect,
            ScaleGroup::Images,
            25_923,
            seq![(ParamId::NumRects, 25_923u32), (ParamId::RectSize, 200u32), (ParamId::PaintMode, 2u32), (ParamId::Rotated, 0u32), (ParamId::ImageFilter, 0u32), (ParamId::ImageOpaque, 0u32)],
        )
    } else if i == 9 {
        scaled_view(
            "Rect - 200×200 - Image - Bilinear"@,
            "rendering transparent images with bilinear sampling"@,
            "Images (alpha)"@,
            SceneId::Rect,
            ScaleGroup::Images,
            25_923,
            seq![(ParamId::NumRects, 20_553u32), (ParamId::RectSize, 200u32), (ParamId::PaintMode, 2u32), (ParamId::Rotated, 0u32), (ParamId::ImageFilter, 1u32), (ParamId::ImageOpaque, 0u32)],
        )
    } else if i == 10 {
        scaled_view(
            "Image - 2x Overlap - Nearest"@,
            "alpha images, ~2x avg overlap, NN sampling — rect size adapts to viewport"@,
            "Images (alpha, low overdraw)"@,
            SceneId::Rect,
            ScaleGroup::Images,
            25_923,
            seq![(ParamId::NumRects, 25_923u32), (ParamId::PaintMode, 2u32), (ParamId::Rotated, 0u32), (ParamId::ImageFilter, 0u32), (ParamId::ImageOpaque, 0u32), (ParamId::TargetOverlap, 2u32)],
        )
    } else if i == 11 {
        scaled_view(
            "Image - 4x Overlap - Nearest"@,
            "alpha images, ~4x avg overlap, NN sampling — rect size adapts to viewport"@,
            "Images (alpha, low overdraw)"@,
            SceneId::Rect,
            ScaleGroup::Images,
            25_923,
            seq![(ParamId::NumRects, 25_923u32), (ParamId::PaintMode, 2u32), (ParamId::Rotated, 0u32), (ParamId::ImageFilter, 0u32), (ParamId::ImageOpaque, 0u32), (ParamId::TargetOverlap, 4u32)],
        )
    } else if i == 12 {
        scaled_view(
            "Rect - 200×200 - Opaque Image - Nearest"@,
            "rendering opaque images with NN sampling"@,
            "Images (opaque)"@,
            SceneId::Rect,
            ScaleGroup::Images,
            25_923,
            seq![(ParamId::NumRects, 25_923u32), (ParamId::RectSize, 200u32), (ParamId::PaintMode, 2u32), (ParamId::Rotated, 0u32), (ParamId::ImageFilter, 0u32), (ParamId::ImageOpaque, 1u32)],
        )
    } else if i == 13 {
        scaled_view(
            "Rect - 200×200 - Opaque Image - Bilinear"@,
            "rendering opaque images with bilinear sampling"@,
            "Images (opaque)"@,
            SceneId::Rect,
            ScaleGroup::Images,
            25_923,
            seq![(ParamId::NumRects, 20_553u32), (ParamId::RectSize, 200u32), (ParamId::PaintMode, 2u32), (ParamId::Rotated, 0u32), (ParamId::ImageFilter, 1u32), (ParamId::ImageOpaque, 1u32)],
        )
    } else if i == 14 {
        scaled_view(
            "Stroked Lines - 3px"@,
            "rendering semi-transparent lines with small stroke width"@,
            "Strokes (alpha)"@,
            SceneId::Strokes,
            ScaleGroup::StrokesLines3,
            75_995,
            seq![(ParamId::NumStrokes, 75_995u32), (ParamId::CurveType, 0u32), (ParamId::StrokeWidth, 3u32), (ParamId::Opaque, 0u32)],
        )
    } else if i == 15 {
        scaled_view(
            "Stroked Lines - 20px"@,
            "rendering semi-transparent lines with large stroke width"@,
            "Strokes (alpha)"@,
            SceneId::Strokes,
            ScaleGroup::StrokesLines20,
            48_065,
            seq![(ParamId::NumStrokes, 48_065u32), (ParamId::CurveType, 0u32), (ParamId::StrokeWidth, 20u32), (ParamId::Opaque, 0u32)],
        )
    } else if i == 16 {
        scaled_view(
            "Stroked Quads - 3px"@,
            "rendering semi-transparent quads with small stroke width"@,
            "Strokes (alpha)"@,
            SceneId::Strokes,
            ScaleGroup::StrokesQuads3,
            22_614,
            seq![(ParamId::NumStrokes, 22_614u32), (ParamId::CurveType, 1u32), (ParamId::StrokeWidth, 3u32), (ParamId::Opaque, 0u32)],
        )
    } else if i == 17 {
        scaled_view(
            "Stroked Quads - 20px"@,
            "rendering semi-transparent quads with large stroke width"@,
            "Strokes (alpha)"@,
            SceneId::Strokes,
            ScaleGroup::StrokesQuads20,
            14_529,
            seq![(ParamId::NumStrokes, 14_529u32), (ParamId::CurveType, 1u32), (ParamId::StrokeWidth, 20u32), (ParamId::Opaque, 0u32)],
        )
    } else if i == 18 {
        scaled_view(
            "Stroked Cubics - 3px"@,
            "rendering semi-transparent cubics with small stroke width"@,
            "Strokes (alpha)"@,
            SceneId::Strokes,
            ScaleGroup::StrokesCubics3,
            15_987,
            seq![(ParamId::NumStrokes, 15_987u32), (ParamId::CurveType, 2u32), (ParamId::StrokeWidth, 3u32), (ParamId::Opaque, 0u32)],
        )
    } else if i == 19 {
        scaled_view(
            "Stroked Cubics - 20px"@,
            "rendering semi-transparent cubics with large stroke width"@,
            "Strokes (alpha)"@,
            SceneId::Strokes,
            ScaleGroup::StrokesCubics20,
            9_428,
            seq![(ParamId::NumStrokes, 9_428u32), (ParamId::CurveType, 2u32), (ParamId::StrokeWidth, 20u32), (ParamId::Opaque, 0u32)],
        )
    } else if i == 20 {
        scaled_view(
            "Stroked Lines - 3px (opaque)"@,
            "rendering opaque lines with small stroke width"@,
            "Strokes (opaque)"@,
            SceneId::Strokes,
            ScaleGroup::StrokesLines3,
            75_995,
            seq![(ParamId::NumStrokes, 75_995u32), (ParamId::CurveType, 0u32), (ParamId::StrokeWidth, 3u32), (ParamId::Opaque, 1u32)],
        )
    } else if i == 21 {
        scaled_view(
            "Stroked Lines - 20px (opaque)"@,
            "rendering opaque lines with large stroke width"@,
            "Strokes (opaque)"@,
            SceneId::Strokes,
            ScaleGroup::StrokesLines20,
            48_065,
            seq![(ParamId::NumStrokes, 48_065u32), (ParamId::CurveType, 0u32), (ParamId::StrokeWidth, 20u32), (ParamId::Opaque, 1u32)],
        )
    } else if i == 22 {
        scaled_view(
            "Stroked Cubics - 3px (opaque)"@,
            "rendering opaque cubics with small stroke width"@,
            "Strokes (opaque)"@,
            SceneId::Strokes,
            ScaleGroup::StrokesCubics3,
            15_987,
            seq![(ParamId::NumStrokes, 15_987u32), (ParamId::CurveType, 2u32), (ParamId::StrokeWidth, 3u32), (ParamId::Opaque, 1u32)],
        )
    } else if i == 23 {
        scaled_view(
            "Stroked Cubics - 20px (opaque)"@,
            "rendering opaque cubics with large stroke width"@,
            "Strokes (opaque)"@,
            SceneId::Strokes,
            ScaleGroup::StrokesCubics20,
            9_428,
            seq![(ParamId::NumStrokes, 9_428u32), (ParamId::CurveType, 2u32), (ParamId::StrokeWidth, 20u32), (ParamId::Opaque, 1u32)],
        )
    } else if i == 24 {
        scaled_view(
            "Polyline"@,
            "rendering paths bottlenecked by tiling and strip rendering"@,
            "Fills"@,
            SceneId::Polyline,
            ScaleGroup::FillsPolyline,
            6_462,
            seq![(ParamId::NumVertices, 6462u32)],
        )
    } else if i == 25 {
        fixed_view(
            "Ghostscript Tiger"@,
            "rendering simple vector graphics"@,
            "Vector Graphics"@,
            SceneId::Svg,
            seq![(ParamId::SvgAsset, 0u32)],
        )
    } else if i == 26 {
        fixed_view(
            "Coat of Arms"@,
            "rendering simple vector graphics"@,
            "Vector Graphics"@,
            SceneId::Svg,
            seq![(ParamId::SvgAsset, 1u32)],
        )
    } else if i == 27 {
        fixed_view(
            "Heraldry"@,
            "rendering simple vector graphics"@,
            "Vector Graphics"@,
            SceneId::Svg,
            seq![(ParamId::SvgAsset, 2u32)],
        )
    } else if i == 28 {
        scaled_view(
            "Rect - 400px - Global `clip_path`"@,
            "rendering many semi-transparent paths with a single clip path"@,
            "Clip Paths (alpha)"@,
            SceneId::Clip,
            ScaleGroup::ClipGlobal,
            4_890,
            seq![(ParamId::NumRects, 4_890u32), (ParamId::RectSize, 400u32), (ParamId::ClipMode, 1u32), (ParamId::ClipMethod, 0u32), (ParamId::Opaque, 0u32)],
        )
    } else if i == 29 {
        scaled_view(
            "Rect - 400px - Global `clip_layer`"@,
            "rendering many semi-transparent paths with a single clip layer"@,
            "Clip Paths (alpha)"@,
            SceneId::Clip,
            ScaleGroup::ClipGlobal,
            4_890,
            seq![(ParamId::NumRects, 4_890u32), (ParamId::RectSize, 400u32), (ParamId::ClipMode, 1u32), (ParamId::ClipMethod, 1u32), (ParamId::Opaque, 0u32)],
        )
    } else if i == 30 {
        scaled_view(
            "Rect - 200px - Per-shape `clip_path`"@,
            "rendering many semi-transparent paths with many clip paths"@,
            "Clip Paths (alpha)"@,
            SceneId::Clip,
            ScaleGroup::ClipPerShape,
            1_867,
            seq![(ParamId::NumRects, 1_867u32), (ParamId::RectSize, 200u32), (ParamId::ClipMode, 2u32), (ParamId::ClipMethod, 0u32), (ParamId::Opaque, 0u32)],
        )
    } else if i == 31 {
        scaled_view(
            "Rect - 200px - Per-shape `clip_layer`"@,
            "rendering many semi-transparent paths with many clip layers"@,
            "Clip Paths (alpha)"@,
            SceneId::Clip,
            ScaleGroup::ClipPerShape,
            1_867,
            seq![(ParamId::NumRects, 1_867u32), (ParamId::RectSize, 200u32), (ParamId::ClipMode, 2u32), (ParamId::ClipMethod, 1u32), (ParamId::Opaque, 0u32)],
        )
    } else if i == 32 {
        scaled_view(
            "Rect - 400px - Global `clip_path` (opaque)"@,
            "rendering many opaque paths with a single clip path"@,
            "Clip Paths (opaque)"@,
            SceneId::Clip,
            ScaleGroup::ClipGlobal,
            4_890,
            seq![(ParamId::NumRects, 4_890u32), (ParamId::RectSize, 400u32), (ParamId::ClipMode, 1u32), (ParamId::ClipMethod, 0u32), (ParamId::Opaque, 1u32)],
        )
    } else if i == 33 {
        scaled_view(
            "Rect - 200px - Per-shape `clip_path` (opaque)"@,
            "rendering many opaque paths with many clip paths"@,
            "Clip Paths (opaque)"@,
            SceneId::Clip,
            ScaleGroup::ClipPerShape,
            1_867,
            seq![(ParamId::NumRects, 1_867u32), (ParamId::RectSize, 200u32), (ParamId::ClipMode, 2u32), (ParamId::ClipMethod, 0u32), (ParamId::Opaque, 1u32)],
        )
    } else if i == 34 {
        scaled_view(
            "Text - 8px"@,
            "rendering small semi-transparent text"@,
            "Text (alpha)"@,
            SceneId::Text,
            ScaleGroup::Text8,
            6_460,
            seq![(ParamId::NumRuns, 6_460u32), (ParamId::FontSize, 8u32), (ParamId::Opaque, 0u32)],
        )
    } else if i == 35 {
        scaled_view(
            "Text - 24px"@,
            "rendering medium-sized semi-transparent text"@,
            "Text (alpha)"@,
            SceneId::Text,
            ScaleGroup::Text24,
            4_536,
            seq![(ParamId::NumRuns, 4_536u32), (ParamId::FontSize, 24u32), (ParamId::Opaque, 0u32)],
        )
    } else if i == 36 {
        scaled_view(
            "Text - 60px"@,
            "rendering large semi-transparent text"@,
            "Text (alpha)"@,
            SceneId::Text,
            ScaleGroup::Text60,
            2_273,
            seq![(ParamId::NumRuns, 2_273u32), (ParamId::FontSize, 60u32), (ParamId::Opaque, 0u32)],
        )
    } else if i == 37 {
        scaled_view(
            "Text - 8px (opaque)"@,
            "rendering small opaque text"@,
            "Text (opaque)"@,
            SceneId::Text,
            ScaleGroup::Text8,
            6_460,
            seq![(ParamId::NumRuns, 6_460u32), (ParamId::FontSize, 8u32), (ParamId::Opaque, 1u32)],
        )
    } else if i == 38 {
        scaled_view(
            "Text - 24px (opaque)"@,
            "rendering medium-sized opaque text"@,
            "Text (opaque)"@,
            SceneId::Text,
            ScaleGroup::Text24,
            4_536,
            seq![(ParamId::NumRuns, 4_536u32), (ParamId::FontSize, 24u32), (ParamId::Opaque, 1u32)],
        )
    } else {
        scaled_view(
            "Text - 60px (opaque)"@,
            "rendering large opaque text"@,
            "Text (opaque)"@,
            SceneId::Text,
            ScaleGroup::Text60,
            2_273,
            seq![(ParamId::NumRuns, 2_273u32), (ParamId::FontSize, 60u32), (ParamId::Opaque, 1u32)],
        )
    }
}

/// The count parameter and the uncalibrated default count of each scale group.
pub open spec fn group_scale(group: ScaleGroup) -> (ParamId, usize) {
    match group {
        ScaleGroup::Rects5 => (ParamId::NumRects, 3_044_740),
        ScaleGroup::Rects50 => (ParamId::NumRects, 1_012_253),
        ScaleGroup::Rects200 => (ParamId::NumRects, 68_803),
        ScaleGroup::Images => (ParamId::NumRects, 25_923),
        ScaleGroup::StrokesLines3 => (ParamId::NumStrokes, 75_995),
        ScaleGroup::StrokesLines20 => (ParamId::NumStrokes, 48_065),
        ScaleGroup::StrokesQuads3 => (ParamId::NumStrokes, 22_614),
        ScaleGroup::StrokesQuads20 => (ParamId::NumStrokes, 14_529),
        ScaleGroup::StrokesCubics3 => (ParamId::NumStrokes, 15_987),
        ScaleGroup::StrokesCubics20 => (ParamId::NumStrokes, 9_428),
        ScaleGroup::FillsPolyline => (ParamId::NumVertices, 6_462),
        ScaleGroup::ClipGlobal => (ParamId::NumRects, 4_890),
        ScaleGroup::ClipPerShape => (ParamId::NumRects, 1_867),
        ScaleGroup::Text8 => (ParamId::NumRuns, 6_460),
        ScaleGroup::Text24 => (ParamId::NumRuns, 4_536),
        ScaleGroup::Text60 => (ParamId::NumRuns, 2_273),
    }
}

/// Benchmarks calibrated together scale the same parameter from the same
/// default count: a calibrated count fits every member of its group.
pub proof fn lemma_scale_groups_consistent()
    ensures
        forall|i: int|
            0 <= i < BENCH_DEF_COUNT ==> ((#[trigger] spec_bench_def(i)).scale matches Some(s)
                ==> (s.param, s.default_calibrated_value) == group_scale(s.group)),
        forall|i: int, j: int|
            0 <= i < BENCH_DEF_COUNT && 0 <= j < BENCH_DEF_COUNT && (
            #[trigger] spec_bench_def(i)).scale is Some && (#[trigger] spec_bench_def(j)).scale is Some
                && spec_bench_def(i).scale->0.group == spec_bench_def(j).scale->0.group ==> {
                &&& spec_bench_def(i).scale->0.param == spec_bench_def(j).scale->0.param
                &&& spec_bench_def(i).scale->0.default_calibrated_value
                    == spec_bench_def(j).scale->0.default_calibrated_value
            },
{
    assert forall|i: int|
        0 <= i < BENCH_DEF_COUNT implies ((#[trigger] spec_bench_def(i)).scale matches Some(s)
            ==> (s.param, s.default_calibrated_value) == group_scale(s.group)) by {
        // One case per definition.
        if i == 0 {
        } else if i == 1 {
        } else if i == 2 {
        } else if i == 3 {
        } else if i == 4 {
        } else if i == 5 {
        } else if i == 6 {
        } else if i == 7 {
        } else if i == 8 {
        } else if i == 9 {
        } else if i == 10 {
        } else if i == 11 {
        } else if i == 12 {
        } else if i == 13 {
        } else if i == 14 {
        } else if i == 15 {
        } else if i == 16 {
        } else if i == 17 {
        } else if i == 18 {
        } else if i == 19 {
        } else if i == 20 {
        } else if i == 21 {
        } else if i == 22 {
        } else if i == 23 {
        } else if i == 24 {
        } else if i == 25 {
        } else if i == 26 {
        } else if i == 27 {
        } else if i == 28 {
        } else if i == 29 {
        } else if i == 30 {
        } else if i == 31 {
        } else if i == 32 {
        } else if i == 33 {
        } else if i == 34 {
        } else if i == 35 {
        } else if i == 36 {
        } else if i == 37 {
        } else if i == 38 {
        } else if i == 39 {
        }
    }
}

/// No two predefined benchmarks share a name.
pub proof fn lemma_bench_def_names_distinct()
    ensures
        forall|i: int, j: int|
            0 <= i < j < BENCH_DEF_COUNT ==> (#[trigger] spec_bench_def(i)).name
                != (#[trigger] spec_bench_def(j)).name,
{
    reveal_strlit("Rect - 5×5 - Solid");
    reveal_strlit("Rect - 50×50 - Solid");
    reveal_strlit("Rect - 200×200 - Solid");
    reveal_strlit("Rect - 2x Overlap");
    reveal_strlit("Rect - 4x Overlap");
    reveal_strlit("Rect - 5×5 - Solid (opaque)");
    reveal_strlit("Rect - 50×50 - Solid (opaque)");
    reveal_strlit("Rect - 200×200 - Solid (opaque)");
    reveal_strlit("Rect - 200×200 - Image - Nearest");
    reveal_strlit("Rect - 200×200 - Image - Bilinear");
    reveal_strlit("Image - 2x Overlap - Nearest");
    reveal_strlit("Image - 4x Overlap - Nearest");
    reveal_strlit("Rect - 200×200 - Opaque Image - Nearest");
    reveal_strlit("Rect - 200×200 - Opaque Image - Bilinear");
    reveal_strlit("Stroked Lines - 3px");
    reveal_strlit("Stroked Lines - 20px");
    reveal_strlit("Stroked Quads - 3px");
    reveal_strlit("Stroked Quads - 20px");
    reveal_strlit("Stroked Cubics - 3px");
    reveal_strlit("Stroked Cubics - 20px");
    reveal_strlit("Stroked Lines - 3px (opaque)");
    reveal_strlit("Stroked Lines - 20px (opaque)");
    reveal_strlit("Stroked Cubics - 3px (opaque)");
    reveal_strlit("Stroked Cubics - 20px (opaque)");
    reveal_strlit("Polyline");
    reveal_strlit("Ghostscript Tiger");
    reveal_strlit("Coat of Arms");
    reveal_strlit("Heraldry");
    reveal_strlit("Rect - 400px - Global `clip_path`");
    reveal_strlit("Rect - 400px - Global `clip_layer`");
    reveal_strlit("Rect - 200px - Per-shape `clip_path`");
    reveal_strlit("Rect - 200px - Per-shape `clip_layer`");
    reveal_strlit("Rect - 400px - Global `clip_path` (opaque)");
    reveal_strlit("Rect - 200px - Per-shape `clip_path` (opaque)");
    reveal_strlit("Text - 8px");
    reveal_strlit("Text - 24px");
    reveal_strlit("Text - 60px");
    reveal_strlit("Text - 8px (opaque)");
    reveal_strlit("Text - 24px (opaque)");
    reveal_strlit("Text - 60px (opaque)");
    assert("Rect - 5×5 - Solid"@.len() == 18);
    assert("Rect - 50×50 - Solid"@.len() == 20);
    assert("Rect - 200×200 - Solid"@.len() == 22);
    assert("Rect - 2x Overlap"@.len() == 17);
    assert("Rect - 4x Overlap"@.len() == 17);
    assert("Rect - 5×5 - Solid (opaque)"@.len() == 27);
    assert("Rect - 50×50 - Solid (opaque)"@.len() == 29);
    assert("Rect - 200×200 - Solid (opaque)"@.len() == 31);
    assert("Rect - 200×200 - Image - Nearest"@.len() == 32);
    assert("Rect - 200×200 - Image - Bilinear"@.len() == 33);
    assert("Image - 2x Overlap - Nearest"@.len() == 28);
    assert("Image - 4x Overlap - Nearest"@.len() == 28);
    assert("Rect - 200×200 - Opaque Image - Nearest"@.len() == 39);
    assert("Rect - 200×200 - Opaque Image - Bilinear"@.len() == 40);
    assert("Stroked Lines - 3px"@.len() == 19);
    assert("Stroked Lines - 20px"@.len() == 20);
    assert("Stroked Quads - 3px"@.len() == 19);
    assert("Stroked Quads - 20px"@.len() == 20);
    assert("Stroked Cubics - 3px"@.len() == 20);
    assert("Stroked Cubics - 20px"@.len() == 21);
    assert("Stroked Lines - 3px (opaque)"@.len() == 28);
    assert("Stroked Lines - 20px (opaque)"@.len() == 29);
    assert("Stroked Cubics - 3px (opaque)"@.len() == 29);
    assert("Stroked Cubics - 20px (opaque)"@.len() == 30);
    assert("Polyline"@.len() == 8);
    assert("Ghostscript Tiger"@.len() == 17);
    assert("Coat of Arms"@.len() == 12);
    assert("Heraldry"@.len() == 8);
    assert("Rect - 400px - Global `clip_path`"@.len() == 33);
    assert("Rect - 400px - Global `clip_layer`"@.len() == 34);
    assert("Rect - 200px - Per-shape `clip_path`"@.len() == 36);
    assert("Rect - 200px - Per-shape `clip_layer`"@.len() == 37);
    assert("Rect - 400px - Global `clip_path` (opaque)"@.len() == 42);
    assert("Rect - 200px - Per-shape `clip_path` (opaque)"@.len() == 45);
    assert("Text - 8px"@.len() == 10);
    assert("Text - 24px"@.len() == 11);
    assert("Text - 60px"@.len() == 11);
    assert("Text - 8px (opaque)"@.len() == 19);
    assert("Text - 24px (opaque)"@.len() == 20);
    assert("Text - 60px (opaque)"@.len() == 20);
    assert("Rect - 50×50 - Solid"@[8] == '0');
    assert("Rect - 50×50 - Solid"@[0] == 'R');
    assert("Stroked Lines - 20px"@[8] == 'L');
    assert("Stroked Lines - 20px"@[0] == 'S');
    assert("Stroked Quads - 20px"@[8] == 'Q');
    assert("Stroked Quads - 20px"@[0] == 'S');
    assert("Stroked Cubics - 3px"@[8] == 'C');
    assert("Stroked Cubics - 3px"@[0] == 'S');
    assert("Text - 24px (opaque)"@[8] == '4');
    assert("Text - 24px (opaque)"@[0] == 'T');
    assert("Text - 60px (opaque)"@[8] == '0');
    assert("Text - 60px (opaque)"@[0] == 'T');
    assert("Rect - 2x Overlap"@[7] == '2');
    assert("Rect - 4x Overlap"@[7] == '4');
    assert("Ghostscript Tiger"@[7] == 'r');
    assert("Rect - 50×50 - Solid (opaque)"@[8] == '0');
    assert("Stroked Lines - 20px (opaque)"@[8] == 'L');
    assert("Stroked Cubics - 3px (opaque)"@[8] == 'C');
    assert("Rect - 200×200 - Image - Bilinear"@[7] == '2');
    assert("Rect - 400px - Global `clip_path`"@[7] == '4');
    assert("Image - 2x Overlap - Nearest"@[8] == '2');
    assert("Image - 4x Overlap - Nearest"@[8] == '4');
    assert("Stroked Lines - 3px (opaque)"@[8] == 'L');
    assert("Stroked Lines - 3px"@[8] == 'L');
    assert("Stroked Quads - 3px"@[8] == 'Q');
    assert("Text - 8px (opaque)"@[8] == 'p');
    assert("Polyline"@[0] == 'P');
    assert("Heraldry"@[0] == 'H');
    assert("Text - 24px"@[7] == '2');
    assert("Text - 60px"@[7] == '6');
    assert forall|i: int, j: int| 0 <= i < j < BENCH_DEF_COUNT implies (#[trigger] spec_bench_def(
        i,
    )).name != (#[trigger] spec_bench_def(j)).name by {
        // One case per first definition; the lengths and characters above tell the names apart.
        if i == 0 {
        } else if i == 1 {
        } else if i == 2 {
        } else if i == 3 {
        } else if i == 4 {
        } else if i == 5 {
        } else if i == 6 {
        } else if i == 7 {
        } else if i == 8 {
        } else if i == 9 {
        } else if i == 10 {
        } else if i == 11 {
        } else if i == 12 {
        } else if i == 13 {
        } else if i == 14 {
        } else if i == 15 {
        } else if i == 16 {
        } else if i == 17 {
        } else if i == 18 {
        } else if i == 19 {
        } else if i == 20 {
        } else if i == 21 {
        } else if i == 22 {
        } else if i == 23 {
        } else if i == 24 {
        } else if i == 25 {
        } else if i == 26 {
        } else if i == 27 {
        } else if i == 28 {
        } else if i == 29 {
        } else if i == 30 {
        } else if i == 31 {
        } else if i == 32 {
        } else if i == 33 {
        } else if i == 34 {
        } else if i == 35 {
        } else if i == 36 {
        } else if i == 37 {
        } else if i == 38 {
        } else if i == 39 {
        }
    }
}

/// Opacity follows the category: every benchmark in an "(opaque)" category
/// of rectangles, strokes, clip paths or text sets `Opaque` to 1, and every
/// one in an "(alpha" category of those sets it to 0; image benchmarks do
/// the same with `ImageOpaque`.
pub proof fn lemma_opacity_by_category(i: int)
    requires
        0 <= i < BENCH_DEF_COUNT,
    ensures
        ({
            let d = spec_bench_def(i);
            &&& (d.category == "Rects (opaque)"@ || d.category == "Strokes (opaque)"@
                || d.category == "Clip Paths (opaque)"@ || d.category == "Text (opaque)"@)
                ==> d.params.contains((ParamId::Opaque, 1u32))
            &&& (d.category == "Rects (alpha)"@ || d.category == "Rects (alpha, low overdraw)"@
                || d.category == "Strokes (alpha)"@ || d.category == "Clip Paths (alpha)"@
                || d.category == "Text (alpha)"@) ==> d.params.contains((ParamId::Opaque, 0u32))
            &&& d.category == "Images (opaque)"@ ==> d.params.contains((ParamId::ImageOpaque, 1u32))
            &&& (d.category == "Images (alpha)"@ || d.category == "Images (alpha, low overdraw)"@)
                ==> d.params.contains((ParamId::ImageOpaque, 0u32))
        }),
{
    reveal_strlit("Clip Paths (alpha)");
    reveal_strlit("Clip Paths (opaque)");
    reveal_strlit("Fills");
    reveal_strlit("Images (alpha)");
    reveal_strlit("Images (alpha, low overdraw)");
    reveal_strlit("Images (opaque)");
    reveal_strlit("Rects (alpha)");
    reveal_strlit("Rects (alpha, low overdraw)");
    reveal_strlit("Rects (opaque)");
    reveal_strlit("Strokes (alpha)");
    reveal_strlit("Strokes (opaque)");
    reveal_strlit("Text (alpha)");
    reveal_strlit("Text (opaque)");
    reveal_strlit("Vector Graphics");
    assert("Clip Paths (alpha)"@.len() == 18);
    assert("Clip Paths (opaque)"@.len() == 19);
    assert("Fills"@.len() == 5);
    assert("Images (alpha)"@.len() == 14);
    assert("Images (alpha, low overdraw)"@.len() == 28);
    assert("Images (opaque)"@.len() == 15);
    assert("Rects (alpha)"@.len() == 13);
    assert("Rects (alpha, low overdraw)"@.len() == 27);
    assert("Rects (opaque)"@.len() == 14);
    assert("Strokes (alpha)"@.len() == 15);
    assert("Strokes (opaque)"@.len() == 16);
    assert("Text (alpha)"@.len() == 12);
    assert("Text (opaque)"@.len() == 13);
    assert("Vector Graphics"@.len() == 15);
    assert("Clip Paths (alpha)"@[0] == 'C');
    assert("Clip Paths (opaque)"@[0] == 'C');
    assert("Fills"@[0] == 'F');
    assert("Images (alpha)"@[0] == 'I');
    assert("Images (alpha, low overdraw)"@[0] == 'I');
    assert("Images (opaque)"@[0] == 'I');
    assert("Rects (alpha)"@[0] == 'R');
    assert("Rects (alpha, low overdraw)"@[0] == 'R');
    assert("Rects (opaque)"@[0] == 'R');
    assert("Strokes (alpha)"@[0] == 'S');
    assert("Strokes (opaque)"@[0] == 'S');
    assert("Text (alpha)"@[0] == 'T');
    assert("Text (opaque)"@[0] == 'T');
    assert("Vector Graphics"@[0] == 'V');
    // One case per definition, naming where its opacity parameter stands.
    if i == 0 {
        assert(spec_bench_def(0).params[4] == (ParamId::Opaque, 0u32));
    } else if i == 1 {
        assert(spec_bench_def(1).params[4] == (ParamId::Opaque, 0u32));
    } else if i == 2 {
        assert(spec_bench_def(2).params[4] == (ParamId::Opaque, 0u32));
    } else if i == 3 {
        assert(spec_bench_def(3).params[3] == (ParamId::Opaque, 0u32));
    } else if i == 4 {
        assert(spec_bench_def(4).params[3] == (ParamId::Opaque, 0u32));
    } else if i == 5 {
        assert(spec_bench_def(5).params[4] == (ParamId::Opaque, 1u32));
    } else if i == 6 {
        assert(spec_bench_def(6).params[4] == (ParamId::Opaque, 1u32));
    } else if i == 7 {
        assert(spec_bench_def(7).params[4] == (ParamId::Opaque, 1u32));
    } else if i == 8 {
        assert(spec_bench_def(8).params[5] == (ParamId::ImageOpaque, 0u32));
    } else if i == 9 {
        assert(spec_bench_def(9).params[5] == (ParamId::ImageOpaque, 0u32));
    } else if i == 10 {
        assert(spec_bench_def(10).params[4] == (ParamId::ImageOpaque, 0u32));
    } else if i == 11 {
        assert(spec_bench_def(11).params[4] == (ParamId::ImageOpaque, 0u32));
    } else if i == 12 {
        assert(spec_bench_def(12).params[5] == (ParamId::ImageOpaque, 1u32));
    } else if i == 13 {
        assert(spec_bench_def(13).params[5] == (ParamId::ImageOpaque, 1u32));
    } else if i == 14 {
        assert(spec_bench_def(14).params[3] == (ParamId::Opaque, 0u32));
    } else if i == 15 {
        assert(spec_bench_def(15).params[3] == (ParamId::Opaque, 0u32));
    } else if i == 16 {
        assert(spec_bench_def(16).params[3] == (ParamId::Opaque, 0u32));
    } else if i == 17 {
        assert(spec_bench_def(17).params[3] == (ParamId::Opaque, 0u32));
    } else if i == 18 {
        assert(spec_bench_def(18).params[3] == (ParamId::Opaque, 0u32));
    } else if i == 19 {
        assert(spec_bench_def(19).params[3] == (ParamId::Opaque, 0u32));
    } else if i == 20 {
        assert(spec_bench_def(20).params[3] == (ParamId::Opaque, 1u32));
    } else if i == 21 {
        assert(spec_bench_def(21).params[3] == (ParamId::Opaque, 1u32));
    } else if i == 22 {
        assert(spec_bench_def(22).params[3] == (ParamId::Opaque, 1u32));
    } else if i == 23 {
        assert(spec_bench_def(23).params[3] == (ParamId::Opaque, 1u32));
    } else if i == 24 {
    } else if i == 25 {
    } else if i == 26 {
    } else if i == 27 {
    } else if i == 28 {
        assert(spec_bench_def(28).params[4] == (ParamId::Opaque, 0u32));
    } else if i == 29 {
        assert(spec_bench_def(29).params[4] == (ParamId::Opaque, 0u32));
    } else if i == 30 {
        assert(spec_bench_def(30).params[4] == (ParamId::Opaque, 0u32));
    } else if i == 31 {
        assert(spec_bench_def(31).params[4] == (ParamId::Opaque, 0u32));
    } else if i == 32 {
        assert(spec_bench_def(32).params[4] == (ParamId::Opaque, 1u32));
    } else if i == 33 {
        assert(spec_bench_def(33).params[4] == (ParamId::Opaque, 1u32));
    } else if i == 34 {
        assert(spec_bench_def(34).params[2] == (ParamId::Opaque, 0u32));
    } else if i == 35 {
        assert(spec_bench_def(35).params[2] == (ParamId::Opaque, 0u32));
    } else if i == 36 {
        assert(spec_bench_def(36).params[2] == (ParamId::Opaque, 0u32));
    } else if i == 37 {
        assert(spec_bench_def(37).params[2] == (ParamId::Opaque, 1u32));
    } else if i == 38 {
        assert(spec_bench_def(38).params[2] == (ParamId::Opaque, 1u32));
    } else if i == 39 {
        assert(spec_bench_def(39).params[2] == (ParamId::Opaque, 1u32));
    }
}

/// Number of predefined benchmarks.
pub const BENCH_DEF_COUNT: usize = 40;

/// All predefined benchmarks, in the order the page lists them.
pub fn bench_defs() -> (defs: Vec<BenchDef>)
    ensures
        defs@.len() == BENCH_DEF_COUNT,
        forall|i: int| 0 <= i < defs@.len() ==> #[trigger] defs@[i]@ == spec_bench_def(i),
        forall|i: int| 0 <= i < defs@.len() ==> count_param_first(#[trigger] defs@[i]),
{
    let defs = vec![
        BenchDef::scaled(
            "Rect - 5×5 - Solid",
            "rendering small semi-transparent rectangles",
            "Rects (alpha)",
            SceneId::Rect,
            ScaleGroup::Rects5,
            3_044_740,
            vec![
                (ParamId::NumRects, 3_044_740),
                (ParamId::RectSize, 5),
                (ParamId::PaintMode, 0),
                (ParamId::Rotated, 0),
                (ParamId::Opaque, 0),
            ],
        ),
        BenchDef::scaled(
            "Rect - 50×50 - Solid",
            "rendering medium semi-transparent rectangles",
            "Rects (alpha)",
            SceneId::Rect,
            ScaleGroup::Rects50,
            1_012_253,
            vec![
                (ParamId::NumRects, 1_012_253),
                (ParamId::RectSize, 50),
                (ParamId::PaintMode, 0),
                (ParamId::Rotated, 0),
                (ParamId::Opaque, 0),
            ],
        ),
        BenchDef::scaled(
            "Rect - 200×200 - Solid",
            "rendering large semi-transparent rectangles",
            "Rects (alpha)",
            SceneId::Rect,
            ScaleGroup::Rects200,
            68_803,
            vec![
                (ParamId::NumRects, 68_803),
                (ParamId::RectSize, 200),
                (ParamId::PaintMode, 0),
                (ParamId::Rotated, 0),
                (ParamId::Opaque, 0),
            ],
        ),
        BenchDef::scaled(
            "Rect - 2x Overlap",
            "alpha rects, ~2x avg per-pixel overlap — rect size adapts to viewport",
            "Rects (alpha, low overdraw)",
            SceneId::Rect,
            ScaleGroup::Rects50,
            1_012_253,
            vec![
                (ParamId::NumRects, 1_012_253),
                (ParamId::PaintMode, 0),
                (ParamId::Rotated, 0),
                (ParamId::Opaque, 0),
                (ParamId::TargetOverlap, 2),
            ],
        ),
        BenchDef::scaled(
            "Rect - 4x Overlap",
            "alpha rects, ~4x avg per-pixel overlap — rect size adapts to viewport",
            "Rects (alpha, low overdraw)",
            SceneId::Rect,
            ScaleGroup::Rects50,
            1_012_253,
            vec![
                (ParamId::NumRects, 1_012_253),
                (ParamId::PaintMode, 0),
                (ParamId::Rotated, 0),
                (ParamId::Opaque, 0),
                (ParamId::TargetOverlap, 4),
            ],
        ),
        BenchDef::scaled(
            "Rect - 5×5 - Solid (opaque)",
            "rendering small fully opaque rectangles",
            "Rects (opaque)",
            SceneId::Rect,
            ScaleGroup::Rects5,
            3_044_740,
            vec![
                (ParamId::NumRects, 3_044_740),
                (ParamId::RectSize, 5),
                (ParamId::PaintMode, 0),
                (ParamId::Rotated, 0),
                (ParamId::Opaque, 1),
            ],
        ),
        BenchDef::scaled(
            "Rect - 50×50 - Solid (opaque)",
            "rendering medium fully opaque rectangles",
            "Rects (opaque)",
            SceneId::Rect,
            ScaleGroup::Rects50,
            1_012_253,
            vec![
                (ParamId::NumRects, 1_012_253),
                (ParamId::RectSize, 50),
                (ParamId::PaintMode, 0),
                (ParamId::Rotated, 0),
                (ParamId::Opaque, 1),
            ],
        ),
        BenchDef::scaled(
            "Rect - 200×200 - Solid (opaque)",
            "rendering large fully opaque rectangles",
            "Rects (opaque)",
            SceneId::Rect,
            ScaleGroup::Rects200,
            68_803,
            vec![
                (ParamId::NumRects, 68_803),
                (ParamId::RectSize, 200),
                (ParamId::PaintMode, 0),
                (ParamId::Rotated, 0),
                (ParamId::Opaque, 1),
            ],
        ),
        BenchDef::scaled(
            "Rect - 200×200 - Image - Nearest",
            "rendering transparent images with NN sampling",
            "Images (alpha)",
            SceneId::Rect,
            ScaleGroup::Images,
            25_923,
            vec![
                (ParamId::NumRects, 25_923),
                (ParamId::RectSize, 200),
                (ParamId::PaintMode, 2),
                (ParamId::Rotated, 0),
                (ParamId::ImageFilter, 0),
                (ParamId::ImageOpaque, 0),
            ],
        ),
        BenchDef::scaled(
            "Rect - 200×200 - Image - Bilinear",
            "rendering transparent images with bilinear sampling",
            "Images (alpha)",
            SceneId::Rect,
            ScaleGroup::Images,
            25_923,
            vec![
                (ParamId::NumRects, 20_553),
                (ParamId::RectSize, 200),
                (ParamId::PaintMode, 2),
                (ParamId::Rotated, 0),
                (ParamId::ImageFilter, 1),
                (ParamId::ImageOpaque, 0),
            ],
        ),
        BenchDef::scaled(
            "Image - 2x Overlap - Nearest",
            "alpha images, ~2x avg overlap, NN sampling — rect size adapts to viewport",
            "Images (alpha, low overdraw)",
            SceneId::Rect,
            ScaleGroup::Images,
            25_923,
            vec![
                (ParamId::NumRects, 25_923),
                (ParamId::PaintMode, 2),
                (ParamId::Rotated, 0),
                (ParamId::ImageFilter, 0),
                (ParamId::ImageOpaque, 0),
                (ParamId::TargetOverlap, 2),
            ],
        ),
        BenchDef::scaled(
            "Image - 4x Overlap - Nearest",
            "alpha images, ~4x avg overlap, NN sampling — rect size adapts to viewport",
            "Images (alpha, low overdraw)",
            SceneId::Rect,
            ScaleGroup::Images,
            25_923,
            vec![
                (ParamId::NumRects, 25_923),
                (ParamId::PaintMode, 2),
                (ParamId::Rotated, 0),
                (ParamId::ImageFilter, 0),
                (ParamId::ImageOpaque, 0),
                (ParamId::TargetOverlap, 4),
            ],
        ),
        BenchDef::scaled(
            "Rect - 200×200 - Opaque Image - Nearest",
            "rendering opaque images with NN sampling",
            "Images (opaque)",
            SceneId::Rect,
            ScaleGroup::Images,
            25_923,
            vec![
                (ParamId::NumRects, 25_923),
                (ParamId::RectSize, 200),
                (ParamId::PaintMode, 2),
                (ParamId::Rotated, 0),
                (ParamId::ImageFilter, 0),
                (ParamId::ImageOpaque, 1),
            ],
        ),
        BenchDef::scaled(
            "Rect - 200×200 - Opaque Image - Bilinear",
            "rendering opaque images with bilinear sampling",
            "Images (opaque)",
            SceneId::Rect,
            ScaleGroup::Images,
            25_923,
            vec![
                (ParamId::NumRects, 20_553),
                (ParamId::RectSize, 200),
                (ParamId::PaintMode, 2),
                (ParamId::Rotated, 0),
                (ParamId::ImageFilter, 1),
                (ParamId::ImageOpaque, 1),
            ],
        ),
        BenchDef::scaled(
            "Stroked Lines - 3px",
            "rendering semi-transparent lines with small stroke width",
            "Strokes (alpha)",
            SceneId::Strokes,
            ScaleGroup::StrokesLines3,
            75_995,
            vec![
                (ParamId::NumStrokes, 75_995),
                (ParamId::CurveType, 0),
                (ParamId::StrokeWidth, 3),
                (ParamId::Opaque, 0),
            ],
        ),
        BenchDef::scaled(
            "Stroked Lines - 20px",
            "rendering semi-transparent lines with large stroke width",
            "Strokes (alpha)",
            SceneId::Strokes,
            ScaleGroup::StrokesLines20,
            48_065,
            vec![
                (ParamId::NumStrokes, 48_065),
                (ParamId::CurveType, 0),
                (ParamId::StrokeWidth, 20),
                (ParamId::Opaque, 0),
            ],
        ),
        BenchDef::scaled(
            "Stroked Quads - 3px",
            "rendering semi-transparent quads with small stroke width",
            "Strokes (alpha)",
            SceneId::Strokes,
            ScaleGroup::StrokesQuads3,
            22_614,
            vec![
                (ParamId::NumStrokes, 22_614),
                (ParamId::CurveType, 1),
                (ParamId::StrokeWidth, 3),
                (ParamId::Opaque, 0),
            ],
        ),
        BenchDef::scaled(
            "Stroked Quads - 20px",
            "rendering semi-transparent quads with large stroke width",
            "Strokes (alpha)",
            SceneId::Strokes,
            ScaleGroup::StrokesQuads20,
            14_529,
            vec![
                (ParamId::NumStrokes, 14_529),
                (ParamId::CurveType, 1),
                (ParamId::StrokeWidth, 20),
                (ParamId::Opaque, 0),
            ],
        ),
        BenchDef::scaled(
            "Stroked Cubics - 3px",
            "rendering semi-transparent cubics with small stroke width",
            "Strokes (alpha)",
            SceneId::Strokes,
            ScaleGroup::StrokesCubics3,
            15_987,
            vec![
                (ParamId::NumStrokes, 15_987),
                (ParamId::CurveType, 2),
                (ParamId::StrokeWidth, 3),
                (ParamId::Opaque, 0),
            ],
        ),
        BenchDef::scaled(
            "Stroked Cubics - 20px",
            "rendering semi-transparent cubics with large stroke width",
            "Strokes (alpha)",
            SceneId::Strokes,
            ScaleGroup::StrokesCubics20,
            9_428,
            vec![
                (ParamId::NumStrokes, 9_428),
                (ParamId::CurveType, 2),
                (ParamId::StrokeWidth, 20),
                (ParamId::Opaque, 0),
            ],
        ),
        BenchDef::scaled(
            "Stroked Lines - 3px (opaque)",
            "rendering opaque lines with small stroke width",
            "Strokes (opaque)",
            SceneId::Strokes,
            ScaleGroup::StrokesLines3,
            75_995,
            vec![
                (ParamId::NumStrokes, 75_995),
                (ParamId::CurveType, 0),
                (ParamId::StrokeWidth, 3),
                (ParamId::Opaque, 1),
            ],
        ),
        BenchDef::scaled(
            "Stroked Lines - 20px (opaque)",
            "rendering opaque lines with large stroke width",
            "Strokes (opaque)",
            SceneId::Strokes,
            ScaleGroup::StrokesLines20,
            48_065,
            vec![
                (ParamId::NumStrokes, 48_065),
                (ParamId::CurveType, 0),
                (ParamId::StrokeWidth, 20),
                (ParamId::Opaque, 1),
            ],
        ),
        BenchDef::scaled(
            "Stroked Cubics - 3px (opaque)",
            "rendering opaque cubics with small stroke width",
            "Strokes (opaque)",
            SceneId::Strokes,
            ScaleGroup::StrokesCubics3,
            15_987,
            vec![
                (ParamId::NumStrokes, 15_987),
                (ParamId::CurveType, 2),
                (ParamId::StrokeWidth, 3),
                (ParamId::Opaque, 1),
            ],
        ),
        BenchDef::scaled(
            "Stroked Cubics - 20px (opaque)",
            "rendering opaque cubics with large stroke width",
            "Strokes (opaque)",
            SceneId::Strokes,
            ScaleGroup::StrokesCubics20,
            9_428,
            vec![
                (ParamId::NumStrokes, 9_428),
                (ParamId::CurveType, 2),
                (ParamId::StrokeWidth, 20),
                (ParamId::Opaque, 1),
            ],
        ),
        BenchDef::scaled(
            "Polyline",
            "rendering paths bottlenecked by tiling and strip rendering",
            "Fills",
            SceneId::Polyline,
            ScaleGroup::FillsPolyline,
            6_462,
            vec![
                (ParamId::NumVertices, 6462),
            ],
        ),
        BenchDef::fixed(
            "Ghostscript Tiger",
            "rendering simple vector graphics",
            "Vector Graphics",
            SceneId::Svg,
            vec![
                (ParamId::SvgAsset, 0),
            ],
        ),
        BenchDef::fixed(
            "Coat of Arms",
            "rendering simple vector graphics",
            "Vector Graphics",
            SceneId::Svg,
            vec![
                (ParamId::SvgAsset, 1),
            ],
        ),
        BenchDef::fixed(
            "Heraldry",
            "rendering simple vector graphics",
            "Vector Graphics",
            SceneId::Svg,
            vec![
                (ParamId::SvgAsset, 2),
            ],
        ),
        BenchDef::scaled(
            "Rect - 400px - Global `clip_path`",
            "rendering many semi-transparent paths with a single clip path",
            "Clip Paths (alpha)",
            SceneId::Clip,
            ScaleGroup::ClipGlobal,
            4_890,
            vec![
                (ParamId::NumRects, 4_890),
                (ParamId::RectSize, 400),
                (ParamId::ClipMode, 1),
                (ParamId::ClipMethod, 0),
                (ParamId::Opaque, 0),
            ],
        ),
        BenchDef::scaled(
            "Rect - 400px - Global `clip_layer`",
            "rendering many semi-transparent paths with a single clip layer",
            "Clip Paths (alpha)",
            SceneId::Clip,
            ScaleGroup::ClipGlobal,
            4_890,
            vec![
                (ParamId::NumRects, 4_890),
                (ParamId::RectSize, 400),
                (ParamId::ClipMode, 1),
                (ParamId::ClipMethod, 1),
                (ParamId::Opaque, 0),
            ],
        ),
        BenchDef::scaled(
            "Rect - 200px - Per-shape `clip_path`",
            "rendering many semi-transparent paths with many clip paths",
            "Clip Paths (alpha)",
            SceneId::Clip,
            ScaleGroup::ClipPerShape,
            1_867,
            vec![
                (ParamId::NumRects, 1_867),
                (ParamId::RectSize, 200),
                (ParamId::ClipMode, 2),
                (ParamId::ClipMethod, 0),
                (ParamId::Opaque, 0),
            ],
        ),
        BenchDef::scaled(
            "Rect - 200px - Per-shape `clip_layer`",
            "rendering many semi-transparent paths with many clip layers",
            "Clip Paths (alpha)",
            SceneId::Clip,
            ScaleGroup::ClipPerShape,
            1_867,
            vec![
                (ParamId::NumRects, 1_867),
                (ParamId::RectSize, 200),
                (ParamId::ClipMode, 2),
                (ParamId::ClipMethod, 1),
                (ParamId::Opaque, 0),
            ],
        ),
        BenchDef::scaled(
            "Rect - 400px - Global `clip_path` (opaque)",
            "rendering many opaque paths with a single clip path",
            "Clip Paths (opaque)",
            SceneId::Clip,
            ScaleGroup::ClipGlobal,
            4_890,
            vec![
                (ParamId::NumRects, 4_890),
                (ParamId::RectSize, 400),
                (ParamId::ClipMode, 1),
                (ParamId::ClipMethod, 0),
                (ParamId::Opaque, 1),
            ],
        ),
        BenchDef::scaled(
            "Rect - 200px - Per-shape `clip_path` (opaque)",
            "rendering many opaque paths with many clip paths",
            "Clip Paths (opaque)",
            SceneId::Clip,
            ScaleGroup::ClipPerShape,
            1_867,
            vec![
                (ParamId::NumRects, 1_867),
                (ParamId::RectSize, 200),
                (ParamId::ClipMode, 2),
                (ParamId::ClipMethod, 0),
                (ParamId::Opaque, 1),
            ],
        ),
        BenchDef::scaled(
            "Text - 8px",
            "rendering small semi-transparent text",
            "Text (alpha)",
            SceneId::Text,
            ScaleGroup::Text8,
            6_460,
            vec![
                (ParamId::NumRuns, 6_460),
                (ParamId::FontSize, 8),
                (ParamId::Opaque, 0),
            ],
        ),
        BenchDef::scaled(
            "Text - 24px",
            "rendering medium-sized semi-transparent text",
            "Text (alpha)",
            SceneId::Text,
            ScaleGroup::Text24,
            4_536,
            vec![
                (ParamId::NumRuns, 4_536),
                (ParamId::FontSize, 24),
                (ParamId::Opaque, 0),
            ],
        ),
        BenchDef::scaled(
            "Text - 60px",
            "rendering large semi-transparent text",
            "Text (alpha)",
            SceneId::Text,
            ScaleGroup::Text60,
            2_273,
            vec![
                (ParamId::NumRuns, 2_273),
                (ParamId::FontSize, 60),
                (ParamId::Opaque, 0),
            ],
        ),
        BenchDef::scaled(
            "Text - 8px (opaque)",
            "rendering small opaque text",
            "Text (opaque)",
            SceneId::Text,
            ScaleGroup::Text8,
            6_460,
            vec![
                (ParamId::NumRuns, 6_460),
                (ParamId::FontSize, 8),
                (ParamId::Opaque, 1),
            ],
        ),
        BenchDef::scaled(
            "Text - 24px (opaque)",
            "rendering medium-sized opaque text",
            "Text (opaque)",
            SceneId::Text,
            ScaleGroup::Text24,
            4_536,
            vec![
                (ParamId::NumRuns, 4_536),
                (ParamId::FontSize, 24),
                (ParamId::Opaque, 1),
            ],
        ),
        BenchDef::scaled(
            "Text - 60px (opaque)",
            "rendering large opaque text",
            "Text (opaque)",
            SceneId::Text,
            ScaleGroup::Text60,
            2_273,
            vec![
                (ParamId::NumRuns, 2_273),
                (ParamId::FontSize, 60),
                (ParamId::Opaque, 1),
            ],
        ),
    ];
    // Each definition, field by field, is the listed one.
    assert(defs@[0].params@ == spec_bench_def(0).params);
    assert(defs@[0]@ == spec_bench_def(0));
    assert(defs@[1].params@ == spec_bench_def(1).params);
    assert(defs@[1]@ == spec_bench_def(1));
    assert(defs@[2].params@ == spec_bench_def(2).params);
    assert(defs@[2]@ == spec_bench_def(2));
    assert(defs@[3].params@ == spec_bench_def(3).params);
    assert(defs@[3]@ == spec_bench_def(3));
    assert(defs@[4].params@ == spec_bench_def(4).params);
    assert(defs@[4]@ == spec_bench_def(4));
    assert(defs@[5].params@ == spec_bench_def(5).params);
    assert(defs@[5]@ == spec_bench_def(5));
    assert(defs@[6].params@ == spec_bench_def(6).params);
    assert(defs@[6]@ == spec_bench_def(6));
    assert(defs@[7].params@ == spec_bench_def(7).params);
    assert(defs@[7]@ == spec_bench_def(7));
    assert(defs@[8].params@ == spec_bench_def(8).params);
    assert(defs@[8]@ == spec_bench_def(8));
    assert(defs@[9].params@ == spec_bench_def(9).params);
    assert(defs@[9]@ == spec_bench_def(9));
    assert(defs@[10].params@ == spec_bench_def(10).params);
    assert(defs@[10]@ == spec_bench_def(10));
    assert(defs@[11].params@ == spec_bench_def(11).params);
    assert(defs@[11]@ == spec_bench_def(11));
    assert(defs@[12].params@ == spec_bench_def(12).params);
    assert(defs@[12]@ == spec_bench_def(12));
    assert(defs@[13].params@ == spec_bench_def(13).params);
    assert(defs@[13]@ == spec_bench_def(13));
    assert(defs@[14].params@ == spec_bench_def(14).params);
    assert(defs@[14]@ == spec_bench_def(14));
    assert(defs@[15].params@ == spec_bench_def(15).params);
    assert(defs@[15]@ == spec_bench_def(15));
    assert(defs@[16].params@ == spec_bench_def(16).params);
    assert(defs@[16]@ == spec_bench_def(16));
    assert(defs@[17].params@ == spec_bench_def(17).params);
    assert(defs@[17]@ == spec_bench_def(17));
    assert(defs@[18].params@ == spec_bench_def(18).params);
    assert(defs@[18]@ == spec_bench_def(18));
    assert(defs@[19].params@ == spec_bench_def(19).params);
    assert(defs@[19]@ == spec_bench_def(19));
    assert(defs@[20].params@ == spec_bench_def(20).params);
    assert(defs@[20]@ == spec_bench_def(20));
    assert(defs@[21].params@ == spec_bench_def(21).params);
    assert(defs@[21]@ == spec_bench_def(21));
    assert(defs@[22].params@ == spec_bench_def(22).params);
    assert(defs@[22]@ == spec_bench_def(22));
    assert(defs@[23].params@ == spec_bench_def(23).params);
    assert(defs@[23]@ == spec_bench_def(23));
    assert(defs@[24].params@ == spec_bench_def(24).params);
    assert(defs@[24]@ == spec_bench_def(24));
    assert(defs@[25].params@ == spec_bench_def(25).params);
    assert(defs@[25]@ == spec_bench_def(25));
    assert(defs@[26].params@ == spec_bench_def(26).params);
    assert(defs@[26]@ == spec_bench_def(26));
    assert(defs@[27].params@ == spec_bench_def(27).params);
    assert(defs@[27]@ == spec_bench_def(27));
    assert(defs@[28].params@ == spec_bench_def(28).params);
    assert(defs@[28]@ == spec_bench_def(28));
    assert(defs@[29].params@ == spec_bench_def(29).params);
    assert(defs@[29]@ == spec_bench_def(29));
    assert(defs@[30].params@ == spec_bench_def(30).params);
    assert(defs@[30]@ == spec_bench_def(30));
    assert(defs@[31].params@ == spec_bench_def(31).params);
    assert(defs@[31]@ == spec_bench_def(31));
    assert(defs@[32].params@ == spec_bench_def(32).params);
    assert(defs@[32]@ == spec_bench_def(32));
    assert(defs@[33].params@ == spec_bench_def(33).params);
    assert(defs@[33]@ == spec_bench_def(33));
    assert(defs@[34].params@ == spec_bench_def(34).params);
    assert(defs@[34]@ == spec_bench_def(34));
    assert(defs@[35].params@ == spec_bench_def(35).params);
    assert(defs@[35]@ == spec_bench_def(35));
    assert(defs@[36].params@ == spec_bench_def(36).params);
    assert(defs@[36]@ == spec_bench_def(36));
    assert(defs@[37].params@ == spec_bench_def(37).params);
    assert(defs@[37]@ == spec_bench_def(37));
    assert(defs@[38].params@ == spec_bench_def(38).params);
    assert(defs@[38]@ == spec_bench_def(38));
    assert(defs@[39].params@ == spec_bench_def(39).params);
    assert(defs@[39]@ == spec_bench_def(39));
    defs
}

/// The categories whose benchmarks stand for their scale group when calibrating.
pub open spec fn is_representative_category(c: Seq<char>) -> bool {
    c == "Rects (alpha)"@ || c == "Images (alpha)"@ || c == "Strokes (alpha)"@ || c == "Fills"@
        || c == "Clip Paths (alpha)"@ || c == "Text (alpha)"@
}

fn is_calibration_representative(def: &BenchDef) -> (r: bool)
    ensures
        r == is_representative_category(def.category@),
{
    str_equals(def.category, "Rects (alpha)") || str_equals(def.category, "Images (alpha)")
        || str_equals(def.category, "Strokes (alpha)") || str_equals(def.category, "Fills")
        || str_equals(def.category, "Clip Paths (alpha)") || str_equals(
        def.category,
        "Text (alpha)",
    )
}

/// A benchmark whose shape count is calibrated for its whole group.
#[derive(Debug)]
pub struct CalibrationTarget {
    pub group: ScaleGroup,
    pub label: &'static str,
    pub scene_id: SceneId,
    pub scale_param: ParamId,
    pub params: Vec<(ParamId, u32)>,
}

/// Whether the definition at index `i` is scaled and representative.
pub open spec fn is_candidate(d: BenchDef) -> bool {
    d.scale is Some && is_representative_category(d.category@)
}

/// Whether one of the chosen indices already stands for `group`.
pub open spec fn group_taken(defs: Seq<BenchDef>, chosen: Seq<int>, group: ScaleGroup) -> bool {
    exists|k: int| 0 <= k < chosen.len() && (#[trigger] defs[chosen[k]]).scale->0.group == group
}

/// The indices, among the first `n` definitions, of the calibration targets:
/// for each scale group, its first scaled definition in a representative category.
pub open spec fn target_indices(defs: Seq<BenchDef>, n: nat) -> Seq<int>
    decreases n,
{
    if n == 0 {
        seq![]
    } else {
        let prev = target_indices(defs, (n - 1) as nat);
        let d = defs[n - 1];
        if is_candidate(d) && !group_taken(defs, prev, d.scale->0.group) {
            prev.push(n - 1)
        } else {
            prev
        }
    }
}

/// The chosen indices are increasing, in range and candidates, and no group
/// is chosen twice.
pub proof fn lemma_target_indices_shape(defs: Seq<BenchDef>, n: nat)
    requires
        n <= defs.len(),
    ensures
        forall|k: int|
            0 <= k < target_indices(defs, n).len() ==> 0 <= #[trigger] target_indices(defs, n)[k]
                < n && is_candidate(defs[target_indices(defs, n)[k]]),
        forall|j: int, k: int|
            0 <= j < k < target_indices(defs, n).len() ==> target_indices(defs, n)[j]
                < target_indices(defs, n)[k] && defs[target_indices(defs, n)[j]].scale->0.group
                != defs[target_indices(defs, n)[k]].scale->0.group,
    decreases n,
{
    if n > 0 {
        lemma_target_indices_shape(defs, (n - 1) as nat);
        let prev = target_indices(defs, (n - 1) as nat);
        let d = defs[n - 1];
        if is_candidate(d) && !group_taken(defs, prev, d.scale->0.group) {
            let cur = target_indices(defs, n);
            assert(cur == prev.push(n - 1));
            assert forall|j: int, k: int| 0 <= j < k < cur.len() implies cur[j] < cur[k]
                && defs[cur[j]].scale->0.group != defs[cur[k]].scale->0.group by {
                if k == cur.len() - 1 {
                    assert(cur[j] == prev[j]);
                    if defs[prev[j]].scale->0.group == d.scale->0.group {
                        assert(group_taken(defs, prev, d.scale->0.group));
                    }
                }
            }
        }
    }
}

/// Every scale group with a representative scaled definition among the
/// first `n` gets a calibration target.
pub proof fn lemma_every_group_calibrated(defs: Seq<BenchDef>, n: nat)
    requires
        n <= defs.len(),
    ensures
        forall|i: int|
            0 <= i < n && is_candidate(#[trigger] defs[i]) ==> group_taken(
                defs,
                target_indices(defs, n),
                defs[i].scale->0.group,
            ),
    decreases n,
{
    if n > 0 {
        lemma_every_group_calibrated(defs, (n - 1) as nat);
        let prev = target_indices(defs, (n - 1) as nat);
        let cur = target_indices(defs, n);
        let d = defs[n - 1];
        assert forall|i: int| 0 <= i < n && is_candidate(#[trigger] defs[i]) implies group_taken(
            defs,
            cur,
            defs[i].scale->0.group,
        ) by {
            let g = defs[i].scale->0.group;
            if is_candidate(d) && !group_taken(defs, prev, d.scale->0.group) {
                assert(cur == prev.push(n - 1));
                if i == n - 1 {
                    assert(defs[cur[prev.len() as int]].scale->0.group == g);
                } else {
                    let k = choose|k: int|
                        0 <= k < prev.len() && (#[trigger] defs[prev[k]]).scale->0.group == g;
                    assert(cur[k] == prev[k]);
                    assert(defs[cur[k]].scale->0.group == g);
                }
            } else {
                assert(cur == prev);
                if i == n - 1 {
                    assert(group_taken(defs, prev, g));
                }
            }
        }
    }
}

fn copy_params(params: &Vec<(ParamId, u32)>) -> (r: Vec<(ParamId, u32)>)
    ensures
        r@ == params@,
{
    let mut r: Vec<(ParamId, u32)> = Vec::new();
    let mut i: usize = 0;
    while i < params.len()
        invariant
            i <= params@.len(),
            r@ == params@.take(i as int),
        decreases params@.len() - i,
    {
        r.push(params[i]);
        i = i + 1;
        assert(r@ =~= params@.take(i as int));
    }
    assert(params@.take(i as int) =~= params@);
    r
}

/// One calibration target per scale group, from the first representative
/// definition of that group, in definition order.
pub fn calibration_targets(defs: &Vec<BenchDef>) -> (out: Vec<CalibrationTarget>)
    ensures
        out@.len() == target_indices(defs@, defs@.len()).len(),
        forall|k: int|
            0 <= k < out@.len() ==> {
                let d = defs@[target_indices(defs@, defs@.len())[k]];
                &&& (#[trigger] out@[k]).group == d.scale->0.group
                &&& out@[k].label == d.name
                &&& out@[k].scene_id == d.scene_id
                &&& out@[k].scale_param == d.scale->0.param
                &&& out@[k].params@ == d.params@
            },
{
    let mut out: Vec<CalibrationTarget> = Vec::new();
    let mut i: usize = 0;
    while i < defs.len()
        invariant
            i <= defs@.len(),
            out@.len() == target_indices(defs@, i as nat).len(),
            forall|k: int|
                0 <= k < out@.len() ==> {
                    let d = defs@[target_indices(defs@, i as nat)[k]];
                    &&& (#[trigger] out@[k]).group == d.scale->0.group
                    &&& out@[k].label == d.name
                    &&& out@[k].scene_id == d.scene_id
                    &&& out@[k].scale_param == d.scale->0.param
                    &&& out@[k].params@ == d.params@
                },
        decreases defs@.len() - i,
    {
        let def = &defs[i];
        let ghost prev = target_indices(defs@, i as nat);
        proof {
            lemma_target_indices_shape(defs@, i as nat);
        }
        match def.scale {
            Some(scale) => {
                if is_calibration_representative(def) {
                    let mut seen = false;
                    let mut k: usize = 0;
                    while k < out.len()
                        invariant
                            k <= out@.len(),
                            out@.len() == prev.len(),
                            forall|m: int|
                                0 <= m < out@.len() ==> (#[trigger] out@[m]).group
                                    == defs@[prev[m]].scale->0.group,
                            seen == exists|m: int|
                                0 <= m < k && (#[trigger] defs@[prev[m]]).scale->0.group
                                    == scale.group,
                        decreases out@.len() - k,
                    {
                        if out[k].group == scale.group {
                            seen = true;
                            assert(defs@[prev[k as int]].scale->0.group == scale.group);
                        }
                        k = k + 1;
                    }
                    assert(seen == group_taken(defs@, prev, scale.group));
                    if !seen {
                        out.push(
                            CalibrationTarget {
                                group: scale.group,
                                label: def.name,
                                scene_id: def.scene_id,
                                scale_param: scale.param,
                                params: copy_params(&def.params),
                            },
                        );
                    }
                }
            },
            None => {},
        }
        i = i + 1;
    }
    out
}

/// No scale group is calibrated twice.
pub proof fn lemma_calibration_groups_distinct(defs: Seq<BenchDef>)
    ensures
        forall|j: int, k: int|
            0 <= j < k < target_indices(defs, defs.len()).len() ==> defs[target_indices(
                defs,
                defs.len(),
            )[j]].scale->0.group != defs[target_indices(defs, defs.len())[k]].scale->0.group,
{
    lemma_target_indices_shape(defs, defs.len());
}

} // verus!
