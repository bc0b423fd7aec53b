//! Identifiers of the benchmark scenes and of their parameters.
use vstd::prelude::*;

verus! {

/// The benchmark scenes.
#[derive(Clone, Copy, Debug, PartialEq, Eq, Hash, Structural)]
pub enum SceneId {
    Rect,
    Strokes,
    Polyline,
    Svg,
    Clip,
    Text,
    FilterLayers,
}

/// The parameters that scenes expose.
#[derive(Clone, Copy, Debug, PartialEq, Eq, Hash, Structural)]
pub enum ParamId {
    NumRects,
    RectSize,
    PaintMode,
    Rotated,
    Opaque,
    TargetOverlap,
    ImageFilter,
    ImageOpaque,
    UseDrawImage,
    NumStrokes,
    CurveType,
    StrokeWidth,
    NumVertices,
    SvgAsset,
    ClipMode,
    ClipMethod,
    NumRuns,
    FontSize,
    Speed,
}

} // verus!
