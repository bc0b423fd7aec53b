use vello_bench2::backend_kind::{
    current_backend_capabilities, current_backend_kind, initial_scene, supports_param, supports_scene,
    BackendKind, CapabilityProfile,
};
use vello_bench2::bench_defs::{bench_defs, calibration_targets, ScaleGroup, BENCH_DEF_COUNT};
use vello_bench2::scene_ids::{ParamId, SceneId};

#[test]
fn backend_names_round_trip() {
    for kind in BackendKind::all() {
        assert_eq!(BackendKind::from_str(kind.as_str()), Some(kind));
    }
    assert_eq!(BackendKind::all().len(), 6);
}

#[test]
fn backend_legacy_aliases() {
    assert_eq!(BackendKind::from_str("webgpu"), Some(BackendKind::Vello));
    assert_eq!(BackendKind::from_str("canvas2d_software"), Some(BackendKind::Canvas2dCpu));
    assert_eq!(BackendKind::from_str("Hybrid"), None);
    assert_eq!(BackendKind::from_str(""), None);
}

#[test]
fn backend_labels() {
    assert_eq!(BackendKind::Hybrid.label(), "Vello Hybrid");
    assert_eq!(BackendKind::Canvas2dCpu.label(), "Canvas 2D (CPU)");
    assert_eq!(BackendKind::Canvas2dCpu.as_str(), "canvas2d_cpu");
}

#[test]
fn backend_availability() {
    assert!(!BackendKind::Vello.is_available(false));
    assert!(BackendKind::Vello.is_available(true));
    assert!(BackendKind::Cpu.is_available(false));
    assert_eq!(BackendKind::available(false).len(), 5);
    assert!(!BackendKind::available(false).contains(&BackendKind::Vello));
    assert_eq!(BackendKind::available(true), BackendKind::all());
}

#[test]
fn current_backend_choice() {
    assert_eq!(current_backend_kind(None, true), BackendKind::Hybrid);
    assert_eq!(current_backend_kind(Some("cpu"), false), BackendKind::Cpu);
    assert_eq!(current_backend_kind(Some("vello"), false), BackendKind::Hybrid);
    assert_eq!(current_backend_kind(Some("webgpu"), true), BackendKind::Vello);
    assert_eq!(current_backend_kind(Some("bogus"), true), BackendKind::Hybrid);
}

#[test]
fn pathfinder_supports_rects_only() {
    assert!(supports_scene(SceneId::Rect));
    assert!(!supports_scene(SceneId::Text));
    assert!(supports_param(SceneId::Rect, ParamId::NumRects));
    assert!(supports_param(SceneId::Rect, ParamId::Rotated));
    assert!(!supports_param(SceneId::Rect, ParamId::PaintMode));
    assert!(!supports_param(SceneId::Svg, ParamId::SvgAsset));
    assert_eq!(BackendKind::Pathfinder.capabilities(), CapabilityProfile::RectsOnly);
    let caps = current_backend_capabilities(BackendKind::Pathfinder);
    assert!(!caps.supports_scene(SceneId::Clip));
    let caps = current_backend_capabilities(BackendKind::Hybrid);
    assert!(caps.supports_scene(SceneId::Clip));
    assert!(caps.supports_param(SceneId::Text, ParamId::FontSize));
}

#[test]
fn bench_defs_count_and_scaling() {
    let defs = bench_defs();
    assert_eq!(defs.len(), BENCH_DEF_COUNT);
    for def in &defs {
        if let Some(scale) = def.scale {
            assert_eq!(def.params[0].0, scale.param);
        }
    }
}

#[test]
fn calibration_targets_one_per_group() {
    let defs = bench_defs();
    let targets = calibration_targets(&defs);
    assert_eq!(targets.len(), 16);
    let mut groups: Vec<ScaleGroup> = targets.iter().map(|t| t.group).collect();
    let n = groups.len();
    groups.dedup();
    assert_eq!(groups.len(), n);
    assert_eq!(targets[0].group, ScaleGroup::Rects5);
    assert_eq!(targets[0].label, "Rect - 5×5 - Solid");
    for t in &targets {
        let def = defs.iter().find(|d| d.name == t.label).unwrap();
        assert_eq!(def.scale.unwrap().group, t.group);
        assert_eq!(def.params, t.params);
    }
}

#[test]
fn bench_def_names_distinct_and_groups_consistent() {
    let defs = bench_defs();
    for (i, a) in defs.iter().enumerate() {
        for b in &defs[i + 1..] {
            assert_ne!(a.name, b.name);
            if let (Some(sa), Some(sb)) = (a.scale, b.scale) {
                if sa.group == sb.group {
                    assert_eq!(sa.param, sb.param);
                    assert_eq!(sa.default_calibrated_value, sb.default_calibrated_value);
                }
            }
        }
    }
    assert_eq!(defs[0].name, "Rect - 5×5 - Solid");
    assert_eq!(defs[0].scale.unwrap().default_calibrated_value, 3_044_740);
    assert_eq!(defs[0].params[0], (ParamId::NumRects, 3_044_740));
}

#[test]
fn vello_profile_denies_filters() {
    let caps = current_backend_capabilities(BackendKind::Vello);
    assert!(!caps.supports_scene(SceneId::FilterLayers));
    assert!(caps.supports_scene(SceneId::Svg));
    assert!(!caps.supports_param(SceneId::Rect, ParamId::ImageFilter));
    assert!(!caps.supports_param(SceneId::Rect, ParamId::UseDrawImage));
    assert!(caps.supports_param(SceneId::Rect, ParamId::NumRects));
    assert!(caps.supports_param(SceneId::Strokes, ParamId::ImageFilter));
    assert_eq!(BackendKind::Vello.capabilities(), CapabilityProfile::NoFilters);
}

#[test]
fn initial_scene_choice() {
    let scenes = vec![SceneId::Strokes, SceneId::Rect, SceneId::FilterLayers, SceneId::Svg];
    let vello = current_backend_capabilities(BackendKind::Vello);
    let pathfinder = current_backend_capabilities(BackendKind::Pathfinder);
    assert_eq!(initial_scene(Some(3), &scenes, vello), 3);
    assert_eq!(initial_scene(Some(2), &scenes, vello), 1);
    assert_eq!(initial_scene(Some(9), &scenes, vello), 1);
    assert_eq!(initial_scene(None, &scenes, vello), 1);
    assert_eq!(initial_scene(Some(0), &scenes, pathfinder), 1);
    assert_eq!(initial_scene(Some(0), &vec![SceneId::Svg], pathfinder), 0);
}
