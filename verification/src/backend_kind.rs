//! The renderer backends the playground can switch between, their names and
//! what each can render.
use vstd::prelude::*;

use crate::scene_ids::{ParamId, SceneId};
use crate::text::str_equals;

verus! {

broadcast use vstd::string::group_string_axioms;

/// A renderer backend.
#[derive(Debug, Clone, Copy, PartialEq, Eq, Structural)]
pub enum BackendKind {
    Hybrid,
    Vello,
    Cpu,
    Pathfinder,
    Canvas2d,
    Canvas2dCpu,
}

/// The name under which a backend is stored and selected.
pub open spec fn spec_as_str(kind: BackendKind) -> Seq<char> {
    match kind {
        BackendKind::Hybrid => "hybrid"@,
        BackendKind::Vello => "vello"@,
        BackendKind::Cpu => "cpu"@,
        BackendKind::Pathfinder => "pathfinder"@,
        BackendKind::Canvas2d => "canvas2d"@,
        BackendKind::Canvas2dCpu => "canvas2d_cpu"@,
    }
}

/// The backend that a stored name selects; two legacy aliases are accepted.
pub open spec fn spec_from_str(name: Seq<char>) -> Option<BackendKind> {
    if name == "hybrid"@ {
        Some(BackendKind::Hybrid)
    } else if name == "vello"@ || name == "webgpu"@ {
        Some(BackendKind::Vello)
    } else if name == "cpu"@ {
        Some(BackendKind::Cpu)
    } else if name == "pathfinder"@ {
        Some(BackendKind::Pathfinder)
    } else if name == "canvas2d"@ {
        Some(BackendKind::Canvas2d)
    } else if name == "canvas2d_cpu"@ || name == "canvas2d_software"@ {
        Some(BackendKind::Canvas2dCpu)
    } else {
        None
    }
}

/// Whether a backend can be used: only Vello needs WebGPU.
pub open spec fn spec_is_available(kind: BackendKind, webgpu_supported: bool) -> bool {
    kind == BackendKind::Vello ==> webgpu_supported
}

/// All backends, in the order the renderer menu lists them.
pub open spec fn all_kinds() -> Seq<BackendKind> {
    seq![
        BackendKind::Hybrid,
        BackendKind::Vello,
        BackendKind::Cpu,
        BackendKind::Pathfinder,
        BackendKind::Canvas2d,
        BackendKind::Canvas2dCpu,
    ]
}

impl BackendKind {
    /// All backends, in menu order.
    pub fn all() -> (v: Vec<BackendKind>)
        ensures
            v@ == all_kinds(),
    {
        let v = vec![
            BackendKind::Hybrid,
            BackendKind::Vello,
            BackendKind::Cpu,
            BackendKind::Pathfinder,
            BackendKind::Canvas2d,
            BackendKind::Canvas2dCpu,
        ];
        assert(v@ =~= all_kinds());
        v
    }

    /// The name under which this backend is stored.
    pub fn as_str(self) -> (s: &'static str)
        ensures
            s@ == spec_as_str(self),
    {
        match self {
            BackendKind::Hybrid => "hybrid",
            BackendKind::Vello => "vello",
            BackendKind::Cpu => "cpu",
            BackendKind::Pathfinder => "pathfinder",
            BackendKind::Canvas2d => "canvas2d",
            BackendKind::Canvas2dCpu => "canvas2d_cpu",
        }
    }

    /// The name shown in the renderer menu.
    pub fn label(self) -> (s: &'static str)
        ensures
            self == BackendKind::Hybrid ==> s@ == "Vello Hybrid"@,
            self == BackendKind::Vello ==> s@ == "Vello"@,
            self == BackendKind::Cpu ==> s@ == "Vello CPU"@,
            self == BackendKind::Pathfinder ==> s@ == "Pathfinder"@,
            self == BackendKind::Canvas2d ==> s@ == "Canvas 2D"@,
            self == BackendKind::Canvas2dCpu ==> s@ == "Canvas 2D (CPU)"@,
    {
        match self {
            BackendKind::Hybrid => "Vello Hybrid",
            BackendKind::Vello => "Vello",
            BackendKind::Cpu => "Vello CPU",
            BackendKind::Pathfinder => "Pathfinder",
            BackendKind::Canvas2d => "Canvas 2D",
            BackendKind::Canvas2dCpu => "Canvas 2D (CPU)",
        }
    }

    /// The backend that `value` names, if any.
    pub fn from_str(value: &str) -> (r: Option<BackendKind>)
        ensures
            r == spec_from_str(value@),
    {
        if str_equals(value, "hybrid") {
            Some(BackendKind::Hybrid)
        } else if str_equals(value, "vello") || str_equals(value, "webgpu") {
            Some(BackendKind::Vello)
        } else if str_equals(value, "cpu") {
            Some(BackendKind::Cpu)
        } else if str_equals(value, "pathfinder") {
            Some(BackendKind::Pathfinder)
        } else if str_equals(value, "canvas2d") {
            Some(BackendKind::Canvas2d)
        } else if str_equals(value, "canvas2d_cpu") || str_equals(value, "canvas2d_software") {
            Some(BackendKind::Canvas2dCpu)
        } else {
            None
        }
    }

    /// What this backend can render.
    pub fn capabilities(self) -> (p: CapabilityProfile)
        ensures
            p == spec_capabilities(self),
    {
        match self {
            BackendKind::Pathfinder => CapabilityProfile::RectsOnly,
            BackendKind::Vello => CapabilityProfile::NoFilters,
            _ => CapabilityProfile::Full,
        }
    }

    /// Whether this backend can be used, given whether the browser offers WebGPU.
    pub fn is_available(self, webgpu_supported: bool) -> (r: bool)
        ensures
            r == spec_is_available(self, webgpu_supported),
    {
        match self {
            BackendKind::Vello => webgpu_supported,
            _ => true,
        }
    }

    /// The usable backends, in menu order.
    pub fn available(webgpu_supported: bool) -> (v: Vec<BackendKind>)
        ensures
            v@ == all_kinds().filter(|k: BackendKind| spec_is_available(k, webgpu_supported)),
    {
        let all = BackendKind::all();
        let mut out: Vec<BackendKind> = Vec::new();
        let mut i: usize = 0;
        let ghost pred = |k: BackendKind| spec_is_available(k, webgpu_supported);
        while i < all.len()
            invariant
                i <= all@.len(),
                all@ == all_kinds(),
                pred == (|k: BackendKind| spec_is_available(k, webgpu_supported)),
                out@ == all_kinds().take(i as int).filter(pred),
            decreases all@.len() - i,
        {
            let kind = all[i];
            proof {
                reveal(Seq::filter);
                assert(all_kinds().take(i + 1).drop_last() =~= all_kinds().take(i as int));
                assert(all_kinds().take(i + 1).last() == kind);
            }
            if kind.is_available(webgpu_supported) {
                out.push(kind);
            }
            i = i + 1;
        }
        assert(all_kinds().take(i as int) =~= all_kinds());
        out
    }
}

/// The backend the playground starts with: the stored choice if it names an
/// available backend, otherwise Vello Hybrid.
pub open spec fn spec_current_backend_kind(saved: Option<Seq<char>>, webgpu_supported: bool) -> BackendKind {
    match saved {
        Some(name) => match spec_from_str(name) {
            Some(kind) => if spec_is_available(kind, webgpu_supported) {
                kind
            } else {
                BackendKind::Hybrid
            },
            None => BackendKind::Hybrid,
        },
        None => BackendKind::Hybrid,
    }
}

/// The backend to start with, from the stored backend name (if any) and
/// whether the browser offers WebGPU.
pub fn current_backend_kind(saved: Option<&str>, webgpu_supported: bool) -> (k: BackendKind)
    ensures
        k == spec_current_backend_kind(
            match saved {
                Some(s) => Some(s@),
                None => None,
            },
            webgpu_supported,
        ),
{
    match saved {
        Some(name) => match BackendKind::from_str(name) {
            Some(kind) => if kind.is_available(webgpu_supported) {
                kind
            } else {
                BackendKind::Hybrid
            },
            None => BackendKind::Hybrid,
        },
        None => BackendKind::Hybrid,
    }
}

/// Which scenes and parameters a backend renders.
#[derive(Debug, Clone, Copy, PartialEq, Eq, Structural)]
pub enum CapabilityProfile {
    /// Every scene and parameter.
    Full,
    /// Only the rectangle scene, with its count, size and rotation.
    RectsOnly,
    /// Every scene but the filter layers, and in the rectangle scene no
    /// image filter and no draw-image path.
    NoFilters,
}

pub open spec fn spec_capabilities(kind: BackendKind) -> CapabilityProfile {
    match kind {
        BackendKind::Pathfinder => CapabilityProfile::RectsOnly,
        BackendKind::Vello => CapabilityProfile::NoFilters,
        _ => CapabilityProfile::Full,
    }
}

/// The scenes that the `NoFilters` profile renders.
pub open spec fn spec_no_filters_supports_scene(scene_id: SceneId) -> bool {
    scene_id != SceneId::FilterLayers
}

/// The parameters that the `NoFilters` profile honours.
pub open spec fn spec_no_filters_supports_param(scene_id: SceneId, param: ParamId) -> bool {
    spec_no_filters_supports_scene(scene_id) && !(scene_id == SceneId::Rect && (param
        == ParamId::ImageFilter || param == ParamId::UseDrawImage))
}

/// The scenes that Pathfinder renders.
pub open spec fn spec_pathfinder_supports_scene(scene_id: SceneId) -> bool {
    scene_id == SceneId::Rect
}

/// The parameters that Pathfinder honours.
pub open spec fn spec_pathfinder_supports_param(scene_id: SceneId, param: ParamId) -> bool {
    scene_id == SceneId::Rect && (param == ParamId::NumRects || param == ParamId::RectSize
        || param == ParamId::Rotated)
}

/// Whether the Pathfinder backend renders `scene_id`.
pub fn supports_scene(scene_id: SceneId) -> (r: bool)
    ensures
        r == spec_pathfinder_supports_scene(scene_id),
{
    matches!(scene_id, SceneId::Rect)
}

/// Whether the Pathfinder backend honours `param` in `scene_id`.
pub fn supports_param(scene_id: SceneId, param: ParamId) -> (r: bool)
    ensures
        r == spec_pathfinder_supports_param(scene_id, param),
{
    match scene_id {
        SceneId::Rect => match param {
            ParamId::NumRects | ParamId::RectSize | ParamId::Rotated => true,
            _ => false,
        },
        _ => false,
    }
}

pub open spec fn spec_profile_supports_scene(p: CapabilityProfile, scene_id: SceneId) -> bool {
    match p {
        CapabilityProfile::Full => true,
        CapabilityProfile::RectsOnly => spec_pathfinder_supports_scene(scene_id),
        CapabilityProfile::NoFilters => spec_no_filters_supports_scene(scene_id),
    }
}

pub open spec fn spec_profile_supports_param(
    p: CapabilityProfile,
    scene_id: SceneId,
    param: ParamId,
) -> bool {
    match p {
        CapabilityProfile::Full => true,
        CapabilityProfile::RectsOnly => spec_pathfinder_supports_param(scene_id, param),
        CapabilityProfile::NoFilters => spec_no_filters_supports_param(scene_id, param),
    }
}

impl CapabilityProfile {
    pub fn supports_scene(self, scene_id: SceneId) -> (r: bool)
        ensures
            r == spec_profile_supports_scene(self, scene_id),
    {
        match self {
            CapabilityProfile::Full => true,
            CapabilityProfile::RectsOnly => supports_scene(scene_id),
            CapabilityProfile::NoFilters => !matches!(scene_id, SceneId::FilterLayers),
        }
    }

    pub fn supports_param(self, scene_id: SceneId, param: ParamId) -> (r: bool)
        ensures
            r == spec_profile_supports_param(self, scene_id, param),
    {
        match self {
            CapabilityProfile::Full => true,
            CapabilityProfile::RectsOnly => supports_param(scene_id, param),
            CapabilityProfile::NoFilters => match scene_id {
                SceneId::FilterLayers => false,
                SceneId::Rect => !matches!(param, ParamId::ImageFilter | ParamId::UseDrawImage),
                _ => true,
            },
        }
    }
}

/// The capabilities of the active backend.
#[derive(Debug, Clone, Copy)]
pub struct BackendCapabilities {
    pub kind: BackendKind,
}

impl BackendCapabilities {
    /// Whether the backend renders `scene_id`.
    pub fn supports_scene(self, scene_id: SceneId) -> (r: bool)
        ensures
            r == spec_profile_supports_scene(spec_capabilities(self.kind), scene_id),
    {
        self.kind.capabilities().supports_scene(scene_id)
    }

    /// Whether the backend honours `param` in `scene_id`.
    pub fn supports_param(self, scene_id: SceneId, param: ParamId) -> (r: bool)
        ensures
            r == spec_profile_supports_param(spec_capabilities(self.kind), scene_id, param),
    {
        self.kind.capabilities().supports_param(scene_id, param)
    }
}

/// Pathfinder draws only the rectangle scene, and in it honours exactly the
/// rectangle count, the rectangle size and the rotation.
pub proof fn lemma_pathfinder_capabilities(scene_id: SceneId, param: ParamId)
    ensures
        spec_profile_supports_scene(spec_capabilities(BackendKind::Pathfinder), scene_id)
            <==> scene_id == SceneId::Rect,
        spec_profile_supports_param(spec_capabilities(BackendKind::Pathfinder), scene_id, param)
            <==> (scene_id == SceneId::Rect && (param == ParamId::NumRects || param
            == ParamId::RectSize || param == ParamId::Rotated)),
{
}

/// Every backend honours a parameter only in a scene that it draws, and
/// whatever Pathfinder or Vello honours, the full profile honours too.
pub proof fn lemma_param_support_within_scene(kind: BackendKind, scene_id: SceneId, param: ParamId)
    ensures
        spec_profile_supports_param(spec_capabilities(kind), scene_id, param)
            ==> spec_profile_supports_scene(spec_capabilities(kind), scene_id),
        spec_profile_supports_param(spec_capabilities(kind), scene_id, param)
            ==> spec_profile_supports_param(CapabilityProfile::Full, scene_id, param),
{
}

/// The capabilities of `kind`.
pub fn current_backend_capabilities(kind: BackendKind) -> (c: BackendCapabilities)
    ensures
        c.kind == kind,
{
    BackendCapabilities { kind }
}

/// Every backend's stored name selects that backend again.
pub proof fn lemma_name_round_trip(kind: BackendKind)
    ensures
        spec_from_str(spec_as_str(kind)) == Some(kind),
{
    reveal_strlit("hybrid");
    reveal_strlit("vello");
    reveal_strlit("webgpu");
    reveal_strlit("cpu");
    reveal_strlit("pathfinder");
    reveal_strlit("canvas2d");
    reveal_strlit("canvas2d_cpu");
    reveal_strlit("canvas2d_software");
    assert("hybrid"@.len() == 6);
    assert("vello"@.len() == 5);
    assert("webgpu"@.len() == 6);
    assert("cpu"@.len() == 3);
    assert("pathfinder"@.len() == 10);
    assert("canvas2d"@.len() == 8);
    assert("canvas2d_cpu"@.len() == 12);
    assert("canvas2d_software"@.len() == 17);
}

/// The starting backend is always available, whatever was stored.
pub proof fn lemma_current_backend_available(saved: Option<Seq<char>>, webgpu_supported: bool)
    ensures
        spec_is_available(spec_current_backend_kind(saved, webgpu_supported), webgpu_supported),
{
}

/// A stored name of an available backend selects it at start-up.
pub proof fn lemma_saved_backend_restored(kind: BackendKind, webgpu_supported: bool)
    requires
        spec_is_available(kind, webgpu_supported),
    ensures
        spec_current_backend_kind(Some(spec_as_str(kind)), webgpu_supported) == kind,
{
    lemma_name_round_trip(kind);
}

/// The position of the first `id` in `scenes`, if any.
pub open spec fn first_index_of(scenes: Seq<SceneId>, id: SceneId) -> Option<int>
    decreases scenes.len(),
{
    if scenes.len() == 0 {
        None
    } else if scenes[0] == id {
        Some(0)
    } else {
        match first_index_of(scenes.drop_first(), id) {
            Some(k) => Some(k + 1),
            None => None,
        }
    }
}

/// The scene shown at start-up or after a backend switch: the remembered
/// one if it exists and the backend renders it, otherwise the rectangle
/// scene (the first scene when the list holds none).
pub open spec fn spec_initial_scene(saved: Option<usize>, scenes: Seq<SceneId>, kind: BackendKind) -> int {
    match saved {
        Some(i) if i < scenes.len() && spec_profile_supports_scene(
            spec_capabilities(kind),
            scenes[i as int],
        ) => i as int,
        _ => match first_index_of(scenes, SceneId::Rect) {
            Some(k) => k,
            None => 0,
        },
    }
}

/// Chooses the scene to show, from the remembered scene index, the scenes
/// in menu order and the active backend's capabilities.
pub fn initial_scene(saved: Option<usize>, scenes: &Vec<SceneId>, caps: BackendCapabilities) -> (r: usize)
    ensures
        r == spec_initial_scene(saved, scenes@, caps.kind),
{
    if let Some(i) = saved {
        if i < scenes.len() && caps.supports_scene(scenes[i]) {
            return i;
        }
    }
    let mut k: usize = 0;
    assert(scenes@.skip(0) =~= scenes@);
    while k < scenes.len()
        invariant
            k <= scenes@.len(),
            !(saved matches Some(i) && i < scenes@.len() && spec_profile_supports_scene(
                spec_capabilities(caps.kind),
                scenes@[i as int],
            )),
            first_index_of(scenes@, SceneId::Rect) == (match first_index_of(
                scenes@.skip(k as int),
                SceneId::Rect,
            ) {
                Some(j) => Some(j + k),
                None => None,
            }),
        decreases scenes@.len() - k,
    {
        if scenes[k] == SceneId::Rect {
            assert(first_index_of(scenes@.skip(k as int), SceneId::Rect) == Some(0int));
            return k;
        }
        assert(scenes@.skip(k as int).drop_first() =~= scenes@.skip(k + 1));
        k = k + 1;
    }
    assert(scenes@.skip(k as int).len() == 0);
    0
}

} // verus!
