use vstd::prelude::*;

verus! {

/// The two strategies that the external-texture benchmark compares.
#[derive(Clone, Copy, Debug, PartialEq, Eq, Structural)]
pub enum RenderMode {
    ImagePaint,
    ExternalTexture,
}

impl RenderMode {
    /// The strategy paired with this one.
    pub open spec fn other_spec(self) -> RenderMode {
        match self {
            RenderMode::ImagePaint => RenderMode::ExternalTexture,
            RenderMode::ExternalTexture => RenderMode::ImagePaint,
        }
    }

    /// The strategy's display name.
    pub open spec fn label_spec(self) -> Seq<char> {
        match self {
            RenderMode::ImagePaint => "image paint"@,
            RenderMode::ExternalTexture => "external texture"@,
        }
    }

    /// Human-readable name of the strategy.
    pub fn label(self) -> (s: &'static str)
        ensures
            s@ == self.label_spec(),
    {
        match self {
            RenderMode::ImagePaint => "image paint",
            RenderMode::ExternalTexture => "external texture",
        }
    }

    /// The strategy that is measured against this one.
    pub fn other(self) -> (m: RenderMode)
        ensures
            m == self.other_spec(),
    {
        match self {
            RenderMode::ImagePaint => RenderMode::ExternalTexture,
            RenderMode::ExternalTexture => RenderMode::ImagePaint,
        }
    }
}

/// Pairing is an involution that never pairs a strategy with itself.
pub proof fn lemma_other_involution(mode: RenderMode)
    ensures
        mode.other_spec() != mode,
        mode.other_spec().other_spec() == mode,
{
}

} // verus!
