//! Turning a parsed SVG document into the SVG scene's draw commands: paths
//! become fills and strokes, clipped groups are bracketed by a clip push and
//! pop, nested SVG images are converted in place, and raster images are
//! collected with the draw command that paints them.
use vstd::prelude::*;

use crate::svg_assets::{DecodedImage, DrawKind, PremulPixel};

verus! {

/// A group of a parsed SVG document, as far as the conversion reads it.
#[derive(Debug)]
pub struct SvgGroup {
    /// Whether the group has a clip path, and if so whether that clip path
    /// flattens to a non-empty path.
    pub clip: Option<bool>,
    pub children: Vec<SvgNode>,
}

/// A node of a parsed SVG document.
#[derive(Debug)]
pub enum SvgNode {
    Group(SvgGroup),
    /// A path, with whether it is filled and whether it is stroked.
    Path { filled: bool, stroked: bool },
    /// An embedded image, with whether it is visible.
    Image { visible: bool, content: SvgImageContent },
    Text,
}

/// What an embedded image holds.
#[derive(Debug)]
pub enum SvgImageContent {
    /// A nested SVG document.
    Nested(SvgGroup),
    /// A raster image and the outcome of decoding it.
    Raster(Result<DecodedImage, String>),
}

/// The draw commands and the images that converting yields, and the error
/// that stopped it, if any.
pub struct Converted {
    pub kinds: Seq<DrawKind>,
    pub images: Seq<DecodedImage>,
    pub error: Option<Seq<char>>,
}

/// The conversion of a group whose first raster image gets index
/// `first_image`: its clip push (for a non-empty clip path),
/// its children, and a clip pop for any clip path once the children
/// converted without error.
pub open spec fn convert_group_spec(g: SvgGroup, first_image: nat) -> Converted
    decreases g, 0nat,
{
    let open = if g.clip == Some(true) { seq![DrawKind::PushClip] } else { seq![] };
    let inner = convert_nodes_spec(g.children@, first_image);
    if inner.error is Some {
        Converted { kinds: open + inner.kinds, images: inner.images, error: inner.error }
    } else {
        let close = if g.clip is Some { seq![DrawKind::PopClip] } else { seq![] };
        Converted { kinds: open + inner.kinds + close, images: inner.images, error: None }
    }
}

/// The conversion of sibling nodes, in order, stopping at the first error.
pub open spec fn convert_nodes_spec(nodes: Seq<SvgNode>, first_image: nat) -> Converted
    decreases nodes, 1nat,
{
    if nodes.len() == 0 {
        Converted { kinds: seq![], images: seq![], error: None }
    } else {
        let before = convert_nodes_spec(nodes.drop_last(), first_image);
        if before.error is Some {
            before
        } else {
            let last = convert_node_spec(nodes.last(), first_image + before.images.len());
            Converted {
                kinds: before.kinds + last.kinds,
                images: before.images + last.images,
                error: last.error,
            }
        }
    }
}

/// The conversion of one node: a group recursively; a path to a fill and
/// then a stroke, as it has them; an invisible image to nothing; a nested
/// document recursively; a raster image to its draw command and its image,
/// or to the decoding error; text to nothing.
pub open spec fn convert_node_spec(node: SvgNode, first_image: nat) -> Converted
    decreases node, 2nat,
{
    match node {
        SvgNode::Group(g) => convert_group_spec(g, first_image),
        SvgNode::Path { filled, stroked } => Converted {
            kinds: (if filled { seq![DrawKind::Fill] } else { seq![] }) + (if stroked {
                seq![DrawKind::Stroke]
            } else {
                seq![]
            }),
            images: seq![],
            error: None,
        },
        SvgNode::Image { visible, content } => if !visible {
            Converted { kinds: seq![], images: seq![], error: None }
        } else {
            match content {
                SvgImageContent::Nested(g) => convert_group_spec(g, first_image),
                SvgImageContent::Raster(Ok(img)) => Converted {
                    kinds: seq![DrawKind::Image { image_idx: first_image as usize }],
                    images: seq![img],
                    error: None,
                },
                SvgImageContent::Raster(Err(e)) => Converted {
                    kinds: seq![],
                    images: seq![],
                    error: Some(e@),
                },
            }
        },
        SvgNode::Text => Converted { kinds: seq![], images: seq![], error: None },
    }
}

/// An image that is not visible draws nothing: whatever it holds, a nested
/// document or a raster image, decoded or not, converting it adds no draw
/// command and no image and fails with no error.
pub proof fn lemma_invisible_image_draws_nothing(content: SvgImageContent, first_image: nat)
    ensures
        convert_node_spec(SvgNode::Image { visible: false, content }, first_image).kinds.len() == 0,
        convert_node_spec(SvgNode::Image { visible: false, content }, first_image).images.len() == 0,
        convert_node_spec(SvgNode::Image { visible: false, content }, first_image).error is None,
{
}

/// Once an error stops the conversion of siblings, later siblings add nothing.
proof fn lemma_nodes_error_stays(nodes: Seq<SvgNode>, k: nat, first_image: nat)
    requires
        k <= nodes.len(),
        convert_nodes_spec(nodes.take(k as int), first_image).error is Some,
    ensures
        convert_nodes_spec(nodes, first_image) == convert_nodes_spec(nodes.take(k as int), first_image),
    decreases nodes.len() - k,
{
    if k == nodes.len() {
        assert(nodes.take(k as int) =~= nodes);
    } else {
        assert(nodes.take((k + 1) as int).drop_last() =~= nodes.take(k as int));
        lemma_nodes_error_stays(nodes, k + 1, first_image);
    }
}

/// The pixels, size and translucency flag of each image.
pub open spec fn images_view(images: Seq<DecodedImage>) -> Seq<(Seq<PremulPixel>, u16, u16, bool)> {
    images.map_values(|img: DecodedImage| (img.pixels@, img.width, img.height, img.may_have_opacities))
}

/// Converts a group of a parsed SVG document, appending its draw commands
/// to `commands` and its raster images to `images` (each image command
/// names its image's index there). On an error the commands and images
/// appended before it stay, and the error is returned.
pub fn convert_group(
    g: &SvgGroup,
    commands: &mut Vec<DrawKind>,
    images: &mut Vec<DecodedImage>,
) -> (r: Result<(), String>)
    ensures
        ({
            let c = convert_group_spec(*g, old(images)@.len());
            &&& final(commands)@ == old(commands)@ + c.kinds
            &&& images_view(final(images)@) == images_view(old(images)@) + images_view(c.images)
            &&& match r {
                Ok(()) => c.error is None,
                Err(e) => c.error == Some(e@),
            }
        }),
    decreases *g, 0nat,
{
    let ghost commands0 = commands@;
    let ghost images0 = images@;
    let ghost first = images@.len();
    if g.clip == Some(true) {
        commands.push(DrawKind::PushClip);
    }
    let ghost open = if g.clip == Some(true) { seq![DrawKind::PushClip] } else { seq![] };
    assert(commands@ == commands0 + open);
    let mut i: usize = 0;
    while i < g.children.len()
        invariant
            i <= g.children@.len(),
            first == images0.len(),
            commands0 == old(commands)@,
            images0 == old(images)@,
            open == (if g.clip == Some(true) { seq![DrawKind::PushClip] } else { seq![] }),
            convert_nodes_spec(g.children@.take(i as int), first).error is None,
            commands@ == commands0 + open + convert_nodes_spec(g.children@.take(i as int), first).kinds,
            images_view(images@) == images_view(images0) + images_view(
                convert_nodes_spec(g.children@.take(i as int), first).images,
            ),
            images@.len() == images0.len() + convert_nodes_spec(g.children@.take(i as int), first).images.len(),
        decreases g.children@.len() - i,
    {
        let ghost before = convert_nodes_spec(g.children@.take(i as int), first);
        let ghost commands1 = commands@;
        let ghost images1 = images@;
        proof {
            assert(decreases_to!(*g => g.children));
            assert(decreases_to!(g.children => g.children@));
            assert(decreases_to!(g.children@ => g.children@[i as int]));
        }
        let result = convert_node(&g.children[i], commands, images);
        proof {
            let t = g.children@.take(i + 1);
            assert(t.drop_last() =~= g.children@.take(i as int));
            assert(t.last() == g.children@[i as int]);
            let last = convert_node_spec(g.children@[i as int], first + before.images.len());
            assert(images_view(before.images + last.images) =~= images_view(before.images)
                + images_view(last.images));
        }
        match result {
            Err(e) => {
                proof {
                    let t = g.children@.take(i + 1);
                    assert(g.children@.take(i + 1) =~= g.children@.take(i as int).push(g.children@[i as int]));
                    lemma_nodes_error_stays(g.children@, (i + 1) as nat, first);
                    let last = convert_node_spec(g.children@[i as int], first + before.images.len());
                    let full = convert_nodes_spec(t, first);
                    assert(full.kinds == before.kinds + last.kinds);
                    assert(full.images == before.images + last.images);
                    assert(commands@ =~= commands0 + open + full.kinds);
                    assert(images_view(images@) =~= images_view(images0) + images_view(full.images));
                    assert(convert_nodes_spec(g.children@, first) == full);
                    assert(full.error == last.error);
                }
                return Err(e);
            },
            Ok(()) => {},
        }
        i = i + 1;
    }
    assert(g.children@.take(i as int) =~= g.children@);
    if g.clip.is_some() {
        commands.push(DrawKind::PopClip);
    }
    Ok(())
}

/// Converts one node, as `convert_group` converts a group.
pub fn convert_node(
    node: &SvgNode,
    commands: &mut Vec<DrawKind>,
    images: &mut Vec<DecodedImage>,
) -> (r: Result<(), String>)
    ensures
        ({
            let c = convert_node_spec(*node, old(images)@.len());
            &&& final(commands)@ == old(commands)@ + c.kinds
            &&& images_view(final(images)@) == images_view(old(images)@) + images_view(c.images)
            &&& final(images)@.len() == old(images)@.len() + c.images.len()
            &&& match r {
                Ok(()) => c.error is None,
                Err(e) => c.error == Some(e@),
            }
        }),
    decreases *node, 2nat,
{
    match node {
        SvgNode::Group(g) => convert_group(g, commands, images),
        SvgNode::Path { filled, stroked } => {
            if *filled {
                commands.push(DrawKind::Fill);
            }
            if *stroked {
                commands.push(DrawKind::Stroke);
            }
            Ok(())
        },
        SvgNode::Image { visible, content } => {
            if !*visible {
                return Ok(());
            }
            match content {
                SvgImageContent::Nested(g) => convert_group(g, commands, images),
                SvgImageContent::Raster(Ok(img)) => {
                    commands.push(DrawKind::Image { image_idx: images.len() });
                    images.push(copy_image(img));
                    Ok(())
                },
                SvgImageContent::Raster(Err(e)) => Err(e.clone()),
            }
        },
        SvgNode::Text => Ok(()),
    }
}

/// A copy of a decoded image.
fn copy_image(img: &DecodedImage) -> (c: DecodedImage)
    ensures
        c.pixels@ == img.pixels@,
        c.width == img.width,
        c.height == img.height,
        c.may_have_opacities == img.may_have_opacities,
{
    let mut pixels: Vec<PremulPixel> = Vec::new();
    let mut i: usize = 0;
    while i < img.pixels.len()
        invariant
            i <= img.pixels@.len(),
            pixels@ == img.pixels@.take(i as int),
        decreases img.pixels@.len() - i,
    {
        pixels.push(img.pixels[i]);
        i = i + 1;
        assert(pixels@ =~= img.pixels@.take(i as int));
    }
    assert(img.pixels@.take(i as int) =~= img.pixels@);
    DecodedImage {
        pixels,
        width: img.width,
        height: img.height,
        may_have_opacities: img.may_have_opacities,
    }
}

} // verus!
