use vello_bench2::svg_assets::{DecodedImage, DrawKind, PremulPixel};
use vello_bench2::svg_convert::{convert_group, SvgGroup, SvgImageContent, SvgNode};

fn image(width: u16) -> DecodedImage {
    DecodedImage {
        pixels: vec![PremulPixel { r: 1, g: 2, b: 3, a: 255 }],
        width,
        height: 1,
        may_have_opacities: false,
    }
}

#[test]
fn convert_clips_paths_and_images() {
    let tree = SvgGroup {
        clip: Some(true),
        children: vec![
            SvgNode::Path { filled: true, stroked: true },
            SvgNode::Text,
            SvgNode::Image { visible: false, content: SvgImageContent::Raster(Err("never".to_string())) },
            SvgNode::Image { visible: true, content: SvgImageContent::Raster(Ok(image(7))) },
            SvgNode::Group(SvgGroup {
                clip: Some(false),
                children: vec![SvgNode::Path { filled: false, stroked: true }],
            }),
            SvgNode::Image {
                visible: true,
                content: SvgImageContent::Nested(SvgGroup {
                    clip: None,
                    children: vec![SvgNode::Image {
                        visible: true,
                        content: SvgImageContent::Raster(Ok(image(9))),
                    }],
                }),
            },
        ],
    };
    let mut commands = Vec::new();
    let mut images = Vec::new();
    assert_eq!(convert_group(&tree, &mut commands, &mut images), Ok(()));
    assert_eq!(
        commands,
        vec![
            DrawKind::PushClip,
            DrawKind::Fill,
            DrawKind::Stroke,
            DrawKind::Image { image_idx: 0 },
            DrawKind::Stroke,
            DrawKind::PopClip,
            DrawKind::Image { image_idx: 1 },
            DrawKind::PopClip,
        ]
    );
    assert_eq!(images.iter().map(|i| i.width).collect::<Vec<_>>(), vec![7, 9]);
}

#[test]
fn convert_stops_at_first_decoding_error() {
    let tree = SvgGroup {
        clip: Some(true),
        children: vec![
            SvgNode::Path { filled: true, stroked: false },
            SvgNode::Image {
                visible: true,
                content: SvgImageContent::Raster(Err("failed to decode embedded SVG image: bad".to_string())),
            },
            SvgNode::Path { filled: true, stroked: false },
        ],
    };
    let mut commands = Vec::new();
    let mut images = Vec::new();
    assert_eq!(
        convert_group(&tree, &mut commands, &mut images),
        Err("failed to decode embedded SVG image: bad".to_string())
    );
    assert_eq!(commands, vec![DrawKind::PushClip, DrawKind::Fill]);
    assert!(images.is_empty());
}
