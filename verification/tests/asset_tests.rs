use vello_bench2::pathfinder_pixmap::Pixmap;
use vello_bench2::png_encode::{configure_compression, encode_pixels, CompressionSettings};
use vello_bench2::rng::Rng;
use vello_bench2::scene_ids::ParamId;
use vello_bench2::svg_assets::{
    render_calls, DrawKind, RenderCall, AssetCache, AssetLoad, decode_raster_image, decompress_asset, premultiply_pixels, svg_asset, with_trailing_slash,
    PremulPixel, RasterFormat, SvgScene,
};

#[test]
fn rng_xorshift_values() {
    let mut rng = Rng::new(1);
    assert_eq!(rng.next_u64(), 1082269761);
    assert_eq!(rng.state, 1082269761);
    let mut a = Rng::new(0xDEAD_BEEF);
    let mut b = Rng::new(0xDEAD_BEEF);
    let c = a.color();
    let expected = [b.next_u64() as u8, b.next_u64() as u8, b.next_u64() as u8];
    assert_eq!(c, expected);
    assert_eq!(a.state, b.state);
    let mut z = Rng::new(0);
    assert_eq!(z.next_u64(), 0);
}

#[test]
fn svg_assets_listed() {
    let a = svg_asset(0).unwrap();
    assert_eq!((a.name, a.path), ("Ghostscript Tiger", "Ghostscript_Tiger.svg.br"));
    assert_eq!(svg_asset(2).unwrap().path, "heraldry.svg.br");
    assert!(svg_asset(3).is_none());
}

#[test]
fn svg_scene_selects_existing_assets() {
    let mut s = SvgScene::new();
    assert_eq!(s.selected, 0);
    s.set_param_index(ParamId::SvgAsset, 2);
    assert_eq!(s.selected, 2);
    s.set_param_index(ParamId::SvgAsset, 7);
    assert_eq!(s.selected, 2);
    s.set_param_index(ParamId::FontSize, 1);
    assert_eq!(s.selected, 2);
}

#[test]
fn trailing_slash_added_once() {
    assert_eq!(with_trailing_slash("assets".to_string()), "assets/");
    assert_eq!(with_trailing_slash("assets/".to_string()), "assets/");
    assert_eq!(with_trailing_slash(String::new()), "/");
}

#[test]
fn brotli_empty_stream_decompresses() {
    assert_eq!(decompress_asset("tiger", &[0x06]), Ok(vec![]));
}

#[test]
fn brotli_garbage_names_asset() {
    let err = decompress_asset("tiger", &[0xff, 0xff, 0xff, 0xff]).unwrap_err();
    assert!(err.starts_with("failed to decompress tiger: "), "{err}");
}

#[test]
fn premultiply_values() {
    let raw = vec![255, 128, 0, 128, 10, 20, 30, 255, 9];
    let (pixels, translucent) = premultiply_pixels(&raw);
    assert_eq!(pixels, vec![
        PremulPixel { r: 128, g: 64, b: 0, a: 128 },
        PremulPixel { r: 10, g: 20, b: 30, a: 255 },
    ]);
    assert!(translucent);
    let (pixels, translucent) = premultiply_pixels(&vec![1, 2, 3, 255]);
    assert_eq!(pixels.len(), 1);
    assert!(!translucent);
}

#[test]
fn png_round_trip_through_decoder() {
    let pixels = vec![255, 0, 0, 255, 0, 255, 0, 128, 0, 0, 255, 0, 255, 255, 255, 255];
    for variant in 0..3u8 {
        let png = encode_pixels(&pixels, 2, 2, true, variant).unwrap();
        assert_eq!(&png[..8], &[0x89, b'P', b'N', b'G', 0x0d, 0x0a, 0x1a, 0x0a]);
        let image = decode_raster_image(RasterFormat::Png, &png).unwrap();
        assert_eq!((image.width, image.height), (2, 2));
        assert!(image.may_have_opacities);
        assert_eq!(image.pixels[1], PremulPixel { r: 0, g: 128, b: 0, a: 128 });
        assert_eq!(image.pixels[2], PremulPixel { r: 0, g: 0, b: 0, a: 0 });
    }
}

#[test]
fn png_rgb_encoding_decodes_opaque() {
    let pixels = vec![10, 20, 30, 40, 50, 60, 70, 80, 90];
    let png = encode_pixels(&pixels, 3, 1, false, 1).unwrap();
    let image = decode_raster_image(RasterFormat::Png, &png).unwrap();
    assert_eq!((image.width, image.height), (3, 1));
    assert!(!image.may_have_opacities);
    assert_eq!(image.pixels[2], PremulPixel { r: 70, g: 80, b: 90, a: 255 });
}

#[test]
fn png_wrong_length_is_rejected() {
    assert_eq!(
        encode_pixels(&[0; 10], 2, 2, true, 0),
        Err("expected 16 RGBA bytes, received 10".to_string())
    );
    assert_eq!(
        encode_pixels(&[0; 10], 2, 2, false, 0),
        Err("expected 12 RGB bytes, received 10".to_string())
    );
}

#[test]
fn png_unknown_variant_is_rejected() {
    assert_eq!(
        encode_pixels(&[0; 12], 2, 2, false, 7),
        Err("unknown PNG compression variant: 7".to_string())
    );
    assert_eq!(configure_compression(2), Ok(CompressionSettings::LevelUp(2)));
    assert_eq!(configure_compression(0), Ok(CompressionSettings::BalancedAdaptive));
}

#[test]
fn decode_garbage_reports_error() {
    let err = decode_raster_image(RasterFormat::Png, &[1, 2, 3]).unwrap_err();
    assert!(err.starts_with("failed to decode embedded SVG image: "), "{err}");
}

#[test]
fn pixmap_discards_pixels() {
    assert_eq!(Pixmap::from_parts_with_opacity(vec![1u8, 2, 3], 1, 1, false), Pixmap);
}

#[test]
fn asset_cache_downloads_each_asset_once() {
    let mut cache = AssetCache::new();
    assert!(!cache.is_ready(1));
    assert!(cache.begin_loading(1));
    assert!(!cache.begin_loading(1));
    assert!(matches!(cache.states[1], AssetLoad::Loading));
    cache.finish_loading(1, Ok(()));
    assert!(cache.is_ready(1));
    assert!(!cache.begin_loading(1));
    assert!(!cache.begin_loading(3));
    assert!(cache.begin_loading(2));
    cache.finish_loading(2, Err("failed to fetch heraldry.svg.br: HTTP 404".to_string()));
    assert_eq!(cache.failure(2).map(String::as_str), Some("failed to fetch heraldry.svg.br: HTTP 404"));
    assert!(!cache.begin_loading(2));
    assert_eq!(cache.failure(1), None);
    assert!(cache.begin_loading(0));
}

#[test]
fn rgba8_outcome_to_image() {
    use_image_from_rgba8();
}

fn use_image_from_rgba8() {
    let image = vello_bench2::svg_assets::image_from_rgba8(Ok((vec![200, 100, 50, 51], 1, 1))).unwrap();
    assert_eq!(image.pixels, vec![PremulPixel { r: 40, g: 20, b: 10, a: 51 }]);
    assert!(image.may_have_opacities);
    assert_eq!(
        vello_bench2::svg_assets::image_from_rgba8(Ok((vec![], 70000, 0))).unwrap_err(),
        "embedded SVG image width 70000 exceeds u16::MAX"
    );
    assert_eq!(
        vello_bench2::svg_assets::image_from_rgba8(Ok((vec![], 1, 65536))).unwrap_err(),
        "embedded SVG image height 65536 exceeds u16::MAX"
    );
    assert_eq!(
        vello_bench2::svg_assets::image_from_rgba8(Err("bad header".to_string())).unwrap_err(),
        "failed to decode embedded SVG image: bad header"
    );
}

#[test]
fn svg_frame_calls() {

    assert!(render_calls(false, &vec![DrawKind::Fill], 0).is_empty());
    let cmds = vec![
        DrawKind::PushClip,
        DrawKind::Fill,
        DrawKind::Stroke,
        DrawKind::Image { image_idx: 0 },
        DrawKind::Image { image_idx: 5 },
        DrawKind::PopClip,
    ];
    assert_eq!(
        render_calls(true, &cmds, 1),
        vec![
            RenderCall::SetTransform(0),
            RenderCall::PushClipPath(0),
            RenderCall::SetTransform(1),
            RenderCall::SetPaint(1),
            RenderCall::FillPath(1),
            RenderCall::SetTransform(2),
            RenderCall::SetPaint(2),
            RenderCall::SetStroke(2),
            RenderCall::StrokePath(2),
            RenderCall::SetTransform(3),
            RenderCall::SetPaint(3),
            RenderCall::FillImageRect(3),
            RenderCall::PopClipPath,
            RenderCall::ResetTransform,
        ]
    );
    assert_eq!(render_calls(true, &vec![], 0), vec![RenderCall::ResetTransform]);
}
