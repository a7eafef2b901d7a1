use image_convert::{
    append_encoded, bmp_operations, compute_output_size, compute_output_size_sharpen,
    is_bmp_path, output_action, BMPConfig, BmpError, EngineOp, ImageConfig, ImageResource,
    OutputAction, SourceImage, AUTO_SHARPEN_MAX, BMP_QUALITY,
};

fn config(width: u16, height: u16, shrink_only: bool, sharpen: i32) -> BMPConfig {
    BMPConfig { width, height, shrink_only, sharpen, background_color: None }
}

fn raster(width: u32, height: u32) -> SourceImage {
    SourceImage { width, height, vector: false }
}

fn finishing() -> Vec<EngineOp> {
    vec![
        EngineOp::StripProfiles,
        EngineOp::SetCompressionQuality(100),
        EngineOp::SetLineInterlace,
        EngineOp::SetBmpFormat,
    ]
}

#[test]
fn new_gives_defaults() {
    let c = BMPConfig::new();
    assert_eq!(c.width, 0);
    assert_eq!(c.height, 0);
    assert!(c.shrink_only);
    assert!(c.sharpen < 0);
    assert!(c.background_color.is_none());
    assert_eq!(c.get_width(), 0);
    assert_eq!(c.get_height(), 0);
    assert_eq!(c.get_sharpen(), -1000);
    assert!(c.is_shrink_only());
}

#[test]
fn default_equals_new() {
    let c = BMPConfig::default();
    let n = BMPConfig::new();
    assert_eq!(c.width, n.width);
    assert_eq!(c.height, n.height);
    assert_eq!(c.shrink_only, n.shrink_only);
    assert_eq!(c.sharpen, n.sharpen);
    assert_eq!(c.background_color, n.background_color);
}

#[test]
fn no_request_keeps_source_size() {
    assert_eq!(compute_output_size_sharpen(&config(0, 0, true, -1), 640, 480), (640, 480, 0));
    assert_eq!(compute_output_size_sharpen(&config(0, 0, false, -1), 1, 1), (1, 1, 0));
    assert_eq!(compute_output_size_sharpen(&config(0, 0, false, 1500), 640, 480), (640, 480, 1500));
}

#[test]
fn shrink_only_refuses_enlarging() {
    assert_eq!(compute_output_size(true, 400, 300, 800, 600), (400, 300));
    assert_eq!(compute_output_size(true, 400, 300, 401, 301), (400, 300));
    assert_eq!(compute_output_size(true, 400, 300, 500, 200), (400, 300));
}

#[test]
fn enlarging_allowed_without_shrink_only() {
    assert_eq!(compute_output_size(false, 400, 300, 800, 600), (800, 600));
    assert_eq!(compute_output_size_sharpen(&config(500, 0, false, -1), 200, 200), (500, 500, 0));
}

#[test]
fn both_sides_given_ignore_aspect() {
    assert_eq!(compute_output_size(true, 1000, 1000, 300, 100), (300, 100));
}

#[test]
fn width_only_keeps_aspect() {
    // 333 * 300 / 1000 = 99.9
    assert_eq!(compute_output_size(true, 1000, 333, 300, 0), (300, 100));
    // 3 * 1 / 2 = 1.5, halves round up
    assert_eq!(compute_output_size(false, 2, 3, 1, 0), (1, 2));
    // 1000 * 640 / 1920 = 333.33
    assert_eq!(compute_output_size(true, 1920, 1000, 640, 0), (640, 333));
}

#[test]
fn height_only_keeps_aspect() {
    assert_eq!(compute_output_size(true, 1920, 1080, 0, 540), (960, 540));
    // 1000 * 100 / 333 = 300.3
    assert_eq!(compute_output_size(true, 1000, 333, 0, 100), (300, 100));
}

#[test]
fn derived_side_may_round_to_zero() {
    assert_eq!(compute_output_size(true, 1000, 1, 1, 0), (1, 0));
    assert_eq!(
        compute_output_size_sharpen(&config(1, 0, true, -1), 1000, 1),
        (1, 0, AUTO_SHARPEN_MAX as i32)
    );
}

#[test]
fn large_source_sides() {
    assert_eq!(compute_output_size(false, 1, u32::MAX, 65535, 0), (65535, 65535 * u32::MAX as u64));
    assert_eq!(compute_output_size(true, 1, u32::MAX, 65535, 0), (1, u32::MAX as u64));
}

#[test]
fn auto_sharpen_grows_with_downscale() {
    let ratio_two = compute_output_size_sharpen(&config(500, 0, true, -1), 1000, 1000).2;
    let ratio_four = compute_output_size_sharpen(&config(250, 0, true, -1), 1000, 1000).2;
    let ratio_ten = compute_output_size_sharpen(&config(100, 0, true, -1), 1000, 1000).2;
    let ratio_hundred = compute_output_size_sharpen(&config(10, 0, true, -1), 1000, 1000).2;
    assert_eq!(ratio_two, 500);
    assert_eq!(ratio_four, 1500);
    assert_eq!(ratio_ten, 3000);
    assert_eq!(ratio_hundred, 3000);
    assert!(ratio_two <= ratio_four && ratio_four <= ratio_ten && ratio_ten <= ratio_hundred);
}

#[test]
fn auto_sharpen_uses_the_larger_side_ratio() {
    // width shrinks 2 times, height 4 times
    assert_eq!(compute_output_size_sharpen(&config(500, 250, false, -1), 1000, 1000), (500, 250, 1500));
}

#[test]
fn manual_sharpen_kept() {
    assert_eq!(compute_output_size_sharpen(&config(100, 0, true, 0), 1000, 1000), (100, 100, 0));
    assert_eq!(compute_output_size_sharpen(&config(100, 0, true, 7000), 1000, 1000), (100, 100, 7000));
    assert_eq!(compute_output_size_sharpen(&config(0, 0, true, 250), 50, 50), (50, 50, 250));
}

#[test]
fn raster_downscale_by_width() {
    let c = config(500, 0, true, -1);
    assert_eq!(compute_output_size_sharpen(&c, 1000, 500), (500, 250, 500));
    let mut expected = vec![EngineOp::Resize { width: 500, height: 250 }, EngineOp::Sharpen { sigma: 500 }];
    expected.extend(finishing());
    assert_eq!(bmp_operations(&c, raster(1000, 500)), expected);
    assert_eq!(BMP_QUALITY, 100);
}

#[test]
fn raster_no_upscale_when_shrink_only() {
    let c = config(500, 500, true, -1);
    assert_eq!(compute_output_size_sharpen(&c, 200, 200), (200, 200, 0));
    let mut expected = vec![EngineOp::Resize { width: 200, height: 200 }, EngineOp::Sharpen { sigma: 0 }];
    expected.extend(finishing());
    assert_eq!(bmp_operations(&c, raster(200, 200)), expected);
}

#[test]
fn vector_source_not_resampled() {
    let source = SourceImage { width: 300, height: 200, vector: true };
    for c in [config(0, 0, true, -1), config(50, 0, true, -1), config(900, 900, false, 2000)] {
        let ops = bmp_operations(&c, source);
        assert_eq!(ops, finishing());
        assert!(!ops.iter().any(|op| matches!(op, EngineOp::Resize { .. } | EngineOp::Sharpen { .. })));
    }
}

#[test]
fn background_color_flattened_first() {
    let mut c = config(0, 0, true, 1000);
    c.background_color = Some(String::from("white"));
    let mut expected = vec![
        EngineOp::SetBackgroundColor(String::from("white")),
        EngineOp::RemoveAlphaChannel,
        EngineOp::Resize { width: 40, height: 30 },
        EngineOp::Sharpen { sigma: 1000 },
    ];
    expected.extend(finishing());
    assert_eq!(bmp_operations(&c, raster(40, 30)), expected);

    let vector = SourceImage { width: 40, height: 30, vector: true };
    let mut expected = vec![EngineOp::SetBackgroundColor(String::from("white")), EngineOp::RemoveAlphaChannel];
    expected.extend(finishing());
    assert_eq!(bmp_operations(&c, vector), expected);
}

#[test]
fn bmp_extension_is_caseless() {
    assert!(is_bmp_path("out.bmp"));
    assert!(is_bmp_path("OUT.BMP"));
    assert!(is_bmp_path("dir/pic.BmP"));
    assert!(is_bmp_path(".bmp"));
    assert!(!is_bmp_path("bmp"));
    assert!(!is_bmp_path("out.png"));
    assert!(!is_bmp_path("out.bmp.png"));
    assert!(!is_bmp_path("outbmp"));
    assert!(!is_bmp_path(""));
    assert!(!is_bmp_path("out.bmq"));
    assert!(is_bmp_path("été.bmp"));
}

#[test]
fn mismatched_path_refused() {
    let out: ImageResource<()> = ImageResource::Path(String::from("picture.png"));
    assert_eq!(output_action(&out), Err(BmpError::ExtensionMismatch));
    let out: ImageResource<()> = ImageResource::Path(String::from("picture.Bmp"));
    assert_eq!(output_action(&out), Ok(OutputAction::WriteFile));
}

#[test]
fn data_and_handle_outputs() {
    let out: ImageResource<u8> = ImageResource::Data(vec![1, 2]);
    assert_eq!(output_action(&out), Ok(OutputAction::AppendBlob));
    let out: ImageResource<u8> = ImageResource::MagickWand(7);
    assert_eq!(output_action(&out), Ok(OutputAction::ReplaceHandle));
}

#[test]
fn buffer_output_appends() {
    let mut buffer = vec![9u8, 8, 7];
    append_encoded(&mut buffer, vec![0x42, 0x4d, 0x00]);
    assert_eq!(buffer, vec![9, 8, 7, 0x42, 0x4d, 0x00]);
    append_encoded(&mut buffer, vec![]);
    assert_eq!(buffer, vec![9, 8, 7, 0x42, 0x4d, 0x00]);
    let mut empty: Vec<u8> = Vec::new();
    append_encoded(&mut empty, vec![1]);
    assert_eq!(empty, vec![1]);
}
