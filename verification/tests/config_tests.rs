use vello_bench2::texture_config::BenchConfig;

fn config(image_counts: Vec<usize>) -> BenchConfig {
    BenchConfig {
        image_counts,
        texture_size: 256,
        texture_count: 8,
        draw_size: 64,
        warmup_frames: 30,
        measured_frames: 120,
        trials: 3,
        memory_limit_mib: 512,
    }
}

#[test]
fn validate_sorts_and_dedups_counts() {
    let mut c = config(vec![1000, 10, 100, 10, 1000]);
    assert_eq!(c.validate(4096), Ok(()));
    assert_eq!(c.image_counts, vec![10, 100, 1000]);
    assert_eq!(c.variant_count(), 3);
}

#[test]
fn validate_rejects_empty_counts() {
    let mut c = config(vec![]);
    assert_eq!(c.validate(4096), Err("provide at least one image count".to_string()));
}

#[test]
fn validate_rejects_zero_count() {
    let mut c = config(vec![5, 0, 3]);
    assert_eq!(c.validate(4096), Err("image counts must be greater than zero".to_string()));
    assert_eq!(c.image_counts, vec![0, 3, 5]);
}

#[test]
fn validate_rejects_tiny_texture() {
    let mut c = config(vec![1]);
    c.texture_size = 3;
    assert_eq!(c.validate(4096), Err("the texture size must be at least 4 pixels".to_string()));
}

#[test]
fn validate_rejects_texture_over_device_limit() {
    let mut c = config(vec![1]);
    c.texture_size = 8192;
    assert_eq!(
        c.validate(4096),
        Err("the requested texture exceeds this device's 4096px limit".to_string())
    );
}

#[test]
fn validate_rejects_single_texture() {
    let mut c = config(vec![1]);
    c.texture_count = 1;
    assert_eq!(
        c.validate(4096),
        Err("use at least 2 textures so adjacent images cannot merge into one run".to_string())
    );
}

#[test]
fn validate_rejects_short_measurements() {
    let expected =
        Err("use at least 1 warmup frame, 10 measured frames, and 1 measurement".to_string());
    let mut a = config(vec![1]);
    a.warmup_frames = 0;
    assert_eq!(a.validate(4096), expected);
    let mut b = config(vec![1]);
    b.measured_frames = 9;
    assert_eq!(b.validate(4096), expected);
    let mut c = config(vec![1]);
    c.trials = 0;
    assert_eq!(c.validate(4096), expected);
}

#[test]
fn validate_rejects_memory_over_limit() {
    let mut c = config(vec![1]);
    c.texture_size = 1024;
    c.texture_count = 3;
    c.memory_limit_mib = 20;
    // 1024 * 1024 * 4 * 3 * 2 bytes = 24 MiB
    assert_eq!(
        c.validate(4096),
        Err("the paired texture sets need 24 MiB, exceeding the configured 20 MiB limit"
            .to_string())
    );
}

#[test]
fn validate_memory_message_rounds_up() {
    let mut c = config(vec![1]);
    c.texture_size = 1000;
    c.texture_count = 2;
    c.memory_limit_mib = 1;
    // 1000 * 1000 * 4 * 2 * 2 = 16_000_000 bytes, 15.26 MiB
    assert_eq!(
        c.validate(4096),
        Err("the paired texture sets need 16 MiB, exceeding the configured 1 MiB limit"
            .to_string())
    );
}

#[test]
fn validate_accepts_memory_at_limit() {
    let mut c = config(vec![1]);
    c.texture_size = 1024;
    c.texture_count = 3;
    c.memory_limit_mib = 24;
    assert_eq!(c.validate(4096), Ok(()));
}

#[test]
fn validate_twice_gives_same_result() {
    let mut c = config(vec![7, 3, 7]);
    let first = c.validate(4096);
    let counts = c.image_counts.clone();
    let second = c.validate(4096);
    assert_eq!(first, second);
    assert_eq!(c.image_counts, counts);
}

#[test]
fn texture_set_bytes_formula() {
    let c = config(vec![1]);
    assert_eq!(c.texture_set_bytes(), 256 * 256 * 4 * 8 * 2);
    assert_eq!(c.memory_limit_bytes(), 512 * 1024 * 1024);
}

#[test]
fn from_fields_reads_all_fields() {
    let c = BenchConfig::from_fields("100, 10 1000", "512", "16", "32", "60", "300", "5", "2048")
        .unwrap();
    assert_eq!(c.image_counts, vec![100, 10, 1000]);
    assert_eq!(c.texture_size, 512);
    assert_eq!(c.texture_count, 16);
    assert_eq!(c.draw_size, 32);
    assert_eq!(c.warmup_frames, 60);
    assert_eq!(c.measured_frames, 300);
    assert_eq!(c.trials, 5);
    assert_eq!(c.memory_limit_mib, 2048);
}

#[test]
fn from_fields_names_bad_list_entry() {
    let e = BenchConfig::from_fields("10, x1, -3", "512", "16", "32", "60", "300", "5", "2048")
        .unwrap_err();
    assert_eq!(e, "invalid image counts value: x1");
}

#[test]
fn from_fields_names_first_bad_field() {
    let e = BenchConfig::from_fields("10", "70000", "x", "32", "60", "300", "5", "2048")
        .unwrap_err();
    assert_eq!(e, "invalid texture size");
    let e = BenchConfig::from_fields("10", "512", "16", "32", "60", "300", "five", "2048")
        .unwrap_err();
    assert_eq!(e, "invalid measurements");
    let e = BenchConfig::from_fields("10", "512", "16", "32", "60", "300", "5", " 2048")
        .unwrap_err();
    assert_eq!(e, "invalid memory limit");
}
