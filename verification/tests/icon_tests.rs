use base64::Engine;
use shell_native::errors::ShellError;
use shell_native::icon::resolve_icon;
use shell_native::sim::SimShell;

const DATA_URL_PREFIX: &str = "data:image/png;base64,";

fn decode_data_url(url: &str) -> image::RgbaImage {
    assert!(url.starts_with(DATA_URL_PREFIX), "missing data URL prefix: {}", url);
    let payload = &url[DATA_URL_PREFIX.len()..];
    let png = base64::engine::general_purpose::STANDARD
        .decode(payload)
        .expect("payload is not valid base64");
    image::load_from_memory(&png)
        .expect("payload is not a decodable image")
        .into_rgba8()
}

#[test]
fn resolved_icon_decodes_to_requested_size() {
    for size in [16u32, 17, 64, 100, 255, 256] {
        let mut sim = SimShell::new();
        let url = resolve_icon(&mut sim, &String::from("/tmp/report.pdf"), Some(size))
            .expect("icon resolution should succeed");
        let img = decode_data_url(&url);
        assert_eq!(img.width(), size);
        assert_eq!(img.height(), size);
    }
}

#[test]
fn absent_size_defaults_to_64() {
    let mut sim = SimShell::new();
    let url = resolve_icon(&mut sim, &String::from("/tmp/report.pdf"), None)
        .expect("icon resolution should succeed");
    let img = decode_data_url(&url);
    assert_eq!(img.width(), 64);
    assert_eq!(img.height(), 64);
}

#[test]
fn undersized_request_clamps_to_16() {
    let mut sim = SimShell::new();
    let url = resolve_icon(&mut sim, &String::from("/tmp/a"), Some(1))
        .expect("icon resolution should succeed");
    let img = decode_data_url(&url);
    assert_eq!(img.width(), 16);
    assert_eq!(img.height(), 16);
}

#[test]
fn oversized_request_clamps_to_256() {
    let mut sim = SimShell::new();
    let url = resolve_icon(&mut sim, &String::from("/tmp/a"), Some(100_000))
        .expect("icon resolution should succeed");
    let img = decode_data_url(&url);
    assert_eq!(img.width(), 256);
    assert_eq!(img.height(), 256);
}

#[test]
fn channels_are_swapped_and_alpha_survives_the_round_trip() {
    let mut sim = SimShell::new();
    // BGRA source pixels; the decoded image is RGBA.
    sim.even_pixel = shell_native::sim::PixelBgra { b: 10, g: 20, r: 30, a: 200 };
    sim.odd_pixel = shell_native::sim::PixelBgra { b: 40, g: 50, r: 60, a: 128 };
    let url = resolve_icon(&mut sim, &String::from("/tmp/translucent.png"), Some(16))
        .expect("icon resolution should succeed");
    let img = decode_data_url(&url);
    let even = img.get_pixel(0, 0);
    let odd = img.get_pixel(1, 0);
    assert_eq!(even.0, [30, 20, 10, 200]);
    assert_eq!(odd.0, [60, 50, 40, 128]);
}

#[test]
fn unsupported_platform_icon_fails_without_acquiring_anything() {
    let mut sim = SimShell::new();
    sim.native = false;
    let r = resolve_icon(&mut sim, &String::from("/tmp/a"), Some(32));
    assert_eq!(r, Err(ShellError::PlatformUnsupportedError));
    assert_eq!(sim.acquired, 0);
    assert_eq!(sim.live_resources(), 0);
}

#[test]
fn failed_icon_query_acquires_nothing() {
    let mut sim = SimShell::new();
    sim.icon_available = false;
    let r = resolve_icon(&mut sim, &String::from("/no/such/path"), Some(32));
    assert_eq!(r, Err(ShellError::ShellQueryError));
    assert_eq!(sim.acquired, 0);
    assert_eq!(sim.live_resources(), 0);
}

#[test]
fn surface_failure_after_icon_acquisition_releases_the_icon_once() {
    let mut sim = SimShell::new();
    sim.surface_available = false;
    let r = resolve_icon(&mut sim, &String::from("/tmp/a"), Some(32));
    assert_eq!(r, Err(ShellError::SurfaceAllocationError));
    // Exactly one acquisition happened (the icon handle), and nothing is
    // still live: the handle was released, and only once.
    assert_eq!(sim.acquired, 1);
    assert_eq!(sim.live_icons.len(), 0);
    assert_eq!(sim.live_resources(), 0);
}

#[test]
fn successful_resolution_leaves_no_live_resource() {
    let mut sim = SimShell::new();
    let r = resolve_icon(&mut sim, &String::from("/tmp/a"), Some(48));
    assert!(r.is_ok());
    assert_eq!(sim.acquired, 2);
    assert_eq!(sim.live_resources(), 0);
}

#[test]
fn error_messages_name_the_failing_step() {
    assert_eq!(
        ShellError::PlatformUnsupportedError.message(),
        "native shell integration is not supported on this platform"
    );
    assert_eq!(ShellError::SurfaceAllocationError.message(), "surface allocation failed");
    assert_eq!(ShellError::ShellQueryError.message(), "shell query failed");
    assert_eq!(ShellError::EncodeError.message(), "image encoding failed");
}
