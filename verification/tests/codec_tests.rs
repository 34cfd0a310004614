use base64::Engine;
use shell_native::codec::{bgra_to_rgba, encode_rgba_as_data_url};
use shell_native::icon::clamp_requested_size;
use shell_native::shell::{query_continue_drag, query_drag_feedback, DragFeedback, DragStatus};

#[test]
fn channel_swap_exchanges_red_and_blue_only() {
    let bgra: Vec<u8> = vec![1, 2, 3, 4, 5, 6, 7, 8];
    let rgba = bgra_to_rgba(&bgra);
    assert_eq!(rgba, vec![3, 2, 1, 4, 7, 6, 5, 8]);
}

#[test]
fn channel_swap_is_its_own_inverse() {
    let bgra: Vec<u8> = vec![9, 8, 7, 6, 255, 0, 127, 3];
    assert_eq!(bgra_to_rgba(&bgra_to_rgba(&bgra)), bgra);
}

#[test]
fn channel_swap_of_empty_buffer_is_empty() {
    let empty: Vec<u8> = Vec::new();
    assert_eq!(bgra_to_rgba(&empty), empty);
}

#[test]
fn encoded_data_url_carries_the_exact_pixels() {
    let size: u32 = 16;
    let mut rgba: Vec<u8> = Vec::new();
    for i in 0..(size * size) {
        rgba.push((i % 251) as u8);
        rgba.push((i % 13) as u8);
        rgba.push(255 - (i % 7) as u8);
        rgba.push(if i % 2 == 0 { 255 } else { 77 });
    }
    let url = encode_rgba_as_data_url(size, rgba.clone()).expect("encoding should succeed");
    let prefix = "data:image/png;base64,";
    assert!(url.starts_with(prefix));
    let png = base64::engine::general_purpose::STANDARD
        .decode(&url[prefix.len()..])
        .expect("payload is not valid base64");
    let img = image::load_from_memory(&png).expect("not a decodable image").into_rgba8();
    assert_eq!(img.width(), size);
    assert_eq!(img.height(), size);
    assert_eq!(img.into_raw(), rgba);
}

#[test]
fn clamping_pins_the_supported_range() {
    assert_eq!(clamp_requested_size(None), 64);
    assert_eq!(clamp_requested_size(Some(0)), 16);
    assert_eq!(clamp_requested_size(Some(15)), 16);
    assert_eq!(clamp_requested_size(Some(16)), 16);
    assert_eq!(clamp_requested_size(Some(77)), 77);
    assert_eq!(clamp_requested_size(Some(256)), 256);
    assert_eq!(clamp_requested_size(Some(257)), 256);
    assert_eq!(clamp_requested_size(Some(u32::MAX)), 256);
}

#[test]
fn continue_query_follows_the_session_state_machine() {
    assert_eq!(query_continue_drag(false, 1), DragStatus::Dragging);
    assert_eq!(query_continue_drag(false, 0), DragStatus::Dropped);
    assert_eq!(query_continue_drag(true, 1), DragStatus::Cancelled);
    // The cancellation signal wins even when the button is already up.
    assert_eq!(query_continue_drag(true, 0), DragStatus::Cancelled);
    // Other modifier bits do not matter; only the primary button bit does.
    assert_eq!(query_continue_drag(false, 0b110), DragStatus::Dropped);
    assert_eq!(query_continue_drag(false, 0b111), DragStatus::Dragging);
}

#[test]
fn feedback_query_always_requests_default_cursors() {
    assert_eq!(query_drag_feedback(0), DragFeedback::DefaultCursors);
    assert_eq!(query_drag_feedback(3), DragFeedback::DefaultCursors);
}
