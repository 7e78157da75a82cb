// The capture backends' own logic, on captures given as plain values.

use swach_sampler::sampler::linux::{
    capture_outcome, capture_probe, detect_capture_method, extract_channel, pointer_from_query,
    rgb_from_pixels, CaptureMethod, CaptureRect, ChannelMasks, LinuxSampler, ScreenshotCache,
};
use swach_sampler::sampler::macos::{CapturedImage, GridRegion, MacOSSampler};
use swach_sampler::sampler::wayland::WaylandSampler;
use swach_sampler::sampler::wayland_portal::{
    estimate_dimensions, format_or_estimate, frame_from_chunk, integer_sqrt, wait_step,
    CaptureStep, FrameBuffer, PermissionStep, VideoFormat, WaitStep, WaylandPortalSampler,
};
use swach_sampler::sampler::windows::{block_grid, CaptureRegion, WindowsSampler, CLR_INVALID};
use swach_sampler::sampler::{
    after_init, create_sampler, BackendKind, InitOutcome, Platform, Selection,
};
use swach_sampler::types::{gray_off_screen, is_on_screen, Color, PixelSampler, ScaleHint};

const RGB24: ChannelMasks = ChannelMasks { red: 0xFF0000, green: 0x00FF00, blue: 0x0000FF };
const RGB565: ChannelMasks = ChannelMasks { red: 0xF800, green: 0x07E0, blue: 0x001F };

fn rgb(color: &Color) -> (u8, u8, u8) {
    (color.r, color.g, color.b)
}

#[test]
fn channels_of_24_bit_pixels_are_taken_as_they_are() {
    assert_eq!(extract_channel(0x00FF8040, RGB24.red), 0xFF);
    assert_eq!(extract_channel(0x00FF8040, RGB24.green), 0x80);
    assert_eq!(extract_channel(0x00FF8040, RGB24.blue), 0x40);
    assert_eq!(extract_channel(0xFFFF_FFFF_0012_3456, RGB24.green), 0x34);
}

#[test]
fn channels_of_16_bit_pixels_are_scaled_to_8_bits() {
    assert_eq!(extract_channel(0xFFFF, RGB565.red), 255);
    assert_eq!(extract_channel(0xFFFF, RGB565.green), 255);
    assert_eq!(extract_channel(0xFFFF, RGB565.blue), 255);
    assert_eq!(extract_channel(0x0000, RGB565.green), 0);
    // red 16 of 31, green 32 of 63, blue 1 of 31
    let pixel = (16u64 << 11) | (32u64 << 5) | 1;
    assert_eq!(extract_channel(pixel, RGB565.red), (16 * 255 / 31) as u8);
    assert_eq!(extract_channel(pixel, RGB565.red), 131);
    assert_eq!(extract_channel(pixel, RGB565.green), 129);
    assert_eq!(extract_channel(pixel, RGB565.blue), 8);
}

#[test]
fn channels_of_unusual_masks() {
    assert_eq!(extract_channel(0x1234, 0), 0);
    assert_eq!(extract_channel(u64::MAX, u64::MAX), 255);
    assert_eq!(extract_channel(1u64 << 63, 1u64 << 63), 255);
    assert_eq!(extract_channel(0, 1u64 << 63), 0);
    // 30-bit colour: ten bits to a channel
    assert_eq!(extract_channel(0x3FF << 20, 0x3FF << 20), 255);
    assert_eq!(extract_channel(0x200 << 20, 0x3FF << 20), (0x200u32 * 255 / 0x3FF) as u8);
    // a mask with a gap: two bits set, so a range of 0..=3, and the low eight bits of the result
    assert_eq!(extract_channel(0b101, 0b101), (5u32 * 255 / 3) as u8);
    assert_eq!(extract_channel(0b101, 0b101), 169);
}

#[test]
fn raw_pixels_become_three_bytes_each() {
    let data = rgb_from_pixels(&[0x010203, 0xFFFFFF, 0x000000, 0x80FF40], RGB24);
    assert_eq!(data, vec![1, 2, 3, 255, 255, 255, 0, 0, 0, 0x80, 0xFF, 0x40]);
    assert!(rgb_from_pixels(&[], RGB24).is_empty());
}

#[test]
fn framebuffer_backend_needs_a_display_and_a_trial_capture() {
    assert_eq!(
        LinuxSampler::new(false, 1920, 1080, Ok(())).unwrap_err(),
        "Failed to open X11 display"
    );
    assert_eq!(
        LinuxSampler::new(false, 1920, 1080, capture_outcome(true, true)).unwrap_err(),
        "Failed to open X11 display"
    );
    assert_eq!(
        LinuxSampler::new(true, 1920, 1080, capture_outcome(true, true)).unwrap_err(),
        "X11 capture failed"
    );
    assert_eq!(
        LinuxSampler::new(true, 1920, 1080, capture_outcome(false, false)).unwrap_err(),
        "X11 capture failed"
    );
    let sampler = LinuxSampler::new(true, 1920, 1080, Ok(())).unwrap();
    assert_eq!((sampler.screen_width, sampler.screen_height), (1920, 1080));
    assert!(sampler.screenshot_cache.is_none());
    assert_eq!(
        sampler.capture_rect(),
        CaptureRect { x: 0, y: 0, width: 1920, height: 1080 }
    );
    let odd = LinuxSampler::new(true, -5, 0, Ok(())).unwrap();
    assert_eq!(odd.capture_rect(), CaptureRect { x: 0, y: 0, width: 0, height: 0 });
}

#[test]
fn capture_outcome_wants_an_image_and_no_error() {
    assert!(capture_outcome(false, true).is_ok());
    assert_eq!(capture_outcome(true, true).unwrap_err(), "X11 capture failed");
    assert_eq!(capture_outcome(false, false).unwrap_err(), "X11 capture failed");
    assert_eq!(capture_outcome(true, false).unwrap_err(), "X11 capture failed");
}

#[test]
fn captures_are_served_for_50_ms() {
    let mut sampler = LinuxSampler::new(true, 2, 1, Ok(())).unwrap();
    assert!(sampler.needs_refresh(0));
    sampler.store_capture(&[0x112233, 0x445566], RGB24, 2, 1, 1000);
    assert!(!sampler.needs_refresh(1000));
    assert!(!sampler.needs_refresh(1050));
    assert!(sampler.needs_refresh(1051));
    assert!(!sampler.needs_refresh(999));
    let cache = sampler.screenshot_cache.as_ref().unwrap();
    assert_eq!(cache.data, vec![0x11, 0x22, 0x33, 0x44, 0x55, 0x66]);
    assert_eq!((cache.width, cache.height, cache.timestamp), (2, 1, 1000));
    assert!(cache.is_stale(1051, 50));
    assert!(!cache.is_stale(1051, 51));
}

#[test]
fn samples_come_from_the_capture() {
    let mut sampler = LinuxSampler::new(true, 2, 2, Ok(())).unwrap();
    assert_eq!(sampler.sample_pixel(0, 0).unwrap_err(), "No screenshot cached");
    assert_eq!(
        sampler.sample_grid(0, 0, 3, ScaleHint::unity()).unwrap_err(),
        "No screenshot cached"
    );
    sampler.store_capture(&[0x010203, 0x040506, 0x070809, 0x0A0B0C], RGB24, 2, 2, 0);
    assert_eq!(rgb(&sampler.sample_pixel(0, 0).unwrap()), (1, 2, 3));
    assert_eq!(rgb(&sampler.sample_pixel(1, 0).unwrap()), (4, 5, 6));
    assert_eq!(rgb(&sampler.sample_pixel(0, 1).unwrap()), (7, 8, 9));
    assert_eq!(rgb(&sampler.sample_pixel(1, 1).unwrap()), (10, 11, 12));
    assert_eq!(sampler.sample_pixel(1, 1).unwrap().hex_string(), "#0A0B0C");
    assert_eq!(rgb(&sampler.sample_pixel(2, 1).unwrap()), (128, 128, 128));
    let grid = sampler.sample_grid(1, 1, 3, ScaleHint::unity()).unwrap();
    assert_eq!(rgb(&grid[0][0]), (1, 2, 3));
    assert_eq!(rgb(&grid[1][1]), (10, 11, 12));
    assert_eq!(rgb(&grid[2][2]), (128, 128, 128));
    assert_eq!(rgb(&grid[0][2]), (128, 128, 128));
}

#[test]
fn short_captures_are_gray_where_the_data_ends() {
    let cache = ScreenshotCache { data: vec![1, 2, 3, 4, 5], width: 2, height: 1, timestamp: 0 };
    assert_eq!(rgb(&cache.color_at(0, 0)), (1, 2, 3));
    assert_eq!(rgb(&cache.color_at(1, 0)), (128, 128, 128));
    let exact = ScreenshotCache { data: vec![1, 2, 3, 4, 5, 6], width: 2, height: 1, timestamp: 0 };
    assert_eq!(rgb(&exact.color_at(0, 0)), (1, 2, 3));
    assert_eq!(rgb(&exact.color_at(1, 0)), (4, 5, 6));
    let empty = ScreenshotCache { data: vec![], width: 2, height: 1, timestamp: 0 };
    assert_eq!(rgb(&empty.color_at(0, 0)), (128, 128, 128));
}

#[test]
fn a_failed_capture_fails_samples_until_the_next_capture() {
    let mut sampler = LinuxSampler::new(true, 1, 1, Ok(())).unwrap();
    sampler.store_capture(&[0x010203], RGB24, 1, 1, 0);
    sampler.capture_failed("X11 capture failed".to_string());
    assert_eq!(sampler.sample_pixel(0, 0).unwrap_err(), "X11 capture failed");
    assert_eq!(
        sampler.sample_grid(0, 0, 1, ScaleHint::unity()).unwrap_err(),
        "X11 capture failed"
    );
    assert!(sampler.screenshot_cache.is_some());
    sampler.store_capture(&[0x0A0B0C], RGB24, 1, 1, 5);
    assert_eq!(rgb(&sampler.sample_pixel(0, 0).unwrap()), (10, 11, 12));
}

#[test]
fn pointer_readings() {
    let at = pointer_from_query(1, 300, -4).unwrap();
    assert_eq!((at.x, at.y), (300, -4));
    assert_eq!(pointer_from_query(0, 300, -4).unwrap_err(), "Failed to query pointer");
    let mut sampler = LinuxSampler::new(true, 1, 1, Ok(())).unwrap();
    assert_eq!(sampler.get_cursor_position().unwrap_err(), "Failed to query pointer");
    sampler.record_pointer(1, 7, 9);
    let held = sampler.get_cursor_position().unwrap();
    assert_eq!((held.x, held.y), (7, 9));
    sampler.record_pointer(0, 1, 1);
    assert!(sampler.get_cursor_position().is_err());
}

#[test]
fn capture_method_is_the_first_that_is_there() {
    assert_eq!(detect_capture_method(true, true, true, true), CaptureMethod::X11Direct);
    assert_eq!(detect_capture_method(false, true, true, true), CaptureMethod::Grim);
    assert_eq!(detect_capture_method(false, false, true, true), CaptureMethod::Scrot);
    assert_eq!(detect_capture_method(false, false, false, true), CaptureMethod::ImageMagick);
    assert_eq!(detect_capture_method(false, false, false, false), CaptureMethod::X11Direct);
    assert_eq!(CaptureMethod::X11Direct.name(), "X11Direct");
    assert_eq!(CaptureMethod::Grim.name(), "Grim");
    assert_eq!(CaptureMethod::Scrot.name(), "Scrot");
    assert_eq!(CaptureMethod::ImageMagick.name(), "ImageMagick");
}

#[test]
fn a_failed_trial_is_fatal_only_without_a_screenshot_tool() {
    let failed = || Err::<(), String>("X11 capture failed".to_string());
    assert_eq!(capture_probe(Ok(()), CaptureMethod::X11Direct), Ok(()));
    assert_eq!(capture_probe(failed(), CaptureMethod::X11Direct), failed());
    for method in [CaptureMethod::Grim, CaptureMethod::Scrot, CaptureMethod::ImageMagick] {
        assert_eq!(capture_probe(failed(), method), Ok(()));
        assert_eq!(capture_probe(Ok(()), method), Ok(()));
    }
    // the two rules together: no direct capture and no tool refuses the start
    let method = detect_capture_method(false, false, false, false);
    let probe = capture_probe(capture_outcome(true, false), method);
    assert_eq!(
        LinuxSampler::new(true, 1920, 1080, probe).unwrap_err(),
        "X11 capture failed"
    );
    let method = detect_capture_method(false, false, true, false);
    let probe = capture_probe(capture_outcome(true, false), method);
    assert!(LinuxSampler::new(true, 1920, 1080, probe).is_ok());
}

#[test]
fn integer_square_roots() {
    for (n, root) in [
        (0u64, 0u32),
        (1, 1),
        (2, 1),
        (3, 1),
        (4, 2),
        (99, 9),
        (100, 10),
        (1_000_000, 1000),
        (8_294_400, 2880),
        (u32::MAX as u64, 65535),
        (1 << 32, 65536),
        (u64::MAX, u32::MAX),
    ] {
        assert_eq!(integer_sqrt(n), root);
    }
}

#[test]
fn dimensions_are_estimated_from_the_pixel_count() {
    assert_eq!(estimate_dimensions(3840 * 2160), (3840, 2160));
    assert_eq!(estimate_dimensions(1920 * 1080), (1920, 1080));
    assert_eq!(estimate_dimensions(1024 * 768), (1024, 768));
    assert_eq!(estimate_dimensions(1280 * 1024), (1280, 1024));
    assert_eq!(estimate_dimensions(1280 * 800), (1280, 800));
    assert_eq!(estimate_dimensions(1280 * 720), (1280, 720));
    // no exact match: the width nearest the square root, the first of equals
    assert_eq!(estimate_dimensions(1000 * 1000), (1024, 768));
    assert_eq!(estimate_dimensions(0), (1024, 768));
    assert_eq!(estimate_dimensions(1640 * 1640), (1680, 1050));
    assert_eq!(estimate_dimensions(1641 * 1641), (1680, 1050));
    assert_eq!(estimate_dimensions(1639 * 1639), (1600, 900));
    assert_eq!(estimate_dimensions(1300 * 1300), (1280, 1024));
    assert_eq!(estimate_dimensions(5000 * 5000), (3840, 2160));
    assert_eq!(estimate_dimensions(usize::MAX), (3840, 2160));
}

#[test]
fn dimensions_match_counts_modulo_two_to_the_32() {
    let wrapped = (1usize << 32) + 1920 * 1080;
    assert_eq!(estimate_dimensions(wrapped), (1920, 1080));
}

#[test]
fn formats_are_announced_or_estimated() {
    let packed = VideoFormat::packed(1920, 1080);
    assert_eq!((packed.width, packed.height, packed.stride), (1920, 1080, 7680));
    let wide = VideoFormat::packed(u32::MAX, 1);
    assert_eq!(wide.stride, 4 * (u32::MAX as u64));
    let announced = VideoFormat { width: 10, height: 20, stride: 64 };
    let kept = format_or_estimate(Some(announced), 1920 * 1080 * 4);
    assert_eq!((kept.width, kept.height, kept.stride), (10, 20, 64));
    let estimated = format_or_estimate(None, 1920 * 1080 * 4);
    assert_eq!((estimated.width, estimated.height, estimated.stride), (1920, 1080, 7680));
    let rounded = format_or_estimate(None, 1920 * 1080 * 4 + 3);
    assert_eq!((rounded.width, rounded.height), (1920, 1080));
}

#[test]
fn chunks_become_frames_when_they_are_usable() {
    let format = Some(VideoFormat { width: 2, height: 1, stride: 8 });
    let mapped = [1u8, 2, 3, 4, 5, 6, 7, 8, 9, 10];
    let frame = frame_from_chunk(&mapped, 8, format).unwrap();
    assert_eq!(frame.data, vec![1, 2, 3, 4, 5, 6, 7, 8]);
    assert_eq!((frame.width, frame.height, frame.stride), (2, 1, 8));
    assert!(frame_from_chunk(&mapped, 0, format).is_none());
    assert!(frame_from_chunk(&mapped, 11, format).is_none());
    assert!(frame_from_chunk(&mapped, 10, format).is_some());
    assert!(frame_from_chunk(&mapped, 8, None).is_none());
    assert!(frame_from_chunk(&mapped, 8, Some(VideoFormat { width: 0, height: 1, stride: 8 })).is_none());
    assert!(frame_from_chunk(&mapped, 8, Some(VideoFormat { width: 2, height: 0, stride: 8 })).is_none());
}

#[test]
fn frames_are_read_in_bgra_order_with_their_stride() {
    let frame = FrameBuffer {
        data: vec![
            3, 2, 1, 255, 6, 5, 4, 255, 0, 0, 0, 0, // row 0 and its padding
            9, 8, 7, 255, 12, 11, 10, 255, 0, 0, 0, 0, // row 1 and its padding
        ],
        width: 2,
        height: 2,
        stride: 12,
    };
    assert_eq!(rgb(&frame.color_at(0, 0)), (1, 2, 3));
    assert_eq!(rgb(&frame.color_at(1, 0)), (4, 5, 6));
    assert_eq!(rgb(&frame.color_at(0, 1)), (7, 8, 9));
    assert_eq!(rgb(&frame.color_at(1, 1)), (10, 11, 12));
    assert_eq!(rgb(&frame.color_at(2, 0)), (128, 128, 128));
    assert_eq!(rgb(&frame.color_at(0, 2)), (128, 128, 128));
    assert_eq!(rgb(&frame.color_at(-1, 0)), (128, 128, 128));
    let exact = FrameBuffer { data: vec![3, 2, 1, 255, 6, 5, 4, 255], width: 2, height: 1, stride: 8 };
    assert_eq!(rgb(&exact.color_at(0, 0)), (1, 2, 3));
    assert_eq!(rgb(&exact.color_at(1, 0)), (4, 5, 6));
    let short = FrameBuffer { data: vec![3, 2, 1, 255, 6, 5, 4], width: 2, height: 1, stride: 8 };
    assert_eq!(rgb(&short.color_at(0, 0)), (1, 2, 3));
    assert_eq!(rgb(&short.color_at(1, 0)), (128, 128, 128));
    let huge = FrameBuffer { data: vec![0; 16], width: u32::MAX, height: u32::MAX, stride: u64::MAX };
    assert_eq!(rgb(&huge.color_at(i32::MAX, i32::MAX)), (128, 128, 128));
    assert_eq!(rgb(&huge.color_at(1, 0)), (0, 0, 0));
}

#[test]
fn waiting_for_a_frame_times_out_after_five_seconds() {
    assert_eq!(wait_step(true, 0), WaitStep::Done);
    assert_eq!(wait_step(true, 9_000_000_000), WaitStep::Done);
    assert_eq!(wait_step(false, 0), WaitStep::Iterate);
    assert_eq!(wait_step(false, 5_000_000_000), WaitStep::Iterate);
    assert_eq!(wait_step(false, 5_000_000_001), WaitStep::TimedOut);
}

#[test]
fn portal_permission_is_asked_once_and_tokens_are_kept() {
    let mut sampler = WaylandPortalSampler::new(None);
    match sampler.request_permission() {
        PermissionStep::Ask { restore_token } => assert!(restore_token.is_none()),
        PermissionStep::Granted => panic!("nothing was granted yet"),
    }
    assert_eq!(
        sampler.permission_granted(&vec![], Some("t0".to_string())).unwrap_err(),
        "No PipeWire streams available"
    );
    assert!(sampler.pipewire_node_id.is_none());
    assert!(sampler.restore_token.is_none());
    let saved = sampler.permission_granted(&vec![42, 43], Some("token-1".to_string())).unwrap();
    assert_eq!(saved.as_deref(), Some("token-1"));
    assert_eq!(sampler.pipewire_node_id, Some(42));
    assert_eq!(sampler.restore_token.as_deref(), Some("token-1"));
    assert!(matches!(sampler.request_permission(), PermissionStep::Granted));

    let mut renewed = WaylandPortalSampler::new(Some("old".to_string()));
    match renewed.request_permission() {
        PermissionStep::Ask { restore_token } => assert_eq!(restore_token.as_deref(), Some("old")),
        PermissionStep::Granted => panic!("nothing was granted yet"),
    }
    let saved = renewed.permission_granted(&vec![7], None).unwrap();
    assert!(saved.is_none());
    assert_eq!(renewed.restore_token.as_deref(), Some("old"));
    assert_eq!(renewed.pipewire_node_id, Some(7));
}

#[test]
fn portal_takes_one_frame_for_the_session() {
    let mut sampler = WaylandPortalSampler::new(None);
    assert_eq!(
        sampler.capture_step().unwrap_err(),
        "Screen capture not initialized - call request_permission first"
    );
    assert_eq!(sampler.sample_pixel(0, 0).unwrap_err(), "No screenshot available");
    assert_eq!(
        sampler.sample_grid(0, 0, 3, ScaleHint::unity()).unwrap_err(),
        "No screenshot available"
    );
    sampler.permission_granted(&vec![5], None).unwrap();
    assert_eq!(sampler.capture_step().unwrap(), CaptureStep::Capture { node_id: 5 });
    let frame = frame_from_chunk(
        &[3, 2, 1, 0, 6, 5, 4, 0, 9, 8, 7, 0, 12, 11, 10, 0],
        16,
        Some(VideoFormat::packed(2, 2)),
    )
    .unwrap();
    sampler.store_frame(frame);
    assert!(sampler.screenshot_captured);
    assert_eq!(sampler.capture_step().unwrap(), CaptureStep::Ready);
    assert_eq!(rgb(&sampler.sample_pixel(1, 1).unwrap()), (10, 11, 12));
    assert_eq!(rgb(&sampler.sample_pixel(5, 5).unwrap()), (128, 128, 128));
    let grid = sampler.sample_grid(0, 0, 3, ScaleHint::unity()).unwrap();
    assert_eq!(grid.len(), 3);
    assert_eq!(rgb(&grid[0][0]), (128, 128, 128));
    assert_eq!(rgb(&grid[1][1]), (1, 2, 3));
    assert_eq!(rgb(&grid[1][2]), (4, 5, 6));
    assert_eq!(rgb(&grid[2][1]), (7, 8, 9));
    assert_eq!(rgb(&grid[2][2]), (10, 11, 12));
    assert!(sampler.get_cursor_position().is_err());
    sampler.record_pointer(1, 3, 4);
    let at = sampler.get_cursor_position().unwrap();
    assert_eq!((at.x, at.y), (3, 4));
    sampler.record_pointer(0, 3, 4);
    assert_eq!(sampler.get_cursor_position().unwrap_err(), "Failed to query pointer");
}

#[test]
fn screenshot_portal_backend_serves_screenshots_for_100_ms() {
    assert_eq!(
        WaylandSampler::new(false, None).unwrap_err(),
        "Failed to open X11 display for cursor tracking"
    );
    assert_eq!(
        WaylandSampler::new(true, Some("no threads".to_string())).unwrap_err(),
        "Failed to create tokio runtime: no threads"
    );
    let mut sampler = WaylandSampler::new(true, None).unwrap();
    assert!(sampler.needs_refresh(0));
    assert_eq!(sampler.sample_pixel(0, 0).unwrap_err(), "No screenshot cached");
    sampler.store_screenshot(vec![1, 2, 3, 4, 5, 6, 7, 8, 9, 10, 11, 12], 2, 2, 500);
    assert!(!sampler.needs_refresh(600));
    assert!(sampler.needs_refresh(601));
    assert_eq!(rgb(&sampler.sample_pixel(1, 1).unwrap()), (10, 11, 12));
    let grid = sampler.sample_grid(1, 1, 3, ScaleHint::unity()).unwrap();
    assert_eq!(rgb(&grid[0][0]), (1, 2, 3));
    assert_eq!(rgb(&grid[1][1]), (10, 11, 12));
    assert_eq!(rgb(&grid[2][2]), (128, 128, 128));
    sampler.capture_failed("Screenshot request failed: denied".to_string());
    assert_eq!(sampler.sample_pixel(0, 0).unwrap_err(), "Screenshot request failed: denied");
    sampler.record_pointer(1, 11, 12);
    let at = sampler.get_cursor_position().unwrap();
    assert_eq!((at.x, at.y), (11, 12));
}

#[test]
fn device_context_backend_needs_a_context_and_a_dpi() {
    assert_eq!(
        WindowsSampler::new(false, 1920, 1080, 96).unwrap_err(),
        "Failed to get device context"
    );
    assert_eq!(
        WindowsSampler::new(true, 1920, 1080, 0).unwrap_err(),
        "Failed to query display DPI"
    );
    assert_eq!(
        WindowsSampler::new(true, 1920, 1080, -96).unwrap_err(),
        "Failed to query display DPI"
    );
    let sampler = WindowsSampler::new(true, 1920, 1080, 144).unwrap();
    assert_eq!((sampler.screen_width, sampler.screen_height, sampler.dpi), (1920, 1080, 144));
}

#[test]
fn coordinates_scale_by_the_dpi_over_96_in_both_directions() {
    let plain = WindowsSampler::new(true, 1920, 1080, 96).unwrap();
    assert_eq!(plain.to_logical(1234), 1234);
    assert_eq!(plain.to_physical(-1234), -1234);
    let double = WindowsSampler::new(true, 3840, 2160, 192).unwrap();
    assert_eq!(double.to_logical(2000), 1000);
    assert_eq!(double.to_physical(1000), 2000);
    assert_eq!(double.to_logical(2001), 1000);
    assert_eq!(double.to_logical(-2001), -1000);
    assert_eq!(double.to_physical(i32::MAX), i32::MAX);
    assert_eq!(double.to_physical(i32::MIN), i32::MIN);
    let half_more = WindowsSampler::new(true, 2880, 1620, 144).unwrap();
    assert_eq!(half_more.to_logical(1500), 1000);
    assert_eq!(half_more.to_physical(1000), 1500);
    assert_eq!(half_more.to_physical(1), 1);
    assert_eq!(half_more.to_physical(-1), -1);
    assert_eq!(half_more.to_physical(3), 4);
    assert_eq!(half_more.to_physical(-3), -4);
    let cursor = half_more.cursor_from_physical(1500, 300);
    assert_eq!((cursor.x, cursor.y), (1000, 200));
    let surface = half_more.surface_point(1000, 200);
    assert_eq!((surface.x, surface.y), (1500, 300));
    let tiny = WindowsSampler::new(true, 1, 1, 1).unwrap();
    assert_eq!(tiny.to_logical(i32::MAX), i32::MAX);
    assert_eq!(tiny.to_logical(i32::MIN), i32::MIN);
}

#[test]
fn raw_colour_values_are_reordered_and_the_sentinel_is_an_error() {
    let sampler = WindowsSampler::new(true, 1920, 1080, 96).unwrap();
    let color = sampler.pixel_from_colorref(0x00403020, 5, 6).unwrap();
    assert_eq!(rgb(&color), (0x20, 0x30, 0x40));
    assert_eq!(color.hex_string(), "#203040");
    let high = sampler.pixel_from_colorref(0xFE0000FF, 5, 6).unwrap();
    assert_eq!(rgb(&high), (0xFF, 0, 0));
    assert_eq!(CLR_INVALID, 0xFFFF_FFFF);
    assert_eq!(
        sampler.pixel_from_colorref(CLR_INVALID, 0, 0).unwrap_err(),
        "Failed to get pixel at (0, 0)"
    );
    assert_eq!(
        sampler.pixel_from_colorref(CLR_INVALID, 1919, 1079).unwrap_err(),
        "Failed to get pixel at (1919, 1079)"
    );
}

#[test]
fn pixels_outside_the_screen_are_gray_on_the_device_context_backend() {
    let sampler = WindowsSampler::new(true, 1920, 1080, 144).unwrap();
    for (x, y) in [
        (-1, -1),
        (-1, 0),
        (0, -1),
        (1920, 0),
        (0, 1080),
        (1920, 1080),
        (2000, 1100),
        (i32::MIN, i32::MIN),
        (i32::MAX, i32::MAX),
    ] {
        assert!(!sampler.is_on_screen(x, y));
        for value in [CLR_INVALID, 0x00403020, 0] {
            let color = sampler.pixel_from_colorref(value, x, y).unwrap();
            assert_eq!(rgb(&color), (128, 128, 128));
            assert_eq!(color.hex_string(), "#808080");
        }
    }
    for (x, y) in [(0, 0), (1919, 0), (0, 1079), (1919, 1079), (960, 540)] {
        assert!(sampler.is_on_screen(x, y));
        assert_eq!(rgb(&sampler.pixel_from_colorref(0x00010203, x, y).unwrap()), (3, 2, 1));
        assert!(sampler.pixel_from_colorref(CLR_INVALID, x, y).is_err());
    }
    let no_screen = WindowsSampler::new(true, 0, 0, 96).unwrap();
    assert_eq!(rgb(&no_screen.pixel_from_colorref(CLR_INVALID, 0, 0).unwrap()), (128, 128, 128));
}

#[test]
fn block_copies_cover_the_grid_around_the_physical_centre() {
    let sampler = WindowsSampler::new(true, 3840, 2160, 192).unwrap();
    assert_eq!(
        sampler.capture_region(1000, 500, 9),
        Some(CaptureRegion { x_start: 1996, y_start: 996, side: 9 })
    );
    assert_eq!(
        sampler.capture_region(0, 0, 3),
        Some(CaptureRegion { x_start: -1, y_start: -1, side: 3 })
    );
    assert_eq!(sampler.capture_region(0, 0, 0), None);
    assert_eq!(sampler.capture_region(0, 0, i32::MAX as usize + 1), None);
    assert_eq!(sampler.capture_region(i32::MIN, 0, 3), None);
    assert_eq!(WindowsSampler::block_size(9), Some(324));
    assert_eq!(WindowsSampler::block_size(0), Some(0));
    assert_eq!(WindowsSampler::block_size(usize::MAX), None);
}

#[test]
fn grids_are_read_from_block_copies_or_fall_back() {
    let sampler = WindowsSampler::new(true, 1920, 1080, 96).unwrap();
    let buffer: Vec<u8> = vec![
        3, 2, 1, 0, 6, 5, 4, 0, // row 0
        9, 8, 7, 0, 12, 11, 10, 0, // row 1
    ];
    let raw = block_grid(&buffer, 2);
    assert_eq!(rgb(&raw[0][0]), (1, 2, 3));
    assert_eq!(rgb(&raw[1][1]), (10, 11, 12));
    let grid = sampler.grid_from_capture(500, 500, true, 2, &buffer, 2).unwrap();
    assert_eq!(grid.len(), 2);
    assert_eq!(rgb(&grid[0][0]), (1, 2, 3));
    assert_eq!(rgb(&grid[0][1]), (4, 5, 6));
    assert_eq!(rgb(&grid[1][0]), (7, 8, 9));
    assert_eq!(rgb(&grid[1][1]), (10, 11, 12));
    assert!(sampler.grid_from_capture(500, 500, false, 2, &buffer, 2).is_none());
    assert!(sampler.grid_from_capture(500, 500, true, 0, &buffer, 2).is_none());
    let short = sampler.grid_from_capture(500, 500, true, 1, &buffer[..7], 2).unwrap();
    assert_eq!(rgb(&short[0][0]), (1, 2, 3));
    assert_eq!(rgb(&short[0][1]), (128, 128, 128));
    assert_eq!(rgb(&short[1][1]), (128, 128, 128));
    assert_eq!(short.len(), 2);
    assert!(short.iter().all(|row| row.len() == 2));
}

#[test]
fn grid_cells_outside_the_screen_are_gray_on_the_device_context_backend() {
    let sampler = WindowsSampler::new(true, 1920, 1080, 96).unwrap();
    // a 3 by 3 copy in which every cell is red
    let mut buffer = Vec::new();
    for _ in 0..9 {
        buffer.extend_from_slice(&[0, 0, 255, 0]);
    }
    let red = (255, 0, 0);
    let gray = (128, 128, 128);
    // around the origin: the cells of row 0 and of column 0 lie outside
    let corner = sampler.grid_from_capture(0, 0, true, 3, &buffer, 3).unwrap();
    for row in 0..3 {
        for col in 0..3 {
            let expected = if row == 0 || col == 0 { gray } else { red };
            assert_eq!(rgb(&corner[row][col]), expected);
        }
    }
    // around the last pixel: the cells of row 2 and of column 2 lie outside
    let far = sampler.grid_from_capture(1919, 1079, true, 3, &buffer, 3).unwrap();
    for row in 0..3 {
        for col in 0..3 {
            let expected = if row == 2 || col == 2 { gray } else { red };
            assert_eq!(rgb(&far[row][col]), expected);
        }
    }
    let inside = sampler.grid_from_capture(960, 540, true, 3, &buffer, 3).unwrap();
    assert!(inside.iter().all(|row| row.iter().all(|c| rgb(c) == red)));
    let outside = sampler.grid_from_capture(-50, 5000, true, 3, &buffer, 3).unwrap();
    assert!(outside.iter().all(|row| row.len() == 3 && row.iter().all(|c| rgb(c) == gray)));
    let edge = sampler.grid_from_capture(i32::MAX, i32::MIN, true, 3, &buffer, 3).unwrap();
    assert!(edge.iter().all(|row| row.len() == 3 && row.iter().all(|c| rgb(c) == gray)));
}

#[test]
fn captured_grids_are_gray_off_screen_and_keep_their_shape() {
    let red = Color::new(255, 0, 0);
    let cells = vec![vec![red; 5]; 5];
    let masked = gray_off_screen(&cells, 1, 1, 5, 3, 2);
    for row in 0..5usize {
        for col in 0..5usize {
            let (x, y) = (1 + col as i32 - 2, 1 + row as i32 - 2);
            assert_eq!(is_on_screen(x, y, 3, 2), (0..3).contains(&x) && (0..2).contains(&y));
            let expected = if is_on_screen(x, y, 3, 2) { (255, 0, 0) } else { (128, 128, 128) };
            assert_eq!(rgb(&masked[row][col]), expected);
        }
    }
    let ragged = vec![vec![red], vec![], vec![red, red]];
    let kept = gray_off_screen(&ragged, 0, 0, 1, 10, 10);
    assert_eq!(kept.len(), 3);
    assert_eq!((kept[0].len(), kept[1].len(), kept[2].len()), (1, 0, 2));
    assert_eq!(rgb(&kept[0][0]), (255, 0, 0));
    assert_eq!(rgb(&kept[2][1]), (255, 0, 0));
    assert!(gray_off_screen(&vec![], 0, 0, 0, 10, 10).is_empty());
    let none = gray_off_screen(&cells, 2, 2, 5, 0, 0);
    assert!(none.iter().all(|row| row.iter().all(|c| rgb(c) == (128, 128, 128))));
}

fn display() -> MacOSSampler {
    MacOSSampler::new(Some(3840), 1920, 1080).unwrap()
}

#[test]
fn window_list_pixels_are_read_in_bgra_order() {
    let sampler = display();
    let color = sampler.pixel_from_capture(10, 10, Some(&[3, 2, 1, 255])).unwrap();
    assert_eq!(rgb(&color), (1, 2, 3));
    assert_eq!(
        sampler.pixel_from_capture(10, 10, Some(&[3, 2, 1])).unwrap_err(),
        "Insufficient image data"
    );
    assert_eq!(
        sampler.pixel_from_capture(10, 10, None).unwrap_err(),
        "Failed to capture screen pixel"
    );
}

#[test]
fn pixels_outside_the_display_are_gray_on_the_window_list_backend() {
    let sampler = display();
    for (x, y) in [(-10, -10), (2000, 1100), (1920, 0), (0, 1080), (-1, 5), (5, -1)] {
        assert!(!sampler.is_on_screen(x, y));
        assert_eq!(rgb(&sampler.pixel_from_capture(x, y, None).unwrap()), (128, 128, 128));
        assert_eq!(
            rgb(&sampler.pixel_from_capture(x, y, Some(&[3, 2, 1, 255])).unwrap()),
            (128, 128, 128)
        );
        assert_eq!(rgb(&sampler.pixel_from_capture(x, y, Some(&[])).unwrap()), (128, 128, 128));
    }
    assert!(sampler.is_on_screen(0, 0));
    assert!(sampler.is_on_screen(1919, 1079));
}

#[test]
fn window_list_grids_read_the_first_pixel_of_each_point() {
    let sampler = display();
    assert_eq!(
        MacOSSampler::grid_region(100, 50, 9),
        GridRegion { x_start: 96, y_start: 46, side: 9 }
    );
    assert_eq!(
        MacOSSampler::grid_region(i32::MIN, i32::MAX, 2),
        GridRegion { x_start: i32::MIN as i128 - 1, y_start: i32::MAX as i128 - 1, side: 2 }
    );
    // a 2 by 2 grid captured at twice the resolution: 4 by 4 pixels, 16 bytes to a row
    let mut data = Vec::new();
    for row in 0..4u8 {
        for col in 0..4u8 {
            data.extend_from_slice(&[row * 16 + col, 100 + row, 200 + col, 255]);
        }
    }
    let image = CapturedImage { data, bytes_per_row: 16, width: 4, height: 4, bits_per_pixel: 32 };
    let grid = sampler.grid_from_capture(500, 500, Some(&image), 2).unwrap();
    assert_eq!(grid.len(), 2);
    assert_eq!(rgb(&grid[0][0]), (200, 100, 0));
    assert_eq!(rgb(&grid[0][1]), (202, 100, 2));
    assert_eq!(rgb(&grid[1][0]), (200, 102, 32));
    assert_eq!(rgb(&grid[1][1]), (202, 102, 34));
    assert_eq!(
        sampler.grid_from_capture(500, 500, None, 2).unwrap_err(),
        "Failed to capture screen region"
    );
    let empty = sampler.grid_from_capture(500, 500, Some(&image), 0).unwrap();
    assert!(empty.is_empty());
    // more cells than pixels: every cell reads the first pixel, and short data is gray
    let small = CapturedImage { data: vec![3, 2, 1, 0], bytes_per_row: 4, width: 1, height: 1, bits_per_pixel: 32 };
    let stretched = small.grid(3);
    assert!(stretched.iter().all(|row| row.len() == 3 && row.iter().all(|c| rgb(c) == (1, 2, 3))));
    let cut = CapturedImage { data: vec![3, 2, 1, 0, 6, 5, 4], bytes_per_row: 8, width: 2, height: 1, bits_per_pixel: 32 };
    let cells = cut.grid(2);
    assert_eq!(rgb(&cells[0][0]), (1, 2, 3));
    assert_eq!(rgb(&cells[0][1]), (128, 128, 128));
    assert_eq!(rgb(&cells[1][0]), (1, 2, 3));
}

#[test]
fn grid_cells_outside_the_display_are_gray_on_the_window_list_backend() {
    let sampler = display();
    let mut data = Vec::new();
    for _ in 0..9 {
        data.extend_from_slice(&[0, 255, 0, 255]);
    }
    let image = CapturedImage { data, bytes_per_row: 12, width: 3, height: 3, bits_per_pixel: 32 };
    let green = (0, 255, 0);
    let gray = (128, 128, 128);
    let corner = sampler.grid_from_capture(0, 0, Some(&image), 3).unwrap();
    assert_eq!(rgb(&corner[0][0]), gray);
    assert_eq!(rgb(&corner[0][1]), gray);
    assert_eq!(rgb(&corner[1][0]), gray);
    assert_eq!(rgb(&corner[1][1]), green);
    assert_eq!(rgb(&corner[2][2]), green);
    let far = sampler.grid_from_capture(1919, 1079, Some(&image), 3).unwrap();
    assert_eq!(rgb(&far[2][2]), gray);
    assert_eq!(rgb(&far[1][2]), gray);
    assert_eq!(rgb(&far[2][1]), gray);
    assert_eq!(rgb(&far[1][1]), green);
    assert_eq!(rgb(&far[0][0]), green);
    let outside = sampler.grid_from_capture(-100, -100, Some(&image), 3).unwrap();
    assert!(outside.iter().all(|row| row.len() == 3 && row.iter().all(|c| rgb(c) == gray)));
}

#[test]
fn window_list_cursor_and_scale() {
    let at = MacOSSampler::cursor_from_event(true, 10, 20).unwrap();
    assert_eq!((at.x, at.y), (10, 20));
    assert_eq!(
        MacOSSampler::cursor_from_event(false, 10, 20).unwrap_err(),
        "Failed to create CG event"
    );
    assert_eq!(MacOSSampler::new(Some(2880), 1440, 900).unwrap().scale.percent, 200);
    assert_eq!(MacOSSampler::new(Some(1920), 1920, 1080).unwrap().scale.percent, 100);
    assert_eq!(MacOSSampler::new(Some(2880), 1920, 1080).unwrap().scale.percent, 150);
    assert_eq!(MacOSSampler::new(None, 1920, 1080).unwrap().scale.percent, 100);
    assert_eq!(MacOSSampler::new(Some(1920), 0, 0).unwrap().scale.percent, 100);
    assert_eq!(MacOSSampler::new(Some(u64::MAX), 1, 1).unwrap().scale.percent, u32::MAX);
    let sized = MacOSSampler::new(None, 1440, 900).unwrap();
    assert_eq!((sized.screen_width, sized.screen_height), (1440, 900));
    let vast = MacOSSampler::new(None, u64::MAX, 1 << 31).unwrap();
    assert_eq!((vast.screen_width, vast.screen_height), (i32::MAX, i32::MAX));
}

fn selected(step: Selection) -> String {
    match step {
        Selection::Try(kind) => format!("try {:?}", kind),
        Selection::Use(kind) => format!("use {:?}", kind),
        Selection::Fail(message) => format!("fail {}", message),
    }
}

#[test]
fn backends_are_tried_in_the_order_of_the_platform() {
    let none = "fail No screen capture method available. Build with --features x11 or --features wayland";
    assert_eq!(selected(create_sampler(Platform::MacOS)), "try MacOS");
    assert_eq!(selected(create_sampler(Platform::Windows)), "try Windows");
    assert_eq!(selected(create_sampler(Platform::Other)), "fail Unsupported platform");
    assert_eq!(selected(create_sampler(Platform::Linux { x11: true, wayland: true })), "try X11");
    assert_eq!(selected(create_sampler(Platform::Linux { x11: true, wayland: false })), "try X11");
    assert_eq!(
        selected(create_sampler(Platform::Linux { x11: false, wayland: true })),
        "try WaylandPortal"
    );
    assert_eq!(selected(create_sampler(Platform::Linux { x11: false, wayland: false })), none);
}

#[test]
fn the_first_backend_that_starts_is_used() {
    let none = "fail No screen capture method available. Build with --features x11 or --features wayland";
    let both = Platform::Linux { x11: true, wayland: true };
    let only_x11 = Platform::Linux { x11: true, wayland: false };
    let down = || InitOutcome::Unavailable("Failed to open X11 display".to_string());
    assert_eq!(selected(after_init(both, BackendKind::X11, InitOutcome::Ready)), "use X11");
    assert_eq!(selected(after_init(both, BackendKind::X11, down())), "try WaylandPortal");
    assert_eq!(selected(after_init(only_x11, BackendKind::X11, down())), none);
    assert_eq!(
        selected(after_init(both, BackendKind::WaylandPortal, InitOutcome::Ready)),
        "use WaylandPortal"
    );
    assert_eq!(selected(after_init(both, BackendKind::WaylandPortal, down())), none);
    assert_eq!(
        selected(after_init(
            both,
            BackendKind::WaylandPortal,
            InitOutcome::Denied("Failed to start screencast: cancelled".to_string())
        )),
        "fail Failed to start screencast: cancelled"
    );
    assert_eq!(
        selected(after_init(Platform::MacOS, BackendKind::MacOS, InitOutcome::Ready)),
        "use MacOS"
    );
    assert_eq!(
        selected(after_init(
            Platform::Windows,
            BackendKind::Windows,
            InitOutcome::Unavailable("Failed to get device context".to_string())
        )),
        "fail Failed to get device context"
    );
    assert_eq!(
        selected(after_init(
            Platform::MacOS,
            BackendKind::MacOS,
            InitOutcome::Denied("no".to_string())
        )),
        "fail no"
    );
}
