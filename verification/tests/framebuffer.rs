use rmox::eink_update::{refresh_request, RefreshRequest, UpdateDepth, UpdateStyle};
use rmox::fb::{draw_pixel, fill_contiguous, fill_solid, on_screen, point_to_index, scaled_pixel, FB_PIXELS};
use rmox::types::{pos2, rect};
use rmox::{FB_HEIGHT, FB_WIDTH};

#[test]
fn refresh_requests() {
    assert_eq!(
        refresh_request(&rect(10, 20, 30, 40), UpdateStyle::Monochrome, UpdateDepth::Partial),
        Some(RefreshRequest {
            top: 20,
            left: 10,
            width: 30,
            height: 40,
            waveform_mode: 1,
            update_mode: 0,
            update_marker: 1,
            temp: 0x18,
            flags: 0,
            dither_mode: 0,
            quant_bit: 0,
        })
    );
    let clipped = refresh_request(&rect(1400, 1880, -100, -100), UpdateStyle::Rgb, UpdateDepth::Full).unwrap();
    assert_eq!((clipped.left, clipped.top, clipped.width, clipped.height), (1300, 1780, 100, 92));
    assert_eq!((clipped.waveform_mode, clipped.update_mode), (3, 1));
    assert_eq!(UpdateStyle::Init.waveform_mode(), 0);
}

#[test]
fn empty_rectangles_are_not_refreshed() {
    assert_eq!(refresh_request(&rect(10, 10, 0, 5), UpdateStyle::Init, UpdateDepth::Full), None);
    assert_eq!(refresh_request(&rect(10, 10, 5, 0), UpdateStyle::Init, UpdateDepth::Full), None);
    assert_eq!(refresh_request(&rect(-10, 10, 10, 5), UpdateStyle::Init, UpdateDepth::Full), None);
    assert_eq!(refresh_request(&rect(1404, 0, 10, 10), UpdateStyle::Init, UpdateDepth::Full), None);
}

#[test]
fn pixels_are_written_in_bounds() {
    assert_eq!(FB_PIXELS, (FB_WIDTH * FB_HEIGHT) as usize);
    assert_eq!(point_to_index(pos2(3, 2)), 2 * 1404 + 3);
    assert!(on_screen(pos2(1403, 1871)));
    assert!(!on_screen(pos2(1404, 0)));
    let mut pixels = vec![0u16; FB_PIXELS];
    draw_pixel(&mut pixels, pos2(3, 2), 7);
    draw_pixel(&mut pixels, pos2(-1, 2), 7);
    draw_pixel(&mut pixels, pos2(1404, 2), 7);
    assert_eq!(pixels.iter().filter(|p| **p == 7).count(), 1);
    assert_eq!(pixels[2 * 1404 + 3], 7);
    fill_solid(&mut pixels, &rect(1402, -1, 4, 3), 9);
    let set: Vec<usize> = (0..FB_PIXELS).filter(|i| pixels[*i] == 9).collect();
    assert_eq!(set, [1402, 1403, 1404 + 1402, 1404 + 1403]);
    fill_solid(&mut pixels, &rect(0, 0, 0, 10), 5);
    assert_eq!(pixels.iter().filter(|p| **p == 5).count(), 0);
    fill_contiguous(&mut pixels, &rect(1403, 5, 2, 2), &[1, 2, 3]);
    assert_eq!(pixels[5 * 1404 + 1403], 1);
    assert_eq!(pixels[6 * 1404 + 1403], 3);
    assert_eq!(pixels.iter().filter(|p| **p == 2).count(), 0);
    assert_eq!(scaled_pixel(pos2(2, 3), 3), rect(6, 9, 3, 3));
}
