use ufo_plugins::camera::{window_to_viewport, PixelPair, Viewport, WindowSize};
use ufo_plugins::constants::{GAME_HEIGHT, GAME_WIDTH};

fn fit(width: u32, height: u32) -> Viewport {
    window_to_viewport(
        &WindowSize { physical_width: width, physical_height: height },
        GAME_WIDTH,
        GAME_HEIGHT,
    )
}

#[test]
fn same_aspect_fills_the_window() {
    let v = fit(1600, 960);
    assert_eq!(v.physical_size, PixelPair { x: 1600, y: 960 });
    assert_eq!(v.physical_position, PixelPair { x: 0, y: 0 });
}

#[test]
fn wide_window_gets_bars_left_and_right() {
    let v = fit(1920, 1080);
    assert_eq!(v.physical_size, PixelPair { x: 1800, y: 1080 });
    assert_eq!(v.physical_position, PixelPair { x: 60, y: 0 });
}

#[test]
fn tall_window_gets_bars_above_and_below() {
    let v = fit(1000, 1000);
    assert_eq!(v.physical_size, PixelPair { x: 1000, y: 600 });
    assert_eq!(v.physical_position, PixelPair { x: 0, y: 200 });
}

#[test]
fn odd_leftover_is_rounded_down_on_the_near_side() {
    // 803 wide, 480 high: the game area is 800 wide, three pixels are left.
    let v = fit(803, 480);
    assert_eq!(v.physical_size, PixelPair { x: 800, y: 480 });
    assert_eq!(v.physical_position, PixelPair { x: 1, y: 0 });
}

#[test]
fn tiny_window_rounds_sizes_down() {
    let v = fit(5, 5);
    assert_eq!(v.physical_size, PixelPair { x: 5, y: 3 });
    assert_eq!(v.physical_position, PixelPair { x: 0, y: 1 });
}

#[test]
fn empty_window_gives_empty_viewport() {
    let v = fit(0, 0);
    assert_eq!(v.physical_size, PixelPair { x: 0, y: 0 });
    assert_eq!(v.physical_position, PixelPair { x: 0, y: 0 });
}

#[test]
fn viewport_stays_inside_and_centred() {
    for (w, h) in [(1280u32, 720u32), (1024, 768), (333, 1777), (2560, 1080)] {
        let v = fit(w, h);
        assert!(v.physical_position.x + v.physical_size.x <= w);
        assert!(v.physical_position.y + v.physical_size.y <= h);
        let left_x = w - v.physical_position.x - v.physical_size.x;
        assert!(left_x - v.physical_position.x <= 1);
        assert!(v.physical_size.x == w || v.physical_size.y == h);
    }
}

#[test]
fn scaling_the_game_area_keeps_the_viewport() {
    let window = WindowSize { physical_width: 1920, physical_height: 1080 };
    assert_eq!(window_to_viewport(&window, 400, 240), window_to_viewport(&window, 800, 480));
    assert_eq!(window_to_viewport(&window, 5, 3), window_to_viewport(&window, 800, 480));
}
