use c3aznable::led::{frame, sampled_color, LedState, Rgb, NUM_PIXELS};

#[test]
fn rgb_request_names_exactly_its_triple() {
    assert_eq!(LedState::RGB(10, 20, 30).color(), Some(Rgb { r: 10, g: 20, b: 30 }));
}

#[test]
fn rgb_request_is_never_adjusted() {
    for value in 0..=255u8 {
        let request = LedState::RGB(value, 255 - value, value / 2);
        assert_eq!(request.color(), Some(Rgb { r: value, g: 255 - value, b: value / 2 }));
    }
}

#[test]
fn named_requests_have_their_colours() {
    assert_eq!(LedState::Off.color(), Some(Rgb { r: 0, g: 0, b: 0 }));
    assert_eq!(LedState::Red.color(), Some(Rgb { r: 255, g: 0, b: 0 }));
    assert_eq!(LedState::Green.color(), Some(Rgb { r: 0, g: 255, b: 0 }));
    assert_eq!(LedState::Blue.color(), Some(Rgb { r: 0, g: 0, b: 255 }));
}

#[test]
fn random_names_no_colour_before_it_is_applied() {
    assert_eq!(LedState::Random.color(), None);
}

#[test]
fn sampled_color_takes_low_bytes() {
    assert_eq!(
        sampled_color(0x1234_5678, 0xffff_ff00, 0x0000_01ff),
        Rgb { r: 0x78, g: 0x00, b: 0xff }
    );
    assert_eq!(sampled_color(0, 255, 256), Rgb { r: 0, g: 255, b: 0 });
    assert_eq!(sampled_color(u32::MAX, u32::MAX, u32::MAX), Rgb { r: 255, g: 255, b: 255 });
}

#[test]
fn sampled_color_varies_with_the_samples() {
    let mut seen = Vec::new();
    let mut word = 0x2545_f491u32;
    for _ in 0..20 {
        let mut draw = || {
            word ^= word << 13;
            word ^= word >> 17;
            word ^= word << 5;
            word
        };
        let color = sampled_color(draw(), draw(), draw());
        if !seen.contains(&color) {
            seen.push(color);
        }
    }
    assert!(seen.len() > 1);
}

#[test]
fn frame_has_one_pixel_for_each_pixel_of_the_light() {
    assert_eq!(NUM_PIXELS, 1);
    assert_eq!(frame(Rgb { r: 10, g: 20, b: 30 }).len(), NUM_PIXELS);
}

#[test]
fn frame_is_gamma_corrected() {
    assert_eq!(frame(Rgb { r: 127, g: 255, b: 0 }), vec![Rgb { r: 36, g: 255, b: 0 }]);
    assert_eq!(frame(Rgb { r: 10, g: 20, b: 30 }), vec![Rgb { r: 0, g: 0, b: 1 }]);
    assert_eq!(frame(Rgb { r: 64, g: 128, b: 192 }), vec![Rgb { r: 5, g: 37, b: 115 }]);
}

#[test]
fn frame_corrects_each_channel_by_itself() {
    for value in 0..=255u8 {
        let grey = frame(Rgb { r: value, g: value, b: value })[0];
        assert_eq!(grey.r, grey.g);
        assert_eq!(grey.g, grey.b);
        let red = frame(Rgb { r: value, g: 0, b: 255 })[0];
        assert_eq!(red.r, grey.r);
    }
}

#[test]
fn named_requests_keep_their_colours_in_the_frame() {
    for request in [LedState::Off, LedState::Red, LedState::Green, LedState::Blue] {
        let color = request.color().unwrap();
        assert_eq!(frame(color), vec![color]);
    }
}

#[test]
fn gamma_is_applied_to_the_frame_only() {
    let request = LedState::RGB(10, 20, 30);
    let color = request.color().unwrap();
    assert_eq!(color, Rgb { r: 10, g: 20, b: 30 });
    assert_ne!(frame(color), vec![color]);
}
