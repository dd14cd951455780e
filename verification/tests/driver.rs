use lightstrip::hsv::{hsv_to_rgb, rgb_to_hsv};
use lightstrip::{Rgb, Strip, Ws2812Error};

#[test]
fn new_strip_is_black_and_sized() {
    let s = Strip::detached(10, 2).unwrap();
    assert_eq!(s.count, 10);
    assert_eq!(s.pages.len(), 2);
    assert_eq!(s.current_page, 0);
    for page in &s.pages {
        assert_eq!(page.len(), 10);
        assert!(page.iter().all(|c| *c == Rgb::new(0, 0, 0)));
    }
}

#[test]
fn oversized_strip_is_refused() {
    let r = Strip::detached(1025, 2);
    match r {
        Err(Ws2812Error::LedOutOfRange(m)) => {
            assert_eq!(m, "Led count 1025 is out of range");
        }
        _ => panic!("expected a count error"),
    }
}

#[test]
fn fill_sets_one_page_only() {
    let mut s = Strip::detached(4, 2).unwrap();
    let c = Rgb::new(1, 2, 3);
    s.fill(0, &c).unwrap();
    assert!(s.pages[0].iter().all(|x| *x == c));
    assert!(s.pages[1].iter().all(|x| *x == Rgb::new(0, 0, 0)));
}

#[test]
fn fill_out_of_range_page_fails() {
    let mut s = Strip::detached(4, 2).unwrap();
    match s.fill(2, &Rgb::new(1, 1, 1)) {
        Err(Ws2812Error::PageOutOfRange(m)) => assert_eq!(m, "Page 2 is out of range"),
        _ => panic!("expected a page error"),
    }
}

#[test]
fn set_led_one_past_the_end_fails() {
    // index == count is one past the last valid index and must fail
    let mut s = Strip::detached(4, 1).unwrap();
    match s.set_led(0, 4, &Rgb::new(1, 1, 1)) {
        Err(Ws2812Error::LedOutOfRange(m)) => assert_eq!(m, "Led 4 is out of range"),
        _ => panic!("expected an index error"),
    }
    assert!(s.pages[0].iter().all(|x| *x == Rgb::new(0, 0, 0)));
}

#[test]
fn set_led_writes_one_pixel() {
    let mut s = Strip::detached(4, 1).unwrap();
    let c = Rgb::new(7, 8, 9);
    s.set_led(0, 3, &c).unwrap();
    assert_eq!(s.pages[0][3], c);
    assert_eq!(s.pages[0][2], Rgb::new(0, 0, 0));
}

#[test]
fn set_led_bad_page_fails_before_index() {
    let mut s = Strip::detached(4, 1).unwrap();
    assert!(matches!(
        s.set_led(3, 99, &Rgb::new(1, 1, 1)),
        Err(Ws2812Error::PageOutOfRange(_))
    ));
}

#[test]
fn set_page_replaces_contents_when_length_matches() {
    let mut s = Strip::detached(3, 1).unwrap();
    let frame = vec![Rgb::new(1, 0, 0), Rgb::new(0, 1, 0), Rgb::new(0, 0, 1)];
    s.set_page(0, frame.clone()).unwrap();
    assert_eq!(s.pages[0], frame);
}

#[test]
fn set_page_wrong_length_fails() {
    let mut s = Strip::detached(3, 1).unwrap();
    let r = s.set_page(0, vec![Rgb::new(1, 0, 0)]);
    assert!(matches!(r, Err(Ws2812Error::LedOutOfRange(_))));
    assert!(s.pages[0].iter().all(|x| *x == Rgb::new(0, 0, 0)));
}

#[test]
fn clear_blanks_a_page() {
    let mut s = Strip::detached(3, 1).unwrap();
    s.fill(0, &Rgb::new(9, 9, 9)).unwrap();
    s.clear(0).unwrap();
    assert!(s.pages[0].iter().all(|x| *x == Rgb::new(0, 0, 0)));
}

#[test]
fn refresh_without_a_bus_is_a_transport_error() {
    let mut s = Strip::detached(3, 1).unwrap();
    match s.refresh(0) {
        Err(Ws2812Error::SpiError(m)) => assert_eq!(m, "no bus attached"),
        _ => panic!("expected a transport error"),
    }
    assert_eq!(s.current_page, 0);
}

#[test]
fn refresh_out_of_range_page_fails() {
    let mut s = Strip::detached(3, 1).unwrap();
    assert!(matches!(s.refresh(5), Err(Ws2812Error::PageOutOfRange(_))));
}

#[test]
fn text_of_numbers() {
    assert_eq!(lightstrip::text::u64_to_string(0), "0");
    assert_eq!(lightstrip::text::u64_to_string(7), "7");
    assert_eq!(lightstrip::text::u64_to_string(200), "200");
    assert_eq!(lightstrip::text::u64_to_string(12345), "12345");
    assert_eq!(lightstrip::text::u64_to_string(u64::MAX), "18446744073709551615");
}

#[test]
fn hsv_conversions_hit_exact_values() {
    // hue in hundredths of a degree
    assert_eq!(rgb_to_hsv(255, 0, 0), (0, 255, 255));
    assert_eq!(rgb_to_hsv(0, 255, 0), (12000, 255, 255));
    assert_eq!(rgb_to_hsv(0, 0, 255), (24000, 255, 255));
    assert_eq!(rgb_to_hsv(0, 0, 0), (0, 0, 0));
    assert_eq!(rgb_to_hsv(255, 255, 255), (0, 0, 255));
    assert_eq!(hsv_to_rgb(0, 255, 255), (255, 0, 0));
    assert_eq!(hsv_to_rgb(12000, 255, 255), (0, 255, 0));
    assert_eq!(hsv_to_rgb(24000, 255, 255), (0, 0, 255));
    assert_eq!(hsv_to_rgb(0, 0, 255), (255, 255, 255));
    assert_eq!(hsv_to_rgb(30000, 255, 128), (128, 0, 128));
}

#[test]
fn page_encoding_concatenates_pixels_and_is_pure() {
    let mut s = Strip::detached(2, 1).unwrap();
    s.set_led(0, 0, &Rgb::new(1, 2, 3)).unwrap();
    s.set_led(0, 1, &Rgb::new(4, 5, 6)).unwrap();
    let bytes = s.encode_page(0).unwrap();
    let mut expected = Rgb::new(1, 2, 3).to_spi_data();
    expected.extend_from_slice(&Rgb::new(4, 5, 6).to_spi_data());
    assert_eq!(bytes.len(), 144);
    assert_eq!(bytes, expected);
    assert_eq!(s.encode_page(0).unwrap(), bytes);
    assert!(matches!(s.encode_page(1), Err(Ws2812Error::PageOutOfRange(_))));
}

#[test]
fn empty_strip_edge_cases() {
    let mut s = Strip::detached(0, 1).unwrap();
    assert_eq!(s.pages[0].len(), 0);
    assert_eq!(s.encode_page(0).unwrap(), Vec::<u8>::new());
    assert!(matches!(
        s.set_led(0, 0, &Rgb::new(1, 1, 1)),
        Err(Ws2812Error::LedOutOfRange(_))
    ));
    let mut none = Strip::detached(3, 0).unwrap();
    assert!(matches!(none.fill(0, &Rgb::new(1, 1, 1)), Err(Ws2812Error::PageOutOfRange(_))));
}

#[test]
fn largest_allowed_strip() {
    let s = Strip::detached(1024, 1).unwrap();
    assert_eq!(s.count, 1024);
    assert_eq!(s.encode_page(0).unwrap().len(), 1024 * 72);
}

fn assert_round_trip_close(r: u8, g: u8, b: u8) {
    let (h, s, v) = rgb_to_hsv(r, g, b);
    let (r2, g2, b2) = hsv_to_rgb(h, s, v);
    assert!(
        (r2 as i32 - r as i32).abs() <= 1
            && (g2 as i32 - g as i32).abs() <= 1
            && (b2 as i32 - b as i32).abs() <= 1,
        "({}, {}, {}) came back as ({}, {}, {})",
        r, g, b, r2, g2, b2
    );
}

#[test]
fn colour_round_trip_stays_within_one_step() {
    for (r, g, b) in [
        (255u8, 0u8, 2u8),
        (128, 127, 0),
        (200, 120, 0),
        (13, 200, 77),
        (1, 2, 3),
        (254, 255, 253),
    ] {
        assert_round_trip_close(r, g, b);
    }
}

#[test]
fn colour_round_trip_swept_over_the_channel_grid() {
    // every combination of channel values stepping by five, plus 255
    let mut grid: Vec<u8> = (0u8..=250).step_by(5).collect();
    grid.push(255);
    for &r in &grid {
        for &g in &grid {
            for &b in &grid {
                assert_round_trip_close(r, g, b);
            }
        }
    }
}
