use lightstrip::{MyStrip, Rgb, RunMode, Strip, StripMode, Ws2812Error};

fn fresh(count: usize, pages: usize) -> MyStrip {
    let strip = Strip::detached(count, pages).unwrap();
    MyStrip::new(count, strip)
}

#[test]
fn starts_off_at_full_brightness() {
    let s = fresh(8, 2);
    assert_eq!(s.mode, RunMode::Off);
    assert_eq!(s.brightness, 255);
    assert_eq!(s.previous_brightness, 255);
}

#[test]
fn mode_restore_after_off_and_on() {
    // Static colour at hue 120 degrees, full saturation, dimmed to 200,
    // survives an off/on cycle exactly.
    let mut s = fresh(8, 2);
    s.set_hs(12000, 255);
    s.set_brightness(200);
    s.turn_off();
    assert_eq!(s.mode, RunMode::Off);
    s.turn_on();
    assert_eq!(s.mode, RunMode::Static(12000, 255));
    assert_eq!(s.brightness, 200);
}

#[test]
fn mode_restore_through_apply() {
    let mut s = fresh(8, 2);
    s.set_hs(12000, 255);
    s.set_brightness(200);
    let off = s.apply(&StripMode::Off);
    assert_eq!(off, RunMode::Off);
    let on = s.apply(&StripMode::On);
    assert_eq!(on, RunMode::Static(12000, 255));
    assert_eq!(s.brightness, 200);
}

#[test]
fn off_relative_dimming() {
    // While off with a remembered static colour at full value, a level of
    // 128 dims to 255 * 128 / 255 = 128 and leaves the record untouched.
    let mut s = fresh(8, 2);
    s.set_hs(0, 255);
    assert_eq!(s.previous_brightness, 255);
    s.turn_off();
    s.set_brightness(128);
    assert_eq!(s.mode, RunMode::Static(0, 255));
    assert_eq!(s.brightness, 128);
    assert_eq!(s.previous_brightness, 255);
    s.turn_on();
    assert_eq!(s.brightness, 255);
}

#[test]
fn off_dimming_without_remembered_colour_is_noop() {
    let mut s = fresh(8, 2);
    s.set_effect("Rainbow");
    s.turn_off();
    s.set_brightness(99);
    assert_eq!(s.mode, RunMode::Off);
    assert_eq!(s.brightness, 255);
}

#[test]
fn effect_brightness_is_noop() {
    let mut s = fresh(8, 2);
    s.set_effect("Rainbow");
    let resolved = s.apply(&StripMode::Brightness(50));
    assert_eq!(resolved, RunMode::Dynamic("Rainbow".to_string()));
    assert_eq!(s.mode, RunMode::Dynamic("Rainbow".to_string()));
    assert_eq!(s.brightness, 255);
}

#[test]
fn brightness_on_static_is_absolute_and_recorded() {
    let mut s = fresh(8, 2);
    s.set_hs(10, 20);
    s.set_brightness(40);
    assert_eq!(s.brightness, 40);
    assert_eq!(s.previous_brightness, 40);
    assert_eq!(s.previous_mode, RunMode::Static(10, 20));
}

#[test]
fn off_never_overwrites_history() {
    let mut s = fresh(8, 2);
    s.set_effect("Fire");
    s.set_brightness(40);  // no-op while an animation plays
    s.turn_off();
    s.turn_off();
    assert_eq!(s.previous_mode, RunMode::Dynamic("Fire".to_string()));
    assert_eq!(s.previous_brightness, 255);
}

#[test]
fn set_rgb_discards_value_channel() {
    let mut s = fresh(8, 2);
    s.set_brightness(77); // off + no remembered static colour: brightness stays 255
    s.set_rgb(0, 128, 0); // half green: hue 120 degrees, full saturation, value 128
    assert_eq!(s.mode, RunMode::Static(12000, 255));
    assert_eq!(s.brightness, 255);
    assert_eq!(s.get_hsv(), Some((12000, 255, 255)));
}

#[test]
fn get_rgb_round_trips_primaries() {
    let mut s = fresh(8, 2);
    s.set_rgb(255, 0, 0);
    assert_eq!(s.get_rgb(), Some((255, 0, 0)));
    s.set_rgb(0, 255, 0);
    assert_eq!(s.get_rgb(), Some((0, 255, 0)));
    s.set_rgb(0, 0, 255);
    assert_eq!(s.get_rgb(), Some((0, 0, 255)));
    s.turn_off();
    assert_eq!(s.get_rgb(), None);
    assert_eq!(s.get_hsv(), None);
}

#[test]
fn set_temperature_matches_blackbody_table() {
    let mut s = fresh(8, 2);
    // 200 mireds is 5000 K
    s.set_temperature(200);
    let t = colortemp::temp_to_rgb(5000);
    let expected = lightstrip::hsv::rgb_to_hsv(t.r as u8, t.g as u8, t.b as u8);
    assert_eq!(s.mode, RunMode::Static(expected.0, expected.1));
    // below 6600 K the red channel saturates
    assert_eq!(t.r as u8, 255);
}

#[test]
fn update_unknown_effect_keeps_previous_contents() {
    let mut s = fresh(8, 1);
    let amber = Rgb::new(200, 120, 0);
    s.strip.fill(0, &amber).unwrap();
    s.set_effect("not-registered");
    let r = s.update();
    // detached strip: the bus write fails, but nothing panicked and the
    // buffer still holds what it held
    assert!(matches!(r, Err(Ws2812Error::SpiError(_))));
    for led in &s.strip.pages[0] {
        assert_eq!(*led, amber);
    }
}

#[test]
fn update_known_effect_replaces_page() {
    let mut s = fresh(8, 1);
    let amber = Rgb::new(200, 120, 0);
    s.strip.fill(0, &amber).unwrap();
    s.set_effect("Rainbow");
    let _ = s.update();
    assert_eq!(s.strip.pages[0].len(), 8);
    assert!(s.strip.pages[0].iter().any(|c| *c != amber));
}

#[test]
fn update_off_blanks_page() {
    let mut s = fresh(8, 1);
    s.strip.fill(0, &Rgb::new(9, 9, 9)).unwrap();
    s.turn_off();
    let _ = s.update();
    for led in &s.strip.pages[0] {
        assert_eq!(*led, Rgb::new(0, 0, 0));
    }
}

#[test]
fn update_static_fills_page_with_rendered_colour() {
    let mut s = fresh(8, 1);
    s.set_rgb(255, 0, 0);
    s.set_brightness(128);
    let _ = s.update();
    for led in &s.strip.pages[0] {
        assert_eq!(*led, Rgb::new(128, 0, 0));
    }
}

#[test]
fn list_effects_holds_the_stock_animations() {
    let s = fresh(8, 1);
    let names = s.list_effects();
    assert!(names.iter().any(|n| n == "Rainbow"));
    assert!(names.iter().any(|n| n == "Fire"));
    assert!(!names.iter().any(|n| n == "not-registered"));
}

#[test]
fn effect_pixels_only_for_registered_animation() {
    let mut s = fresh(8, 1);
    s.set_effect("Rainbow");
    let frame = s.get_effect_pixels();
    assert_eq!(frame.map(|f| f.len()), Some(8));
    s.set_effect("not-registered");
    assert!(s.get_effect_pixels().is_none());
    s.turn_off();
    assert!(s.get_effect_pixels().is_none());
}

#[test]
fn state_message_formats() {
    let mut s = fresh(8, 1);
    assert_eq!(s.state_message(), "{\"state\": \"OFF\"}");
    s.set_rgb(255, 0, 0);
    assert_eq!(
        s.state_message(),
        "{\"state\": \"ON\", \"brightness\": 255, \"color\": {\"r\": 255, \"g\": 0, \"b\": 0}}"
    );
    s.set_effect("Rainbow");
    s.set_brightness(255);
    assert_eq!(
        s.state_message(),
        "{\"state\": \"ON\", \"brightness\": 255, \"effect\": \"Rainbow\"}"
    );
}

#[test]
fn every_stock_animation_is_registered() {
    let s = fresh(8, 1);
    let names = s.list_effects();
    let expected = [
        "Breathe", "Bounce", "Collision", "Cycle", "Cylon", "Fire", "Meteor", "Morse",
        "ProgressBar", "Rainbow", "RunningLights", "Strobe", "Twinkle", "SnowSparkle", "Wipe",
    ];
    assert_eq!(names.len(), expected.len());
    for name in expected {
        assert!(names.iter().any(|n| n == name), "missing animation: {}", name);
    }
}
