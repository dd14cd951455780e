use lightstrip::{ColorField, CommandFields, StripMode};

fn fields() -> CommandFields {
    CommandFields {
        state: Some("ON".to_string()),
        brightness: None,
        color: ColorField::Absent,
        effect: None,
        color_temp: None,
    }
}

#[test]
fn missing_state_is_an_error() {
    let mut f = fields();
    f.state = None;
    assert_eq!(StripMode::resolve(f), Err("No state found".to_string()));
}

#[test]
fn off_wins_over_everything_else() {
    let f = CommandFields {
        state: Some("off".to_string()),
        brightness: Some(10),
        color: ColorField::Channels(1, 2, 3),
        effect: Some("Rainbow".to_string()),
        color_temp: Some(200),
    };
    assert_eq!(StripMode::resolve(f), Ok(StripMode::Off));
}

#[test]
fn unknown_state_is_an_error() {
    let mut f = fields();
    f.state = Some("DIMMED".to_string());
    assert_eq!(StripMode::resolve(f), Err("Unknown state".to_string()));
}

#[test]
fn state_matching_ignores_case() {
    let mut f = fields();
    f.state = Some("oN".to_string());
    assert_eq!(StripMode::resolve(f), Ok(StripMode::On));
    f = fields();
    f.state = Some("OfF".to_string());
    assert_eq!(StripMode::resolve(f), Ok(StripMode::Off));
}

#[test]
fn colour_beats_effect_and_brightness() {
    let mut f = fields();
    f.color = ColorField::Channels(255, 160, 0);
    f.effect = Some("Rainbow".to_string());
    f.brightness = Some(5);
    assert_eq!(StripMode::resolve(f), Ok(StripMode::Colour(255, 160, 0)));
}

#[test]
fn malformed_colour_is_an_error() {
    let mut f = fields();
    f.color = ColorField::Malformed;
    assert_eq!(StripMode::resolve(f), Err("Invalid color".to_string()));
}

#[test]
fn effect_beats_brightness() {
    let mut f = fields();
    f.effect = Some("Fire".to_string());
    f.brightness = Some(5);
    assert_eq!(StripMode::resolve(f), Ok(StripMode::Effect("Fire".to_string())));
}

#[test]
fn bare_brightness_is_a_modifier() {
    let mut f = fields();
    f.brightness = Some(200);
    assert_eq!(StripMode::resolve(f), Ok(StripMode::Brightness(200)));
}

#[test]
fn colour_temperature_uses_the_blackbody_table() {
    let mut f = fields();
    f.color_temp = Some(200); // 5000 K
    let t = colortemp::temp_to_rgb(5000);
    assert_eq!(
        StripMode::resolve(f),
        Ok(StripMode::Colour(t.r as u8, t.g as u8, t.b as u8))
    );
}

#[test]
fn zero_mireds_is_an_error() {
    let mut f = fields();
    f.color_temp = Some(0);
    assert_eq!(
        StripMode::resolve(f),
        Err("Invalid color temperature".to_string())
    );
}

#[test]
fn bare_on_turns_back_on() {
    assert_eq!(StripMode::resolve(fields()), Ok(StripMode::On));
}

#[test]
fn from_command_parses_json_payloads() {
    let r = StripMode::from_command("{\"state\": \"ON\", \"color\": {\"r\": 255, \"g\": 0, \"b\": 16}}");
    assert_eq!(r, Ok(StripMode::Colour(255, 0, 16)));

    let r = StripMode::from_command("{\"state\": \"OFF\", \"brightness\": 50}");
    assert_eq!(r, Ok(StripMode::Off));

    let r = StripMode::from_command("{\"state\": \"ON\", \"effect\": \"Rainbow\"}");
    assert_eq!(r, Ok(StripMode::Effect("Rainbow".to_string())));

    let r = StripMode::from_command("{\"state\": \"ON\", \"brightness\": 128}");
    assert_eq!(r, Ok(StripMode::Brightness(128)));

    let r = StripMode::from_command("{\"state\": \"ON\"}");
    assert_eq!(r, Ok(StripMode::On));
}

#[test]
fn from_command_rejects_bad_payloads() {
    assert_eq!(
        StripMode::from_command("not json at all"),
        Err("Malformed payload".to_string())
    );
    assert_eq!(
        StripMode::from_command("{\"brightness\": 50}"),
        Err("No state found".to_string())
    );
    assert_eq!(
        StripMode::from_command("{\"state\": \"BLUE\"}"),
        Err("Unknown state".to_string())
    );
    // a colour object without numeric channels
    assert_eq!(
        StripMode::from_command("{\"state\": \"ON\", \"color\": {\"r\": \"red\"}}"),
        Err("Invalid color".to_string())
    );
}

#[test]
fn from_command_colour_temperature() {
    let t = colortemp::temp_to_rgb(5000);
    assert_eq!(
        StripMode::from_command("{\"state\": \"ON\", \"color_temp\": 200}"),
        Ok(StripMode::Colour(t.r as u8, t.g as u8, t.b as u8))
    );
}

#[test]
fn from_command_non_object_colour_counts_as_absent() {
    assert_eq!(
        StripMode::from_command("{\"state\": \"ON\", \"color\": 7, \"effect\": \"Fire\"}"),
        Ok(StripMode::Effect("Fire".to_string()))
    );
}

#[test]
fn channel_values_are_truncated_to_bytes() {
    let mut f = fields();
    f.color = ColorField::Channels(300, 0, 0);
    assert_eq!(StripMode::resolve(f), Ok(StripMode::Colour(44, 0, 0)));
    let mut f = fields();
    f.brightness = Some(300);
    assert_eq!(StripMode::resolve(f), Ok(StripMode::Brightness(44)));
}
