use lightstrip::{Availability, Config, LightStripMqtt, MqttConfig, StripMode};

#[test]
fn availability_topics_and_payloads() {
    let a = Availability::new("base/topic");
    assert_eq!(a.topic, "base/topic/availability");
    assert_eq!(a.set_online(), (
        "base/topic/availability".to_string(),
        "{\"state\": \"online\"}".to_string(),
    ));
    assert_eq!(a._set_offline(), (
        "base/topic/availability".to_string(),
        "{\"state\": \"offline\"}".to_string(),
    ));
}

#[test]
fn default_entity_metadata() {
    let d = LightStripMqtt::default();
    assert_eq!(d.name, "Light");
    assert_eq!(d.unique_id, "light-strip-1234");
    assert_eq!(d.state_topic, "bitbrain/lightstrip/light-strip-1234/state");
    assert_eq!(d.command_topic, "bitbrain/lightstrip/light-strip-1234/set");
    assert_eq!(
        d.availability.topic,
        "bitbrain/lightstrip/light-strip-1234/availability"
    );
    assert_eq!(d.ha_discovery_topic(), "homeassistant/light/light-strip-1234/config");
    assert_eq!(d._base_topic(), "bitbrain/lightstrip/light-strip-1234");
    assert_eq!(d.device.manufacturer, "bitbrain");
    assert_eq!(d.device.sw_version, "3.2.0");
    assert!(d.brightness && d.rgb && d.color_temp && d.effect);
    assert!(!d.optimistic);
    assert!(d.retain);
    assert_eq!(d.schema, "json");
    assert_eq!(d.icon, "mdi:lightbulb");
    assert_eq!(d.effect_list, vec!["test".to_string(), "test2".to_string()]);
}

#[test]
fn entity_state_reports() {
    let d = LightStripMqtt::default();
    let topic = d.state_topic.clone();
    assert_eq!(d.set_online().1, "{\"state\": \"online\"}");
    assert_eq!(d._set_off(), (topic.clone(), "{\"state\": \"OFF\"}".to_string()));
    assert_eq!(
        d._set_color(1, 22, 77),
        (
            topic.clone(),
            "{\"state\": \"ON\", \"color\": {\"r\": 1, \"g\": 22, \"b\": 77}}".to_string()
        )
    );
    assert_eq!(
        d._set_brightness(200),
        (topic.clone(), "{\"state\": \"ON\", \"brightness\": 200}".to_string())
    );
    assert_eq!(
        d._set_effect("Rainbow"),
        (topic.clone(), "{\"state\": \"ON\", \"effect\": \"Rainbow\"}".to_string())
    );
    assert_eq!(
        d._set_color_temp(370),
        (topic.clone(), "{\"state\": \"ON\", \"color_temp\": 370}".to_string())
    );
}

#[test]
fn config_base_topic() {
    let c = Config {
        id: "device-1".to_string(),
        friendly_name: "Bench light".to_string(),
        mqtt_config: MqttConfig::default(),
    };
    assert_eq!(c.base_topic(), "bitbrain/light_strip/device-1");
}

#[test]
fn default_mqtt_config() {
    let m = MqttConfig::default();
    assert_eq!(m.broker, "localhost");
    assert_eq!(m.port, 1883);
    assert_eq!(m.username, "username");
    assert_eq!(m.password, "password");
    assert_eq!(m.topic, "bitbrain/light_strip");
}

#[test]
fn mode_state_messages() {
    let d = LightStripMqtt::default();
    let topic = d.state_topic.clone();
    assert_eq!(
        StripMode::Off.to_state_message(&d),
        (topic.clone(), "{\"state\": \"OFF\"}".to_string())
    );
    // a bare turn-on reports the strip on
    assert_eq!(
        StripMode::On.to_state_message(&d),
        (topic.clone(), "{\"state\": \"ON\"}".to_string())
    );
    // the implied brightness of a colour is its largest channel
    assert_eq!(
        StripMode::Colour(10, 20, 30).to_state_message(&d),
        (
            topic.clone(),
            "{\"state\": \"ON\", \"brightness\": 30,  \"color\": {\"r\": 10, \"g\": 20, \"b\": 30}}"
                .to_string()
        )
    );
    assert_eq!(
        StripMode::Effect("Fire".to_string()).to_state_message(&d),
        (
            topic.clone(),
            "{\"state\": \"ON\", \"brightness\": 255, \"effect\": \"Fire\"}".to_string()
        )
    );
    assert_eq!(
        StripMode::Brightness(128).to_state_message(&d),
        (topic.clone(), "{\"state\": \"ON\", \"brightness\": 128}".to_string())
    );
}

#[test]
fn mode_descriptions() {
    assert_eq!(StripMode::On.describe(), "ON");
    assert_eq!(StripMode::Off.describe(), "OFF");
    assert_eq!(
        StripMode::Colour(1, 2, 3).describe(),
        "ON: Colour: r: 1, g: 2, b: 3"
    );
    assert_eq!(StripMode::Effect("Fire".to_string()).describe(), "ON: Effect: Fire");
    assert_eq!(StripMode::Brightness(9).describe(), "ON: Brightness: 9");
}
