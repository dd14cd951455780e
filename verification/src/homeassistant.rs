use vstd::prelude::*;

verus! {

use vstd::string::StringExecFns;
use crate::text::{spec_dec, u64_to_string};

/// Availability advertisement: the topic polled for liveness and the
/// payloads that mean online and offline.
#[derive(Debug, Clone, PartialEq)]
pub struct Availability {
    pub payload_available: String,
    pub payload_not_available: String,
    pub topic: String,
    pub value_template: String,
}

/// The payload that announces one availability state.
pub open spec fn spec_availability_payload(state: Seq<char>) -> Seq<char> {
    "{\"state\": \""@ + state + "\"}"@
}

impl Availability {
    pub fn new(base_topic: &str) -> (a: Availability)
        ensures
            a.payload_available@ == "online"@,
            a.payload_not_available@ == "offline"@,
            a.topic@ == base_topic@ + "/availability"@,
            a.value_template@ == "{{ value_json.state }}"@,
    {
        let mut topic = String::from_str(base_topic);
        topic.append("/availability");
        Availability {
            payload_available: String::from_str("online"),
            payload_not_available: String::from_str("offline"),
            topic,
            value_template: String::from_str("{{ value_json.state }}"),
        }
    }

    /// The topic and payload that report the device reachable.
    pub fn set_online(&self) -> (r: (String, String))
        ensures
            r.0@ == self.topic@,
            r.1@ == spec_availability_payload(self.payload_available@),
    {
        let mut payload = String::from_str("{\"state\": \"");
        payload.append(self.payload_available.as_str());
        payload.append("\"}");
        proof {
            assert(payload@ =~= spec_availability_payload(self.payload_available@));
        }
        let topic = self.topic.clone();
        (topic, payload)
    }

    /// The topic and payload that report the device unreachable.
    pub fn _set_offline(&self) -> (r: (String, String))
        ensures
            r.0@ == self.topic@,
            r.1@ == spec_availability_payload(self.payload_not_available@),
    {
        let mut payload = String::from_str("{\"state\": \"");
        payload.append(self.payload_not_available.as_str());
        payload.append("\"}");
        proof {
            assert(payload@ =~= spec_availability_payload(self.payload_not_available@));
        }
        let topic = self.topic.clone();
        (topic, payload)
    }
}

/// Identity of the device as advertised to the automation hub.
#[derive(Debug, Clone, PartialEq)]
pub struct Device {
    pub identifiers: Vec<String>,
    pub manufacturer: String,
    pub model: String,
    pub name: String,
    pub sw_version: String,
    pub hw_version: String,
}

/// Discovery and topic metadata for one light strip entity.
#[derive(Debug, Clone, PartialEq)]
pub struct LightStripMqtt {
    pub name: String,
    pub unique_id: String,
    pub device: Device,
    pub availability: Availability,
    pub state_topic: String,
    pub command_topic: String,
    pub brightness: bool,
    pub rgb: bool,
    pub color_temp: bool,
    pub effect: bool,
    pub effect_list: Vec<String>,
    pub schema: String,
    pub optimistic: bool,
    pub icon: String,
    pub retain: bool,
}

pub open spec fn spec_static_base_topic() -> Seq<char> {
    "bitbrain/lightstrip/light-strip-1234"@
}

impl LightStripMqtt {
    /// The topic prefix of this entity.
    pub fn _base_topic(&self) -> (r: String)
        ensures
            r@ == "bitbrain/lightstrip/"@ + self.unique_id@,
    {
        let mut out = String::from_str("bitbrain/lightstrip/");
        out.append(self.unique_id.as_str());
        out
    }

    /// The topic prefix of the default entity.
    pub fn static_base_topic() -> (r: String)
        ensures
            r@ == spec_static_base_topic(),
    {
        proof {
            reveal_strlit("bitbrain/lightstrip/light-strip-1234");
        }
        String::from_str("bitbrain/lightstrip/light-strip-1234")
    }

    /// The topic the automation hub watches for discovery records.
    pub fn ha_discovery_topic(&self) -> (r: String)
        ensures
            r@ == "homeassistant/light/"@ + self.unique_id@ + "/config"@,
    {
        let mut out = String::from_str("homeassistant/light/");
        out.append(self.unique_id.as_str());
        out.append("/config");
        out
    }

    /// The topic and payload that report the device reachable.
    pub fn set_online(&self) -> (r: (String, String))
        ensures
            r.0@ == self.availability.topic@,
            r.1@ == spec_availability_payload(self.availability.payload_available@),
    {
        self.availability.set_online()
    }

    /// The topic and payload that report the device unreachable.
    pub fn _set_offline(&self) -> (r: (String, String))
        ensures
            r.0@ == self.availability.topic@,
            r.1@ == spec_availability_payload(self.availability.payload_not_available@),
    {
        self.availability._set_offline()
    }

    /// A state report carrying an RGB colour.
    pub fn _set_color(&self, r: u8, g: u8, b: u8) -> (out: (String, String))
        ensures
            out.0@ == self.state_topic@,
            out.1@ == "{\"state\": \"ON\", \"color\": {\"r\": "@ + spec_dec(r as nat) + ", \"g\": "@
                + spec_dec(g as nat) + ", \"b\": "@ + spec_dec(b as nat) + "}}"@,
    {
        let mut payload = String::from_str("{\"state\": \"ON\", \"color\": {\"r\": ");
        let rs = u64_to_string(r as u64);
        let gs = u64_to_string(g as u64);
        let bs = u64_to_string(b as u64);
        payload.append(rs.as_str());
        payload.append(", \"g\": ");
        payload.append(gs.as_str());
        payload.append(", \"b\": ");
        payload.append(bs.as_str());
        payload.append("}}");
        proof {
            assert(payload@ =~= "{\"state\": \"ON\", \"color\": {\"r\": "@ + spec_dec(r as nat)
                + ", \"g\": "@ + spec_dec(g as nat) + ", \"b\": "@ + spec_dec(b as nat) + "}}"@);
        }
        let topic = self.state_topic.clone();
        (topic, payload)
    }

    /// A state report carrying a brightness level.
    pub fn _set_brightness(&self, brightness: u8) -> (out: (String, String))
        ensures
            out.0@ == self.state_topic@,
            out.1@ == "{\"state\": \"ON\", \"brightness\": "@ + spec_dec(brightness as nat) + "}"@,
    {
        let mut payload = String::from_str("{\"state\": \"ON\", \"brightness\": ");
        let bs = u64_to_string(brightness as u64);
        payload.append(bs.as_str());
        payload.append("}");
        proof {
            assert(payload@ =~= "{\"state\": \"ON\", \"brightness\": "@ + spec_dec(
                brightness as nat,
            ) + "}"@);
        }
        let topic = self.state_topic.clone();
        (topic, payload)
    }

    /// A state report carrying an animation name.
    pub fn _set_effect(&self, effect: &str) -> (out: (String, String))
        ensures
            out.0@ == self.state_topic@,
            out.1@ == "{\"state\": \"ON\", \"effect\": \""@ + effect@ + "\"}"@,
    {
        let mut payload = String::from_str("{\"state\": \"ON\", \"effect\": \"");
        payload.append(effect);
        payload.append("\"}");
        proof {
            assert(payload@ =~= "{\"state\": \"ON\", \"effect\": \""@ + effect@ + "\"}"@);
        }
        let topic = self.state_topic.clone();
        (topic, payload)
    }

    /// A state report that the strip is off.
    pub fn _set_off(&self) -> (out: (String, String))
        ensures
            out.0@ == self.state_topic@,
            out.1@ == "{\"state\": \"OFF\"}"@,
    {
        let payload = String::from_str("{\"state\": \"OFF\"}");
        let topic = self.state_topic.clone();
        (topic, payload)
    }

    /// A state report carrying a colour temperature in mireds.
    pub fn _set_color_temp(&self, color_temp: u16) -> (out: (String, String))
        ensures
            out.0@ == self.state_topic@,
            out.1@ == "{\"state\": \"ON\", \"color_temp\": "@ + spec_dec(color_temp as nat) + "}"@,
    {
        let mut payload = String::from_str("{\"state\": \"ON\", \"color_temp\": ");
        let cs = u64_to_string(color_temp as u64);
        payload.append(cs.as_str());
        payload.append("}");
        proof {
            assert(payload@ =~= "{\"state\": \"ON\", \"color_temp\": "@ + spec_dec(
                color_temp as nat,
            ) + "}"@);
        }
        let topic = self.state_topic.clone();
        (topic, payload)
    }
}

impl Default for LightStripMqtt {
    /// The stock entity: fixed identity, topics under the static base
    /// topic, every capability advertised.
    fn default() -> (d: Self)
        ensures
            d.name@ == "Light"@,
            d.unique_id@ == "light-strip-1234"@,
            d.device.identifiers@.len() == 1 && d.device.identifiers@[0]@ == "light-strip-1234"@,
            d.device.manufacturer@ == "bitbrain"@,
            d.device.model@ == "lightstrip"@,
            d.device.name@ == "Light"@,
            d.device.sw_version@ == "3.2.0"@,
            d.device.hw_version@ == "1.0.0"@,
            d.availability.topic@ == spec_static_base_topic() + "/availability"@,
            d.availability.payload_available@ == "online"@,
            d.availability.payload_not_available@ == "offline"@,
            d.state_topic@ == spec_static_base_topic() + "/state"@,
            d.command_topic@ == spec_static_base_topic() + "/set"@,
            d.brightness && d.rgb && d.color_temp && d.effect,
            d.effect_list@.len() == 2 && d.effect_list@[0]@ == "test"@ && d.effect_list@[1]@
                == "test2"@,
            d.schema@ == "json"@,
            !d.optimistic,
            d.icon@ == "mdi:lightbulb"@,
            d.retain,
    {
        let base_topic = Self::static_base_topic();
        let mut state_topic = base_topic.clone();
        state_topic.append("/state");
        let mut command_topic = base_topic.clone();
        command_topic.append("/set");
        let mut identifiers: Vec<String> = Vec::new();
        identifiers.push(String::from_str("light-strip-1234"));
        let mut effect_list: Vec<String> = Vec::new();
        effect_list.push(String::from_str("test"));
        effect_list.push(String::from_str("test2"));
        LightStripMqtt {
            name: String::from_str("Light"),
            unique_id: String::from_str("light-strip-1234"),
            device: Device {
                identifiers,
                manufacturer: String::from_str("bitbrain"),
                model: String::from_str("lightstrip"),
                name: String::from_str("Light"),
                sw_version: String::from_str("3.2.0"),
                hw_version: String::from_str("1.0.0"),
            },
            availability: Availability::new(base_topic.as_str()),
            state_topic,
            command_topic,
            brightness: true,
            rgb: true,
            color_temp: true,
            effect: true,
            effect_list,
            schema: String::from_str("json"),
            optimistic: false,
            icon: String::from_str("mdi:lightbulb"),
            retain: true,
        }
    }
}

/// Connection settings for the message broker.
#[derive(Debug, Clone, PartialEq)]
pub struct MqttConfig {
    pub broker: String,
    pub port: u16,
    pub username: String,
    pub password: String,
    pub topic: String,
}

impl Default for MqttConfig {
    fn default() -> (c: Self)
        ensures
            c.broker@ == "localhost"@,
            c.port == 1883,
            c.username@ == "username"@,
            c.password@ == "password"@,
            c.topic@ == "bitbrain/light_strip"@,
    {
        MqttConfig {
            broker: String::from_str("localhost"),
            port: 1883,
            username: String::from_str("username"),
            password: String::from_str("password"),
            topic: String::from_str("bitbrain/light_strip"),
        }
    }
}

/// Process configuration: the device's identity and its broker settings.
#[derive(Debug, Clone, PartialEq)]
pub struct Config {
    pub id: String,
    pub friendly_name: String,
    pub mqtt_config: MqttConfig,
}

impl Config {
    /// The topic prefix this device publishes under.
    pub fn base_topic(&self) -> (r: String)
        ensures
            r@ == self.mqtt_config.topic@ + "/"@ + self.id@,
    {
        let mut out = self.mqtt_config.topic.clone();
        out.append("/");
        out.append(self.id.as_str());
        out
    }
}

} // verus!
