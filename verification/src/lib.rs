pub mod rgb;
pub mod effects;
pub mod homeassistant;
pub mod laws;
pub mod mode;
pub mod my_strip;
pub mod hsv;
pub mod temperature;
pub mod strip;
pub mod ws2812_error;
pub mod text;

pub use effects::EffectRegistry;
pub use homeassistant::{Availability, Config, Device, LightStripMqtt, MqttConfig};
pub use mode::{ColorField, CommandFields, StripMode};
pub use my_strip::{MyStrip, RunMode};
pub use rgb::Rgb;
pub use strip::Strip;
pub use ws2812_error::Ws2812Error;
