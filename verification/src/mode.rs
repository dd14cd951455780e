use vstd::prelude::*;

verus! {

use vstd::string::{StringExecFns, StrSliceExecFns};
use crate::hsv::{rgb_to_hsv, spec_val};
use crate::temperature::{kelvin_to_rgb, spec_blackbody_rgb};
use crate::text::{spec_dec, u64_to_string};
use crate::homeassistant::LightStripMqtt;

#[verifier::external_type_specification]
#[verifier::external_body]
pub struct ExJsonValue(serde_json::Value);

/// The members a given command text parses to: nothing for malformed
/// text, otherwise each optional member as a plain value. serde_json's
/// parse and accessors depend on the text alone, so this is a function.
pub uninterp spec fn spec_command_fields(s: Seq<char>) -> Option<CommandFields>;

/// Relies on serde_json's from_str, Value::get, Value::as_str and
/// Value::as_u64: parses the text as one JSON document and pulls each
/// optional member out as a plain value; malformed text yields nothing.
/// Every function called is total and reads the text alone.
#[verifier::external_body]
fn parse_fields(s: &str) -> (r: Option<CommandFields>)
    ensures
        r == spec_command_fields(s@),
{
    let v: serde_json::Value = serde_json::from_str(s).ok()?;
    Some(CommandFields {
        state: v.get("state").and_then(|x| x.as_str()).map(|x| x.to_string()),
        brightness: v.get("brightness").and_then(|x| x.as_u64()),
        color: color_member(&v),
        effect: v.get("effect").and_then(|x| x.as_str()).map(|x| x.to_string()),
        color_temp: v.get("color_temp").and_then(|x| x.as_u64()),
    })
}

/// Relies on serde_json's Value::get, Value::is_object and Value::as_u64:
/// the colour member of a command object, absent when missing or not
/// itself an object (the hub sends it so), malformed when an object
/// without three numeric channels.
#[verifier::external_body]
fn color_member(v: &serde_json::Value) -> ColorField {
    match v.get("color") {
        Some(c) if c.is_object() => {
            let cr = c.get("r").and_then(|x| x.as_u64());
            let cg = c.get("g").and_then(|x| x.as_u64());
            let cb = c.get("b").and_then(|x| x.as_u64());
            match (cr, cg, cb) {
                (Some(r), Some(g), Some(b)) => ColorField::Channels(r, g, b),
                _ => ColorField::Malformed,
            }
        }
        _ => ColorField::Absent,
    }
}

/// ASCII upper-casing of one character.
pub open spec fn spec_upper(c: char) -> char {
    if 'a' <= c && c <= 'z' {
        ((c as u8) - 32) as char
    } else {
        c
    }
}

/// Whether `s`, upper-cased, reads as the (already upper-case) word `w`.
pub open spec fn spec_is_word(s: Seq<char>, w: Seq<char>) -> bool {
    s.map_values(|c: char| spec_upper(c)) == w
}

/// Compare `s`, upper-cased character by character, against `t`.
fn upper_eq(s: &str, t: &str) -> (r: bool)
    ensures
        r == spec_is_word(s@, t@),
{
    let n = s.unicode_len();
    let m = t.unicode_len();
    if n != m {
        proof {
            assert(s@.map_values(|c: char| spec_upper(c)).len() == s@.len());
        }
        return false;
    }
    let mut i: usize = 0;
    while i < n
        invariant
            n == s@.len(),
            n == t@.len(),
            i <= n,
            forall|j: int| 0 <= j < i ==> spec_upper(s@[j]) == t@[j],
        decreases n - i,
    {
        let cs = s.get_char(i);
        let ct = t.get_char(i);
        let cu: char = if 'a' <= cs && cs <= 'z' {
            ((cs as u8) - 32) as char
        } else {
            cs
        };
        if cu != ct {
            proof {
                assert(s@.map_values(|c: char| spec_upper(c))[i as int] != t@[i as int]);
            }
            return false;
        }
        i = i + 1;
    }
    proof {
        assert(s@.map_values(|c: char| spec_upper(c)) =~= t@);
    }
    true
}

/// The optional colour member of a command: absent, present as an object
/// but without three numeric channels, or present with its channels.
#[derive(Debug, Clone, Copy, PartialEq)]
pub enum ColorField {
    Absent,
    Malformed,
    Channels(u64, u64, u64),
}

/// The optional members of one inbound command, as plain values.
#[derive(Debug, Clone, PartialEq)]
pub struct CommandFields {
    pub state: Option<String>,
    pub brightness: Option<u64>,
    pub color: ColorField,
    pub effect: Option<String>,
    pub color_temp: Option<u64>,
}

/// One inbound command, after resolution: a full mode, a pure brightness
/// modifier, or an on/off toggle.
#[derive(Debug, Clone, PartialEq)]
pub enum StripMode {
    On,
    Colour(u8, u8, u8),
    Effect(String),
    Brightness(u8),
    Off,
}

/// The ordered resolution table for one command, first match wins:
/// a missing state is an error; state OFF wins over every other member;
/// any state other than ON or OFF is an error; then colour, effect,
/// brightness and colour temperature in that order; a bare ON turns the
/// strip back on.
pub open spec fn is_resolution(f: CommandFields, r: Result<StripMode, String>) -> bool {
    &&& (f.state is None ==> (r matches Err(e) && e@ == "No state found"@))
    &&& (f.state matches Some(st) && spec_is_word(st@, "OFF"@) ==> (r matches Ok(m) && m is Off))
    &&& (f.state matches Some(st) && !spec_is_word(st@, "OFF"@) && !spec_is_word(st@, "ON"@)
        ==> (r matches Err(e) && e@ == "Unknown state"@))
    &&& (f.state matches Some(st) && spec_is_word(st@, "ON"@) && !spec_is_word(st@, "OFF"@)
        ==> match f.color {
        ColorField::Channels(cr, cg, cb) => r matches Ok(m) && m matches StripMode::Colour(
            r8,
            g8,
            b8,
        ) && r8 == cr as u8 && g8 == cg as u8 && b8 == cb as u8,
        ColorField::Malformed => r matches Err(e) && e@ == "Invalid color"@,
        ColorField::Absent => match f.effect {
            Some(eff) => r matches Ok(m) && m matches StripMode::Effect(n) && n@ == eff@,
            None => match f.brightness {
                Some(b) => r matches Ok(m) && m matches StripMode::Brightness(b8) && b8 == b as u8,
                None => match f.color_temp {
                    Some(ct) => if ct == 0 || ct > 0x7fff_ffff_ffff_ffff {
                        r matches Err(e) && e@ == "Invalid color temperature"@
                    } else {
                        r matches Ok(m) && m matches StripMode::Colour(r8, g8, b8) && (r8, g8, b8)
                            == spec_blackbody_rgb(((1000000 as u64) / ct) as i64)
                    },
                    None => r matches Ok(m) && m is On,
                },
            },
        },
    })
}

impl StripMode {
    /// Resolve the members of one command into a mode, by the ordered
    /// table of `is_resolution`.
    pub fn resolve(fields: CommandFields) -> (r: Result<StripMode, String>)
        ensures
            is_resolution(fields, r),
    {
        match &fields.state {
            None => {
                return Err(String::from_str("No state found"));
            },
            Some(st) => {
                if upper_eq(st.as_str(), "OFF") {
                    return Ok(StripMode::Off);
                }
                if !upper_eq(st.as_str(), "ON") {
                    return Err(String::from_str("Unknown state"));
                }
            },
        }
        match fields.color {
            ColorField::Channels(cr, cg, cb) => {
                return Ok(
                    StripMode::Colour(
                        #[verifier::truncate] (cr as u8),
                        #[verifier::truncate] (cg as u8),
                        #[verifier::truncate] (cb as u8),
                    ),
                );
            },
            ColorField::Malformed => {
                return Err(String::from_str("Invalid color"));
            },
            ColorField::Absent => {},
        }
        match &fields.effect {
            Some(e) => {
                return Ok(StripMode::Effect(e.clone()));
            },
            None => {},
        }
        match fields.brightness {
            Some(b) => {
                return Ok(StripMode::Brightness(#[verifier::truncate] (b as u8)));
            },
            None => {},
        }
        match fields.color_temp {
            Some(ct) => {
                if ct == 0 || ct > 0x7fff_ffff_ffff_ffff {
                    return Err(String::from_str("Invalid color temperature"));
                }
                let kelvin = (1_000_000u64 / ct) as i64;
                let rgb = kelvin_to_rgb(kelvin);
                return Ok(StripMode::Colour(rgb.0, rgb.1, rgb.2));
            },
            None => {},
        }
        Ok(StripMode::On)
    }

    /// Parse one inbound command payload. The JSON reading is trusted and
    /// named by `spec_command_fields`; every decision over the members it
    /// yields is made by `resolve`, so the result is pinned to the text.
    pub fn from_command(s: &str) -> (r: Result<StripMode, String>)
        ensures
            match spec_command_fields(s@) {
                None => r matches Err(e) && e@ == "Malformed payload"@,
                Some(f) => is_resolution(f, r),
            },
    {
        match parse_fields(s) {
            None => Err(String::from_str("Malformed payload")),
            Some(fields) => StripMode::resolve(fields),
        }
    }

    /// The state report for this mode: a bare turn-on reports ON, off
    /// reports OFF and nothing else; a colour carries its implied
    /// brightness (the largest channel) next to its channels; an effect
    /// carries full brightness and its name.
    pub fn to_state_message(&self, mqtt: &LightStripMqtt) -> (r: (String, String))
        ensures
            r.0@ == mqtt.state_topic@,
            self is On ==> r.1@ == "{\"state\": \"ON\"}"@,
            self is Off ==> r.1@ == "{\"state\": \"OFF\"}"@,
            self matches StripMode::Colour(cr, cg, cb) ==> r.1@ == spec_colour_state_payload(
                *cr,
                *cg,
                *cb,
            ),
            self matches StripMode::Effect(e) ==> r.1@ == spec_effect_state_payload(e@),
            self matches StripMode::Brightness(b) ==> r.1@ == spec_brightness_state_payload(*b),
    {
        let topic = mqtt.state_topic.clone();
        match self {
            StripMode::On => (topic, String::from_str("{\"state\": \"ON\"}")),
            StripMode::Off => (topic, String::from_str("{\"state\": \"OFF\"}")),
            StripMode::Colour(cr, cg, cb) => {
                let hsv = rgb_to_hsv(*cr, *cg, *cb);
                let mut payload = String::from_str("{\"state\": \"ON\", \"brightness\": ");
                let vs = u64_to_string(hsv.2 as u64);
                payload.append(vs.as_str());
                payload.append(",  \"color\": {\"r\": ");
                let rs = u64_to_string(*cr as u64);
                payload.append(rs.as_str());
                payload.append(", \"g\": ");
                let gs = u64_to_string(*cg as u64);
                payload.append(gs.as_str());
                payload.append(", \"b\": ");
                let bs = u64_to_string(*cb as u64);
                payload.append(bs.as_str());
                payload.append("}}");
                proof {
                    assert(payload@ =~= spec_colour_state_payload(*cr, *cg, *cb));
                }
                (topic, payload)
            },
            StripMode::Effect(e) => {
                let mut payload = String::from_str(
                    "{\"state\": \"ON\", \"brightness\": 255, \"effect\": \"",
                );
                payload.append(e.as_str());
                payload.append("\"}");
                proof {
                    assert(payload@ =~= spec_effect_state_payload(e@));
                }
                (topic, payload)
            },
            StripMode::Brightness(b) => {
                let mut payload = String::from_str("{\"state\": \"ON\", \"brightness\": ");
                let bs = u64_to_string(*b as u64);
                payload.append(bs.as_str());
                payload.append("}");
                proof {
                    assert(payload@ =~= spec_brightness_state_payload(*b));
                }
                (topic, payload)
            },
        }
    }

    /// A short human-readable description of this mode.
    pub fn describe(&self) -> (r: String)
        ensures
            self is On ==> r@ == "ON"@,
            self is Off ==> r@ == "OFF"@,
            self matches StripMode::Colour(cr, cg, cb) ==> r@ == "ON: Colour: r: "@ + spec_dec(
                *cr as nat,
            ) + ", g: "@ + spec_dec(*cg as nat) + ", b: "@ + spec_dec(*cb as nat),
            self matches StripMode::Effect(e) ==> r@ == "ON: Effect: "@ + e@,
            self matches StripMode::Brightness(b) ==> r@ == "ON: Brightness: "@ + spec_dec(
                *b as nat,
            ),
    {
        match self {
            StripMode::On => String::from_str("ON"),
            StripMode::Off => String::from_str("OFF"),
            StripMode::Colour(cr, cg, cb) => {
                let mut out = String::from_str("ON: Colour: r: ");
                let rs = u64_to_string(*cr as u64);
                out.append(rs.as_str());
                out.append(", g: ");
                let gs = u64_to_string(*cg as u64);
                out.append(gs.as_str());
                out.append(", b: ");
                let bs = u64_to_string(*cb as u64);
                out.append(bs.as_str());
                proof {
                    assert(out@ =~= "ON: Colour: r: "@ + spec_dec(*cr as nat) + ", g: "@ + spec_dec(
                        *cg as nat,
                    ) + ", b: "@ + spec_dec(*cb as nat));
                }
                out
            },
            StripMode::Effect(e) => {
                let mut out = String::from_str("ON: Effect: ");
                out.append(e.as_str());
                out
            },
            StripMode::Brightness(b) => {
                let mut out = String::from_str("ON: Brightness: ");
                let bs = u64_to_string(*b as u64);
                out.append(bs.as_str());
                out
            },
        }
    }
}

/// The state report payload of a colour: its implied brightness is the
/// largest channel.
pub open spec fn spec_colour_state_payload(r: u8, g: u8, b: u8) -> Seq<char> {
    "{\"state\": \"ON\", \"brightness\": "@ + spec_dec(
        spec_val(r as int, g as int, b as int) as nat,
    ) + ",  \"color\": {\"r\": "@ + spec_dec(r as nat) + ", \"g\": "@ + spec_dec(g as nat)
        + ", \"b\": "@ + spec_dec(b as nat) + "}}"@
}

/// The state report payload of an effect.
pub open spec fn spec_effect_state_payload(e: Seq<char>) -> Seq<char> {
    "{\"state\": \"ON\", \"brightness\": 255, \"effect\": \""@ + e + "\"}"@
}

/// The state report payload of a bare brightness level.
pub open spec fn spec_brightness_state_payload(b: u8) -> Seq<char> {
    "{\"state\": \"ON\", \"brightness\": "@ + spec_dec(b as nat) + "}"@
}

} // verus!
