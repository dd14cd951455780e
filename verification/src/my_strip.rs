use vstd::prelude::*;

verus! {

use vstd::string::StringExecFns;
use crate::effects::{EffectRegistry, default_effect_names, spec_effect_names, spec_registry_count};
use crate::hsv::{hsv_to_rgb, rgb_to_hsv, spec_hue, spec_sat, spec_hsv_to_rgb};
use crate::mode::StripMode;
use crate::rgb::Rgb;
use crate::strip::{Strip, spec_filled};
use crate::temperature::{kelvin_to_rgb, spec_blackbody_rgb};
use crate::text::{spec_dec, u64_to_string};
use crate::ws2812_error::Ws2812Error;

/// What the strip should currently show: a solid colour (hue in hundredths
/// of a degree and saturation, brightness kept separately), a named
/// animation, or nothing.
#[derive(Debug, Clone, PartialEq)]
pub enum RunMode {
    Static(u16, u8),
    Dynamic(String),
    Off,
}

impl RunMode {
    /// A static colour's hue is a valid angle in hundredths of a degree.
    pub open spec fn wf(&self) -> bool {
        self matches RunMode::Static(h, _s) ==> h < 36000
    }

    /// A copy equal to the original (the derived clone says nothing to the
    /// verifier, this one does).
    pub fn duplicate(&self) -> (r: RunMode)
        ensures
            r == *self,
    {
        match self {
            RunMode::Static(h, s) => RunMode::Static(*h, *s),
            RunMode::Dynamic(n) => RunMode::Dynamic(n.clone()),
            RunMode::Off => RunMode::Off,
        }
    }
}

/// The lighting state machine and its strip: the authoritative mode, the
/// brightness scalar (0..=255 for 0.0..=1.0), the remembered last non-off
/// mode with the brightness it carried, the animation registry, and the
/// double-buffered strip the state is rendered to.
pub struct MyStrip {
    pub mode: RunMode,
    pub brightness: u8,
    pub effects_map: EffectRegistry,
    pub previous_mode: RunMode,
    pub previous_brightness: u8,
    pub strip: Strip,
}

impl MyStrip {
    pub open spec fn wf(&self) -> bool {
        &&& self.mode.wf()
        &&& self.previous_mode.wf()
        &&& self.strip.wf()
        &&& 7 <= spec_registry_count(self.effects_map)
    }

    /// The parts of the state that a pure mode transition never touches.
    pub open spec fn same_surroundings(&self, other: &MyStrip) -> bool {
        &&& self.strip == other.strip
        &&& self.effects_map == other.effects_map
    }

    /// A fresh strip: off, at full brightness, remembering the stock
    /// Rainbow animation as the configured default to restore on a bare
    /// turn-on. Every stock animation is registered under its own name.
    /// The stock animations need at least seven pixels to advance safely.
    pub fn new(count: usize, strip: Strip) -> (s: MyStrip)
        requires
            strip.wf(),
            7 <= count,
        ensures
            s.wf(),
            s.mode is Off,
            s.brightness == 255,
            s.previous_mode matches RunMode::Dynamic(n) && n@ == "Rainbow"@,
            s.previous_brightness == 255,
            s.strip == strip,
            spec_effect_names(s.effects_map) == default_effect_names(),
    {
        MyStrip {
            mode: RunMode::Off,
            brightness: 255,
            effects_map: EffectRegistry::with_defaults(count),
            previous_mode: RunMode::Dynamic(String::from_str("Rainbow")),
            previous_brightness: 255,
            strip,
        }
    }

    /// Turn the strip off. The remembered mode and brightness are left
    /// untouched: history is never overwritten with off.
    pub fn turn_off(&mut self)
        requires
            old(self).wf(),
        ensures
            final(self).wf(),
            final(self).mode is Off,
            final(self).brightness == old(self).brightness,
            final(self).previous_mode == old(self).previous_mode,
            final(self).previous_brightness == old(self).previous_brightness,
            final(self).same_surroundings(old(self)),
    {
        self.mode = RunMode::Off;
    }

    /// Turn the strip back on: restore the remembered mode together with
    /// the brightness recorded when that mode was last active.
    pub fn turn_on(&mut self)
        requires
            old(self).wf(),
        ensures
            final(self).wf(),
            final(self).mode == old(self).previous_mode,
            final(self).brightness == old(self).previous_brightness,
            final(self).previous_mode == old(self).previous_mode,
            final(self).previous_brightness == old(self).previous_brightness,
            final(self).same_surroundings(old(self)),
    {
        self.mode = self.previous_mode.duplicate();
        self.brightness = self.previous_brightness;
    }

    /// Make a solid colour authoritative and record it, with the current
    /// brightness, as the last active mode.
    pub fn set_hs(&mut self, h: u16, s: u8)
        requires
            old(self).wf(),
            h < 36000,
        ensures
            final(self).wf(),
            final(self).mode == RunMode::Static(h, s),
            final(self).brightness == old(self).brightness,
            final(self).previous_mode == RunMode::Static(h, s),
            final(self).previous_brightness == old(self).brightness,
            final(self).same_surroundings(old(self)),
    {
        self.mode = RunMode::Static(h, s);
        self.previous_mode = RunMode::Static(h, s);
        self.previous_brightness = self.brightness;
    }

    /// Make the colour nearest an RGB triple authoritative: its hue and
    /// saturation carry over, its value channel is discarded, since
    /// brightness is tracked separately.
    pub fn set_rgb(&mut self, r: u8, g: u8, b: u8)
        requires
            old(self).wf(),
        ensures
            final(self).wf(),
            final(self).mode matches RunMode::Static(h, s) && h as int == spec_hue(
                r as int,
                g as int,
                b as int,
            ) && s as int == spec_sat(r as int, g as int, b as int),
            final(self).brightness == old(self).brightness,
            final(self).previous_mode == final(self).mode,
            final(self).previous_brightness == old(self).brightness,
            final(self).same_surroundings(old(self)),
    {
        let hsv = rgb_to_hsv(r, g, b);
        self.set_hs(hsv.0, hsv.1);
    }

    /// Make the black-body colour of a temperature (in mireds) authoritative.
    pub fn set_temperature(&mut self, mired: u64)
        requires
            old(self).wf(),
            1 <= mired,
        ensures
            final(self).wf(),
            final(self).mode matches RunMode::Static(h, s) && ({
                let rgb = spec_blackbody_rgb(((1000000 as u64) / mired) as i64);
                h as int == spec_hue(rgb.0 as int, rgb.1 as int, rgb.2 as int) && s as int
                    == spec_sat(rgb.0 as int, rgb.1 as int, rgb.2 as int)
            }),
            final(self).brightness == old(self).brightness,
            final(self).previous_mode == final(self).mode,
            final(self).previous_brightness == old(self).brightness,
            final(self).same_surroundings(old(self)),
    {
        let kelvin = (1_000_000u64 / mired) as i64;
        let rgb = kelvin_to_rgb(kelvin);
        self.set_rgb(rgb.0, rgb.1, rgb.2);
    }

    /// Make a named animation authoritative and record it as the last
    /// active mode. The name is not checked here: an unregistered name
    /// renders as a no-op.
    pub fn set_effect(&mut self, effect: &str)
        requires
            old(self).wf(),
        ensures
            final(self).wf(),
            final(self).mode matches RunMode::Dynamic(n) && n@ == effect@,
            final(self).brightness == old(self).brightness,
            final(self).previous_mode == final(self).mode,
            final(self).previous_brightness == old(self).brightness,
            final(self).same_surroundings(old(self)),
    {
        let name = String::from_str(effect);
        let name_again = name.clone();
        self.mode = RunMode::Dynamic(name);
        self.previous_mode = RunMode::Dynamic(name_again);
        self.previous_brightness = self.brightness;
    }

    /// Apply a brightness level as a modifier on whichever mode is
    /// authoritative. While an animation plays it is a no-op: animations
    /// own their own brightness scaling. On a static colour the level is
    /// taken as the new brightness and recorded. While off, the level
    /// scales the remembered static colour's brightness multiplicatively
    /// and turns that colour back on, without touching the recorded
    /// brightness until a non-off mode is next set directly; with no
    /// remembered static colour it is a no-op.
    pub fn set_brightness(&mut self, level: u8)
        requires
            old(self).wf(),
        ensures
            final(self).wf(),
            final(self).same_surroundings(old(self)),
            old(self).mode matches RunMode::Dynamic(_) ==> *final(self) == *old(self),
            old(self).mode matches RunMode::Static(_, _) ==> (final(self).mode == old(self).mode
                && final(self).brightness == level && final(self).previous_mode == old(self).mode
                && final(self).previous_brightness == level),
            old(self).mode is Off && (old(self).previous_mode matches RunMode::Static(_, _)) ==> (
            final(self).mode == old(self).previous_mode && final(self).brightness == old(self).previous_brightness * level / 255 && final(self).previous_mode == old(self).previous_mode && final(self).previous_brightness == old(self).previous_brightness),
            old(self).mode is Off && !(old(self).previous_mode matches RunMode::Static(_, _)) ==> *final(self) == *old(self),
    {
        if matches!(self.mode, RunMode::Dynamic(_)) {
            return ;
        }
        if matches!(self.mode, RunMode::Static(_, _)) {
            self.brightness = level;
            self.previous_mode = self.mode.duplicate();
            self.previous_brightness = level;
            return ;
        }
        let prev = self.previous_mode.duplicate();
        match prev {
            RunMode::Static(h, s) => {
                let pb = self.previous_brightness;
                proof {
                    assert((pb as int) * (level as int) / 255 <= 255) by (nonlinear_arith)
                        requires
                            pb <= 255,
                            level <= 255,
                    ;
                }
                let scaled: u32 = (pb as u32) * (level as u32) / 255;
                self.mode = RunMode::Static(h, s);
                self.brightness = scaled as u8;
            },
            _ => {},
        }
    }

    /// The hue (hundredths of a degree), saturation and current brightness
    /// of the authoritative mode, when it is a static colour.
    pub fn get_hsv(&self) -> (r: Option<(u16, u8, u8)>)
        ensures
            self.mode matches RunMode::Static(h, s) ==> r == Some((h, s, self.brightness)),
            !(self.mode matches RunMode::Static(_, _)) ==> r is None,
    {
        match &self.mode {
            RunMode::Static(h, s) => Some((*h, *s, self.brightness)),
            _ => None,
        }
    }

    /// The RGB colour the authoritative mode renders as, when it is a
    /// static colour at the current brightness.
    pub fn get_rgb(&self) -> (r: Option<(u8, u8, u8)>)
        requires
            self.wf(),
        ensures
            self.mode matches RunMode::Static(h, s) ==> (r matches Some(rgb) && (
            rgb.0 as int,
            rgb.1 as int,
            rgb.2 as int,
            ) == spec_hsv_to_rgb(h as int, s as int, self.brightness as int)),
            !(self.mode matches RunMode::Static(_, _)) ==> r is None,
    {
        match &self.mode {
            RunMode::Static(h, s) => Some(hsv_to_rgb(*h, *s, self.brightness)),
            _ => None,
        }
    }

    /// One frame of the authoritative animation, when one is playing and
    /// its name is registered.
    pub fn get_effect_pixels(&mut self) -> (r: Option<Vec<Rgb>>)
        requires
            old(self).wf(),
        ensures
            final(self).wf(),
            final(self).mode == old(self).mode,
            final(self).brightness == old(self).brightness,
            final(self).previous_mode == old(self).previous_mode,
            final(self).previous_brightness == old(self).previous_brightness,
            final(self).strip == old(self).strip,
            spec_effect_names(final(self).effects_map) == spec_effect_names(old(self).effects_map),
            !(old(self).mode matches RunMode::Dynamic(_)) ==> r is None,
            (old(self).mode matches RunMode::Dynamic(n) && !spec_effect_names(
                old(self).effects_map,
            ).contains(n@)) ==> r is None,
    {
        let m = self.mode.duplicate();
        match m {
            RunMode::Dynamic(name) => self.effects_map.next_frame(name.as_str()),
            _ => None,
        }
    }

    /// The names of every registered animation, each present, in no
    /// particular order.
    pub fn list_effects(&self) -> (r: Vec<String>)
        ensures
            forall|i: int|
                0 <= i < r@.len() ==> spec_effect_names(self.effects_map).contains(
                    #[trigger] r@[i]@,
                ),
            forall|n: Seq<char>|
                spec_effect_names(self.effects_map).contains(n) ==> exists|i: int|
                    0 <= i < r@.len() && (#[trigger] r@[i])@ == n,
    {
        self.effects_map.names()
    }

    /// The state report for the current state: a static colour reports the
    /// brightness and the RGB colour it renders as; an animation reports
    /// the brightness and its name; off reports nothing else.
    pub fn state_message(&self) -> (out: String)
        requires
            self.wf(),
        ensures
            self.mode matches RunMode::Static(h, s) ==> out@ == spec_static_state_payload(
                h as int,
                s as int,
                self.brightness as int,
            ),
            self.mode matches RunMode::Dynamic(n) ==> out@ == spec_dynamic_state_payload(
                self.brightness,
                n@,
            ),
            self.mode is Off ==> out@ == "{\"state\": \"OFF\"}"@,
    {
        match &self.mode {
            RunMode::Static(_h, _s) => {
                match self.get_rgb() {
                    Some(rgb) => {
                        let mut payload = String::from_str("{\"state\": \"ON\", \"brightness\": ");
                        let bs = u64_to_string(self.brightness as u64);
                        payload.append(bs.as_str());
                        payload.append(", \"color\": {\"r\": ");
                        let rs = u64_to_string(rgb.0 as u64);
                        payload.append(rs.as_str());
                        payload.append(", \"g\": ");
                        let gs = u64_to_string(rgb.1 as u64);
                        payload.append(gs.as_str());
                        payload.append(", \"b\": ");
                        let bls = u64_to_string(rgb.2 as u64);
                        payload.append(bls.as_str());
                        payload.append("}}");
                        proof {
                            let h = self.mode->Static_0;
                            let s = self.mode->Static_1;
                            assert(payload@ =~= spec_static_state_payload(
                                h as int,
                                s as int,
                                self.brightness as int,
                            ));
                        }
                        payload
                    },
                    None => {
                        proof {
                            assert(false);
                        }
                        String::new()
                    },
                }
            },
            RunMode::Dynamic(n) => {
                let mut payload = String::from_str("{\"state\": \"ON\", \"brightness\": ");
                let bs = u64_to_string(self.brightness as u64);
                payload.append(bs.as_str());
                payload.append(", \"effect\": \"");
                payload.append(n.as_str());
                payload.append("\"}");
                proof {
                    assert(payload@ =~= spec_dynamic_state_payload(self.brightness, n@));
                }
                payload
            },
            RunMode::Off => String::from_str("{\"state\": \"OFF\"}"),
        }
    }

    /// Apply one resolved command to the state machine and hand back the
    /// mode that is now authoritative, for rendering and for the outbound
    /// state report.
    pub fn apply(&mut self, state: &StripMode) -> (resolved: RunMode)
        requires
            old(self).wf(),
        ensures
            final(self).wf(),
            final(self).same_surroundings(old(self)),
            resolved == final(self).mode,
            light_of(*final(self)) == spec_transition(light_of(*old(self)), cmd_of(*state)),
            *state is Off ==> (final(self).mode is Off && final(self).brightness == old(self).brightness && final(self).previous_mode == old(self).previous_mode && final(self).previous_brightness == old(self).previous_brightness),
            *state is On ==> (final(self).mode == old(self).previous_mode && final(self).brightness
                == old(self).previous_brightness && final(self).previous_mode == old(self).previous_mode && final(self).previous_brightness == old(self).previous_brightness),
            *state matches StripMode::Colour(r, g, b) ==> (final(self).mode matches RunMode::Static(
                h,
                s,
            ) && h as int == spec_hue(r as int, g as int, b as int) && s as int == spec_sat(
                r as int,
                g as int,
                b as int,
            ) && final(self).brightness == old(self).brightness && final(self).previous_mode
                == final(self).mode && final(self).previous_brightness == old(self).brightness),
            *state matches StripMode::Effect(e) ==> (final(self).mode matches RunMode::Dynamic(n)
                && n@ == e@ && final(self).brightness == old(self).brightness && final(self).previous_mode == final(self).mode && final(self).previous_brightness == old(self).brightness),
            *state matches StripMode::Brightness(level) ==> ({
                &&& old(self).mode matches RunMode::Dynamic(_) ==> *final(self) == *old(self)
                &&& old(self).mode matches RunMode::Static(_, _) ==> (final(self).mode
                    == old(self).mode && final(self).brightness == level
                    && final(self).previous_brightness == level)
                &&& old(self).mode is Off && (old(self).previous_mode matches RunMode::Static(_, _))
                    ==> (final(self).mode == old(self).previous_mode && final(self).brightness
                    == old(self).previous_brightness * level / 255
                    && final(self).previous_brightness == old(self).previous_brightness)
                &&& old(self).mode is Off && !(old(self).previous_mode matches RunMode::Static(_, _))
                    ==> *final(self) == *old(self)
            }),
    {
        match state {
            StripMode::Brightness(level) => self.set_brightness(*level),
            StripMode::On => self.turn_on(),
            StripMode::Off => self.turn_off(),
            StripMode::Colour(r, g, b) => self.set_rgb(*r, *g, *b),
            StripMode::Effect(e) => self.set_effect(e.as_str()),
        }
        proof {
            assert(light_of(*self) =~~= spec_transition(light_of(*old(self)), cmd_of(*state)));
        }
        self.mode.duplicate()
    }

    /// Render the current state into page 0 and write that page to the
    /// bus: a static colour fills the page with the colour it renders as,
    /// off blanks it, an animation replaces it with the animation's next
    /// frame when one of matching length arrives and otherwise leaves the
    /// previous contents standing. A transport failure abandons the frame
    /// attempt and is handed back.
    pub fn update(&mut self) -> (r: Result<(), Ws2812Error>)
        requires
            old(self).wf(),
            0 < old(self).strip.pages@.len(),
        ensures
            final(self).wf(),
            final(self).mode == old(self).mode,
            final(self).brightness == old(self).brightness,
            final(self).previous_mode == old(self).previous_mode,
            final(self).previous_brightness == old(self).previous_brightness,
            spec_effect_names(final(self).effects_map) == spec_effect_names(old(self).effects_map),
            final(self).strip.count == old(self).strip.count,
            final(self).strip.pages@.len() == old(self).strip.pages@.len(),
            final(self).strip.spi == old(self).strip.spi,
            forall|i: int|
                0 < i < old(self).strip.pages@.len() ==> (#[trigger] final(self).strip.pages@[i])@
                    == old(self).strip.pages@[i]@,
            final(self).strip.pages@[0]@ == old(self).strip.pages@[0]@
                || final(self).strip.pages@[0]@.len() == old(self).strip.count as nat,
            old(self).mode matches RunMode::Static(h, s) ==> final(self).strip.pages@[0]@
                == spec_filled(
                old(self).strip.count as nat,
                spec_rgb_of(spec_hsv_to_rgb(h as int, s as int, old(self).brightness as int)),
            ),
            old(self).mode is Off ==> final(self).strip.pages@[0]@ == spec_filled(
                old(self).strip.count as nat,
                Rgb { red: 0, green: 0, blue: 0 },
            ),
            (old(self).mode matches RunMode::Dynamic(n) && !spec_effect_names(
                old(self).effects_map,
            ).contains(n@)) ==> forall|i: int|
                0 <= i < old(self).strip.pages@.len() ==> (#[trigger] final(self).strip.pages@[i])@
                    == old(self).strip.pages@[i]@,
            r is Ok ==> final(self).strip.current_page == 0,
            r matches Err(e) ==> e is SpiError,
            old(self).strip.spi is None ==> r is Err,
    {
        let m = self.mode.duplicate();
        match m {
            RunMode::Static(h, s) => {
                let rgb = hsv_to_rgb(h, s, self.brightness);
                let color = Rgb::new(rgb.0, rgb.1, rgb.2);
                let _ = self.strip.clear(0);
                let _ = self.strip.fill(0, &color);
            },
            RunMode::Dynamic(name) => {
                match self.effects_map.next_frame(name.as_str()) {
                    Some(pixels) => {
                        if pixels.len() == self.strip.count {
                            let _ = self.strip.set_page(0, pixels);
                        }
                    },
                    None => {},
                }
            },
            RunMode::Off => {
                let _ = self.strip.clear(0);
            },
        }
        self.strip.refresh(0)
    }
}

/// The abstract value of a mode: a name is its character sequence.
#[verifier::ext_equal]
pub enum ModeV {
    StaticV(u16, u8),
    DynamicV(Seq<char>),
    OffV,
}

impl View for RunMode {
    type V = ModeV;

    open spec fn view(&self) -> ModeV {
        match *self {
            RunMode::Static(h, s) => ModeV::StaticV(h, s),
            RunMode::Dynamic(n) => ModeV::DynamicV(n@),
            RunMode::Off => ModeV::OffV,
        }
    }
}

/// The machine's input alphabet: a command after its colour has been
/// reduced to hue and saturation.
#[verifier::ext_equal]
pub enum CmdV {
    OnV,
    OffV,
    StaticV(u16, u8),
    DynamicV(Seq<char>),
    BrightnessV(u8),
}

/// What a resolved command asks of the machine.
pub open spec fn cmd_of(state: StripMode) -> CmdV {
    match state {
        StripMode::On => CmdV::OnV,
        StripMode::Off => CmdV::OffV,
        StripMode::Colour(r, g, b) => CmdV::StaticV(
            spec_hue(r as int, g as int, b as int) as u16,
            spec_sat(r as int, g as int, b as int) as u8,
        ),
        StripMode::Effect(e) => CmdV::DynamicV(e@),
        StripMode::Brightness(l) => CmdV::BrightnessV(l),
    }
}

/// The abstract lighting state: the authoritative mode, the brightness
/// scalar, and the remembered last non-off mode with its brightness.
#[verifier::ext_equal]
pub struct LightView {
    pub mode: ModeV,
    pub brightness: u8,
    pub previous_mode: ModeV,
    pub previous_brightness: u8,
}

/// The abstract lighting state of a strip.
pub open spec fn light_of(s: MyStrip) -> LightView {
    LightView {
        mode: s.mode@,
        brightness: s.brightness,
        previous_mode: s.previous_mode@,
        previous_brightness: s.previous_brightness,
    }
}

/// The mode-reconciliation transition table. Off leaves history untouched;
/// on restores the remembered mode and its brightness; a mode carrying data
/// becomes authoritative and is recorded with the current brightness; a
/// brightness level is a modifier: a no-op while an animation plays,
/// absolute on a static colour (and recorded), and, while off, relative to
/// the remembered static colour's brightness without touching the record.
pub open spec fn spec_transition(s: LightView, cmd: CmdV) -> LightView {
    match cmd {
        CmdV::OffV => LightView { mode: ModeV::OffV, ..s },
        CmdV::OnV => LightView { mode: s.previous_mode, brightness: s.previous_brightness, ..s },
        CmdV::StaticV(h, hs) => LightView {
            mode: ModeV::StaticV(h, hs),
            previous_mode: ModeV::StaticV(h, hs),
            previous_brightness: s.brightness,
            ..s
        },
        CmdV::DynamicV(n) => LightView {
            mode: ModeV::DynamicV(n),
            previous_mode: ModeV::DynamicV(n),
            previous_brightness: s.brightness,
            ..s
        },
        CmdV::BrightnessV(l) => match s.mode {
            ModeV::DynamicV(_) => s,
            ModeV::StaticV(h, hs) => LightView {
                brightness: l,
                previous_mode: ModeV::StaticV(h, hs),
                previous_brightness: l,
                ..s
            },
            ModeV::OffV => match s.previous_mode {
                ModeV::StaticV(h, hs) => LightView {
                    mode: ModeV::StaticV(h, hs),
                    brightness: (s.previous_brightness * l / 255) as u8,
                    ..s
                },
                _ => s,
            },
        },
    }
}

/// The pixel of an RGB triple.
pub open spec fn spec_rgb_of(rgb: (int, int, int)) -> Rgb {
    Rgb { red: rgb.0 as u8, green: rgb.1 as u8, blue: rgb.2 as u8 }
}

/// The state report payload of a static colour: the brightness scalar and
/// the RGB colour rendered at it.
pub open spec fn spec_static_state_payload(h: int, s: int, v: int) -> Seq<char> {
    let rgb = spec_hsv_to_rgb(h, s, v);
    "{\"state\": \"ON\", \"brightness\": "@ + spec_dec(v as nat) + ", \"color\": {\"r\": "@
        + spec_dec(rgb.0 as nat) + ", \"g\": "@ + spec_dec(rgb.1 as nat) + ", \"b\": "@ + spec_dec(
        rgb.2 as nat,
    ) + "}}"@
}

/// The state report payload of a playing animation.
pub open spec fn spec_dynamic_state_payload(b: u8, e: Seq<char>) -> Seq<char> {
    "{\"state\": \"ON\", \"brightness\": "@ + spec_dec(b as nat) + ", \"effect\": \""@ + e + "\"}"@
}

} // verus!
