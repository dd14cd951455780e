use vstd::prelude::*;

verus! {

use crate::rgb::Rgb;

/// A registry of named animation generators. Each entry owns its own frame
/// counter and, asked for its next frame, yields one frame's worth of pixel
/// colours. The entries are opaque to verification; callers rely only on
/// what the wrappers below state over `spec_effect_names` and
/// `spec_registry_count`.
#[verifier::external_body]
pub struct EffectRegistry {
    effects: std::collections::HashMap<String, Box<dyn smart_led_effects::strip::EffectIterator>>,
}

/// The set of animation names the registry holds.
pub uninterp spec fn spec_effect_names(r: EffectRegistry) -> Set<Seq<char>>;

/// The pixel count the registry's animations were built for.
pub uninterp spec fn spec_registry_count(r: EffectRegistry) -> nat;

/// The names of the stock animations, exactly as each one reports itself.
pub open spec fn default_effect_names() -> Set<Seq<char>> {
    set![
        "Breathe"@,
        "Bounce"@,
        "Collision"@,
        "Cycle"@,
        "Cylon"@,
        "Fire"@,
        "Meteor"@,
        "Morse"@,
        "ProgressBar"@,
        "Rainbow"@,
        "RunningLights"@,
        "Strobe"@,
        "Twinkle"@,
        "SnowSparkle"@,
        "Wipe"@,
    ]
}

impl EffectRegistry {
    /// Relies on smart_led_effects' get_all_default_effects and on
    /// EffectIterator::name: builds the registry of that crate's stock
    /// animations for a strip of `count` pixels, each entry stored under
    /// its own reported name; those names are a fixed list in its source.
    /// Several stock animations index or sample proportions of the strip
    /// when they advance and panic on strips smaller than seven pixels, so
    /// smaller counts are not admitted.
    #[verifier::external_body]
    pub fn with_defaults(count: usize) -> (r: EffectRegistry)
        requires
            7 <= count,
        ensures
            spec_effect_names(r) == default_effect_names(),
            spec_registry_count(r) == count,
    {
        let mut effects: std::collections::HashMap<
            String,
            Box<dyn smart_led_effects::strip::EffectIterator>,
        > = std::collections::HashMap::new();
        for effect in smart_led_effects::strip::get_all_default_effects(count) {
            effects.insert(effect.name().to_string(), effect);
        }
        EffectRegistry { effects }
    }

    /// Relies on HashMap::contains_key: whether an animation of this name is
    /// registered.
    #[verifier::external_body]
    pub fn contains(&self, name: &str) -> (r: bool)
        ensures
            r == spec_effect_names(*self).contains(name@),
    {
        self.effects.contains_key(name)
    }

    /// Relies on HashMap::get_mut and EffectIterator::next: advances the
    /// named animation by one frame and hands out that frame's colours. An
    /// unregistered name yields nothing (a registered but exhausted
    /// animation may yield nothing too); the registered names and the
    /// registry's pixel count never change. Advancing an animation built
    /// for fewer than seven pixels can panic inside the animation, so such
    /// registries are not admitted.
    #[verifier::external_body]
    pub fn next_frame(&mut self, name: &str) -> (r: Option<Vec<Rgb>>)
        requires
            7 <= spec_registry_count(*old(self)),
        ensures
            spec_effect_names(*final(self)) == spec_effect_names(*old(self)),
            spec_registry_count(*final(self)) == spec_registry_count(*old(self)),
            !spec_effect_names(*old(self)).contains(name@) ==> r is None,
    {
        match self.effects.get_mut(name) {
            Some(effect) => match effect.next() {
                Some(pixels) => Some(
                    pixels.iter().map(|p| Rgb::new(p.red, p.green, p.blue)).collect(),
                ),
                None => None,
            },
            None => None,
        }
    }

    /// Relies on HashMap::keys: every registered name, each exactly once,
    /// in no particular order.
    #[verifier::external_body]
    pub fn names(&self) -> (r: Vec<String>)
        ensures
            forall|i: int|
                0 <= i < r@.len() ==> spec_effect_names(*self).contains(#[trigger] r@[i]@),
            forall|n: Seq<char>|
                spec_effect_names(*self).contains(n) ==> exists|i: int|
                    0 <= i < r@.len() && (#[trigger] r@[i])@ == n,
    {
        self.effects.keys().cloned().collect()
    }
}

} // verus!
