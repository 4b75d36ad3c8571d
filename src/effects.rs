//! The effect kinds of the chain and their parameters.
//!
//! Sample arithmetic is floating point and happens outside this crate; here
//! each parameter is held as the IEEE-754 bit pattern of its `f32` value, and
//! what is decided is which parameters an effect has, how they are named,
//! looked up and replaced.
use vstd::prelude::*;
use crate::text::{same_text, to_lowercase, lowercase_of};

verus! {

/// Bit pattern of 1.0.
pub const ONE: u32 = 0x3f80_0000;
/// Bit pattern of 40.0.
pub const FORTY: u32 = 0x4220_0000;
/// Bit pattern of 60.0.
pub const SIXTY: u32 = 0x4270_0000;
/// Bit pattern of 400.0.
pub const FOUR_HUNDRED: u32 = 0x43c8_0000;

/// Gain, soft clipping, a low-pass tone stage and an output volume.
#[derive(Clone, Copy, Debug, PartialEq, Eq, Structural)]
pub struct Amplifier {
    pub preamp_gain: u32,
    pub distortion_gain: u32,
    /// Cutoff frequency of the tone stage, in Hz.
    pub tone: u32,
    pub volume: u32,
}

/// Overdrive by soft clipping, then a tone factor and an output level.
#[derive(Clone, Copy, Debug, PartialEq, Eq, Structural)]
pub struct ScreamerPedal {
    pub overdrive: u32,
    pub tone: u32,
    pub level: u32,
}

/// One processor of the chain.
#[derive(Clone, Copy, Debug, PartialEq, Eq, Structural)]
pub enum Effect {
    Amplifier(Amplifier),
    Screamer(ScreamerPedal),
}

/// Why a processor request was refused.
#[derive(Clone, Debug, PartialEq, Eq)]
pub enum ProcessorError {
    /// No effect kind has that name.
    UnknownKind,
    /// No active processor has that name.
    NotFound,
    /// A parameter of the effect had no value in the update.
    MissingParameter(String),
}

/// A parameter update or listing: each entry a name and a bit pattern.
pub type ParameterValues = Vec<(String, u32)>;

/// An effect's name and its current parameters, for observers.
#[derive(Clone, Debug, PartialEq, Eq)]
pub struct ProcessorDescription {
    pub name: String,
    pub details: ParameterValues,
}

/// The value given for `key` at or after position `i`: the first entry
/// with that name wins.
pub open spec fn value_from(vs: Seq<(String, u32)>, key: Seq<char>, i: int) -> Option<u32>
    decreases vs.len() - i,
{
    if 0 <= i < vs.len() {
        if vs[i].0@ == key {
            Some(vs[i].1)
        } else {
            value_from(vs, key, i + 1)
        }
    } else {
        None
    }
}

/// The value given for `key`, if any.
pub open spec fn value_of(vs: Seq<(String, u32)>, key: Seq<char>) -> Option<u32> {
    value_from(vs, key, 0)
}

/// An update of every amplifier parameter, or the first one missing.
pub open spec fn amplifier_update(vs: Seq<(String, u32)>) -> Result<Amplifier, Seq<char>> {
    match value_of(vs, "preamp_gain"@) {
        None => Err("preamp_gain"@),
        Some(p) => match value_of(vs, "distortion_gain"@) {
            None => Err("distortion_gain"@),
            Some(d) => match value_of(vs, "tone"@) {
                None => Err("tone"@),
                Some(t) => match value_of(vs, "volume"@) {
                    None => Err("volume"@),
                    Some(v) => Ok(Amplifier { preamp_gain: p, distortion_gain: d, tone: t, volume: v }),
                },
            },
        },
    }
}

/// An update of every screamer parameter, or the first one missing.
pub open spec fn screamer_update(vs: Seq<(String, u32)>) -> Result<ScreamerPedal, Seq<char>> {
    match value_of(vs, "overdrive"@) {
        None => Err("overdrive"@),
        Some(o) => match value_of(vs, "tone"@) {
            None => Err("tone"@),
            Some(t) => match value_of(vs, "level"@) {
                None => Err("level"@),
                Some(l) => Ok(ScreamerPedal { overdrive: o, tone: t, level: l }),
            },
        },
    }
}

/// An effect after an update: every parameter of its kind must be given,
/// or the effect stays as it was and the first missing name is reported.
pub open spec fn effect_update(e: Effect, vs: Seq<(String, u32)>) -> Result<Effect, Seq<char>> {
    match e {
        Effect::Amplifier(_) => match amplifier_update(vs) {
            Ok(a) => Ok(Effect::Amplifier(a)),
            Err(m) => Err(m),
        },
        Effect::Screamer(_) => match screamer_update(vs) {
            Ok(s) => Ok(Effect::Screamer(s)),
            Err(m) => Err(m),
        },
    }
}

/// Whether `e` reports that the parameter `m` was missing.
pub open spec fn reports_missing(e: ProcessorError, m: Seq<char>) -> bool {
    e is MissingParameter && e->MissingParameter_0@ == m
}

/// The identity name of an effect.
pub open spec fn effect_name(e: Effect) -> Seq<char> {
    match e {
        Effect::Amplifier(_) => "amplifier"@,
        Effect::Screamer(_) => "Screamer"@,
    }
}

/// An effect's parameters, in declaration order.
pub open spec fn details_of(e: Effect) -> Seq<(Seq<char>, u32)> {
    match e {
        Effect::Amplifier(a) => seq![
            ("preamp_gain"@, a.preamp_gain),
            ("distortion_gain"@, a.distortion_gain),
            ("tone"@, a.tone),
            ("volume"@, a.volume),
        ],
        Effect::Screamer(s) => seq![("overdrive"@, s.overdrive), ("tone"@, s.tone), ("level"@, s.level)],
    }
}

/// Parameter values as plain names and bit patterns.
pub open spec fn values_view(vs: Seq<(String, u32)>) -> Seq<(Seq<char>, u32)> {
    vs.map_values(|p: (String, u32)| (p.0@, p.1))
}

/// The amplifier's starting point.
pub open spec fn default_amplifier() -> Amplifier {
    Amplifier { preamp_gain: FORTY, distortion_gain: SIXTY, tone: FOUR_HUNDRED, volume: ONE }
}

/// The screamer's starting point.
pub open spec fn default_screamer() -> ScreamerPedal {
    ScreamerPedal { overdrive: ONE, tone: ONE, level: ONE }
}

/// The effect a (lowercase) kind name stands for, with default parameters.
pub open spec fn kind_effect(kind: Seq<char>) -> Option<Effect> {
    if kind == "amplifier"@ {
        Some(Effect::Amplifier(default_amplifier()))
    } else if kind == "screamer"@ {
        Some(Effect::Screamer(default_screamer()))
    } else {
        None
    }
}

/// The value given for `key`; the first entry with that name wins.
pub fn find_value(values: &ParameterValues, key: &str) -> (r: Option<u32>)
    ensures
        r == value_of(values@, key@),
{
    let mut i: usize = 0;
    while i < values.len()
        invariant
            i <= values@.len(),
            value_of(values@, key@) == value_from(values@, key@, i as int),
        decreases values@.len() - i,
    {
        if same_text(values[i].0.as_str(), key) {
            return Some(values[i].1);
        }
        i += 1;
    }
    None
}

fn missing(name: &str) -> (e: ProcessorError)
    ensures
        reports_missing(e, name@),
{
    ProcessorError::MissingParameter(String::from_str(name))
}

impl Amplifier {
    /// Preamp 40, distortion 60, tone 400 Hz, volume 1.
    pub fn new() -> (a: Amplifier)
        ensures
            a == default_amplifier(),
    {
        Amplifier { preamp_gain: FORTY, distortion_gain: SIXTY, tone: FOUR_HUNDRED, volume: ONE }
    }

    /// The kind name under which the amplifier is offered.
    pub fn name() -> (r: &'static str)
        ensures
            r@ == "Amplifier"@,
    {
        "Amplifier"
    }

    /// Replaces every parameter at once; all four must be given.
    pub fn update_values(&mut self, values: &ParameterValues) -> (r: Result<(), ProcessorError>)
        ensures
            match amplifier_update(values@) {
                Ok(a) => r is Ok && *final(self) == a,
                Err(m) => r is Err && reports_missing(r->Err_0, m) && *final(self) == *old(self),
            },
    {
        let p = match find_value(values, "preamp_gain") {
            Some(v) => v,
            None => return Err(missing("preamp_gain")),
        };
        let d = match find_value(values, "distortion_gain") {
            Some(v) => v,
            None => return Err(missing("distortion_gain")),
        };
        let t = match find_value(values, "tone") {
            Some(v) => v,
            None => return Err(missing("tone")),
        };
        let v = match find_value(values, "volume") {
            Some(v) => v,
            None => return Err(missing("volume")),
        };
        *self = Amplifier { preamp_gain: p, distortion_gain: d, tone: t, volume: v };
        Ok(())
    }
}

impl ScreamerPedal {
    /// Overdrive, tone and level all 1.
    pub fn new() -> (s: ScreamerPedal)
        ensures
            s == default_screamer(),
    {
        ScreamerPedal { overdrive: ONE, tone: ONE, level: ONE }
    }

    /// Replaces every parameter at once; all three must be given.
    pub fn update_values(&mut self, values: &ParameterValues) -> (r: Result<(), ProcessorError>)
        ensures
            match screamer_update(values@) {
                Ok(s) => r is Ok && *final(self) == s,
                Err(m) => r is Err && reports_missing(r->Err_0, m) && *final(self) == *old(self),
            },
    {
        let o = match find_value(values, "overdrive") {
            Some(v) => v,
            None => return Err(missing("overdrive")),
        };
        let t = match find_value(values, "tone") {
            Some(v) => v,
            None => return Err(missing("tone")),
        };
        let l = match find_value(values, "level") {
            Some(v) => v,
            None => return Err(missing("level")),
        };
        *self = ScreamerPedal { overdrive: o, tone: t, level: l };
        Ok(())
    }
}

fn entry(name: &str, value: u32) -> (r: (String, u32))
    ensures
        r.0@ == name@,
        r.1 == value,
{
    (String::from_str(name), value)
}

impl Effect {
    /// The identity name, used to find the processor in the chain.
    pub fn get_name(&self) -> (r: &'static str)
        ensures
            r@ == effect_name(*self),
    {
        match self {
            Effect::Amplifier(_) => "amplifier",
            Effect::Screamer(_) => "Screamer",
        }
    }

    /// Replaces every parameter of the effect; on a missing one nothing
    /// changes and its name is reported.
    pub fn update_values(&mut self, values: &ParameterValues) -> (r: Result<(), ProcessorError>)
        ensures
            match effect_update(*old(self), values@) {
                Ok(e) => r is Ok && *final(self) == e,
                Err(m) => r is Err && reports_missing(r->Err_0, m) && *final(self) == *old(self),
            },
    {
        match self {
            Effect::Amplifier(a) => a.update_values(values),
            Effect::Screamer(s) => s.update_values(values),
        }
    }

    /// The parameters by name, in declaration order.
    pub fn details(&self) -> (r: ParameterValues)
        ensures
            values_view(r@) == details_of(*self),
    {
        let mut r: ParameterValues = Vec::new();
        match self {
            Effect::Amplifier(a) => {
                r.push(entry("preamp_gain", a.preamp_gain));
                r.push(entry("distortion_gain", a.distortion_gain));
                r.push(entry("tone", a.tone));
                r.push(entry("volume", a.volume));
            },
            Effect::Screamer(s) => {
                r.push(entry("overdrive", s.overdrive));
                r.push(entry("tone", s.tone));
                r.push(entry("level", s.level));
            },
        }
        assert(values_view(r@) =~= details_of(*self));
        r
    }

    /// The identity name together with the current parameters.
    pub fn describe(&self) -> (r: ProcessorDescription)
        ensures
            r.name@ == effect_name(*self),
            values_view(r.details@) == details_of(*self),
    {
        ProcessorDescription { name: String::from_str(self.get_name()), details: self.details() }
    }
}

/// The names of the effect kinds that can be added to the chain.
pub fn get_processor_impl_names() -> (r: Vec<&'static str>)
    ensures
        r@.len() == 2,
        r@[0]@ == "amplifier"@,
        r@[1]@ == "screamer"@,
{
    let mut r: Vec<&'static str> = Vec::new();
    r.push("amplifier");
    r.push("screamer");
    r
}

/// The effect for an already lowercased kind name, with default parameters.
pub fn effect_for_kind(kind: &str) -> (r: Option<Effect>)
    ensures
        r == kind_effect(kind@),
{
    if same_text(kind, "amplifier") {
        Some(Effect::Amplifier(Amplifier::new()))
    } else if same_text(kind, "screamer") {
        Some(Effect::Screamer(ScreamerPedal::new()))
    } else {
        None
    }
}

/// A new processor of the named kind, matched without regard to case, with
/// `values` applied when given.
pub fn init_processor(name: &str, values: Option<&ParameterValues>) -> (r: Result<Effect, ProcessorError>)
    ensures
        match kind_effect(lowercase_of(name@)) {
            None => r is Err && r->Err_0 is UnknownKind,
            Some(e) => match values {
                None => r is Ok && r->Ok_0 == e,
                Some(vs) => match effect_update(e, vs@) {
                    Ok(u) => r is Ok && r->Ok_0 == u,
                    Err(m) => r is Err && reports_missing(r->Err_0, m),
                },
            },
        },
{
    let kind = to_lowercase(name);
    match effect_for_kind(kind.as_str()) {
        None => Err(ProcessorError::UnknownKind),
        Some(e) => {
            let mut e = e;
            match values {
                None => Ok(e),
                Some(vs) => match e.update_values(vs) {
                    Ok(()) => Ok(e),
                    Err(err) => Err(err),
                },
            }
        },
    }
}

} // verus!
