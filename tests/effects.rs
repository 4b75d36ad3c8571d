use amp_sim::effects::{
    effect_for_kind, get_processor_impl_names, init_processor, Amplifier, Effect, ProcessorError,
    ScreamerPedal,
};

fn values(pairs: &[(&str, f32)]) -> Vec<(String, u32)> {
    pairs.iter().map(|(k, v)| (k.to_string(), v.to_bits())).collect()
}

#[test]
fn amplifier_defaults() {
    let a = Amplifier::new();
    assert_eq!(a.preamp_gain, 40.0f32.to_bits());
    assert_eq!(a.distortion_gain, 60.0f32.to_bits());
    assert_eq!(a.tone, 400.0f32.to_bits());
    assert_eq!(a.volume, 1.0f32.to_bits());
    assert_eq!(Amplifier::name(), "Amplifier");
}

#[test]
fn screamer_defaults() {
    let s = ScreamerPedal::new();
    assert_eq!(s.overdrive, 1.0f32.to_bits());
    assert_eq!(s.tone, 1.0f32.to_bits());
    assert_eq!(s.level, 1.0f32.to_bits());
}

#[test]
fn amplifier_full_update_replaces_every_parameter() {
    let mut a = Amplifier::new();
    let vs = values(&[("volume", 0.5), ("tone", 800.0), ("preamp_gain", 10.0), ("distortion_gain", 2.0)]);
    assert!(a.update_values(&vs).is_ok());
    assert_eq!(a.preamp_gain, 10.0f32.to_bits());
    assert_eq!(a.distortion_gain, 2.0f32.to_bits());
    assert_eq!(a.tone, 800.0f32.to_bits());
    assert_eq!(a.volume, 0.5f32.to_bits());
}

#[test]
fn amplifier_update_with_missing_key_changes_nothing() {
    let mut a = Amplifier::new();
    let vs = values(&[("volume", 0.5), ("preamp_gain", 10.0), ("distortion_gain", 2.0)]);
    assert_eq!(a.update_values(&vs), Err(ProcessorError::MissingParameter("tone".to_string())));
    assert_eq!(a, Amplifier::new());
}

#[test]
fn first_duplicate_key_wins() {
    let mut s = ScreamerPedal::new();
    let vs = values(&[("overdrive", 3.0), ("tone", 0.5), ("level", 0.7), ("overdrive", 9.0)]);
    assert!(s.update_values(&vs).is_ok());
    assert_eq!(s.overdrive, 3.0f32.to_bits());
    assert_eq!(s.tone, 0.5f32.to_bits());
    assert_eq!(s.level, 0.7f32.to_bits());
}

#[test]
fn screamer_update_reports_first_missing_parameter() {
    let mut s = ScreamerPedal::new();
    let vs = values(&[("tone", 0.5)]);
    assert_eq!(s.update_values(&vs), Err(ProcessorError::MissingParameter("overdrive".to_string())));
    assert_eq!(s, ScreamerPedal::new());
}

#[test]
fn effect_names_and_description() {
    let a = Effect::Amplifier(Amplifier::new());
    let s = Effect::Screamer(ScreamerPedal::new());
    assert_eq!(a.get_name(), "amplifier");
    assert_eq!(s.get_name(), "Screamer");
    let d = a.describe();
    assert_eq!(d.name, "amplifier");
    let keys: Vec<&str> = d.details.iter().map(|(k, _)| k.as_str()).collect();
    assert_eq!(keys, vec!["preamp_gain", "distortion_gain", "tone", "volume"]);
    assert_eq!(d.details[2].1, 400.0f32.to_bits());
    let d = s.describe();
    assert_eq!(d.name, "Screamer");
    let keys: Vec<&str> = d.details.iter().map(|(k, _)| k.as_str()).collect();
    assert_eq!(keys, vec!["overdrive", "tone", "level"]);
}

#[test]
fn description_round_trips_through_update() {
    let mut a = Effect::Amplifier(Amplifier::new());
    let mut b = Effect::Screamer(ScreamerPedal::new());
    b.update_values(&values(&[("overdrive", 2.0), ("tone", 0.8), ("level", 0.7)])).unwrap();
    let before_a = a;
    let before_b = b;
    assert!(a.update_values(&a.details()).is_ok());
    assert!(b.update_values(&b.details()).is_ok());
    assert_eq!(a, before_a);
    assert_eq!(b, before_b);
}

#[test]
fn kind_names_listed() {
    assert_eq!(get_processor_impl_names(), vec!["amplifier", "screamer"]);
}

#[test]
fn kind_lookup_expects_lowercase() {
    assert_eq!(effect_for_kind("amplifier"), Some(Effect::Amplifier(Amplifier::new())));
    assert_eq!(effect_for_kind("screamer"), Some(Effect::Screamer(ScreamerPedal::new())));
    assert_eq!(effect_for_kind("Amplifier"), None);
    assert_eq!(effect_for_kind(""), None);
}

#[test]
fn init_processor_ignores_case() {
    assert_eq!(init_processor("AmPlIfIeR", None), Ok(Effect::Amplifier(Amplifier::new())));
    assert_eq!(init_processor("SCREAMER", None), Ok(Effect::Screamer(ScreamerPedal::new())));
}

#[test]
fn init_processor_unknown_kind() {
    assert_eq!(init_processor("fuzz", None), Err(ProcessorError::UnknownKind));
    assert_eq!(init_processor("", None), Err(ProcessorError::UnknownKind));
}

#[test]
fn init_processor_applies_values() {
    let vs = values(&[("overdrive", 2.0), ("tone", 0.8), ("level", 0.7)]);
    let e = init_processor("Screamer", Some(&vs)).unwrap();
    assert_eq!(
        e,
        Effect::Screamer(ScreamerPedal {
            overdrive: 2.0f32.to_bits(),
            tone: 0.8f32.to_bits(),
            level: 0.7f32.to_bits()
        })
    );
    let partial = values(&[("volume", 0.3)]);
    assert_eq!(
        init_processor("amplifier", Some(&partial)),
        Err(ProcessorError::MissingParameter("preamp_gain".to_string()))
    );
}

#[test]
fn unknown_keys_are_ignored() {
    let mut s = ScreamerPedal::new();
    let vs = values(&[("gain", 9.0), ("overdrive", 3.0), ("tone", 0.5), ("level", 0.7), ("volume", 2.0)]);
    assert!(s.update_values(&vs).is_ok());
    assert_eq!(
        s,
        ScreamerPedal { overdrive: 3.0f32.to_bits(), tone: 0.5f32.to_bits(), level: 0.7f32.to_bits() }
    );
}
