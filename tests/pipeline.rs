use amp_sim::effects::{Amplifier, Effect, ProcessorError, ScreamerPedal};
use amp_sim::pipeline::AudioPipeline;

fn gain(e: Effect) -> f32 {
    match e {
        Effect::Amplifier(a) => f32::from_bits(a.volume),
        Effect::Screamer(s) => f32::from_bits(s.level),
    }
}

fn amp(volume: f32) -> Effect {
    let mut a = Amplifier::new();
    a.volume = volume.to_bits();
    Effect::Amplifier(a)
}

fn screamer(level: f32) -> Effect {
    let mut s = ScreamerPedal::new();
    s.level = level.to_bits();
    Effect::Screamer(s)
}

#[test]
fn empty_pipeline_is_identity() {
    let p = AudioPipeline::new();
    assert_eq!(p.len(), 0);
    for x in [-1.0f32, -0.25, 0.0, 0.5, 1.0] {
        assert_eq!(p.process_sample(x, |e: Effect, s: f32| s * gain(e) + 1.0), x);
    }
}

#[test]
fn processors_apply_in_insertion_order() {
    let mut p = AudioPipeline::new();
    p.add_processor(amp(2.0));
    p.add_processor(screamer(0.5));
    // A then B: (x * 2 + 1) * 0.5 + 1, which differs from B then A.
    let step = |e: Effect, s: f32| s * gain(e) + 1.0;
    let x = 0.25f32;
    let expected = step(screamer(0.5), step(amp(2.0), x));
    assert_eq!(p.process_sample(x, step), expected);
    assert_eq!(expected, 1.75);
}

#[test]
fn remove_from_empty_pipeline_is_noop() {
    let mut p = AudioPipeline::new();
    p.remove_processor("amplifier");
    assert_eq!(p.len(), 0);
}

#[test]
fn remove_non_matching_is_noop() {
    let mut p = AudioPipeline::new();
    p.add_processor(amp(1.0));
    p.remove_processor("Screamer");
    p.remove_processor("Amplifier");
    assert_eq!(p.len(), 1);
    assert_eq!(p.processors()[0], amp(1.0));
}

#[test]
fn remove_takes_only_the_first_match() {
    let mut p = AudioPipeline::new();
    p.add_processor(amp(1.0));
    p.add_processor(screamer(1.0));
    p.add_processor(amp(2.0));
    p.remove_processor("amplifier");
    assert_eq!(p.processors(), &vec![screamer(1.0), amp(2.0)]);
    assert_eq!(p.position("amplifier"), Some(1));
    assert_eq!(p.position("Screamer"), Some(0));
}

#[test]
fn update_unknown_processor_is_not_found() {
    let mut p = AudioPipeline::new();
    p.add_processor(amp(1.0));
    let vs = vec![("level".to_string(), 1.0f32.to_bits())];
    assert_eq!(p.update_processor_values("Screamer", &vs), Err(ProcessorError::NotFound));
    assert_eq!(p.processors(), &vec![amp(1.0)]);
}

#[test]
fn update_applies_to_first_match_and_returns_applied_values() {
    let mut p = AudioPipeline::new();
    p.add_processor(screamer(1.0));
    p.add_processor(screamer(0.3));
    let vs = vec![
        ("overdrive".to_string(), 4.0f32.to_bits()),
        ("tone".to_string(), 0.9f32.to_bits()),
        ("level".to_string(), 0.6f32.to_bits()),
    ];
    let applied = p.update_processor_values("Screamer", &vs).unwrap();
    assert_eq!(applied, vs);
    let updated = Effect::Screamer(ScreamerPedal {
        overdrive: 4.0f32.to_bits(),
        tone: 0.9f32.to_bits(),
        level: 0.6f32.to_bits(),
    });
    assert_eq!(p.processors(), &vec![updated, screamer(0.3)]);
}

#[test]
fn update_with_missing_parameter_changes_nothing() {
    let mut p = AudioPipeline::new();
    p.add_processor(amp(1.0));
    let vs = vec![("volume".to_string(), 0.1f32.to_bits())];
    assert_eq!(
        p.update_processor_values("amplifier", &vs),
        Err(ProcessorError::MissingParameter("preamp_gain".to_string()))
    );
    assert_eq!(p.processors(), &vec![amp(1.0)]);
}

#[test]
fn snapshot_lists_processors_in_order() {
    let mut p = AudioPipeline::new();
    p.add_processor(screamer(1.0));
    p.add_processor(amp(1.0));
    let snap = p.snapshot();
    assert_eq!(snap.len(), 2);
    assert_eq!(snap[0].name, "Screamer");
    assert_eq!(snap[1].name, "amplifier");
    assert_eq!(snap[1].details.len(), 4);
    assert_eq!(snap[1].details[3], ("volume".to_string(), 1.0f32.to_bits()));
}

#[test]
fn chain_output_is_the_fold_of_its_processors() {
    let mut p = AudioPipeline::new();
    let chain = [amp(3.0), screamer(-1.0), amp(0.5)];
    for e in chain {
        p.add_processor(e);
    }
    let step = |e: Effect, s: f32| s * gain(e) - 2.0;
    let x = 1.0f32;
    let expected = chain.iter().fold(x, |acc, e| step(*e, acc));
    assert_eq!(p.process_sample(x, step), expected);
    // ((1 * 3 - 2) * -1 - 2) * 0.5 - 2
    assert_eq!(expected, -3.5);
    assert_eq!(p.process_sample(x, step), p.process_sample(x, step));
}
