use razer_control::effects::{
    BreathSingle, Effect, LayerEffect, StaticEffect, StaticGradient, WaveGradient,
};
use razer_control::manager::EffectManager;
use razer_control::rgb::{KeyColour, KeyboardData};

const GREEN: KeyColour = KeyColour { red: 0, green: 255, blue: 0 };
const RED: KeyColour = KeyColour { red: 255, green: 0, blue: 0 };
const BLACK: KeyColour = KeyColour { red: 0, green: 0, blue: 0 };

fn solid(colour: KeyColour) -> LayerEffect {
    LayerEffect::Static(StaticEffect::new(colour.red, colour.green, colour.blue))
}

fn keys_of(frame: &KeyboardData) -> Vec<KeyColour> {
    (0..90).map(|k| frame.get_key_at(k)).collect()
}

fn claim(keys: &[usize]) -> [bool; 90] {
    let mut enabled = [false; 90];
    for k in keys {
        enabled[*k] = true;
    }
    enabled
}

#[test]
fn new_frame_is_black() {
    let frame = KeyboardData::new();
    assert_eq!(keys_of(&frame), vec![BLACK; 90]);
}

#[test]
fn key_writes_touch_one_key() {
    let mut frame = KeyboardData::new();
    frame.set_key_at(17, RED);
    for k in 0..90 {
        assert_eq!(frame.get_key_at(k), if k == 17 { RED } else { BLACK });
    }
}

#[test]
fn key_outside_the_frame_is_ignored_and_reads_black() {
    let mut frame = KeyboardData::new();
    frame.set_kbd_colour(1, 2, 3);
    frame.set_key_at(90, RED);
    frame.set_key_at(usize::MAX, RED);
    assert_eq!(keys_of(&frame), vec![KeyColour { red: 1, green: 2, blue: 3 }; 90]);
    assert_eq!(frame.get_key_at(90), BLACK);
    assert_eq!(frame.get_key_at(89), KeyColour { red: 1, green: 2, blue: 3 });
}

#[test]
fn frame_bytes_run_key_by_key() {
    let mut frame = KeyboardData::new();
    frame.set_key_at(0, KeyColour { red: 1, green: 2, blue: 3 });
    frame.set_key_at(89, KeyColour { red: 7, green: 8, blue: 9 });
    let bytes = frame.to_bytes();
    assert_eq!(bytes.len(), 270);
    assert_eq!(&bytes[0..6], &[1, 2, 3, 0, 0, 0]);
    assert_eq!(&bytes[264..270], &[0, 0, 0, 7, 8, 9]);
}

#[test]
fn static_tick_is_idempotent() {
    let mut effect = StaticEffect::new(9, 8, 7);
    let first = effect.update();
    let second = effect.update();
    assert_eq!(keys_of(&first), vec![KeyColour { red: 9, green: 8, blue: 7 }; 90]);
    assert_eq!(keys_of(&first), keys_of(&second));
    assert_eq!(keys_of(&effect.kbd), keys_of(&first));
}

#[test]
fn static_gradient_blends_along_the_row() {
    let mut effect = StaticGradient::new(BLACK, KeyColour { red: 140, green: 70, blue: 14 });
    let frame = effect.update();
    for k in 0..90usize {
        let column = (k % 15) as u8;
        assert_eq!(
            frame.get_key_at(k),
            KeyColour { red: 10 * column, green: 5 * column, blue: column }
        );
    }
    let again = effect.update();
    assert_eq!(keys_of(&frame), keys_of(&again));
}

#[test]
fn static_gradient_rounds_down() {
    let mut effect = StaticGradient::new(
        KeyColour { red: 255, green: 0, blue: 10 },
        KeyColour { red: 0, green: 255, blue: 20 },
    );
    let frame = effect.update();
    assert_eq!(frame.get_key_at(0), KeyColour { red: 255, green: 0, blue: 10 });
    assert_eq!(frame.get_key_at(1), KeyColour { red: 236, green: 18, blue: 10 });
    assert_eq!(frame.get_key_at(7), KeyColour { red: 127, green: 127, blue: 15 });
    assert_eq!(frame.get_key_at(14), KeyColour { red: 0, green: 255, blue: 20 });
    assert_eq!(frame.get_key_at(15), frame.get_key_at(0));
}

#[test]
fn wave_gradient_travels_and_returns() {
    let end = KeyColour { red: 140, green: 70, blue: 14 };
    let mut wave = WaveGradient::new(BLACK, end);
    let mut still = StaticGradient::new(BLACK, end);
    let first = wave.update();
    assert_eq!(keys_of(&first), keys_of(&still.update()));
    assert_eq!(wave.phase, 1);
    let second = wave.update();
    assert_eq!(second.get_key_at(0), KeyColour { red: 10, green: 5, blue: 1 });
    assert_eq!(second.get_key_at(13), end);
    assert_eq!(second.get_key_at(14), KeyColour { red: 130, green: 65, blue: 13 });
    for _ in 2..28 {
        wave.update();
    }
    assert_eq!(wave.phase, 0);
    assert_eq!(keys_of(&wave.update()), keys_of(&first));
}

#[test]
fn wave_gradient_takes_any_phase() {
    let end = KeyColour { red: 140, green: 70, blue: 14 };
    let mut wave = WaveGradient { start: BLACK, end, phase: 255 };
    let frame = wave.update();
    assert_eq!(frame.get_key_at(0), KeyColour { red: 30, green: 15, blue: 3 });
    assert_eq!(wave.phase, 4);
}

#[test]
fn breathing_fades_in_and_out() {
    let mut breath = BreathSingle::new(KeyColour { red: 200, green: 100, blue: 50 }, 4);
    let reds: Vec<u8> = (0..9).map(|_| breath.update().get_key_at(33).red).collect();
    assert_eq!(reds, vec![0, 50, 100, 150, 200, 150, 100, 50, 0]);
    let frame = breath.update();
    assert_eq!(keys_of(&frame), vec![KeyColour { red: 50, green: 25, blue: 12 }; 90]);
}

#[test]
fn breathing_with_no_duration_blinks() {
    let mut breath = BreathSingle::new(KeyColour { red: 200, green: 100, blue: 50 }, 0);
    let reds: Vec<u8> = (0..4).map(|_| breath.update().get_key_at(0).red).collect();
    assert_eq!(reds, vec![0, 200, 0, 200]);
}

#[test]
fn green_base_then_red_overlay() {
    let mut manager = EffectManager::new_at(0);
    manager.push_effect(solid(GREEN), &[true; 90]);
    let frame = manager.composite(1).expect("one layer renders");
    assert_eq!(keys_of(&frame), vec![GREEN; 90]);

    let subset = [0usize, 1, 16, 44, 89];
    manager.push_effect(solid(RED), &claim(&subset));
    let frame = manager.composite(2).expect("two layers render");
    for k in 0..90 {
        let expected = if subset.contains(&k) { RED } else { GREEN };
        assert_eq!(frame.get_key_at(k), expected);
    }
}

#[test]
fn first_layer_shows_at_every_key_whatever_it_claims() {
    let mut manager = EffectManager::new_at(0);
    manager.push_effect(solid(RED), &[false; 90]);
    let frame = manager.composite(1).expect("one layer renders");
    assert_eq!(keys_of(&frame), vec![RED; 90]);
}

#[test]
fn pop_on_empty_manager_is_noop() {
    let mut manager = EffectManager::new_at(0);
    manager.pop_effect();
    assert_eq!(manager.get_effect_layer_count(), 0);
    manager.pop_effect();
    assert_eq!(manager.get_effect_layer_count(), 0);
    manager.push_effect(solid(GREEN), &[true; 90]);
    assert_eq!(manager.get_effect_layer_count(), 1);
    let frame = manager.composite(1).expect("one layer renders");
    assert_eq!(keys_of(&frame), vec![GREEN; 90]);
}

#[test]
fn composite_on_empty_manager_is_noop() {
    let mut manager = EffectManager::new_at(0);
    assert!(manager.composite(100).is_none());
    assert!(manager.update_at(100).is_none());
    assert_eq!(manager.get_map(-1), vec![0u8; 270]);
}

#[test]
fn push_then_pop_restores_count_and_composite() {
    let mut with_detour = EffectManager::new_at(0);
    let mut plain = EffectManager::new_at(0);
    for manager in [&mut with_detour, &mut plain] {
        manager.push_effect(solid(GREEN), &[true; 90]);
        manager.push_effect(
            LayerEffect::StaticGradient(StaticGradient::new(BLACK, RED)),
            &claim(&[3, 4, 5]),
        );
    }
    with_detour.push_effect(solid(RED), &[true; 90]);
    assert_eq!(with_detour.get_effect_layer_count(), 3);
    with_detour.pop_effect();
    assert_eq!(with_detour.get_effect_layer_count(), plain.get_effect_layer_count());
    let a = with_detour.composite(1).expect("layers render");
    let b = plain.composite(1).expect("layers render");
    assert_eq!(keys_of(&a), keys_of(&b));
    assert_eq!(a.get_key_at(4), KeyColour { red: 72, green: 0, blue: 0 });
    assert_eq!(a.get_key_at(6), GREEN);
}

#[test]
fn push_with_no_keys_leaves_composite_unchanged() {
    let mut manager = EffectManager::new_at(0);
    manager.push_effect(solid(GREEN), &[true; 90]);
    manager.push_effect(solid(RED), &claim(&[10, 20]));
    let before = manager.composite(1).expect("layers render");
    manager.push_effect(solid(KeyColour { red: 1, green: 2, blue: 3 }), &[false; 90]);
    assert_eq!(manager.get_effect_layer_count(), 3);
    let after = manager.composite(2).expect("layers render");
    assert_eq!(keys_of(&before), keys_of(&after));
}

#[test]
fn popping_uncovers_the_layer_below() {
    let mut manager = EffectManager::new_at(0);
    manager.push_effect(solid(GREEN), &[true; 90]);
    manager.push_effect(solid(RED), &claim(&[0, 1, 2]));
    manager.push_effect(solid(BLACK), &claim(&[2, 3]));
    let frame = manager.composite(1).expect("layers render");
    assert_eq!(frame.get_key_at(1), RED);
    assert_eq!(frame.get_key_at(2), BLACK);
    assert_eq!(frame.get_key_at(3), BLACK);
    assert_eq!(frame.get_key_at(4), GREEN);
    manager.pop_effect();
    let frame = manager.composite(2).expect("layers render");
    assert_eq!(frame.get_key_at(2), RED);
    assert_eq!(frame.get_key_at(3), GREEN);
}

#[test]
fn layer_count_tracks_pushes_and_pops() {
    let mut manager = EffectManager::new_at(0);
    let mut expected = 0usize;
    for round in 0..40usize {
        if round % 3 == 2 || round % 7 == 0 {
            manager.pop_effect();
            expected = expected.saturating_sub(1);
        } else {
            manager.push_effect(solid(GREEN), &claim(&[round, round + 1]));
            expected += 1;
        }
        assert_eq!(manager.get_effect_layer_count(), expected);
        assert_eq!(manager.save().len(), expected);
        assert_eq!(manager.composite(round as u128).is_some(), expected > 0);
    }
}

#[test]
fn composited_channels_come_from_the_layers() {
    let mut manager = EffectManager::new_at(0);
    manager.push_effect(solid(KeyColour { red: 255, green: 255, blue: 255 }), &[true; 90]);
    manager.push_effect(
        LayerEffect::BreathSingle(BreathSingle::new(KeyColour { red: 255, green: 0, blue: 255 }, 2)),
        &claim(&[0, 1, 2, 3]),
    );
    for tick in 0..8u128 {
        let frame = manager.composite(tick).expect("layers render");
        let level = [0u8, 127, 255, 127][(tick % 4) as usize];
        assert_eq!(frame.get_key_at(2), KeyColour { red: level, green: 0, blue: level });
        assert_eq!(frame.get_key_at(4), KeyColour { red: 255, green: 255, blue: 255 });
    }
}

#[test]
fn every_effect_ticks_each_cycle_even_where_hidden() {
    let mut manager = EffectManager::new_at(0);
    manager.push_effect(
        LayerEffect::BreathSingle(BreathSingle::new(KeyColour { red: 200, green: 0, blue: 0 }, 4)),
        &[true; 90],
    );
    manager.push_effect(solid(GREEN), &[true; 90]);
    for tick in 0..3u128 {
        let frame = manager.composite(tick).expect("layers render");
        assert_eq!(keys_of(&frame), vec![GREEN; 90]);
    }
    manager.pop_effect();
    let frame = manager.composite(3).expect("one layer renders");
    assert_eq!(frame.get_key_at(0), KeyColour { red: 150, green: 0, blue: 0 });
}

#[test]
fn update_at_waits_for_the_delay() {
    let mut manager = EffectManager::new_at(1_000);
    manager.push_effect(
        LayerEffect::BreathSingle(BreathSingle::new(KeyColour { red: 200, green: 0, blue: 0 }, 4)),
        &[true; 90],
    );
    assert!(manager.update_at(1_000).is_none());
    assert!(manager.update_at(1_032).is_none());
    let frame = manager.update_at(1_033).expect("a frame is due");
    assert_eq!(frame.get_key_at(0).red, 0);
    assert!(manager.update_at(1_065).is_none());
    let frame = manager.update_at(1_066).expect("a frame is due");
    assert_eq!(frame.get_key_at(0).red, 50);
}

#[test]
fn update_at_renders_when_the_clock_was_set_back() {
    let mut manager = EffectManager::new_at(1_000);
    manager.push_effect(solid(GREEN), &[true; 90]);
    assert!(manager.update_at(999).is_some());
    assert!(manager.update_at(1_000).is_none());
    assert!(manager.update_at(1_032).is_some());
}

#[test]
fn update_follows_the_system_clock() {
    let mut manager = EffectManager::new();
    manager.push_effect(solid(GREEN), &[true; 90]);
    let start = manager.get_millis();
    let mut spins = 0u64;
    while manager.get_millis() < start + 40 && spins < 100_000_000 {
        spins += 1;
    }
    if manager.get_millis() >= start + 40 {
        let frame = manager.update().expect("a frame is due after forty milliseconds");
        assert_eq!(keys_of(&frame), vec![GREEN; 90]);
        assert!(manager.update_at(manager.get_millis() + 1_000).is_some());
    }
}

#[test]
fn get_map_answers_for_a_layer_or_with_the_last_frame() {
    let mut manager = EffectManager::new_at(0);
    manager.push_effect(solid(GREEN), &[true; 90]);
    manager.push_effect(solid(RED), &claim(&[0]));
    assert_eq!(manager.get_map(5), vec![0u8; 270]);
    manager.composite(1).expect("layers render");
    let merged = manager.get_map(2);
    assert_eq!(&merged[0..6], &[255, 0, 0, 0, 255, 0]);
    assert_eq!(manager.get_map(-1), merged);
    assert_eq!(manager.get_map(i32::MIN), merged);
    assert_eq!(manager.get_map(0), [0u8, 255, 0].repeat(90));
    assert_eq!(manager.get_map(1), [255u8, 0, 0].repeat(90));
}

#[test]
fn get_map_does_not_advance_the_animation() {
    let mut manager = EffectManager::new_at(0);
    manager.push_effect(
        LayerEffect::BreathSingle(BreathSingle::new(KeyColour { red: 200, green: 0, blue: 0 }, 4)),
        &[true; 90],
    );
    manager.composite(1).expect("one layer renders");
    assert_eq!(manager.get_map(0)[0], 50);
    assert_eq!(manager.get_map(0)[0], 50);
    let frame = manager.composite(2).expect("one layer renders");
    assert_eq!(frame.get_key_at(0).red, 50);
}

#[test]
fn save_then_restore_reproduces_composite() {
    let mut manager = EffectManager::new_at(0);
    manager.push_effect(solid(GREEN), &claim(&[1, 2, 3]));
    manager.push_effect(
        LayerEffect::WaveGradient(WaveGradient::new(BLACK, KeyColour { red: 140, green: 70, blue: 14 })),
        &claim(&[0, 1, 15, 16, 30, 31]),
    );
    manager.push_effect(
        LayerEffect::BreathSingle(BreathSingle::new(KeyColour { red: 200, green: 100, blue: 50 }, 3)),
        &claim(&[1, 89]),
    );
    manager.push_effect(solid(RED), &[false; 90]);
    for tick in 0..5u128 {
        manager.composite(tick).expect("layers render");
    }
    let saved = manager.save();
    assert_eq!(saved.len(), 4);
    assert_eq!(saved[0].enabled_keys, [true; 90]);
    assert_eq!(saved[1].enabled_keys, claim(&[0, 1, 15, 16, 30, 31]));
    assert_eq!(saved[3].enabled_keys, [false; 90]);

    let mut fresh = EffectManager::new_at(0);
    fresh.restore(&saved);
    assert_eq!(fresh.get_effect_layer_count(), 4);
    for tick in 5..40u128 {
        let a = manager.composite(tick).expect("layers render");
        let b = fresh.composite(tick).expect("layers render");
        assert_eq!(keys_of(&a), keys_of(&b));
    }
    fresh.pop_effect();
    fresh.pop_effect();
    manager.pop_effect();
    manager.pop_effect();
    let a = manager.composite(41).expect("layers render");
    let b = fresh.composite(41).expect("layers render");
    assert_eq!(keys_of(&a), keys_of(&b));
}

#[test]
fn restore_pushes_onto_what_is_there() {
    let mut manager = EffectManager::new_at(0);
    manager.push_effect(solid(GREEN), &[true; 90]);
    let mut other = EffectManager::new_at(0);
    other.push_effect(solid(BLACK), &[true; 90]);
    other.push_effect(solid(RED), &claim(&[7]));
    manager.restore(&other.save());
    assert_eq!(manager.get_effect_layer_count(), 3);
    let frame = manager.composite(1).expect("layers render");
    assert_eq!(frame.get_key_at(7), RED);
    assert_eq!(frame.get_key_at(8), BLACK);
}

#[test]
fn saving_an_empty_manager_saves_nothing() {
    let manager = EffectManager::new_at(0);
    assert!(manager.save().is_empty());
    let mut fresh = EffectManager::new_at(0);
    fresh.restore(&Vec::new());
    assert_eq!(fresh.get_effect_layer_count(), 0);
}

#[test]
fn effects_are_built_by_name() {
    let params = vec![10u8, 20, 30, 40, 50, 60, 70];
    match LayerEffect::from_name(&"static".to_string(), &params) {
        Some(LayerEffect::Static(e)) => {
            assert_eq!(keys_of(&e.kbd), vec![KeyColour { red: 10, green: 20, blue: 30 }; 90])
        }
        other => panic!("not a static effect: {:?}", other),
    }
    match LayerEffect::from_name(&"static_gradient".to_string(), &params) {
        Some(LayerEffect::StaticGradient(e)) => {
            assert_eq!(e.start, KeyColour { red: 10, green: 20, blue: 30 });
            assert_eq!(e.end, KeyColour { red: 40, green: 50, blue: 60 });
        }
        other => panic!("not a static gradient: {:?}", other),
    }
    match LayerEffect::from_name(&"wave_gradient".to_string(), &params) {
        Some(LayerEffect::WaveGradient(e)) => {
            assert_eq!(e.start, KeyColour { red: 10, green: 20, blue: 30 });
            assert_eq!(e.end, KeyColour { red: 40, green: 50, blue: 60 });
            assert_eq!(e.phase, 0);
        }
        other => panic!("not a wave gradient: {:?}", other),
    }
    match LayerEffect::from_name(&"breathing_single".to_string(), &params) {
        Some(LayerEffect::BreathSingle(e)) => {
            assert_eq!(e.colour, KeyColour { red: 10, green: 20, blue: 30 });
            assert_eq!(e.duration, 40);
            assert_eq!(e.step, 0);
        }
        other => panic!("not a breathing effect: {:?}", other),
    }
}

#[test]
fn unknown_names_and_short_parameters_build_nothing() {
    let params = vec![1u8, 2, 3, 4, 5, 6];
    assert!(LayerEffect::from_name(&"".to_string(), &params).is_none());
    assert!(LayerEffect::from_name(&"Static".to_string(), &params).is_none());
    assert!(LayerEffect::from_name(&"static ".to_string(), &params).is_none());
    assert!(LayerEffect::from_name(&"wave".to_string(), &params).is_none());
    assert!(LayerEffect::from_name(&"static".to_string(), &vec![1, 2]).is_none());
    assert!(LayerEffect::from_name(&"static".to_string(), &vec![1, 2, 3]).is_some());
    assert!(LayerEffect::from_name(&"static_gradient".to_string(), &vec![1, 2, 3, 4, 5]).is_none());
    assert!(LayerEffect::from_name(&"wave_gradient".to_string(), &vec![1, 2, 3, 4, 5]).is_none());
    assert!(LayerEffect::from_name(&"breathing_single".to_string(), &vec![1, 2, 3]).is_none());
    assert!(LayerEffect::from_name(&"breathing_single".to_string(), &vec![1, 2, 3, 0]).is_some());
}
