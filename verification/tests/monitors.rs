use razer_control::effects::{BreathSingle, LayerEffect, StaticEffect};
use razer_control::manager::EffectManager;
use razer_control::daemon::init_effect_manager;
use razer_control::monitors::{
    animator_tick, animator_tick_at, react, watches_after_poll, AcChange, LightChange, Reaction,
    SystemEvent, WatchRequest,
};
use razer_control::rgb::KeyColour;

const GREEN: KeyColour = KeyColour { red: 0, green: 255, blue: 0 };

fn light(change: LightChange) -> Reaction {
    Reaction { ac: AcChange::Keep, light: change }
}

#[test]
fn display_power_save_switches_the_light() {
    assert_eq!(react(SystemEvent::PowerSaveMode(3), 1, 2), light(LightChange::Off));
    assert_eq!(react(SystemEvent::PowerSaveMode(0), 1, 2), light(LightChange::Restore));
    for mode in [1, 2, 4, -1, i32::MAX, i32::MIN] {
        assert_eq!(react(SystemEvent::PowerSaveMode(mode), 1, 2), light(LightChange::Keep));
    }
}

#[test]
fn idle_and_activity_watches_switch_the_light() {
    assert_eq!(react(SystemEvent::WatchFired { id: 11 }, 11, 12), light(LightChange::Off));
    assert_eq!(react(SystemEvent::WatchFired { id: 12 }, 11, 12), light(LightChange::Restore));
    assert_eq!(react(SystemEvent::WatchFired { id: 13 }, 11, 12), light(LightChange::Keep));
    assert_eq!(react(SystemEvent::WatchFired { id: 0 }, 11, 12), light(LightChange::Keep));
}

#[test]
fn idle_watch_wins_where_both_watches_share_an_id() {
    assert_eq!(react(SystemEvent::WatchFired { id: 5 }, 5, 5), light(LightChange::Off));
}

#[test]
fn screen_saver_switches_the_light() {
    assert_eq!(react(SystemEvent::ScreenSaverActive(true), 1, 2), light(LightChange::Off));
    assert_eq!(react(SystemEvent::ScreenSaverActive(false), 1, 2), light(LightChange::Restore));
}

#[test]
fn mains_power_is_noted_and_leaves_the_light() {
    assert_eq!(
        react(SystemEvent::AcOnline(true), 1, 2),
        Reaction { ac: AcChange::Note(true), light: LightChange::Keep }
    );
    assert_eq!(
        react(SystemEvent::AcOnline(false), 1, 2),
        Reaction { ac: AcChange::Note(false), light: LightChange::Keep }
    );
}

#[test]
fn battery_charge_changes_nothing() {
    assert_eq!(react(SystemEvent::BatteryPercentage, 1, 2), light(LightChange::Keep));
}

#[test]
fn sleep_and_resume_refresh_the_power_source_and_switch_the_light() {
    assert_eq!(
        react(SystemEvent::PrepareForSleep { start: true }, 1, 2),
        Reaction { ac: AcChange::Refresh, light: LightChange::Off }
    );
    assert_eq!(
        react(SystemEvent::PrepareForSleep { start: false }, 1, 2),
        Reaction { ac: AcChange::Refresh, light: LightChange::Restore }
    );
}

#[test]
fn watches_are_set_again_after_a_poll() {
    assert_eq!(watches_after_poll(Some(true)), WatchRequest { add_active: true, add_idle: true });
    assert_eq!(watches_after_poll(Some(false)), WatchRequest { add_active: false, add_idle: true });
    assert_eq!(watches_after_poll(None), WatchRequest { add_active: false, add_idle: false });
}

#[test]
fn animator_renders_only_with_light_control_and_a_device() {
    let mut manager = EffectManager::new_at(0);
    manager.push_effect(
        LayerEffect::BreathSingle(BreathSingle::new(KeyColour { red: 200, green: 0, blue: 0 }, 4)),
        &[true; 90],
    );
    assert!(animator_tick_at(false, true, &mut manager, 100).is_none());
    assert!(animator_tick_at(true, false, &mut manager, 100).is_none());
    assert!(animator_tick_at(false, false, &mut manager, 100).is_none());
    assert!(animator_tick(false, true, &mut manager).is_none());
    assert!(animator_tick(true, false, &mut manager).is_none());
    let frame = animator_tick_at(true, true, &mut manager, 100).expect("a frame is due");
    assert_eq!(frame.get_key_at(0).red, 0);
    assert!(animator_tick_at(true, true, &mut manager, 132).is_none());
    let frame = animator_tick_at(true, true, &mut manager, 133).expect("a frame is due");
    assert_eq!(frame.get_key_at(0).red, 50);
}

#[test]
fn animator_renders_nothing_without_layers() {
    let mut manager = EffectManager::new_at(0);
    assert!(animator_tick_at(true, true, &mut manager, 1_000).is_none());
}

#[test]
fn daemon_starts_green_without_a_saved_session() {
    let mut manager = init_effect_manager(None);
    assert_eq!(manager.get_effect_layer_count(), 1);
    let frame = manager.composite(0).expect("one layer renders");
    for k in 0..90 {
        assert_eq!(frame.get_key_at(k), GREEN);
    }
}

#[test]
fn daemon_starts_with_the_saved_session() {
    let mut before = EffectManager::new_at(0);
    before.push_effect(LayerEffect::Static(StaticEffect::new(1, 2, 3)), &[true; 90]);
    let mut keys = [false; 90];
    keys[5] = true;
    before.push_effect(LayerEffect::Static(StaticEffect::new(4, 5, 6)), &keys);
    let mut manager = init_effect_manager(Some(before.save()));
    assert_eq!(manager.get_effect_layer_count(), 2);
    let frame = manager.composite(0).expect("layers render");
    assert_eq!(frame.get_key_at(5), KeyColour { red: 4, green: 5, blue: 6 });
    assert_eq!(frame.get_key_at(6), KeyColour { red: 1, green: 2, blue: 3 });
}

#[test]
fn daemon_starts_empty_from_an_empty_session() {
    let mut manager = init_effect_manager(Some(Vec::new()));
    assert_eq!(manager.get_effect_layer_count(), 0);
    assert!(manager.composite(0).is_none());
}
