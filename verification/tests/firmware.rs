use myrtio_light::effect::EffectSlot;
use myrtio_light::firmware::basic_controller::BasicLightController;
use myrtio_light::firmware::command::Command;
use myrtio_light::firmware::intent::{
    apply_intent, DeliveryStep, IntentDelivery, LightChangeIntent, RuntimeLightState,
};
use myrtio_light::firmware::persistence::{PersistenceDebouncer, PersistenceEvent, PersistenceWait};
use myrtio_light::firmware::ha_controller::{
    get_effect_name, get_light_state, parse_effect, HaLightController,
};
use myrtio_light::firmware::light_state::{ColorMode, LightState, LIGHT_STATE_SIZE, STORAGE_SIZE};
use myrtio_light::gradient::{RainbowEffect, RainbowFlowEffect};
use myrtio_light::ha::light::{LightCommand, RgbColor};
use myrtio_light::state::{EffectId, SharedState};
use myrtio_light::storage::{Encodable, PersistentStorage, StorageError, MAGIC_HEADER};

fn command<'a>(state: Option<&'a str>, brightness: Option<u8>) -> LightCommand<'a> {
    LightCommand { state, brightness, color_temp: None, color: None, effect: None }
}

fn is_brightness(c: &Command, level: u8) -> bool {
    matches!(c, Command::SetBrightness { brightness, duration_ms: 300 } if *brightness == level)
}

#[test]
fn basic_controller_on_off_and_brightness() {
    let mut c = BasicLightController::new();
    assert!(!c.is_on);
    assert_eq!(c.get_light_state().state, "OFF");

    let on = c.handle_light_command(&command(Some("ON"), None)).unwrap();
    assert!(is_brightness(&on, 255));
    assert!(c.is_on);
    let s = c.get_light_state();
    assert_eq!(s.state, "ON");
    assert_eq!(s.brightness, Some(255));

    let dim = c.handle_light_command(&command(None, Some(40))).unwrap();
    assert!(is_brightness(&dim, 40));
    assert_eq!(c.current_brightness, 40);
    assert!(c.is_on);

    let off = c.handle_light_command(&command(Some("OFF"), Some(90))).unwrap();
    assert!(is_brightness(&off, 0));
    assert!(!c.is_on);
    assert_eq!(c.current_brightness, 0);
    let s = c.get_light_state();
    assert_eq!(s.state, "OFF");
    assert_eq!(s.brightness, None);

    assert!(c.handle_light_command(&command(None, None)).is_none());
    assert!(!c.is_on);

    let on_at = c.handle_light_command(&command(Some("ON"), Some(12))).unwrap();
    assert!(is_brightness(&on_at, 12));
}

#[test]
fn effect_names_published() {
    assert_eq!(get_effect_name(EffectId::Rainbow), "rainbow");
    assert_eq!(get_effect_name(EffectId::Static), "static");
    assert_eq!(get_effect_name(EffectId::RainbowFlow), "static");
    assert_eq!(get_effect_name(EffectId::Off), "static");
}

#[test]
fn published_state_follows_shared_state() {
    let mut shared = SharedState::new();
    shared.set_on(false);
    let off = get_light_state(&shared);
    assert_eq!(off.state, "OFF");
    assert_eq!(off.color, None);
    shared.set_on(true);
    shared.set_brightness(128);
    shared.set_rgb(10, 20, 30);
    shared.set_effect(EffectId::Rainbow);
    let on = get_light_state(&shared);
    assert_eq!(on.state, "ON");
    assert_eq!(on.brightness, Some(128));
    assert_eq!(on.color, Some(RgbColor { r: 10, g: 20, b: 30 }));
    assert_eq!(on.color_mode, Some("rgb"));
    assert_eq!(on.effect, Some("rainbow"));
}

#[test]
fn parse_effect_names() {
    assert!(matches!(parse_effect("rainbow"), Some(EffectSlot::Rainbow(e)) if e == RainbowEffect::default_effect()));
    assert!(matches!(parse_effect("rainbow_flow"), Some(EffectSlot::RainbowFlow(e)) if e == RainbowFlowEffect::default_effect()));
    assert!(parse_effect("static").is_none());
    assert!(parse_effect("Rainbow").is_none());
}

#[test]
fn ha_controller_orders_commands() {
    let mut shared = SharedState::new();
    shared.set_rgb(5, 6, 7);
    let mut c = HaLightController::new();
    assert_eq!(c.target_brightness, 255);
    let cmd = LightCommand {
        state: Some("ON"),
        brightness: Some(100),
        color_temp: None,
        color: Some(RgbColor::new(1, 2, 3)),
        effect: Some("static"),
    };
    let out = c.handle_light_command(&cmd, &shared);
    assert_eq!(out.len(), 3);
    match out[0] {
        Command::SwitchEffect(EffectSlot::Static(e)) => assert_eq!(e.color(), myrtio_light::color::Rgb { r: 5, g: 6, b: 7 }),
        _ => panic!("expected a static effect"),
    }
    assert!(matches!(out[1], Command::SetColor { r: 1, g: 2, b: 3, duration_ms: 300 }));
    assert!(is_brightness(&out[2], 100));
    assert_eq!(c.target_brightness, 100);

    // turning on again restores the remembered brightness
    let again = c.handle_light_command(&command(Some("ON"), None), &shared);
    assert_eq!(again.len(), 1);
    assert!(is_brightness(&again[0], 100));

    let off = c.handle_light_command(&command(Some("OFF"), None), &shared);
    assert_eq!(off.len(), 1);
    assert!(is_brightness(&off[0], 0));

    let rainbow = LightCommand { state: None, brightness: None, color_temp: None, color: None, effect: Some("rainbow") };
    let out = c.handle_light_command(&rainbow, &shared);
    assert_eq!(out.len(), 1);
    assert!(matches!(out[0], Command::SwitchEffect(EffectSlot::Rainbow(_))));

    assert!(c.handle_light_command(&command(None, None), &shared).is_empty());
}

#[test]
fn light_state_encoding() {
    let s = LightState {
        power: true,
        brightness: 200,
        mode_id: 1,
        color_temp: 0x1234,
        color_mode: ColorMode::Temperature,
        color: (1, 2, 3),
    };
    assert_eq!(s.encode(), [1, 200, 1, 0x34, 0x12, 1, 1, 2, 3, 0]);
    let d = LightState::decode(&[7, 9, 0, 0xff, 0x01, 0, 4, 5, 6, 0]).unwrap();
    assert!(d.power);
    assert_eq!(d.brightness, 9);
    assert_eq!(d.mode_id, 0);
    assert_eq!(d.color_temp, 0x01ff);
    assert_eq!(d.color_mode, ColorMode::Rgb);
    assert_eq!(d.color, (4, 5, 6));
    assert!(LightState::decode(&[0u8; 9]).is_none());
    assert_eq!(ColorMode::from_u8(1), Some(ColorMode::Temperature));
    assert_eq!(ColorMode::from_u8(2), None);
    assert_eq!(ColorMode::Rgb.as_u8(), 0);
}

#[test]
fn new_light_state_defaults() {
    let s = LightState::new();
    assert!(s.power);
    assert_eq!(s.brightness, 255);
    assert_eq!(s.mode_id, 1);
    assert_eq!(s.color, (255, 255, 255));
}

#[test]
fn storage_record_round_trip() {
    let storage: PersistentStorage<(), STORAGE_SIZE> = PersistentStorage::new(());
    let s = LightState {
        power: false,
        brightness: 17,
        mode_id: 0,
        color_temp: 370,
        color_mode: ColorMode::Rgb,
        color: (9, 8, 7),
    };
    let record = storage.record_for::<LIGHT_STATE_SIZE, LightState>(&s);
    assert_eq!(record.len(), STORAGE_SIZE);
    assert_eq!(&record[..2], &MAGIC_HEADER.to_le_bytes());
    assert_eq!(&record[2..], &s.encode());
    let back: LightState = storage.load_from::<LIGHT_STATE_SIZE, LightState>(Ok(()), &record).unwrap();
    assert_eq!(back.encode(), s.encode());
}

#[test]
fn storage_load_errors() {
    let storage: PersistentStorage<(), STORAGE_SIZE> = PersistentStorage::new(());
    let record = [0u8; STORAGE_SIZE];
    let r = storage.load_from::<LIGHT_STATE_SIZE, LightState>(Err(StorageError::DriverError), &record);
    assert!(matches!(r, Err(StorageError::DriverError)));
    let r = storage.load_from::<LIGHT_STATE_SIZE, LightState>(Ok(()), &record);
    assert!(matches!(r, Err(StorageError::InvalidMagicHeader)));
    let mut swapped = [0u8; STORAGE_SIZE];
    swapped[0] = 0xBE;
    swapped[1] = 0xEF;
    let r = storage.load_from::<LIGHT_STATE_SIZE, LightState>(Ok(()), &swapped);
    assert!(matches!(r, Err(StorageError::InvalidMagicHeader)));
}

#[test]
fn storage_body_of_another_size_is_invalid_data() {
    let storage: PersistentStorage<(), 14> = PersistentStorage::new(());
    let mut record = [0u8; 14];
    record[0] = 0xEF;
    record[1] = 0xBE;
    let r = storage.load_from::<LIGHT_STATE_SIZE, LightState>(Ok(()), &record);
    assert!(matches!(r, Err(StorageError::InvalidData)));
}


fn runtime(power: bool, brightness: u8, effect_id: u8, color: (u8, u8, u8)) -> RuntimeLightState {
    RuntimeLightState { power, brightness, effect_id, color }
}

#[test]
fn intent_sends_commands_in_order() {
    let mut state = runtime(false, 10, 1, (1, 2, 3));
    let intent = LightChangeIntent { power: Some(true), brightness: Some(80), color: Some((9, 8, 7)), effect: Some(2) };
    let cmds = apply_intent(&mut state, &intent);
    assert_eq!(cmds.len(), 4);
    match cmds[0] {
        // the static effect starts from the color held before the intent
        Command::SwitchEffect(EffectSlot::Static(e)) => assert_eq!(e.color(), myrtio_light::color::Rgb { r: 1, g: 2, b: 3 }),
        _ => panic!("expected a static effect"),
    }
    assert!(matches!(cmds[1], Command::SetColor { r: 9, g: 8, b: 7, duration_ms: 300 }));
    assert!(matches!(cmds[2], Command::SetBrightness { brightness: 80, duration_ms: 400 }));
    assert!(matches!(cmds[3], Command::PowerOn(400)));
    assert!(state.power);
    assert_eq!(state.brightness, 80);
    assert_eq!(state.effect_id, 2);
    assert_eq!(state.color, (9, 8, 7));
}

#[test]
fn intent_power_off_only() {
    let mut state = runtime(true, 10, 1, (1, 2, 3));
    let intent = LightChangeIntent { power: Some(false), brightness: None, color: None, effect: None };
    assert!(intent.is_off());
    assert!(!intent.implies_on());
    let cmds = apply_intent(&mut state, &intent);
    assert_eq!(cmds.len(), 1);
    assert!(matches!(cmds[0], Command::PowerOff(400)));
    assert!(!state.power);
    assert_eq!(state.brightness, 10);
    let none = LightChangeIntent { power: None, brightness: None, color: None, effect: Some(1) };
    let cmds = apply_intent(&mut state, &none);
    assert_eq!(cmds.len(), 1);
    assert!(matches!(cmds[0], Command::SwitchEffect(EffectSlot::Rainbow(_))));
    assert!(!state.power);
}

#[test]
fn restoring_a_stored_state() {
    let stored = runtime(true, 42, 3, (4, 5, 6));
    let mut state = runtime(false, 0, 0, (0, 0, 0));
    let cmds = apply_intent(&mut state, &LightChangeIntent::from_state(stored));
    assert_eq!(cmds.len(), 4);
    assert!(matches!(cmds[0], Command::SwitchEffect(EffectSlot::RainbowFlow(_))));
    assert_eq!(state.power, stored.power);
    assert_eq!(state.brightness, stored.brightness);
    assert_eq!(state.effect_id, stored.effect_id);
    assert_eq!(state.color, stored.color);
}

#[test]
fn persistence_writes_only_the_last_state_of_a_burst() {
    let mut d: PersistenceDebouncer<u8> = PersistenceDebouncer::new();
    assert_eq!(d.waiting_for(), PersistenceWait::NextState);
    assert_eq!(d.on_event(PersistenceEvent::Received(1)), None);
    assert_eq!(d.waiting_for(), PersistenceWait::NextStateOrDelay);
    assert_eq!(d.on_event(PersistenceEvent::Received(2)), None);
    assert_eq!(d.on_event(PersistenceEvent::Received(3)), None);
    assert_eq!(d.on_event(PersistenceEvent::DelayElapsed), Some(3));
    assert_eq!(d.waiting_for(), PersistenceWait::NextState);
    assert_eq!(d.on_event(PersistenceEvent::DelayElapsed), None);
}

#[test]
fn intent_delivery_commits_when_every_send_succeeds() {
    let before = runtime(false, 10, 1, (1, 2, 3));
    let intent = LightChangeIntent { power: Some(true), brightness: Some(80), color: None, effect: None };
    let mut d = IntentDelivery::begin(before, &intent);
    assert!(matches!(d.step(), DeliveryStep::Send(Command::SetBrightness { brightness: 80, duration_ms: 400 })));
    d.record_send(true);
    assert!(matches!(d.step(), DeliveryStep::Send(Command::PowerOn(400))));
    d.record_send(true);
    match d.step() {
        DeliveryStep::Commit(s) => {
            assert!(s.power);
            assert_eq!(s.brightness, 80);
            assert_eq!(s.color, (1, 2, 3));
        }
        _ => panic!("expected a commit"),
    }
}

#[test]
fn intent_delivery_abandons_at_first_failed_send() {
    let before = runtime(false, 10, 1, (1, 2, 3));
    let intent = LightChangeIntent { power: Some(true), brightness: Some(80), color: Some((9, 9, 9)), effect: None };
    let mut d = IntentDelivery::begin(before, &intent);
    assert!(matches!(d.step(), DeliveryStep::Send(Command::SetColor { r: 9, g: 9, b: 9, duration_ms: 300 })));
    d.record_send(false);
    for _ in 0..3 {
        match d.step() {
            DeliveryStep::Abandon(s) => {
                assert!(!s.power);
                assert_eq!(s.brightness, 10);
                assert_eq!(s.color, (1, 2, 3));
            }
            _ => panic!("expected the delivery to stay abandoned"),
        }
    }
}
