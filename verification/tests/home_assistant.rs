use myrtio_light::ha::client::{
    dispatch, format_i32, parse_number_payload, Dispatch, HaError, Registry,
};
use myrtio_light::ha::device::Device;
use myrtio_light::ha::light::{ColorMode, LightBuilder, LightCommand, LightEntity, LightState, RgbColor};
use myrtio_light::ha::number::NumberState;
use myrtio_light::topic::{command_topic, config_topic, state_topic, unique_id, DEFAULT_TOPIC_SIZE};

#[test]
fn topics_have_documented_formats() {
    assert_eq!(
        config_topic::<DEFAULT_TOPIC_SIZE>("light", "dev1", "lamp"),
        "homeassistant/light/dev1_lamp/config"
    );
    assert_eq!(state_topic::<DEFAULT_TOPIC_SIZE>("myrtio", "lamp"), "myrtio/lamp");
    assert_eq!(command_topic::<DEFAULT_TOPIC_SIZE>("myrtio", "lamp"), "myrtio/lamp/set");
    assert_eq!(unique_id::<DEFAULT_TOPIC_SIZE>("dev1", "lamp"), "dev1_lamp");
}

#[test]
fn topics_drop_pieces_that_do_not_fit() {
    assert_eq!(config_topic::<20>("light", "dev1", "lamp"), "homeassistant/light/");
    assert_eq!(config_topic::<22>("light", "dev1", "lamp"), "homeassistant/light/_");
    assert_eq!(state_topic::<4>("ns", "entity"), "ns/");
    assert_eq!(command_topic::<8>("ns", "ent"), "ns/ent");
    assert_eq!(unique_id::<0>("a", "b"), "");
}

#[test]
fn light_entity_topics() {
    let device = Device::new("kitchen", "Kitchen Light");
    let entity = LightEntity {
        name: "Light",
        device: &device,
        icon: None,
        brightness: true,
        color_modes: &[ColorMode::Rgb],
        effects: None,
        min_mireds: None,
        max_mireds: None,
        optimistic: true,
    };
    assert_eq!(entity.unique_id::<64>(), "kitchen_light");
    assert_eq!(entity.state_topic::<64>(), "kitchen/light");
    assert_eq!(entity.command_topic::<64>(), "kitchen/light/set");
    assert_eq!(entity.config_topic::<64>(), "homeassistant/light/kitchen_light/config");
}

#[test]
fn color_mode_names() {
    assert_eq!(ColorMode::Onoff.as_str(), "onoff");
    assert_eq!(ColorMode::Brightness.as_str(), "brightness");
    assert_eq!(ColorMode::ColorTemp.as_str(), "color_temp");
    assert_eq!(ColorMode::Rgb.as_str(), "rgb");
}

#[test]
fn device_builder_defaults_name_to_id() {
    let d = Device::builder("dev").build();
    assert_eq!(d.id, "dev");
    assert_eq!(d.name, "dev");
    assert_eq!(d.identifiers, ["dev"]);
    let e = Device::builder("dev").name("Desk").manufacturer("M").model("X").sw_version("1.0").build();
    assert_eq!(e.name, "Desk");
    assert_eq!(e.manufacturer, Some("M"));
    assert_eq!(e.model, Some("X"));
    assert_eq!(e.sw_version, Some("1.0"));
    let n = Device::new("a", "b");
    assert_eq!(n.manufacturer, None);
}

#[test]
fn light_builder_sets_fields() {
    let device = Device::new("dev", "Dev");
    let modes = [ColorMode::Rgb, ColorMode::ColorTemp];
    let effects = ["static", "rainbow"];
    let reg = LightBuilder::new(&device)
        .icon("mdi:lightbulb")
        .brightness(true)
        .color_modes(&modes)
        .effects(&effects)
        .mireds_range(153, 500)
        .provide_state(|| LightState::off())
        .on_command(|_c: &LightCommand| 7u8)
        .build();
    assert_eq!(reg.entity.name, "light");
    assert_eq!(reg.entity.icon, Some("mdi:lightbulb"));
    assert!(reg.entity.brightness);
    assert_eq!(reg.entity.color_modes.len(), 2);
    assert_eq!(reg.entity.effects.map(|e| e.len()), Some(2));
    assert_eq!(reg.entity.min_mireds, Some(153));
    assert_eq!(reg.entity.max_mireds, Some(500));
    assert!(reg.entity.optimistic);
    assert_eq!((reg.provide_state)().state, "OFF");
    let cmd = LightCommand { state: None, brightness: None, color_temp: None, color: None, effect: None };
    assert_eq!((reg.on_command)(&cmd), 7);
    let named = LightBuilder::new(&device)
        .name("Desk")
        .provide_state(|| LightState::on())
        .on_command(|_c: &LightCommand| ())
        .build();
    assert_eq!(named.entity.name, "Desk");
}

#[test]
fn light_state_builders() {
    let s = LightState::on().brightness(12).rgb(1, 2, 3).effect("rainbow");
    assert_eq!(s.state, "ON");
    assert_eq!(s.brightness, Some(12));
    assert_eq!(s.color, Some(RgbColor::new(1, 2, 3)));
    assert_eq!(s.color_mode, Some("rgb"));
    assert_eq!(s.effect, Some("rainbow"));
    let t = LightState::off().color_temp(300);
    assert_eq!(t.state, "OFF");
    assert_eq!(t.color_temp, Some(300));
    assert_eq!(t.color_mode, Some("color_temp"));
    assert_eq!(t.brightness, None);
}

#[test]
fn light_command_on_off() {
    let mut c = LightCommand { state: Some("ON"), brightness: None, color_temp: None, color: None, effect: None };
    assert!(c.is_on());
    assert!(!c.is_off());
    c.state = Some("OFF");
    assert!(c.is_off());
    assert!(!c.is_on());
    c.state = Some("on");
    assert!(!c.is_on());
    c.state = None;
    assert!(!c.is_on() && !c.is_off());
}

#[test]
fn registry_refuses_when_full() {
    let mut r: Registry<u8, 2> = Registry::new();
    assert_eq!(r.len(), 0);
    assert_eq!(r.add::<()>(1), Ok(()));
    assert_eq!(r.add::<()>(2), Ok(()));
    assert_eq!(r.add::<()>(3), Err(HaError::MaxEntitiesReached));
    assert_eq!(r.items(), &vec![1, 2]);
    assert_eq!(r.len(), 2);
}

#[test]
fn number_payloads() {
    assert_eq!(parse_number_payload(b"42"), Some(42));
    assert_eq!(parse_number_payload(b"  -17\r\n"), Some(-17));
    assert_eq!(parse_number_payload(b"+7"), Some(7));
    assert_eq!(parse_number_payload(b"-2147483648"), Some(i32::MIN));
    assert_eq!(parse_number_payload(b"2147483647"), Some(i32::MAX));
    assert_eq!(parse_number_payload(b"2147483648"), None);
    assert_eq!(parse_number_payload(b"4.5"), None);
    assert_eq!(parse_number_payload(b"- 5"), None);
    assert_eq!(parse_number_payload(b""), None);
    assert_eq!(parse_number_payload(b"   "), None);
    assert_eq!(parse_number_payload(&[0xff, 0x31]), None);
}

#[test]
fn format_i32_writes_decimal() {
    let mut buf = [0u8; 11];
    let n = format_i32(-12345, &mut buf);
    assert_eq!(&buf[..n], b"-12345");
    let n = format_i32(i32::MIN, &mut buf);
    assert_eq!(&buf[..n], b"-2147483648");
    let mut small = [b'x'; 3];
    let n = format_i32(-12345, &mut small);
    assert_eq!(n, 1);
    assert_eq!(&small, b"-xx");
    let n = format_i32(12345, &mut small);
    assert_eq!(n, 0);
    let n = format_i32(0, &mut small);
    assert_eq!(&small[..n], b"0");
}

#[test]
fn formatted_numbers_parse_back() {
    for v in [0, 1, -1, 9, 10, 99, -100, 65535, i32::MAX, i32::MIN] {
        let mut buf = [0u8; 16];
        let n = format_i32(v, &mut buf);
        assert_eq!(parse_number_payload(&buf[..n]), Some(v));
    }
}

#[test]
fn dispatch_routes_by_topic() {
    let lights = vec![String::from("dev/light/set"), String::from("dev/light2/set")];
    let numbers = vec![String::from("dev/speed/set"), String::from("dev/light2/set")];
    assert_eq!(dispatch("dev/light2/set", b"{}", &lights, &numbers, true), Dispatch::Light(1));
    assert_eq!(dispatch("dev/light2/set", b"12", &lights, &numbers, false), Dispatch::Number(1, 12));
    assert_eq!(dispatch("dev/speed/set", b" 30 ", &lights, &numbers, false), Dispatch::Number(0, 30));
    assert_eq!(dispatch("dev/speed/set", b"fast", &lights, &numbers, false), Dispatch::Unhandled);
    assert_eq!(dispatch("dev/other", b"1", &lights, &numbers, true), Dispatch::Unhandled);
    assert_eq!(dispatch("dev/light/set", b"{", &lights, &numbers, false), Dispatch::Unhandled);
}

#[test]
fn number_state_holds_value() {
    assert_eq!(NumberState::new(-3).value, -3);
}
