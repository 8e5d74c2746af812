//! Builders written the way the const-builder derive expands them: every field is held as an
//! `Option` until `build`, which resolves required and optional fields with the library's
//! field helpers.

use myrtio_light::builder::{is_option_type, optional_field, require_field};

// -----------------------------------------------------------------------------
// Simple struct with scalar fields
// -----------------------------------------------------------------------------

#[derive(Debug, Clone, PartialEq)]
pub struct SimpleEntity {
    pub name: &'static str,
    pub count: u32,
}

#[derive(Clone)]
pub struct SimpleEntityBuilder {
    name: Option<&'static str>,
    count: Option<u32>,
}

impl SimpleEntityBuilder {
    pub const fn new() -> Self {
        Self { name: None, count: None }
    }

    pub const fn name(mut self, value: &'static str) -> Self {
        self.name = Some(value);
        self
    }

    pub const fn count(mut self, value: u32) -> Self {
        self.count = Some(value);
        self
    }

    pub fn build(self) -> SimpleEntity {
        SimpleEntity { name: require_field(self.name), count: require_field(self.count) }
    }
}

impl SimpleEntity {
    pub const fn builder() -> SimpleEntityBuilder {
        SimpleEntityBuilder::new()
    }
}

#[test]
fn simple_entity_builder_works() {
    let entity: SimpleEntity = SimpleEntity::builder().name("test").count(42).build();

    assert_eq!(entity.name, "test");
    assert_eq!(entity.count, 42);
}

#[test]
fn simple_entity_builder_chaining() {
    let entity = SimpleEntity::builder().count(10).name("chained").build();

    assert_eq!(entity.name, "chained");
    assert_eq!(entity.count, 10);
}

// -----------------------------------------------------------------------------
// Struct with Option fields (optional fields)
// -----------------------------------------------------------------------------

#[derive(Debug, Clone, PartialEq)]
pub struct EntityWithOptions {
    pub required_field: u32,
    pub optional_field: Option<u8>,
    pub another_optional: Option<&'static str>,
}

#[derive(Clone)]
pub struct EntityWithOptionsBuilder {
    required_field: Option<u32>,
    optional_field: Option<Option<u8>>,
    another_optional: Option<Option<&'static str>>,
}

impl EntityWithOptionsBuilder {
    pub const fn new() -> Self {
        Self { required_field: None, optional_field: None, another_optional: None }
    }

    pub const fn required_field(mut self, value: u32) -> Self {
        self.required_field = Some(value);
        self
    }

    pub const fn optional_field(mut self, value: Option<u8>) -> Self {
        self.optional_field = Some(value);
        self
    }

    pub const fn another_optional(mut self, value: Option<&'static str>) -> Self {
        self.another_optional = Some(value);
        self
    }

    pub fn build(self) -> EntityWithOptions {
        EntityWithOptions {
            required_field: require_field(self.required_field),
            optional_field: optional_field(self.optional_field),
            another_optional: optional_field(self.another_optional),
        }
    }
}

impl EntityWithOptions {
    pub const fn builder() -> EntityWithOptionsBuilder {
        EntityWithOptionsBuilder::new()
    }
}

#[test]
fn optional_fields_default_to_none() {
    let entity: EntityWithOptions = EntityWithOptions::builder().required_field(100).build();

    assert_eq!(entity.required_field, 100);
    assert_eq!(entity.optional_field, None);
    assert_eq!(entity.another_optional, None);
}

#[test]
fn optional_fields_can_be_set_to_some() {
    let entity: EntityWithOptions = EntityWithOptions::builder()
        .required_field(200)
        .optional_field(Some(42))
        .another_optional(Some("hello"))
        .build();

    assert_eq!(entity.required_field, 200);
    assert_eq!(entity.optional_field, Some(42));
    assert_eq!(entity.another_optional, Some("hello"));
}

#[test]
fn optional_fields_can_be_explicitly_none() {
    let entity: EntityWithOptions = EntityWithOptions::builder()
        .required_field(300)
        .optional_field(None)
        .build();

    assert_eq!(entity.required_field, 300);
    assert_eq!(entity.optional_field, None);
}

// -----------------------------------------------------------------------------
// Struct with lifetime parameters
// -----------------------------------------------------------------------------

#[derive(Debug, Clone, PartialEq)]
pub struct EntityWithLifetime<'a> {
    pub name: &'a str,
    pub value: u32,
    pub description: Option<&'a str>,
}

#[derive(Clone)]
pub struct EntityWithLifetimeBuilder<'a> {
    name: Option<&'a str>,
    value: Option<u32>,
    description: Option<Option<&'a str>>,
}

impl<'a> EntityWithLifetimeBuilder<'a> {
    pub const fn new() -> Self {
        Self { name: None, value: None, description: None }
    }

    pub const fn name(mut self, value: &'a str) -> Self {
        self.name = Some(value);
        self
    }

    pub const fn value(mut self, value: u32) -> Self {
        self.value = Some(value);
        self
    }

    pub const fn description(mut self, value: Option<&'a str>) -> Self {
        self.description = Some(value);
        self
    }

    pub fn build(self) -> EntityWithLifetime<'a> {
        EntityWithLifetime {
            name: require_field(self.name),
            value: require_field(self.value),
            description: optional_field(self.description),
        }
    }
}

impl<'a> EntityWithLifetime<'a> {
    pub const fn builder() -> EntityWithLifetimeBuilder<'a> {
        EntityWithLifetimeBuilder::new()
    }
}

#[test]
fn lifetime_entity_const_construction() {
    let entity: EntityWithLifetime<'static> = EntityWithLifetime::builder()
        .name("lifetime test")
        .value(999)
        .description(Some("with description"))
        .build();

    assert_eq!(entity.name, "lifetime test");
    assert_eq!(entity.value, 999);
    assert_eq!(entity.description, Some("with description"));
}

#[test]
fn lifetime_entity_optional_defaults() {
    let entity: EntityWithLifetime<'static> =
        EntityWithLifetime::builder().name("no desc").value(1).build();

    assert_eq!(entity.name, "no desc");
    assert_eq!(entity.value, 1);
    assert_eq!(entity.description, None);
}

// -----------------------------------------------------------------------------
// Struct similar to a light entity
// -----------------------------------------------------------------------------

#[derive(Debug, Clone, Copy, PartialEq, Eq)]
pub enum ColorMode {
    Rgb,
    ColorTemp,
    Brightness,
}

#[derive(Debug, Clone, PartialEq)]
pub struct LightEntityLike<'a> {
    pub name: &'a str,
    pub device_id: &'static str,
    pub icon: Option<&'a str>,
    pub brightness: bool,
    pub color_modes: &'a [ColorMode],
    pub effects: Option<&'a [&'a str]>,
    pub min_mireds: Option<u16>,
    pub max_mireds: Option<u16>,
    pub optimistic: bool,
}

#[derive(Clone)]
pub struct LightEntityLikeBuilder<'a> {
    name: Option<&'a str>,
    device_id: Option<&'static str>,
    icon: Option<Option<&'a str>>,
    brightness: Option<bool>,
    color_modes: Option<&'a [ColorMode]>,
    effects: Option<Option<&'a [&'a str]>>,
    min_mireds: Option<Option<u16>>,
    max_mireds: Option<Option<u16>>,
    optimistic: Option<bool>,
}

impl<'a> LightEntityLikeBuilder<'a> {
    pub const fn new() -> Self {
        Self {
            name: None,
            device_id: None,
            icon: None,
            brightness: None,
            color_modes: None,
            effects: None,
            min_mireds: None,
            max_mireds: None,
            optimistic: None,
        }
    }

    pub const fn name(mut self, value: &'a str) -> Self {
        self.name = Some(value);
        self
    }

    pub const fn device_id(mut self, value: &'static str) -> Self {
        self.device_id = Some(value);
        self
    }

    pub const fn icon(mut self, value: Option<&'a str>) -> Self {
        self.icon = Some(value);
        self
    }

    pub const fn brightness(mut self, value: bool) -> Self {
        self.brightness = Some(value);
        self
    }

    pub const fn color_modes(mut self, value: &'a [ColorMode]) -> Self {
        self.color_modes = Some(value);
        self
    }

    pub const fn effects(mut self, value: Option<&'a [&'a str]>) -> Self {
        self.effects = Some(value);
        self
    }

    pub const fn min_mireds(mut self, value: Option<u16>) -> Self {
        self.min_mireds = Some(value);
        self
    }

    pub const fn max_mireds(mut self, value: Option<u16>) -> Self {
        self.max_mireds = Some(value);
        self
    }

    pub const fn optimistic(mut self, value: bool) -> Self {
        self.optimistic = Some(value);
        self
    }

    pub fn build(self) -> LightEntityLike<'a> {
        LightEntityLike {
            name: require_field(self.name),
            device_id: require_field(self.device_id),
            icon: optional_field(self.icon),
            brightness: require_field(self.brightness),
            color_modes: require_field(self.color_modes),
            effects: optional_field(self.effects),
            min_mireds: optional_field(self.min_mireds),
            max_mireds: optional_field(self.max_mireds),
            optimistic: require_field(self.optimistic),
        }
    }
}

impl<'a> LightEntityLike<'a> {
    pub const fn builder() -> LightEntityLikeBuilder<'a> {
        LightEntityLikeBuilder::new()
    }
}

static COLOR_MODES: [ColorMode; 2] = [ColorMode::Rgb, ColorMode::Brightness];
static EFFECTS: [&str; 2] = ["rainbow", "pulse"];

#[test]
fn light_entity_like_full_construction() {
    let entity: LightEntityLike<'static> = LightEntityLike::builder()
        .name("Living Room Light")
        .device_id("living_room_01")
        .icon(Some("mdi:lightbulb"))
        .brightness(true)
        .color_modes(&COLOR_MODES)
        .effects(Some(&EFFECTS))
        .min_mireds(Some(153))
        .max_mireds(Some(500))
        .optimistic(false)
        .build();

    assert_eq!(entity.name, "Living Room Light");
    assert_eq!(entity.device_id, "living_room_01");
    assert_eq!(entity.icon, Some("mdi:lightbulb"));
    assert!(entity.brightness);
    assert_eq!(entity.color_modes.len(), 2);
    assert_eq!(entity.effects, Some(EFFECTS.as_slice()));
    assert_eq!(entity.min_mireds, Some(153));
    assert_eq!(entity.max_mireds, Some(500));
    assert!(!entity.optimistic);
}

#[test]
fn light_entity_like_minimal_construction() {
    static EMPTY_MODES: [ColorMode; 0] = [];

    let entity: LightEntityLike<'static> = LightEntityLike::builder()
        .name("Simple Light")
        .device_id("simple_01")
        .brightness(false)
        .color_modes(&EMPTY_MODES)
        .optimistic(true)
        .build();

    assert_eq!(entity.name, "Simple Light");
    assert_eq!(entity.device_id, "simple_01");
    assert_eq!(entity.icon, None);
    assert!(!entity.brightness);
    assert!(entity.color_modes.is_empty());
    assert_eq!(entity.effects, None);
    assert_eq!(entity.min_mireds, None);
    assert_eq!(entity.max_mireds, None);
    assert!(entity.optimistic);
}

// -----------------------------------------------------------------------------
// Builder used at runtime
// -----------------------------------------------------------------------------

#[test]
fn builder_works_at_runtime() {
    let name = String::from("runtime");
    let entity = SimpleEntity::builder()
        .name(Box::leak(name.into_boxed_str()))
        .count(123)
        .build();

    assert_eq!(entity.count, 123);
}

// -----------------------------------------------------------------------------
// Builder types are public and named after the built type
// -----------------------------------------------------------------------------

#[test]
fn builder_type_is_public() {
    let _builder: SimpleEntityBuilder = SimpleEntity::builder();
    let _builder2: EntityWithOptionsBuilder = EntityWithOptions::builder();
    let _builder3: EntityWithLifetimeBuilder<'static> = EntityWithLifetime::builder();
}

#[test]
fn option_fields_are_recognised_by_last_segment() {
    assert!(is_option_type(Some("Option")));
    assert!(!is_option_type(Some("Vec")));
    assert!(!is_option_type(Some("option")));
    assert!(!is_option_type(None));
}
