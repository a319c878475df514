use desk_mascot::json::{from_json, to_json, JsonValue};
use desk_mascot::settings::{
    ImagePaths, Settings, WindowPosition, WindowSize, MAX_ANIMATION_SPEED, MIN_ANIMATION_SPEED,
};
use desk_mascot::store::{
    get_settings, reset_settings, save_document, save_result, ConfigDir, FileState, Removal,
    SettingsError, WriteOutcome,
};

fn to_value(v: &JsonValue) -> serde_json::Value {
    match v {
        JsonValue::Null => serde_json::Value::Null,
        JsonValue::Bool(b) => serde_json::Value::Bool(*b),
        JsonValue::Int(n, _) => serde_json::Value::from(*n),
        JsonValue::Single(bits) => serde_json::Value::Number(
            serde_json::Number::from_f64(f32::from_bits(*bits) as f64).unwrap(),
        ),
        JsonValue::Str(s) => serde_json::Value::String(s.clone()),
        JsonValue::Array(items) => serde_json::Value::Array(items.iter().map(to_value).collect()),
        JsonValue::Object(entries) => {
            let mut map = serde_json::Map::new();
            for (k, v) in entries {
                map.insert(k.clone(), to_value(v));
            }
            serde_json::Value::Object(map)
        }
    }
}

fn from_value(v: &serde_json::Value) -> JsonValue {
    match v {
        serde_json::Value::Null => JsonValue::Null,
        serde_json::Value::Bool(b) => JsonValue::Bool(*b),
        serde_json::Value::Number(n) => match n.as_i64() {
            Some(i) => JsonValue::Int(i, Some((i as f32).to_bits())),
            None => JsonValue::Single((n.as_f64().unwrap() as f32).to_bits()),
        },
        serde_json::Value::String(s) => JsonValue::Str(s.clone()),
        serde_json::Value::Array(items) => JsonValue::Array(items.iter().map(from_value).collect()),
        serde_json::Value::Object(map) => {
            JsonValue::Object(map.iter().map(|(k, v)| (k.clone(), from_value(v))).collect())
        }
    }
}

fn serialize(settings: &Settings) -> String {
    serde_json::to_string(&to_value(&to_json(settings))).unwrap()
}

fn parse(text: &str) -> Result<Settings, String> {
    let value: serde_json::Value = serde_json::from_str(text).map_err(|e| e.to_string())?;
    from_json(&from_value(&value))
}

fn opacity(settings: &Settings) -> f32 {
    f32::from_bits(settings.opacity_bits)
}

fn sample() -> Settings {
    Settings {
        window_position: WindowPosition { x: 150, y: 250 },
        window_size: WindowSize { width: 300, height: 300 },
        animation_speed: 150,
        images: ImagePaths {
            typing1: "path1.png".to_string(),
            typing2: "path2.png".to_string(),
            idle: "idle.png".to_string(),
        },
        opacity_bits: 0.8f32.to_bits(),
        always_on_top: false,
    }
}

#[test]
fn test_window_position_default() {
    let settings = Settings::default();
    assert_eq!(settings.window_position.x, 100);
    assert_eq!(settings.window_position.y, 100);
}

#[test]
fn test_window_size_default() {
    let settings = Settings::default();
    assert_eq!(settings.window_size.width, 200);
    assert_eq!(settings.window_size.height, 200);
}

#[test]
fn test_animation_speed_default() {
    let settings = Settings::default();
    assert_eq!(settings.animation_speed, 200);
    assert!(settings.animation_speed >= 50 && settings.animation_speed <= 500);
}

#[test]
fn test_opacity_default() {
    let settings = Settings::default();
    assert_eq!(opacity(&settings), 1.0);
    assert!(opacity(&settings) >= 0.0 && opacity(&settings) <= 1.0);
}

#[test]
fn test_always_on_top_default() {
    let settings = Settings::default();
    assert_eq!(settings.always_on_top, true);
}

#[test]
fn test_image_paths_default() {
    let settings = Settings::default();
    assert_eq!(settings.images.typing1, "");
    assert_eq!(settings.images.typing2, "");
    assert_eq!(settings.images.idle, "");
}

#[test]
fn test_settings_serialization() {
    let settings = Settings::default();
    let json = serialize(&settings);
    assert!(json.contains("windowPosition"));
    assert!(json.contains("windowSize"));
    assert!(json.contains("animationSpeed"));
    assert!(json.contains("alwaysOnTop"));
}

#[test]
fn test_settings_deserialization() {
    let json = r#"{
        "windowPosition": {"x": 150, "y": 250},
        "windowSize": {"width": 300, "height": 300},
        "animationSpeed": 150,
        "images": {"typing1": "path1.png", "typing2": "path2.png", "idle": "idle.png"},
        "opacity": 0.8,
        "alwaysOnTop": false
    }"#;

    let settings = parse(json).unwrap();
    assert_eq!(settings.window_position.x, 150);
    assert_eq!(settings.window_position.y, 250);
    assert_eq!(settings.window_size.width, 300);
    assert_eq!(settings.window_size.height, 300);
    assert_eq!(settings.animation_speed, 150);
    assert_eq!(settings.images.typing1, "path1.png");
    assert_eq!(settings.images.typing2, "path2.png");
    assert_eq!(settings.images.idle, "idle.png");
    assert_eq!(opacity(&settings), 0.8);
    assert_eq!(settings.always_on_top, false);
}

#[test]
fn test_settings_round_trip() {
    let original = Settings {
        window_position: WindowPosition { x: 123, y: 456 },
        window_size: WindowSize { width: 250, height: 250 },
        animation_speed: 100,
        images: ImagePaths {
            typing1: "test1.png".to_string(),
            typing2: "test2.png".to_string(),
            idle: "idle.png".to_string(),
        },
        opacity_bits: 0.5f32.to_bits(),
        always_on_top: false,
    };

    let json = serialize(&original);
    let deserialized = parse(&json).unwrap();

    assert_eq!(original.window_position.x, deserialized.window_position.x);
    assert_eq!(original.window_position.y, deserialized.window_position.y);
    assert_eq!(original.window_size.width, deserialized.window_size.width);
    assert_eq!(original.window_size.height, deserialized.window_size.height);
    assert_eq!(original.animation_speed, deserialized.animation_speed);
    assert_eq!(original.images.typing1, deserialized.images.typing1);
    assert_eq!(original.images.typing2, deserialized.images.typing2);
    assert_eq!(original.images.idle, deserialized.images.idle);
    assert_eq!(opacity(&original), opacity(&deserialized));
    assert_eq!(original.always_on_top, deserialized.always_on_top);
}

#[test]
fn test_animation_speed_range_validation() {
    let min_speed = 50;
    let max_speed = 500;
    let default_speed = Settings::default().animation_speed;

    assert!(default_speed >= min_speed, "Default animation speed should be >= {}", min_speed);
    assert!(default_speed <= max_speed, "Default animation speed should be <= {}", max_speed);
    assert_eq!(MIN_ANIMATION_SPEED, min_speed);
    assert_eq!(MAX_ANIMATION_SPEED, max_speed);
}

#[test]
fn test_opacity_range_validation() {
    let default_opacity = opacity(&Settings::default());

    assert!(default_opacity >= 0.0, "Default opacity should be >= 0.0");
    assert!(default_opacity <= 1.0, "Default opacity should be <= 1.0");
}

#[test]
fn document_keys_are_camel_case_in_order() {
    match to_json(&sample()) {
        JsonValue::Object(entries) => {
            let keys: Vec<&str> = entries.iter().map(|(k, _)| k.as_str()).collect();
            assert_eq!(
                keys,
                vec!["windowPosition", "windowSize", "animationSpeed", "images", "opacity", "alwaysOnTop"]
            );
        }
        other => panic!("not an object: {:?}", other),
    }
    let text = serialize(&sample());
    assert!(!text.contains("window_position"));
    assert!(!text.contains("always_on_top"));
}

#[test]
fn round_trip_keeps_every_field() {
    let s = sample();
    let back = from_json(&to_json(&s)).unwrap();
    assert_eq!(back, s);
}

#[test]
fn round_trip_keeps_extreme_values() {
    let s = Settings {
        window_position: WindowPosition { x: i32::MIN, y: i32::MAX },
        window_size: WindowSize { width: 0, height: -1 },
        animation_speed: 9000,
        images: ImagePaths { typing1: "a \"quoted\" \u{65e5}".to_string(), typing2: String::new(), idle: "\\".to_string() },
        opacity_bits: 2.5f32.to_bits(),
        always_on_top: true,
    };
    assert_eq!(parse(&serialize(&s)).unwrap(), s);
}

#[test]
fn missing_file_gives_defaults() {
    let r = get_settings(ConfigDir::Ready, FileState::Missing).unwrap();
    assert_eq!(r, Settings::default());
}

#[test]
fn save_then_get_returns_saved_value() {
    let doc = save_document(ConfigDir::Ready, &sample()).unwrap();
    let text = serde_json::to_string_pretty(&to_value(&doc)).unwrap();
    let value: serde_json::Value = serde_json::from_str(&text).unwrap();
    let loaded = get_settings(ConfigDir::Ready, FileState::Document(from_value(&value))).unwrap();
    assert_eq!(loaded, sample());
    assert_eq!(loaded.window_position, WindowPosition { x: 150, y: 250 });
    assert_eq!(opacity(&loaded), 0.8);
}

#[test]
fn reset_then_get_gives_defaults() {
    assert_eq!(reset_settings(Removal::Removed).unwrap(), Settings::default());
    assert_eq!(reset_settings(Removal::NoFile).unwrap(), Settings::default());
    assert_eq!(get_settings(ConfigDir::Ready, FileState::Missing).unwrap(), Settings::default());
}

#[test]
fn malformed_json_is_a_parse_error() {
    let err = serde_json::from_str::<serde_json::Value>("{ not json").unwrap_err().to_string();
    match get_settings(ConfigDir::Ready, FileState::Unparsable(err.clone())) {
        Err(SettingsError::Parse(m)) => assert_eq!(m, err),
        other => panic!("unexpected: {:?}", other),
    }
}

#[test]
fn wrong_shape_is_a_parse_error() {
    let value: serde_json::Value = serde_json::from_str(r#"{"windowPosition": {"x": 1}}"#).unwrap();
    match get_settings(ConfigDir::Ready, FileState::Document(from_value(&value))) {
        Err(SettingsError::Parse(m)) => assert!(m.contains("windowSize")),
        other => panic!("unexpected: {:?}", other),
    }
    assert!(from_json(&JsonValue::Array(Vec::new())).is_err());
}

#[test]
fn integer_out_of_range_is_rejected() {
    let mut text = serialize(&sample());
    text = text.replace("150", "3000000000");
    assert!(parse(&text).is_err());
}

#[test]
fn unknown_members_are_ignored() {
    let mut value = to_value(&to_json(&sample()));
    value.as_object_mut().unwrap().insert("extra".to_string(), serde_json::Value::Null);
    assert_eq!(from_json(&from_value(&value)).unwrap(), sample());
}

#[test]
fn directory_errors_are_reported() {
    match get_settings(ConfigDir::Unresolved("no home".to_string()), FileState::Missing) {
        Err(SettingsError::ConfigDir(m)) => assert_eq!(m, "no home"),
        other => panic!("unexpected: {:?}", other),
    }
    match save_document(ConfigDir::CreateFailed("denied".to_string()), &sample()) {
        Err(SettingsError::CreateDir(m)) => assert_eq!(m, "denied"),
        other => panic!("unexpected: {:?}", other),
    }
    match get_settings(ConfigDir::Ready, FileState::Unreadable("busy".to_string())) {
        Err(SettingsError::Read(m)) => assert_eq!(m, "busy"),
        other => panic!("unexpected: {:?}", other),
    }
}

#[test]
fn write_and_delete_errors_are_reported() {
    assert!(save_result(WriteOutcome::Written).is_ok());
    match save_result(WriteOutcome::WriteFailed("disk full".to_string())) {
        Err(SettingsError::Write(m)) => assert_eq!(m, "disk full"),
        other => panic!("unexpected: {:?}", other),
    }
    match save_result(WriteOutcome::SerializeFailed("bad".to_string())) {
        Err(SettingsError::Serialize(m)) => assert_eq!(m, "bad"),
        other => panic!("unexpected: {:?}", other),
    }
    match reset_settings(Removal::Failed("locked".to_string())) {
        Err(SettingsError::Delete(m)) => assert_eq!(m, "locked"),
        other => panic!("unexpected: {:?}", other),
    }
    match reset_settings(Removal::Unresolved("no home".to_string())) {
        Err(SettingsError::ConfigDir(m)) => assert_eq!(m, "no home"),
        other => panic!("unexpected: {:?}", other),
    }
}

#[test]
fn error_messages_carry_prefix_and_detail() {
    assert_eq!(SettingsError::Parse("eof".to_string()).message(), "Failed to parse settings: eof");
    assert_eq!(
        SettingsError::ConfigDir("x".to_string()).message(),
        "Failed to get config directory: x"
    );
    assert_eq!(
        SettingsError::Delete("y".to_string()).message(),
        "Failed to delete settings file: y"
    );
}

#[test]
fn greeting_names_the_caller() {
    assert_eq!(
        desk_mascot::greeting::greet("Mika"),
        "Hello, Mika! You've been greeted from Rust!"
    );
}

#[test]
fn whole_number_opacity_is_read() {
    let json = r#"{
        "windowPosition": {"x": 1, "y": 2},
        "windowSize": {"width": 3, "height": 4},
        "animationSpeed": 60,
        "images": {"typing1": "", "typing2": "", "idle": ""},
        "opacity": 1,
        "alwaysOnTop": true
    }"#;
    let settings = parse(json).unwrap();
    assert_eq!(opacity(&settings), 1.0);
    let zero = parse(&json.replace("\"opacity\": 1", "\"opacity\": 0")).unwrap();
    assert_eq!(opacity(&zero), 0.0);
}

#[test]
fn integer_member_rejects_a_fraction() {
    let text = serialize(&sample()).replace("150", "150.5");
    assert!(parse(&text).is_err());
}

#[test]
fn repeated_member_is_rejected() {
    let doc = match to_json(&sample()) {
        JsonValue::Object(mut entries) => {
            entries.push(("animationSpeed".to_string(), JsonValue::Int(300, None)));
            JsonValue::Object(entries)
        }
        other => other,
    };
    match get_settings(ConfigDir::Ready, FileState::Document(doc)) {
        Err(SettingsError::Parse(m)) => assert!(m.contains("animationSpeed")),
        other => panic!("unexpected: {:?}", other),
    }
}
