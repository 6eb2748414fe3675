use launcher_core::fps_unlocker::FpsUnlocker;
use launcher_core::json::ConfigValue;
use launcher_core::launcher::{GameEdition, Launcher};
use launcher_core::text::str_eq;
use launcher_core::window_type::WindowType;

fn object(entries: Vec<(&str, ConfigValue)>) -> ConfigValue {
    ConfigValue::Object(
        entries
            .into_iter()
            .map(|(k, v)| (k.to_string(), v))
            .collect(),
    )
}

fn text(s: &str) -> ConfigValue {
    ConfigValue::Text(s.to_string())
}

#[test]
fn str_eq_compares_characters() {
    assert!(str_eq("", ""));
    assert!(str_eq("abc", "abc"));
    assert!(!str_eq("abc", "abd"));
    assert!(!str_eq("abc", "ab"));
    assert!(str_eq("zh_CN", "zh_CN"));
}

#[test]
fn lookup_returns_the_first_match() {
    let v = object(vec![
        ("key", ConfigValue::UInt(1)),
        ("key", ConfigValue::UInt(2)),
    ]);
    assert_eq!(v.get("key").and_then(|n| n.as_u64()), Some(1));
    assert!(v.get("other").is_none());
    assert!(ConfigValue::Null.get("key").is_none());
}

#[test]
fn accessors_reject_other_shapes() {
    assert_eq!(text("x").as_str().map(|s| s.as_str()), Some("x"));
    assert_eq!(ConfigValue::Bool(true).as_bool(), Some(true));
    assert_eq!(ConfigValue::UInt(7).as_u64(), Some(7));
    assert!(ConfigValue::Null.is_null());
    assert_eq!(ConfigValue::Bool(true).as_u64(), None);
    assert_eq!(ConfigValue::UInt(7).as_str(), None);
    assert_eq!(text("x").as_bool(), None);
    assert!(!text("x").is_null());
    assert_eq!(ConfigValue::Other.as_u64(), None);
}

#[test]
fn fps_unlocker_defaults() {
    let d = FpsUnlocker::defaults("/data/launcher");
    assert_eq!(d.path, "/data/launcher/fps-unlocker");
    assert!(!d.enabled);
}

#[test]
fn fps_unlocker_merges_named_fields() {
    let d = FpsUnlocker::defaults("/data/launcher");
    let merged = d.merged_with(&object(vec![
        ("path", text("/custom")),
        ("enabled", ConfigValue::Bool(true)),
    ]));
    assert_eq!(merged.path, "/custom");
    assert!(merged.enabled);
}

#[test]
fn fps_unlocker_keeps_defaults_on_wrong_shapes() {
    let d = FpsUnlocker::defaults("/data/launcher");
    let merged = d.merged_with(&object(vec![
        ("path", ConfigValue::UInt(3)),
        ("enabled", text("yes")),
    ]));
    assert_eq!(merged.path, "/data/launcher/fps-unlocker");
    assert!(!merged.enabled);
}

#[test]
fn launcher_defaults() {
    let d = Launcher::defaults(Some("/tmp/dl".to_string()), GameEdition::Global);
    assert_eq!(d.language, "en-us");
    assert_eq!(d.temp.as_deref(), Some("/tmp/dl"));
    assert_eq!(d.speed_limit, 0);
    assert_eq!(d.edition, GameEdition::Global);
}

#[test]
fn launcher_merges_named_fields() {
    let d = Launcher::defaults(Some("/tmp/dl".to_string()), GameEdition::Global);
    let merged = d.merged_with(&object(vec![
        ("language", text("fr-fr")),
        ("temp", text("/elsewhere")),
        ("speed_limit", ConfigValue::UInt(4096)),
        ("edition", text("China")),
    ]));
    assert_eq!(merged.language, "fr-fr");
    assert_eq!(merged.temp.as_deref(), Some("/elsewhere"));
    assert_eq!(merged.speed_limit, 4096);
    assert_eq!(merged.edition, GameEdition::China);
}

#[test]
fn launcher_null_temp_unsets_the_directory() {
    let d = Launcher::defaults(Some("/tmp/dl".to_string()), GameEdition::Global);
    let merged = d.merged_with(&object(vec![("temp", ConfigValue::Null)]));
    assert_eq!(merged.temp, None);
}

#[test]
fn launcher_keeps_defaults_on_wrong_shapes() {
    let d = Launcher::defaults(Some("/tmp/dl".to_string()), GameEdition::China);
    let merged = d.merged_with(&object(vec![
        ("language", ConfigValue::UInt(1)),
        ("temp", ConfigValue::Bool(false)),
        ("speed_limit", text("fast")),
        ("edition", text("Mars")),
    ]));
    assert_eq!(merged.language, "en-us");
    assert_eq!(merged.temp.as_deref(), Some("/tmp/dl"));
    assert_eq!(merged.speed_limit, 0);
    assert_eq!(merged.edition, GameEdition::China);
}

#[test]
fn window_type_default_is_borderless() {
    assert_eq!(WindowType::default(), WindowType::Borderless);
}

#[test]
fn window_type_reads_both_variants() {
    assert_eq!(WindowType::from_value(&text("Borderless")), WindowType::Borderless);
    assert_eq!(WindowType::from_value(&text("Fullscreen")), WindowType::Fullscreen);
    assert_eq!(WindowType::from_value(&text("floating")), WindowType::Borderless);
    assert_eq!(WindowType::from_value(&ConfigValue::UInt(1)), WindowType::Borderless);
}

#[test]
fn game_edition_from_locale() {
    assert_eq!(GameEdition::from_locale("zh_CN.UTF-8"), GameEdition::China);
    assert_eq!(GameEdition::from_locale("zh_cn"), GameEdition::China);
    assert_eq!(GameEdition::from_locale("ZH_cn@variant"), GameEdition::China);
    assert_eq!(GameEdition::from_locale("en_US.UTF-8"), GameEdition::Global);
    assert_eq!(GameEdition::from_locale("zh"), GameEdition::Global);
    assert_eq!(GameEdition::from_locale("zh-CN"), GameEdition::Global);
    assert_eq!(GameEdition::from_locale(""), GameEdition::Global);
}

#[test]
fn game_edition_from_value() {
    let fallback = GameEdition::Global;
    assert_eq!(GameEdition::from_value(&text("China"), fallback), GameEdition::China);
    assert_eq!(GameEdition::from_value(&text("Global"), GameEdition::China), GameEdition::Global);
    assert_eq!(GameEdition::from_value(&text("china"), fallback), fallback);
    assert_eq!(GameEdition::from_value(&ConfigValue::Null, GameEdition::China), GameEdition::China);
}
