use ime_cursor_indicator::config::{
    config_file_path, default_style, file_config_from_document, load_file_config,
    parse_i32_value, parse_opacity_value, parse_poll_ms_value, parse_positive_i32_value,
    parse_section, parse_style_override_table, resolve_app_config, CliArgs, CliDimension,
    ConfigWarning, FileConfig, Opacity, OverlayStyle, StyleOverride, ValueProblem,
    DEFAULT_OPACITY_BITS,
};
use ime_cursor_indicator::config_value::{table_get, ConfigValue, ValueKind};
use std::path::PathBuf;

fn table(entries: Vec<(&str, ConfigValue)>) -> Vec<(String, ConfigValue)> {
    entries.into_iter().map(|(k, v)| (k.to_string(), v)).collect()
}

fn no_cli() -> CliArgs {
    CliArgs { poll_ms: None, offset_x: None, offset_y: None, width: None, height: None, opacity: None }
}

fn value_warning(w: &ConfigWarning) -> (String, ValueProblem) {
    match w {
        ConfigWarning::Value { key, problem } => (key.clone(), *problem),
        other => panic!("unexpected warning {:?}", other),
    }
}

#[test]
fn defaults_are_documented_values() {
    let d = default_style();
    assert_eq!(d.offset_x, 20);
    assert_eq!(d.offset_y, 18);
    assert_eq!(d.width, 34);
    assert_eq!(d.height, 34);
    assert_eq!(d.opacity, Opacity::FloatBits(0.70f64.to_bits()));
    assert_eq!(f64::from_bits(DEFAULT_OPACITY_BITS), 0.70);
    let (cfg, warnings) = resolve_app_config(no_cli(), FileConfig::none());
    assert!(warnings.is_empty());
    assert_eq!(cfg.poll_ms, 75);
    assert_eq!(cfg.on_style, d);
    assert_eq!(cfg.off_style, d);
}

#[test]
fn apply_to_overrides_present_fields() {
    let base = default_style();
    let layer = StyleOverride { offset_x: Some(-5), offset_y: None, width: Some(50), height: None, opacity: Some(Opacity::Integer(1)) };
    let r = layer.apply_to(base);
    assert_eq!(r, OverlayStyle { offset_x: -5, offset_y: 18, width: 50, height: 34, opacity: Opacity::Integer(1) });
    assert_eq!(StyleOverride::empty().apply_to(base), base);
}

#[test]
fn integer_settings() {
    assert_eq!(parse_i32_value(&ConfigValue::Integer(-7), "offset_x").unwrap(), -7);
    let w = parse_i32_value(&ConfigValue::Integer(1 << 40), "offset_x").unwrap_err();
    assert_eq!(value_warning(&w), ("offset_x".to_string(), ValueProblem::OutOfI32Range(1 << 40)));
    let w = parse_i32_value(&ConfigValue::Other(ValueKind::String), "[on].offset_y").unwrap_err();
    assert_eq!(value_warning(&w), ("[on].offset_y".to_string(), ValueProblem::NotInteger(ValueKind::String)));
    let w = parse_i32_value(&ConfigValue::Float(1.5f64.to_bits()), "offset_y").unwrap_err();
    assert_eq!(value_warning(&w).1, ValueProblem::NotInteger(ValueKind::Float));
}

#[test]
fn size_settings_must_be_positive() {
    assert_eq!(parse_positive_i32_value(&ConfigValue::Integer(40), "width").unwrap(), 40);
    let w = parse_positive_i32_value(&ConfigValue::Integer(0), "width").unwrap_err();
    assert_eq!(value_warning(&w), ("width".to_string(), ValueProblem::NotPositive(0)));
    let w = parse_positive_i32_value(&ConfigValue::Integer(-3), "height").unwrap_err();
    assert_eq!(value_warning(&w).1, ValueProblem::NotPositive(-3));
    let w = parse_positive_i32_value(&ConfigValue::Integer(3_000_000_000), "height").unwrap_err();
    assert_eq!(value_warning(&w).1, ValueProblem::OutOfI32Range(3_000_000_000));
}

#[test]
fn poll_interval_setting() {
    assert_eq!(parse_poll_ms_value(&ConfigValue::Integer(60), "poll_ms").unwrap(), 60);
    assert_eq!(parse_poll_ms_value(&ConfigValue::Integer(i64::MAX), "poll_ms").unwrap(), i64::MAX as u64);
    let w = parse_poll_ms_value(&ConfigValue::Integer(0), "poll_ms").unwrap_err();
    assert_eq!(value_warning(&w).1, ValueProblem::NotPositive(0));
    let w = parse_poll_ms_value(&ConfigValue::Other(ValueKind::Boolean), "poll_ms").unwrap_err();
    assert_eq!(value_warning(&w).1, ValueProblem::NotInteger(ValueKind::Boolean));
}

#[test]
fn opacity_setting() {
    assert_eq!(parse_opacity_value(&ConfigValue::Float(0.8f64.to_bits()), "opacity").unwrap(), Opacity::FloatBits(0.8f64.to_bits()));
    assert_eq!(parse_opacity_value(&ConfigValue::Integer(1), "opacity").unwrap(), Opacity::Integer(1));
    let w = parse_opacity_value(&ConfigValue::Other(ValueKind::Array), "opacity").unwrap_err();
    assert_eq!(value_warning(&w).1, ValueProblem::NotFloat(ValueKind::Array));
}

#[test]
fn kind_names_match_toml() {
    let kinds = [
        (ValueKind::String, toml::Value::String("x".into())),
        (ValueKind::Integer, toml::Value::Integer(1)),
        (ValueKind::Float, toml::Value::Float(1.0)),
        (ValueKind::Boolean, toml::Value::Boolean(true)),
        (ValueKind::Array, toml::Value::Array(vec![])),
        (ValueKind::Table, toml::Value::Table(toml::Table::new())),
    ];
    for (k, v) in kinds {
        assert_eq!(k.name(), v.type_str());
    }
    assert_eq!(ValueKind::Datetime.name(), "datetime");
}

#[test]
fn toml_document_is_read() {
    let (file, warnings) = load_file_config("poll_ms = 2.5\noffset_x = \"s\"\nwidth = 7\nopacity = 1\n[on]\noffset_y = -4\nwidth = [1]\n");
    assert_eq!(file.poll_ms, None);
    assert_eq!(file.top.width, Some(7));
    assert_eq!(file.top.opacity, Some(Opacity::Integer(1)));
    assert_eq!(file.on.offset_y, Some(-4));
    assert_eq!(warnings.len(), 3);
    assert_eq!(value_warning(&warnings[0]), ("poll_ms".to_string(), ValueProblem::NotInteger(ValueKind::Float)));
    assert_eq!(value_warning(&warnings[1]), ("offset_x".to_string(), ValueProblem::NotInteger(ValueKind::String)));
    assert_eq!(value_warning(&warnings[2]), ("[on].width".to_string(), ValueProblem::NotInteger(ValueKind::Array)));
    let (_, warnings) = load_file_config("[on.deeper]\nx = 1\n[on]\nheight = true\n");
    assert_eq!(value_warning(&warnings[0]), ("[on].height".to_string(), ValueProblem::NotInteger(ValueKind::Boolean)));
}

#[test]
fn table_lookup_by_key() {
    let t = table(vec![("a", ConfigValue::Integer(1)), ("b", ConfigValue::Table(table(vec![("x", ConfigValue::Integer(-4))])))]);
    assert!(matches!(table_get(&t, "a"), Some(ConfigValue::Integer(1))));
    match table_get(&t, "b") {
        Some(ConfigValue::Table(inner)) => assert!(matches!(table_get(inner, "x"), Some(ConfigValue::Integer(-4)))),
        other => panic!("{:?}", other),
    }
    assert!(table_get(&t, "missing").is_none());
}

#[test]
fn style_table_with_section_labels() {
    let doc = table(vec![("offset_x", ConfigValue::Integer(3)), ("width", ConfigValue::Integer(0)), ("height", ConfigValue::Other(ValueKind::String)), ("opacity", ConfigValue::Float(0.5f64.to_bits()))]);
    let (layer, warnings) = parse_style_override_table(&doc, Some("on"));
    assert_eq!(layer, StyleOverride { offset_x: Some(3), offset_y: None, width: None, height: None, opacity: Some(Opacity::FloatBits(0.5f64.to_bits())) });
    assert_eq!(warnings.len(), 2);
    assert_eq!(value_warning(&warnings[0]), ("[on].width".to_string(), ValueProblem::NotPositive(0)));
    assert_eq!(value_warning(&warnings[1]), ("[on].height".to_string(), ValueProblem::NotInteger(ValueKind::String)));
    let (_, top_warnings) = parse_style_override_table(&doc, None);
    assert_eq!(value_warning(&top_warnings[0]).0, "width");
}

#[test]
fn section_that_is_not_a_table() {
    let doc = table(vec![("on", ConfigValue::Integer(5))]);
    let (layer, warnings) = parse_section(&doc, "on");
    assert_eq!(layer, StyleOverride::empty());
    assert_eq!(value_warning(&warnings[0]), ("[on]".to_string(), ValueProblem::NotTable(ValueKind::Integer)));
    let (layer, warnings) = parse_section(&doc, "off");
    assert_eq!(layer, StyleOverride::empty());
    assert!(warnings.is_empty());
}

#[test]
fn readme_example_file() {
    let (file, warnings) = load_file_config("poll_ms = 60\nopacity = 0.8\noffset_x = 24\n");
    assert!(warnings.is_empty());
    assert_eq!(file.poll_ms, Some(60));
    assert_eq!(file.top.offset_x, Some(24));
    assert_eq!(file.top.opacity, Some(Opacity::FloatBits(0.8f64.to_bits())));
    let (cfg, _) = resolve_app_config(no_cli(), file);
    assert_eq!(cfg.poll_ms, 60);
    assert_eq!(cfg.on_style.offset_x, 24);
    assert_eq!(cfg.off_style.offset_y, 18);
}

#[test]
fn warnings_come_in_key_order() {
    let text = "poll_ms = -1\nwidth = -2\noff = \"x\"\n[on]\nheight = 0\n";
    let (file, warnings) = load_file_config(text);
    assert_eq!(file.poll_ms, None);
    assert_eq!(warnings.len(), 4);
    assert_eq!(value_warning(&warnings[0]), ("poll_ms".to_string(), ValueProblem::NotPositive(-1)));
    assert_eq!(value_warning(&warnings[1]), ("width".to_string(), ValueProblem::NotPositive(-2)));
    assert_eq!(value_warning(&warnings[2]), ("[on].height".to_string(), ValueProblem::NotPositive(0)));
    assert_eq!(value_warning(&warnings[3]), ("[off]".to_string(), ValueProblem::NotTable(ValueKind::String)));
}

#[test]
fn unparsable_file_sets_nothing() {
    let (file, warnings) = load_file_config("poll_ms = [");
    assert_eq!(file, FileConfig::none());
    assert_eq!(warnings.len(), 1);
    let expected = toml::from_str::<toml::Table>("poll_ms = [").unwrap_err().to_string();
    assert!(matches!(&warnings[0], ConfigWarning::Unparsable { message } if *message == expected));
    let (file, warnings) = file_config_from_document(Err("bad".to_string()));
    assert_eq!(file, FileConfig::none());
    assert!(matches!(&warnings[0], ConfigWarning::Unparsable { message } if message == "bad"));
}

#[test]
fn priority_sections_over_cli_over_top_over_defaults() {
    let text = "offset_x = 1\noffset_y = 2\nwidth = 3\n[on]\noffset_x = 100\n[off]\nwidth = 300\n";
    let (file, warnings) = load_file_config(text);
    assert!(warnings.is_empty());
    let cli = CliArgs { poll_ms: None, offset_x: None, offset_y: Some(20), width: Some(30), height: None, opacity: None };
    let (cfg, _) = resolve_app_config(cli, file);
    assert_eq!(cfg.on_style.offset_x, 100);
    assert_eq!(cfg.off_style.offset_x, 1);
    assert_eq!(cfg.on_style.offset_y, 20);
    assert_eq!(cfg.off_style.offset_y, 20);
    assert_eq!(cfg.on_style.width, 30);
    assert_eq!(cfg.off_style.width, 300);
    assert_eq!(cfg.on_style.height, 34);
}

#[test]
fn cli_poll_and_sizes() {
    let (file, _) = load_file_config("poll_ms = 90\n");
    let cli = CliArgs { poll_ms: Some(0), offset_x: None, offset_y: None, width: Some(0), height: Some(-1), opacity: Some(Opacity::FloatBits(2.0f64.to_bits())) };
    let (cfg, warnings) = resolve_app_config(cli, file);
    assert_eq!(cfg.poll_ms, 1);
    assert_eq!(cfg.on_style.width, 34);
    assert_eq!(cfg.on_style.height, 34);
    assert_eq!(cfg.on_style.opacity, Opacity::FloatBits(2.0f64.to_bits()));
    assert_eq!(warnings.len(), 2);
    assert!(matches!(warnings[0], ConfigWarning::CliNotPositive { option: CliDimension::Width }));
    assert!(matches!(warnings[1], ConfigWarning::CliNotPositive { option: CliDimension::Height }));
    let (cfg, _) = resolve_app_config(no_cli(), file);
    assert_eq!(cfg.poll_ms, 90);
}

#[test]
fn config_path_follows_path_join() {
    for home in ["/home/u", "/home/u/", "/", "", "rel"] {
        let expected = PathBuf::from(home).join(".config").join("ime-cursor-indicator").join("config.toml");
        assert_eq!(config_file_path(Some(home)), expected.to_string_lossy());
    }
    assert_eq!(config_file_path(None), "/root/.config/ime-cursor-indicator/config.toml");
}
