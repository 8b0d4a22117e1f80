use ime_cursor_indicator::ibus::{
    address_from_environment, address_from_socket_file, bus_directory, display_number,
    engine_name_from_signal, extract_engine_name, extract_property_key_and_symbol,
    ibus_match_rules, match_rule, select_socket_entry, socket_suffix, Variant,
};

fn s(t: &str) -> Variant {
    Variant::Str(t.to_string())
}

#[test]
fn environment_address() {
    assert_eq!(address_from_environment(Some("unix:path=/x")), Some("unix:path=/x".to_string()));
    assert_eq!(address_from_environment(Some("")), None);
    assert_eq!(address_from_environment(None), None);
}

#[test]
fn display_numbers() {
    assert_eq!(display_number(":0"), "0");
    assert_eq!(display_number(":1.0"), "1");
    assert_eq!(display_number("::12.3.4"), "12");
    assert_eq!(display_number("host:0.1"), "host:0");
    assert_eq!(display_number(""), "");
}

#[test]
fn socket_suffix_and_directory() {
    assert_eq!(socket_suffix("0123abcd\n", Some(":1.0")), "0123abcd-unix-1");
    assert_eq!(socket_suffix("  id  ", None), "id-unix-0");
    assert_eq!(bus_directory(Some("/home/u")), "/home/u/.config/ibus/bus");
    assert_eq!(bus_directory(None), "/root/.config/ibus/bus");
}

#[test]
fn socket_entry_selection() {
    let names = vec!["other-unix-0".to_string(), "abc-unix-1".to_string(), "xabc-unix-1".to_string()];
    assert_eq!(select_socket_entry(&names, "abc-unix-1"), Some(1));
    assert_eq!(select_socket_entry(&names, "zzz"), None);
    assert_eq!(select_socket_entry(&Vec::new(), "a"), None);
}

#[test]
fn address_in_socket_file() {
    let content = "# This file is created by ibus-daemon, please do not modify it.\n# IBUS_ADDRESS=fake\n  IBUS_ADDRESS=unix:path=/tmp/ibus-1,guid=42\r\nIBUS_DAEMON_PID=99\n";
    assert_eq!(address_from_socket_file(content), Some("unix:path=/tmp/ibus-1,guid=42".to_string()));
    assert_eq!(address_from_socket_file("IBUS_ADDRESS="), Some(String::new()));
    assert_eq!(address_from_socket_file("nothing here\n"), None);
    assert_eq!(address_from_socket_file(""), None);
    assert_eq!(address_from_socket_file("\n\nIBUS_ADDRESS=last"), Some("last".to_string()));
}

#[test]
fn engine_name_in_reply() {
    let desc = Variant::Container(vec![s("IBusEngineDesc"), Variant::Container(vec![]), s("mozc-jp"), s("Mozc")]);
    let reply = Variant::Container(vec![Variant::Container(vec![desc])]);
    assert_eq!(extract_engine_name(&reply), Some("mozc-jp".to_string()));
    let short = Variant::Container(vec![Variant::Container(vec![Variant::Container(vec![s("x")])])]);
    assert_eq!(extract_engine_name(&short), None);
    let not_text = Variant::Container(vec![Variant::Container(vec![Variant::Container(vec![s("a"), s("b"), Variant::Int32(3)])])]);
    assert_eq!(extract_engine_name(&not_text), None);
    let signal = Variant::Container(vec![s("anthy")]);
    assert_eq!(engine_name_from_signal(&signal), Some("anthy".to_string()));
    assert_eq!(engine_name_from_signal(&Variant::Container(vec![Variant::Int32(1)])), None);
}

fn property(key: Variant, symbol_text: Variant, fields: usize) -> Variant {
    let mut items = vec![s("IBusProperty"), Variant::Container(vec![]), key];
    while items.len() < 11 {
        items.push(Variant::Other);
    }
    items.push(Variant::Container(vec![symbol_text]));
    items.truncate(fields);
    Variant::Container(vec![Variant::Container(vec![Variant::Container(items)])])
}

#[test]
fn property_key_and_symbol() {
    let text = Variant::Container(vec![s("IBusText"), Variant::Container(vec![]), s("\u{3042}")]);
    let params = property(s("InputMode"), text, 12);
    assert_eq!(extract_property_key_and_symbol(&params), Some(("InputMode".to_string(), "\u{3042}".to_string())));
    let text = Variant::Container(vec![s("IBusText"), Variant::Container(vec![]), s("A")]);
    assert_eq!(extract_property_key_and_symbol(&property(s("InputMode"), text, 11)), None);
    let short_text = Variant::Container(vec![s("IBusText")]);
    assert_eq!(extract_property_key_and_symbol(&property(s("InputMode"), short_text, 12)), None);
    let text = Variant::Container(vec![s("IBusText"), Variant::Container(vec![]), s("A")]);
    assert_eq!(extract_property_key_and_symbol(&property(Variant::Int32(0), text, 12)), None);
}

#[test]
fn match_rules_for_the_bus() {
    let rules = ibus_match_rules();
    let iface = "interface='org.freedesktop.IBus.InputContext'";
    assert_eq!(rules, vec![
        format!("eavesdrop=true,type='signal',{},member='UpdateProperty'", iface),
        format!("eavesdrop=true,type='method_call',{},member='SetCursorLocation'", iface),
        format!("eavesdrop=true,type='method_call',{},member='FocusIn'", iface),
        format!("eavesdrop=true,type='signal',{},member='FocusIn'", iface),
        format!("eavesdrop=true,type='method_call',{},member='FocusOut'", iface),
        format!("eavesdrop=true,type='signal',{},member='FocusOut'", iface),
    ]);
    assert_eq!(match_rule("signal", "X"), format!("eavesdrop=true,type='signal',{},member='X'", iface));
}
