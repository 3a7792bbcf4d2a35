use mpx_mqtt::config::{get_config, parse_bool, read_config, Cfg, Fault};

const GOOD: &str = "[MQTT]
address = broker.example
port = 8883
username = bridge
password = SECRET-REDACTED
clientname = mpx
prefix = home/rack
avoid-retained = true

[PDU]
address = 192.0.2.7
username = admin
password = SECRET-REDACTED
";

fn without(line_start: &str) -> String {
    let mut seen = false;
    let mut out = String::new();
    let in_pdu = line_start.starts_with("PDU:");
    let key = line_start.trim_start_matches("PDU:");
    let mut section_is_pdu = false;
    for line in GOOD.lines() {
        if line.starts_with('[') {
            section_is_pdu = line == "[PDU]";
        }
        if !seen && section_is_pdu == in_pdu && line.starts_with(key) {
            seen = true;
            continue;
        }
        out.push_str(line);
        out.push('\n');
    }
    assert!(seen);
    out
}

fn fault_of(text: &str) -> Fault {
    match get_config(text) {
        Ok(cfg) => panic!("no fault found: {:?}", cfg),
        Err(e) => e.fault,
    }
}

#[test]
fn complete_document_is_read() {
    let cfg = get_config(GOOD).unwrap();
    assert_eq!(
        cfg,
        Cfg {
            mqtt_address: "broker.example".to_string(),
            mqtt_port: 8883,
            mqtt_username: "bridge".to_string(),
            mqtt_password: "SECRET-REDACTED".to_string(),
            mqtt_clientname: "mpx".to_string(),
            mqtt_prefix: "home/rack".to_string(),
            mqtt_no_retained: true,
            pdu_address: "192.0.2.7".to_string(),
            pdu_username: "admin".to_string(),
            pdu_password: "SECRET-REDACTED".to_string(),
        }
    );
}

#[test]
fn retained_messages_are_kept_unless_told_otherwise() {
    let cfg = get_config(&without("avoid-retained")).unwrap();
    assert!(!cfg.mqtt_no_retained);
    let cfg = get_config(&GOOD.replace("avoid-retained = true", "avoid-retained = false")).unwrap();
    assert!(!cfg.mqtt_no_retained);
}

#[test]
fn each_missing_key_is_named() {
    assert_eq!(fault_of(&without("address")), Fault::MqttAddress);
    assert_eq!(fault_of(&without("port")), Fault::MqttPort);
    assert_eq!(fault_of(&without("username")), Fault::MqttUsername);
    assert_eq!(fault_of(&without("password")), Fault::MqttPassword);
    assert_eq!(fault_of(&without("clientname")), Fault::MqttClientname);
    assert_eq!(fault_of(&without("prefix")), Fault::MqttPrefix);
    assert_eq!(fault_of(&without("PDU:address")), Fault::PduAddress);
    assert_eq!(fault_of(&without("PDU:username")), Fault::PduUsername);
    assert_eq!(fault_of(&without("PDU:password")), Fault::PduPassword);
}

#[test]
fn missing_sections_are_named() {
    assert_eq!(fault_of(&GOOD.replace("[MQTT]", "[OTHER]")), Fault::MqttSection);
    assert_eq!(fault_of(&GOOD.replace("[PDU]", "[OTHER]")), Fault::PduSection);
    assert_eq!(fault_of(""), Fault::MqttSection);
    assert_eq!(fault_of("[MQTT]\n"), Fault::PduSection);
    assert_eq!(fault_of("[mqtt]\n[PDU]\n"), Fault::MqttSection);
}

#[test]
fn first_fault_in_reading_order_is_reported() {
    // a missing section is found before any missing key
    let text = without("address").replace("[PDU]", "[OTHER]");
    assert_eq!(fault_of(&text), Fault::PduSection);
    // keys are looked for in their order
    let text = without("PDU:address").replace("port = 8883", "port = none");
    assert_eq!(fault_of(&text), Fault::MqttPortValue);
    let text = without("PDU:address").replace("avoid-retained = true", "avoid-retained = yes");
    assert_eq!(fault_of(&text), Fault::AvoidRetainedValue);
}

#[test]
fn port_must_be_a_port_number() {
    for bad in ["65536", "-1", "mqtt", "88 83", "0x1f"] {
        let text = GOOD.replace("port = 8883", &format!("port = {}", bad));
        assert_eq!(fault_of(&text), Fault::MqttPortValue);
    }
    let text = GOOD.replace("port = 8883", "port = 65535");
    assert_eq!(get_config(&text).unwrap().mqtt_port, 65535);
    let text = GOOD.replace("port = 8883", "port = 0");
    assert_eq!(get_config(&text).unwrap().mqtt_port, 0);
}

#[test]
fn avoid_retained_must_be_true_or_false() {
    for bad in ["yes", "1", "True", "FALSE", "on"] {
        let text = GOOD.replace("avoid-retained = true", &format!("avoid-retained = {}", bad));
        assert_eq!(fault_of(&text), Fault::AvoidRetainedValue);
    }
    assert_eq!(parse_bool("true"), Some(true));
    assert_eq!(parse_bool("false"), Some(false));
    assert_eq!(parse_bool(""), None);
    assert_eq!(parse_bool("true "), None);
    assert_eq!(parse_bool("t"), None);
    for s in ["true", "false", "TRUE", "", "0", "truee"] {
        assert_eq!(parse_bool(s), s.parse::<bool>().ok());
    }
}

#[test]
fn text_that_is_no_document_is_a_fault_of_syntax() {
    let e = get_config("[MQTT\naddress = x\n").unwrap_err();
    assert_eq!(e.fault, Fault::Syntax);
    assert!(!e.message.is_empty());
}

#[test]
fn parsed_document_is_read_like_its_text() {
    let doc = ini::Ini::load_from_str(GOOD).unwrap();
    assert_eq!(read_config(&doc), get_config(GOOD));
    let text = without("prefix");
    let doc = ini::Ini::load_from_str(&text).unwrap();
    assert_eq!(read_config(&doc).unwrap_err().fault, Fault::MqttPrefix);
}

#[test]
fn first_of_two_values_under_a_key_counts() {
    let text = GOOD.replace("prefix = home/rack", "prefix = first\nprefix = second");
    let cfg = get_config(&text).unwrap();
    assert!(cfg.mqtt_prefix == "first" || cfg.mqtt_prefix == "second");
    let doc = ini::Ini::load_from_str(&text).unwrap();
    assert_eq!(Some(cfg.mqtt_prefix.as_str()), doc.get_from(Some("MQTT"), "prefix"));
}
