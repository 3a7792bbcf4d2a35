//! The bridge's configuration, read from the text of an INI document.

use crate::inifile::{has_section, ini_contents, ini_parse, ini_value, load, message_of, value_of};
use crate::text::{parse_u16, parsed_u16};
use vstd::prelude::*;
use vstd::string::*;

verus! {

/// Where to find the broker and the device, and how to publish.
#[derive(Debug, PartialEq, Eq)]
pub struct Cfg {
    pub mqtt_address: String,
    pub mqtt_port: u16,
    pub mqtt_username: String,
    pub mqtt_password: String,
    pub mqtt_clientname: String,
    pub mqtt_prefix: String,
    pub mqtt_no_retained: bool,
    pub pdu_address: String,
    pub pdu_username: String,
    pub pdu_password: String,
}

/// A configuration as the contracts see it.
pub ghost struct CfgView {
    pub mqtt_address: Seq<char>,
    pub mqtt_port: u16,
    pub mqtt_username: Seq<char>,
    pub mqtt_password: Seq<char>,
    pub mqtt_clientname: Seq<char>,
    pub mqtt_prefix: Seq<char>,
    pub mqtt_no_retained: bool,
    pub pdu_address: Seq<char>,
    pub pdu_username: Seq<char>,
    pub pdu_password: Seq<char>,
}

impl View for Cfg {
    type V = CfgView;

    open spec fn view(&self) -> CfgView {
        CfgView {
            mqtt_address: self.mqtt_address@,
            mqtt_port: self.mqtt_port,
            mqtt_username: self.mqtt_username@,
            mqtt_password: self.mqtt_password@,
            mqtt_clientname: self.mqtt_clientname@,
            mqtt_prefix: self.mqtt_prefix@,
            mqtt_no_retained: self.mqtt_no_retained,
            pdu_address: self.pdu_address@,
            pdu_username: self.pdu_username@,
            pdu_password: self.pdu_password@,
        }
    }
}

/// What is wrong with a configuration: the first fault in the order in which
/// the document is read.
#[derive(Clone, Copy, Debug, PartialEq, Eq, Structural)]
pub enum Fault {
    /// The text is no INI document.
    Syntax,
    /// There is no section `MQTT`.
    MqttSection,
    /// There is no section `PDU`.
    PduSection,
    /// `address` is missing under `MQTT`.
    MqttAddress,
    /// `port` is missing under `MQTT`.
    MqttPort,
    /// `port` is no number from 0 to 65535.
    MqttPortValue,
    /// `username` is missing under `MQTT`.
    MqttUsername,
    /// `password` is missing under `MQTT`.
    MqttPassword,
    /// `clientname` is missing under `MQTT`.
    MqttClientname,
    /// `prefix` is missing under `MQTT`.
    MqttPrefix,
    /// `avoid-retained` is neither `true` nor `false`.
    AvoidRetainedValue,
    /// `address` is missing under `PDU`.
    PduAddress,
    /// `username` is missing under `PDU`.
    PduUsername,
    /// `password` is missing under `PDU`.
    PduPassword,
}

/// A fault, and for a fault of syntax what the parser said of it.
#[derive(Debug, PartialEq, Eq)]
pub struct ConfigError {
    pub fault: Fault,
    pub message: String,
}

/// What `true` and `false` stand for; nothing else stands for anything.
pub open spec fn parsed_bool(s: Seq<char>) -> Option<bool> {
    if s == "true"@ {
        Some(true)
    } else if s == "false"@ {
        Some(false)
    } else {
        None
    }
}

/// The configuration that a document's contents give, or the first fault.
pub open spec fn config_from(contents: Map<Seq<char>, Map<Seq<char>, Seq<char>>>) -> Result<
    CfgView,
    Fault,
> {
    let mqtt = |key: Seq<char>| ini_value(contents, "MQTT"@, key);
    let pdu = |key: Seq<char>| ini_value(contents, "PDU"@, key);
    if !contents.dom().contains("MQTT"@) {
        Err(Fault::MqttSection)
    } else if !contents.dom().contains("PDU"@) {
        Err(Fault::PduSection)
    } else if mqtt("address"@) is None {
        Err(Fault::MqttAddress)
    } else if mqtt("port"@) is None {
        Err(Fault::MqttPort)
    } else if parsed_u16(mqtt("port"@).unwrap()) is None {
        Err(Fault::MqttPortValue)
    } else if mqtt("username"@) is None {
        Err(Fault::MqttUsername)
    } else if mqtt("password"@) is None {
        Err(Fault::MqttPassword)
    } else if mqtt("clientname"@) is None {
        Err(Fault::MqttClientname)
    } else if mqtt("prefix"@) is None {
        Err(Fault::MqttPrefix)
    } else if mqtt("avoid-retained"@) is Some && parsed_bool(mqtt("avoid-retained"@).unwrap()) is None {
        Err(Fault::AvoidRetainedValue)
    } else if pdu("address"@) is None {
        Err(Fault::PduAddress)
    } else if pdu("username"@) is None {
        Err(Fault::PduUsername)
    } else if pdu("password"@) is None {
        Err(Fault::PduPassword)
    } else {
        Ok(
            CfgView {
                mqtt_address: mqtt("address"@).unwrap(),
                mqtt_port: parsed_u16(mqtt("port"@).unwrap()).unwrap(),
                mqtt_username: mqtt("username"@).unwrap(),
                mqtt_password: mqtt("password"@).unwrap(),
                mqtt_clientname: mqtt("clientname"@).unwrap(),
                mqtt_prefix: mqtt("prefix"@).unwrap(),
                mqtt_no_retained: match mqtt("avoid-retained"@) {
                    Some(text) => parsed_bool(text).unwrap(),
                    None => false,
                },
                pdu_address: pdu("address"@).unwrap(),
                pdu_username: pdu("username"@).unwrap(),
                pdu_password: pdu("password"@).unwrap(),
            },
        )
    }
}

/// The configuration that a text gives, from what the parser makes of it.
pub open spec fn config_of(parsed: Option<Map<Seq<char>, Map<Seq<char>, Seq<char>>>>) -> Result<
    CfgView,
    Fault,
> {
    match parsed {
        Some(contents) => config_from(contents),
        None => Err(Fault::Syntax),
    }
}

/// A result of reading a configuration as the contracts see it.
pub open spec fn outcome(r: Result<Cfg, ConfigError>) -> Result<CfgView, Fault> {
    match r {
        Ok(cfg) => Ok(cfg@),
        Err(e) => Err(e.fault),
    }
}

/// Reads `true` or `false`.
pub fn parse_bool(s: &str) -> (value: Option<bool>)
    ensures
        value == parsed_bool(s@),
{
    let text = String::from_str(s);
    if text == String::from_str("true") {
        Some(true)
    } else if text == String::from_str("false") {
        Some(false)
    } else {
        None
    }
}

/// A fault that needs no words.
fn plain(fault: Fault) -> (e: ConfigError)
    ensures
        e.fault == fault,
{
    ConfigError { fault, message: String::new() }
}

/// Reads the configuration out of a parsed document: the sections `MQTT` and
/// `PDU` must be there, and under them every key but `avoid-retained`, which
/// stands for `false` where it is missing. The error names the first fault.
pub fn read_config(doc: &ini::Ini) -> (cfg: Result<Cfg, ConfigError>)
    ensures
        outcome(cfg) == config_from(ini_contents(*doc)),
{
    if !has_section(doc, "MQTT") {
        return Err(plain(Fault::MqttSection));
    }
    if !has_section(doc, "PDU") {
        return Err(plain(Fault::PduSection));
    }
    let mqtt_address = match value_of(doc, "MQTT", "address") {
        Some(v) => v,
        None => {
            return Err(plain(Fault::MqttAddress));
        },
    };
    let port_text = match value_of(doc, "MQTT", "port") {
        Some(v) => v,
        None => {
            return Err(plain(Fault::MqttPort));
        },
    };
    let mqtt_port = match parse_u16(port_text.as_str()) {
        Some(v) => v,
        None => {
            return Err(plain(Fault::MqttPortValue));
        },
    };
    let mqtt_username = match value_of(doc, "MQTT", "username") {
        Some(v) => v,
        None => {
            return Err(plain(Fault::MqttUsername));
        },
    };
    let mqtt_password = match value_of(doc, "MQTT", "password") {
        Some(v) => v,
        None => {
            return Err(plain(Fault::MqttPassword));
        },
    };
    let mqtt_clientname = match value_of(doc, "MQTT", "clientname") {
        Some(v) => v,
        None => {
            return Err(plain(Fault::MqttClientname));
        },
    };
    let mqtt_prefix = match value_of(doc, "MQTT", "prefix") {
        Some(v) => v,
        None => {
            return Err(plain(Fault::MqttPrefix));
        },
    };
    let mqtt_no_retained = match value_of(doc, "MQTT", "avoid-retained") {
        Some(text) => match parse_bool(text.as_str()) {
            Some(v) => v,
            None => {
                return Err(plain(Fault::AvoidRetainedValue));
            },
        },
        None => false,
    };
    let pdu_address = match value_of(doc, "PDU", "address") {
        Some(v) => v,
        None => {
            return Err(plain(Fault::PduAddress));
        },
    };
    let pdu_username = match value_of(doc, "PDU", "username") {
        Some(v) => v,
        None => {
            return Err(plain(Fault::PduUsername));
        },
    };
    let pdu_password = match value_of(doc, "PDU", "password") {
        Some(v) => v,
        None => {
            return Err(plain(Fault::PduPassword));
        },
    };
    Ok(
        Cfg {
            mqtt_address,
            mqtt_port,
            mqtt_username,
            mqtt_password,
            mqtt_clientname,
            mqtt_prefix,
            mqtt_no_retained,
            pdu_address,
            pdu_username,
            pdu_password,
        },
    )
}

/// Reads the configuration from the text of an INI document. A text that the
/// parser refuses is a fault of syntax, with the parser's words; else the
/// result is `read_config` of the parsed document.
pub fn get_config(text: &str) -> (cfg: Result<Cfg, ConfigError>)
    ensures
        outcome(cfg) == config_of(ini_parse(text@)),
{
    match load(text) {
        Ok(doc) => read_config(&doc),
        Err(e) => Err(ConfigError { fault: Fault::Syntax, message: message_of(&e) }),
    }
}

} // verus!
