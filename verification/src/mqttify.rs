//! Device records flattened into messages: one message for each published
//! field, under a topic that ends in the field's name.
//!
//! The records hold plain values. Measurements arrive already scaled to fixed
//! point, and values that only the device's own types can render arrive as
//! text.

use crate::message::{msgs_view, MQTTMsg, MQTTMsgList, MsgView};
use crate::text::{decimal, decimal_string, join};
use vstd::prelude::*;
use vstd::string::*;

verus! {

/// A record that can be published field by field.
pub trait ToMQTT: Sized {
    /// The messages of the record under a topic prefix, in publication order.
    spec fn mqtt_view(&self, prefix: Seq<char>) -> Seq<MsgView>;

    /// Flattens the record into its messages.
    fn to_mqtt(self, prefix: &str) -> (list: MQTTMsgList)
        ensures
            msgs_view(list@) == self.mqtt_view(prefix@),
    ;
}

/// The message of one field: the prefix and the field's name make the topic.
pub open spec fn entry(prefix: Seq<char>, name: Seq<char>, payload: Seq<char>, retained: bool) -> MsgView {
    MsgView { topic: prefix + name, payload, retained }
}

/// How a switch is published.
pub open spec fn on_off(on: bool) -> Seq<char> {
    if on {
        "on"@
    } else {
        "off"@
    }
}

/// Adds the message of one field whose payload is ready.
fn push_text(list: &mut MQTTMsgList, prefix: &str, name: &str, payload: String, retained: bool)
    ensures
        msgs_view(final(list)@) == msgs_view(old(list)@).push(
            entry(prefix@, name@, payload@, retained),
        ),
{
    let msg = MQTTMsg { topic: join(prefix, name), payload, retained };
    list.push(msg);
    assert(msgs_view(list@) =~= msgs_view(old(list)@).push(entry(prefix@, name@, payload@, retained)));
}

/// Adds the message of one field that is published as a decimal number.
fn push_number(list: &mut MQTTMsgList, prefix: &str, name: &str, value: u64, retained: bool)
    ensures
        msgs_view(final(list)@) == msgs_view(old(list)@).push(
            entry(prefix@, name@, decimal(value as nat), retained),
        ),
{
    push_text(list, prefix, name, decimal_string(value), retained);
}

/// Adds the message of one switch.
fn push_switch(list: &mut MQTTMsgList, prefix: &str, name: &str, on: bool, retained: bool)
    ensures
        msgs_view(final(list)@) == msgs_view(old(list)@).push(
            entry(prefix@, name@, on_off(on), retained),
        ),
{
    let payload = if on {
        String::from_str("on")
    } else {
        String::from_str("off")
    };
    push_text(list, prefix, name, payload, retained);
}

/// A list with nothing in it.
fn no_msgs() -> (list: MQTTMsgList)
    ensures
        msgs_view(list@) == Seq::<MsgView>::empty(),
{
    let list: MQTTMsgList = Vec::new();
    assert(msgs_view(list@) =~= Seq::<MsgView>::empty());
    list
}

/// Moves the messages of `more` to the end of `list`.
fn push_all(list: &mut MQTTMsgList, more: MQTTMsgList)
    ensures
        msgs_view(final(list)@) == msgs_view(old(list)@) + msgs_view(more@),
{
    let ghost added = more@;
    let mut more = more;
    list.append(&mut more);
    assert(msgs_view(list@) =~= msgs_view(old(list)@) + msgs_view(added));
}

/// What a PDU is made of.
#[derive(Debug, PartialEq, Eq)]
pub struct PDUHardware {
    pub pem_model: String,
    pub fw_version: String,
    pub serial_number: String,
    pub wiring_type: String,
    pub rated_input_voltage: u32,
    pub rated_input_current: u32,
    pub rated_input_line_frequency: u32,
}

impl ToMQTT for PDUHardware {
    open spec fn mqtt_view(&self, prefix: Seq<char>) -> Seq<MsgView> {
        seq![
            entry(prefix, "/pem-model"@, self.pem_model@, true),
            entry(prefix, "/fw-version"@, self.fw_version@, true),
            entry(prefix, "/serial-number"@, self.serial_number@, true),
            entry(prefix, "/wiring-type"@, self.wiring_type@, true),
            entry(prefix, "/rated-input-voltage"@, decimal(self.rated_input_voltage as nat * 1000), true),
            entry(prefix, "/rated-input-current"@, decimal(self.rated_input_current as nat * 1000), true),
            entry(prefix, "/rated-input-line-frequency"@, decimal(self.rated_input_line_frequency as nat * 10), true),
        ]
    }

    fn to_mqtt(self, prefix: &str) -> (list: MQTTMsgList) {
        let mut list = no_msgs();
        push_text(&mut list, prefix, "/pem-model", self.pem_model, true);
        push_text(&mut list, prefix, "/fw-version", self.fw_version, true);
        push_text(&mut list, prefix, "/serial-number", self.serial_number, true);
        push_text(&mut list, prefix, "/wiring-type", self.wiring_type, true);
        push_number(&mut list, prefix, "/rated-input-voltage", self.rated_input_voltage as u64 * 1000, true);
        push_number(&mut list, prefix, "/rated-input-current", self.rated_input_current as u64 * 1000, true);
        push_number(&mut list, prefix, "/rated-input-line-frequency", self.rated_input_line_frequency as u64 * 10, true);
        assert(msgs_view(list@) =~= self.mqtt_view(prefix@));
        list
    }
}

/// What an operator has set on a PDU.
#[derive(Debug, PartialEq, Eq)]
pub struct PDUSettings {
    pub label: String,
    pub asset_tag_1: String,
    pub asset_tag_2: String,
    pub n_over_current_alarm_threshold: u32,
    pub n_over_current_warning_threshold: u32,
    pub l1_low_current_alarm_threshold: u32,
    pub l1_over_current_alarm_threshold: u32,
    pub l1_over_current_warning_threshold: u32,
    pub l2_low_current_alarm_threshold: u32,
    pub l2_over_current_alarm_threshold: u32,
    pub l2_over_current_warning_threshold: u32,
    pub l3_low_current_alarm_threshold: u32,
    pub l3_over_current_alarm_threshold: u32,
    pub l3_over_current_warning_threshold: u32,
}

impl ToMQTT for PDUSettings {
    open spec fn mqtt_view(&self, prefix: Seq<char>) -> Seq<MsgView> {
        seq![
            entry(prefix, "/label"@, self.label@, true),
            entry(prefix, "/asset-tag-1"@, self.asset_tag_1@, true),
            entry(prefix, "/asset-tag-2"@, self.asset_tag_2@, true),
            entry(prefix, "/n-over-current-alarm-threshold"@, decimal(self.n_over_current_alarm_threshold as nat), true),
            entry(prefix, "/n-over-current-warning-threshold"@, decimal(self.n_over_current_warning_threshold as nat), true),
            entry(prefix, "/l1-low-current-alarm-threshold"@, decimal(self.l1_low_current_alarm_threshold as nat), true),
            entry(prefix, "/l1-over-current-alarm-threshold"@, decimal(self.l1_over_current_alarm_threshold as nat), true),
            entry(prefix, "/l1-over-current-warning-threshold"@, decimal(self.l1_over_current_warning_threshold as nat), true),
            entry(prefix, "/l2-low-current-alarm-threshold"@, decimal(self.l2_low_current_alarm_threshold as nat), true),
            entry(prefix, "/l2-over-current-alarm-threshold"@, decimal(self.l2_over_current_alarm_threshold as nat), true),
            entry(prefix, "/l2-over-current-warning-threshold"@, decimal(self.l2_over_current_warning_threshold as nat), true),
            entry(prefix, "/l3-low-current-alarm-threshold"@, decimal(self.l3_low_current_alarm_threshold as nat), true),
            entry(prefix, "/l3-over-current-alarm-threshold"@, decimal(self.l3_over_current_alarm_threshold as nat), true),
            entry(prefix, "/l3-over-current-warning-threshold"@, decimal(self.l3_over_current_warning_threshold as nat), true),
        ]
    }

    fn to_mqtt(self, prefix: &str) -> (list: MQTTMsgList) {
        let mut list = no_msgs();
        push_text(&mut list, prefix, "/label", self.label, true);
        push_text(&mut list, prefix, "/asset-tag-1", self.asset_tag_1, true);
        push_text(&mut list, prefix, "/asset-tag-2", self.asset_tag_2, true);
        push_number(&mut list, prefix, "/n-over-current-alarm-threshold", self.n_over_current_alarm_threshold as u64, true);
        push_number(&mut list, prefix, "/n-over-current-warning-threshold", self.n_over_current_warning_threshold as u64, true);
        push_number(&mut list, prefix, "/l1-low-current-alarm-threshold", self.l1_low_current_alarm_threshold as u64, true);
        push_number(&mut list, prefix, "/l1-over-current-alarm-threshold", self.l1_over_current_alarm_threshold as u64, true);
        push_number(&mut list, prefix, "/l1-over-current-warning-threshold", self.l1_over_current_warning_threshold as u64, true);
        push_number(&mut list, prefix, "/l2-low-current-alarm-threshold", self.l2_low_current_alarm_threshold as u64, true);
        push_number(&mut list, prefix, "/l2-over-current-alarm-threshold", self.l2_over_current_alarm_threshold as u64, true);
        push_number(&mut list, prefix, "/l2-over-current-warning-threshold", self.l2_over_current_warning_threshold as u64, true);
        push_number(&mut list, prefix, "/l3-low-current-alarm-threshold", self.l3_low_current_alarm_threshold as u64, true);
        push_number(&mut list, prefix, "/l3-over-current-alarm-threshold", self.l3_over_current_alarm_threshold as u64, true);
        push_number(&mut list, prefix, "/l3-over-current-warning-threshold", self.l3_over_current_warning_threshold as u64, true);
        assert(msgs_view(list@) =~= self.mqtt_view(prefix@));
        list
    }
}

/// The level of each condition that a PDU watches, as the device names it.
#[derive(Debug, PartialEq, Eq)]
pub struct PDUEvents {
    pub low_voltage_l1: String,
    pub low_voltage_l2: String,
    pub low_voltage_l3: String,
    pub over_current_l1: String,
    pub over_current_l2: String,
    pub over_current_l3: String,
    pub over_current_n: String,
    pub low_current_l1: String,
    pub low_current_l2: String,
    pub low_current_l3: String,
    pub failure: String,
    pub communication_fail: String,
}

impl ToMQTT for PDUEvents {
    open spec fn mqtt_view(&self, prefix: Seq<char>) -> Seq<MsgView> {
        seq![
            entry(prefix, "/l1-low-voltage"@, self.low_voltage_l1@, true),
            entry(prefix, "/l2-low-voltage"@, self.low_voltage_l2@, true),
            entry(prefix, "/l3-low-voltage"@, self.low_voltage_l3@, true),
            entry(prefix, "/l1-over-current"@, self.over_current_l1@, true),
            entry(prefix, "/l2-over-current"@, self.over_current_l2@, true),
            entry(prefix, "/l3-over-current"@, self.over_current_l3@, true),
            entry(prefix, "/n-over-current"@, self.over_current_n@, true),
            entry(prefix, "/l1-low-current"@, self.low_current_l1@, true),
            entry(prefix, "/l2-low-current"@, self.low_current_l2@, true),
            entry(prefix, "/l3-low-current"@, self.low_current_l3@, true),
            entry(prefix, "/failure"@, self.failure@, true),
            entry(prefix, "/communication-fail"@, self.communication_fail@, true),
        ]
    }

    fn to_mqtt(self, prefix: &str) -> (list: MQTTMsgList) {
        let mut list = no_msgs();
        push_text(&mut list, prefix, "/l1-low-voltage", self.low_voltage_l1, true);
        push_text(&mut list, prefix, "/l2-low-voltage", self.low_voltage_l2, true);
        push_text(&mut list, prefix, "/l3-low-voltage", self.low_voltage_l3, true);
        push_text(&mut list, prefix, "/l1-over-current", self.over_current_l1, true);
        push_text(&mut list, prefix, "/l2-over-current", self.over_current_l2, true);
        push_text(&mut list, prefix, "/l3-over-current", self.over_current_l3, true);
        push_text(&mut list, prefix, "/n-over-current", self.over_current_n, true);
        push_text(&mut list, prefix, "/l1-low-current", self.low_current_l1, true);
        push_text(&mut list, prefix, "/l2-low-current", self.low_current_l2, true);
        push_text(&mut list, prefix, "/l3-low-current", self.low_current_l3, true);
        push_text(&mut list, prefix, "/failure", self.failure, true);
        push_text(&mut list, prefix, "/communication-fail", self.communication_fail, true);
        assert(msgs_view(list@) =~= self.mqtt_view(prefix@));
        list
    }
}

/// What a PDU measures. Each number is scaled to fixed point by the caller: tenths for
/// utilization and frequency, thousandths for the rest.
#[derive(Debug, PartialEq, Eq)]
pub struct PDUStatus {
    pub accumulated_energy: u32,
    pub input_power: u32,
    pub voltage_l1_n: u32,
    pub voltage_l2_n: u32,
    pub voltage_l3_n: u32,
    pub current_l1: u32,
    pub current_l2: u32,
    pub current_n: u32,
    pub current_available_to_alarm_l1: u32,
    pub current_available_to_alarm_l2: u32,
    pub current_available_to_alarm_l3: u32,
    pub current_utilization_l1: u32,
    pub current_utilization_l2: u32,
    pub current_utilization_l3: u32,
    pub line_frequency: u32,
}

impl ToMQTT for PDUStatus {
    open spec fn mqtt_view(&self, prefix: Seq<char>) -> Seq<MsgView> {
        seq![
            entry(prefix, "/accumulated-energy"@, decimal(self.accumulated_energy as nat), false),
            entry(prefix, "/input-power"@, decimal(self.input_power as nat), false),
            entry(prefix, "/l1-voltage"@, decimal(self.voltage_l1_n as nat), false),
            entry(prefix, "/l2-voltage"@, decimal(self.voltage_l2_n as nat), false),
            entry(prefix, "/l3-voltage"@, decimal(self.voltage_l3_n as nat), false),
            entry(prefix, "/l1-current"@, decimal(self.current_l1 as nat), false),
            entry(prefix, "/l2-current"@, decimal(self.current_l2 as nat), false),
            entry(prefix, "/l2-current"@, decimal(self.current_l2 as nat), false),
            entry(prefix, "/n-current"@, decimal(self.current_n as nat), false),
            entry(prefix, "/l1-current-available-to-alarm"@, decimal(self.current_available_to_alarm_l1 as nat), false),
            entry(prefix, "/l2-current-available-to-alarm"@, decimal(self.current_available_to_alarm_l2 as nat), false),
            entry(prefix, "/l3-current-available-to-alarm"@, decimal(self.current_available_to_alarm_l3 as nat), false),
            entry(prefix, "/l1-current-utilization"@, decimal(self.current_utilization_l1 as nat), false),
            entry(prefix, "/l2-current-utilization"@, decimal(self.current_utilization_l2 as nat), false),
            entry(prefix, "/l3-current-utilization"@, decimal(self.current_utilization_l3 as nat), false),
            entry(prefix, "/line-frequency"@, decimal(self.line_frequency as nat), false),
        ]
    }

    fn to_mqtt(self, prefix: &str) -> (list: MQTTMsgList) {
        let mut list = no_msgs();
        push_number(&mut list, prefix, "/accumulated-energy", self.accumulated_energy as u64, false);
        push_number(&mut list, prefix, "/input-power", self.input_power as u64, false);
        push_number(&mut list, prefix, "/l1-voltage", self.voltage_l1_n as u64, false);
        push_number(&mut list, prefix, "/l2-voltage", self.voltage_l2_n as u64, false);
        push_number(&mut list, prefix, "/l3-voltage", self.voltage_l3_n as u64, false);
        push_number(&mut list, prefix, "/l1-current", self.current_l1 as u64, false);
        push_number(&mut list, prefix, "/l2-current", self.current_l2 as u64, false);
        push_number(&mut list, prefix, "/l2-current", self.current_l2 as u64, false);
        push_number(&mut list, prefix, "/n-current", self.current_n as u64, false);
        push_number(&mut list, prefix, "/l1-current-available-to-alarm", self.current_available_to_alarm_l1 as u64, false);
        push_number(&mut list, prefix, "/l2-current-available-to-alarm", self.current_available_to_alarm_l2 as u64, false);
        push_number(&mut list, prefix, "/l3-current-available-to-alarm", self.current_available_to_alarm_l3 as u64, false);
        push_number(&mut list, prefix, "/l1-current-utilization", self.current_utilization_l1 as u64, false);
        push_number(&mut list, prefix, "/l2-current-utilization", self.current_utilization_l2 as u64, false);
        push_number(&mut list, prefix, "/l3-current-utilization", self.current_utilization_l3 as u64, false);
        push_number(&mut list, prefix, "/line-frequency", self.line_frequency as u64, false);
        assert(msgs_view(list@) =~= self.mqtt_view(prefix@));
        list
    }
}

/// What a branch is made of.
#[derive(Debug, PartialEq, Eq)]
pub struct BranchHardware {
    pub brm_model: String,
    pub fw_version: String,
    pub serial_number: String,
    pub receptacle_type: String,
    pub capabilities: String,
    pub line_source: String,
    pub rated_line_voltage: u32,
    pub rated_line_current: u32,
    pub rated_line_frequency: u32,
}

impl ToMQTT for BranchHardware {
    open spec fn mqtt_view(&self, prefix: Seq<char>) -> Seq<MsgView> {
        seq![
            entry(prefix, "/brm-model"@, self.brm_model@, true),
            entry(prefix, "/fw-version"@, self.fw_version@, true),
            entry(prefix, "/serial-number"@, self.serial_number@, true),
            entry(prefix, "/receptacle-type"@, self.receptacle_type@, true),
            entry(prefix, "/capabilities"@, self.capabilities@, true),
            entry(prefix, "/line-source"@, self.line_source@, true),
            entry(prefix, "/rated-line-voltage"@, decimal(self.rated_line_voltage as nat * 1000), true),
            entry(prefix, "/rated-line-current"@, decimal(self.rated_line_current as nat * 1000), true),
            entry(prefix, "/rated-line-frequency"@, decimal(self.rated_line_frequency as nat * 10), true),
        ]
    }

    fn to_mqtt(self, prefix: &str) -> (list: MQTTMsgList) {
        let mut list = no_msgs();
        push_text(&mut list, prefix, "/brm-model", self.brm_model, true);
        push_text(&mut list, prefix, "/fw-version", self.fw_version, true);
        push_text(&mut list, prefix, "/serial-number", self.serial_number, true);
        push_text(&mut list, prefix, "/receptacle-type", self.receptacle_type, true);
        push_text(&mut list, prefix, "/capabilities", self.capabilities, true);
        push_text(&mut list, prefix, "/line-source", self.line_source, true);
        push_number(&mut list, prefix, "/rated-line-voltage", self.rated_line_voltage as u64 * 1000, true);
        push_number(&mut list, prefix, "/rated-line-current", self.rated_line_current as u64 * 1000, true);
        push_number(&mut list, prefix, "/rated-line-frequency", self.rated_line_frequency as u64 * 10, true);
        assert(msgs_view(list@) =~= self.mqtt_view(prefix@));
        list
    }
}

/// What an operator has set on a branch.
#[derive(Debug, PartialEq, Eq)]
pub struct BranchSettings {
    pub label: String,
    pub asset_tag_1: String,
    pub asset_tag_2: String,
    pub over_current_alarm_threshold: u32,
    pub over_current_warning_threshold: u32,
    pub low_current_alarm_threshold: u32,
}

impl ToMQTT for BranchSettings {
    open spec fn mqtt_view(&self, prefix: Seq<char>) -> Seq<MsgView> {
        seq![
            entry(prefix, "/label"@, self.label@, true),
            entry(prefix, "/asset-tag-1"@, self.asset_tag_1@, true),
            entry(prefix, "/asset-tag-2"@, self.asset_tag_2@, true),
            entry(prefix, "/over-current-alarm-threshold"@, decimal(self.over_current_alarm_threshold as nat), true),
            entry(prefix, "/over-current-warning-threshold"@, decimal(self.over_current_warning_threshold as nat), true),
            entry(prefix, "/low-current-alarm-threshold"@, decimal(self.low_current_alarm_threshold as nat), true),
        ]
    }

    fn to_mqtt(self, prefix: &str) -> (list: MQTTMsgList) {
        let mut list = no_msgs();
        push_text(&mut list, prefix, "/label", self.label, true);
        push_text(&mut list, prefix, "/asset-tag-1", self.asset_tag_1, true);
        push_text(&mut list, prefix, "/asset-tag-2", self.asset_tag_2, true);
        push_number(&mut list, prefix, "/over-current-alarm-threshold", self.over_current_alarm_threshold as u64, true);
        push_number(&mut list, prefix, "/over-current-warning-threshold", self.over_current_warning_threshold as u64, true);
        push_number(&mut list, prefix, "/low-current-alarm-threshold", self.low_current_alarm_threshold as u64, true);
        assert(msgs_view(list@) =~= self.mqtt_view(prefix@));
        list
    }
}

/// The level of each condition that a branch watches, as the device names it.
#[derive(Debug, PartialEq, Eq)]
pub struct BranchEvents {
    pub low_voltage: String,
    pub over_current: String,
    pub low_current: String,
    pub failure: String,
    pub breaker_open: String,
}

impl ToMQTT for BranchEvents {
    open spec fn mqtt_view(&self, prefix: Seq<char>) -> Seq<MsgView> {
        seq![
            entry(prefix, "/low-voltage"@, self.low_voltage@, true),
            entry(prefix, "/over-current"@, self.over_current@, true),
            entry(prefix, "/low-current"@, self.low_current@, true),
            entry(prefix, "/failure"@, self.failure@, true),
            entry(prefix, "/breaker-open"@, self.breaker_open@, true),
        ]
    }

    fn to_mqtt(self, prefix: &str) -> (list: MQTTMsgList) {
        let mut list = no_msgs();
        push_text(&mut list, prefix, "/low-voltage", self.low_voltage, true);
        push_text(&mut list, prefix, "/over-current", self.over_current, true);
        push_text(&mut list, prefix, "/low-current", self.low_current, true);
        push_text(&mut list, prefix, "/failure", self.failure, true);
        push_text(&mut list, prefix, "/breaker-open", self.breaker_open, true);
        assert(msgs_view(list@) =~= self.mqtt_view(prefix@));
        list
    }
}

/// What a branch measures. Each number is scaled to fixed point by the caller: tenths
/// for utilization, thousandths for the rest. The power factor is text that the
/// caller has rendered.
#[derive(Debug, PartialEq, Eq)]
pub struct BranchStatus {
    pub accumulated_energy: u32,
    pub voltage: u32,
    pub current: u32,
    pub current_available_to_alarm: u32,
    pub current_utilization: u32,
    pub power: u32,
    pub apparent_power: u32,
    pub power_factor: String,
}

impl ToMQTT for BranchStatus {
    open spec fn mqtt_view(&self, prefix: Seq<char>) -> Seq<MsgView> {
        seq![
            entry(prefix, "/accumulated-energy"@, decimal(self.accumulated_energy as nat), false),
            entry(prefix, "/voltage"@, decimal(self.voltage as nat), false),
            entry(prefix, "/current"@, decimal(self.current as nat), false),
            entry(prefix, "/current-available-to-alarm"@, decimal(self.current_available_to_alarm as nat), false),
            entry(prefix, "/current-utilization"@, decimal(self.current_utilization as nat), false),
            entry(prefix, "/power"@, decimal(self.power as nat), false),
            entry(prefix, "/apparent-power"@, decimal(self.apparent_power as nat), false),
            entry(prefix, "/power-factor"@, self.power_factor@, false),
        ]
    }

    fn to_mqtt(self, prefix: &str) -> (list: MQTTMsgList) {
        let mut list = no_msgs();
        push_number(&mut list, prefix, "/accumulated-energy", self.accumulated_energy as u64, false);
        push_number(&mut list, prefix, "/voltage", self.voltage as u64, false);
        push_number(&mut list, prefix, "/current", self.current as u64, false);
        push_number(&mut list, prefix, "/current-available-to-alarm", self.current_available_to_alarm as u64, false);
        push_number(&mut list, prefix, "/current-utilization", self.current_utilization as u64, false);
        push_number(&mut list, prefix, "/power", self.power as u64, false);
        push_number(&mut list, prefix, "/apparent-power", self.apparent_power as u64, false);
        push_text(&mut list, prefix, "/power-factor", self.power_factor, false);
        assert(msgs_view(list@) =~= self.mqtt_view(prefix@));
        list
    }
}

/// What a receptacle is made of.
#[derive(Debug, PartialEq, Eq)]
pub struct ReceptacleHardware {
    pub receptacle_type: String,
    pub line_source: String,
    pub capabilities: String,
}

impl ToMQTT for ReceptacleHardware {
    open spec fn mqtt_view(&self, prefix: Seq<char>) -> Seq<MsgView> {
        seq![
            entry(prefix, "/receptacle-type"@, self.receptacle_type@, true),
            entry(prefix, "/line-source"@, self.line_source@, true),
            entry(prefix, "/capabilities"@, self.capabilities@, true),
        ]
    }

    fn to_mqtt(self, prefix: &str) -> (list: MQTTMsgList) {
        let mut list = no_msgs();
        push_text(&mut list, prefix, "/receptacle-type", self.receptacle_type, true);
        push_text(&mut list, prefix, "/line-source", self.line_source, true);
        push_text(&mut list, prefix, "/capabilities", self.capabilities, true);
        assert(msgs_view(list@) =~= self.mqtt_view(prefix@));
        list
    }
}

/// What an operator has set on a receptacle.
#[derive(Debug, PartialEq, Eq)]
pub struct ReceptacleSettings {
    pub label: String,
    pub asset_tag_1: String,
    pub asset_tag_2: String,
    pub over_current_alarm_threshold: u32,
    pub over_current_warning_threshold: u32,
    pub low_current_alarm_threshold: u32,
    pub power_state: bool,
    pub power_control: bool,
    pub control_lock_state: bool,
    pub power_on_delay: u32,
}

impl ToMQTT for ReceptacleSettings {
    open spec fn mqtt_view(&self, prefix: Seq<char>) -> Seq<MsgView> {
        seq![
            entry(prefix, "/label"@, self.label@, true),
            entry(prefix, "/asset-tag-1"@, self.asset_tag_1@, true),
            entry(prefix, "/asset-tag-2"@, self.asset_tag_2@, true),
            entry(prefix, "/over-current-alarm-threshold"@, decimal(self.over_current_alarm_threshold as nat), true),
            entry(prefix, "/over-current-warning-threshold"@, decimal(self.over_current_warning_threshold as nat), true),
            entry(prefix, "/low-current-alarm-threshold"@, decimal(self.low_current_alarm_threshold as nat), true),
            entry(prefix, "/power-state"@, on_off(self.power_state), true),
            entry(prefix, "/power-control"@, on_off(self.power_control), true),
            entry(prefix, "/power-control-locked"@, on_off(self.control_lock_state), true),
            entry(prefix, "/power-on-delay"@, decimal(self.power_on_delay as nat), true),
        ]
    }

    fn to_mqtt(self, prefix: &str) -> (list: MQTTMsgList) {
        let mut list = no_msgs();
        push_text(&mut list, prefix, "/label", self.label, true);
        push_text(&mut list, prefix, "/asset-tag-1", self.asset_tag_1, true);
        push_text(&mut list, prefix, "/asset-tag-2", self.asset_tag_2, true);
        push_number(&mut list, prefix, "/over-current-alarm-threshold", self.over_current_alarm_threshold as u64, true);
        push_number(&mut list, prefix, "/over-current-warning-threshold", self.over_current_warning_threshold as u64, true);
        push_number(&mut list, prefix, "/low-current-alarm-threshold", self.low_current_alarm_threshold as u64, true);
        push_switch(&mut list, prefix, "/power-state", self.power_state, true);
        push_switch(&mut list, prefix, "/power-control", self.power_control, true);
        push_switch(&mut list, prefix, "/power-control-locked", self.control_lock_state, true);
        push_number(&mut list, prefix, "/power-on-delay", self.power_on_delay as u64, true);
        assert(msgs_view(list@) =~= self.mqtt_view(prefix@));
        list
    }
}

/// The level of each condition that a receptacle watches, as the device names it.
#[derive(Debug, PartialEq, Eq)]
pub struct ReceptacleEvents {
    pub over_current: String,
    pub low_current: String,
}

impl ToMQTT for ReceptacleEvents {
    open spec fn mqtt_view(&self, prefix: Seq<char>) -> Seq<MsgView> {
        seq![
            entry(prefix, "/over-current"@, self.over_current@, true),
            entry(prefix, "/low-current"@, self.low_current@, true),
        ]
    }

    fn to_mqtt(self, prefix: &str) -> (list: MQTTMsgList) {
        let mut list = no_msgs();
        push_text(&mut list, prefix, "/over-current", self.over_current, true);
        push_text(&mut list, prefix, "/low-current", self.low_current, true);
        assert(msgs_view(list@) =~= self.mqtt_view(prefix@));
        list
    }
}

/// What a receptacle measures. Each number is scaled to fixed point by the caller:
/// tenths for utilization, thousandths for the rest. Power factor and crest factor
/// are text that the caller has rendered.
#[derive(Debug, PartialEq, Eq)]
pub struct ReceptacleStatus {
    pub accumulated_energy: u32,
    pub voltage: u32,
    pub current: u32,
    pub current_available_to_alarm: u32,
    pub current_utilization: u32,
    pub power: u32,
    pub apparent_power: u32,
    pub power_factor: String,
    pub current_crest_factor: String,
}

impl ToMQTT for ReceptacleStatus {
    open spec fn mqtt_view(&self, prefix: Seq<char>) -> Seq<MsgView> {
        seq![
            entry(prefix, "/accumulated-energy"@, decimal(self.accumulated_energy as nat), false),
            entry(prefix, "/voltage"@, decimal(self.voltage as nat), false),
            entry(prefix, "/current"@, decimal(self.current as nat), false),
            entry(prefix, "/current-available-to-alarm"@, decimal(self.current_available_to_alarm as nat), false),
            entry(prefix, "/current-utilization"@, decimal(self.current_utilization as nat), false),
            entry(prefix, "/power"@, decimal(self.power as nat), false),
            entry(prefix, "/apparent-power"@, decimal(self.apparent_power as nat), false),
            entry(prefix, "/power-factor"@, self.power_factor@, false),
            entry(prefix, "/current-crest-factor"@, self.current_crest_factor@, false),
        ]
    }

    fn to_mqtt(self, prefix: &str) -> (list: MQTTMsgList) {
        let mut list = no_msgs();
        push_number(&mut list, prefix, "/accumulated-energy", self.accumulated_energy as u64, false);
        push_number(&mut list, prefix, "/voltage", self.voltage as u64, false);
        push_number(&mut list, prefix, "/current", self.current as u64, false);
        push_number(&mut list, prefix, "/current-available-to-alarm", self.current_available_to_alarm as u64, false);
        push_number(&mut list, prefix, "/current-utilization", self.current_utilization as u64, false);
        push_number(&mut list, prefix, "/power", self.power as u64, false);
        push_number(&mut list, prefix, "/apparent-power", self.apparent_power as u64, false);
        push_text(&mut list, prefix, "/power-factor", self.power_factor, false);
        push_text(&mut list, prefix, "/current-crest-factor", self.current_crest_factor, false);
        assert(msgs_view(list@) =~= self.mqtt_view(prefix@));
        list
    }
}

/// Everything a PDU reports in one query.
#[derive(Debug, PartialEq, Eq)]
pub struct PDUInfo {
    pub status: PDUStatus,
    pub events: PDUEvents,
    pub settings: PDUSettings,
    pub hardware: PDUHardware,
}

impl ToMQTT for PDUInfo {
    open spec fn mqtt_view(&self, prefix: Seq<char>) -> Seq<MsgView> {
        self.status.mqtt_view(prefix + "/status"@) + self.events.mqtt_view(prefix + "/events"@)
            + self.settings.mqtt_view(prefix + "/settings"@) + self.hardware.mqtt_view(
            prefix + "/hardware"@,
        )
    }

    fn to_mqtt(self, prefix: &str) -> (list: MQTTMsgList) {
        let mut list = no_msgs();
        push_all(&mut list, self.status.to_mqtt(join(prefix, "/status").as_str()));
        push_all(&mut list, self.events.to_mqtt(join(prefix, "/events").as_str()));
        push_all(&mut list, self.settings.to_mqtt(join(prefix, "/settings").as_str()));
        push_all(&mut list, self.hardware.to_mqtt(join(prefix, "/hardware").as_str()));
        assert(msgs_view(list@) =~= self.mqtt_view(prefix@));
        list
    }
}

/// Everything a branch reports in one query.
#[derive(Debug, PartialEq, Eq)]
pub struct BranchInfo {
    pub status: BranchStatus,
    pub events: BranchEvents,
    pub settings: BranchSettings,
    pub hardware: BranchHardware,
}

impl ToMQTT for BranchInfo {
    open spec fn mqtt_view(&self, prefix: Seq<char>) -> Seq<MsgView> {
        self.status.mqtt_view(prefix + "/status"@) + self.events.mqtt_view(prefix + "/events"@)
            + self.settings.mqtt_view(prefix + "/settings"@) + self.hardware.mqtt_view(
            prefix + "/hardware"@,
        )
    }

    fn to_mqtt(self, prefix: &str) -> (list: MQTTMsgList) {
        let mut list = no_msgs();
        push_all(&mut list, self.status.to_mqtt(join(prefix, "/status").as_str()));
        push_all(&mut list, self.events.to_mqtt(join(prefix, "/events").as_str()));
        push_all(&mut list, self.settings.to_mqtt(join(prefix, "/settings").as_str()));
        push_all(&mut list, self.hardware.to_mqtt(join(prefix, "/hardware").as_str()));
        assert(msgs_view(list@) =~= self.mqtt_view(prefix@));
        list
    }
}

/// Everything a receptacle reports in one query.
#[derive(Debug, PartialEq, Eq)]
pub struct ReceptacleInfo {
    pub status: ReceptacleStatus,
    pub events: ReceptacleEvents,
    pub settings: ReceptacleSettings,
    pub hardware: ReceptacleHardware,
}

impl ToMQTT for ReceptacleInfo {
    open spec fn mqtt_view(&self, prefix: Seq<char>) -> Seq<MsgView> {
        self.status.mqtt_view(prefix + "/status"@) + self.events.mqtt_view(prefix + "/events"@)
            + self.settings.mqtt_view(prefix + "/settings"@) + self.hardware.mqtt_view(
            prefix + "/hardware"@,
        )
    }

    fn to_mqtt(self, prefix: &str) -> (list: MQTTMsgList) {
        let mut list = no_msgs();
        push_all(&mut list, self.status.to_mqtt(join(prefix, "/status").as_str()));
        push_all(&mut list, self.events.to_mqtt(join(prefix, "/events").as_str()));
        push_all(&mut list, self.settings.to_mqtt(join(prefix, "/settings").as_str()));
        push_all(&mut list, self.hardware.to_mqtt(join(prefix, "/hardware").as_str()));
        assert(msgs_view(list@) =~= self.mqtt_view(prefix@));
        list
    }
}

impl Clone for ReceptacleSettings {
    fn clone(&self) -> (copy: Self)
        ensures
            copy == *self,
    {
        ReceptacleSettings {
            label: self.label.clone(),
            asset_tag_1: self.asset_tag_1.clone(),
            asset_tag_2: self.asset_tag_2.clone(),
            over_current_alarm_threshold: self.over_current_alarm_threshold,
            over_current_warning_threshold: self.over_current_warning_threshold,
            low_current_alarm_threshold: self.low_current_alarm_threshold,
            power_state: self.power_state,
            power_control: self.power_control,
            control_lock_state: self.control_lock_state,
            power_on_delay: self.power_on_delay,
        }
    }
}

impl ReceptacleSettings {
    /// The same settings under another label.
    pub fn with_label(self, label: String) -> (settings: Self)
        ensures
            settings == (ReceptacleSettings { label, ..self }),
    {
        ReceptacleSettings { label, ..self }
    }
}

} // verus!
