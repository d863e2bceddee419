//! Commands sent to the codecs of an HDA link and the responses they return.
//!
//! A command is a 32-bit word: the codec address in bits 28..32, the node id in
//! bits 20..28 and a 20-bit verb in bits 0..20. A verb is either a 12-bit verb
//! id in bits 8..20 with an 8-bit payload, or a 4-bit verb id in bits 16..20
//! with a 16-bit payload.
use vstd::prelude::*;
use crate::bits;
use crate::hda_regs::{HDARingBufferSize, HDARingBufferSizeCapability};

verus! {

/// The verb with a verb id in bits `id_lo..20` and `payload` in bits `0..width`.
pub open spec fn verb_word(id: u32, id_lo: u32, payload: u32, width: u32) -> u32 {
    bits::with_field_u32(bits::with_field_u32(0, 0, width, payload), id_lo, (20 - id_lo) as u32, id)
}

/// The command word that sends `verb` to node `node` of codec `codec`.
pub open spec fn command_word(codec: u8, node: u8, verb: u32) -> u32 {
    bits::with_field_u32(
        bits::with_field_u32(bits::with_field_u32(0, 0, 20, verb), 20, 8, node as u32),
        28,
        4,
        codec as u32,
    )
}

/// A verb always fits in 20 bits.
pub proof fn lemma_verb_fits(id: u32, id_lo: u32, payload: u32, width: u32)
    requires
        width <= id_lo < 20,
    ensures
        verb_word(id, id_lo, payload, width) <= 0xfffff,
{
    assert(bits::with_field_u32(bits::with_field_u32(0, 0, width, payload), id_lo, (20 - id_lo) as u32, id)
        <= 0xfffff) by (bit_vector)
        requires
            width <= id_lo < 20,
    ;
}

/// A command word carries its codec address, its node id and its verb.
pub proof fn lemma_command_word_fields(codec: u8, node: u8, verb: u32)
    requires
        codec < 16,
        verb <= 0xfffff,
    ensures
        bits::field_u32(command_word(codec, node, verb), 28, 4) == codec as u32,
        bits::field_u32(command_word(codec, node, verb), 20, 8) == node as u32,
        bits::field_u32(command_word(codec, node, verb), 0, 20) == verb,
{
    let c = codec as u32;
    let n = node as u32;
    assert(bits::field_u32(bits::with_field_u32(bits::with_field_u32(bits::with_field_u32(0, 0, 20, verb), 20, 8, n), 28, 4, c), 28, 4) == c
        && bits::field_u32(bits::with_field_u32(bits::with_field_u32(bits::with_field_u32(0, 0, 20, verb), 20, 8, n), 28, 4, c), 20, 8) == n
        && bits::field_u32(bits::with_field_u32(bits::with_field_u32(bits::with_field_u32(0, 0, 20, verb), 20, 8, n), 28, 4, c), 0, 20) == verb)
        by (bit_vector)
        requires
            c < 16,
            n < 256,
            verb <= 0xfffff,
    ;
}

/// A 20-bit verb of a codec command.
#[derive(Clone, Copy, Debug, PartialEq, Eq, Structural)]
pub struct HDANodeCommandVerb(pub u32);

pub const GET_PARAMETER: u32 = 0xf00;
pub const SET_BEEP: u32 = 0x70a;
pub const GET_CONN_LIST_ENTRY: u32 = 0xf02;
pub const CONFIG_DEFAULT: u32 = 0xf1c;
pub const SET_PIN_WIDGET_CONTROL: u32 = 0x707;
pub const SET_CONVERTER_CONTROL: u32 = 0x706;
pub const SET_POWER_STATE: u32 = 0x705;
pub const SET_AMP_GAIN: u32 = 0x3;
pub const SET_CONN_SELECT_CTRL: u32 = 0x701;
pub const SET_BEEP_GEN: u32 = 0x70a;
pub const SET_CONVERTER_FORMAT: u32 = 0x02;
pub const GET_CONVERTER_CONTROL: u32 = 0xf0d;
pub const SET_CONVERTER_CONTROL1: u32 = 0x70d;
pub const SET_CONVERTER_CONTROL2: u32 = 0x70e;
pub const SET_CONVERTER_CONTROL3: u32 = 0x73e;
pub const SET_CONVERTER_CONTROL4: u32 = 0x73f;
pub const SET_EAPD_ENABLE: u32 = 0x70c;
pub const GET_EAPD_ENABLE: u32 = 0xf0c;
pub const GET_CONN_SEL_CTRL: u32 = 0xf01;
pub const SET_CONN_SEL_CTRL: u32 = 0x701;

/// Builds a verb with a 12-bit verb id and an 8-bit payload.
fn short_verb(id: u32, payload: u32) -> (r: HDANodeCommandVerb)
    ensures
        r.0 == verb_word(id, 8, payload, 8),
        r.0 <= 0xfffff,
{
    proof {
        lemma_verb_fits(id, 8, payload, 8);
    }
    let val = bits::put_field_u32(0, 0, 8, payload);
    HDANodeCommandVerb(bits::put_field_u32(val, 8, 12, id))
}

/// Builds a verb with a 4-bit verb id and a 16-bit payload.
fn long_verb(id: u32, payload: u32) -> (r: HDANodeCommandVerb)
    ensures
        r.0 == verb_word(id, 16, payload, 16),
        r.0 <= 0xfffff,
{
    proof {
        lemma_verb_fits(id, 16, payload, 16);
    }
    let val = bits::put_field_u32(0, 0, 16, payload);
    HDANodeCommandVerb(bits::put_field_u32(val, 16, 4, id))
}

impl HDANodeCommandVerb {
    /// Get a parameter of a node.
    pub fn get_parameter(param_id: u8) -> (r: Self)
        ensures
            r.0 == verb_word(GET_PARAMETER, 8, param_id as u32, 8),
            r.0 <= 0xfffff,
    {
        short_verb(GET_PARAMETER, param_id as u32)
    }

    /// Get the connection list entries starting at an index.
    pub fn get_conn_list_entry(entry_index: u8) -> (r: Self)
        ensures
            r.0 == verb_word(GET_CONN_LIST_ENTRY, 8, entry_index as u32, 8),
            r.0 <= 0xfffff,
    {
        short_verb(GET_CONN_LIST_ENTRY, entry_index as u32)
    }

    /// Get the configuration defaults of a pin.
    pub fn get_pin_config_defaults() -> (r: Self)
        ensures
            r.0 == verb_word(CONFIG_DEFAULT, 8, 0, 8),
            r.0 <= 0xfffff,
    {
        short_verb(CONFIG_DEFAULT, 0)
    }

    /// Set the pin widget control.
    pub fn set_pin_widget_control(pin_ctrl: PinControl) -> (r: Self)
        ensures
            r.0 == verb_word(SET_PIN_WIDGET_CONTROL, 8, pin_ctrl.0 as u32, 8),
            r.0 <= 0xfffff,
    {
        short_verb(SET_PIN_WIDGET_CONTROL, pin_ctrl.0 as u32)
    }

    /// Set the stream and channel of a converter.
    pub fn set_converter_control(ctrl: ConverterControl) -> (r: Self)
        ensures
            r.0 == verb_word(SET_CONVERTER_CONTROL, 8, ctrl.0 as u32, 8),
            r.0 <= 0xfffff,
    {
        short_verb(SET_CONVERTER_CONTROL, ctrl.0 as u32)
    }

    /// Select a connection.
    pub fn set_conn_select_ctrl(conn_idx: u8) -> (r: Self)
        ensures
            r.0 == verb_word(SET_CONN_SELECT_CTRL, 8, conn_idx as u32, 8),
            r.0 <= 0xfffff,
    {
        short_verb(SET_CONN_SELECT_CTRL, conn_idx as u32)
    }

    /// Set the beep generator divider.
    pub fn set_beep_gen(divider: u8) -> (r: Self)
        ensures
            r.0 == verb_word(SET_BEEP_GEN, 8, divider as u32, 8),
            r.0 <= 0xfffff,
    {
        short_verb(SET_BEEP_GEN, divider as u32)
    }

    /// Get the digital converter control.
    pub fn get_digital_converter_ctrl() -> (r: Self)
        ensures
            r.0 == verb_word(GET_CONVERTER_CONTROL, 8, 0, 8),
            r.0 <= 0xfffff,
    {
        short_verb(GET_CONVERTER_CONTROL, 0)
    }

    /// Set byte 1 of the digital converter control.
    pub fn set_digital_converter_ctrl1(bits: u8) -> (r: Self)
        ensures
            r.0 == verb_word(SET_CONVERTER_CONTROL1, 8, bits as u32, 8),
            r.0 <= 0xfffff,
    {
        short_verb(SET_CONVERTER_CONTROL1, bits as u32)
    }

    /// Set byte 2 of the digital converter control.
    pub fn set_digital_converter_ctrl2(bits: u8) -> (r: Self)
        ensures
            r.0 == verb_word(SET_CONVERTER_CONTROL2, 8, bits as u32, 8),
            r.0 <= 0xfffff,
    {
        short_verb(SET_CONVERTER_CONTROL2, bits as u32)
    }

    /// Set byte 3 of the digital converter control.
    pub fn set_digital_converter_ctrl3(bits: u8) -> (r: Self)
        ensures
            r.0 == verb_word(SET_CONVERTER_CONTROL3, 8, bits as u32, 8),
            r.0 <= 0xfffff,
    {
        short_verb(SET_CONVERTER_CONTROL3, bits as u32)
    }

    /// Set byte 4 of the digital converter control.
    pub fn set_digital_converter_ctrl4(bits: u8) -> (r: Self)
        ensures
            r.0 == verb_word(SET_CONVERTER_CONTROL4, 8, bits as u32, 8),
            r.0 <= 0xfffff,
    {
        short_verb(SET_CONVERTER_CONTROL4, bits as u32)
    }

    /// Get the EAPD/BTL enable.
    pub fn get_eapd_enable() -> (r: Self)
        ensures
            r.0 == verb_word(GET_EAPD_ENABLE, 8, 0, 8),
            r.0 <= 0xfffff,
    {
        short_verb(GET_EAPD_ENABLE, 0)
    }

    /// Set the EAPD/BTL enable.
    pub fn set_eapd_enable(eapd: u8) -> (r: Self)
        ensures
            r.0 == verb_word(SET_EAPD_ENABLE, 8, eapd as u32, 8),
            r.0 <= 0xfffff,
    {
        short_verb(SET_EAPD_ENABLE, eapd as u32)
    }

    /// Get the selected connection.
    pub fn get_conn_sel_ctrl() -> (r: Self)
        ensures
            r.0 == verb_word(GET_CONN_SEL_CTRL, 8, 0, 8),
            r.0 <= 0xfffff,
    {
        short_verb(GET_CONN_SEL_CTRL, 0)
    }

    /// Select a connection.
    pub fn set_conn_sel_ctrl(idx: u8) -> (r: Self)
        ensures
            r.0 == verb_word(SET_CONN_SEL_CTRL, 8, idx as u32, 8),
            r.0 <= 0xfffff,
    {
        short_verb(SET_CONN_SEL_CTRL, idx as u32)
    }

    /// Set the power state of a node.
    pub fn set_power_state(state: PowerState) -> (r: Self)
        requires
            state == PowerState::D0,
        ensures
            r.0 == verb_word(SET_POWER_STATE, 8, 0, 4),
            r.0 <= 0xfffff,
    {
        proof {
            lemma_verb_fits(SET_POWER_STATE, 8, 0, 4);
        }
        let val = bits::put_field_u32(0, 0, 4, state.as_u32());
        HDANodeCommandVerb(bits::put_field_u32(val, 8, 12, SET_POWER_STATE))
    }

    /// Set the gain and mute of an amplifier.
    pub fn set_amp_gain(gain: AmpGain) -> (r: Self)
        ensures
            r.0 == verb_word(SET_AMP_GAIN, 16, gain.0 as u32, 16),
            r.0 <= 0xfffff,
    {
        long_verb(SET_AMP_GAIN, gain.0 as u32)
    }

    /// Set the format of a converter.
    pub fn set_converter_format(format: u16) -> (r: Self)
        ensures
            r.0 == verb_word(SET_CONVERTER_FORMAT, 16, format as u32, 16),
            r.0 <= 0xfffff,
    {
        long_verb(SET_CONVERTER_FORMAT, format as u32)
    }
}

impl From<HDANodeCommandVerb> for u32 {
    fn from(verb: HDANodeCommandVerb) -> (r: u32) {
        verb.0
    }
}

impl vstd::std_specs::convert::FromSpecImpl<HDANodeCommandVerb> for u32 {
    open spec fn obeys_from_spec() -> bool {
        true
    }

    open spec fn from_spec(verb: HDANodeCommandVerb) -> u32 {
        verb.0
    }
}

/// The codec address and node id of a node.
#[derive(Clone, Copy, Debug, PartialEq, Eq, Structural)]
pub struct NodeAddr(pub u8, pub u8);

impl NodeAddr {
    /// The codec address.
    pub fn codec_addr(&self) -> (r: u8)
        ensures
            r == self.0,
    {
        self.0
    }

    /// The node id.
    pub fn node_id(&self) -> (r: u8)
        ensures
            r == self.1,
    {
        self.1
    }
}

/// A command for a codec.
#[derive(Clone, Copy, Debug, PartialEq, Eq, Structural)]
pub struct HDANodeCommand(pub u32);

pub const PARAMETER_NODE_COUNT: u8 = 0x04;
pub const PARAMETER_FUNC_GROUP_TYPE: u8 = 0x05;
pub const PARAMETER_AFG_WIDGET_CAPABILITIES: u8 = 0x09;
pub const PARAMETER_CONN_LIST_LEN: u8 = 0x0e;
pub const PARAMETER_OUTPUT_AMP_CAPABILITIES: u8 = 0x12;
pub const PARAMETER_PIN_CAPABILITIES: u8 = 0x0c;
pub const PARAMETER_AFG_CAPABILITIES: u8 = 0x08;

impl HDANodeCommand {
    /// The null command.
    pub fn null() -> (r: HDANodeCommand)
        ensures
            r.0 == 0,
    {
        HDANodeCommand(0)
    }

    /// Sends `verb` to node `node_id` of codec `codec_addr`.
    pub fn command(codec_addr: u8, node_id: u8, verb: HDANodeCommandVerb) -> (r: Self)
        requires
            codec_addr < 16,
            verb.0 <= 0xfffff,
        ensures
            r.0 == command_word(codec_addr, node_id, verb.0),
    {
        let val = bits::put_field_u32(0, 0, 20, verb.0);
        let val = bits::put_field_u32(val, 20, 8, node_id as u32);
        HDANodeCommand(bits::put_field_u32(val, 28, 4, codec_addr as u32))
    }

    /// Gets parameter `param_id` of a node.
    pub fn get_parameter(codec_addr: u8, node_id: u8, param_id: u8) -> (r: Self)
        requires
            codec_addr < 16,
        ensures
            r.0 == command_word(codec_addr, node_id, verb_word(GET_PARAMETER, 8, param_id as u32, 8)),
    {
        let verb = HDANodeCommandVerb::get_parameter(param_id);
        Self::command(codec_addr, node_id, verb)
    }

    /// Gets the number of subordinate nodes of a node.
    pub fn get_node_count(codec_addr: u8, node_id: u8) -> (r: Self)
        requires
            codec_addr < 16,
        ensures
            r.0 == command_word(codec_addr, node_id, verb_word(GET_PARAMETER, 8, PARAMETER_NODE_COUNT as u32, 8)),
    {
        Self::get_parameter(codec_addr, node_id, PARAMETER_NODE_COUNT)
    }

    /// Gets the function group type of a node.
    pub fn function_group_type(codec_addr: u8, node_id: u8) -> (r: Self)
        requires
            codec_addr < 16,
        ensures
            r.0 == command_word(codec_addr, node_id, verb_word(GET_PARAMETER, 8, PARAMETER_FUNC_GROUP_TYPE as u32, 8)),
    {
        Self::get_parameter(codec_addr, node_id, PARAMETER_FUNC_GROUP_TYPE)
    }

    /// Gets the audio function group capabilities of a node.
    pub fn afg_capabilities(codec_addr: u8, node_id: u8) -> (r: Self)
        requires
            codec_addr < 16,
        ensures
            r.0 == command_word(codec_addr, node_id, verb_word(GET_PARAMETER, 8, PARAMETER_AFG_CAPABILITIES as u32, 8)),
    {
        Self::get_parameter(codec_addr, node_id, PARAMETER_AFG_CAPABILITIES)
    }

    /// Gets the widget capabilities of a node.
    pub fn afg_widget_capabilities(codec_addr: u8, node_id: u8) -> (r: Self)
        requires
            codec_addr < 16,
        ensures
            r.0 == command_word(codec_addr, node_id, verb_word(GET_PARAMETER, 8, PARAMETER_AFG_WIDGET_CAPABILITIES as u32, 8)),
    {
        Self::get_parameter(codec_addr, node_id, PARAMETER_AFG_WIDGET_CAPABILITIES)
    }

    /// Gets the connection list length of a node.
    pub fn get_conn_list_len(codec_addr: u8, node_id: u8) -> (r: Self)
        requires
            codec_addr < 16,
        ensures
            r.0 == command_word(codec_addr, node_id, verb_word(GET_PARAMETER, 8, PARAMETER_CONN_LIST_LEN as u32, 8)),
    {
        Self::get_parameter(codec_addr, node_id, PARAMETER_CONN_LIST_LEN)
    }

    /// Gets the output amplifier capabilities of a node.
    pub fn get_out_amp_capabilties(codec_addr: u8, node_id: u8) -> (r: Self)
        requires
            codec_addr < 16,
        ensures
            r.0 == command_word(codec_addr, node_id, verb_word(GET_PARAMETER, 8, PARAMETER_OUTPUT_AMP_CAPABILITIES as u32, 8)),
    {
        Self::get_parameter(codec_addr, node_id, PARAMETER_OUTPUT_AMP_CAPABILITIES)
    }

    /// Gets the pin capabilities of a node.
    pub fn get_pin_capabilities(codec_addr: u8, node_id: u8) -> (r: Self)
        requires
            codec_addr < 16,
        ensures
            r.0 == command_word(codec_addr, node_id, verb_word(GET_PARAMETER, 8, PARAMETER_PIN_CAPABILITIES as u32, 8)),
    {
        Self::get_parameter(codec_addr, node_id, PARAMETER_PIN_CAPABILITIES)
    }

    /// Gets the connection list entries of a node starting at an index.
    pub fn get_conn_list_entry(codec_addr: u8, node_id: u8, entry_index: u8) -> (r: Self)
        requires
            codec_addr < 16,
        ensures
            r.0 == command_word(codec_addr, node_id, verb_word(GET_CONN_LIST_ENTRY, 8, entry_index as u32, 8)),
    {
        let verb = HDANodeCommandVerb::get_conn_list_entry(entry_index);
        Self::command(codec_addr, node_id, verb)
    }

    /// Gets the configuration defaults of a pin.
    pub fn get_pin_config_defaults(codec_addr: u8, node_id: u8) -> (r: Self)
        requires
            codec_addr < 16,
        ensures
            r.0 == command_word(codec_addr, node_id, verb_word(CONFIG_DEFAULT, 8, 0, 8)),
    {
        let verb = HDANodeCommandVerb::get_pin_config_defaults();
        Self::command(codec_addr, node_id, verb)
    }

    /// Sets the pin widget control of a pin.
    pub fn set_pin_widget_control(codec_addr: u8, node_id: u8, val: PinControl) -> (r: Self)
        requires
            codec_addr < 16,
        ensures
            r.0 == command_word(codec_addr, node_id, verb_word(SET_PIN_WIDGET_CONTROL, 8, val.0 as u32, 8)),
    {
        let verb = HDANodeCommandVerb::set_pin_widget_control(val);
        Self::command(codec_addr, node_id, verb)
    }

    /// Sets the stream and channel of a converter.
    pub fn set_converter_control(codec_addr: u8, node_id: u8, val: ConverterControl) -> (r: Self)
        requires
            codec_addr < 16,
        ensures
            r.0 == command_word(codec_addr, node_id, verb_word(SET_CONVERTER_CONTROL, 8, val.0 as u32, 8)),
    {
        let verb = HDANodeCommandVerb::set_converter_control(val);
        Self::command(codec_addr, node_id, verb)
    }

    /// Sets the gain and mute of an amplifier.
    pub fn set_amp_gain(codec_addr: u8, node_id: u8, amp_gain: AmpGain) -> (r: Self)
        requires
            codec_addr < 16,
        ensures
            r.0 == command_word(codec_addr, node_id, verb_word(SET_AMP_GAIN, 16, amp_gain.0 as u32, 16)),
    {
        let verb = HDANodeCommandVerb::set_amp_gain(amp_gain);
        Self::command(codec_addr, node_id, verb)
    }

    /// Selects a connection of a node.
    pub fn set_conn_select_ctrl(codec_addr: u8, node_id: u8, conn_idx: u8) -> (r: Self)
        requires
            codec_addr < 16,
        ensures
            r.0 == command_word(codec_addr, node_id, verb_word(SET_CONN_SELECT_CTRL, 8, conn_idx as u32, 8)),
    {
        let verb = HDANodeCommandVerb::set_conn_select_ctrl(conn_idx);
        Self::command(codec_addr, node_id, verb)
    }

    /// Sets the beep generator divider.
    pub fn set_beep_gen(codec_addr: u8, node_id: u8, divider: u8) -> (r: Self)
        requires
            codec_addr < 16,
        ensures
            r.0 == command_word(codec_addr, node_id, verb_word(SET_BEEP_GEN, 8, divider as u32, 8)),
    {
        let verb = HDANodeCommandVerb::set_beep_gen(divider);
        Self::command(codec_addr, node_id, verb)
    }

    /// Sets the format of a converter.
    pub fn set_converter_format(node_addr: NodeAddr, format: u16) -> (r: Self)
        requires
            node_addr.0 < 16,
        ensures
            r.0 == command_word(node_addr.0, node_addr.1, verb_word(SET_CONVERTER_FORMAT, 16, format as u32, 16)),
    {
        let verb = HDANodeCommandVerb::set_converter_format(format);
        Self::command(node_addr.codec_addr(), node_addr.node_id(), verb)
    }

    /// Gets the digital converter control of a converter.
    pub fn get_digital_converter_ctrl(node_addr: NodeAddr) -> (r: Self)
        requires
            node_addr.0 < 16,
        ensures
            r.0 == command_word(node_addr.0, node_addr.1, verb_word(GET_CONVERTER_CONTROL, 8, 0, 8)),
    {
        let verb = HDANodeCommandVerb::get_digital_converter_ctrl();
        Self::command(node_addr.codec_addr(), node_addr.node_id(), verb)
    }

    /// Gets the EAPD/BTL enable of a pin.
    pub fn eapd_enable(node_addr: NodeAddr) -> (r: Self)
        requires
            node_addr.0 < 16,
        ensures
            r.0 == command_word(node_addr.0, node_addr.1, verb_word(GET_EAPD_ENABLE, 8, 0, 8)),
    {
        let verb = HDANodeCommandVerb::get_eapd_enable();
        Self::command(node_addr.codec_addr(), node_addr.node_id(), verb)
    }

    /// Sets the EAPD/BTL enable of a pin.
    pub fn set_eapd_enable(node_addr: NodeAddr, val: u8) -> (r: Self)
        requires
            node_addr.0 < 16,
        ensures
            r.0 == command_word(node_addr.0, node_addr.1, verb_word(SET_EAPD_ENABLE, 8, val as u32, 8)),
    {
        let verb = HDANodeCommandVerb::set_eapd_enable(val);
        Self::command(node_addr.codec_addr(), node_addr.node_id(), verb)
    }

    /// Gets the selected connection of a node.
    pub fn get_conn_sel_ctrl(node_addr: NodeAddr) -> (r: Self)
        requires
            node_addr.0 < 16,
        ensures
            r.0 == command_word(node_addr.0, node_addr.1, verb_word(GET_CONN_SEL_CTRL, 8, 0, 8)),
    {
        let verb = HDANodeCommandVerb::get_conn_sel_ctrl();
        Self::command(node_addr.codec_addr(), node_addr.node_id(), verb)
    }

    /// Selects a connection of a node.
    pub fn set_conn_sel_ctrl(node_addr: NodeAddr, idx: u8) -> (r: Self)
        requires
            node_addr.0 < 16,
        ensures
            r.0 == command_word(node_addr.0, node_addr.1, verb_word(SET_CONN_SEL_CTRL, 8, idx as u32, 8)),
    {
        let verb = HDANodeCommandVerb::set_conn_sel_ctrl(idx);
        Self::command(node_addr.codec_addr(), node_addr.node_id(), verb)
    }

    /// Sets the power state of a node.
    pub fn set_power_state(codec_addr: u8, node_id: u8, val: PowerState) -> (r: Self)
        requires
            codec_addr < 16,
            val == PowerState::D0,
        ensures
            r.0 == command_word(codec_addr, node_id, verb_word(SET_POWER_STATE, 8, 0, 4)),
    {
        let verb = HDANodeCommandVerb::set_power_state(val);
        Self::command(codec_addr, node_id, verb)
    }

    /// Gets the gain of the left output amplifier of a node.
    pub fn get_amp_gain(codec_addr: u8, node_id: u8) -> (r: Self)
        requires
            codec_addr < 16,
        ensures
            r.0 == bits::with_field_u32(
                bits::with_field_u32(
                    bits::with_field_u32(bits::with_field_u32(0, 16, 4, 0xb), 0, 16, 0b1010000000000000),
                    20,
                    8,
                    node_id as u32,
                ),
                28,
                4,
                codec_addr as u32,
            ),
    {
        let val = bits::put_field_u32(0, 16, 4, 0xb);
        let val = bits::put_field_u32(val, 0, 16, 0b1010000000000000);
        let val = bits::put_field_u32(val, 20, 8, node_id as u32);
        HDANodeCommand(bits::put_field_u32(val, 28, 4, codec_addr as u32))
    }

    /// The four commands that write the four bytes of a digital converter control.
    pub fn set_digital_converter_ctrl(node_addr: NodeAddr, digi_ctrl: u32) -> (r: [Self; 4])
        requires
            node_addr.0 < 16,
        ensures
            r[0].0 == command_word(node_addr.0, node_addr.1,
                verb_word(SET_CONVERTER_CONTROL1, 8, bits::field_u32(digi_ctrl, 0, 8) as u8 as u32, 8)),
            r[1].0 == command_word(node_addr.0, node_addr.1,
                verb_word(SET_CONVERTER_CONTROL2, 8, bits::field_u32(digi_ctrl, 8, 8) as u8 as u32, 8)),
            r[2].0 == command_word(node_addr.0, node_addr.1,
                verb_word(SET_CONVERTER_CONTROL3, 8, bits::field_u32(digi_ctrl, 16, 8) as u8 as u32, 8)),
            r[3].0 == command_word(node_addr.0, node_addr.1,
                verb_word(SET_CONVERTER_CONTROL4, 8, bits::field_u32(digi_ctrl, 24, 8) as u8 as u32, 8)),
    {
        let bits1 = bits::get_field_u32(digi_ctrl, 0, 8) as u8;
        let bits2 = bits::get_field_u32(digi_ctrl, 8, 8) as u8;
        let bits3 = bits::get_field_u32(digi_ctrl, 16, 8) as u8;
        let bits4 = bits::get_field_u32(digi_ctrl, 24, 8) as u8;
        let verb1 = HDANodeCommandVerb::set_digital_converter_ctrl1(bits1);
        let verb2 = HDANodeCommandVerb::set_digital_converter_ctrl2(bits2);
        let verb3 = HDANodeCommandVerb::set_digital_converter_ctrl3(bits3);
        let verb4 = HDANodeCommandVerb::set_digital_converter_ctrl4(bits4);
        let c = node_addr.codec_addr();
        let n = node_addr.node_id();
        [
            Self::command(c, n, verb1),
            Self::command(c, n, verb2),
            Self::command(c, n, verb3),
            Self::command(c, n, verb4),
        ]
    }
}

impl From<HDANodeCommand> for u32 {
    fn from(command: HDANodeCommand) -> (r: u32) {
        command.0
    }
}

impl vstd::std_specs::convert::FromSpecImpl<HDANodeCommand> for u32 {
    open spec fn obeys_from_spec() -> bool {
        true
    }

    open spec fn from_spec(command: HDANodeCommand) -> u32 {
        command.0
    }
}

/// The control of a pin widget.
#[derive(Clone, Copy, Debug, PartialEq, Eq, Structural)]
pub struct PinControl(pub u8);

impl PinControl {
    /// The value with every flag clear.
    pub fn new() -> (r: Self)
        ensures
            r.0 == 0,
    {
        PinControl(0)
    }

    /// Enables or disables the input.
    pub fn input_enabled(self, enable: bool) -> (r: Self)
        ensures
            r.0 == bits::with_bit_u8(self.0, 5, enable),
    {
        PinControl(bits::put_bit_u8(self.0, 5, enable))
    }

    /// Enables or disables the output.
    pub fn output_enabled(self, enable: bool) -> (r: Self)
        ensures
            r.0 == bits::with_bit_u8(self.0, 6, enable),
    {
        PinControl(bits::put_bit_u8(self.0, 6, enable))
    }

}

impl From<PinControl> for u32 {
    fn from(v: PinControl) -> (r: u32) {
        v.0 as u32
    }
}

impl vstd::std_specs::convert::FromSpecImpl<PinControl> for u32 {
    open spec fn obeys_from_spec() -> bool {
        true
    }

    open spec fn from_spec(v: PinControl) -> u32 {
        v.0 as u32
    }
}

/// The stream and channel of a converter.
#[derive(Clone, Copy, Debug, PartialEq, Eq, Structural)]
pub struct ConverterControl(pub u8);

impl ConverterControl {
    /// The value with every flag clear.
    pub fn new() -> (r: Self)
        ensures
            r.0 == 0,
    {
        ConverterControl(0)
    }

    /// Sets the stream tag.
    pub fn stream(self, stream: u8) -> (r: Self)
        requires
            stream < 16,
        ensures
            r.0 == bits::with_field_u8(self.0, 4, 4, stream),
    {
        ConverterControl(bits::put_field_u8(self.0, 4, 4, stream))
    }

    /// Sets the lowest channel.
    pub fn channel(self, channel: u8) -> (r: Self)
        requires
            channel < 16,
        ensures
            r.0 == bits::with_field_u8(self.0, 0, 4, channel),
    {
        ConverterControl(bits::put_field_u8(self.0, 0, 4, channel))
    }

}

impl From<ConverterControl> for u32 {
    fn from(v: ConverterControl) -> (r: u32) {
        v.0 as u32
    }
}

impl vstd::std_specs::convert::FromSpecImpl<ConverterControl> for u32 {
    open spec fn obeys_from_spec() -> bool {
        true
    }

    open spec fn from_spec(v: ConverterControl) -> u32 {
        v.0 as u32
    }
}

/// The power state of a widget.
#[derive(Clone, Copy, Debug, PartialEq, Eq, Structural)]
pub enum PowerState {
    /// Fully powered on.
    D0,
    Other,
}

impl PowerState {
    /// The encoding of the state; only `D0` has one here.
    pub fn as_u32(&self) -> (r: u32)
        requires
            *self == PowerState::D0,
        ensures
            r == 0,
    {
        0
    }
}

/// The gain and mute of an amplifier, as sent with a set amplifier gain verb.
#[derive(Clone, Copy, Debug, PartialEq, Eq, Structural)]
pub struct AmpGain(pub u16);

impl AmpGain {
    /// The value with every flag clear.
    pub fn new() -> (r: Self)
        ensures
            r.0 == 0,
    {
        AmpGain(0)
    }

    /// Mutes or unmutes.
    pub fn mute(self, mute: bool) -> (r: Self)
        ensures
            r.0 == bits::with_bit_u16(self.0, 7, mute),
    {
        AmpGain(bits::put_bit_u16(self.0, 7, mute))
    }

    /// Selects the output amplifier.
    pub fn output_amp(self, amp: bool) -> (r: Self)
        ensures
            r.0 == bits::with_bit_u16(self.0, 15, amp),
    {
        AmpGain(bits::put_bit_u16(self.0, 15, amp))
    }

    /// Selects the left amplifier.
    pub fn left_amp(self, amp: bool) -> (r: Self)
        ensures
            r.0 == bits::with_bit_u16(self.0, 13, amp),
    {
        AmpGain(bits::put_bit_u16(self.0, 13, amp))
    }

    /// Selects the right amplifier.
    pub fn right_amp(self, amp: bool) -> (r: Self)
        ensures
            r.0 == bits::with_bit_u16(self.0, 12, amp),
    {
        AmpGain(bits::put_bit_u16(self.0, 12, amp))
    }

    /// Sets the gain.
    pub fn gain(self, gain: u8) -> (r: Self)
        requires
            gain < 128,
        ensures
            r.0 == bits::with_field_u16(self.0, 0, 7, gain as u16),
    {
        AmpGain(bits::put_field_u16(self.0, 0, 7, gain as u16))
    }

    /// Sets the index of the input amplifier.
    pub fn index(self, idx: u8) -> (r: Self)
        requires
            idx < 16,
        ensures
            r.0 == bits::with_field_u16(self.0, 8, 4, idx as u16),
    {
        AmpGain(bits::put_field_u16(self.0, 8, 4, idx as u16))
    }

}

impl From<AmpGain> for u32 {
    fn from(v: AmpGain) -> (r: u32) {
        v.0 as u32
    }
}

impl vstd::std_specs::convert::FromSpecImpl<AmpGain> for u32 {
    open spec fn obeys_from_spec() -> bool {
        true
    }

    open spec fn from_spec(v: AmpGain) -> u32 {
        v.0 as u32
    }
}

/// A response of a codec as the controller places it in the RIRB.
#[derive(Clone, Copy, Debug, PartialEq, Eq, Structural)]
pub struct HDANodeResponse {
    /// The response of the codec.
    pub response: u32,
    /// What the controller adds to the response.
    pub response_info: ResponseInfo,
}

impl HDANodeResponse {
    /// The empty response.
    pub fn null() -> (r: Self)
        ensures
            r.response == 0,
            r.response_info.0 == 0,
    {
        HDANodeResponse { response: 0, response_info: ResponseInfo(0) }
    }

    /// Reads the response as a node count; an empty response is an error.
    pub fn node_count_resp(&self) -> (r: Result<HDANodeResponseNodeCount, ()>)
        ensures
            r == if self.response != 0 { Ok::<HDANodeResponseNodeCount, ()>(HDANodeResponseNodeCount(self.response)) } else { Err(()) },
    {
        if self.response != 0 {
            Ok(HDANodeResponseNodeCount(self.response))
        } else {
            Err(())
        }
    }

    /// Reads the response as a function group type; an empty response is an error.
    pub fn func_group_type_resp(&self) -> (r: Result<HDANodeResponseFunctionGroupType, ()>)
        ensures
            r == if self.response != 0 { Ok::<HDANodeResponseFunctionGroupType, ()>(HDANodeResponseFunctionGroupType(self.response)) } else { Err(()) },
    {
        if self.response != 0 {
            Ok(HDANodeResponseFunctionGroupType(self.response))
        } else {
            Err(())
        }
    }

    /// Reads the response as widget capabilities; an empty response is an error.
    pub fn afg_widget_capabilities_resp(&self) -> (r: Result<HDANodeResponseAFGWidgetCap, ()>)
        ensures
            r == if self.response != 0 { Ok::<HDANodeResponseAFGWidgetCap, ()>(HDANodeResponseAFGWidgetCap(self.response)) } else { Err(()) },
    {
        if self.response != 0 {
            Ok(HDANodeResponseAFGWidgetCap(self.response))
        } else {
            Err(())
        }
    }

    /// Reads the response as a connection list length; an empty response is an error.
    pub fn get_conn_list_len_resp(&self) -> (r: Result<HDANodeResponseGetConnListLen, ()>)
        ensures
            r == if self.response != 0 { Ok::<HDANodeResponseGetConnListLen, ()>(HDANodeResponseGetConnListLen(self.response)) } else { Err(()) },
    {
        if self.response != 0 {
            Ok(HDANodeResponseGetConnListLen(self.response))
        } else {
            Err(())
        }
    }

    /// Reads the response as pin configuration defaults; an empty response is an error.
    pub fn get_pin_config_defaults_resp(&self) -> (r: Result<HDANodeResponsePinConfigDefaults, ()>)
        ensures
            r == if self.response != 0 { Ok::<HDANodeResponsePinConfigDefaults, ()>(HDANodeResponsePinConfigDefaults(self.response)) } else { Err(()) },
    {
        if self.response != 0 {
            Ok(HDANodeResponsePinConfigDefaults(self.response))
        } else {
            Err(())
        }
    }

    /// Reads the response as amplifier capabilities; an empty response is an error.
    pub fn amp_capabilities_resp(&self) -> (r: Result<HDANodeResponseAmpCapabilities, ()>)
        ensures
            r == if self.response != 0 { Ok::<HDANodeResponseAmpCapabilities, ()>(HDANodeResponseAmpCapabilities(self.response)) } else { Err(()) },
    {
        if self.response != 0 {
            Ok(HDANodeResponseAmpCapabilities(self.response))
        } else {
            Err(())
        }
    }

    /// Reads the response as pin capabilities; an empty response is an error.
    pub fn pin_capabilities_resp(&self) -> (r: Result<HDANodeResponsePinCapabilities, ()>)
        ensures
            r == if self.response != 0 { Ok::<HDANodeResponsePinCapabilities, ()>(HDANodeResponsePinCapabilities(self.response)) } else { Err(()) },
    {
        if self.response != 0 {
            Ok(HDANodeResponsePinCapabilities(self.response))
        } else {
            Err(())
        }
    }

    /// Reads the response as audio function group capabilities; an empty response is an error.
    pub fn afg_cap_resp(&self) -> (r: Result<AFGCapResp, ()>)
        ensures
            r == if self.response != 0 { Ok::<AFGCapResp, ()>(AFGCapResp(self.response)) } else { Err(()) },
    {
        if self.response != 0 {
            Ok(AFGCapResp(self.response))
        } else {
            Err(())
        }
    }

    /// Reads the response as connection list entries, in the long or short form.
    pub fn get_conn_list_entry_resp(&self, long: bool) -> (r: Result<HDANodeResponseGetConnListEntry, ()>)
        ensures
            r == if self.response != 0 {
                Ok::<HDANodeResponseGetConnListEntry, ()>(HDANodeResponseGetConnListEntry { resp: self.response, long })
            } else {
                Err(())
            },
    {
        if self.response != 0 {
            Ok(HDANodeResponseGetConnListEntry { resp: self.response, long })
        } else {
            Err(())
        }
    }

    /// Reads the response as a digital converter control.
    pub fn digital_converter_ctrl_resp(&self) -> (r: Result<DigitalConverterControl, ()>)
        ensures
            r == Ok::<DigitalConverterControl, ()>(DigitalConverterControl(self.response)),
    {
        Ok(DigitalConverterControl(self.response))
    }

    /// Reads the response as an EAPD/BTL enable.
    pub fn eapd_enable_resp(&self) -> (r: Result<EAPDEnable, ()>)
        ensures
            r == Ok::<EAPDEnable, ()>(EAPDEnable(self.response as u8)),
    {
        Ok(EAPDEnable(self.response as u8))
    }

    /// Reads the response as the selected connection.
    pub fn get_conn_sel_ctrl_resp(&self) -> (r: Result<GetConnSelCtrlResp, ()>)
        ensures
            r == Ok::<GetConnSelCtrlResp, ()>(GetConnSelCtrlResp(self.response)),
    {
        Ok(GetConnSelCtrlResp(self.response))
    }
}

impl From<u32> for HDANodeResponse {
    fn from(val: u32) -> (r: HDANodeResponse) {
        HDANodeResponse { response: val, response_info: ResponseInfo(0) }
    }
}

impl vstd::std_specs::convert::FromSpecImpl<u32> for HDANodeResponse {
    open spec fn obeys_from_spec() -> bool {
        true
    }

    open spec fn from_spec(val: u32) -> HDANodeResponse {
        HDANodeResponse { response: val, response_info: ResponseInfo(0) }
    }
}

/// What the controller adds to a response.
#[derive(Clone, Copy, Debug, PartialEq, Eq, Structural)]
pub struct ResponseInfo(pub u32);

impl ResponseInfo {
    /// The address of the codec that sent the response.
    pub fn codec(&self) -> (r: u8)
        ensures
            r == bits::field_u32(self.0, 0, 4) as u8,
    {
        bits::get_field_u32(self.0, 0, 4) as u8
    }

    /// Whether the response answers a command.
    pub fn solicited(&self) -> (r: bool)
        ensures
            r == !bits::bit_u32(self.0, 4),
    {
        !bits::get_bit_u32(self.0, 4)
    }

}

/// The answer to a node count parameter.
#[derive(Clone, Copy, Debug, PartialEq, Eq, Structural)]
pub struct HDANodeResponseNodeCount(pub u32);

impl HDANodeResponseNodeCount {
    /// The node id of the first subordinate node.
    pub fn start_node_number(&self) -> (r: u8)
        ensures
            r == bits::field_u32(self.0, 16, 8) as u8,
    {
        bits::get_field_u32(self.0, 16, 8) as u8
    }

    /// The number of subordinate nodes.
    pub fn number_of_nodes(&self) -> (r: u8)
        ensures
            r == bits::field_u32(self.0, 0, 8) as u8,
    {
        bits::get_field_u32(self.0, 0, 8) as u8
    }

}

/// The type of a function group.
#[derive(Clone, Copy, Debug, PartialEq, Eq, Structural)]
pub enum HDANodeFunctionGroupType {
    /// Audio function group.
    AFG,
    /// Modem function group.
    MFG,
    Other,
}

/// The function group type that a parameter value encodes, if any.
pub open spec fn decode_function_group_type(v: u8) -> Result<HDANodeFunctionGroupType, ()> {
    if v == 1 {
        Ok(HDANodeFunctionGroupType::AFG)
    } else if v == 2 {
        Ok(HDANodeFunctionGroupType::MFG)
    } else if v >= 0x80 {
        Ok(HDANodeFunctionGroupType::Other)
    } else {
        Err(())
    }
}

impl TryFrom<u8> for HDANodeFunctionGroupType {
    type Error = ();

    fn try_from(v: u8) -> (r: Result<HDANodeFunctionGroupType, ()>) {
        if v == 1 {
            Ok(HDANodeFunctionGroupType::AFG)
        } else if v == 2 {
            Ok(HDANodeFunctionGroupType::MFG)
        } else if v >= 0x80 {
            Ok(HDANodeFunctionGroupType::Other)
        } else {
            Err(())
        }
    }
}

impl vstd::std_specs::convert::TryFromSpecImpl<u8> for HDANodeFunctionGroupType {
    open spec fn obeys_try_from_spec() -> bool {
        true
    }

    open spec fn try_from_spec(v: u8) -> Result<HDANodeFunctionGroupType, ()> {
        decode_function_group_type(v)
    }
}

/// The answer to a function group type parameter.
#[derive(Clone, Copy, Debug, PartialEq, Eq, Structural)]
pub struct HDANodeResponseFunctionGroupType(pub u32);

impl HDANodeResponseFunctionGroupType {
    /// The type of the function group.
    pub fn node_type(&self) -> (r: HDANodeFunctionGroupType)
        requires
            decode_function_group_type(bits::field_u32(self.0, 0, 8) as u8) is Ok,
        ensures
            decode_function_group_type(bits::field_u32(self.0, 0, 8) as u8) == Ok::<HDANodeFunctionGroupType, ()>(r),
    {
        match HDANodeFunctionGroupType::try_from(bits::get_field_u32(self.0, 0, 8) as u8) {
            Ok(t) => t,
            Err(_) => HDANodeFunctionGroupType::Other,
        }
    }

    /// Whether the group can send unsolicited responses.
    pub fn capable_of_unsolicited_responses(&self) -> (r: bool)
        ensures
            r == bits::bit_u32(self.0, 8),
    {
        bits::get_bit_u32(self.0, 8)
    }

}

/// The type of a widget of an audio function group.
#[derive(Clone, Copy, Debug, PartialEq, Eq, Structural)]
pub enum HDAAFGWidgetType {
    AudioOutput,
    AudioInput,
    AudioMixer,
    AudioSelector,
    PinComplex,
    Power,
    VolumeKnob,
    BeepGenerator,
    Other,
}

impl HDAAFGWidgetType {
    /// The encoding of the value in its register field.
    pub open spec fn bits(self) -> u8 {
        match self {
            HDAAFGWidgetType::AudioOutput => 0,
            HDAAFGWidgetType::AudioInput => 1,
            HDAAFGWidgetType::AudioMixer => 2,
            HDAAFGWidgetType::AudioSelector => 3,
            HDAAFGWidgetType::PinComplex => 4,
            HDAAFGWidgetType::Power => 5,
            HDAAFGWidgetType::VolumeKnob => 6,
            HDAAFGWidgetType::BeepGenerator => 7,
            HDAAFGWidgetType::Other => 15,
        }
    }

    /// The encoding of the value in its register field.
    pub fn as_bits(&self) -> (r: u8)
        ensures
            r == self.bits(),
    {
        match *self {
            HDAAFGWidgetType::AudioOutput => 0,
            HDAAFGWidgetType::AudioInput => 1,
            HDAAFGWidgetType::AudioMixer => 2,
            HDAAFGWidgetType::AudioSelector => 3,
            HDAAFGWidgetType::PinComplex => 4,
            HDAAFGWidgetType::Power => 5,
            HDAAFGWidgetType::VolumeKnob => 6,
            HDAAFGWidgetType::BeepGenerator => 7,
            HDAAFGWidgetType::Other => 15,
        }
    }
}

/// The value that a register field encodes, if any.
pub open spec fn decode_hdaafgwidgettype(v: u8) -> Result<HDAAFGWidgetType, ()> {
    match v {
            0 => Ok(HDAAFGWidgetType::AudioOutput),
            1 => Ok(HDAAFGWidgetType::AudioInput),
            2 => Ok(HDAAFGWidgetType::AudioMixer),
            3 => Ok(HDAAFGWidgetType::AudioSelector),
            4 => Ok(HDAAFGWidgetType::PinComplex),
            5 => Ok(HDAAFGWidgetType::Power),
            6 => Ok(HDAAFGWidgetType::VolumeKnob),
            7 => Ok(HDAAFGWidgetType::BeepGenerator),
            15 => Ok(HDAAFGWidgetType::Other),
        _ => Err(()),
    }
}

impl TryFrom<u8> for HDAAFGWidgetType {
    type Error = ();

    fn try_from(v: u8) -> (r: Result<HDAAFGWidgetType, ()>) {
        match v {
            0 => Ok(HDAAFGWidgetType::AudioOutput),
            1 => Ok(HDAAFGWidgetType::AudioInput),
            2 => Ok(HDAAFGWidgetType::AudioMixer),
            3 => Ok(HDAAFGWidgetType::AudioSelector),
            4 => Ok(HDAAFGWidgetType::PinComplex),
            5 => Ok(HDAAFGWidgetType::Power),
            6 => Ok(HDAAFGWidgetType::VolumeKnob),
            7 => Ok(HDAAFGWidgetType::BeepGenerator),
            15 => Ok(HDAAFGWidgetType::Other),
            _ => Err(()),
        }
    }
}

impl vstd::std_specs::convert::TryFromSpecImpl<u8> for HDAAFGWidgetType {
    open spec fn obeys_try_from_spec() -> bool {
        true
    }

    open spec fn try_from_spec(v: u8) -> Result<HDAAFGWidgetType, ()> {
        decode_hdaafgwidgettype(v)
    }
}

/// The answer to a widget capabilities parameter.
#[derive(Clone, Copy, Debug, PartialEq, Eq, Structural)]
pub struct HDANodeResponseAFGWidgetCap(pub u32);

impl HDANodeResponseAFGWidgetCap {
    /// The type of the widget.
    pub fn widget_type(&self) -> (r: HDAAFGWidgetType)
        requires
            decode_hdaafgwidgettype(bits::field_u32(self.0, 20, 4) as u8) is Ok,
        ensures
            decode_hdaafgwidgettype(bits::field_u32(self.0, 20, 4) as u8) == Ok::<HDAAFGWidgetType, ()>(r),
    {
        match HDAAFGWidgetType::try_from(bits::get_field_u32(self.0, 20, 4) as u8) {
            Ok(t) => t,
            Err(_) => HDAAFGWidgetType::Other,
        }
    }

    /// The type of the widget; an error for a type code that names none.
    pub fn try_widget_type(&self) -> (r: Result<HDAAFGWidgetType, ()>)
        ensures
            r == decode_hdaafgwidgettype(bits::field_u32(self.0, 20, 4) as u8),
    {
        HDAAFGWidgetType::try_from(bits::get_field_u32(self.0, 20, 4) as u8)
    }

    /// Whether the widget has a connection list.
    pub fn connection_list_present(&self) -> (r: bool)
        ensures
            r == bits::bit_u32(self.0, 8),
    {
        bits::get_bit_u32(self.0, 8)
    }

    /// Whether the widget supports power state control.
    pub fn power_ctrl_supported(&self) -> (r: bool)
        ensures
            r == bits::bit_u32(self.0, 10),
    {
        bits::get_bit_u32(self.0, 10)
    }

}

/// The answer to a get connection list entry verb.
#[derive(Clone, Copy, Debug, PartialEq, Eq, Structural)]
pub struct HDANodeResponseGetConnListEntry {
    pub resp: u32,
    /// Whether the entries are in the long (16 bit) form.
    pub long: bool,
}

impl HDANodeResponseGetConnListEntry {
    /// The entries, read one at a time.
    pub fn entries(&self) -> (r: ConnListEntryIter)
        ensures
            r.entries == self.resp,
            r.long == self.long,
            r.curr_index == 0,
    {
        ConnListEntryIter { entries: self.resp, long: self.long, curr_index: 0 }
    }
}

/// The entry at position `i` of a connection list response.
pub open spec fn conn_list_entry(entries: u32, long: bool, i: int) -> u16 {
    if long {
        if i == 0 {
            entries as u16
        } else if i == 1 {
            (entries >> 16u32) as u16
        } else {
            0
        }
    } else {
        (((entries >> ((8 * i) as u32)) as u8) as u16)
    }
}

/// A reader of the entries of a connection list response.
#[derive(Clone, Copy, Debug, PartialEq, Eq, Structural)]
pub struct ConnListEntryIter {
    pub entries: u32,
    pub long: bool,
    pub curr_index: u8,
}

impl ConnListEntryIter {
    /// The next entry; none after the last entry or at an empty entry.
    pub fn next(&mut self) -> (r: Option<u16>)
        ensures
            final(self).entries == old(self).entries,
            final(self).long == old(self).long,
            ({
                let max = if old(self).long { 2int } else { 4int };
                if old(self).curr_index >= max {
                    &&& r is None
                    &&& final(self).curr_index == old(self).curr_index
                } else {
                    let e = conn_list_entry(old(self).entries, old(self).long, old(self).curr_index as int);
                    &&& final(self).curr_index == old(self).curr_index + 1
                    &&& r == if e == 0 { None } else { Some(e) }
                }
            }),
    {
        if self.long && self.curr_index >= 2 {
            return None;
        }
        if !self.long && self.curr_index >= 4 {
            return None;
        }
        let e: u16 = if self.long {
            if self.curr_index == 0 {
                self.entries as u16
            } else {
                (self.entries >> 16u32) as u16
            }
        } else {
            ((self.entries >> (8 * self.curr_index as u32)) as u8) as u16
        };
        self.curr_index = self.curr_index + 1;
        if e == 0 {
            None
        } else {
            Some(e)
        }
    }
}

/// The answer to a connection list length parameter.
#[derive(Clone, Copy, Debug, PartialEq, Eq, Structural)]
pub struct HDANodeResponseGetConnListLen(pub u32);

impl HDANodeResponseGetConnListLen {
    /// Whether the entries are in the long (16 bit) form.
    pub fn long_form(&self) -> (r: bool)
        ensures
            r == bits::bit_u32(self.0, 7),
    {
        bits::get_bit_u32(self.0, 7)
    }

    /// The number of entries.
    pub fn conn_list_len(&self) -> (r: u8)
        ensures
            r == bits::field_u32(self.0, 0, 7) as u8,
    {
        bits::get_field_u32(self.0, 0, 7) as u8
    }

}

/// How a pin complex is connected.
#[derive(Clone, Copy, Debug, PartialEq, Eq, Structural)]
pub enum PortConnectivity {
    Jack,
    Unconnected,
    FixedFuncDevice,
    JackAndInternalDevice,
}

impl PortConnectivity {
    /// The encoding of the value in its register field.
    pub open spec fn bits(self) -> u8 {
        match self {
            PortConnectivity::Jack => 0,
            PortConnectivity::Unconnected => 1,
            PortConnectivity::FixedFuncDevice => 2,
            PortConnectivity::JackAndInternalDevice => 3,
        }
    }

    /// The encoding of the value in its register field.
    pub fn as_bits(&self) -> (r: u8)
        ensures
            r == self.bits(),
    {
        match *self {
            PortConnectivity::Jack => 0,
            PortConnectivity::Unconnected => 1,
            PortConnectivity::FixedFuncDevice => 2,
            PortConnectivity::JackAndInternalDevice => 3,
        }
    }
}

/// The value that a register field encodes, if any.
pub open spec fn decode_portconnectivity(v: u8) -> Result<PortConnectivity, ()> {
    match v {
            0 => Ok(PortConnectivity::Jack),
            1 => Ok(PortConnectivity::Unconnected),
            2 => Ok(PortConnectivity::FixedFuncDevice),
            3 => Ok(PortConnectivity::JackAndInternalDevice),
        _ => Err(()),
    }
}

impl TryFrom<u8> for PortConnectivity {
    type Error = ();

    fn try_from(v: u8) -> (r: Result<PortConnectivity, ()>) {
        match v {
            0 => Ok(PortConnectivity::Jack),
            1 => Ok(PortConnectivity::Unconnected),
            2 => Ok(PortConnectivity::FixedFuncDevice),
            3 => Ok(PortConnectivity::JackAndInternalDevice),
            _ => Err(()),
        }
    }
}

impl vstd::std_specs::convert::TryFromSpecImpl<u8> for PortConnectivity {
    open spec fn obeys_try_from_spec() -> bool {
        true
    }

    open spec fn try_from_spec(v: u8) -> Result<PortConnectivity, ()> {
        decode_portconnectivity(v)
    }
}

/// The intended use of what is connected to a pin complex.
#[derive(Clone, Copy, Debug, PartialEq, Eq, Structural)]
pub enum DefaultDevice {
    LineOut,
    Speaker,
    HPOut,
    CD,
    SPDIFOut,
    DigitalOtherOut,
    ModemLineSide,
    ModemHandsetSide,
    LineIn,
    AUX,
    MicIn,
    Telephony,
    SPDIFIn,
    DigitalOtherIn,
    Other,
}

impl DefaultDevice {
    /// The encoding of the value in its register field.
    pub open spec fn bits(self) -> u8 {
        match self {
            DefaultDevice::LineOut => 0,
            DefaultDevice::Speaker => 1,
            DefaultDevice::HPOut => 2,
            DefaultDevice::CD => 3,
            DefaultDevice::SPDIFOut => 4,
            DefaultDevice::DigitalOtherOut => 5,
            DefaultDevice::ModemLineSide => 6,
            DefaultDevice::ModemHandsetSide => 7,
            DefaultDevice::LineIn => 8,
            DefaultDevice::AUX => 9,
            DefaultDevice::MicIn => 10,
            DefaultDevice::Telephony => 11,
            DefaultDevice::SPDIFIn => 12,
            DefaultDevice::DigitalOtherIn => 13,
            DefaultDevice::Other => 14,
        }
    }

    /// The encoding of the value in its register field.
    pub fn as_bits(&self) -> (r: u8)
        ensures
            r == self.bits(),
    {
        match *self {
            DefaultDevice::LineOut => 0,
            DefaultDevice::Speaker => 1,
            DefaultDevice::HPOut => 2,
            DefaultDevice::CD => 3,
            DefaultDevice::SPDIFOut => 4,
            DefaultDevice::DigitalOtherOut => 5,
            DefaultDevice::ModemLineSide => 6,
            DefaultDevice::ModemHandsetSide => 7,
            DefaultDevice::LineIn => 8,
            DefaultDevice::AUX => 9,
            DefaultDevice::MicIn => 10,
            DefaultDevice::Telephony => 11,
            DefaultDevice::SPDIFIn => 12,
            DefaultDevice::DigitalOtherIn => 13,
            DefaultDevice::Other => 14,
        }
    }
}

/// The value that a register field encodes, if any.
pub open spec fn decode_defaultdevice(v: u8) -> Result<DefaultDevice, ()> {
    match v {
            0 => Ok(DefaultDevice::LineOut),
            1 => Ok(DefaultDevice::Speaker),
            2 => Ok(DefaultDevice::HPOut),
            3 => Ok(DefaultDevice::CD),
            4 => Ok(DefaultDevice::SPDIFOut),
            5 => Ok(DefaultDevice::DigitalOtherOut),
            6 => Ok(DefaultDevice::ModemLineSide),
            7 => Ok(DefaultDevice::ModemHandsetSide),
            8 => Ok(DefaultDevice::LineIn),
            9 => Ok(DefaultDevice::AUX),
            10 => Ok(DefaultDevice::MicIn),
            11 => Ok(DefaultDevice::Telephony),
            12 => Ok(DefaultDevice::SPDIFIn),
            13 => Ok(DefaultDevice::DigitalOtherIn),
            14 => Ok(DefaultDevice::Other),
        _ => Err(()),
    }
}

impl TryFrom<u8> for DefaultDevice {
    type Error = ();

    fn try_from(v: u8) -> (r: Result<DefaultDevice, ()>) {
        match v {
            0 => Ok(DefaultDevice::LineOut),
            1 => Ok(DefaultDevice::Speaker),
            2 => Ok(DefaultDevice::HPOut),
            3 => Ok(DefaultDevice::CD),
            4 => Ok(DefaultDevice::SPDIFOut),
            5 => Ok(DefaultDevice::DigitalOtherOut),
            6 => Ok(DefaultDevice::ModemLineSide),
            7 => Ok(DefaultDevice::ModemHandsetSide),
            8 => Ok(DefaultDevice::LineIn),
            9 => Ok(DefaultDevice::AUX),
            10 => Ok(DefaultDevice::MicIn),
            11 => Ok(DefaultDevice::Telephony),
            12 => Ok(DefaultDevice::SPDIFIn),
            13 => Ok(DefaultDevice::DigitalOtherIn),
            14 => Ok(DefaultDevice::Other),
            _ => Err(()),
        }
    }
}

impl vstd::std_specs::convert::TryFromSpecImpl<u8> for DefaultDevice {
    open spec fn obeys_try_from_spec() -> bool {
        true
    }

    open spec fn try_from_spec(v: u8) -> Result<DefaultDevice, ()> {
        decode_defaultdevice(v)
    }
}

/// The configuration defaults of a pin complex.
#[derive(Clone, Copy, Debug, PartialEq, Eq, Structural)]
pub struct HDANodeResponsePinConfigDefaults(pub u32);

impl HDANodeResponsePinConfigDefaults {
    /// How the pin complex is connected.
    pub fn port_connectivity(&self) -> (r: PortConnectivity)
        ensures
            r.bits() == bits::field_u32(self.0, 30, 2),
    {
        proof {
            bits::lemma_field_le_mask_u32(self.0, 30, 2);
            bits::lemma_small_masks();
        }
        let v = bits::get_field_u32(self.0, 30, 2);
        if v == 0 {
            PortConnectivity::Jack
        } else if v == 1 {
            PortConnectivity::Unconnected
        } else if v == 2 {
            PortConnectivity::FixedFuncDevice
        } else {
            PortConnectivity::JackAndInternalDevice
        }
    }

    /// The intended use of what is connected; codes 14 and 15 are both `Other`.
    pub fn default_device(&self) -> (r: DefaultDevice)
        ensures
            r.bits() == if bits::field_u32(self.0, 20, 4) >= 14 { 14 } else { bits::field_u32(self.0, 20, 4) },
    {
        proof {
            bits::lemma_field_le_mask_u32(self.0, 20, 4);
            bits::lemma_small_masks();
        }
        let v = bits::get_field_u32(self.0, 20, 4) as u8;
        match DefaultDevice::try_from(v) {
            Ok(d) => d,
            Err(_) => DefaultDevice::Other,
        }
    }

}

/// The capabilities of an amplifier.
#[derive(Clone, Copy, Debug, PartialEq, Eq, Structural)]
pub struct HDANodeResponseAmpCapabilities(pub u32);

impl HDANodeResponseAmpCapabilities {
    /// The gain step that gives 0 dB.
    pub fn offset(&self) -> (r: u8)
        ensures
            r == bits::field_u32(self.0, 0, 7) as u8,
    {
        bits::get_field_u32(self.0, 0, 7) as u8
    }

    /// The size of each step.
    pub fn step_size(&self) -> (r: u8)
        ensures
            r == bits::field_u32(self.0, 16, 7) as u8,
    {
        bits::get_field_u32(self.0, 16, 7) as u8
    }

    /// The number of steps.
    pub fn num_of_steps(&self) -> (r: u8)
        ensures
            r == bits::field_u32(self.0, 8, 7) as u8,
    {
        bits::get_field_u32(self.0, 8, 7) as u8
    }

}

/// The capabilities of a pin complex.
#[derive(Clone, Copy, Debug, PartialEq, Eq, Structural)]
pub struct HDANodeResponsePinCapabilities(pub u32);

impl HDANodeResponsePinCapabilities {
    /// Whether the pin has an EAPD.
    pub fn eapd_capable(&self) -> (r: bool)
        ensures
            r == bits::bit_u32(self.0, 16),
    {
        bits::get_bit_u32(self.0, 16)
    }

    /// Whether the pin can take input.
    pub fn input_capable(&self) -> (r: bool)
        ensures
            r == bits::bit_u32(self.0, 5),
    {
        bits::get_bit_u32(self.0, 5)
    }

    /// Whether the pin can output.
    pub fn output_capable(&self) -> (r: bool)
        ensures
            r == bits::bit_u32(self.0, 4),
    {
        bits::get_bit_u32(self.0, 4)
    }

}

/// The capabilities of an audio function group.
#[derive(Clone, Copy, Debug, PartialEq, Eq, Structural)]
pub struct AFGCapResp(pub u32);

impl AFGCapResp {
    /// Whether the group has a beep generator.
    pub fn has_beep_gen(&self) -> (r: bool)
        ensures
            r == bits::bit_u32(self.0, 16),
    {
        bits::get_bit_u32(self.0, 16)
    }

    /// The input delay.
    pub fn input_delay(&self) -> (r: u8)
        ensures
            r == bits::field_u32(self.0, 8, 4) as u8,
    {
        bits::get_field_u32(self.0, 8, 4) as u8
    }

    /// The output delay.
    pub fn output_delay(&self) -> (r: u8)
        ensures
            r == bits::field_u32(self.0, 0, 4) as u8,
    {
        bits::get_field_u32(self.0, 0, 4) as u8
    }

}

/// The selected connection of a node.
#[derive(Clone, Copy, Debug, PartialEq, Eq, Structural)]
pub struct GetConnSelCtrlResp(pub u32);

impl GetConnSelCtrlResp {
    /// The index of the selected connection.
    pub fn active_idx(&self) -> (r: u8)
        ensures
            r == bits::field_u32(self.0, 0, 8) as u8,
    {
        bits::get_field_u32(self.0, 0, 8) as u8
    }

}

/// The digital converter control of a converter.
#[derive(Clone, Copy, Debug, PartialEq, Eq, Structural)]
pub struct DigitalConverterControl(pub u32);

impl DigitalConverterControl {
    /// The professional flag.
    pub fn pro(&self) -> (r: bool)
        ensures
            r == bits::bit_u32(self.0, 6),
    {
        bits::get_bit_u32(self.0, 6)
    }

    /// Whether the data is PCM (the bit is clear).
    pub fn pcm(&self) -> (r: bool)
        ensures
            r == !bits::bit_u32(self.0, 5),
    {
        !bits::get_bit_u32(self.0, 5)
    }

    /// Whether the digital output is enabled.
    pub fn digital_enabled(&self) -> (r: bool)
        ensures
            r == bits::bit_u32(self.0, 0),
    {
        bits::get_bit_u32(self.0, 0)
    }

}

impl From<DigitalConverterControl> for u32 {
    fn from(reg: DigitalConverterControl) -> (r: u32) {
        reg.0
    }
}

impl vstd::std_specs::convert::FromSpecImpl<DigitalConverterControl> for u32 {
    open spec fn obeys_from_spec() -> bool {
        true
    }

    open spec fn from_spec(reg: DigitalConverterControl) -> u32 {
        reg.0
    }
}

/// Builds a digital converter control.
#[derive(Clone, Copy, Debug, PartialEq, Eq, Structural)]
pub struct DigitalConverterControlBuilder(pub u32);

impl DigitalConverterControlBuilder {
    /// The value with every flag clear.
    pub fn new() -> (r: Self)
        ensures
            r.0 == 0,
    {
        DigitalConverterControlBuilder(0)
    }

    /// Sets the professional flag.
    pub fn pro(self, set: bool) -> (r: Self)
        ensures
            r.0 == bits::with_bit_u32(self.0, 6, set),
    {
        DigitalConverterControlBuilder(bits::put_bit_u32(self.0, 6, set))
    }

    /// Marks the data as PCM (clearing the bit) or not.
    pub fn pcm(self, set: bool) -> (r: Self)
        ensures
            r.0 == bits::with_bit_u32(self.0, 5, !set),
    {
        DigitalConverterControlBuilder(bits::put_bit_u32(self.0, 5, !set))
    }

    /// Enables the digital output.
    pub fn digital_enabled(self, set: bool) -> (r: Self)
        ensures
            r.0 == bits::with_bit_u32(self.0, 0, set),
    {
        DigitalConverterControlBuilder(bits::put_bit_u32(self.0, 0, set))
    }

    /// The control built.
    pub fn value(self) -> (r: DigitalConverterControl)
        ensures
            r.0 == self.0,
    {
        DigitalConverterControl(self.0)
    }

}

/// The EAPD/BTL enable of a pin.
#[derive(Clone, Copy, Debug, PartialEq, Eq, Structural)]
pub struct EAPDEnable(pub u8);

impl EAPDEnable {
    /// Whether left and right are swapped.
    pub fn lr_swap(&self) -> (r: bool)
        ensures
            r == bits::bit_u8(self.0, 2),
    {
        bits::get_bit_u8(self.0, 2)
    }

    /// Whether the external amplifier is powered.
    pub fn eapd(&self) -> (r: bool)
        ensures
            r == bits::bit_u8(self.0, 1),
    {
        bits::get_bit_u8(self.0, 1)
    }

    /// Whether balanced output is on.
    pub fn btl(&self) -> (r: bool)
        ensures
            r == bits::bit_u8(self.0, 0),
    {
        bits::get_bit_u8(self.0, 0)
    }

}

impl From<EAPDEnable> for u8 {
    fn from(reg: EAPDEnable) -> (r: u8) {
        reg.0
    }
}

impl vstd::std_specs::convert::FromSpecImpl<EAPDEnable> for u8 {
    open spec fn obeys_from_spec() -> bool {
        true
    }

    open spec fn from_spec(reg: EAPDEnable) -> u8 {
        reg.0
    }
}

/// Builds an EAPD/BTL enable.
#[derive(Clone, Copy, Debug, PartialEq, Eq, Structural)]
pub struct EAPDEnableBuilder(pub u8);

impl EAPDEnableBuilder {
    /// The value with every flag clear.
    pub fn new() -> (r: Self)
        ensures
            r.0 == 0,
    {
        EAPDEnableBuilder(0)
    }

    /// Powers the external amplifier.
    pub fn eapd(self, set: bool) -> (r: Self)
        ensures
            r.0 == bits::with_bit_u8(self.0, 1, set),
    {
        EAPDEnableBuilder(bits::put_bit_u8(self.0, 1, set))
    }

    /// Swaps left and right.
    pub fn lr_swap(self, set: bool) -> (r: Self)
        ensures
            r.0 == bits::with_bit_u8(self.0, 2, set),
    {
        EAPDEnableBuilder(bits::put_bit_u8(self.0, 2, set))
    }

    /// Turns balanced output on.
    pub fn btl(self, set: bool) -> (r: Self)
        ensures
            r.0 == bits::with_bit_u8(self.0, 0, set),
    {
        EAPDEnableBuilder(bits::put_bit_u8(self.0, 0, set))
    }

    /// The enable built.
    pub fn value(self) -> (r: EAPDEnable)
        ensures
            r.0 == self.0,
    {
        EAPDEnable(self.0)
    }

}

} // verus!
