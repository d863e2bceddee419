//! The widgets of an HDA codec that play sound: the output pins, the
//! converters (DACs) and the mixers, their connection lists, the choice of
//! the path that a sound takes, and the commands that set that path up.
//!
//! Sending a command and reading its response is left to the owner of the
//! controller; what is here decides what to send and reads the answers.
use vstd::prelude::*;
use crate::bits;
use crate::hda_codec::{
    command_word, verb_word, AmpGain, ConverterControl, DefaultDevice, EAPDEnableBuilder,
    HDANodeCommand, HDANodeResponseGetConnListEntry, HDANodeResponseGetConnListLen, HDANodeResponseNodeCount,
    HDANodeResponsePinCapabilities, HDANodeResponsePinConfigDefaults, NodeAddr,
    PinControl, PortConnectivity, PowerState, SET_AMP_GAIN, SET_CONVERTER_CONTROL, SET_CONVERTER_FORMAT,
    SET_EAPD_ENABLE, SET_PIN_WIDGET_CONTROL, SET_POWER_STATE,
};

verus! {

/// The position of the first entry of a connection list that names `node`;
/// the length of the list when none does.
pub open spec fn first_conn_to(list: Seq<(u8, NodeAddr)>, node: NodeAddr) -> int
    decreases list.len(),
{
    if list.len() == 0 {
        0
    } else if list[0].1 == node {
        0
    } else {
        1 + first_conn_to(list.drop_first(), node)
    }
}

proof fn lemma_first_conn_to(list: Seq<(u8, NodeAddr)>, node: NodeAddr)
    ensures
        0 <= first_conn_to(list, node) <= list.len(),
        first_conn_to(list, node) < list.len() ==> list[first_conn_to(list, node)].1 == node,
        forall|k: int| 0 <= k < first_conn_to(list, node) ==> list[k].1 != node,
    decreases list.len(),
{
    if list.len() > 0 && list[0].1 != node {
        lemma_first_conn_to(list.drop_first(), node);
        assert forall|k: int| 0 <= k < first_conn_to(list, node) implies list[k].1 != node by {
            if k > 0 {
                assert(list[k] == list.drop_first()[k - 1]);
            }
        }
    }
}

/// Whether a connection list names `node`.
pub fn conn_list_contains(conn_list: &[(u8, NodeAddr)], node_addr: NodeAddr) -> (r: bool)
    ensures
        r == exists|i: int| 0 <= i < conn_list@.len() && (#[trigger] conn_list@[i]).1 == node_addr,
{
    let mut i: usize = 0;
    while i < conn_list.len()
        invariant
            i <= conn_list@.len(),
            forall|k: int| 0 <= k < i ==> (#[trigger] conn_list@[k]).1 != node_addr,
        decreases conn_list@.len() - i,
    {
        if conn_list[i].1 == node_addr {
            return true;
        }
        i = i + 1;
    }
    false
}

/// The index that the first entry naming `node` gives, if any.
pub fn conn_list_idx(conn_list: &[(u8, NodeAddr)], node_addr: NodeAddr) -> (r: Option<u8>)
    ensures
        ({
            let k = first_conn_to(conn_list@, node_addr);
            if k < conn_list@.len() {
                r == Some(conn_list@[k].0)
            } else {
                r is None
            }
        }),
{
    proof {
        lemma_first_conn_to(conn_list@, node_addr);
    }
    let mut i: usize = 0;
    while i < conn_list.len()
        invariant
            i <= conn_list@.len(),
            i <= first_conn_to(conn_list@, node_addr),
            forall|k: int| 0 <= k < first_conn_to(conn_list@, node_addr) ==> conn_list@[k].1 != node_addr,
            first_conn_to(conn_list@, node_addr) < conn_list@.len() ==> conn_list@[first_conn_to(
                conn_list@,
                node_addr,
            )].1 == node_addr,
            first_conn_to(conn_list@, node_addr) <= conn_list@.len(),
        decreases conn_list@.len() - i,
    {
        if conn_list[i].1 == node_addr {
            return Some(conn_list[i].0);
        }
        i = i + 1;
    }
    None
}

/// A pin complex and the nodes it can take its input from.
#[derive(Clone, Debug)]
pub struct Pin {
    pub addr: NodeAddr,
    pub conn_list: Vec<(u8, NodeAddr)>,
}

/// An audio output converter.
#[derive(Clone, Copy, Debug, PartialEq, Eq, Structural)]
pub struct DAC {
    pub addr: NodeAddr,
}

/// A mixer and the nodes it mixes.
#[derive(Clone, Debug)]
pub struct Mixer {
    pub addr: NodeAddr,
    pub conn_list: Vec<(u8, NodeAddr)>,
}

/// The amplifier setting that unmutes an output fully: output, left and
/// right amplifiers on, index 0, the largest gain.
pub open spec fn unmuted_gain() -> u16 {
    0xb07f
}

/// The values that the builders give for the settings used here.
proof fn lemma_builder_values()
    by (bit_vector)
    ensures
        bits::with_field_u16(
            bits::with_field_u16(
                bits::with_bit_u16(
                    bits::with_bit_u16(bits::with_bit_u16(bits::with_bit_u16(0u16, 7, false), 15, true), 13, true),
                    12,
                    true,
                ),
                8,
                4,
                0,
            ),
            0,
            7,
            0x7f,
        ) == 0xb07f,
        bits::with_bit_u8(bits::with_bit_u8(0u8, 5, true), 6, true) == 0x60,
        bits::with_bit_u8(0u8, 1, true) == 0x2,
{
}

/// The command that unmutes a node's output amplifier.
fn unmute_command(addr: NodeAddr) -> (r: HDANodeCommand)
    requires
        addr.0 < 16,
    ensures
        r.0 == command_word(addr.0, addr.1, verb_word(SET_AMP_GAIN, 16, unmuted_gain() as u32, 16)),
{
    let amp_gain = AmpGain::new().mute(false).output_amp(true).left_amp(true).right_amp(true).index(0).gain(0x7f);
    proof {
        lemma_builder_values();
    }
    HDANodeCommand::set_amp_gain(addr.0, addr.1, amp_gain)
}

/// The command that powers a node fully on.
fn power_up_command(addr: NodeAddr) -> (r: HDANodeCommand)
    requires
        addr.0 < 16,
    ensures
        r.0 == command_word(addr.0, addr.1, verb_word(SET_POWER_STATE, 8, 0, 4)),
{
    HDANodeCommand::set_power_state(addr.0, addr.1, PowerState::D0)
}

impl Pin {
    /// A pin with an empty connection list.
    pub fn new(codec_addr: u8, node_id: u8) -> (r: Self)
        ensures
            r.addr == NodeAddr(codec_addr, node_id),
            r.conn_list@ == Seq::<(u8, NodeAddr)>::empty(),
    {
        Pin { addr: NodeAddr(codec_addr, node_id), conn_list: Vec::new() }
    }

    /// The command that enables the pin's input and output.
    pub fn enable_command(&self) -> (r: HDANodeCommand)
        requires
            self.addr.0 < 16,
        ensures
            r.0 == command_word(self.addr.0, self.addr.1, verb_word(SET_PIN_WIDGET_CONTROL, 8, 0x60, 8)),
    {
        let pin_ctrl = PinControl::new().input_enabled(true).output_enabled(true);
        proof {
            lemma_builder_values();
        }
        HDANodeCommand::set_pin_widget_control(self.addr.0, self.addr.1, pin_ctrl)
    }

    /// The command that enables the pin's external amplifier.
    pub fn enable_eapd_command(&self) -> (r: HDANodeCommand)
        requires
            self.addr.0 < 16,
        ensures
            r.0 == command_word(self.addr.0, self.addr.1, verb_word(SET_EAPD_ENABLE, 8, 0x2, 8)),
    {
        let eapd_enable = EAPDEnableBuilder::new().eapd(true).value();
        proof {
            lemma_builder_values();
        }
        HDANodeCommand::set_eapd_enable(self.addr, eapd_enable.0)
    }

    /// The command that unmutes the pin's output amplifier.
    pub fn unmute_command(&self) -> (r: HDANodeCommand)
        requires
            self.addr.0 < 16,
        ensures
            r.0 == command_word(self.addr.0, self.addr.1, verb_word(SET_AMP_GAIN, 16, unmuted_gain() as u32, 16)),
    {
        unmute_command(self.addr)
    }

    /// The command that powers the pin fully on.
    pub fn power_up_command(&self) -> (r: HDANodeCommand)
        requires
            self.addr.0 < 16,
        ensures
            r.0 == command_word(self.addr.0, self.addr.1, verb_word(SET_POWER_STATE, 8, 0, 4)),
    {
        power_up_command(self.addr)
    }
}

impl DAC {
    /// The converter at `addr`.
    pub fn new(addr: NodeAddr) -> (r: Self)
        ensures
            r.addr == addr,
    {
        DAC { addr }
    }

    /// The command that powers the converter fully on.
    pub fn power_up_command(&self) -> (r: HDANodeCommand)
        requires
            self.addr.0 < 16,
        ensures
            r.0 == command_word(self.addr.0, self.addr.1, verb_word(SET_POWER_STATE, 8, 0, 4)),
    {
        power_up_command(self.addr)
    }

    /// The command that gives the converter the stream's format.
    pub fn set_converter_format_command(&self, format: u16) -> (r: HDANodeCommand)
        requires
            self.addr.0 < 16,
        ensures
            r.0 == command_word(self.addr.0, self.addr.1, verb_word(SET_CONVERTER_FORMAT, 16, format as u32, 16)),
    {
        HDANodeCommand::set_converter_format(self.addr, format)
    }

    /// The command that makes the converter take its samples from the
    /// stream `stream`, starting at channel `channel`.
    pub fn setup_stream_and_channel_command(&self, stream: u8, channel: u8) -> (r: HDANodeCommand)
        requires
            self.addr.0 < 16,
            stream < 16,
            channel < 16,
        ensures
            r.0 == command_word(
                self.addr.0,
                self.addr.1,
                verb_word(
                    SET_CONVERTER_CONTROL,
                    8,
                    bits::with_field_u8(bits::with_field_u8(0, 4, 4, stream), 0, 4, channel) as u32,
                    8,
                ),
            ),
    {
        let converter_ctrl = ConverterControl::new().stream(stream).channel(channel);
        HDANodeCommand::set_converter_control(self.addr.0, self.addr.1, converter_ctrl)
    }

    /// The command that unmutes the converter's output amplifier.
    pub fn unmute_command(&self) -> (r: HDANodeCommand)
        requires
            self.addr.0 < 16,
        ensures
            r.0 == command_word(self.addr.0, self.addr.1, verb_word(SET_AMP_GAIN, 16, unmuted_gain() as u32, 16)),
    {
        unmute_command(self.addr)
    }
}

impl Mixer {
    /// A mixer with an empty connection list.
    pub fn new(codec_addr: u8, node_id: u8) -> (r: Self)
        ensures
            r.addr == NodeAddr(codec_addr, node_id),
            r.conn_list@ == Seq::<(u8, NodeAddr)>::empty(),
    {
        Mixer { addr: NodeAddr(codec_addr, node_id), conn_list: Vec::new() }
    }
}

/// Whether a pin complex drives a speaker: it can output, something is
/// connected to its port, and its default device is a speaker.
pub fn is_speaker_output(pin_cap: HDANodeResponsePinCapabilities, config_defaults: HDANodeResponsePinConfigDefaults) -> (r: bool)
    ensures
        r == (bits::bit_u32(pin_cap.0, 4) && bits::field_u32(config_defaults.0, 30, 2) != 1 && bits::field_u32(
            config_defaults.0,
            20,
            4,
        ) == 1),
{
    if !pin_cap.output_capable() {
        return false;
    }
    config_defaults.port_connectivity() != PortConnectivity::Unconnected && config_defaults.default_device()
        == DefaultDevice::Speaker
}

} // verus!

verus! {

/// Walks the subordinate nodes of a node: consecutive node ids from the
/// first one that a node count answer gives.
#[derive(Clone, Copy, Debug, PartialEq, Eq, Structural)]
pub struct NodeIter {
    pub start_node: NodeAddr,
    pub num_of_nodes: u8,
    pub index: u8,
}

impl NodeIter {
    /// The walk over the nodes that a node count answer lists, in codec `codec_addr`.
    pub fn from_node_count(codec_addr: u8, resp: HDANodeResponseNodeCount) -> (r: NodeIter)
        ensures
            r.start_node == NodeAddr(codec_addr, bits::field_u32(resp.0, 16, 8) as u8),
            r.num_of_nodes == bits::field_u32(resp.0, 0, 8) as u8,
            r.index == 0,
    {
        NodeIter {
            start_node: NodeAddr(codec_addr, resp.start_node_number()),
            num_of_nodes: resp.number_of_nodes(),
            index: 0,
        }
    }

    /// The next node; none once every node was given.
    pub fn next(&mut self) -> (r: Option<NodeAddr>)
        requires
            old(self).index < old(self).num_of_nodes ==> old(self).start_node.1 + old(self).index <= u8::MAX,
        ensures
            final(self).start_node == old(self).start_node,
            final(self).num_of_nodes == old(self).num_of_nodes,
            old(self).index >= old(self).num_of_nodes ==> r is None && final(self).index == old(self).index,
            old(self).index < old(self).num_of_nodes ==> {
                &&& r == Some(NodeAddr(old(self).start_node.0, (old(self).start_node.1 + old(self).index) as u8))
                &&& final(self).index == old(self).index + 1
            },
    {
        if self.index >= self.num_of_nodes {
            None
        } else {
            let node = NodeAddr(self.start_node.codec_addr(), self.start_node.node_id() + self.index);
            self.index = self.index + 1;
            Some(node)
        }
    }
}

/// The number of entries one answer of a connection list holds: two in the
/// long form, four in the short one.
pub open spec fn batch_size(len_resp: HDANodeResponseGetConnListLen) -> int {
    if bits::bit_u32(len_resp.0, 7) {
        2
    } else {
        4
    }
}

/// The number of entries one answer of a connection list holds.
pub fn conn_list_batch_size(len_resp: HDANodeResponseGetConnListLen) -> (r: u8)
    ensures
        r == batch_size(len_resp),
{
    if len_resp.long_form() {
        2
    } else {
        4
    }
}

/// The indices at which the answers that make up a connection list start:
/// from 0 in steps of the batch size, below the list's length.
pub fn conn_list_batch_starts(len_resp: HDANodeResponseGetConnListLen) -> (r: Vec<u8>)
    ensures
        ({
            let len = bits::field_u32(len_resp.0, 0, 7) as int;
            let step = batch_size(len_resp);
            &&& r@.len() == (len + step - 1) / step
            &&& forall|k: int| 0 <= k < r@.len() ==> #[trigger] r@[k] == k * step
        }),
{
    let len = len_resp.conn_list_len();
    let step = conn_list_batch_size(len_resp);
    proof {
        bits::lemma_field_le_mask_u32(len_resp.0, 0, 7);
        bits::lemma_small_masks();
    }
    let mut out: Vec<u8> = Vec::new();
    let mut idx: u8 = 0;
    while idx < len
        invariant
            len <= 127,
            step == 2 || step == 4,
            idx as int == out@.len() * step,
            idx <= len + step - 1,
            forall|k: int| 0 <= k < out@.len() ==> #[trigger] out@[k] == k * step,
        decreases len as int + 4 - idx,
    {
        out.push(idx);
        idx = idx + step;
    }
    assert(out@.len() == (len as int + step as int - 1) / (step as int)) by (nonlinear_arith)
        requires
            idx as int == out@.len() * step,
            idx >= len,
            idx <= len + step - 1,
            step == 2 || step == 4,
    ;
    out
}

/// The entries of a connection list answer, up to the first empty one.
pub open spec fn answer_entries(entries: u32, long: bool, i: int) -> Seq<u16>
    decreases 4 - i,
{
    let max = if long { 2int } else { 4int };
    if i >= max || i < 0 {
        Seq::empty()
    } else if crate::hda_codec::conn_list_entry(entries, long, i) == 0 {
        Seq::empty()
    } else {
        seq![crate::hda_codec::conn_list_entry(entries, long, i)].add(answer_entries(entries, long, i + 1))
    }
}

/// The connection list entries that one answer adds: the index of each
/// entry counted from `conn_idx` times the batch size, and the node it names.
pub open spec fn batch_entries(node: NodeAddr, conn_idx: u8, no_in_batch: u8, es: Seq<u16>) -> Seq<(u8, NodeAddr)> {
    Seq::new(es.len(), |k: int| ((conn_idx * no_in_batch + k) as u8, NodeAddr(node.0, es[k] as u8)))
}

/// Whether the entries of an answer can be added: each names a node id
/// that fits in a byte, and each index fits in a byte.
pub open spec fn batch_fits(conn_idx: u8, no_in_batch: u8, es: Seq<u16>) -> bool {
    &&& forall|k: int| 0 <= k < es.len() ==> #[trigger] es[k] <= 0xff
    &&& conn_idx * no_in_batch + es.len() <= 0x100
}

proof fn lemma_answer_entries_len(entries: u32, long: bool, i: int)
    requires
        0 <= i <= 4,
    ensures
        answer_entries(entries, long, i).len() <= 4,
        answer_entries(entries, long, i).len() + i <= 4,
    decreases 4 - i,
{
    let max = if long { 2int } else { 4int };
    if i < max && crate::hda_codec::conn_list_entry(entries, long, i) != 0 {
        lemma_answer_entries_len(entries, long, i + 1);
    }
}

/// Whether the entries of one connection list answer can be added: every
/// node id fits in a byte, and the indexes stay within 256.
pub fn batch_fits_answer(conn_idx: u8, no_in_batch: u8, resp: HDANodeResponseGetConnListEntry) -> (r: bool)
    ensures
        r == batch_fits(conn_idx, no_in_batch, answer_entries(resp.resp, resp.long, 0)),
{
    let ghost es = answer_entries(resp.resp, resp.long, 0);
    proof {
        lemma_answer_entries_len(resp.resp, resp.long, 0);
    }
    let mut iter = resp.entries();
    let mut count: u8 = 0;
    loop
        invariant_except_break
            iter.curr_index == count,
            count <= es.len(),
            answer_entries(resp.resp, resp.long, count as int) == es.subrange(count as int, es.len() as int),
            forall|k: int| 0 <= k < count ==> #[trigger] es[k] <= 0xff,
        invariant
            iter.entries == resp.resp,
            iter.long == resp.long,
            es == answer_entries(resp.resp, resp.long, 0),
            es.len() <= 4,
        ensures
            count == es.len(),
            forall|k: int| 0 <= k < count ==> #[trigger] es[k] <= 0xff,
        decreases 4 - count,
    {
        let ghost rest = answer_entries(resp.resp, resp.long, count as int);
        match iter.next() {
            None => {
                proof {
                    assert(rest.len() == 0);
                }
                break;
            },
            Some(id) => {
                proof {
                    assert(rest == seq![id].add(answer_entries(resp.resp, resp.long, count + 1)));
                    assert(rest[0] == id);
                    assert(rest[0] == es[count as int]);
                    assert(answer_entries(resp.resp, resp.long, count + 1) =~= rest.subrange(1, rest.len() as int));
                    assert(answer_entries(resp.resp, resp.long, count + 1) =~= es.subrange(
                        count + 1,
                        es.len() as int,
                    ));
                }
                if id > 0xff {
                    return false;
                }
                count = count + 1;
            },
        }
    }
    let a = conn_idx as u32;
    let b = no_in_batch as u32;
    assert(a * b <= 0xff * 0xff) by (nonlinear_arith)
        requires
            a <= 0xff,
            b <= 0xff,
    ;
    a * b + (count as u32) <= 0x100
}

/// Appends to `conn_list` the entries of one answer to the connection list
/// of `node`, which starts at index `conn_idx` times `no_in_batch`.
pub fn add_conn_list_entries(
    node: NodeAddr,
    conn_idx: u8,
    no_in_batch: u8,
    resp: HDANodeResponseGetConnListEntry,
    conn_list: &mut Vec<(u8, NodeAddr)>,
)
    requires
        batch_fits(conn_idx, no_in_batch, answer_entries(resp.resp, resp.long, 0)),
    ensures
        final(conn_list)@ == old(conn_list)@ + batch_entries(
            node,
            conn_idx,
            no_in_batch,
            answer_entries(resp.resp, resp.long, 0),
        ),
{
    let ghost es = answer_entries(resp.resp, resp.long, 0);
    proof {
        lemma_answer_entries_len(resp.resp, resp.long, 0);
    }
    let mut iter = resp.entries();
    let mut entry_idx: u8 = 0;
    loop
        invariant_except_break
            iter.curr_index == entry_idx,
            entry_idx <= es.len(),
            answer_entries(resp.resp, resp.long, entry_idx as int) == es.subrange(entry_idx as int, es.len() as int),
            conn_list@ == old(conn_list)@ + batch_entries(node, conn_idx, no_in_batch, es.take(entry_idx as int)),
        invariant
            iter.entries == resp.resp,
            iter.long == resp.long,
            es == answer_entries(resp.resp, resp.long, 0),
            es.len() <= 4,
            batch_fits(conn_idx, no_in_batch, es),
        ensures
            conn_list@ == old(conn_list)@ + batch_entries(node, conn_idx, no_in_batch, es),
        decreases 4 - entry_idx,
    {
        let ghost rest = answer_entries(resp.resp, resp.long, entry_idx as int);
        let e = iter.next();
        match e {
            None => {
                proof {
                    assert(rest.len() == 0);
                    assert(es.take(entry_idx as int) =~= es);
                }
                break;
            },
            Some(connected_node_id) => {
                proof {
                    assert(rest == seq![connected_node_id].add(answer_entries(resp.resp, resp.long, entry_idx + 1)));
                    assert(rest[0] == connected_node_id);
                    assert(rest[0] == es[entry_idx as int]);
                    assert(answer_entries(resp.resp, resp.long, entry_idx + 1) =~= rest.subrange(1, rest.len() as int));
                    assert(answer_entries(resp.resp, resp.long, entry_idx + 1) =~= es.subrange(
                        entry_idx + 1,
                        es.len() as int,
                    ));
                }
                let index = conn_idx * no_in_batch + entry_idx;
                conn_list.push((index, NodeAddr(node.codec_addr(), connected_node_id as u8)));
                entry_idx = entry_idx + 1;
                proof {
                    assert(batch_entries(node, conn_idx, no_in_batch, es.take(entry_idx as int)) =~= batch_entries(
                        node,
                        conn_idx,
                        no_in_batch,
                        es.take(entry_idx - 1),
                    ).push(((conn_idx * no_in_batch + entry_idx - 1) as u8, NodeAddr(node.0, connected_node_id as u8))));
                    assert(conn_list@ =~= old(conn_list)@ + batch_entries(
                        node,
                        conn_idx,
                        no_in_batch,
                        es.take(entry_idx as int),
                    ));
                }
            },
        }
    }
}

/// Whether a connection list names `node`.
pub open spec fn conn_names(list: Seq<(u8, NodeAddr)>, node: NodeAddr) -> bool {
    exists|i: int| 0 <= i < list.len() && (#[trigger] list[i]).1 == node
}

/// The converter that the first output pin plays through: the first
/// converter in that pin's connection list.
pub fn choose_output_path(output_pins: &[Pin], output_converters: &[DAC]) -> (r: Result<DAC, &'static str>)
    ensures
        output_pins@.len() < 1 ==> r == Err::<DAC, &'static str>("No enough output pins to play sound"),
        output_pins@.len() >= 1 && output_converters@.len() < 1 ==> r == Err::<DAC, &'static str>(
            "No enough output converters to play sound",
        ),
        output_pins@.len() >= 1 && output_converters@.len() >= 1 ==> {
            let list = output_pins@[0].conn_list@;
            match r {
                Ok(dac) => exists|j: int|
                    0 <= j < output_converters@.len() && output_converters@[j] == dac && conn_names(list, dac.addr)
                        && forall|i: int| 0 <= i < j ==> !conn_names(list, #[trigger] output_converters@[i].addr),
                Err(e) => e == "No output suitable DAC was found in the output pin connection list" && forall|j: int|
                    0 <= j < output_converters@.len() ==> !conn_names(list, #[trigger] output_converters@[j].addr),
            }
        },
{
    if output_pins.len() < 1 {
        return Err("No enough output pins to play sound");
    }
    if output_converters.len() < 1 {
        return Err("No enough output converters to play sound");
    }
    let pin = &output_pins[0];
    let mut i: usize = 0;
    while i < output_converters.len()
        invariant
            i <= output_converters@.len(),
            output_pins@.len() >= 1,
            output_converters@.len() >= 1,
            *pin == output_pins@[0],
            forall|k: int| 0 <= k < i ==> !conn_names(pin.conn_list@, #[trigger] output_converters@[k].addr),
        decreases output_converters@.len() - i,
    {
        let dac = output_converters[i];
        if conn_list_contains(pin.conn_list.as_slice(), dac.addr) {
            return Ok(dac);
        }
        i = i + 1;
    }
    Err("No output suitable DAC was found in the output pin connection list")
}

/// The commands that set up the path from the stream with tag `tag` and
/// format `format` through `dac` to `pin`, in order: the converter powered
/// on, given the format and the stream, and unmuted; then the pin's
/// external amplifier enabled, the pin enabled and unmuted. Powering the
/// pin on, where the pin supports it, follows.
pub fn output_path_commands(pin: &Pin, dac: DAC, format: u16, tag: u8) -> (r: Vec<HDANodeCommand>)
    requires
        pin.addr.0 < 16,
        dac.addr.0 < 16,
        tag < 16,
    ensures
        r@.len() == 7,
        r@[0].0 == command_word(dac.addr.0, dac.addr.1, verb_word(SET_POWER_STATE, 8, 0, 4)),
        r@[1].0 == command_word(dac.addr.0, dac.addr.1, verb_word(SET_CONVERTER_FORMAT, 16, format as u32, 16)),
        r@[2].0 == command_word(
            dac.addr.0,
            dac.addr.1,
            verb_word(SET_CONVERTER_CONTROL, 8, bits::with_field_u8(bits::with_field_u8(0, 4, 4, tag), 0, 4, 0) as u32, 8),
        ),
        r@[3].0 == command_word(dac.addr.0, dac.addr.1, verb_word(SET_AMP_GAIN, 16, unmuted_gain() as u32, 16)),
        r@[4].0 == command_word(pin.addr.0, pin.addr.1, verb_word(SET_EAPD_ENABLE, 8, 0x2, 8)),
        r@[5].0 == command_word(pin.addr.0, pin.addr.1, verb_word(SET_PIN_WIDGET_CONTROL, 8, 0x60, 8)),
        r@[6].0 == command_word(pin.addr.0, pin.addr.1, verb_word(SET_AMP_GAIN, 16, unmuted_gain() as u32, 16)),
{
    let mut cmds: Vec<HDANodeCommand> = Vec::new();
    cmds.push(dac.power_up_command());
    cmds.push(dac.set_converter_format_command(format));
    cmds.push(dac.setup_stream_and_channel_command(tag, 0));
    cmds.push(dac.unmute_command());
    cmds.push(pin.enable_eapd_command());
    cmds.push(pin.enable_command());
    cmds.push(pin.unmute_command());
    cmds
}

} // verus!
