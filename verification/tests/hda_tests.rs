use lib::hda_widgets::{conn_list_contains, conn_list_idx};
use lib::hda_codec::{HDANodeResponseGetConnListEntry, HDANodeResponseGetConnListLen};
use lib::hda_widgets::{add_conn_list_entries, conn_list_batch_size, conn_list_batch_starts};
use lib::hda_codec::HDANodeResponseNodeCount;
use lib::hda_widgets::NodeIter;
use lib::hda_widgets::{choose_output_path, output_path_commands, Pin, DAC};
use lib::hda_codec::{HDANodeResponsePinCapabilities, HDANodeResponsePinConfigDefaults};
use lib::hda_widgets::is_speaker_output;
use lib::hda_codec::{HDANodeCommand, HDANodeFunctionGroupType, HDANodeResponse, NodeAddr, ResponseInfo};
use lib::hda_output::{OutputStream, StreamDescriptorRegs};
use lib::hda_regs::{
    BitsPerSample, HDAGlobalCapabilitiesReg, HDAInterruptControlReg, HDACORBSizeReg, HDARIRBSizeReg, HDARingBufferSize, HDAStreamDescriptorControlReg,
    HDAStreamDescriptorCyclicBufferLenReg, HDAStreamDescriptorFIFOSizeReg, HDAStreamDescriptorFormatReg,
    HDAStreamDescriptorLastValidIndexReg, HDAStreamDescriptorLinkPosReg, HDAStreamDescriptorStatusReg,
    NumOfChannels, SampleBaseRate,
};
use lib::hda_stream::{
    codec_addrs_from_status, interrupt_control_for_output, config_classcode_subclass, config_vendor_id, first_pci_device, get_corb_rirb_sizes, is_hda_class,
    next_pci_device, vendor_id_is_valid, BufferDescriptorList, BufferDescriptorListEntry, PCIBaseAddrReg,
    PCIDevice, PCIHeaderType, PCIHeaderTypeReg, CORB, RIRB,
};
use std::convert::TryFrom;

fn zeroed_regs() -> StreamDescriptorRegs {
    StreamDescriptorRegs {
        control: HDAStreamDescriptorControlReg { low: 0, high: 0 },
        status: HDAStreamDescriptorStatusReg(0),
        link_pos_in_buffer: HDAStreamDescriptorLinkPosReg(0),
        cyclic_buffer_len: HDAStreamDescriptorCyclicBufferLenReg(0),
        last_valid_index: HDAStreamDescriptorLastValidIndexReg(0),
        reserved1: 0,
        fifo_size: HDAStreamDescriptorFIFOSizeReg(0),
        format: HDAStreamDescriptorFormatReg(0),
        reserved2: 0,
        bdl_ptr_lower_base_addr: 0,
        bdl_ptr_upper_base_addr: 0,
    }
}

#[test]
fn pci_search_visits_every_location_in_order() {
    let first = first_pci_device();
    assert_eq!(first, PCIDevice { bus: 0, device: 0, func: 0 });
    assert_eq!(next_pci_device(first), Some(PCIDevice { bus: 0, device: 0, func: 1 }));
    assert_eq!(
        next_pci_device(PCIDevice { bus: 0, device: 0, func: 7 }),
        Some(PCIDevice { bus: 0, device: 1, func: 0 })
    );
    assert_eq!(
        next_pci_device(PCIDevice { bus: 3, device: 31, func: 7 }),
        Some(PCIDevice { bus: 4, device: 0, func: 0 })
    );
    assert_eq!(next_pci_device(PCIDevice { bus: 255, device: 31, func: 7 }), None);
    let mut count = 1;
    let mut dev = first;
    while let Some(next) = next_pci_device(dev) {
        dev = next;
        count += 1;
    }
    assert_eq!(count, 256 * 32 * 8);
}

#[test]
fn pci_configuration_words() {
    let dev = PCIDevice { bus: 1, device: 2, func: 3 };
    assert_eq!(dev.reg_addr(0x8), 0x8001_1308);
    assert_eq!(config_vendor_id(0x1234_8086), 0x8086);
    assert!(vendor_id_is_valid(0x8086));
    assert!(!vendor_id_is_valid(0xfff));
    assert_eq!(config_classcode_subclass(0x0403_0000), (4, 3));
    assert!(is_hda_class(4, 3));
    assert!(!is_hda_class(4, 1));
    assert_eq!(PCIHeaderTypeReg(0x80).header_type(), Ok(PCIHeaderType::Standard));
    assert!(PCIHeaderTypeReg(0x80).has_multiple_funcs());
    assert!(PCIHeaderTypeReg(0x05).header_type().is_err());
}

#[test]
fn base_address_registers() {
    let bar = PCIBaseAddrReg::try_from((0xfebf_0004u32, 0x1u32)).unwrap();
    assert_eq!(bar.addr(), 0x1_febf_0000);
    let bar = PCIBaseAddrReg::try_from((0xfebf_0000u32, 0x1u32)).unwrap();
    assert_eq!(bar.addr(), 0xfebf_0000);
    let bar = PCIBaseAddrReg::try_from((0xc001u32, 0)).unwrap();
    assert_eq!(bar.addr(), 0xc000);
}

#[test]
fn codec_commands_and_responses() {
    assert_eq!(HDANodeCommand::get_parameter(0, 1, 4).0, 0x001f_0004);
    assert_eq!(HDANodeCommand::get_node_count(2, 0).0, 0x200f_0004);
    let addr = NodeAddr(1, 0x10);
    assert_eq!(addr.codec_addr(), 1);
    assert_eq!(addr.node_id(), 0x10);
    let resp = HDANodeResponse { response: 0x0001_0002, response_info: ResponseInfo(0x3) };
    let count = resp.node_count_resp().unwrap();
    assert_eq!(count.start_node_number(), 1);
    assert_eq!(count.number_of_nodes(), 2);
    assert_eq!(resp.response_info.codec(), 3);
    assert!(resp.response_info.solicited());
    assert!(HDANodeResponse::null().node_count_resp().is_err());
    assert_eq!(HDANodeFunctionGroupType::try_from(1u8), Ok(HDANodeFunctionGroupType::AFG));
}

#[test]
fn format_register_fields() {
    let mut format = HDAStreamDescriptorFormatReg(0);
    format.set_sample_base_rate(SampleBaseRate::KHz44P1);
    format.set_bits_per_sample(BitsPerSample::Sixteen);
    format.set_number_of_channels(NumOfChannels::Two);
    assert_eq!(format.reg_value(), 0x4011);
    assert_eq!(format.sample_base_rate(), SampleBaseRate::KHz44P1);
    assert_eq!(format.bits_per_sample(), BitsPerSample::Sixteen);
    assert_eq!(BitsPerSample::try_from(5u8), Err(()));
}

#[test]
fn ring_buffer_sizes() {
    // Bits 4 to 7 hold the sizes the controller supports.
    assert_eq!(
        get_corb_rirb_sizes(HDACORBSizeReg(0x40), HDARIRBSizeReg(0x20)),
        (HDARingBufferSize::TwoFiftySix, HDARingBufferSize::Sixteen)
    );
    assert_eq!(get_corb_rirb_sizes(HDACORBSizeReg(0x10), HDARIRBSizeReg(0)).0, HDARingBufferSize::Two);
}

#[test]
fn corb_and_rirb_wrap_around() {
    let mut corb = CORB::new(HDARingBufferSize::Two);
    assert_eq!(corb.add_command(HDANodeCommand(7)), 1);
    assert_eq!(corb.add_command(HDANodeCommand(8)), 0);
    assert_eq!(corb.commands[0], HDANodeCommand(8));
    assert_eq!(corb.commands[1], HDANodeCommand(7));

    let mut rirb = RIRB::new(HDARingBufferSize::Sixteen);
    rirb.responses[1] = HDANodeResponse { response: 9, response_info: ResponseInfo(0) };
    let (resp, last) = rirb.read_next_response();
    assert_eq!(resp.response, 9);
    assert!(!last);
}

#[test]
fn buffer_descriptor_list_lengths() {
    let mut bdl = BufferDescriptorList::new();
    bdl.add_entry(BufferDescriptorListEntry::new(0x1000, 100)).unwrap();
    bdl.add_entry(BufferDescriptorListEntry::new(0x2000, 28)).unwrap();
    assert_eq!(bdl.no_of_entries(), 2);
    assert_eq!(bdl.data_bytes_len(), 128);
    bdl.clear_entries();
    assert_eq!(bdl.no_of_entries(), 0);
    assert_eq!(bdl.data_bytes_len(), 0);
}

#[test]
fn output_stream_setup() {
    let mut stream = OutputStream::new(zeroed_regs(), 1);
    stream.init(0x1_2345_6780);
    assert_eq!(stream.regs.format.0, 0x4011);
    assert_eq!(stream.regs.last_valid_index.0, 1);
    assert_eq!(stream.regs.control.as_u32(), 0x10_0004);
    assert_eq!(stream.regs.control.stream_number(), 1);
    assert_eq!(stream.regs.bdl_ptr_lower_base_addr, 0x2345_6780);
    assert_eq!(stream.regs.bdl_ptr_upper_base_addr, 0x1);

    stream.setup_sound_stream(0x8000, 4000);
    assert_eq!(stream.bdl.no_of_entries(), 2);
    assert_eq!(stream.bdl.index(0).addr, 0x8000);
    assert_eq!(stream.bdl.index(1).len, 4000);
    assert_eq!(stream.regs.cyclic_buffer_len.0, 8000);
    assert!(stream.has_initialized());

    stream.start();
    assert!(stream.regs.control.stream_run());
    stream.stop();
    assert!(!stream.regs.control.stream_run());
    stream.enter_reset();
    assert!(stream.regs.control.stream_reset());
    assert!(!stream.has_initialized());
    stream.exit_reset();
    assert!(!stream.regs.control.stream_reset());
    assert_eq!(stream.bdl.no_of_entries(), 0);
}


#[test]
fn connection_lists() {
    let list = [(0u8, NodeAddr(0, 2)), (1, NodeAddr(0, 3)), (2, NodeAddr(0, 2))];
    assert!(conn_list_contains(&list, NodeAddr(0, 3)));
    assert!(!conn_list_contains(&list, NodeAddr(1, 3)));
    assert_eq!(conn_list_idx(&list, NodeAddr(0, 2)), Some(0));
    assert_eq!(conn_list_idx(&list, NodeAddr(0, 3)), Some(1));
    assert_eq!(conn_list_idx(&list, NodeAddr(0, 9)), None);
}

#[test]
fn building_a_connection_list() {
    let short = HDANodeResponseGetConnListLen(5);
    assert_eq!(conn_list_batch_size(short), 4);
    assert_eq!(conn_list_batch_starts(short), vec![0, 4]);
    let long = HDANodeResponseGetConnListLen(0x80 | 3);
    assert_eq!(conn_list_batch_size(long), 2);
    assert_eq!(conn_list_batch_starts(long), vec![0, 2]);
    assert!(conn_list_batch_starts(HDANodeResponseGetConnListLen(0)).is_empty());

    let node = NodeAddr(1, 0x14);
    let mut list = Vec::new();
    add_conn_list_entries(node, 0, 4, HDANodeResponseGetConnListEntry { resp: 0x0d0c_0b02, long: false }, &mut list);
    add_conn_list_entries(node, 1, 4, HDANodeResponseGetConnListEntry { resp: 0x0000_000e, long: false }, &mut list);
    assert_eq!(
        list,
        vec![
            (0, NodeAddr(1, 0x02)),
            (1, NodeAddr(1, 0x0b)),
            (2, NodeAddr(1, 0x0c)),
            (3, NodeAddr(1, 0x0d)),
            (4, NodeAddr(1, 0x0e))
        ]
    );
    let mut list = Vec::new();
    add_conn_list_entries(node, 0, 2, HDANodeResponseGetConnListEntry { resp: 0x0022_0021, long: true }, &mut list);
    assert_eq!(list, vec![(0, NodeAddr(1, 0x21)), (1, NodeAddr(1, 0x22))]);
}

#[test]
fn walking_subordinate_nodes() {
    let mut nodes = NodeIter::from_node_count(2, HDANodeResponseNodeCount(0x0010_0003));
    assert_eq!(nodes.next(), Some(NodeAddr(2, 0x10)));
    assert_eq!(nodes.next(), Some(NodeAddr(2, 0x11)));
    assert_eq!(nodes.next(), Some(NodeAddr(2, 0x12)));
    assert_eq!(nodes.next(), None);
    assert_eq!(nodes.next(), None);
}

#[test]
fn choosing_the_sound_path() {
    let mut pin = Pin::new(0, 0x14);
    pin.conn_list = vec![(0, NodeAddr(0, 0x0c)), (1, NodeAddr(0, 0x03))];
    let dacs = [DAC::new(NodeAddr(0, 0x02)), DAC::new(NodeAddr(0, 0x03)), DAC::new(NodeAddr(0, 0x0c))];
    assert_eq!(choose_output_path(&[pin.clone()], &dacs), Ok(DAC::new(NodeAddr(0, 0x03))));
    assert_eq!(choose_output_path(&[], &dacs), Err("No enough output pins to play sound"));
    assert_eq!(choose_output_path(&[pin.clone()], &[]), Err("No enough output converters to play sound"));
    assert_eq!(
        choose_output_path(&[pin.clone()], &dacs[..1]),
        Err("No output suitable DAC was found in the output pin connection list")
    );
    let cmds = output_path_commands(&pin, dacs[1], 0x4011, 1);
    let words: Vec<u32> = cmds.iter().map(|c| c.0).collect();
    assert_eq!(
        words,
        vec![0x0037_0500, 0x0032_4011, 0x0037_0610, 0x0033_b07f, 0x0147_0c02, 0x0147_0760, 0x0143_b07f]
    );
}

#[test]
fn speaker_pins() {
    let output = HDANodeResponsePinCapabilities(0x10);
    let speaker = HDANodeResponsePinConfigDefaults(0x9010_0000);
    assert!(is_speaker_output(output, speaker));
    assert!(!is_speaker_output(HDANodeResponsePinCapabilities(0), speaker));
    // An unconnected port.
    assert!(!is_speaker_output(output, HDANodeResponsePinConfigDefaults(0x4010_0000)));
    // A headphone jack.
    assert!(!is_speaker_output(output, HDANodeResponsePinConfigDefaults(0x0020_0000)));
}

#[test]
fn codec_addresses_come_from_the_state_change_bits() {
    assert_eq!(codec_addrs_from_status(0), Vec::<u8>::new());
    assert_eq!(codec_addrs_from_status(0b1000_0000_0000_0101), vec![0, 2, 15]);
}

#[test]
fn output_stream_interrupts_follow_the_input_streams() {
    // Four input streams and three output streams.
    let caps = HDAGlobalCapabilitiesReg(0x3400);
    let control = interrupt_control_for_output(HDAInterruptControlReg(0x1), caps).unwrap();
    assert_eq!(control.0, 0x8000_0000 | 0b111_0000 | 0x1);
    let one_output = HDAGlobalCapabilitiesReg(0x1400);
    assert_eq!(
        interrupt_control_for_output(HDAInterruptControlReg(0), one_output).map(|c| c.0),
        Err("No enough output streams for sound operation")
    );
}
