//! The plain data of the UEFI interfaces the loader uses: GUIDs, the
//! configuration table, status codes, event and timer settings, and the
//! graphics modes.
use vstd::prelude::*;

verus! {

/// A 128-bit identifier of a protocol or a table.
#[derive(Copy, Clone, Debug)]
pub struct Guid {
    pub first: u32,
    pub second: u16,
    pub third: u16,
    pub fourth: [u8; 8],
}

/// Whether two GUIDs are the same.
pub open spec fn same_guid(a: Guid, b: Guid) -> bool {
    a.first == b.first && a.second == b.second && a.third == b.third && a.fourth@ == b.fourth@
}

/// Whether two GUIDs are the same.
pub fn guid_eq(a: &Guid, b: &Guid) -> (r: bool)
    ensures
        r == same_guid(*a, *b),
{
    let mut same = a.first == b.first && a.second == b.second && a.third == b.third;
    let mut i: usize = 0;
    while i < 8
        invariant
            i <= 8,
            same == (a.first == b.first && a.second == b.second && a.third == b.third && forall|j: int|
                0 <= j < i ==> a.fourth@[j] == b.fourth@[j]),
        decreases 8 - i,
    {
        same = same && a.fourth[i] == b.fourth[i];
        i = i + 1;
    }
    assert(same == same_guid(*a, *b)) by {
        if same {
            assert(a.fourth@ =~= b.fourth@);
        }
    }
    same
}

impl PartialEq for Guid {
    fn eq(&self, other: &Guid) -> (r: bool) {
        guid_eq(self, other)
    }
}

impl vstd::std_specs::cmp::PartialEqSpecImpl for Guid {
    open spec fn obeys_eq_spec() -> bool {
        true
    }

    open spec fn eq_spec(&self, other: &Guid) -> bool {
        same_guid(*self, *other)
    }
}

/// The GUID of the graphics output protocol.
pub open spec fn graphics_output_protocol_guid() -> Guid {
    Guid { first: 0x9042a9de, second: 0x23dc, third: 0x4a38, fourth: [0x96, 0xfb, 0x7a, 0xde, 0xd0, 0x80, 0x51, 0x6a] }
}

/// The GUID of the graphics output protocol.
pub fn efi_graphics_output_protocol_guid() -> (r: Guid)
    ensures
        r == graphics_output_protocol_guid(),
{
    Guid { first: 0x9042a9de, second: 0x23dc, third: 0x4a38, fourth: [0x96, 0xfb, 0x7a, 0xde, 0xd0, 0x80, 0x51, 0x6a] }
}

/// The GUID of the ACPI 1.0 root system description pointer.
pub open spec fn acpi_1_rsdp_guid() -> Guid {
    Guid { first: 0xeb9d2d30, second: 0x2d88, third: 0x11d3, fourth: [0x9a, 0x16, 0x00, 0x90, 0x27, 0x3f, 0xc1, 0x4d] }
}

/// The GUID of the ACPI 2.0 root system description pointer.
pub open spec fn acpi_2_rsdp_guid() -> Guid {
    Guid { first: 0x8868e871, second: 0xe4f1, third: 0x11d3, fourth: [0xbc, 0x22, 0x00, 0x80, 0xc7, 0x3c, 0x88, 0x81] }
}

/// An entry of the configuration table: a GUID and the address of its table.
#[derive(Copy, Clone, Debug)]
pub struct EFIConfigurationTableEntry {
    pub vendor_guid: Guid,
    pub vendor_table: u64,
}

/// The version of ACPI whose root pointer a configuration entry gives.
#[derive(Copy, Clone, Debug, PartialEq, Eq, Structural)]
pub enum ACPIVersion {
    One,
    Other,
}

/// The root system description pointer in the configuration table: the
/// version and address of the first entry with the GUID of ACPI 1.0 or 2.0.
pub open spec fn rsdp_in_config(entries: Seq<EFIConfigurationTableEntry>) -> Option<(ACPIVersion, u64)>
    decreases entries.len(),
{
    if entries.len() == 0 {
        None
    } else if same_guid(entries[0].vendor_guid, acpi_1_rsdp_guid()) {
        Some((ACPIVersion::One, entries[0].vendor_table))
    } else if same_guid(entries[0].vendor_guid, acpi_2_rsdp_guid()) {
        Some((ACPIVersion::Other, entries[0].vendor_table))
    } else {
        rsdp_in_config(entries.drop_first())
    }
}

/// The version and address of the root system description pointer, from
/// the configuration table's entries.
pub fn find_rsdp_in_config_table(entries: &[EFIConfigurationTableEntry]) -> (r: Option<(ACPIVersion, u64)>)
    ensures
        r == rsdp_in_config(entries@),
{
    let acpi1 = Guid {
        first: 0xeb9d2d30,
        second: 0x2d88,
        third: 0x11d3,
        fourth: [0x9a, 0x16, 0x00, 0x90, 0x27, 0x3f, 0xc1, 0x4d],
    };
    let acpi2 = Guid {
        first: 0x8868e871,
        second: 0xe4f1,
        third: 0x11d3,
        fourth: [0xbc, 0x22, 0x00, 0x80, 0xc7, 0x3c, 0x88, 0x81],
    };
    let mut i: usize = 0;
    assert(entries@.skip(0) =~= entries@);
    while i < entries.len()
        invariant
            i <= entries@.len(),
            acpi1 == acpi_1_rsdp_guid(),
            acpi2 == acpi_2_rsdp_guid(),
            rsdp_in_config(entries@.skip(i as int)) == rsdp_in_config(entries@),
        decreases entries@.len() - i,
    {
        assert(entries@.skip(i as int).drop_first() == entries@.skip(i + 1));
        let e = entries[i];
        if guid_eq(&e.vendor_guid, &acpi1) {
            return Some((ACPIVersion::One, e.vendor_table));
        }
        if guid_eq(&e.vendor_guid, &acpi2) {
            return Some((ACPIVersion::Other, e.vendor_table));
        }
        i = i + 1;
    }
    None
}

/// The bit that UEFI sets in every error status.
pub const ERROR_BIT: u64 = 0x8000_0000_0000_0000;
/// The status of success.
pub const STATUS_SUCCESS: u64 = 0;
/// The status of a buffer that is too small.
pub const STATUS_BUFFER_TOO_SMALL: u64 = 5;
/// The status of an invalid parameter.
pub const STATUS_INVALID_PARAMETER: u64 = 2;
/// The status of a device error.
pub const STATUS_DEVICE_ERROR: u64 = 7;
/// The status of a device that is not ready.
pub const STATUS_NOT_READY: u64 = 6;

/// Whether a status is an error: its high bit is set.
pub fn status_is_error(status: u64) -> (r: bool)
    ensures
        r == (status >= ERROR_BIT),
{
    assert((status & 0x8000_0000_0000_0000u64 == 0x8000_0000_0000_0000u64) == (status
        >= 0x8000_0000_0000_0000u64)) by (bit_vector);
    status & ERROR_BIT == ERROR_BIT
}

/// The outcome of reading a key: a key was read (`Ok(true)`), none was
/// ready (`Ok(false)`), or the read failed.
pub fn read_key_outcome(status: u64) -> (r: Result<bool, &'static str>)
    ensures
        status < ERROR_BIT ==> r == Ok::<bool, &'static str>(true),
        status == (STATUS_NOT_READY | ERROR_BIT) ==> r == Ok::<bool, &'static str>(false),
        status >= ERROR_BIT && status != (STATUS_NOT_READY | ERROR_BIT) ==> r == Err::<bool, &'static str>(
            "Failed to read input",
        ),
{
    assert((6u64 | 0x8000_0000_0000_0000u64) >= 0x8000_0000_0000_0000u64) by (bit_vector);
    if status_is_error(status) {
        if status == STATUS_NOT_READY | ERROR_BIT {
            Ok(false)
        } else {
            Err("Failed to read input")
        }
    } else {
        Ok(true)
    }
}

/// What the loader does after an attempt to exit the boot services.
#[derive(Copy, Clone, Debug, PartialEq, Eq, Structural)]
pub enum ExitStep {
    /// The boot services are gone.
    Done,
    /// The memory map changed meanwhile: read it and try again.
    Retry,
    /// Something unexpected happened.
    Fail,
}

/// The step after exiting the boot services gave `status`.
pub fn exit_boot_services_step(status: u64) -> (r: ExitStep)
    ensures
        status == STATUS_SUCCESS ==> r == ExitStep::Done,
        status == (ERROR_BIT | STATUS_INVALID_PARAMETER) ==> r == ExitStep::Retry,
        status != STATUS_SUCCESS && status != (ERROR_BIT | STATUS_INVALID_PARAMETER) ==> r == ExitStep::Fail,
{
    assert((0x8000_0000_0000_0000u64 | 2u64) != 0u64) by (bit_vector);
    if status == STATUS_SUCCESS {
        ExitStep::Done
    } else if status == ERROR_BIT | STATUS_INVALID_PARAMETER {
        ExitStep::Retry
    } else {
        ExitStep::Fail
    }
}

/// The kinds of events of the boot services.
#[derive(Copy, Clone, Debug, PartialEq, Eq, Structural)]
pub enum EFIEventType {
    Timer,
    Runtime,
    NotifyWait,
    NotifySignal,
    SignalExitBootServices,
    SignalVirtualAddressChange,
}

/// The number of an event kind.
pub open spec fn event_type_number(t: EFIEventType) -> u32 {
    match t {
        EFIEventType::Timer => 0x80000000,
        EFIEventType::Runtime => 0x40000000,
        EFIEventType::NotifyWait => 0x00000100,
        EFIEventType::NotifySignal => 0x00000200,
        EFIEventType::SignalExitBootServices => 0x00000201,
        EFIEventType::SignalVirtualAddressChange => 0x60000202,
    }
}

impl EFIEventType {
    /// The number of the event kind.
    pub fn as_u32(&self) -> (r: u32)
        ensures
            r == event_type_number(*self),
    {
        match *self {
            EFIEventType::Timer => 0x80000000,
            EFIEventType::Runtime => 0x40000000,
            EFIEventType::NotifyWait => 0x00000100,
            EFIEventType::NotifySignal => 0x00000200,
            EFIEventType::SignalExitBootServices => 0x00000201,
            EFIEventType::SignalVirtualAddressChange => 0x60000202,
        }
    }

    /// The kinds combined.
    pub fn combine(self, rhs: EFIEventType) -> (r: u32)
        ensures
            r == event_type_number(self) | event_type_number(rhs),
    {
        self.as_u32() | rhs.as_u32()
    }
}

/// The task priority levels.
#[derive(Copy, Clone, Debug, PartialEq, Eq, Structural)]
pub enum EFITpl {
    Application,
    Callback,
    Notify,
    HighLevel,
}

impl EFITpl {
    /// The number of the level.
    pub fn as_usize(&self) -> (r: usize)
        ensures
            r == match *self {
                EFITpl::Application => 4usize,
                EFITpl::Callback => 8,
                EFITpl::Notify => 16,
                EFITpl::HighLevel => 31,
            },
    {
        match *self {
            EFITpl::Application => 4,
            EFITpl::Callback => 8,
            EFITpl::Notify => 16,
            EFITpl::HighLevel => 31,
        }
    }
}

/// The settings of a timer.
#[derive(Copy, Clone, Debug, PartialEq, Eq, Structural)]
pub enum EFITimerType {
    Cancel,
    Periodic,
    Relative,
}

impl EFITimerType {
    /// The number of the setting.
    pub fn as_u32(&self) -> (r: u32)
        ensures
            r == match *self {
                EFITimerType::Cancel => 0u32,
                EFITimerType::Periodic => 1,
                EFITimerType::Relative => 2,
            },
    {
        match *self {
            EFITimerType::Cancel => 0,
            EFITimerType::Periodic => 1,
            EFITimerType::Relative => 2,
        }
    }
}

/// The pixel masks of a graphics mode.
#[derive(Copy, Clone, Debug, PartialEq, Eq, Structural)]
pub struct EFIPixelBitmask {
    pub red_mask: u32,
    pub green_mask: u32,
    pub blue_mask: u32,
    pub reserved_mask: u32,
}

/// A graphics mode.
#[derive(Copy, Clone, Debug, PartialEq, Eq, Structural)]
pub struct EFIGraphicsOutputModeInfo {
    pub version: u32,
    pub horizontal_resolution: u32,
    pub vertical_resolution: u32,
    pub pixel_format: u32,
    pub pixel_info: EFIPixelBitmask,
    pub pixels_per_scan_line: u32,
}

impl EFIGraphicsOutputModeInfo {
    /// The number of rows of pixels.
    pub fn vertical_resolution(&self) -> (r: u32)
        ensures
            r == self.vertical_resolution,
    {
        self.vertical_resolution
    }

    /// The number of columns of pixels.
    pub fn horizontal_resolution(&self) -> (r: u32)
        ensures
            r == self.horizontal_resolution,
    {
        self.horizontal_resolution
    }

    /// Whether the game can draw in this mode: 640 columns by 480 rows.
    pub fn is_game_mode(&self) -> (r: bool)
        ensures
            r == (self.horizontal_resolution == 640 && self.vertical_resolution == 480),
    {
        self.vertical_resolution == 480 && self.horizontal_resolution == 640
    }
}

/// The state of the graphics output: the number of modes, the current one
/// and its frame buffer.
#[derive(Copy, Clone, Debug, PartialEq, Eq, Structural)]
pub struct EFIGraphicsOutputProtocolMode {
    pub max_mode: u32,
    pub mode: u32,
    pub info: EFIGraphicsOutputModeInfo,
    pub size_of_info: usize,
    pub frame_buffer_base: u64,
    pub frame_buffer_size: usize,
}

impl EFIGraphicsOutputProtocolMode {
    /// The number of modes.
    pub fn max_mode(&self) -> (r: u32)
        ensures
            r == self.max_mode,
    {
        self.max_mode
    }

    /// The address of the frame buffer.
    pub fn frame_buffer_base(&self) -> (r: u64)
        ensures
            r == self.frame_buffer_base,
    {
        self.frame_buffer_base
    }
}

/// The graphics output, as far as its state goes.
#[derive(Copy, Clone, Debug, PartialEq, Eq, Structural)]
pub struct EFIGraphicsOutputProtocol {
    pub mode: EFIGraphicsOutputProtocolMode,
}

impl EFIGraphicsOutputProtocol {
    /// The state of the output.
    pub fn mode(&self) -> (r: EFIGraphicsOutputProtocolMode)
        ensures
            r == self.mode,
    {
        self.mode
    }

    /// Whether `mode_no` names a mode: an error when it is not below the
    /// number of modes.
    pub fn check_mode_no(&self, mode_no: u32) -> (r: Result<(), &'static str>)
        ensures
            mode_no >= self.mode.max_mode ==> r == Err::<(), &'static str>("mode_no is too big to be valid"),
            mode_no < self.mode.max_mode ==> r is Ok,
    {
        if mode_no >= self.mode().max_mode() {
            Err("mode_no is too big to be valid")
        } else {
            Ok(())
        }
    }
}

} // verus!
