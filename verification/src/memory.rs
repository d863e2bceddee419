//! Addresses, memory regions and the firmware-agnostic memory map.
use vstd::prelude::*;
use vstd::multiset::Multiset;

verus! {

broadcast use vstd::seq_lib::group_to_multiset_ensures;

/// The number of regions a memory map holds.
pub const MAX_MEM_MAP_SIZE: usize = 100;

/// The addresses below the non-canonical hole: 2^47.
pub const LOWER_HALF_END: u64 = 0x8000_0000_0000;

/// The addresses a page-table walk can translate: 2^48.
pub const ADDR_SPACE_END: u64 = 0x1_0000_0000_0000;

/// The bits set in a sign-extended upper-half address.
pub const UPPER_HALF_BITS: u64 = 0xffff_0000_0000_0000;

/// The canonical form of a 48-bit address: bit 47 copied into bits 48 to 63.
pub open spec fn canonicalize(n: u64) -> u64 {
    if n < LOWER_HALF_END {
        n
    } else {
        n | UPPER_HALF_BITS
    }
}

/// Whether a value is a canonical virtual address.
pub open spec fn is_canonical(n: u64) -> bool {
    n < LOWER_HALF_END || n >= 0xffff_8000_0000_0000
}

/// The canonical form of a 48-bit address is canonical, and equals the
/// address when it is in the lower half.
pub proof fn lemma_canonicalize(n: u64)
    requires
        n < ADDR_SPACE_END,
    ensures
        is_canonical(canonicalize(n)),
        ((n >> 47u64) & 1 == 1) == (n >= LOWER_HALF_END),
        n >= LOWER_HALF_END ==> canonicalize(n) == n + UPPER_HALF_BITS,
{
    assert(((n >> 47u64) & 1 == 1) == (n >= 0x8000_0000_0000u64)) by (bit_vector)
        requires
            n < 0x1_0000_0000_0000u64,
    ;
    assert(n >= 0x8000_0000_0000u64 ==> ((n | 0xffff_0000_0000_0000u64) == n + 0xffff_0000_0000_0000u64
        && n | 0xffff_0000_0000_0000u64 >= 0xffff_8000_0000_0000u64)) by (bit_vector)
        requires
            n < 0x1_0000_0000_0000u64,
    ;
}

/// A virtual address, kept canonical: bits 48 to 63 copy bit 47.
#[derive(Copy, Clone, Debug, PartialEq, Eq, Structural)]
pub struct Addr(pub u64);

impl Addr {
    /// The canonical form of a 48-bit address.
    pub fn new(n: u64) -> (r: Addr)
        requires
            n < ADDR_SPACE_END,
        ensures
            r.0 == canonicalize(n),
            is_canonical(r.0),
    {
        proof {
            lemma_canonicalize(n);
        }
        if (n >> 47u64) & 1 == 1 {
            Addr(n | UPPER_HALF_BITS)
        } else {
            Addr(n)
        }
    }

    /// The canonical form of the low 48 bits of `n`.
    pub fn new_trunc(n: u64) -> (r: Addr)
        ensures
            r.0 == canonicalize(n & 0xffff_ffff_ffff),
    {
        let low = n & 0xffff_ffff_ffff;
        assert(low < 0x1_0000_0000_0000u64) by (bit_vector)
            requires
                low == n & 0xffff_ffff_ffffu64,
        ;
        Addr::new(low)
    }

    /// The address as a number.
    pub fn as_u64(&self) -> (r: u64)
        ensures
            r == self.0,
    {
        self.0
    }
}

/// Whether `a + b` is a 48-bit address.
pub open spec fn sum_in_space(a: u64, b: int) -> bool {
    0 <= a + b < ADDR_SPACE_END
}

impl core::ops::Add<u64> for Addr {
    type Output = Addr;

    fn add(self, rhs: u64) -> (r: Addr) {
        Addr::new(self.0 + rhs)
    }
}

impl vstd::std_specs::ops::AddSpecImpl<u64> for Addr {
    open spec fn obeys_add_spec() -> bool {
        true
    }

    open spec fn add_req(self, rhs: u64) -> bool {
        sum_in_space(self.0, rhs as int)
    }

    open spec fn add_spec(self, rhs: u64) -> Addr {
        Addr(canonicalize((self.0 + rhs) as u64))
    }
}

impl core::ops::Add<usize> for Addr {
    type Output = Addr;

    fn add(self, rhs: usize) -> (r: Addr) {
        Addr::new(self.0 + rhs as u64)
    }
}

impl vstd::std_specs::ops::AddSpecImpl<usize> for Addr {
    open spec fn obeys_add_spec() -> bool {
        true
    }

    open spec fn add_req(self, rhs: usize) -> bool {
        sum_in_space(self.0, rhs as int)
    }

    open spec fn add_spec(self, rhs: usize) -> Addr {
        Addr(canonicalize((self.0 + rhs) as u64))
    }
}

impl core::ops::Sub for Addr {
    type Output = Addr;

    fn sub(self, rhs: Addr) -> (r: Addr) {
        Addr::new(self.0 - rhs.0)
    }
}

impl vstd::std_specs::ops::SubSpecImpl for Addr {
    open spec fn obeys_sub_spec() -> bool {
        true
    }

    open spec fn sub_req(self, rhs: Addr) -> bool {
        sum_in_space(self.0, -rhs.0)
    }

    open spec fn sub_spec(self, rhs: Addr) -> Addr {
        Addr(canonicalize((self.0 - rhs.0) as u64))
    }
}

impl core::ops::Sub<u64> for Addr {
    type Output = Addr;

    fn sub(self, rhs: u64) -> (r: Addr) {
        Addr::new(self.0 - rhs)
    }
}

impl vstd::std_specs::ops::SubSpecImpl<u64> for Addr {
    open spec fn obeys_sub_spec() -> bool {
        true
    }

    open spec fn sub_req(self, rhs: u64) -> bool {
        sum_in_space(self.0, -rhs)
    }

    open spec fn sub_spec(self, rhs: u64) -> Addr {
        Addr(canonicalize((self.0 - rhs) as u64))
    }
}

impl core::ops::BitAnd<u64> for Addr {
    type Output = Addr;

    fn bitand(self, rhs: u64) -> (r: Addr) {
        Addr::new(self.0 & rhs)
    }
}

impl vstd::std_specs::ops::BitAndSpecImpl<u64> for Addr {
    open spec fn obeys_bitand_spec() -> bool {
        true
    }

    open spec fn bitand_req(self, rhs: u64) -> bool {
        self.0 & rhs < ADDR_SPACE_END
    }

    open spec fn bitand_spec(self, rhs: u64) -> Addr {
        Addr(canonicalize(self.0 & rhs))
    }
}

/// What a region of memory is used for.
#[derive(Copy, Clone, Debug, PartialEq, Eq, Structural)]
pub enum MemRegionType {
    /// Free for use.
    Usable,
    InUse,
    Reserved,
    AcpiReclaimable,
    AcpiNvs,
    /// Bad memory that cannot be used.
    BadMem,
    /// The code of the game.
    App,
    /// The stack of the game.
    AppStack,
    PageTable,
    Bootloader,
    /// An empty region.
    Empty,
    /// The heap.
    Heap,
}

impl MemRegionType {
    /// Whether the region is free for use.
    pub fn is_usable(&self) -> (r: bool)
        ensures
            r == (*self == MemRegionType::Usable),
    {
        match *self {
            MemRegionType::Usable => true,
            _ => false,
        }
    }

    /// A short name of the type.
    pub fn as_str(&self) -> (r: &'static str)
        ensures
            r@ == (match *self {
                MemRegionType::Usable => "usable"@,
                MemRegionType::Reserved => "reserved"@,
                _ => "other"@,
            }),
    {
        match *self {
            MemRegionType::Usable => "usable",
            MemRegionType::Reserved => "reserved",
            _ => "other",
        }
    }
}

/// A range of addresses from `start_addr` up to `end_addr`.
#[derive(Copy, Clone, Debug, PartialEq, Eq, Structural)]
pub struct AddrRange {
    pub start_addr: Addr,
    pub end_addr: Addr,
}

impl AddrRange {
    /// The range that spans `start_addr` up to `end_addr - 1`: its end,
    /// which it does not include, is `end_addr`.
    pub fn new(start_addr: u64, end_addr: u64) -> (r: AddrRange)
        requires
            start_addr < ADDR_SPACE_END,
            end_addr < ADDR_SPACE_END,
        ensures
            r.start_addr.0 == canonicalize(start_addr),
            r.end_addr.0 == canonicalize(end_addr),
    {
        AddrRange { start_addr: Addr::new(start_addr), end_addr: Addr::new(end_addr) }
    }

    /// Whether the range starts where it ends.
    pub fn is_empty(&self) -> (r: bool)
        ensures
            r == (self.start_addr.0 == self.end_addr.0),
    {
        self.start_addr.0 == self.end_addr.0
    }

    /// The first address.
    pub fn start_addr(&self) -> (r: Addr)
        ensures
            r == self.start_addr,
    {
        self.start_addr
    }

    /// The end address.
    pub fn end_addr(&self) -> (r: Addr)
        ensures
            r == self.end_addr,
    {
        self.end_addr
    }

    /// The number of addresses from the start to the end.
    pub fn size(&self) -> (r: u64)
        requires
            self.start_addr.0 <= self.end_addr.0,
            self.end_addr.0 - self.start_addr.0 < ADDR_SPACE_END,
        ensures
            r == canonicalize((self.end_addr.0 - self.start_addr.0) as u64),
    {
        Addr::new(self.end_addr.0 - self.start_addr.0).as_u64()
    }
}

/// A region of memory and what it is used for.
#[derive(Copy, Clone, Debug, PartialEq, Eq, Structural)]
pub struct MemRegion {
    pub range: AddrRange,
    pub region_type: MemRegionType,
}

/// The empty region.
pub open spec fn empty_region() -> MemRegion {
    MemRegion {
        range: AddrRange { start_addr: Addr(0), end_addr: Addr(0) },
        region_type: MemRegionType::Empty,
    }
}

impl MemRegion {
    /// A region that spans no address.
    pub fn empty() -> (r: MemRegion)
        ensures
            r == empty_region(),
    {
        MemRegion {
            range: AddrRange { start_addr: Addr(0), end_addr: Addr(0) },
            region_type: MemRegionType::Empty,
        }
    }
}

/// A region that the BIOS reports.
#[derive(Copy, Clone, Debug, PartialEq, Eq, Structural)]
pub struct E820MemRegion {
    pub start_addr: u64,
    pub len: u64,
    pub region_type: u32,
    pub acpi_extended_attrs: u32,
}

/// The region type that a BIOS type number denotes.
pub open spec fn e820_region_type(t: u32) -> MemRegionType {
    if t == 1 {
        MemRegionType::Usable
    } else if t == 2 {
        MemRegionType::Reserved
    } else if t == 3 {
        MemRegionType::AcpiReclaimable
    } else if t == 4 {
        MemRegionType::AcpiNvs
    } else {
        MemRegionType::BadMem
    }
}

/// The type of a region that UEFI reports.
#[derive(Copy, Clone, Debug, PartialEq, Eq, Structural)]
pub enum EFIMemRegionType {
    Reserved,
    LoaderCode,
    LoaderData,
    BootServicesCode,
    BootServicesData,
    RuntimeServicesCode,
    RuntimeServicesData,
    Conventional,
    Unusable,
    AcpiReclaimable,
    AcpiNvs,
    MemMappedIO,
    MemMappedIOPortSpace,
    PalCode,
    Persistent,
}

/// The region type that a UEFI region type stands for, once boot services
/// have been exited.
pub open spec fn efi_region_type(t: EFIMemRegionType) -> MemRegionType {
    match t {
        EFIMemRegionType::Reserved => MemRegionType::Reserved,
        EFIMemRegionType::LoaderCode => MemRegionType::App,
        EFIMemRegionType::LoaderData => MemRegionType::App,
        EFIMemRegionType::Conventional => MemRegionType::Usable,
        EFIMemRegionType::Unusable => MemRegionType::BadMem,
        EFIMemRegionType::AcpiReclaimable => MemRegionType::AcpiReclaimable,
        EFIMemRegionType::AcpiNvs => MemRegionType::AcpiNvs,
        _ => MemRegionType::InUse,
    }
}

/// Of the memory that UEFI reports, only conventional memory becomes free
/// for the allocator: boot services, runtime services, loader, firmware and
/// device memory never does. The loader's code and data become the game's.
pub proof fn law_only_conventional_efi_memory_is_usable(t: EFIMemRegionType)
    ensures
        efi_region_type(t) == MemRegionType::Usable <==> t == EFIMemRegionType::Conventional,
        (t == EFIMemRegionType::LoaderCode || t == EFIMemRegionType::LoaderData) <==> efi_region_type(t)
            == MemRegionType::App,
{
}

/// A region that UEFI reports.
#[derive(Copy, Clone, Debug, PartialEq, Eq, Structural)]
pub struct EFIMemRegion {
    pub type_: EFIMemRegionType,
    /// The physical address of the first byte.
    pub physical_start: Addr,
    pub virtual_start: Addr,
    /// The number of 4 KiB pages.
    pub no_of_pages: u64,
    pub attribute: u64,
}

/// The size of a UEFI page.
pub const PAGE_SIZE_4KIB: u64 = 4096;

/// The region that a BIOS region describes: from its start, `len` bytes.
pub open spec fn e820_mem_region(region: E820MemRegion) -> MemRegion {
    let end = region.start_addr + region.len;
    MemRegion {
        range: AddrRange {
            start_addr: Addr(canonicalize(region.start_addr)),
            end_addr: Addr(canonicalize(end as u64)),
        },
        region_type: e820_region_type(region.region_type),
    }
}

/// The region that a UEFI region describes.
pub open spec fn efi_mem_region(region: EFIMemRegion) -> MemRegion {
    let end = region.physical_start.0 + region.no_of_pages * PAGE_SIZE_4KIB;
    MemRegion {
        range: AddrRange {
            start_addr: region.physical_start,
            end_addr: Addr(end as u64),
        },
        region_type: efi_region_type(region.type_),
    }
}

impl MemRegion {
    /// The region that a BIOS region describes.
    pub fn from_e820(region: E820MemRegion) -> (r: MemRegion)
        requires
            1 <= region.region_type <= 5,
            region.start_addr < ADDR_SPACE_END,
            region.start_addr + region.len < ADDR_SPACE_END,
        ensures
            r == e820_mem_region(region),
    {
        let region_type = match region.region_type {
            1 => MemRegionType::Usable,
            2 => MemRegionType::Reserved,
            3 => MemRegionType::AcpiReclaimable,
            4 => MemRegionType::AcpiNvs,
            _ => MemRegionType::BadMem,
        };
        MemRegion { range: AddrRange::new(region.start_addr, region.start_addr + region.len), region_type }
    }

    /// The region that a UEFI region describes; boot services memory counts as in use.
    pub fn from_efi(region: EFIMemRegion) -> (r: MemRegion)
        requires
            region.physical_start.0 + region.no_of_pages * PAGE_SIZE_4KIB < LOWER_HALF_END,
        ensures
            r == efi_mem_region(region),
    {
        let region_type = match region.type_ {
            EFIMemRegionType::Reserved => MemRegionType::Reserved,
            EFIMemRegionType::LoaderCode => MemRegionType::App,
            EFIMemRegionType::LoaderData => MemRegionType::App,
            EFIMemRegionType::Conventional => MemRegionType::Usable,
            EFIMemRegionType::Unusable => MemRegionType::BadMem,
            EFIMemRegionType::AcpiReclaimable => MemRegionType::AcpiReclaimable,
            EFIMemRegionType::AcpiNvs => MemRegionType::AcpiNvs,
            _ => MemRegionType::InUse,
        };
        let end = Addr::new(region.physical_start.0 + region.no_of_pages * PAGE_SIZE_4KIB);
        MemRegion { range: AddrRange::new(region.physical_start.0, end.0), region_type }
    }
}

/// A chunk of allocated memory.
#[derive(Copy, Clone, Debug, PartialEq, Eq, Structural)]
pub struct MemChunk {
    pub start_addr: Addr,
    pub size: u64,
}

impl MemChunk {
    /// The first address.
    pub fn start_addr(&self) -> (r: Addr)
        ensures
            r == self.start_addr,
    {
        self.start_addr
    }

    /// The address after the last one.
    pub fn end_addr(&self) -> (r: Addr)
        requires
            sum_in_space(self.start_addr.0, self.size as int),
        ensures
            r.0 == canonicalize((self.start_addr.0 + self.size) as u64),
    {
        self.start_addr + self.size
    }

    /// The number of bytes.
    pub fn size(&self) -> (r: u64)
        ensures
            r == self.size,
    {
        self.size
    }

    /// The addresses of the chunk.
    pub fn range(&self) -> (r: AddrRange)
        requires
            sum_in_space(self.start_addr.0, self.size as int),
        ensures
            r.start_addr == self.start_addr,
            r.end_addr.0 == canonicalize((self.start_addr.0 + self.size) as u64),
    {
        AddrRange { start_addr: self.start_addr, end_addr: self.start_addr + self.size }
    }
}

/// The errors of a memory map.
#[derive(Copy, Clone, Debug, PartialEq, Eq, Structural)]
pub enum MemMapError {
    /// No entry is left for another region.
    EntriesFull,
}

/// The order of regions in a memory map: empty regions last, the others by
/// their start address and then by their end address.
pub open spec fn region_less(r1: MemRegion, r2: MemRegion) -> bool {
    let e1 = r1.range.start_addr.0 == r1.range.end_addr.0;
    let e2 = r2.range.start_addr.0 == r2.range.end_addr.0;
    if e1 {
        false
    } else if e2 {
        true
    } else if r1.range.start_addr.0 != r2.range.start_addr.0 {
        r1.range.start_addr.0 < r2.range.start_addr.0
    } else {
        r1.range.end_addr.0 < r2.range.end_addr.0
    }
}

/// Whether the regions are in order.
pub open spec fn regions_sorted(s: Seq<MemRegion>) -> bool {
    forall|i: int, j: int| 0 <= i < j < s.len() ==> !region_less(#[trigger] s[j], #[trigger] s[i])
}

/// Whether the regions from `lo` up to `hi` are in order.
pub open spec fn regions_sorted_between(s: Seq<MemRegion>, lo: int, hi: int) -> bool {
    forall|i: int, j: int| lo <= i < j < hi ==> !region_less(#[trigger] s[j], #[trigger] s[i])
}

/// Entry `k` of `s` once a usable region that runs into the next one ends
/// where the next one starts.
pub open spec fn trimmed_entry(s: Seq<MemRegion>, k: int) -> MemRegion {
    let r = s[k];
    if k + 1 < s.len() && r.range.end_addr.0 > s[k + 1].range.start_addr.0
        && r.region_type == MemRegionType::Usable {
        MemRegion {
            range: AddrRange { start_addr: r.range.start_addr, end_addr: s[k + 1].range.start_addr },
            region_type: r.region_type,
        }
    } else {
        r
    }
}

/// The entries of `s` with every overlap of a usable region trimmed.
pub open spec fn trim_overlaps(s: Seq<MemRegion>) -> Seq<MemRegion> {
    Seq::new(s.len(), |k: int| trimmed_entry(s, k))
}

/// A full map whose first `k` entries are those of `rs` and the rest empty.
pub open spec fn loaded_entries(rs: Seq<MemRegion>, k: int) -> Seq<MemRegion> {
    Seq::new(MAX_MEM_MAP_SIZE as nat, |i: int| if i < k { rs[i] } else { empty_region() })
}

/// A firmware-agnostic map of the memory of the machine.
pub struct MemMap {
    /// The regions; the unused ones are empty.
    pub entries: Vec<MemRegion>,
    /// The number of regions added.
    pub next_entry_index: u64,
}

/// Whether a region spans no address.
pub open spec fn region_is_empty(r: MemRegion) -> bool {
    r.range.start_addr.0 == r.range.end_addr.0
}

/// The regions of a map that span some address, with their multiplicity.
pub open spec fn live_regions(s: Seq<MemRegion>) -> Multiset<MemRegion> {
    s.to_multiset().filter(|r: MemRegion| !region_is_empty(r))
}

/// A sub-multiset is no larger.
proof fn lemma_sub_multiset_len<A>(m1: Multiset<A>, m2: Multiset<A>)
    requires
        m1.subset_of(m2),
    ensures
        m1.len() <= m2.len(),
{
    broadcast use vstd::multiset::group_multiset_axioms;
    assert(m2 =~= m1.add(m2.sub(m1)));
}

/// The live regions of a sequence whose entries from `n` on are empty are
/// at most `n`.
proof fn lemma_live_len_at_most(s: Seq<MemRegion>, n: int)
    requires
        0 <= n <= s.len(),
        forall|i: int| n <= i < s.len() ==> region_is_empty(#[trigger] s[i]),
    ensures
        live_regions(s).len() <= n,
{
    broadcast use vstd::multiset::group_multiset_axioms;
    broadcast use vstd::seq_lib::lemma_multiset_commutative;
    let a = s.take(n);
    let b = s.skip(n);
    assert(s =~= a + b);
    assert forall|v: MemRegion| #[trigger] live_regions(s).count(v) <= a.to_multiset().count(v) by {
        if !region_is_empty(v) && b.to_multiset().count(v) > 0 {
            assert(b.contains(v));
        }
    }
    lemma_sub_multiset_len(live_regions(s), a.to_multiset());
}

/// A sequence whose first `m` entries are live has at least `m` live regions.
proof fn lemma_live_len_at_least(s: Seq<MemRegion>, m: int)
    requires
        0 <= m <= s.len(),
        forall|i: int| 0 <= i < m ==> !region_is_empty(#[trigger] s[i]),
    ensures
        live_regions(s).len() >= m,
{
    broadcast use vstd::multiset::group_multiset_axioms;
    broadcast use vstd::seq_lib::lemma_multiset_commutative;
    let a = s.take(m);
    let b = s.skip(m);
    assert(s =~= a + b);
    assert forall|v: MemRegion| #[trigger] a.to_multiset().count(v) <= live_regions(s).count(v) by {
        if a.to_multiset().count(v) > 0 {
            assert(a.contains(v));
        }
    }
    lemma_sub_multiset_len(a.to_multiset(), live_regions(s));
}

/// Sorting a map whose entries from `n` on are empty leaves the entries from
/// `n` on empty: the order puts every empty region last.
proof fn lemma_sorted_tail_empty(s1: Seq<MemRegion>, s2: Seq<MemRegion>, n: int)
    requires
        s1.to_multiset() == s2.to_multiset(),
        s1.len() == s2.len(),
        0 <= n <= s1.len(),
        forall|i: int| n <= i < s1.len() ==> region_is_empty(#[trigger] s1[i]),
        regions_sorted(s2),
    ensures
        forall|i: int| n <= i < s2.len() ==> region_is_empty(#[trigger] s2[i]),
{
    assert forall|i: int| n <= i < s2.len() implies region_is_empty(#[trigger] s2[i]) by {
        if !region_is_empty(s2[i]) {
            assert forall|j: int| 0 <= j < i + 1 implies !region_is_empty(#[trigger] s2[j]) by {
                if j < i {
                    assert(!region_less(s2[i], s2[j]));
                }
            }
            lemma_live_len_at_least(s2, i + 1);
            lemma_live_len_at_most(s1, n);
        }
    }
}

/// Swapping two elements keeps the multiset of a sequence.
pub proof fn lemma_swap_multiset<A>(s: Seq<A>, i: int, j: int)
    requires
        0 <= i < s.len(),
        0 <= j < s.len(),
    ensures
        s.update(i, s[j]).update(j, s[i]).to_multiset() == s.to_multiset(),
{
    broadcast use vstd::seq_lib::to_multiset_update;
    broadcast use vstd::multiset::group_multiset_axioms;
    let s1 = s.update(i, s[j]);
    assert(s1.to_multiset() == s.to_multiset().insert(s[j]).remove(s[i]));
    assert(s1.update(j, s[i]).to_multiset() == s1.to_multiset().insert(s[i]).remove(s1[j]));
    if i == j {
        assert(s.update(i, s[j]).update(j, s[i]) =~= s);
    } else {
        assert(s1[j] == s[j]);
        assert(s.to_multiset().insert(s[j]).remove(s[i]).insert(s[i]).remove(s[j]) =~= s.to_multiset());
    }
}

/// Whether two regions sort as equals: both empty, or both with the same
/// start and end.
pub open spec fn region_equiv(a: MemRegion, b: MemRegion) -> bool {
    !region_less(a, b) && !region_less(b, a)
}

/// The regions of `s` that sort as equals of `k`, in their order in `s`.
pub open spec fn equiv_class(s: Seq<MemRegion>, k: MemRegion) -> Seq<MemRegion> {
    s.filter(|r: MemRegion| region_equiv(r, k))
}

/// Swapping two neighbours of which the second sorts before the first
/// keeps the order among the regions that sort as equals.
pub proof fn lemma_swap_keeps_classes(s: Seq<MemRegion>, j: int, k: MemRegion)
    requires
        1 <= j < s.len(),
        region_less(s[j], s[j - 1]),
    ensures
        equiv_class(s.update(j, s[j - 1]).update(j - 1, s[j]), k) == equiv_class(s, k),
{
    let p = |r: MemRegion| region_equiv(r, k);
    let t = s.update(j, s[j - 1]).update(j - 1, s[j]);
    let pre = s.subrange(0, j - 1);
    let post = s.subrange(j + 1, s.len() as int);
    let mid = seq![s[j - 1], s[j]];
    let swapped = seq![s[j], s[j - 1]];
    assert(s =~= pre + mid + post);
    assert(t =~= pre + swapped + post);
    Seq::filter_distributes_over_add(pre + mid, post, p);
    Seq::filter_distributes_over_add(pre, mid, p);
    Seq::filter_distributes_over_add(pre + swapped, post, p);
    Seq::filter_distributes_over_add(pre, swapped, p);
    assert(!(p(s[j]) && p(s[j - 1])));
    reveal_with_fuel(Seq::filter, 3);
    assert(mid.drop_last() =~= seq![s[j - 1]]);
    assert(swapped.drop_last() =~= seq![s[j]]);
    assert(seq![s[j - 1]].drop_last() =~= Seq::<MemRegion>::empty());
    assert(seq![s[j]].drop_last() =~= Seq::<MemRegion>::empty());
    assert(mid.filter(p) =~= swapped.filter(p));
}

/// No empty region sorts as an equal of a region that is not empty.
proof fn lemma_class_of_empties(x: Seq<MemRegion>, k: MemRegion)
    requires
        !region_is_empty(k),
        forall|j: int| 0 <= j < x.len() ==> region_is_empty(#[trigger] x[j]),
    ensures
        equiv_class(x, k) == Seq::<MemRegion>::empty(),
{
    let p = |r: MemRegion| region_equiv(r, k);
    assert(x.all(|r: MemRegion| !p(r)));
    x.lemma_all_neg_filter_empty(p);
    assert(equiv_class(x, k) =~= Seq::<MemRegion>::empty());
}

/// Putting `v` in the first of the empty entries that end `x` adds it at
/// the end of the regions that sort as its equals.
proof fn lemma_class_fill(x: Seq<MemRegion>, i: int, v: MemRegion, k: MemRegion)
    requires
        0 <= i < x.len(),
        !region_is_empty(k),
        forall|j: int| i <= j < x.len() ==> region_is_empty(#[trigger] x[j]),
    ensures
        equiv_class(x.update(i, v), k) == if region_equiv(v, k) {
            equiv_class(x, k).push(v)
        } else {
            equiv_class(x, k)
        },
{
    let p = |r: MemRegion| region_equiv(r, k);
    let pre = x.subrange(0, i);
    let tail = x.subrange(i, x.len() as int);
    let post = x.subrange(i + 1, x.len() as int);
    assert(x =~= pre + tail);
    assert(x.update(i, v) =~= pre.push(v) + post);
    lemma_class_of_empties(tail, k);
    lemma_class_of_empties(post, k);
    Seq::filter_distributes_over_add(pre, tail, p);
    Seq::filter_distributes_over_add(pre.push(v), post, p);
    pre.lemma_filter_push(v, p);
    assert(equiv_class(x, k) =~= equiv_class(pre, k));
    assert(equiv_class(x.update(i, v), k) =~= equiv_class(pre.push(v), k));
}

impl MemMap {
    /// Whether the map has its full storage and a valid count.
    pub open spec fn wf(&self) -> bool {
        &&& self.entries.len() == MAX_MEM_MAP_SIZE
        &&& self.next_entry_index <= MAX_MEM_MAP_SIZE
    }

    /// Whether every entry from the next free one on is empty.
    pub open spec fn tail_empty(&self) -> bool {
        forall|i: int| self.next_entry_index <= i < self.entries.len() ==> region_is_empty(#[trigger] self.entries@[i])
    }

    /// A map of empty regions.
    pub fn new() -> (r: MemMap)
        ensures
            r.wf(),
            r.next_entry_index == 0,
            forall|i: int| 0 <= i < MAX_MEM_MAP_SIZE ==> r.entries@[i] == empty_region(),
            r.tail_empty(),
    {
        let mut entries: Vec<MemRegion> = Vec::new();
        while entries.len() < MAX_MEM_MAP_SIZE
            invariant
                entries.len() <= MAX_MEM_MAP_SIZE,
                forall|i: int| 0 <= i < entries.len() ==> entries@[i] == empty_region(),
            decreases MAX_MEM_MAP_SIZE - entries.len(),
        {
            entries.push(MemRegion::empty());
        }
        MemMap { entries, next_entry_index: 0 }
    }

    /// Puts a region in the next free entry and sorts the map; a full map is an error.
    pub fn add_region(&mut self, region: MemRegion) -> (r: Result<(), MemMapError>)
        requires
            old(self).wf(),
        ensures
            final(self).wf(),
            old(self).next_entry_index >= MAX_MEM_MAP_SIZE ==> {
                &&& r == Err::<(), MemMapError>(MemMapError::EntriesFull)
                &&& final(self).entries@ == old(self).entries@
                &&& final(self).next_entry_index == old(self).next_entry_index
            },
            old(self).next_entry_index < MAX_MEM_MAP_SIZE ==> {
                &&& r is Ok
                &&& final(self).next_entry_index == old(self).next_entry_index + 1
                &&& final(self).entries@.to_multiset() == old(self).entries@.update(
                    old(self).next_entry_index as int,
                    region,
                ).to_multiset()
                &&& regions_sorted(final(self).entries@)
                &&& forall|k: MemRegion| #[trigger] equiv_class(final(self).entries@, k) == equiv_class(
                    old(self).entries@.update(old(self).next_entry_index as int, region),
                    k,
                )
                &&& old(self).tail_empty() ==> final(self).tail_empty()
            },
    {
        if self.next_entry_index >= MAX_MEM_MAP_SIZE as u64 {
            return Err(MemMapError::EntriesFull);
        }
        self.entries.set(self.next_entry_index as usize, region);
        self.next_entry_index = self.next_entry_index + 1;
        assert(old(self).tail_empty() ==> self.tail_empty());
        self.sort();
        Ok(())
    }

    /// Sorts the regions: empty ones last, the others by start and then by end address.
    pub fn sort(&mut self)
        requires
            old(self).wf(),
        ensures
            final(self).wf(),
            final(self).next_entry_index == old(self).next_entry_index,
            final(self).entries@.to_multiset() == old(self).entries@.to_multiset(),
            regions_sorted(final(self).entries@),
            forall|k: MemRegion| #[trigger] equiv_class(final(self).entries@, k) == equiv_class(old(self).entries@, k),
            old(self).tail_empty() ==> final(self).tail_empty(),
    {
        let n = self.entries.len();
        let mut i: usize = 1;
        while i < n
            invariant
                self.wf(),
                n == MAX_MEM_MAP_SIZE,
                1 <= i <= n,
                self.next_entry_index == old(self).next_entry_index,
                self.entries@.to_multiset() == old(self).entries@.to_multiset(),
                forall|k: MemRegion| #[trigger] equiv_class(self.entries@, k) == equiv_class(old(self).entries@, k),
                regions_sorted_between(self.entries@, 0, i as int),
            decreases n - i,
        {
            let mut j: usize = i;
            while j > 0 && is_less(self.entries[j], self.entries[j - 1])
                invariant
                    self.wf(),
                    n == MAX_MEM_MAP_SIZE,
                    1 <= i < n,
                    j <= i,
                    self.next_entry_index == old(self).next_entry_index,
                    self.entries@.to_multiset() == old(self).entries@.to_multiset(),
                    forall|k: MemRegion| #[trigger] equiv_class(self.entries@, k) == equiv_class(old(self).entries@, k),
                    regions_sorted_between(self.entries@, 0, j as int),
                    regions_sorted_between(self.entries@, j as int + 1, i as int + 1),
                    forall|a: int, b: int|
                        0 <= a < j && j < b <= i ==> !region_less(
                            #[trigger] self.entries@[b],
                            #[trigger] self.entries@[a],
                        ),
                    forall|b: int| j < b <= i ==> region_less(self.entries@[j as int], #[trigger] self.entries@[b]),
                decreases j,
            {
                let ghost before = self.entries@;
                let a = self.entries[j];
                let b = self.entries[j - 1];
                self.entries.set(j, b);
                self.entries.set(j - 1, a);
                proof {
                    assert(self.entries@ == before.update(j as int, before[j - 1]).update(j - 1, before[j as int]));
                    lemma_swap_multiset(before, j as int, j - 1);
                    assert forall|k: MemRegion| #[trigger] equiv_class(self.entries@, k) == equiv_class(
                        old(self).entries@,
                        k,
                    ) by {
                        lemma_swap_keeps_classes(before, j as int, k);
                    }
                }
                j = j - 1;
            }
            i = i + 1;
        }
        proof {
            if old(self).tail_empty() {
                lemma_sorted_tail_empty(old(self).entries@, self.entries@, self.next_entry_index as int);
            }
        }
    }

    /// Trims each usable region that runs into the next one.
    pub fn remove_usable_region_overlaps(&mut self)
        requires
            old(self).wf(),
        ensures
            final(self).wf(),
            final(self).next_entry_index == old(self).next_entry_index,
            final(self).entries@ == trim_overlaps(old(self).entries@),
    {
        let n = self.entries.len();
        let mut i: usize = 0;
        while i + 1 < n
            invariant
                self.wf(),
                n == MAX_MEM_MAP_SIZE,
                i < n,
                old(self).entries.len() == n,
                self.next_entry_index == old(self).next_entry_index,
                forall|k: int| i <= k < n ==> self.entries@[k] == old(self).entries@[k],
                forall|k: int| 0 <= k < i ==> #[trigger] self.entries@[k] == trimmed_entry(old(self).entries@, k),
            decreases n - i,
        {
            let region = self.entries[i];
            let next = self.entries[i + 1];
            if region.range.end_addr.0 > next.range.start_addr.0 && region.region_type.is_usable() {
                let trimmed = MemRegion {
                    range: AddrRange { start_addr: region.range.start_addr, end_addr: next.range.start_addr },
                    region_type: region.region_type,
                };
                self.entries.set(i, trimmed);
            }
            assert(self.entries@[i as int] == trimmed_entry(old(self).entries@, i as int));
            i = i + 1;
        }
        assert(self.entries@ =~= trim_overlaps(old(self).entries@));
    }

    /// The region in entry `idx`.
    pub fn index(&self, idx: usize) -> (r: MemRegion)
        requires
            self.wf(),
            idx < MAX_MEM_MAP_SIZE,
        ensures
            r == self.entries@[idx as int],
    {
        self.entries[idx]
    }
}

/// Whether `r1` comes before `r2` in a memory map.
pub fn is_less(r1: MemRegion, r2: MemRegion) -> (r: bool)
    ensures
        r == region_less(r1, r2),
{
    if r1.range.start_addr.0 == r1.range.end_addr.0 {
        false
    } else if r2.range.start_addr.0 == r2.range.end_addr.0 {
        true
    } else if r1.range.start_addr.0 != r2.range.start_addr.0 {
        r1.range.start_addr.0 < r2.range.start_addr.0
    } else {
        r1.range.end_addr.0 < r2.range.end_addr.0
    }
}

} // verus!

verus! {

/// Hands out memory from a memory map.
pub struct MemAllocator<'a> {
    pub mmap: &'a mut MemMap,
}

impl<'a> MemAllocator<'a> {
    /// An allocator over `mmap`.
    pub fn new(mmap: &'a mut MemMap) -> (r: MemAllocator<'a>)
        ensures
            *r.mmap == *old(mmap),
            *final(mmap) == *final(r.mmap),
    {
        MemAllocator { mmap }
    }
}

} // verus!


verus! {

/// Whether `region` shares an address with `r`.
pub open spec fn overlaps(region: MemRegion, r: MemRegion) -> bool {
    region.range.start_addr.0 < r.range.end_addr.0 && region.range.end_addr.0 > r.range.start_addr.0
}

/// The index of the first entry from `i` on that `region` overlaps, or the
/// length of `s` when there is none.
pub open spec fn first_overlap_from(s: Seq<MemRegion>, region: MemRegion, i: nat) -> nat
    decreases s.len() - i,
{
    if i >= s.len() {
        s.len()
    } else if overlaps(region, s[i as int]) {
        i
    } else {
        first_overlap_from(s, region, i + 1)
    }
}

/// The search from `i` finds nothing before `i`.
proof fn lemma_first_overlap_from_bound(s: Seq<MemRegion>, region: MemRegion, i: nat)
    ensures
        first_overlap_from(s, region, i) >= i || first_overlap_from(s, region, i) == s.len(),
        first_overlap_from(s, region, i) <= s.len(),
    decreases s.len() - i,
{
    if i < s.len() && !overlaps(region, s[i as int]) {
        lemma_first_overlap_from_bound(s, region, i + 1);
    }
}

/// The index of the first entry that `region` overlaps, or the length of `s`.
pub open spec fn first_overlap(s: Seq<MemRegion>, region: MemRegion) -> nat {
    first_overlap_from(s, region, 0)
}

/// The number of regions that marking `region` inside `r` adds to the map.
pub open spec fn mark_added_count(region: MemRegion, r: MemRegion) -> nat {
    if region.range.start_addr.0 == r.range.start_addr.0 {
        if region.range.end_addr.0 < r.range.end_addr.0 { 1 } else { 0 }
    } else if region.range.start_addr.0 > r.range.start_addr.0 {
        if region.range.end_addr.0 < r.range.end_addr.0 { 2 } else { 1 }
    } else {
        1
    }
}

/// What the entry `r` becomes when `region` is marked inside it.
pub open spec fn mark_remainder(region: MemRegion, r: MemRegion) -> MemRegion {
    let after = MemRegion {
        range: AddrRange { start_addr: region.range.end_addr, end_addr: r.range.end_addr },
        region_type: r.region_type,
    };
    if region.range.start_addr.0 == r.range.start_addr.0 {
        if region.range.end_addr.0 < r.range.end_addr.0 { after } else { region }
    } else if region.range.start_addr.0 > r.range.start_addr.0 {
        if region.range.end_addr.0 < r.range.end_addr.0 {
            after
        } else {
            MemRegion {
                range: AddrRange { start_addr: r.range.start_addr, end_addr: region.range.start_addr },
                region_type: r.region_type,
            }
        }
    } else {
        after
    }
}

/// The part of `r` before `region`.
pub open spec fn mark_left(region: MemRegion, r: MemRegion) -> MemRegion {
    MemRegion {
        range: AddrRange { start_addr: r.range.start_addr, end_addr: region.range.start_addr },
        region_type: r.region_type,
    }
}

/// Putting a region in place of an empty one adds it to the live regions.
proof fn lemma_live_update_empty(x: Seq<MemRegion>, i: int, v: MemRegion)
    requires
        0 <= i < x.len(),
        region_is_empty(x[i]),
    ensures
        live_regions(x.update(i, v)) == if region_is_empty(v) {
            live_regions(x)
        } else {
            live_regions(x).insert(v)
        },
{
    broadcast use vstd::multiset::group_multiset_axioms;
    broadcast use vstd::seq_lib::to_multiset_update;
    assert(x.update(i, v).to_multiset() == x.to_multiset().insert(v).remove(x[i]));
    if region_is_empty(v) {
        assert(live_regions(x.update(i, v)) =~= live_regions(x));
    } else {
        assert(live_regions(x.update(i, v)) =~= live_regions(x).insert(v));
    }
}

impl<'a> MemAllocator<'a> {
    /// Marks `region` as allocated inside the first entry that it overlaps,
    /// which must be usable: what is left of that entry stays in its place,
    /// and `region` (and the part before it, when it falls in the middle) is
    /// added to the map.
    pub fn mark_alloc_region(&mut self, region: MemRegion)
        requires
            old(self).mmap.wf(),
            first_overlap(old(self).mmap.entries@, region) < MAX_MEM_MAP_SIZE,
            old(self).mmap.entries@[first_overlap(old(self).mmap.entries@, region) as int].region_type
                == MemRegionType::Usable,
            old(self).mmap.next_entry_index + mark_added_count(
                region,
                old(self).mmap.entries@[first_overlap(old(self).mmap.entries@, region) as int],
            ) <= MAX_MEM_MAP_SIZE,
        ensures
            *final(final(self).mmap) == *final(old(self).mmap),
            final(self).mmap.wf(),
            ({
                let s = old(self).mmap.entries@;
                let n = old(self).mmap.next_entry_index;
                let k = first_overlap(s, region) as int;
                let count = mark_added_count(region, s[k]);
                let t = s.update(k, mark_remainder(region, s[k]));
                let e = final(self).mmap.entries@;
                &&& final(self).mmap.next_entry_index == n + count
                &&& count == 0 ==> e == t
                &&& count == 1 ==> e.to_multiset() == t.update(n as int, region).to_multiset()
                &&& count == 1 ==> forall|c: MemRegion|
                    #[trigger] equiv_class(e, c) == equiv_class(t.update(n as int, region), c)
                &&& count == 2 ==> exists|mid: Seq<MemRegion>|
                    #![trigger regions_sorted(mid)]
                    {
                        let with_left = t.update(n as int, mark_left(region, s[k]));
                        &&& mid.to_multiset() == with_left.to_multiset()
                        &&& regions_sorted(mid)
                        &&& forall|c: MemRegion| #[trigger] equiv_class(mid, c) == equiv_class(with_left, c)
                        &&& e.to_multiset() == mid.update(n + 1, region).to_multiset()
                        &&& forall|c: MemRegion|
                            #[trigger] equiv_class(e, c) == equiv_class(mid.update(n + 1, region), c)
                    }
                &&& count >= 1 ==> regions_sorted(e)
                &&& count == 2 && old(self).mmap.tail_empty() && k < n ==> live_regions(e) == live_regions(
                    t.update(n as int, mark_left(region, s[k])).update(n + 1, region),
                )
            }),
    {
        let ghost s = self.mmap.entries@;
        let ghost n = self.mmap.next_entry_index;
        let mut i: usize = 0;
        while i < MAX_MEM_MAP_SIZE
            invariant
                self.mmap.wf(),
                *self.mmap == *old(self).mmap,
                *final(self.mmap) == *final(old(self).mmap),
                s == self.mmap.entries@,
                i <= first_overlap(s, region),
                first_overlap_from(s, region, i as nat) == first_overlap(s, region),
                n == old(self).mmap.next_entry_index,
                first_overlap(s, region) < MAX_MEM_MAP_SIZE,
                s[first_overlap(s, region) as int].region_type == MemRegionType::Usable,
                n + mark_added_count(region, s[first_overlap(s, region) as int]) <= MAX_MEM_MAP_SIZE,
            decreases MAX_MEM_MAP_SIZE - i,
        {
            let r = self.mmap.entries[i];
            if region.range.start_addr.0 < r.range.end_addr.0 && region.range.end_addr.0 > r.range.start_addr.0 {
                assert(i == first_overlap(s, region));
                if region.range.start_addr.0 == r.range.start_addr.0 {
                    if region.range.end_addr.0 < r.range.end_addr.0 {
                        let rem = MemRegion {
                            range: AddrRange { start_addr: region.range.end_addr, end_addr: r.range.end_addr },
                            region_type: r.region_type,
                        };
                        self.mmap.entries.set(i, rem);
                        let res = self.mmap.add_region(region);
                    } else {
                        self.mmap.entries.set(i, region);
                    }
                } else if region.range.start_addr.0 > r.range.start_addr.0 {
                    if region.range.end_addr.0 < r.range.end_addr.0 {
                        let left = MemRegion {
                            range: AddrRange { start_addr: r.range.start_addr, end_addr: region.range.start_addr },
                            region_type: r.region_type,
                        };
                        let rem = MemRegion {
                            range: AddrRange { start_addr: region.range.end_addr, end_addr: r.range.end_addr },
                            region_type: r.region_type,
                        };
                        self.mmap.entries.set(i, rem);
                        let ghost t = self.mmap.entries@;
                        let res = self.mmap.add_region(left);
                        let ghost mid = self.mmap.entries@;
                        let res = self.mmap.add_region(region);
                        proof {
                            assert(left == mark_left(region, s[i as int]));
                            let with_left = t.update(n as int, left);
                            assert({
                                &&& mid.to_multiset() == with_left.to_multiset()
                                &&& regions_sorted(mid)
                                &&& forall|c: MemRegion| #[trigger] equiv_class(mid, c) == equiv_class(with_left, c)
                                &&& self.mmap.entries@.to_multiset() == mid.update(n + 1, region).to_multiset()
                                &&& forall|c: MemRegion|
                                    #[trigger] equiv_class(self.mmap.entries@, c) == equiv_class(
                                        mid.update(n + 1, region),
                                        c,
                                    )
                            });
                            if old(self).mmap.tail_empty() && (i as int) < n {
                                assert(self.mmap.entries@.to_multiset() == mid.update(n + 1, region).to_multiset());
                                lemma_live_update_empty(mid, n + 1, region);
                                lemma_live_update_empty(t.update(n as int, left), n + 1, region);
                                assert(live_regions(mid) == live_regions(t.update(n as int, left)));
                            }
                        }
                    } else {
                        let rem = MemRegion {
                            range: AddrRange { start_addr: r.range.start_addr, end_addr: region.range.start_addr },
                            region_type: r.region_type,
                        };
                        self.mmap.entries.set(i, rem);
                        let res = self.mmap.add_region(region);
                    }
                } else {
                    let rem = MemRegion {
                        range: AddrRange { start_addr: region.range.end_addr, end_addr: r.range.end_addr },
                        region_type: r.region_type,
                    };
                    self.mmap.entries.set(i, rem);
                    let res = self.mmap.add_region(region);
                }
                return;
            }
            proof {
                lemma_first_overlap_from_bound(s, region, (i + 1) as nat);
            }
            i = i + 1;
        }
    }
}

} // verus!

verus! {

/// Whether the size of a region can be taken: its end is not below its start
/// and the difference is a 48-bit number.
pub open spec fn size_defined(r: MemRegion) -> bool {
    r.range.start_addr.0 <= r.range.end_addr.0 && r.range.end_addr.0 - r.range.start_addr.0 < ADDR_SPACE_END
}

/// The size of a region, as `AddrRange::size` gives it.
pub open spec fn region_size(r: MemRegion) -> u64 {
    canonicalize((r.range.end_addr.0 - r.range.start_addr.0) as u64)
}

/// Whether an allocation of `size` bytes for `t` can grow entry `i`, of type
/// `t`, into the usable entry right after it.
pub open spec fn can_extend(s: Seq<MemRegion>, t: MemRegionType, size: u64, i: int) -> bool {
    &&& s[i].region_type == t
    &&& i + 1 < s.len()
    &&& s[i + 1].range.start_addr.0 == s[i].range.end_addr.0
    &&& region_size(s[i + 1]) >= size - region_size(s[i])
    &&& s[i + 1].region_type == MemRegionType::Usable
}

/// Whether looking at entry `i` for an extension takes only defined sizes.
pub open spec fn extend_check_defined(s: Seq<MemRegion>, t: MemRegionType, size: u64, i: int) -> bool {
    s[i].region_type == t && i + 1 < s.len() ==> {
        &&& size_defined(s[i])
        &&& region_size(s[i]) <= size
        &&& s[i + 1].range.start_addr.0 == s[i].range.end_addr.0 ==> size_defined(s[i + 1])
    }
}

/// The first entry from `i` on that can be extended, or the length of `s`.
pub open spec fn first_extend_from(s: Seq<MemRegion>, t: MemRegionType, size: u64, i: nat) -> nat
    decreases s.len() - i,
{
    if i >= s.len() {
        s.len()
    } else if can_extend(s, t, size, i as int) {
        i
    } else {
        first_extend_from(s, t, size, i + 1)
    }
}

/// The first entry that can be extended, or the length of `s`.
pub open spec fn first_extend(s: Seq<MemRegion>, t: MemRegionType, size: u64) -> nat {
    first_extend_from(s, t, size, 0)
}

/// Whether a usable entry has room for `size` bytes.
pub open spec fn can_split(r: MemRegion, size: u64) -> bool {
    r.region_type == MemRegionType::Usable && region_size(r) >= size
}

/// The first entry from `i` on with room for `size` bytes, or the length of `s`.
pub open spec fn first_split_from(s: Seq<MemRegion>, size: u64, i: nat) -> nat
    decreases s.len() - i,
{
    if i >= s.len() {
        s.len()
    } else if can_split(s[i as int], size) {
        i
    } else {
        first_split_from(s, size, i + 1)
    }
}

/// The first entry with room for `size` bytes, or the length of `s`.
pub open spec fn first_split(s: Seq<MemRegion>, size: u64) -> nat {
    first_split_from(s, size, 0)
}

proof fn lemma_first_extend_from_bound(s: Seq<MemRegion>, t: MemRegionType, size: u64, i: nat)
    ensures
        first_extend_from(s, t, size, i) >= i || first_extend_from(s, t, size, i) == s.len(),
        first_extend_from(s, t, size, i) <= s.len(),
    decreases s.len() - i,
{
    if i < s.len() && !can_extend(s, t, size, i as int) {
        lemma_first_extend_from_bound(s, t, size, i + 1);
    }
}

proof fn lemma_first_split_from_bound(s: Seq<MemRegion>, size: u64, i: nat)
    ensures
        first_split_from(s, size, i) >= i || first_split_from(s, size, i) == s.len(),
        first_split_from(s, size, i) <= s.len(),
    decreases s.len() - i,
{
    if i < s.len() && !can_split(s[i as int], size) {
        lemma_first_split_from_bound(s, size, i + 1);
    }
}

/// Whether `alloc_mem` can run on the entries `s` without an overflow or a
/// full map.
pub open spec fn alloc_defined(s: Seq<MemRegion>, next: u64, t: MemRegionType, size: u64) -> bool {
    let e = first_extend(s, t, size) as int;
    let p = first_split(s, size) as int;
    &&& forall|j: int| 0 <= j < e && j < s.len() ==> extend_check_defined(s, t, size, j)
    &&& e < s.len() ==> {
        &&& extend_check_defined(s, t, size, e)
        &&& s[e].range.end_addr.0 + (size - region_size(s[e])) < ADDR_SPACE_END
        &&& s[e + 1].range.start_addr.0 + (size - region_size(s[e])) < ADDR_SPACE_END
    }
    &&& e == s.len() ==> {
        &&& forall|j: int|
            0 <= j <= p && j < s.len() && #[trigger] s[j].region_type == MemRegionType::Usable
                ==> size_defined(s[j])
        &&& p < s.len() ==> s[p].range.start_addr.0 + size < ADDR_SPACE_END && next < s.len()
    }
}

impl<'a> MemAllocator<'a> {
    /// Allocates `size` bytes for `region_type`: first by growing a region of
    /// that type into the usable region right after it, else by taking the
    /// start of the first usable region with room, which becomes a new region
    /// of the map; `None` when neither is possible.
    pub fn alloc_mem(&mut self, region_type: MemRegionType, size: u64) -> (r: Option<MemChunk>)
        requires
            old(self).mmap.wf(),
            alloc_defined(old(self).mmap.entries@, old(self).mmap.next_entry_index, region_type, size),
        ensures
            *final(final(self).mmap) == *final(old(self).mmap),
            final(self).mmap.wf(),
            ({
                let s = old(self).mmap.entries@;
                let n = old(self).mmap.next_entry_index;
                let e = first_extend(s, region_type, size) as int;
                let p = first_split(s, size) as int;
                let f = final(self).mmap.entries@;
                if e < s.len() {
                    let space = (size - region_size(s[e])) as u64;
                    &&& r == Some(MemChunk { start_addr: s[e].range.start_addr, size })
                    &&& final(self).mmap.next_entry_index == n
                    &&& f == s.update(
                        e,
                        MemRegion {
                            range: AddrRange {
                                start_addr: s[e].range.start_addr,
                                end_addr: Addr(canonicalize((s[e].range.end_addr.0 + space) as u64)),
                            },
                            region_type: s[e].region_type,
                        },
                    ).update(
                        e + 1,
                        MemRegion {
                            range: AddrRange {
                                start_addr: Addr(canonicalize((s[e + 1].range.start_addr.0 + space) as u64)),
                                end_addr: s[e + 1].range.end_addr,
                            },
                            region_type: s[e + 1].region_type,
                        },
                    )
                } else if p < s.len() {
                    let new_start = Addr(canonicalize((s[p].range.start_addr.0 + size) as u64));
                    &&& r == Some(MemChunk { start_addr: s[p].range.start_addr, size })
                    &&& final(self).mmap.next_entry_index == n + 1
                    &&& regions_sorted(f)
                    &&& f.to_multiset() == s.update(
                        p,
                        MemRegion {
                            range: AddrRange { start_addr: new_start, end_addr: s[p].range.end_addr },
                            region_type: s[p].region_type,
                        },
                    ).update(
                        n as int,
                        MemRegion {
                            range: AddrRange { start_addr: s[p].range.start_addr, end_addr: new_start },
                            region_type,
                        },
                    ).to_multiset()
                } else {
                    &&& r is None
                    &&& *final(self).mmap == *old(self).mmap
                }
            }),
    {
        let ghost s = self.mmap.entries@;
        let ghost n = self.mmap.next_entry_index;
        let mut i: usize = 0;
        while i < MAX_MEM_MAP_SIZE
            invariant
                self.mmap.wf(),
                *self.mmap == *old(self).mmap,
                *final(self.mmap) == *final(old(self).mmap),
                s == self.mmap.entries@,
                n == self.mmap.next_entry_index,
                alloc_defined(s, n, region_type, size),
                i <= first_extend(s, region_type, size),
                first_extend_from(s, region_type, size, i as nat) == first_extend(s, region_type, size),
            decreases MAX_MEM_MAP_SIZE - i,
        {
            let region = self.mmap.entries[i];
            proof {
                lemma_first_extend_from_bound(s, region_type, size, (i + 1) as nat);
            }
            if region.region_type == region_type && i + 1 < MAX_MEM_MAP_SIZE {
                assert(extend_check_defined(s, region_type, size, i as int));
                let next = self.mmap.entries[i + 1];
                let space_left = size - region.range.size();
                if next.range.start_addr.0 == region.range.end_addr.0 && next.range.size() >= space_left
                    && next.region_type.is_usable() {
                    assert(i == first_extend(s, region_type, size));
                    let grown = MemRegion {
                        range: AddrRange {
                            start_addr: region.range.start_addr,
                            end_addr: Addr::new(region.range.end_addr.0 + space_left),
                        },
                        region_type: region.region_type,
                    };
                    let shrunk = MemRegion {
                        range: AddrRange {
                            start_addr: Addr::new(next.range.start_addr.0 + space_left),
                            end_addr: next.range.end_addr,
                        },
                        region_type: next.region_type,
                    };
                    self.mmap.entries.set(i, grown);
                    self.mmap.entries.set(i + 1, shrunk);
                    return Some(MemChunk { start_addr: region.range.start_addr, size });
                }
            }
            i = i + 1;
        }
        let mut j: usize = 0;
        while j < MAX_MEM_MAP_SIZE
            invariant
                self.mmap.wf(),
                *self.mmap == *old(self).mmap,
                *final(self.mmap) == *final(old(self).mmap),
                s == self.mmap.entries@,
                n == self.mmap.next_entry_index,
                alloc_defined(s, n, region_type, size),
                first_extend(s, region_type, size) == s.len(),
                j <= first_split(s, size),
                first_split_from(s, size, j as nat) == first_split(s, size),
            decreases MAX_MEM_MAP_SIZE - j,
        {
            let region = self.mmap.entries[j];
            proof {
                lemma_first_split_from_bound(s, size, (j + 1) as nat);
            }
            if region.region_type.is_usable() && region.range.size() >= size {
                assert(j == first_split(s, size));
                let new_start = Addr::new(region.range.start_addr.0 + size);
                let trimmed = MemRegion {
                    range: AddrRange { start_addr: new_start, end_addr: region.range.end_addr },
                    region_type: region.region_type,
                };
                self.mmap.entries.set(j, trimmed);
                let allocated = MemRegion {
                    range: AddrRange { start_addr: region.range.start_addr, end_addr: new_start },
                    region_type,
                };
                let res = self.mmap.add_region(allocated);
                return Some(MemChunk { start_addr: region.range.start_addr, size });
            }
            j = j + 1;
        }
        None
    }
}

} // verus!

verus! {

/// Whether a BIOS region can be converted: a known type and an end within the
/// 48-bit address space.
pub open spec fn e820_region_valid(region: E820MemRegion) -> bool {
    &&& 1 <= region.region_type <= 5
    &&& region.start_addr < ADDR_SPACE_END
    &&& region.start_addr + region.len < ADDR_SPACE_END
}

/// Whether a UEFI region can be converted: it ends in the lower half.
pub open spec fn efi_region_valid(region: EFIMemRegion) -> bool {
    region.physical_start.0 + region.no_of_pages * PAGE_SIZE_4KIB < LOWER_HALF_END
}

/// Whether a BIOS region can be converted: a known type, and an end below
/// the end of the address space.
pub fn e820_region_is_valid(region: E820MemRegion) -> (r: bool)
    ensures
        r == e820_region_valid(region),
{
    1 <= region.region_type && region.region_type <= 5 && region.start_addr < ADDR_SPACE_END && region.len
        < ADDR_SPACE_END - region.start_addr
}

/// The type of a UEFI region with type code `code`, as the UEFI
/// specification numbers them; `None` for a code it does not define.
pub open spec fn efi_type_of(code: u32) -> Option<EFIMemRegionType> {
    if false {
        None
    } else if code == 0 {
        Some(EFIMemRegionType::Reserved)
    } else if code == 1 {
        Some(EFIMemRegionType::LoaderCode)
    } else if code == 2 {
        Some(EFIMemRegionType::LoaderData)
    } else if code == 3 {
        Some(EFIMemRegionType::BootServicesCode)
    } else if code == 4 {
        Some(EFIMemRegionType::BootServicesData)
    } else if code == 5 {
        Some(EFIMemRegionType::RuntimeServicesCode)
    } else if code == 6 {
        Some(EFIMemRegionType::RuntimeServicesData)
    } else if code == 7 {
        Some(EFIMemRegionType::Conventional)
    } else if code == 8 {
        Some(EFIMemRegionType::Unusable)
    } else if code == 9 {
        Some(EFIMemRegionType::AcpiReclaimable)
    } else if code == 10 {
        Some(EFIMemRegionType::AcpiNvs)
    } else if code == 11 {
        Some(EFIMemRegionType::MemMappedIO)
    } else if code == 12 {
        Some(EFIMemRegionType::MemMappedIOPortSpace)
    } else if code == 13 {
        Some(EFIMemRegionType::PalCode)
    } else if code == 14 {
        Some(EFIMemRegionType::Persistent)
    } else {
        None
    }
}

/// The type of a UEFI region with type code `code`.
pub fn efi_type_from_code(code: u32) -> (r: Option<EFIMemRegionType>)
    ensures
        r == efi_type_of(code),
{
    match code {
        0 => Some(EFIMemRegionType::Reserved),
        1 => Some(EFIMemRegionType::LoaderCode),
        2 => Some(EFIMemRegionType::LoaderData),
        3 => Some(EFIMemRegionType::BootServicesCode),
        4 => Some(EFIMemRegionType::BootServicesData),
        5 => Some(EFIMemRegionType::RuntimeServicesCode),
        6 => Some(EFIMemRegionType::RuntimeServicesData),
        7 => Some(EFIMemRegionType::Conventional),
        8 => Some(EFIMemRegionType::Unusable),
        9 => Some(EFIMemRegionType::AcpiReclaimable),
        10 => Some(EFIMemRegionType::AcpiNvs),
        11 => Some(EFIMemRegionType::MemMappedIO),
        12 => Some(EFIMemRegionType::MemMappedIOPortSpace),
        13 => Some(EFIMemRegionType::PalCode),
        14 => Some(EFIMemRegionType::Persistent),
        _ => None,
    }
}

/// The fewest bytes a UEFI memory descriptor takes.
pub const EFI_DESCRIPTOR_MIN_SIZE: usize = 40;

/// The region described by the UEFI memory descriptor whose bytes start at
/// `i`, of type `t`: the type code, four bytes of padding, then the physical
/// start, the virtual start, the number of pages and the attributes.
pub open spec fn efi_entry_at(b: Seq<u8>, i: int, t: EFIMemRegionType) -> EFIMemRegion {
    EFIMemRegion {
        type_: t,
        physical_start: Addr(crate::acpi::le64(b, i + 8) as u64),
        virtual_start: Addr(crate::acpi::le64(b, i + 16) as u64),
        no_of_pages: crate::acpi::le64(b, i + 24) as u64,
        attribute: crate::acpi::le64(b, i + 32) as u64,
    }
}

/// Whether every whole descriptor of `b`, `size` bytes each, has a type code
/// that names a type.
pub open spec fn efi_types_known(b: Seq<u8>, size: int) -> bool {
    forall|k: int|
        0 <= k < (b.len() as int) / size ==> (#[trigger] efi_type_of(crate::acpi::le32(b, k * size) as u32)) is Some
}

/// The regions of a UEFI memory map laid out in `bytes`, one descriptor
/// every `descriptor_size` bytes; bytes after the last whole descriptor are
/// left out. `None` when a descriptor's type code names no type.
pub fn efi_regions_from_bytes(bytes: &[u8], descriptor_size: usize) -> (r: Option<Vec<EFIMemRegion>>)
    requires
        descriptor_size >= EFI_DESCRIPTOR_MIN_SIZE,
    ensures
        r is Some <==> efi_types_known(bytes@, descriptor_size as int),
        r matches Some(v) ==> {
            &&& v@.len() == bytes@.len() / (descriptor_size as nat)
            &&& forall|k: int|
                0 <= k < v@.len() ==> #[trigger] v@[k] == efi_entry_at(
                    bytes@,
                    k * descriptor_size,
                    efi_type_of(crate::acpi::le32(bytes@, k * descriptor_size) as u32)->0,
                )
        },
{
    let n = bytes.len() / descriptor_size;
    let mut out: Vec<EFIMemRegion> = Vec::new();
    let mut k: usize = 0;
    while k < n
        invariant
            n == bytes@.len() / (descriptor_size as nat),
            bytes@.len() == bytes.len(),
            descriptor_size >= EFI_DESCRIPTOR_MIN_SIZE,
            k <= n,
            out@.len() == k,
            forall|j: int| 0 <= j < k ==> (#[trigger] efi_type_of(crate::acpi::le32(bytes@, j * descriptor_size) as u32)) is Some,
            forall|j: int|
                0 <= j < k ==> #[trigger] out@[j] == efi_entry_at(
                    bytes@,
                    j * descriptor_size,
                    efi_type_of(crate::acpi::le32(bytes@, j * descriptor_size) as u32)->0,
                ),
        decreases n - k,
    {
        assert(k * descriptor_size + descriptor_size <= bytes@.len()) by (nonlinear_arith)
            requires
                k < n,
                n == bytes@.len() / (descriptor_size as nat),
                descriptor_size > 0,
        ;
        let i = k * descriptor_size;
        let code = crate::acpi::read_u32(bytes, i);
        let t = match efi_type_from_code(code) {
            Some(t) => t,
            None => {
                assert(efi_type_of(crate::acpi::le32(bytes@, k * descriptor_size) as u32) is None);
                assert(k < (bytes@.len() as int) / (descriptor_size as int));
                return None;
            },
        };
        out.push(EFIMemRegion {
            type_: t,
            physical_start: Addr(crate::acpi::read_u64(bytes, i + 8)),
            virtual_start: Addr(crate::acpi::read_u64(bytes, i + 16)),
            no_of_pages: crate::acpi::read_u64(bytes, i + 24),
            attribute: crate::acpi::read_u64(bytes, i + 32),
        });
        k = k + 1;
    }
    Some(out)
}

/// Whether a UEFI region can be converted: it ends in the lower half.
pub fn efi_region_is_valid(region: EFIMemRegion) -> (r: bool)
    ensures
        r == efi_region_valid(region),
{
    let pages = region.no_of_pages as u128;
    assert(pages * 4096 <= 0xffff_ffff_ffff_ffff * 4096) by (nonlinear_arith)
        requires
            pages <= 0xffff_ffff_ffff_ffff,
    ;
    let end = region.physical_start.0 as u128 + pages * (PAGE_SIZE_4KIB as u128);
    end < LOWER_HALF_END as u128
}

/// The size of one entry of the BIOS memory map.
pub const E820_ENTRY_SIZE: usize = 24;

/// The entry of the BIOS memory map whose bytes start at `i`: start, length,
/// type and extended attributes, each little-endian.
pub open spec fn e820_entry_at(b: Seq<u8>, i: int) -> E820MemRegion {
    E820MemRegion {
        start_addr: crate::acpi::le64(b, i) as u64,
        len: crate::acpi::le64(b, i + 8) as u64,
        region_type: crate::acpi::le32(b, i + 16) as u32,
        acpi_extended_attrs: crate::acpi::le32(b, i + 20) as u32,
    }
}

/// The entries of a BIOS memory map laid out one after another in `bytes`;
/// bytes after the last whole entry are left out.
pub fn e820_regions_from_bytes(bytes: &[u8]) -> (r: Vec<E820MemRegion>)
    ensures
        r@.len() == bytes@.len() / (E820_ENTRY_SIZE as nat),
        forall|k: int| 0 <= k < r@.len() ==> #[trigger] r@[k] == e820_entry_at(bytes@, k * E820_ENTRY_SIZE),
{
    let n = bytes.len() / E820_ENTRY_SIZE;
    let mut out: Vec<E820MemRegion> = Vec::new();
    let mut k: usize = 0;
    while k < n
        invariant
            n == bytes@.len() / (E820_ENTRY_SIZE as nat),
            bytes@.len() == bytes.len(),
            k <= n,
            out@.len() == k,
            forall|j: int| 0 <= j < k ==> #[trigger] out@[j] == e820_entry_at(bytes@, j * E820_ENTRY_SIZE),
        decreases n - k,
    {
        assert(k * E820_ENTRY_SIZE + E820_ENTRY_SIZE <= bytes@.len()) by (nonlinear_arith)
            requires
                k < n,
                n == bytes@.len() / (E820_ENTRY_SIZE as nat),
        ;
        let i = k * E820_ENTRY_SIZE;
        out.push(E820MemRegion {
            start_addr: crate::acpi::read_u64(bytes, i),
            len: crate::acpi::read_u64(bytes, i + 8),
            region_type: crate::acpi::read_u32(bytes, i + 16),
            acpi_extended_attrs: crate::acpi::read_u32(bytes, i + 20),
        });
        k = k + 1;
    }
    out
}

impl MemMap {
    /// The map of `regions`, sorted, with the overlaps of usable regions trimmed.
    pub fn from_regions(regions: &Vec<MemRegion>) -> (r: MemMap)
        requires
            regions.len() <= MAX_MEM_MAP_SIZE,
        ensures
            r.wf(),
            r.next_entry_index == regions.len(),
            exists|sorted: Seq<MemRegion>|
                {
                    &&& sorted.len() == MAX_MEM_MAP_SIZE
                    &&& regions_sorted(sorted)
                    &&& live_regions(sorted) == live_regions(loaded_entries(regions@, regions.len() as int))
                    &&& forall|k: MemRegion|
                        !region_is_empty(k) ==> #[trigger] equiv_class(sorted, k) == equiv_class(regions@, k)
                    &&& r.entries@ == trim_overlaps(sorted)
                },
    {
        let mut mmap = MemMap::new();
        proof {
            assert(mmap.entries@ =~= loaded_entries(regions@, 0));
            assert forall|k: MemRegion| !region_is_empty(k) implies #[trigger] equiv_class(mmap.entries@, k)
                == equiv_class(regions@.take(0), k) by {
                lemma_class_of_empties(mmap.entries@, k);
                lemma_class_of_empties(regions@.take(0), k);
            }
        }
        let mut i: usize = 0;
        while i < regions.len()
            invariant
                mmap.wf(),
                mmap.tail_empty(),
                regions.len() <= MAX_MEM_MAP_SIZE,
                i <= regions.len(),
                mmap.next_entry_index == i,
                live_regions(mmap.entries@) == live_regions(loaded_entries(regions@, i as int)),
                forall|k: MemRegion|
                    !region_is_empty(k) ==> #[trigger] equiv_class(mmap.entries@, k) == equiv_class(
                        regions@.take(i as int),
                        k,
                    ),
            decreases regions.len() - i,
        {
            let ghost before = mmap.entries@;
            let res = mmap.add_region(regions[i]);
            proof {
                assert(regions@.take(i + 1) =~= regions@.take(i as int).push(regions@[i as int]));
                assert forall|k: MemRegion| !region_is_empty(k) implies #[trigger] equiv_class(mmap.entries@, k)
                    == equiv_class(regions@.take(i + 1), k) by {
                    lemma_class_fill(before, i as int, regions@[i as int], k);
                    regions@.take(i as int).lemma_filter_push(regions@[i as int], |r: MemRegion| region_equiv(r, k));
                }
                lemma_live_update_empty(before, i as int, regions@[i as int]);
                let l = loaded_entries(regions@, i as int);
                assert(loaded_entries(regions@, i + 1) =~= l.update(i as int, regions@[i as int]));
                lemma_live_update_empty(l, i as int, regions@[i as int]);
                assert(live_regions(mmap.entries@) == live_regions(before.update(i as int, regions@[i as int])));
            }
            i = i + 1;
        }
        mmap.sort();
        let ghost sorted = mmap.entries@;
        mmap.remove_usable_region_overlaps();
        proof {
            assert(live_regions(sorted) == live_regions(loaded_entries(regions@, regions.len() as int)));
            assert(regions@.take(regions.len() as int) =~= regions@);
        }
        mmap
    }

    /// The map of the regions that the BIOS reports.
    pub fn from_e820_regions(regions: &Vec<E820MemRegion>) -> (r: MemMap)
        requires
            regions.len() <= MAX_MEM_MAP_SIZE,
            forall|i: int| 0 <= i < regions.len() ==> e820_region_valid(#[trigger] regions@[i]),
        ensures
            r.wf(),
            r.next_entry_index == regions.len(),
            exists|sorted: Seq<MemRegion>|
                {
                    &&& sorted.len() == MAX_MEM_MAP_SIZE
                    &&& regions_sorted(sorted)
                    &&& live_regions(sorted) == live_regions(
                        loaded_entries(regions@.map_values(|x: E820MemRegion| e820_mem_region(x)), regions.len() as int),
                    )
                    &&& forall|k: MemRegion|
                        !region_is_empty(k) ==> #[trigger] equiv_class(sorted, k) == equiv_class(
                            regions@.map_values(|x: E820MemRegion| e820_mem_region(x)),
                            k,
                        )
                    &&& r.entries@ == trim_overlaps(sorted)
                },
    {
        let mut converted: Vec<MemRegion> = Vec::new();
        let mut i: usize = 0;
        while i < regions.len()
            invariant
                i <= regions.len(),
                forall|k: int| 0 <= k < regions.len() ==> e820_region_valid(#[trigger] regions@[k]),
                converted@ =~= regions@.take(i as int).map_values(|x: E820MemRegion| e820_mem_region(x)),
            decreases regions.len() - i,
        {
            converted.push(MemRegion::from_e820(regions[i]));
            i = i + 1;
        }
        assert(converted@ =~= regions@.map_values(|x: E820MemRegion| e820_mem_region(x)));
        MemMap::from_regions(&converted)
    }

    /// The map of the regions that UEFI reports, once boot services have been exited.
    pub fn from_efi_regions(regions: &Vec<EFIMemRegion>) -> (r: MemMap)
        requires
            regions.len() <= MAX_MEM_MAP_SIZE,
            forall|i: int| 0 <= i < regions.len() ==> efi_region_valid(#[trigger] regions@[i]),
        ensures
            r.wf(),
            r.next_entry_index == regions.len(),
            exists|sorted: Seq<MemRegion>|
                {
                    &&& sorted.len() == MAX_MEM_MAP_SIZE
                    &&& regions_sorted(sorted)
                    &&& live_regions(sorted) == live_regions(
                        loaded_entries(regions@.map_values(|x: EFIMemRegion| efi_mem_region(x)), regions.len() as int),
                    )
                    &&& forall|k: MemRegion|
                        !region_is_empty(k) ==> #[trigger] equiv_class(sorted, k) == equiv_class(
                            regions@.map_values(|x: EFIMemRegion| efi_mem_region(x)),
                            k,
                        )
                    &&& r.entries@ == trim_overlaps(sorted)
                },
    {
        let mut converted: Vec<MemRegion> = Vec::new();
        let mut i: usize = 0;
        while i < regions.len()
            invariant
                i <= regions.len(),
                forall|k: int| 0 <= k < regions.len() ==> efi_region_valid(#[trigger] regions@[k]),
                converted@ =~= regions@.take(i as int).map_values(|x: EFIMemRegion| efi_mem_region(x)),
            decreases regions.len() - i,
        {
            converted.push(MemRegion::from_efi(regions[i]));
            i = i + 1;
        }
        assert(converted@ =~= regions@.map_values(|x: EFIMemRegion| efi_mem_region(x)));
        MemMap::from_regions(&converted)
    }
}

} // verus!

verus! {

/// Whether a region's size is defined.
fn size_is_defined(r: MemRegion) -> (b: bool)
    ensures
        b == size_defined(r),
{
    r.range.start_addr.0 <= r.range.end_addr.0 && r.range.end_addr.0 - r.range.start_addr.0 < ADDR_SPACE_END
}

impl MemMap {
    /// Whether `region` can be marked: it overlaps an entry, the first such
    /// entry is usable, and the map has room for the regions that marking adds.
    pub fn mark_is_defined(&self, region: MemRegion) -> (r: bool)
        requires
            self.wf(),
        ensures
            r == {
                let s = self.entries@;
                let k = first_overlap(s, region);
                &&& k < MAX_MEM_MAP_SIZE
                &&& s[k as int].region_type == MemRegionType::Usable
                &&& self.next_entry_index + mark_added_count(region, s[k as int]) <= MAX_MEM_MAP_SIZE
            },
    {
        let ghost s = self.entries@;
        let mut i: usize = 0;
        proof {
            lemma_first_overlap_from_bound(s, region, 0);
        }
        while i < MAX_MEM_MAP_SIZE
            invariant
                self.wf(),
                s == self.entries@,
                i <= first_overlap(s, region),
                first_overlap_from(s, region, i as nat) == first_overlap(s, region),
            decreases MAX_MEM_MAP_SIZE - i,
        {
            let r = self.entries[i];
            proof {
                lemma_first_overlap_from_bound(s, region, (i + 1) as nat);
            }
            if region.range.start_addr.0 < r.range.end_addr.0 && region.range.end_addr.0 > r.range.start_addr.0 {
                if !r.region_type.is_usable() {
                    return false;
                }
                let added: u64 = if region.range.start_addr.0 == r.range.start_addr.0 {
                    if region.range.end_addr.0 < r.range.end_addr.0 { 1 } else { 0 }
                } else if region.range.start_addr.0 > r.range.start_addr.0 {
                    if region.range.end_addr.0 < r.range.end_addr.0 { 2 } else { 1 }
                } else {
                    1
                };
                return self.next_entry_index + added <= MAX_MEM_MAP_SIZE as u64;
            }
            i = i + 1;
        }
        false
    }

    /// Whether an allocation of `size` bytes for `region_type` runs without
    /// an overflow or a full map.
    pub fn alloc_is_defined(&self, region_type: MemRegionType, size: u64) -> (r: bool)
        requires
            self.wf(),
        ensures
            r == alloc_defined(self.entries@, self.next_entry_index, region_type, size),
    {
        let ghost s = self.entries@;
        let n = self.next_entry_index;
        let mut i: usize = 0;
        proof {
            lemma_first_extend_from_bound(s, region_type, size, 0);
        }
        while i < MAX_MEM_MAP_SIZE
            invariant
                self.wf(),
                s == self.entries@,
                n == self.next_entry_index,
                i <= first_extend(s, region_type, size),
                first_extend_from(s, region_type, size, i as nat) == first_extend(s, region_type, size),
                forall|j: int| 0 <= j < i ==> extend_check_defined(s, region_type, size, j),
            decreases MAX_MEM_MAP_SIZE - i,
        {
            let region = self.entries[i];
            proof {
                lemma_first_extend_from_bound(s, region_type, size, (i + 1) as nat);
            }
            if region.region_type == region_type && i + 1 < MAX_MEM_MAP_SIZE {
                let next = self.entries[i + 1];
                if !size_is_defined(region) || region.range.size() > size {
                    assert(!extend_check_defined(s, region_type, size, i as int));
                    return false;
                }
                let touches = next.range.start_addr.0 == region.range.end_addr.0;
                if touches && !size_is_defined(next) {
                    assert(!extend_check_defined(s, region_type, size, i as int));
                    return false;
                }
                assert(extend_check_defined(s, region_type, size, i as int));
                let space_left = size - region.range.size();
                if touches && next.range.size() >= space_left && next.region_type.is_usable() {
                    assert(i == first_extend(s, region_type, size));
                    return (region.range.end_addr.0 as u128) + (space_left as u128) < ADDR_SPACE_END as u128
                        && (next.range.start_addr.0 as u128) + (space_left as u128) < ADDR_SPACE_END as u128;
                }
            }
            assert(extend_check_defined(s, region_type, size, i as int));
            i = i + 1;
        }
        assert(first_extend(s, region_type, size) == s.len());
        let mut j: usize = 0;
        proof {
            lemma_first_split_from_bound(s, size, 0);
        }
        while j < MAX_MEM_MAP_SIZE
            invariant
                self.wf(),
                s == self.entries@,
                n == self.next_entry_index,
                first_extend(s, region_type, size) == s.len(),
                forall|k: int| 0 <= k < s.len() ==> extend_check_defined(s, region_type, size, k),
                j <= first_split(s, size),
                first_split_from(s, size, j as nat) == first_split(s, size),
                forall|k: int| 0 <= k < j && #[trigger] s[k].region_type == MemRegionType::Usable ==> size_defined(s[k]),
            decreases MAX_MEM_MAP_SIZE - j,
        {
            let region = self.entries[j];
            proof {
                lemma_first_split_from_bound(s, size, (j + 1) as nat);
            }
            if region.region_type.is_usable() {
                if !size_is_defined(region) {
                    return false;
                }
                if region.range.size() >= size {
                    assert(j == first_split(s, size));
                    return (region.range.start_addr.0 as u128) + (size as u128) < ADDR_SPACE_END as u128 && n
                        < MAX_MEM_MAP_SIZE as u64;
                }
            }
            j = j + 1;
        }
        true
    }
}

} // verus!
