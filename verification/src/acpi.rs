//! The ACPI tables, read from their bytes: the root system description
//! pointer, the root table and the tables it points to.
use vstd::prelude::*;

verus! {

/// The sum of the bytes.
pub open spec fn byte_sum(s: Seq<u8>) -> int
    decreases s.len(),
{
    if s.len() == 0 {
        0
    } else {
        byte_sum(s.drop_last()) + s.last()
    }
}

proof fn lemma_byte_sum_bound(s: Seq<u8>)
    ensures
        0 <= byte_sum(s) <= 255 * s.len(),
    decreases s.len(),
{
    if s.len() > 0 {
        lemma_byte_sum_bound(s.drop_last());
    }
}

/// Whether the bytes add up to a multiple of 0x100.
pub open spec fn sums_to_zero(s: Seq<u8>) -> bool {
    byte_sum(s) % 0x100 == 0
}

/// The sum of the bytes of `b` from `start` up to `end`.
pub fn sum_bytes(b: &[u8], start: usize, end: usize) -> (r: u64)
    requires
        start <= end <= b@.len(),
        end - start <= 0x1_0000_0000_0000,
    ensures
        r == byte_sum(b@.subrange(start as int, end as int)),
{
    let mut sum: u64 = 0;
    let mut i = start;
    while i < end
        invariant
            start <= i <= end <= b@.len(),
            end - start <= 0x1_0000_0000_0000,
            sum == byte_sum(b@.subrange(start as int, i as int)),
        decreases end - i,
    {
        proof {
            lemma_byte_sum_bound(b@.subrange(start as int, i as int));
            assert(b@.subrange(start as int, i + 1).drop_last() == b@.subrange(start as int, i as int));
        }
        sum = sum + b[i] as u64;
        i = i + 1;
    }
    sum
}

/// The little-endian number in the two bytes from `i`.
pub open spec fn le16(b: Seq<u8>, i: int) -> int {
    b[i] + b[i + 1] * 0x100
}

/// The little-endian number in the four bytes from `i`.
pub open spec fn le32(b: Seq<u8>, i: int) -> int {
    b[i] + b[i + 1] * 0x100 + b[i + 2] * 0x1_0000 + b[i + 3] * 0x100_0000
}

/// The little-endian number in the eight bytes from `i`.
pub open spec fn le64(b: Seq<u8>, i: int) -> int {
    le32(b, i) + le32(b, i + 4) * 0x1_0000_0000
}

/// The little-endian number in the four bytes of `b` from `i`.
pub fn read_u32(b: &[u8], i: usize) -> (r: u32)
    requires
        i + 4 <= b@.len(),
    ensures
        r == le32(b@, i as int),
{
    b[i] as u32 + (b[i + 1] as u32) * 0x100 + (b[i + 2] as u32) * 0x1_0000 + (b[i + 3] as u32) * 0x100_0000
}

/// The little-endian number in the eight bytes of `b` from `i`.
pub fn read_u64(b: &[u8], i: usize) -> (r: u64)
    requires
        i + 8 <= b@.len(),
    ensures
        r == le64(b@, i as int),
{
    assert(b@.len() == b.len());
    read_u32(b, i) as u64 + (read_u32(b, i + 4) as u64) * 0x1_0000_0000
}

/// The size of the first version of the root system description pointer.
pub const RSDP_V1_SIZE: usize = 20;
/// The size of the second version of the root system description pointer.
pub const RSDP_V2_SIZE: usize = 36;
/// The size of the header of a system description table.
pub const SDT_HEADER_SIZE: usize = 36;

/// "RSD PTR " in ASCII.
pub open spec fn rsdp_signature() -> Seq<u8> {
    seq![0x52u8, 0x53, 0x44, 0x20, 0x50, 0x54, 0x52, 0x20]
}

/// The first version of the root system description pointer, as its bytes.
#[derive(Clone, Debug, PartialEq, Eq)]
pub struct RSDPDescriptorV1 {
    pub bytes: std::vec::Vec<u8>,
}

/// The second version of the root system description pointer, as its bytes.
#[derive(Clone, Debug, PartialEq, Eq)]
pub struct RSDPDescriptorV2 {
    pub bytes: std::vec::Vec<u8>,
}

impl RSDPDescriptorV1 {
    /// The descriptor holds its twenty bytes.
    pub open spec fn wf(&self) -> bool {
        self.bytes@.len() == RSDP_V1_SIZE
    }

    /// Whether all the bytes add up to a multiple of 0x100.
    pub fn checksum_is_valid(&self) -> (r: bool)
        requires
            self.wf(),
        ensures
            r == sums_to_zero(self.bytes@),
    {
        let s = sum_bytes(self.bytes.as_slice(), 0, RSDP_V1_SIZE);
        assert(self.bytes@.subrange(0, 20) == self.bytes@);
        s % 0x100 == 0
    }

    /// The address of the root system description table.
    pub fn rsdt_ptr(&self) -> (r: u32)
        requires
            self.wf(),
        ensures
            r == le32(self.bytes@, 16),
    {
        read_u32(self.bytes.as_slice(), 16)
    }

    /// The revision field.
    pub fn revision(&self) -> (r: u8)
        requires
            self.wf(),
        ensures
            r == self.bytes@[15],
    {
        self.bytes[15]
    }
}

impl RSDPDescriptorV2 {
    /// The descriptor holds its thirty-six bytes.
    pub open spec fn wf(&self) -> bool {
        self.bytes@.len() == RSDP_V2_SIZE
    }

    /// Whether all the bytes, and the first twenty, add up to multiples of 0x100.
    pub fn checksum_is_valid(&self) -> (r: bool)
        requires
            self.wf(),
        ensures
            r == (sums_to_zero(self.bytes@) && sums_to_zero(self.bytes@.subrange(0, 20))),
    {
        let s = sum_bytes(self.bytes.as_slice(), 0, RSDP_V2_SIZE);
        let first = sum_bytes(self.bytes.as_slice(), 0, RSDP_V1_SIZE);
        assert(self.bytes@.subrange(0, 36) == self.bytes@);
        s % 0x100 == 0 && first % 0x100 == 0
    }

    /// The address of the root system description table.
    pub fn rsdt_ptr(&self) -> (r: u32)
        requires
            self.wf(),
        ensures
            r == le32(self.bytes@, 16),
    {
        read_u32(self.bytes.as_slice(), 16)
    }

    /// The address of the extended system description table.
    pub fn xsdt_ptr(&self) -> (r: u64)
        requires
            self.wf(),
        ensures
            r == le64(self.bytes@, 24),
    {
        read_u64(self.bytes.as_slice(), 24)
    }
}

/// A root system description pointer of either version, or none found.
#[derive(Clone, Debug, PartialEq, Eq)]
pub enum RSDP {
    V1(RSDPDescriptorV1),
    V2(RSDPDescriptorV2),
    /// No pointer was found.
    Absent,
}

impl RSDP {
    /// Whether the descriptor of either version is well formed.
    pub open spec fn wf(&self) -> bool {
        match self {
            RSDP::V1(d) => d.wf(),
            RSDP::V2(d) => d.wf(),
            RSDP::Absent => true,
        }
    }

    /// Whether the checksum of the descriptor is valid; never for none.
    pub fn is_valid(&self) -> (r: bool)
        requires
            self.wf(),
        ensures
            r == match self {
                RSDP::V1(d) => sums_to_zero(d.bytes@),
                RSDP::V2(d) => sums_to_zero(d.bytes@) && sums_to_zero(d.bytes@.subrange(0, 20)),
                RSDP::Absent => false,
            },
    {
        match self {
            RSDP::V1(d) => d.checksum_is_valid(),
            RSDP::V2(d) => d.checksum_is_valid(),
            RSDP::Absent => false,
        }
    }

    /// The address of the root system description table.
    pub fn rsdt_ptr(&self) -> (r: u32)
        requires
            self.wf(),
            !(self is Absent),
        ensures
            r == match self {
                RSDP::V1(d) => le32(d.bytes@, 16),
                RSDP::V2(d) => le32(d.bytes@, 16),
                RSDP::Absent => 0,
            },
    {
        match self {
            RSDP::V1(d) => d.rsdt_ptr(),
            RSDP::V2(d) => d.rsdt_ptr(),
            RSDP::Absent => 0,
        }
    }
}

/// The bytes of `b` from `start` up to `end`.
pub fn copy_slice(b: &[u8], start: usize, end: usize) -> (r: std::vec::Vec<u8>)
    requires
        start <= end <= b@.len(),
    ensures
        r@ == b@.subrange(start as int, end as int),
{
    let mut out: std::vec::Vec<u8> = std::vec::Vec::new();
    let mut i = start;
    while i < end
        invariant
            start <= i <= end <= b@.len(),
            out@ == b@.subrange(start as int, i as int),
        decreases end - i,
    {
        out.push(b[i]);
        i = i + 1;
        assert(out@ =~= b@.subrange(start as int, i as int));
    }
    out
}

/// Whether `r` is the pointer whose bytes start at `i` of `b`: of the
/// first version for revision 0, of the second for revision 2, none for
/// another revision.
pub open spec fn rsdp_parsed(r: Option<RSDP>, b: Seq<u8>, i: int) -> bool {
    if b[i + 15] == 0 {
        r matches Some(RSDP::V1(d)) && d.bytes@ == b.subrange(i, i + RSDP_V1_SIZE)
    } else if b[i + 15] == 2 {
        r matches Some(RSDP::V2(d)) && d.bytes@ == b.subrange(i, i + RSDP_V2_SIZE)
    } else {
        r is None
    }
}

/// The pointer whose bytes start at `i` of `b`, by its revision.
pub fn parse_rsdp(b: &[u8], i: usize) -> (r: Option<RSDP>)
    requires
        i + RSDP_V2_SIZE <= b@.len(),
    ensures
        rsdp_parsed(r, b@, i as int),
        r matches Some(p) ==> p.wf(),
{
    assert(b@.len() == b.len());
    let revision = b[i + 15];
    if revision == 0 {
        Some(RSDP::V1(RSDPDescriptorV1 { bytes: copy_slice(b, i, i + RSDP_V1_SIZE) }))
    } else if revision == 2 {
        Some(RSDP::V2(RSDPDescriptorV2 { bytes: copy_slice(b, i, i + RSDP_V2_SIZE) }))
    } else {
        None
    }
}

/// Whether "RSD PTR " starts at `i` of `b`.
pub open spec fn rsdp_signature_at(b: Seq<u8>, i: int) -> bool {
    b.subrange(i, i + 8) == rsdp_signature()
}

/// The first position below `n`, from `i` on, where "RSD PTR " starts; `n`
/// when there is none.
pub open spec fn first_signature_from(b: Seq<u8>, n: int, i: int) -> int
    decreases n - i,
{
    if i >= n {
        n
    } else if rsdp_signature_at(b, i) {
        i
    } else {
        first_signature_from(b, n, i + 1)
    }
}

proof fn lemma_first_signature_bound(b: Seq<u8>, n: int, i: int)
    requires
        i <= n,
    ensures
        i <= first_signature_from(b, n, i) <= n,
        first_signature_from(b, n, i) < n ==> rsdp_signature_at(b, first_signature_from(b, n, i)),
    decreases n - i,
{
    if i < n && !rsdp_signature_at(b, i) {
        lemma_first_signature_bound(b, n, i + 1);
    }
}

/// Whether "RSD PTR " starts at `i` of `b`.
fn has_rsdp_signature(b: &[u8], i: usize) -> (r: bool)
    requires
        i + 8 <= b@.len(),
    ensures
        r == rsdp_signature_at(b@, i as int),
{
    let r = b[i] == 0x52 && b[i + 1] == 0x53 && b[i + 2] == 0x44 && b[i + 3] == 0x20 && b[i + 4] == 0x50 && b[i
        + 5] == 0x54 && b[i + 6] == 0x52 && b[i + 7] == 0x20;
    assert(r == (b@.subrange(i as int, i + 8) =~= rsdp_signature()));
    r
}

/// The pointer parsed at the first of the first `n` positions of `b` where
/// "RSD PTR " starts; `None` when no position holds the signature.
fn search_rsdp(b: &[u8], n: usize) -> (r: Option<Option<RSDP>>)
    requires
        n + RSDP_V2_SIZE <= b@.len(),
    ensures
        r is None <==> first_signature_from(b@, n as int, 0) == n,
        r matches Some(p) ==> rsdp_parsed(p, b@, first_signature_from(b@, n as int, 0)) && (p matches Some(q)
            ==> q.wf()),
{
    let mut i: usize = 0;
    while i < n
        invariant
            n + RSDP_V2_SIZE <= b@.len(),
            i <= n,
            first_signature_from(b@, n as int, i as int) == first_signature_from(b@, n as int, 0),
        decreases n - i,
    {
        if has_rsdp_signature(b, i) {
            return Some(parse_rsdp(b, i));
        }
        i = i + 1;
    }
    None
}

/// The number of positions of the extended BIOS data area that are searched.
pub const EBDA_SEARCH_LEN: usize = 1024;
/// The number of positions of the BIOS area from 0xe0000 that are searched.
pub const BIOS_AREA_SEARCH_LEN: usize = 0x20000;

/// The root system description pointer in the BIOS memory: the bytes of the
/// extended BIOS data area and those of the BIOS area from 0xe0000 are
/// searched for "RSD PTR ", and a find in the BIOS area counts over one in
/// the data area. `Some(RSDP::Absent)` when neither holds the signature;
/// `None` when the pointer found has an unknown revision.
pub fn detect_rsdp(ebda: &[u8], bios_area: &[u8]) -> (r: Option<RSDP>)
    requires
        EBDA_SEARCH_LEN + RSDP_V2_SIZE <= ebda@.len(),
        BIOS_AREA_SEARCH_LEN + RSDP_V2_SIZE <= bios_area@.len(),
    ensures
        r matches Some(p) ==> p.wf(),
        ({
            let e = first_signature_from(ebda@, EBDA_SEARCH_LEN as int, 0);
            let a = first_signature_from(bios_area@, BIOS_AREA_SEARCH_LEN as int, 0);
            if a < BIOS_AREA_SEARCH_LEN {
                rsdp_parsed(r, bios_area@, a)
            } else if e < EBDA_SEARCH_LEN {
                rsdp_parsed(r, ebda@, e)
            } else {
                r == Some(RSDP::Absent)
            }
        }),
{
    proof {
        lemma_first_signature_bound(ebda@, EBDA_SEARCH_LEN as int, 0);
        lemma_first_signature_bound(bios_area@, BIOS_AREA_SEARCH_LEN as int, 0);
    }
    let mut rsdp = Some(RSDP::Absent);
    match search_rsdp(ebda, EBDA_SEARCH_LEN) {
        Some(p) => {
            rsdp = p;
        },
        None => {},
    }
    match search_rsdp(bios_area, BIOS_AREA_SEARCH_LEN) {
        Some(p) => {
            rsdp = p;
        },
        None => {},
    }
    rsdp
}

} // verus!

verus! {

/// The length that a table's header gives.
pub open spec fn sdt_length(b: Seq<u8>) -> int {
    le32(b, 4)
}

/// Whether the bytes hold a whole table: its header and as many bytes as
/// the header gives, at least the header's own.
pub open spec fn sdt_complete(b: Seq<u8>) -> bool {
    &&& b.len() >= SDT_HEADER_SIZE
    &&& SDT_HEADER_SIZE <= sdt_length(b) <= b.len()
    &&& sdt_length(b) <= 0x1_0000_0000_0000
}

/// Whether the bytes of a table add up to a multiple of 0x100.
pub open spec fn sdt_sums_to_zero(b: Seq<u8>) -> bool {
    sums_to_zero(b.subrange(0, sdt_length(b)))
}

/// The tables whose bytes add up to a multiple of 0x100 when valid.
pub trait SDTTable {
    /// The bytes of the table.
    spec fn table_bytes(&self) -> Seq<u8>;

    /// Whether the bytes of the table, as many as its header gives, add up
    /// to a multiple of 0x100.
    fn is_valid(&self) -> (r: bool)
        requires
            sdt_complete(self.table_bytes()),
        ensures
            r == sdt_sums_to_zero(self.table_bytes()),
    ;
}

/// Whether the bytes of `b` that its header counts add up to a multiple of 0x100.
fn table_is_valid(b: &[u8]) -> (r: bool)
    requires
        sdt_complete(b@),
    ensures
        r == sdt_sums_to_zero(b@),
{
    let len = read_u32(b, 4) as usize;
    sum_bytes(b, 0, len) % 0x100 == 0
}

/// Whether two signatures have the same bytes.
fn same_signature(a: &[u8; 4], b: &[u8; 4]) -> (r: bool)
    ensures
        r == (a@ == b@),
{
    let r = a[0] == b[0] && a[1] == b[1] && a[2] == b[2] && a[3] == b[3];
    assert(r == (a@ =~= b@));
    r
}

/// The root system description table, as its bytes.
pub struct RSDT {
    pub bytes: std::vec::Vec<u8>,
}

/// The fixed ACPI description table, as its bytes.
pub struct FADT {
    pub bytes: std::vec::Vec<u8>,
}

/// The differentiated system description table, as its bytes.
pub struct DSDT {
    pub bytes: std::vec::Vec<u8>,
}

/// The multiple APIC description table, as its bytes.
pub struct MADT {
    pub bytes: std::vec::Vec<u8>,
}

impl SDTTable for RSDT {
    open spec fn table_bytes(&self) -> Seq<u8> {
        self.bytes@
    }

    fn is_valid(&self) -> (r: bool) {
        table_is_valid(self.bytes.as_slice())
    }
}

impl SDTTable for FADT {
    open spec fn table_bytes(&self) -> Seq<u8> {
        self.bytes@
    }

    fn is_valid(&self) -> (r: bool) {
        table_is_valid(self.bytes.as_slice())
    }
}

impl SDTTable for DSDT {
    open spec fn table_bytes(&self) -> Seq<u8> {
        self.bytes@
    }

    fn is_valid(&self) -> (r: bool) {
        table_is_valid(self.bytes.as_slice())
    }
}

impl SDTTable for MADT {
    open spec fn table_bytes(&self) -> Seq<u8> {
        self.bytes@
    }

    fn is_valid(&self) -> (r: bool) {
        table_is_valid(self.bytes.as_slice())
    }
}

/// "FACP", the signature of the fixed ACPI description table.
pub const FADT_SIGNATURE: [u8; 4] = [0x46, 0x41, 0x43, 0x50];
/// "APIC", the signature of the multiple APIC description table.
pub const MADT_SIGNATURE: [u8; 4] = [0x41, 0x50, 0x49, 0x43];

/// The number of four-byte windows in the entries of a root table: one at
/// every byte of the entries that has three more after it.
pub open spec fn rsdt_window_count(b: Seq<u8>) -> int {
    let n = sdt_length(b) - SDT_HEADER_SIZE;
    if n >= 4 { n - 3 } else { 0 }
}

/// The address that the window at `j` of the entries reads.
pub open spec fn rsdt_window_addr(b: Seq<u8>, j: int) -> u32 {
    le32(b, SDT_HEADER_SIZE + j) as u32
}

/// The first window from `j` on whose table has signature `sig`, or the
/// number of windows.
pub open spec fn first_table_from(b: Seq<u8>, sigs: Seq<[u8; 4]>, sig: [u8; 4], j: int) -> int
    decreases rsdt_window_count(b) - j,
{
    if j >= rsdt_window_count(b) {
        rsdt_window_count(b)
    } else if sigs[j]@ == sig@ {
        j
    } else {
        first_table_from(b, sigs, sig, j + 1)
    }
}

proof fn lemma_first_table_bound(b: Seq<u8>, sigs: Seq<[u8; 4]>, sig: [u8; 4], j: int)
    requires
        0 <= j <= rsdt_window_count(b),
    ensures
        j <= first_table_from(b, sigs, sig, j) <= rsdt_window_count(b),
    decreases rsdt_window_count(b) - j,
{
    if j < rsdt_window_count(b) && sigs[j]@ != sig@ {
        lemma_first_table_bound(b, sigs, sig, j + 1);
    }
}

impl RSDT {
    /// The addresses that the entries give, read through a four-byte window
    /// that moves one byte at a time.
    pub fn entry_addrs(&self) -> (r: std::vec::Vec<u32>)
        requires
            sdt_complete(self.bytes@),
        ensures
            r@.len() == rsdt_window_count(self.bytes@),
            forall|j: int| 0 <= j < r@.len() ==> #[trigger] r@[j] == rsdt_window_addr(self.bytes@, j),
    {
        let len = read_u32(self.bytes.as_slice(), 4) as usize;
        let n = len - SDT_HEADER_SIZE;
        let count = if n >= 4 { n - 3 } else { 0 };
        let mut out: std::vec::Vec<u32> = std::vec::Vec::new();
        let mut j: usize = 0;
        while j < count
            invariant
                len == sdt_length(self.bytes@),
                sdt_complete(self.bytes@),
                count == rsdt_window_count(self.bytes@),
                j <= count,
                out@.len() == j,
                forall|k: int| 0 <= k < j ==> #[trigger] out@[k] == rsdt_window_addr(self.bytes@, k),
            decreases count - j,
        {
            out.push(read_u32(self.bytes.as_slice(), SDT_HEADER_SIZE + j));
            j = j + 1;
        }
        out
    }

    /// The address of the first table, in the order of the entries, whose
    /// signature is `table_sig`; `signatures` holds the signature of the
    /// table at each address that `entry_addrs` gives.
    pub fn find_table(&self, signatures: &[[u8; 4]], table_sig: [u8; 4]) -> (r: Option<u32>)
        requires
            sdt_complete(self.bytes@),
            signatures@.len() == rsdt_window_count(self.bytes@),
        ensures
            ({
                let j = first_table_from(self.bytes@, signatures@, table_sig, 0);
                if j < rsdt_window_count(self.bytes@) {
                    r == Some(rsdt_window_addr(self.bytes@, j))
                } else {
                    r is None
                }
            }),
    {
        let addrs = self.entry_addrs();
        proof {
            lemma_first_table_bound(self.bytes@, signatures@, table_sig, 0);
        }
        let mut j: usize = 0;
        while j < addrs.len()
            invariant
                sdt_complete(self.bytes@),
                addrs@.len() == rsdt_window_count(self.bytes@),
                signatures@.len() == addrs@.len(),
                forall|k: int| 0 <= k < addrs@.len() ==> #[trigger] addrs@[k] == rsdt_window_addr(self.bytes@, k),
                j <= addrs@.len(),
                first_table_from(self.bytes@, signatures@, table_sig, j as int) == first_table_from(
                    self.bytes@,
                    signatures@,
                    table_sig,
                    0,
                ),
            decreases addrs@.len() - j,
        {
            if same_signature(&signatures[j], &table_sig) {
                return Some(addrs[j]);
            }
            j = j + 1;
        }
        None
    }

    /// The address of the fixed ACPI description table.
    pub fn find_fadt(&self, signatures: &[[u8; 4]]) -> (r: Option<u32>)
        requires
            sdt_complete(self.bytes@),
            signatures@.len() == rsdt_window_count(self.bytes@),
        ensures
            ({
                let j = first_table_from(self.bytes@, signatures@, FADT_SIGNATURE, 0);
                if j < rsdt_window_count(self.bytes@) {
                    r == Some(rsdt_window_addr(self.bytes@, j))
                } else {
                    r is None
                }
            }),
    {
        self.find_table(signatures, FADT_SIGNATURE)
    }

    /// The address of the multiple APIC description table.
    pub fn find_madt(&self, signatures: &[[u8; 4]]) -> (r: Option<u32>)
        requires
            sdt_complete(self.bytes@),
            signatures@.len() == rsdt_window_count(self.bytes@),
        ensures
            ({
                let j = first_table_from(self.bytes@, signatures@, MADT_SIGNATURE, 0);
                if j < rsdt_window_count(self.bytes@) {
                    r == Some(rsdt_window_addr(self.bytes@, j))
                } else {
                    r is None
                }
            }),
    {
        self.find_table(signatures, MADT_SIGNATURE)
    }
}

impl FADT {
    /// The address of the differentiated system description table.
    pub fn dsdt_ptr(&self) -> (r: u32)
        requires
            self.bytes@.len() >= 72,
        ensures
            r == le32(self.bytes@, 40),
    {
        read_u32(self.bytes.as_slice(), 40)
    }

    /// The port of the first power management control block.
    pub fn pm1a_ctrl_block(&self) -> (r: u32)
        requires
            self.bytes@.len() >= 72,
        ensures
            r == le32(self.bytes@, 64),
    {
        read_u32(self.bytes.as_slice(), 64)
    }

    /// The port of the second power management control block.
    pub fn pm1b_ctrl_block(&self) -> (r: u32)
        requires
            self.bytes@.len() >= 72,
        ensures
            r == le32(self.bytes@, 68),
    {
        read_u32(self.bytes.as_slice(), 68)
    }
}

} // verus!

verus! {

/// "_S5_" in ASCII.
pub open spec fn s5_name() -> Seq<u8> {
    seq![0x5fu8, 0x53, 0x35, 0x5f]
}

/// Whether the name "_S5_" at `p` begins an \_S5 object: a NameOp right
/// before it, or a NameOp and a backslash before it with a PackageOp after.
pub open spec fn s5_object_valid(b: Seq<u8>, p: int) -> bool {
    b[p - 1] == 0x08 || (b[p - 2] == 0x08 && b[p - 1] == 0x5c && b[p + 4] == 12)
}

/// Whether an \_S5 object starts at `p`.
pub open spec fn s5_at(b: Seq<u8>, p: int) -> bool {
    b.subrange(p, p + 4) == s5_name() && s5_object_valid(b, p)
}

/// The first position from `p` on, with four bytes before the end of the
/// table, where an \_S5 object starts; the end of the table when none does.
pub open spec fn first_s5_from(b: Seq<u8>, p: int) -> int
    decreases sdt_length(b) - p,
{
    if p + 4 > sdt_length(b) {
        sdt_length(b)
    } else if s5_at(b, p) {
        p
    } else {
        first_s5_from(b, p + 1)
    }
}

proof fn lemma_first_s5_bound(b: Seq<u8>, p: int)
    ensures
        first_s5_from(b, p) == sdt_length(b) || (p <= first_s5_from(b, p) && first_s5_from(b, p) + 4 <= sdt_length(
            b,
        ) && s5_at(b, first_s5_from(b, p))),
    decreases sdt_length(b) - p,
{
    if p + 4 <= sdt_length(b) && !s5_at(b, p) {
        lemma_first_s5_bound(b, p + 1);
    }
}

/// The sleep type values of the \_S5 object at `p`: the byte seven after
/// the name, or the one after it when that is a byte prefix, and the next
/// byte, or the one after that when it is a byte prefix.
pub open spec fn slp_values(b: Seq<u8>, p: int) -> (u8, u8) {
    let a = if b[p + 7] == 0x0a { p + 8 } else { p + 7 };
    let c = if b[a + 1] == 0x0a { a + 2 } else { a + 1 };
    (b[a], b[c])
}

/// Whether a package element with a byte value is written at `i` in AML:
/// as the value itself (an opcode such as ZeroOp or OneOp), or as the byte
/// prefix 0x0a followed by the value.
pub open spec fn byte_element_at(b: Seq<u8>, i: int, prefixed: bool, value: u8) -> bool {
    if prefixed {
        b[i] == 0x0a && b[i + 1] == value
    } else {
        b[i] == value && value != 0x0a
    }
}

/// The number of bytes that such an element takes.
pub open spec fn byte_element_size(prefixed: bool) -> int {
    if prefixed {
        2
    } else {
        1
    }
}

/// The sleep type values are the first two elements of the \_S5 package.
/// After the four bytes of the name come the package opcode, the package
/// length and the number of elements, whatever they hold, and then the
/// elements, each written with or without the byte prefix: SLP_TYPa is the
/// value of the first element and SLP_TYPb that of the second.
pub proof fn law_slp_values_are_first_package_elements(
    b: Seq<u8>,
    p: int,
    a_prefixed: bool,
    slp_typa: u8,
    b_prefixed: bool,
    slp_typb: u8,
)
    requires
        0 <= p,
        p + 11 <= b.len(),
        byte_element_at(b, p + 7, a_prefixed, slp_typa),
        byte_element_at(b, p + 7 + byte_element_size(a_prefixed), b_prefixed, slp_typb),
    ensures
        slp_values(b, p) == (slp_typa, slp_typb),
{
}

impl DSDT {
    /// The sleep type values for the soft-off state, from the first \_S5
    /// object in the table's definition blocks; `None` when there is none.
    pub fn get_slp_typ(&self) -> (r: Option<(u8, u8)>)
        requires
            sdt_complete(self.bytes@),
            sdt_length(self.bytes@) + 7 <= self.bytes@.len(),
        ensures
            ({
                let p = first_s5_from(self.bytes@, SDT_HEADER_SIZE as int);
                if p < sdt_length(self.bytes@) {
                    r == Some(slp_values(self.bytes@, p))
                } else {
                    r is None
                }
            }),
    {
        let b = self.bytes.as_slice();
        let len = read_u32(b, 4) as usize;
        let mut p: usize = SDT_HEADER_SIZE;
        proof {
            lemma_first_s5_bound(b@, p as int);
        }
        while len - p >= 4
            invariant
                b@ == self.bytes@,
                len == sdt_length(b@),
                SDT_HEADER_SIZE <= p <= len,
                len + 7 <= b@.len(),
                first_s5_from(b@, p as int) == first_s5_from(b@, SDT_HEADER_SIZE as int),
            decreases len - p,
        {
            let is_name = b[p] == 0x5f && b[p + 1] == 0x53 && b[p + 2] == 0x35 && b[p + 3] == 0x5f;
            assert(is_name == (b@.subrange(p as int, p + 4) =~= s5_name()));
            if is_name && (b[p - 1] == 0x08 || (b[p - 2] == 0x08 && b[p - 1] == 0x5c && b[p + 4] == 12)) {
                let mut a = p + 7;
                if b[a] == 0x0a {
                    a = a + 1;
                }
                let mut c = a + 1;
                if b[c] == 0x0a {
                    c = c + 1;
                }
                return Some((b[a], b[c]));
            }
            p = p + 1;
        }
        None
    }
}

/// The flags of the multiple APIC description table.
#[derive(Copy, Clone, Debug, PartialEq, Eq, Structural)]
pub struct MultipleAPICFlags(pub u32);

impl MultipleAPICFlags {
    /// Whether the machine also has the two 8259 interrupt controllers of
    /// the PC-AT: bit 0.
    pub fn pc_at_compatible(&self) -> (r: bool)
        ensures
            r == (self.0 % 2 == 1),
    {
        let v = self.0;
        assert(v & 1 == v % 2) by (bit_vector);
        v & 1 == 1
    }
}

/// An entry of the multiple APIC description table: its type and length.
#[derive(Copy, Clone, Debug, PartialEq, Eq, Structural)]
pub struct InterruptController {
    pub type_: u8,
    pub length: u8,
}

impl InterruptController {
    /// The type of the entry.
    pub fn type_(&self) -> (r: u8)
        ensures
            r == self.type_,
    {
        self.type_
    }
}

/// The offset of the first entry of the multiple APIC description table.
pub const MADT_ENTRIES_OFFSET: usize = 44;

/// Walks the entries of a multiple APIC description table.
pub struct InterruptControllersIter {
    pub bytes: std::vec::Vec<u8>,
    pub start: usize,
    pub entries_size: usize,
    pub curr: usize,
}

impl InterruptControllersIter {
    /// The next entry, one entry length after the last, until the walk has
    /// covered the entries' size.
    pub fn next(&mut self) -> (r: Option<InterruptController>)
        requires
            old(self).start <= old(self).curr,
            old(self).curr - old(self).start < old(self).entries_size ==> {
                &&& old(self).curr + 2 <= old(self).bytes@.len()
                &&& old(self).bytes@[old(self).curr + 1] != 0
                &&& old(self).curr + old(self).bytes@[old(self).curr + 1] <= usize::MAX
            },
        ensures
            final(self).bytes@ == old(self).bytes@,
            final(self).start == old(self).start,
            final(self).entries_size == old(self).entries_size,
            old(self).curr - old(self).start >= old(self).entries_size ==> r is None && final(self).curr == old(
                self,
            ).curr,
            old(self).curr - old(self).start < old(self).entries_size ==> {
                let b = old(self).bytes@;
                let c = old(self).curr as int;
                &&& r == Some(InterruptController { type_: b[c], length: b[c + 1] })
                &&& final(self).curr == c + b[c + 1]
            },
    {
        if self.curr - self.start >= self.entries_size {
            None
        } else {
            assert(self.bytes@.len() == self.bytes.len());
            let type_ = self.bytes[self.curr];
            let length = self.bytes[self.curr + 1];
            self.curr = self.curr + length as usize;
            Some(InterruptController { type_, length })
        }
    }
}

impl MADT {
    /// The flags.
    pub fn flags(&self) -> (r: MultipleAPICFlags)
        requires
            self.bytes@.len() >= MADT_ENTRIES_OFFSET,
        ensures
            r.0 == le32(self.bytes@, 40),
    {
        MultipleAPICFlags(read_u32(self.bytes.as_slice(), 40))
    }

    /// The address at which each processor reaches its local interrupt controller.
    pub fn local_interrupt_controller_addr(&self) -> (r: u32)
        requires
            self.bytes@.len() >= MADT_ENTRIES_OFFSET,
        ensures
            r == le32(self.bytes@, 36),
    {
        read_u32(self.bytes.as_slice(), 36)
    }

    /// A walk over the entries, starting after the flags and covering the
    /// table's length less its header.
    pub fn interrupt_controllers(&self) -> (r: InterruptControllersIter)
        requires
            sdt_complete(self.bytes@),
        ensures
            r.bytes@ == self.bytes@,
            r.start == MADT_ENTRIES_OFFSET,
            r.curr == MADT_ENTRIES_OFFSET,
            r.entries_size == sdt_length(self.bytes@) - SDT_HEADER_SIZE,
    {
        let len = read_u32(self.bytes.as_slice(), 4) as usize;
        InterruptControllersIter {
            bytes: self.bytes.clone(),
            start: MADT_ENTRIES_OFFSET,
            entries_size: len - SDT_HEADER_SIZE,
            curr: MADT_ENTRIES_OFFSET,
        }
    }
}

} // verus!
