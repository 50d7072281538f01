//! ACPI tables: the common header, the table record that every table type
//! wraps, and the traits through which tables are found and read.
use vstd::prelude::*;
use crate::codes;
use crate::status::{Status, UacpiError, is_status_code, error_code};
use crate::tables::hpet::HPET;

pub mod template;
pub mod hpet;
pub mod ecdt;

verus! {

/// Size in bytes of the header that starts every ACPI table.
pub const ACPI_HEADER_LEN: usize = 36;

/// The little-endian number in the two bytes of `s` at `off`.
pub open spec fn u16_le(s: Seq<u8>, off: int) -> int {
    s[off] + s[off + 1] * 0x100
}

/// The little-endian number in the four bytes of `s` at `off`.
pub open spec fn u32_le(s: Seq<u8>, off: int) -> int {
    s[off] + s[off + 1] * 0x100 + s[off + 2] * 0x1_0000 + s[off + 3] * 0x100_0000
}

/// The little-endian number in the eight bytes of `s` at `off`.
pub open spec fn u64_le(s: Seq<u8>, off: int) -> int {
    u32_le(s, off) + u32_le(s, off + 4) * 0x1_0000_0000
}

/// The `n` bytes of `s` at `off`, as C characters.
pub open spec fn chars_at(s: Seq<u8>, off: int, n: nat) -> Seq<i8> {
    Seq::new(n, |i: int| s[off + i] as i8)
}

/// Reads the little-endian `u16` at `off`.
pub fn read_u16_le(bytes: &[u8], off: usize) -> (r: u16)
    requires
        off + 2 <= bytes@.len(),
    ensures
        r == u16_le(bytes@, off as int),
{
    bytes[off] as u16 + bytes[off + 1] as u16 * 0x100
}

/// Reads the little-endian `u32` at `off`.
pub fn read_u32_le(bytes: &[u8], off: usize) -> (r: u32)
    requires
        off + 4 <= bytes@.len(),
    ensures
        r == u32_le(bytes@, off as int),
{
    bytes[off] as u32 + bytes[off + 1] as u32 * 0x100 + bytes[off + 2] as u32 * 0x1_0000
        + bytes[off + 3] as u32 * 0x100_0000
}

/// Reads the little-endian `u64` at `off`.
pub fn read_u64_le(bytes: &[u8], off: usize) -> (r: u64)
    requires
        off + 8 <= bytes@.len(),
    ensures
        r == u64_le(bytes@, off as int),
{
    let len = bytes.len();
    assert(off + 4 <= len);
    let low = read_u32_le(bytes, off) as u64;
    let high = read_u32_le(bytes, off + 4) as u64;
    low + high * 0x1_0000_0000
}

/// The header that starts every ACPI table.
#[derive(Copy, Clone, Debug, PartialEq, Eq, PartialOrd, Ord)]
pub struct AcpiHeader {
    pub signature: [i8; 4],
    pub length: u32,
    pub revision: u8,
    pub checksum: u8,
    pub oem_id: [i8; 6],
    pub oem_table_id: [i8; 8],
    pub oem_revision: u32,
    pub asl_compiler_id: [i8; 4],
    pub asl_compiler_revision: u32,
}

/// `h` is the header stored in the first bytes of `s`.
pub open spec fn header_stored_in(h: AcpiHeader, s: Seq<u8>) -> bool {
    &&& h.signature@ == chars_at(s, 0, 4)
    &&& h.length == u32_le(s, 4)
    &&& h.revision == s[8]
    &&& h.checksum == s[9]
    &&& h.oem_id@ == chars_at(s, 10, 6)
    &&& h.oem_table_id@ == chars_at(s, 16, 8)
    &&& h.oem_revision == u32_le(s, 24)
    &&& h.asl_compiler_id@ == chars_at(s, 28, 4)
    &&& h.asl_compiler_revision == u32_le(s, 32)
}

impl AcpiHeader {
    /// Reads the header stored in the first bytes of `bytes`.
    pub fn read(bytes: &[u8]) -> (r: AcpiHeader)
        requires
            ACPI_HEADER_LEN <= bytes@.len(),
        ensures
            header_stored_in(r, bytes@),
    {
        let b = bytes;
        let r = AcpiHeader {
            signature: [b[0] as i8, b[1] as i8, b[2] as i8, b[3] as i8],
            length: read_u32_le(b, 4),
            revision: b[8],
            checksum: b[9],
            oem_id: [
                b[10] as i8,
                b[11] as i8,
                b[12] as i8,
                b[13] as i8,
                b[14] as i8,
                b[15] as i8,
            ],
            oem_table_id: [
                b[16] as i8,
                b[17] as i8,
                b[18] as i8,
                b[19] as i8,
                b[20] as i8,
                b[21] as i8,
                b[22] as i8,
                b[23] as i8,
            ],
            oem_revision: read_u32_le(b, 24),
            asl_compiler_id: [b[28] as i8, b[29] as i8, b[30] as i8, b[31] as i8],
            asl_compiler_revision: read_u32_le(b, 32),
        };
        assert(r.signature@ =~= chars_at(b@, 0, 4));
        assert(r.oem_id@ =~= chars_at(b@, 10, 6));
        assert(r.oem_table_id@ =~= chars_at(b@, 16, 8));
        assert(r.asl_compiler_id@ =~= chars_at(b@, 28, 4));
        r
    }
}

/// Bytes that hold a whole ACPI table: a full header whose length field
/// gives the number of bytes.
pub open spec fn is_table_image(s: Seq<u8>) -> bool {
    ACPI_HEADER_LEN <= s.len() && u32_le(s, 4) == s.len()
}

/// One ACPI table as uACPI hands it out: the bytes of the table and its index
/// in uACPI's table list.
#[derive(Debug, PartialEq, Eq, PartialOrd, Ord)]
pub struct AcpiTableStruct {
    bytes: Vec<u8>,
    index: u64,
}

impl View for AcpiTableStruct {
    type V = (Seq<u8>, u64);

    closed spec fn view(&self) -> (Seq<u8>, u64) {
        (self.bytes@, self.index)
    }
}

impl AcpiTableStruct {
    #[verifier::type_invariant]
    closed spec fn wf(self) -> bool {
        is_table_image(self.bytes@)
    }

    /// The table whose bytes are `bytes`, at `index` in uACPI's table list;
    /// `None` unless the bytes hold a whole table.
    pub fn new(bytes: Vec<u8>, index: u64) -> (r: Option<AcpiTableStruct>)
        ensures
            r is Some <==> is_table_image(bytes@),
            r matches Some(t) ==> t@ == (bytes@, index),
    {
        let len = bytes.len();
        if len < ACPI_HEADER_LEN {
            return None;
        }
        let length = read_u32_le(bytes.as_slice(), 4);
        if length as usize != len {
            return None;
        }
        Some(AcpiTableStruct { bytes, index })
    }

    /// The bytes of the table.
    pub fn bytes(&self) -> (r: &[u8])
        ensures
            r@ == self@.0,
            is_table_image(r@),
    {
        proof {
            use_type_invariant(self);
        }
        self.bytes.as_slice()
    }

    /// The index of the table in uACPI's table list.
    pub fn index(&self) -> (r: u64)
        ensures
            r == self@.1,
    {
        self.index
    }

    /// The header of the table.
    pub fn header(&self) -> (r: AcpiHeader)
        ensures
            header_stored_in(r, self@.0),
    {
        proof {
            use_type_invariant(self);
        }
        AcpiHeader::read(self.bytes.as_slice())
    }
}

impl Clone for AcpiTableStruct {
    /// A second record of the same table.
    fn clone(&self) -> (r: AcpiTableStruct)
        ensures
            r@ == self@,
    {
        proof {
            use_type_invariant(self);
        }
        let bytes = self.bytes.clone();
        assert(bytes@ =~= self.bytes@);
        AcpiTableStruct { bytes, index: self.index }
    }
}

/// What a table type needs of the table record it wraps.
pub trait AcpiTableInternal: Sized {
    /// The table record that this value wraps.
    spec fn table(&self) -> AcpiTableStruct;

    /// The number of bytes a table of this type must have.
    spec fn spec_min_length() -> nat;

    /// The number of bytes a table of this type must have.
    fn min_length() -> (r: usize)
        ensures
            r == Self::spec_min_length(),
    ;

    /// Wraps a table record whose bytes hold every field of this table type.
    fn internal_acpi_table_to_self(table: AcpiTableStruct) -> (r: Self)
        requires
            Self::spec_min_length() <= table@.0.len(),
        ensures
            r.table() == table,
    ;

    /// The table record that this value wraps.
    fn internal_get_acpi_table(&self) -> (r: &AcpiTableStruct)
        ensures
            *r == self.table(),
    ;

    /// The offset of the first byte after the header.
    fn internal_start_of_data(&self) -> (r: usize)
        ensures
            r == ACPI_HEADER_LEN,
    ;
}

/// The fields of the header that every ACPI table starts with.
pub trait AcpiTable: AcpiTableInternal {
    /// The signature that names tables of this type.
    const TABLE_SIGNATURE: [i8; 4];

    /// The signature of the table, bytes 0-3.
    fn get_signature(&self) -> (r: [i8; 4])
        ensures
            r@ == chars_at(self.table()@.0, 0, 4),
    {
        self.internal_get_acpi_table().header().signature
    }

    /// The length of the table in bytes, which is the number of bytes it has.
    fn get_length(&self) -> (r: u32)
        ensures
            r == u32_le(self.table()@.0, 4),
            r == self.table()@.0.len(),
    {
        let t = self.internal_get_acpi_table();
        let _ = t.bytes();
        t.header().length
    }

    /// The revision of the table's layout.
    fn get_revision(&self) -> (r: u8)
        ensures
            r == self.table()@.0[8],
    {
        self.internal_get_acpi_table().header().revision
    }

    /// The id of the OEM that made the table.
    fn get_oem_id(&self) -> (r: [i8; 6])
        ensures
            r@ == chars_at(self.table()@.0, 10, 6),
    {
        self.internal_get_acpi_table().header().oem_id
    }

    /// The OEM's id of the table.
    fn get_oem_table_id(&self) -> (r: [i8; 8])
        ensures
            r@ == chars_at(self.table()@.0, 16, 8),
    {
        self.internal_get_acpi_table().header().oem_table_id
    }

    /// The OEM's revision of the table.
    fn get_oem_revision(&self) -> (r: u32)
        ensures
            r == u32_le(self.table()@.0, 24),
    {
        self.internal_get_acpi_table().header().oem_revision
    }

    /// The vendor id of the tool that made the table.
    fn get_asl_compiler_id(&self) -> (r: [i8; 4])
        ensures
            r@ == chars_at(self.table()@.0, 28, 4),
    {
        self.internal_get_acpi_table().header().asl_compiler_id
    }

    /// The revision of the tool that made the table.
    fn get_asl_compiler_revision(&self) -> (r: u32)
        ensures
            r == u32_le(self.table()@.0, 32),
    {
        self.internal_get_acpi_table().header().asl_compiler_revision
    }
}


/// The number of tables that a run of lookups found: the lookups that
/// succeed before the first one that fails.
pub open spec fn tables_found(statuses: Seq<i32>) -> nat
    decreases statuses.len(),
{
    if statuses.len() == 0 || statuses[0] != codes::UACPI_STATUS_OK {
        0
    } else {
        1 + tables_found(statuses.drop_first())
    }
}

/// A run of lookups that succeed `n` times and then fail or end found `n` tables.
pub proof fn lemma_tables_found(statuses: Seq<i32>, n: int)
    requires
        0 <= n <= statuses.len(),
        forall|j: int| 0 <= j < n ==> statuses[j] == codes::UACPI_STATUS_OK,
        n == statuses.len() || statuses[n] != codes::UACPI_STATUS_OK,
    ensures
        tables_found(statuses) == n,
    decreases n,
{
    if n > 0 {
        let rest = statuses.drop_first();
        assert forall|j: int| 0 <= j < n - 1 implies rest[j] == codes::UACPI_STATUS_OK by {
            assert(statuses[j + 1] == codes::UACPI_STATUS_OK);
        }
        if n < statuses.len() {
            assert(rest[n - 1] == statuses[n]);
        }
        lemma_tables_found(rest, n - 1);
    }
}

/// Counts the tables that a run of lookups finds: the first lookup by
/// signature, then lookups of the next table with the same signature, until
/// one fails.
#[derive(Clone, Copy, Debug, PartialEq, Eq)]
pub struct TableCounter {
    count: usize,
    searching: bool,
}

impl View for TableCounter {
    type V = (nat, bool);

    /// The tables counted so far, and whether no lookup has failed yet.
    closed spec fn view(&self) -> (nat, bool) {
        (self.count as nat, self.searching)
    }
}

impl TableCounter {
    /// A counter before the first lookup.
    pub fn new() -> (r: TableCounter)
        ensures
            r@ == (0nat, true),
    {
        TableCounter { count: 0, searching: true }
    }

    /// Takes the status of the next lookup into account; returns whether to
    /// look up the next table.
    pub fn record(&mut self, status: i32) -> (go_on: bool)
        requires
            old(self)@.1,
            is_status_code(status),
            status == codes::UACPI_STATUS_OK ==> old(self)@.0 < usize::MAX,
        ensures
            go_on == (status == codes::UACPI_STATUS_OK),
            final(self)@.1 == go_on,
            final(self)@.0 == old(self)@.0 + if go_on { 1nat } else { 0nat },
    {
        match Status::evaluate_uacpi_status(status) {
            Ok(()) => {
                self.count = self.count + 1;
                true
            },
            Err(_) => {
                self.searching = false;
                false
            },
        }
    }

    /// The number of tables counted.
    pub fn count(&self) -> (r: usize)
        ensures
            r == self@.0,
    {
        self.count
    }
}

/// Why a run of tables could not be stored.
#[derive(Clone, Copy, Debug, PartialEq, Eq)]
pub enum TableSliceError {
    /// The storage cannot hold all the tables.
    TooSmall,
    /// A lookup failed.
    Uacpi(UacpiError),
}

/// A lookup through uACPI that gave `status` and, on success, `table`, which
/// is long enough for a table of type `T`.
pub open spec fn is_lookup_of<T: AcpiTableInternal>(status: i32, table: Option<AcpiTableStruct>) -> bool {
    &&& is_status_code(status)
    &&& status == codes::UACPI_STATUS_OK ==> (table matches Some(t) && T::spec_min_length()
        <= t@.0.len())
}

/// The result of a lookup: the table found, or the error that uACPI reported.
pub open spec fn lookup_result<T: AcpiTableInternal>(
    status: i32,
    table: Option<AcpiTableStruct>,
    r: Result<T, UacpiError>,
) -> bool {
    &&& r is Ok <==> status == codes::UACPI_STATUS_OK
    &&& match r {
        Ok(t) => t.table() == table->Some_0,
        Err(e) => error_code(e) == status,
    }
}

/// Tables of which a system may have several, such as one HPET table per timer block.
///
/// uACPI does the lookups; these functions take what a lookup returned.
pub trait AcpiTableMulti: AcpiTable {
    /// The first table of this type, from the lookup by signature that gave
    /// `status` and, on success, `table`.
    fn try_new(status: i32, table: Option<AcpiTableStruct>) -> (r: Result<Self, UacpiError>)
        requires
            is_lookup_of::<Self>(status, table),
        ensures
            lookup_result(status, table, r),
    {
        match Status::evaluate_uacpi_status(status) {
            Ok(()) => Ok(Self::internal_acpi_table_to_self(table.unwrap())),
            Err(e) => Err(e),
        }
    }

    /// The table of this type that follows `self`, from the lookup of the
    /// next table with the same signature that gave `status` and, on success,
    /// `next`.
    fn try_new_next(&self, status: i32, next: Option<AcpiTableStruct>) -> (r: Result<
        Self,
        UacpiError,
    >)
        requires
            is_lookup_of::<Self>(status, next),
        ensures
            lookup_result(status, next, r),
    {
        Self::try_new(status, next)
    }

    /// The number of tables of this type, from the statuses of the first
    /// lookup and of the lookups of the next table that followed, up to the
    /// first that failed.
    fn get_number_tables(statuses: &[i32]) -> (r: usize)
        requires
            forall|i: int| 0 <= i < statuses@.len() ==> is_status_code(#[trigger] statuses@[i]),
        ensures
            r == tables_found(statuses@),
    {
        let mut counter = TableCounter::new();
        let mut i: usize = 0;
        while i < statuses.len()
            invariant_except_break
                counter@ == (i as nat, true),
            invariant
                i <= statuses@.len(),
                forall|j: int| 0 <= j < i ==> statuses@[j] == codes::UACPI_STATUS_OK,
                forall|j: int| 0 <= j < statuses@.len() ==> is_status_code(#[trigger] statuses@[j]),
            ensures
                counter@.0 == i,
                i == statuses@.len() || statuses@[i as int] != codes::UACPI_STATUS_OK,
                forall|j: int| 0 <= j < i ==> statuses@[j] == codes::UACPI_STATUS_OK,
            decreases statuses@.len() - i,
        {
            if !counter.record(statuses[i]) {
                break;
            }
            i = i + 1;
        }
        proof {
            lemma_tables_found(statuses@, i as int);
        }
        counter.count()
    }

    /// All `number_tables` tables of this type, in the order of uACPI's table
    /// list, to be stored in room for `capacity` tables. `found` holds the
    /// tables that the lookups found, in order; if there are fewer than
    /// `number_tables`, `stop` is the status of the lookup that failed.
    fn try_new_slice(
        capacity: usize,
        number_tables: usize,
        found: Vec<AcpiTableStruct>,
        stop: i32,
    ) -> (r: Result<Vec<Self>, TableSliceError>)
        requires
            0 < number_tables,
            forall|i: int|
                0 <= i < found@.len() ==> Self::spec_min_length() <= (#[trigger] found@[i])@.0.len(),
            found@.len() < number_tables ==> is_status_code(stop) && stop
                != codes::UACPI_STATUS_OK,
        ensures
            capacity < number_tables ==> r == Err::<Vec<Self>, TableSliceError>(
                TableSliceError::TooSmall,
            ),
            number_tables <= capacity && found@.len() < number_tables ==> (r matches Err(
                TableSliceError::Uacpi(e),
            ) && error_code(e) == stop),
            number_tables <= capacity && number_tables <= found@.len() ==> (r matches Ok(v) && v@.len()
                == number_tables && forall|i: int|
                0 <= i < number_tables ==> (#[trigger] v@[i]).table() == found@[i]),
    {
        if capacity < number_tables {
            return Err(TableSliceError::TooSmall);
        }
        match Self::try_new_all(number_tables, found, stop) {
            Ok(tables) => Ok(tables),
            Err(e) => Err(TableSliceError::Uacpi(e)),
        }
    }

    /// All `number_tables` tables of this type, in the order of uACPI's table
    /// list, in storage made for them. `found` and `stop` are as for
    /// [`AcpiTableMulti::try_new_slice`].
    fn try_new_all(number_tables: usize, found: Vec<AcpiTableStruct>, stop: i32) -> (r: Result<
        Vec<Self>,
        UacpiError,
    >)
        requires
            0 < number_tables,
            forall|i: int|
                0 <= i < found@.len() ==> Self::spec_min_length() <= (#[trigger] found@[i])@.0.len(),
            found@.len() < number_tables ==> is_status_code(stop) && stop
                != codes::UACPI_STATUS_OK,
        ensures
            found@.len() < number_tables ==> (r matches Err(e) && error_code(e) == stop),
            number_tables <= found@.len() ==> (r matches Ok(v) && v@.len() == number_tables
                && forall|i: int| 0 <= i < number_tables ==> (#[trigger] v@[i]).table() == found@[i]),
    {
        if found.len() < number_tables {
            Status::evaluate_uacpi_status(stop)?;
        }
        let ghost all = found@;
        let mut rest = found;
        let mut tables: Vec<Self> = Vec::new();
        let mut k: usize = 0;
        while k < number_tables
            invariant
                k <= number_tables <= all.len(),
                tables@.len() == k,
                rest@ == all.subrange(k as int, all.len() as int),
                forall|i: int| 0 <= i < k ==> (#[trigger] tables@[i]).table() == all[i],
                forall|i: int|
                    0 <= i < all.len() ==> Self::spec_min_length() <= (#[trigger] all[i])@.0.len(),
            decreases number_tables - k,
        {
            let t = rest.remove(0);
            assert(t == all[k as int]);
            tables.push(Self::internal_acpi_table_to_self(t));
            assert(rest@ =~= all.subrange(k + 1, all.len() as int));
            k = k + 1;
        }
        Ok(tables)
    }
}

/// Tables that the ACPI specification allows only once, such as the ECDT.
pub trait AcpiTableSingle: AcpiTable {
    /// The table of this type, from the lookup by signature that gave
    /// `status` and, on success, `table`.
    fn get(status: i32, table: Option<AcpiTableStruct>) -> (r: Result<Self, UacpiError>)
        requires
            is_lookup_of::<Self>(status, table),
        ensures
            lookup_result(status, table, r),
    {
        match Status::evaluate_uacpi_status(status) {
            Ok(()) => Ok(Self::internal_acpi_table_to_self(table.unwrap())),
            Err(e) => Err(e),
        }
    }
}

/// The tables that this library reads.
pub enum AcpiTables {
    HPET(HPET),
}

} // verus!
