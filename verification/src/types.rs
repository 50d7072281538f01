//! Plain data types of the ACPI and uACPI interfaces.
use vstd::prelude::*;
use crate::codes;

verus! {

/// A physical memory address.
pub type PhysAddr = u64;

/// An address in the system I/O space.
pub type IOAddr = u64;

/// Severity of a message that uACPI logs, from the most to the least severe.
#[derive(Clone, Copy, PartialEq, Eq, PartialOrd, Ord, Debug, Structural)]
pub enum LogLevel {
    Error,
    Warn,
    Info,
    Trace,
    Debug,
}

/// The uACPI code of a log level.
pub open spec fn log_level_code(l: LogLevel) -> i32 {
    match l {
        LogLevel::Error => codes::UACPI_LOG_ERROR,
        LogLevel::Warn => codes::UACPI_LOG_WARN,
        LogLevel::Info => codes::UACPI_LOG_INFO,
        LogLevel::Trace => codes::UACPI_LOG_TRACE,
        LogLevel::Debug => codes::UACPI_LOG_DEBUG,
    }
}

impl LogLevel {
    /// The uACPI code of this log level.
    pub fn code(&self) -> (r: i32)
        ensures
            r == log_level_code(*self),
    {
        match self {
            LogLevel::Error => codes::UACPI_LOG_ERROR,
            LogLevel::Warn => codes::UACPI_LOG_WARN,
            LogLevel::Info => codes::UACPI_LOG_INFO,
            LogLevel::Trace => codes::UACPI_LOG_TRACE,
            LogLevel::Debug => codes::UACPI_LOG_DEBUG,
        }
    }

    /// The log level that uACPI passes as `value`; uACPI passes only the codes
    /// of its log levels.
    pub fn from(value: i32) -> (r: LogLevel)
        requires
            codes::UACPI_LOG_ERROR <= value <= codes::UACPI_LOG_DEBUG,
        ensures
            log_level_code(r) == value,
    {
        match value {
            codes::UACPI_LOG_DEBUG => LogLevel::Debug,
            codes::UACPI_LOG_TRACE => LogLevel::Trace,
            codes::UACPI_LOG_INFO => LogLevel::Info,
            codes::UACPI_LOG_WARN => LogLevel::Warn,
            _ => LogLevel::Error,
        }
    }
}

/// How far uACPI has come in initialising the ACPI subsystem.
#[derive(Clone, Copy, PartialEq, Eq, PartialOrd, Ord, Debug, Structural)]
pub enum InitLevel {
    Early,
    SubsystemInitialized,
    NamespaceLoaded,
    NamespaceInitialized,
}

/// The uACPI code of an init level.
pub open spec fn init_level_code(l: InitLevel) -> i32 {
    match l {
        InitLevel::Early => codes::UACPI_INIT_LEVEL_EARLY,
        InitLevel::SubsystemInitialized => codes::UACPI_INIT_LEVEL_SUBSYSTEM_INITIALIZED,
        InitLevel::NamespaceLoaded => codes::UACPI_INIT_LEVEL_NAMESPACE_LOADED,
        InitLevel::NamespaceInitialized => codes::UACPI_INIT_LEVEL_NAMESPACE_INITIALIZED,
    }
}

impl InitLevel {
    /// The uACPI code of this init level.
    pub fn code(&self) -> (r: i32)
        ensures
            r == init_level_code(*self),
    {
        match self {
            InitLevel::Early => codes::UACPI_INIT_LEVEL_EARLY,
            InitLevel::SubsystemInitialized => codes::UACPI_INIT_LEVEL_SUBSYSTEM_INITIALIZED,
            InitLevel::NamespaceLoaded => codes::UACPI_INIT_LEVEL_NAMESPACE_LOADED,
            InitLevel::NamespaceInitialized => codes::UACPI_INIT_LEVEL_NAMESPACE_INITIALIZED,
        }
    }

    /// The init level that uACPI reports as `value`; uACPI reports only the
    /// codes of its init levels.
    pub fn from(value: i32) -> (r: InitLevel)
        requires
            codes::UACPI_INIT_LEVEL_EARLY <= value <= codes::UACPI_INIT_LEVEL_NAMESPACE_INITIALIZED,
        ensures
            init_level_code(r) == value,
    {
        match value {
            codes::UACPI_INIT_LEVEL_EARLY => InitLevel::Early,
            codes::UACPI_INIT_LEVEL_SUBSYSTEM_INITIALIZED => InitLevel::SubsystemInitialized,
            codes::UACPI_INIT_LEVEL_NAMESPACE_LOADED => InitLevel::NamespaceLoaded,
            _ => InitLevel::NamespaceInitialized,
        }
    }
}

/// The access size field of a Generic Address Structure.
#[derive(Copy, Clone, Debug, PartialEq, Eq, Structural)]
pub enum AccessSize {
    Undefined,
    Byte,
    Word,
    DWord,
    QWord,
}

/// The encoding of an access size in a Generic Address Structure.
pub open spec fn access_size_code(a: AccessSize) -> u8 {
    match a {
        AccessSize::Undefined => 0,
        AccessSize::Byte => 1,
        AccessSize::Word => 2,
        AccessSize::DWord => 3,
        AccessSize::QWord => 4,
    }
}

impl AccessSize {
    /// The encoding of this access size.
    pub fn code(&self) -> (r: u8)
        ensures
            r == access_size_code(*self),
    {
        match self {
            AccessSize::Undefined => 0,
            AccessSize::Byte => 1,
            AccessSize::Word => 2,
            AccessSize::DWord => 3,
            AccessSize::QWord => 4,
        }
    }

    /// Decodes an access size; only the encodings 0 to 4 are defined.
    pub fn from(value: u8) -> (r: AccessSize)
        requires
            value <= 4,
        ensures
            access_size_code(r) == value,
    {
        match value {
            0 => AccessSize::Undefined,
            1 => AccessSize::Byte,
            2 => AccessSize::Word,
            3 => AccessSize::DWord,
            _ => AccessSize::QWord,
        }
    }
}

/// `bits` with the field that holds `width` values from bit position
/// `shift` (a power of two) replaced by `value`.
pub open spec fn replace_field(bits: int, shift: int, width: int, value: int) -> int {
    bits - ((bits / shift) % width) * shift + value * shift
}

/// Replacing a field and reading it back gives the new value, and leaves the
/// bits below and above the field as they were.
pub proof fn lemma_replace_field_reads_back(bits: int, shift: int, width: int, value: int)
    requires
        0 <= bits,
        0 < shift,
        0 < width,
        0 <= value < width,
    ensures
        (replace_field(bits, shift, width, value) / shift) % width == value,
        replace_field(bits, shift, width, value) % shift == bits % shift,
        replace_field(bits, shift, width, value) / (shift * width) == bits / (shift * width),
{
    let low = bits % shift;
    let q = bits / shift;
    let mid = q % width;
    let high = q / width;
    vstd::arithmetic::div_mod::lemma_fundamental_div_mod(bits, shift);
    vstd::arithmetic::div_mod::lemma_fundamental_div_mod(q, width);
    assert(bits == low + shift * (mid + width * high));
    let r = replace_field(bits, shift, width, value);
    assert(r == low + shift * (value + width * high)) by (nonlinear_arith)
        requires
            r == bits - mid * shift + value * shift,
            bits == low + shift * (mid + width * high),
    ;
    assert(0 <= low < shift);
    vstd::arithmetic::div_mod::lemma_fundamental_div_mod_converse(r, shift, value + width * high, low);
    vstd::arithmetic::div_mod::lemma_fundamental_div_mod_converse(value + width * high, width, high, value);
    assert(r == low + (shift * width) * high + shift * value) by (nonlinear_arith)
        requires
            r == low + shift * (value + width * high),
    ;
    assert(bits == low + (shift * width) * high + shift * mid) by (nonlinear_arith)
        requires
            bits == low + shift * (mid + width * high),
    ;
    assert(0 <= low + shift * value < shift * width) by (nonlinear_arith)
        requires
            0 <= low < shift,
            0 <= value < width,
    ;
    assert(0 <= low + shift * mid < shift * width) by (nonlinear_arith)
        requires
            0 <= low < shift,
            0 <= mid < width,
    ;
    vstd::arithmetic::div_mod::lemma_fundamental_div_mod_converse(r, shift * width, high, low + shift * value);
    vstd::arithmetic::div_mod::lemma_fundamental_div_mod_converse(bits, shift * width, high, low + shift * mid);
}

/// The configuration-space address of a PCI register, as the address field
/// of a Generic Address Structure encodes it: offset in bits 0-15, function in
/// bits 16-31, device in bits 32-47; bits 48-63 are reserved.
#[derive(Copy, Clone, Debug, PartialEq, Eq, Structural)]
pub struct PCIConfigSpace(u64);

impl View for PCIConfigSpace {
    type V = u64;

    closed spec fn view(&self) -> u64 {
        self.0
    }
}

/// Facts on the bit layout of a PCI configuration-space address.
proof fn lemma_pci_config_bits(x: u64)
    by (bit_vector)
    ensures
        (x & 0xffff) == x % 0x1_0000,
        ((x >> 16u64) & 0xffff) == (x / 0x1_0000) % 0x1_0000,
        ((x >> 32u64) & 0xffff) == (x / 0x1_0000_0000) % 0x1_0000,
{
}

impl PCIConfigSpace {
    /// The address with every bit clear.
    pub fn new() -> (r: PCIConfigSpace)
        ensures
            r@ == 0,
    {
        PCIConfigSpace(0)
    }

    /// The address whose encoding is `bits`.
    pub fn from_bits(bits: u64) -> (r: PCIConfigSpace)
        ensures
            r@ == bits,
    {
        PCIConfigSpace(bits)
    }

    /// The encoding of this address.
    pub fn into_bits(self) -> (r: u64)
        ensures
            r == self@,
    {
        self.0
    }

    /// Offset of the register within the function's configuration space.
    pub fn offset(&self) -> (r: u16)
        ensures
            r == self@ % 0x1_0000,
    {
        proof {
            lemma_pci_config_bits(self.0);
        }
        (self.0 & 0xffff) as u16
    }

    /// The PCI function number.
    pub fn function(&self) -> (r: u16)
        ensures
            r == (self@ / 0x1_0000) % 0x1_0000,
    {
        proof {
            lemma_pci_config_bits(self.0);
        }
        ((self.0 >> 16u64) & 0xffff) as u16
    }

    /// The PCI device number.
    pub fn device(&self) -> (r: u16)
        ensures
            r == (self@ / 0x1_0000_0000) % 0x1_0000,
    {
        proof {
            lemma_pci_config_bits(self.0);
        }
        ((self.0 >> 32u64) & 0xffff) as u16
    }
    /// Replaces the offset field by `value`; `Err` leaves the encoding
    /// unchanged when `value` does not fit the field's 16 bits.
    pub fn set_offset_checked(&mut self, value: u16) -> (r: Result<(), ()>)
        ensures
            r is Ok <==> value <= 0xffff,
            r is Ok ==> final(self)@ == replace_field(old(self)@ as int, 0x1, 0x10000, value as int),
            r is Err ==> final(self)@ == old(self)@,
    {
        let v = value as u64;
        if v > 0xffff {
            return Err(());
        }
        proof {
            lemma_pci_config_replace_offset(self.0, v);
        }
        self.0 = (self.0 & 0xffffffffffff0000) | (v << 0u64);
        Ok(())
    }

    /// Replaces the offset field by `value`, which must fit the field.
    pub fn set_offset(&mut self, value: u16)
        requires
            value <= 0xffff,
        ensures
            final(self)@ == replace_field(old(self)@ as int, 0x1, 0x10000, value as int),
    {
        let _ = self.set_offset_checked(value);
    }

    /// This encoding with the offset field replaced by `value`; `Err` when
    /// `value` does not fit the field.
    pub fn with_offset_checked(self, value: u16) -> (r: Result<PCIConfigSpace, ()>)
        ensures
            r is Ok <==> value <= 0xffff,
            r matches Ok(t) ==> t@ == replace_field(self@ as int, 0x1, 0x10000, value as int),
    {
        let mut t = self;
        match t.set_offset_checked(value) {
            Ok(()) => Ok(t),
            Err(()) => Err(()),
        }
    }

    /// This encoding with the offset field replaced by `value`, which must fit
    /// the field.
    pub fn with_offset(self, value: u16) -> (r: PCIConfigSpace)
        requires
            value <= 0xffff,
        ensures
            r@ == replace_field(self@ as int, 0x1, 0x10000, value as int),
    {
        let mut t = self;
        t.set_offset(value);
        t
    }

    /// Replaces the function field by `value`; `Err` leaves the encoding
    /// unchanged when `value` does not fit the field's 16 bits.
    pub fn set_function_checked(&mut self, value: u16) -> (r: Result<(), ()>)
        ensures
            r is Ok <==> value <= 0xffff,
            r is Ok ==> final(self)@ == replace_field(old(self)@ as int, 0x10000, 0x10000, value as int),
            r is Err ==> final(self)@ == old(self)@,
    {
        let v = value as u64;
        if v > 0xffff {
            return Err(());
        }
        proof {
            lemma_pci_config_replace_function(self.0, v);
        }
        self.0 = (self.0 & 0xffffffff0000ffff) | (v << 16u64);
        Ok(())
    }

    /// Replaces the function field by `value`, which must fit the field.
    pub fn set_function(&mut self, value: u16)
        requires
            value <= 0xffff,
        ensures
            final(self)@ == replace_field(old(self)@ as int, 0x10000, 0x10000, value as int),
    {
        let _ = self.set_function_checked(value);
    }

    /// This encoding with the function field replaced by `value`; `Err` when
    /// `value` does not fit the field.
    pub fn with_function_checked(self, value: u16) -> (r: Result<PCIConfigSpace, ()>)
        ensures
            r is Ok <==> value <= 0xffff,
            r matches Ok(t) ==> t@ == replace_field(self@ as int, 0x10000, 0x10000, value as int),
    {
        let mut t = self;
        match t.set_function_checked(value) {
            Ok(()) => Ok(t),
            Err(()) => Err(()),
        }
    }

    /// This encoding with the function field replaced by `value`, which must fit
    /// the field.
    pub fn with_function(self, value: u16) -> (r: PCIConfigSpace)
        requires
            value <= 0xffff,
        ensures
            r@ == replace_field(self@ as int, 0x10000, 0x10000, value as int),
    {
        let mut t = self;
        t.set_function(value);
        t
    }

    /// Replaces the device field by `value`; `Err` leaves the encoding
    /// unchanged when `value` does not fit the field's 16 bits.
    pub fn set_device_checked(&mut self, value: u16) -> (r: Result<(), ()>)
        ensures
            r is Ok <==> value <= 0xffff,
            r is Ok ==> final(self)@ == replace_field(old(self)@ as int, 0x100000000, 0x10000, value as int),
            r is Err ==> final(self)@ == old(self)@,
    {
        let v = value as u64;
        if v > 0xffff {
            return Err(());
        }
        proof {
            lemma_pci_config_replace_device(self.0, v);
        }
        self.0 = (self.0 & 0xffff0000ffffffff) | (v << 32u64);
        Ok(())
    }

    /// Replaces the device field by `value`, which must fit the field.
    pub fn set_device(&mut self, value: u16)
        requires
            value <= 0xffff,
        ensures
            final(self)@ == replace_field(old(self)@ as int, 0x100000000, 0x10000, value as int),
    {
        let _ = self.set_device_checked(value);
    }

    /// This encoding with the device field replaced by `value`; `Err` when
    /// `value` does not fit the field.
    pub fn with_device_checked(self, value: u16) -> (r: Result<PCIConfigSpace, ()>)
        ensures
            r is Ok <==> value <= 0xffff,
            r matches Ok(t) ==> t@ == replace_field(self@ as int, 0x100000000, 0x10000, value as int),
    {
        let mut t = self;
        match t.set_device_checked(value) {
            Ok(()) => Ok(t),
            Err(()) => Err(()),
        }
    }

    /// This encoding with the device field replaced by `value`, which must fit
    /// the field.
    pub fn with_device(self, value: u16) -> (r: PCIConfigSpace)
        requires
            value <= 0xffff,
        ensures
            r@ == replace_field(self@ as int, 0x100000000, 0x10000, value as int),
    {
        let mut t = self;
        t.set_device(value);
        t
    }
}

/// Replacing the offset field of a PCIConfigSpace by bit operations.
proof fn lemma_pci_config_replace_offset(x: u64, v: u64)
    by (bit_vector)
    requires
        v <= 0xffff,
    ensures
        ((x & 0xffffffffffff0000) | (v << 0u64)) == x - ((x / 0x1) % 0x10000) * 0x1 + v * 0x1,
{
}

/// Replacing the function field of a PCIConfigSpace by bit operations.
proof fn lemma_pci_config_replace_function(x: u64, v: u64)
    by (bit_vector)
    requires
        v <= 0xffff,
    ensures
        ((x & 0xffffffff0000ffff) | (v << 16u64)) == x - ((x / 0x10000) % 0x10000) * 0x10000 + v * 0x10000,
{
}

/// Replacing the device field of a PCIConfigSpace by bit operations.
proof fn lemma_pci_config_replace_device(x: u64, v: u64)
    by (bit_vector)
    requires
        v <= 0xffff,
    ensures
        ((x & 0xffff0000ffffffff) | (v << 32u64)) == x - ((x / 0x100000000) % 0x10000) * 0x100000000 + v * 0x100000000,
{
}

/// The offset, function, device and reserved fields together make up the
/// whole encoding of a PCI configuration-space address.
pub proof fn lemma_pci_config_fields_cover(p: PCIConfigSpace)
    ensures
        p@ == p@ % 0x1_0000 + ((p@ / 0x1_0000) % 0x1_0000) * 0x1_0000 + ((p@ / 0x1_0000_0000)
            % 0x1_0000) * 0x1_0000_0000 + (p@ / 0x1_0000_0000_0000) * 0x1_0000_0000_0000,
{
    let x = p@;
    assert(x == x % 0x1_0000 + ((x / 0x1_0000) % 0x1_0000) * 0x1_0000 + ((x / 0x1_0000_0000)
        % 0x1_0000) * 0x1_0000_0000 + (x / 0x1_0000_0000_0000) * 0x1_0000_0000_0000)
        by (bit_vector);
}

impl From<u64> for PCIConfigSpace {
    fn from(bits: u64) -> (r: PCIConfigSpace)
        ensures
            r@ == bits,
    {
        PCIConfigSpace(bits)
    }
}

impl vstd::std_specs::convert::FromSpecImpl<u64> for PCIConfigSpace {
    open spec fn obeys_from_spec() -> bool {
        true
    }

    closed spec fn from_spec(bits: u64) -> PCIConfigSpace {
        PCIConfigSpace(bits)
    }
}

impl From<PCIConfigSpace> for u64 {
    fn from(value: PCIConfigSpace) -> u64 {
        value.0
    }
}

impl vstd::std_specs::convert::FromSpecImpl<PCIConfigSpace> for u64 {
    open spec fn obeys_from_spec() -> bool {
        true
    }

    open spec fn from_spec(value: PCIConfigSpace) -> u64 {
        value@
    }
}

/// The address of a register behind a PCI base address register, as the
/// address field of a Generic Address Structure encodes it: offset in bits
/// 0-36, BAR index in bits 37-39, function in bits 40-42, device in bits 43-47,
/// bus in bits 48-55 and segment in bits 56-63.
#[derive(Copy, Clone, Debug, PartialEq, Eq, Structural)]
pub struct PCIBarTarget(u64);

impl View for PCIBarTarget {
    type V = u64;

    closed spec fn view(&self) -> u64 {
        self.0
    }
}

/// Facts on the bit layout of a PCI BAR target.
proof fn lemma_pci_bar_bits(x: u64)
    by (bit_vector)
    ensures
        (x & 0x1f_ffff_ffff) == x % 0x20_0000_0000,
        ((x >> 37u64) & 0x7) == (x / 0x20_0000_0000) % 8,
        ((x >> 40u64) & 0x7) == (x / 0x100_0000_0000) % 8,
        ((x >> 43u64) & 0x1f) == (x / 0x800_0000_0000) % 32,
        ((x >> 48u64) & 0xff) == (x / 0x1_0000_0000_0000) % 256,
        (x >> 56u64) == x / 0x100_0000_0000_0000,
        x / 0x100_0000_0000_0000 < 256,
{
}

impl PCIBarTarget {
    /// The target with every bit clear.
    pub fn new() -> (r: PCIBarTarget)
        ensures
            r@ == 0,
    {
        PCIBarTarget(0)
    }

    /// The target whose encoding is `bits`.
    pub fn from_bits(bits: u64) -> (r: PCIBarTarget)
        ensures
            r@ == bits,
    {
        PCIBarTarget(bits)
    }

    /// The encoding of this target.
    pub fn into_bits(self) -> (r: u64)
        ensures
            r == self@,
    {
        self.0
    }

    /// Offset of the register from the start of the BAR.
    pub fn offset(&self) -> (r: u64)
        ensures
            r == self@ % 0x20_0000_0000,
    {
        proof {
            lemma_pci_bar_bits(self.0);
        }
        self.0 & 0x1f_ffff_ffff
    }

    /// Index of the base address register.
    pub fn bar_index(&self) -> (r: u8)
        ensures
            r == (self@ / 0x20_0000_0000) % 8,
    {
        proof {
            lemma_pci_bar_bits(self.0);
        }
        ((self.0 >> 37u64) & 0x7) as u8
    }

    /// The PCI function number.
    pub fn function(&self) -> (r: u8)
        ensures
            r == (self@ / 0x100_0000_0000) % 8,
    {
        proof {
            lemma_pci_bar_bits(self.0);
        }
        ((self.0 >> 40u64) & 0x7) as u8
    }

    /// The PCI device number.
    pub fn device(&self) -> (r: u8)
        ensures
            r == (self@ / 0x800_0000_0000) % 32,
    {
        proof {
            lemma_pci_bar_bits(self.0);
        }
        ((self.0 >> 43u64) & 0x1f) as u8
    }

    /// The PCI bus number.
    pub fn bus(&self) -> (r: u8)
        ensures
            r == (self@ / 0x1_0000_0000_0000) % 256,
    {
        proof {
            lemma_pci_bar_bits(self.0);
        }
        ((self.0 >> 48u64) & 0xff) as u8
    }

    /// The PCI segment group number.
    pub fn segment(&self) -> (r: u8)
        ensures
            r == self@ / 0x100_0000_0000_0000,
    {
        proof {
            lemma_pci_bar_bits(self.0);
        }
        (self.0 >> 56u64) as u8
    }
    /// Replaces the offset field by `value`; `Err` leaves the encoding
    /// unchanged when `value` does not fit the field's 37 bits.
    pub fn set_offset_checked(&mut self, value: u64) -> (r: Result<(), ()>)
        ensures
            r is Ok <==> value <= 0x1fffffffff,
            r is Ok ==> final(self)@ == replace_field(old(self)@ as int, 0x1, 0x2000000000, value as int),
            r is Err ==> final(self)@ == old(self)@,
    {
        let v = value as u64;
        if v > 0x1fffffffff {
            return Err(());
        }
        proof {
            lemma_pci_bar_replace_offset(self.0, v);
        }
        self.0 = (self.0 & 0xffffffe000000000) | (v << 0u64);
        Ok(())
    }

    /// Replaces the offset field by `value`, which must fit the field.
    pub fn set_offset(&mut self, value: u64)
        requires
            value <= 0x1fffffffff,
        ensures
            final(self)@ == replace_field(old(self)@ as int, 0x1, 0x2000000000, value as int),
    {
        let _ = self.set_offset_checked(value);
    }

    /// This encoding with the offset field replaced by `value`; `Err` when
    /// `value` does not fit the field.
    pub fn with_offset_checked(self, value: u64) -> (r: Result<PCIBarTarget, ()>)
        ensures
            r is Ok <==> value <= 0x1fffffffff,
            r matches Ok(t) ==> t@ == replace_field(self@ as int, 0x1, 0x2000000000, value as int),
    {
        let mut t = self;
        match t.set_offset_checked(value) {
            Ok(()) => Ok(t),
            Err(()) => Err(()),
        }
    }

    /// This encoding with the offset field replaced by `value`, which must fit
    /// the field.
    pub fn with_offset(self, value: u64) -> (r: PCIBarTarget)
        requires
            value <= 0x1fffffffff,
        ensures
            r@ == replace_field(self@ as int, 0x1, 0x2000000000, value as int),
    {
        let mut t = self;
        t.set_offset(value);
        t
    }

    /// Replaces the bar_index field by `value`; `Err` leaves the encoding
    /// unchanged when `value` does not fit the field's 3 bits.
    pub fn set_bar_index_checked(&mut self, value: u8) -> (r: Result<(), ()>)
        ensures
            r is Ok <==> value <= 0x7,
            r is Ok ==> final(self)@ == replace_field(old(self)@ as int, 0x2000000000, 0x8, value as int),
            r is Err ==> final(self)@ == old(self)@,
    {
        let v = value as u64;
        if v > 0x7 {
            return Err(());
        }
        proof {
            lemma_pci_bar_replace_bar_index(self.0, v);
        }
        self.0 = (self.0 & 0xffffff1fffffffff) | (v << 37u64);
        Ok(())
    }

    /// Replaces the bar_index field by `value`, which must fit the field.
    pub fn set_bar_index(&mut self, value: u8)
        requires
            value <= 0x7,
        ensures
            final(self)@ == replace_field(old(self)@ as int, 0x2000000000, 0x8, value as int),
    {
        let _ = self.set_bar_index_checked(value);
    }

    /// This encoding with the bar_index field replaced by `value`; `Err` when
    /// `value` does not fit the field.
    pub fn with_bar_index_checked(self, value: u8) -> (r: Result<PCIBarTarget, ()>)
        ensures
            r is Ok <==> value <= 0x7,
            r matches Ok(t) ==> t@ == replace_field(self@ as int, 0x2000000000, 0x8, value as int),
    {
        let mut t = self;
        match t.set_bar_index_checked(value) {
            Ok(()) => Ok(t),
            Err(()) => Err(()),
        }
    }

    /// This encoding with the bar_index field replaced by `value`, which must fit
    /// the field.
    pub fn with_bar_index(self, value: u8) -> (r: PCIBarTarget)
        requires
            value <= 0x7,
        ensures
            r@ == replace_field(self@ as int, 0x2000000000, 0x8, value as int),
    {
        let mut t = self;
        t.set_bar_index(value);
        t
    }

    /// Replaces the function field by `value`; `Err` leaves the encoding
    /// unchanged when `value` does not fit the field's 3 bits.
    pub fn set_function_checked(&mut self, value: u8) -> (r: Result<(), ()>)
        ensures
            r is Ok <==> value <= 0x7,
            r is Ok ==> final(self)@ == replace_field(old(self)@ as int, 0x10000000000, 0x8, value as int),
            r is Err ==> final(self)@ == old(self)@,
    {
        let v = value as u64;
        if v > 0x7 {
            return Err(());
        }
        proof {
            lemma_pci_bar_replace_function(self.0, v);
        }
        self.0 = (self.0 & 0xfffff8ffffffffff) | (v << 40u64);
        Ok(())
    }

    /// Replaces the function field by `value`, which must fit the field.
    pub fn set_function(&mut self, value: u8)
        requires
            value <= 0x7,
        ensures
            final(self)@ == replace_field(old(self)@ as int, 0x10000000000, 0x8, value as int),
    {
        let _ = self.set_function_checked(value);
    }

    /// This encoding with the function field replaced by `value`; `Err` when
    /// `value` does not fit the field.
    pub fn with_function_checked(self, value: u8) -> (r: Result<PCIBarTarget, ()>)
        ensures
            r is Ok <==> value <= 0x7,
            r matches Ok(t) ==> t@ == replace_field(self@ as int, 0x10000000000, 0x8, value as int),
    {
        let mut t = self;
        match t.set_function_checked(value) {
            Ok(()) => Ok(t),
            Err(()) => Err(()),
        }
    }

    /// This encoding with the function field replaced by `value`, which must fit
    /// the field.
    pub fn with_function(self, value: u8) -> (r: PCIBarTarget)
        requires
            value <= 0x7,
        ensures
            r@ == replace_field(self@ as int, 0x10000000000, 0x8, value as int),
    {
        let mut t = self;
        t.set_function(value);
        t
    }

    /// Replaces the device field by `value`; `Err` leaves the encoding
    /// unchanged when `value` does not fit the field's 5 bits.
    pub fn set_device_checked(&mut self, value: u8) -> (r: Result<(), ()>)
        ensures
            r is Ok <==> value <= 0x1f,
            r is Ok ==> final(self)@ == replace_field(old(self)@ as int, 0x80000000000, 0x20, value as int),
            r is Err ==> final(self)@ == old(self)@,
    {
        let v = value as u64;
        if v > 0x1f {
            return Err(());
        }
        proof {
            lemma_pci_bar_replace_device(self.0, v);
        }
        self.0 = (self.0 & 0xffff07ffffffffff) | (v << 43u64);
        Ok(())
    }

    /// Replaces the device field by `value`, which must fit the field.
    pub fn set_device(&mut self, value: u8)
        requires
            value <= 0x1f,
        ensures
            final(self)@ == replace_field(old(self)@ as int, 0x80000000000, 0x20, value as int),
    {
        let _ = self.set_device_checked(value);
    }

    /// This encoding with the device field replaced by `value`; `Err` when
    /// `value` does not fit the field.
    pub fn with_device_checked(self, value: u8) -> (r: Result<PCIBarTarget, ()>)
        ensures
            r is Ok <==> value <= 0x1f,
            r matches Ok(t) ==> t@ == replace_field(self@ as int, 0x80000000000, 0x20, value as int),
    {
        let mut t = self;
        match t.set_device_checked(value) {
            Ok(()) => Ok(t),
            Err(()) => Err(()),
        }
    }

    /// This encoding with the device field replaced by `value`, which must fit
    /// the field.
    pub fn with_device(self, value: u8) -> (r: PCIBarTarget)
        requires
            value <= 0x1f,
        ensures
            r@ == replace_field(self@ as int, 0x80000000000, 0x20, value as int),
    {
        let mut t = self;
        t.set_device(value);
        t
    }

    /// Replaces the bus field by `value`; `Err` leaves the encoding
    /// unchanged when `value` does not fit the field's 8 bits.
    pub fn set_bus_checked(&mut self, value: u8) -> (r: Result<(), ()>)
        ensures
            r is Ok <==> value <= 0xff,
            r is Ok ==> final(self)@ == replace_field(old(self)@ as int, 0x1000000000000, 0x100, value as int),
            r is Err ==> final(self)@ == old(self)@,
    {
        let v = value as u64;
        if v > 0xff {
            return Err(());
        }
        proof {
            lemma_pci_bar_replace_bus(self.0, v);
        }
        self.0 = (self.0 & 0xff00ffffffffffff) | (v << 48u64);
        Ok(())
    }

    /// Replaces the bus field by `value`, which must fit the field.
    pub fn set_bus(&mut self, value: u8)
        requires
            value <= 0xff,
        ensures
            final(self)@ == replace_field(old(self)@ as int, 0x1000000000000, 0x100, value as int),
    {
        let _ = self.set_bus_checked(value);
    }

    /// This encoding with the bus field replaced by `value`; `Err` when
    /// `value` does not fit the field.
    pub fn with_bus_checked(self, value: u8) -> (r: Result<PCIBarTarget, ()>)
        ensures
            r is Ok <==> value <= 0xff,
            r matches Ok(t) ==> t@ == replace_field(self@ as int, 0x1000000000000, 0x100, value as int),
    {
        let mut t = self;
        match t.set_bus_checked(value) {
            Ok(()) => Ok(t),
            Err(()) => Err(()),
        }
    }

    /// This encoding with the bus field replaced by `value`, which must fit
    /// the field.
    pub fn with_bus(self, value: u8) -> (r: PCIBarTarget)
        requires
            value <= 0xff,
        ensures
            r@ == replace_field(self@ as int, 0x1000000000000, 0x100, value as int),
    {
        let mut t = self;
        t.set_bus(value);
        t
    }

    /// Replaces the segment field by `value`; `Err` leaves the encoding
    /// unchanged when `value` does not fit the field's 8 bits.
    pub fn set_segment_checked(&mut self, value: u8) -> (r: Result<(), ()>)
        ensures
            r is Ok <==> value <= 0xff,
            r is Ok ==> final(self)@ == replace_field(old(self)@ as int, 0x100000000000000, 0x100, value as int),
            r is Err ==> final(self)@ == old(self)@,
    {
        let v = value as u64;
        if v > 0xff {
            return Err(());
        }
        proof {
            lemma_pci_bar_replace_segment(self.0, v);
        }
        self.0 = (self.0 & 0xffffffffffffff) | (v << 56u64);
        Ok(())
    }

    /// Replaces the segment field by `value`, which must fit the field.
    pub fn set_segment(&mut self, value: u8)
        requires
            value <= 0xff,
        ensures
            final(self)@ == replace_field(old(self)@ as int, 0x100000000000000, 0x100, value as int),
    {
        let _ = self.set_segment_checked(value);
    }

    /// This encoding with the segment field replaced by `value`; `Err` when
    /// `value` does not fit the field.
    pub fn with_segment_checked(self, value: u8) -> (r: Result<PCIBarTarget, ()>)
        ensures
            r is Ok <==> value <= 0xff,
            r matches Ok(t) ==> t@ == replace_field(self@ as int, 0x100000000000000, 0x100, value as int),
    {
        let mut t = self;
        match t.set_segment_checked(value) {
            Ok(()) => Ok(t),
            Err(()) => Err(()),
        }
    }

    /// This encoding with the segment field replaced by `value`, which must fit
    /// the field.
    pub fn with_segment(self, value: u8) -> (r: PCIBarTarget)
        requires
            value <= 0xff,
        ensures
            r@ == replace_field(self@ as int, 0x100000000000000, 0x100, value as int),
    {
        let mut t = self;
        t.set_segment(value);
        t
    }
}

/// Replacing the offset field of a PCIBarTarget by bit operations.
proof fn lemma_pci_bar_replace_offset(x: u64, v: u64)
    by (bit_vector)
    requires
        v <= 0x1fffffffff,
    ensures
        ((x & 0xffffffe000000000) | (v << 0u64)) == x - ((x / 0x1) % 0x2000000000) * 0x1 + v * 0x1,
{
}

/// Replacing the bar_index field of a PCIBarTarget by bit operations.
proof fn lemma_pci_bar_replace_bar_index(x: u64, v: u64)
    by (bit_vector)
    requires
        v <= 0x7,
    ensures
        ((x & 0xffffff1fffffffff) | (v << 37u64)) == x - ((x / 0x2000000000) % 0x8) * 0x2000000000 + v * 0x2000000000,
{
}

/// Replacing the function field of a PCIBarTarget by bit operations.
proof fn lemma_pci_bar_replace_function(x: u64, v: u64)
    by (bit_vector)
    requires
        v <= 0x7,
    ensures
        ((x & 0xfffff8ffffffffff) | (v << 40u64)) == x - ((x / 0x10000000000) % 0x8) * 0x10000000000 + v * 0x10000000000,
{
}

/// Replacing the device field of a PCIBarTarget by bit operations.
proof fn lemma_pci_bar_replace_device(x: u64, v: u64)
    by (bit_vector)
    requires
        v <= 0x1f,
    ensures
        ((x & 0xffff07ffffffffff) | (v << 43u64)) == x - ((x / 0x80000000000) % 0x20) * 0x80000000000 + v * 0x80000000000,
{
}

/// Replacing the bus field of a PCIBarTarget by bit operations.
proof fn lemma_pci_bar_replace_bus(x: u64, v: u64)
    by (bit_vector)
    requires
        v <= 0xff,
    ensures
        ((x & 0xff00ffffffffffff) | (v << 48u64)) == x - ((x / 0x1000000000000) % 0x100) * 0x1000000000000 + v * 0x1000000000000,
{
}

/// Replacing the segment field of a PCIBarTarget by bit operations.
proof fn lemma_pci_bar_replace_segment(x: u64, v: u64)
    by (bit_vector)
    requires
        v <= 0xff,
    ensures
        ((x & 0xffffffffffffff) | (v << 56u64)) == x - ((x / 0x100000000000000) % 0x100) * 0x100000000000000 + v * 0x100000000000000,
{
}

/// The offset, BAR index, function, device, bus and segment fields together
/// make up the whole encoding of a PCI BAR target.
pub proof fn lemma_pci_bar_fields_cover(t: PCIBarTarget)
    ensures
        t@ == t@ % 0x20_0000_0000 + ((t@ / 0x20_0000_0000) % 8) * 0x20_0000_0000 + ((t@
            / 0x100_0000_0000) % 8) * 0x100_0000_0000 + ((t@ / 0x800_0000_0000) % 32)
            * 0x800_0000_0000 + ((t@ / 0x1_0000_0000_0000) % 256) * 0x1_0000_0000_0000 + (t@
            / 0x100_0000_0000_0000) * 0x100_0000_0000_0000,
{
    let x = t@;
    assert(x == x % 0x20_0000_0000 + ((x / 0x20_0000_0000) % 8) * 0x20_0000_0000 + ((x
        / 0x100_0000_0000) % 8) * 0x100_0000_0000 + ((x / 0x800_0000_0000) % 32)
        * 0x800_0000_0000 + ((x / 0x1_0000_0000_0000) % 256) * 0x1_0000_0000_0000 + (x
        / 0x100_0000_0000_0000) * 0x100_0000_0000_0000) by (bit_vector);
}

impl From<u64> for PCIBarTarget {
    fn from(bits: u64) -> (r: PCIBarTarget)
        ensures
            r@ == bits,
    {
        PCIBarTarget(bits)
    }
}

impl vstd::std_specs::convert::FromSpecImpl<u64> for PCIBarTarget {
    open spec fn obeys_from_spec() -> bool {
        true
    }

    closed spec fn from_spec(bits: u64) -> PCIBarTarget {
        PCIBarTarget(bits)
    }
}

impl From<PCIBarTarget> for u64 {
    fn from(value: PCIBarTarget) -> u64 {
        value.0
    }
}

impl vstd::std_specs::convert::FromSpecImpl<PCIBarTarget> for u64 {
    open spec fn obeys_from_spec() -> bool {
        true
    }

    open spec fn from_spec(value: PCIBarTarget) -> u64 {
        value@
    }
}

/// The address space of a Generic Address Structure, with the address in it.
#[derive(Copy, Clone, Debug, PartialEq, Eq)]
pub enum AddressSpace {
    SystemMemory(u64),
    SystemIO(u64),
    PCIConfig(PCIConfigSpace),
    EmbeddedController(u64),
    SMBus(u64),
    SystemCmos(u64),
    PCIBarTarget(PCIBarTarget),
    IPMI(u64),
    GeneralPurposeIO(u64),
    GenericSerialBus(u64),
    PCC(u64),
    PRM(u64),
    /// A reserved address space id, 0x0C to 0x7E; it carries no address.
    Reserved(u8),
    FFIXEDHW(u64),
    /// A vendor-specific address space id, 0x80 to 0xFF, and the address.
    VendorSpecific((u8, u64)),
}

/// An address space id that ACPI reserves.
pub open spec fn is_reserved_space_id(id: u8) -> bool {
    0x0C <= id <= 0x7E
}

/// The ids of `Reserved` and `VendorSpecific` lie in their ranges.
pub open spec fn address_space_wf(a: AddressSpace) -> bool {
    match a {
        AddressSpace::Reserved(id) => is_reserved_space_id(id),
        AddressSpace::VendorSpecific((id, _)) => 0x80 <= id,
        _ => true,
    }
}

/// The address space id that encodes `a`.
pub open spec fn address_space_id(a: AddressSpace) -> u8 {
    match a {
        AddressSpace::SystemMemory(_) => 0x00,
        AddressSpace::SystemIO(_) => 0x01,
        AddressSpace::PCIConfig(_) => 0x02,
        AddressSpace::EmbeddedController(_) => 0x03,
        AddressSpace::SMBus(_) => 0x04,
        AddressSpace::SystemCmos(_) => 0x05,
        AddressSpace::PCIBarTarget(_) => 0x06,
        AddressSpace::IPMI(_) => 0x07,
        AddressSpace::GeneralPurposeIO(_) => 0x08,
        AddressSpace::GenericSerialBus(_) => 0x09,
        AddressSpace::PCC(_) => 0x0A,
        AddressSpace::PRM(_) => 0x0B,
        AddressSpace::Reserved(id) => id,
        AddressSpace::FFIXEDHW(_) => 0x7F,
        AddressSpace::VendorSpecific((id, _)) => id,
    }
}

/// The address field that encodes `a`; a reserved space encodes 0.
pub open spec fn address_space_address(a: AddressSpace) -> u64 {
    match a {
        AddressSpace::SystemMemory(address) => address,
        AddressSpace::SystemIO(address) => address,
        AddressSpace::PCIConfig(space) => space@,
        AddressSpace::EmbeddedController(address) => address,
        AddressSpace::SMBus(address) => address,
        AddressSpace::SystemCmos(address) => address,
        AddressSpace::PCIBarTarget(target) => target@,
        AddressSpace::IPMI(address) => address,
        AddressSpace::GeneralPurposeIO(address) => address,
        AddressSpace::GenericSerialBus(address) => address,
        AddressSpace::PCC(address) => address,
        AddressSpace::PRM(address) => address,
        AddressSpace::Reserved(_) => 0,
        AddressSpace::FFIXEDHW(address) => address,
        AddressSpace::VendorSpecific((_, address)) => address,
    }
}

/// The name of an address space, as ASL spells it.
pub open spec fn address_space_name(a: AddressSpace) -> Seq<char> {
    match a {
        AddressSpace::SystemMemory(_) => "SystemMemory"@,
        AddressSpace::SystemIO(_) => "SystemIO"@,
        AddressSpace::PCIConfig(_) => "PCI_Config"@,
        AddressSpace::EmbeddedController(_) => "EmbeddedControl"@,
        AddressSpace::SMBus(_) => "SMBus"@,
        AddressSpace::SystemCmos(_) => "SystemCMOS"@,
        AddressSpace::PCIBarTarget(_) => "PciBarTarget"@,
        AddressSpace::IPMI(_) => "IPMI"@,
        AddressSpace::GeneralPurposeIO(_) => "GeneralPurposeIO"@,
        AddressSpace::GenericSerialBus(_) => "GenericSerialBus"@,
        AddressSpace::PCC(_) => "PCC"@,
        AddressSpace::PRM(_) => "PRM"@,
        AddressSpace::Reserved(_) => "<reserved>"@,
        AddressSpace::FFIXEDHW(_) => "FFixedHW"@,
        AddressSpace::VendorSpecific(_) => "<vendor specific>"@,
    }
}

impl AddressSpace {
    /// The name of this address space.
    pub fn as_str(&self) -> (r: &str)
        ensures
            r@ == address_space_name(*self),
    {
        match self {
            AddressSpace::SystemMemory(_) => "SystemMemory",
            AddressSpace::SystemIO(_) => "SystemIO",
            AddressSpace::PCIConfig(_) => "PCI_Config",
            AddressSpace::EmbeddedController(_) => "EmbeddedControl",
            AddressSpace::SMBus(_) => "SMBus",
            AddressSpace::SystemCmos(_) => "SystemCMOS",
            AddressSpace::PCIBarTarget(_) => "PciBarTarget",
            AddressSpace::IPMI(_) => "IPMI",
            AddressSpace::GeneralPurposeIO(_) => "GeneralPurposeIO",
            AddressSpace::GenericSerialBus(_) => "GenericSerialBus",
            AddressSpace::PCC(_) => "PCC",
            AddressSpace::PRM(_) => "PRM",
            AddressSpace::Reserved(_) => "<reserved>",
            AddressSpace::FFIXEDHW(_) => "FFixedHW",
            AddressSpace::VendorSpecific(_) => "<vendor specific>",
        }
    }
}

/// A Generic Address Structure as ACPI tables store it: the raw fields, in
/// their order in memory.
#[derive(Copy, Clone, Debug, PartialEq, Eq, Structural)]
pub struct GenericAddressStructureInternal {
    pub address_space_id: u8,
    pub register_bit_width: u8,
    pub register_bit_offset: u8,
    pub access_size: u8,
    pub address: u64,
}

/// A decoded Generic Address Structure.
#[derive(Copy, Clone, Debug, PartialEq, Eq)]
pub struct GenericAddressStructure {
    pub address_space: AddressSpace,
    pub access_size: AccessSize,
    pub register_bit_width: u8,
    pub register_bit_offset: u8,
}

/// The raw fields that encode `g`.
pub open spec fn gas_to_internal(g: GenericAddressStructure) -> GenericAddressStructureInternal {
    GenericAddressStructureInternal {
        address_space_id: address_space_id(g.address_space),
        register_bit_width: g.register_bit_width,
        register_bit_offset: g.register_bit_offset,
        access_size: access_size_code(g.access_size),
        address: address_space_address(g.address_space),
    }
}

/// `g` is the decoding of the raw fields `v`: same id, width, offset and
/// access size, and the same address unless the id is reserved.
pub open spec fn gas_decodes(v: GenericAddressStructureInternal, g: GenericAddressStructure) -> bool {
    &&& address_space_wf(g.address_space)
    &&& address_space_id(g.address_space) == v.address_space_id
    &&& !is_reserved_space_id(v.address_space_id) ==> address_space_address(g.address_space)
        == v.address
    &&& access_size_code(g.access_size) == v.access_size
    &&& g.register_bit_width == v.register_bit_width
    &&& g.register_bit_offset == v.register_bit_offset
}

impl From<GenericAddressStructure> for GenericAddressStructureInternal {
    fn from(value: GenericAddressStructure) -> (r: GenericAddressStructureInternal)
        ensures
            r == gas_to_internal(value),
    {
        GenericAddressStructureInternal {
            address_space_id: match value.address_space {
                AddressSpace::SystemMemory(_) => 0x00,
                AddressSpace::SystemIO(_) => 0x01,
                AddressSpace::PCIConfig(_) => 0x02,
                AddressSpace::EmbeddedController(_) => 0x03,
                AddressSpace::SMBus(_) => 0x04,
                AddressSpace::SystemCmos(_) => 0x05,
                AddressSpace::PCIBarTarget(_) => 0x06,
                AddressSpace::IPMI(_) => 0x07,
                AddressSpace::GeneralPurposeIO(_) => 0x08,
                AddressSpace::GenericSerialBus(_) => 0x09,
                AddressSpace::PCC(_) => 0x0A,
                AddressSpace::PRM(_) => 0x0B,
                AddressSpace::Reserved(id) => id,
                AddressSpace::FFIXEDHW(_) => 0x7F,
                AddressSpace::VendorSpecific((id, _)) => id,
            },
            register_bit_width: value.register_bit_width,
            register_bit_offset: value.register_bit_offset,
            access_size: value.access_size.code(),
            address: match value.address_space {
                AddressSpace::SystemMemory(address) => address,
                AddressSpace::SystemIO(address) => address,
                AddressSpace::PCIConfig(space) => space.into_bits(),
                AddressSpace::EmbeddedController(address) => address,
                AddressSpace::SMBus(address) => address,
                AddressSpace::SystemCmos(address) => address,
                AddressSpace::PCIBarTarget(target) => target.into_bits(),
                AddressSpace::IPMI(address) => address,
                AddressSpace::GeneralPurposeIO(address) => address,
                AddressSpace::GenericSerialBus(address) => address,
                AddressSpace::PCC(address) => address,
                AddressSpace::PRM(address) => address,
                AddressSpace::Reserved(_) => 0,
                AddressSpace::FFIXEDHW(address) => address,
                AddressSpace::VendorSpecific((_, address)) => address,
            },
        }
    }
}

/// The raw Generic Address Structure stored in the twelve bytes of `s` at `off`.
pub open spec fn gas_stored_in(s: Seq<u8>, off: int) -> GenericAddressStructureInternal {
    GenericAddressStructureInternal {
        address_space_id: s[off],
        register_bit_width: s[off + 1],
        register_bit_offset: s[off + 2],
        access_size: s[off + 3],
        address: crate::tables::u64_le(s, off + 4) as u64,
    }
}

impl GenericAddressStructureInternal {
    /// Size in bytes of a stored Generic Address Structure.
    pub const LEN: usize = 12;

    /// Reads the Generic Address Structure stored at `off`.
    pub fn read(bytes: &[u8], off: usize) -> (r: GenericAddressStructureInternal)
        requires
            off + 12 <= bytes@.len(),
        ensures
            r == gas_stored_in(bytes@, off as int),
    {
        GenericAddressStructureInternal {
            address_space_id: bytes[off],
            register_bit_width: bytes[off + 1],
            register_bit_offset: bytes[off + 2],
            access_size: bytes[off + 3],
            address: crate::tables::read_u64_le(bytes, off + 4),
        }
    }
}

impl vstd::std_specs::convert::FromSpecImpl<GenericAddressStructure> for GenericAddressStructureInternal {
    open spec fn obeys_from_spec() -> bool {
        true
    }

    open spec fn from_spec(value: GenericAddressStructure) -> GenericAddressStructureInternal {
        gas_to_internal(value)
    }
}

impl GenericAddressStructure {
    /// Decodes the raw fields of a Generic Address Structure. Only the access
    /// sizes 0 to 4 are defined.
    pub fn from(value: GenericAddressStructureInternal) -> (r: GenericAddressStructure)
        requires
            value.access_size <= 4,
        ensures
            gas_decodes(value, r),
    {
        let id = value.address_space_id;
        let address = value.address;
        let address_space = if id == 0x00 {
            AddressSpace::SystemMemory(address)
        } else if id == 0x01 {
            AddressSpace::SystemIO(address)
        } else if id == 0x02 {
            AddressSpace::PCIConfig(PCIConfigSpace::from_bits(address))
        } else if id == 0x03 {
            AddressSpace::EmbeddedController(address)
        } else if id == 0x04 {
            AddressSpace::SMBus(address)
        } else if id == 0x05 {
            AddressSpace::SystemCmos(address)
        } else if id == 0x06 {
            AddressSpace::PCIBarTarget(PCIBarTarget::from_bits(address))
        } else if id == 0x07 {
            AddressSpace::IPMI(address)
        } else if id == 0x08 {
            AddressSpace::GeneralPurposeIO(address)
        } else if id == 0x09 {
            AddressSpace::GenericSerialBus(address)
        } else if id == 0x0A {
            AddressSpace::PCC(address)
        } else if id == 0x0B {
            AddressSpace::PRM(address)
        } else if id <= 0x7E {
            AddressSpace::Reserved(id)
        } else if id == 0x7F {
            AddressSpace::FFIXEDHW(address)
        } else {
            AddressSpace::VendorSpecific((id, address))
        };
        GenericAddressStructure {
            address_space,
            access_size: AccessSize::from(value.access_size),
            register_bit_width: value.register_bit_width,
            register_bit_offset: value.register_bit_offset,
        }
    }
}

/// Decoding what a well-formed structure encodes gives back that structure,
/// and the raw fields have one decoding at most.
pub proof fn lemma_gas_encode_decode(g: GenericAddressStructure, g2: GenericAddressStructure)
    requires
        address_space_wf(g.address_space),
    ensures
        gas_decodes(gas_to_internal(g), g),
        gas_decodes(gas_to_internal(g), g2) ==> g2 == g,
{
    if gas_decodes(gas_to_internal(g), g2) {
        lemma_decodings_agree(gas_to_internal(g), g, g2);
    }
}

/// Two decodings of the same raw fields are equal.
pub proof fn lemma_decodings_agree(
    v: GenericAddressStructureInternal,
    g1: GenericAddressStructure,
    g2: GenericAddressStructure,
)
    requires
        gas_decodes(v, g1),
        gas_decodes(v, g2),
    ensures
        g1 == g2,
{
    assert(g1.access_size == g2.access_size);
    match g1.address_space {
        AddressSpace::PCIConfig(p1) => {
            if let AddressSpace::PCIConfig(p2) = g2.address_space {
                assert(p1@ == p2@);
                assert(p1 == p2);
            }
        },
        AddressSpace::PCIBarTarget(p1) => {
            if let AddressSpace::PCIBarTarget(p2) = g2.address_space {
                assert(p1@ == p2@);
                assert(p1 == p2);
            }
        },
        _ => {},
    }
}

/// Encoding the decoding of raw fields gives back those fields, but for the
/// address of a reserved address space, which reads back as 0.
pub proof fn lemma_gas_decode_encode(v: GenericAddressStructureInternal, g: GenericAddressStructure)
    requires
        gas_decodes(v, g),
    ensures
        !is_reserved_space_id(v.address_space_id) ==> gas_to_internal(g) == v,
        is_reserved_space_id(v.address_space_id) ==> gas_to_internal(g) == (
        GenericAddressStructureInternal { address: 0, ..v }),
{
}

/// The address of a PCI function.
#[derive(Clone, Copy, PartialEq, Eq, PartialOrd, Ord, Debug, Structural)]
pub struct PCIAddress {
    pub segment: u16,
    pub bus: u8,
    pub device: u8,
    pub function: u8,
}

/// The type of an AML object.
#[derive(Clone, Copy, PartialEq, Eq, Debug, Structural)]
pub enum ObjectType {
    Uninitialized,
    Integer,
    String,
    Buffer,
    Package,
    FieldUnit,
    Device,
    Event,
    Method,
    Mutex,
    OperationRegion,
    PowerResource,
    Processor,
    ThermalZone,
    BufferField,
    Debug,
    Reference,
    BufferIndex,
}

/// The uACPI code of an object type.
pub open spec fn object_type_code(t: ObjectType) -> i32 {
    match t {
        ObjectType::Uninitialized => codes::UACPI_OBJECT_UNINITIALIZED,
        ObjectType::Integer => codes::UACPI_OBJECT_INTEGER,
        ObjectType::String => codes::UACPI_OBJECT_STRING,
        ObjectType::Buffer => codes::UACPI_OBJECT_BUFFER,
        ObjectType::Package => codes::UACPI_OBJECT_PACKAGE,
        ObjectType::FieldUnit => codes::UACPI_OBJECT_FIELD_UNIT,
        ObjectType::Device => codes::UACPI_OBJECT_DEVICE,
        ObjectType::Event => codes::UACPI_OBJECT_EVENT,
        ObjectType::Method => codes::UACPI_OBJECT_METHOD,
        ObjectType::Mutex => codes::UACPI_OBJECT_MUTEX,
        ObjectType::OperationRegion => codes::UACPI_OBJECT_OPERATION_REGION,
        ObjectType::PowerResource => codes::UACPI_OBJECT_POWER_RESOURCE,
        ObjectType::Processor => codes::UACPI_OBJECT_PROCESSOR,
        ObjectType::ThermalZone => codes::UACPI_OBJECT_THERMAL_ZONE,
        ObjectType::BufferField => codes::UACPI_OBJECT_BUFFER_FIELD,
        ObjectType::Debug => codes::UACPI_OBJECT_DEBUG,
        ObjectType::Reference => codes::UACPI_OBJECT_REFERENCE,
        ObjectType::BufferIndex => codes::UACPI_OBJECT_BUFFER_INDEX,
    }
}

/// A code of an object type: 0 to 14, 16, 20 or 21.
pub open spec fn is_object_type_code(value: i32) -> bool {
    ||| codes::UACPI_OBJECT_UNINITIALIZED <= value <= codes::UACPI_OBJECT_BUFFER_FIELD
    ||| value == codes::UACPI_OBJECT_DEBUG
    ||| value == codes::UACPI_OBJECT_REFERENCE
    ||| value == codes::UACPI_OBJECT_BUFFER_INDEX
}

/// The name of an object type.
pub open spec fn object_type_name(t: ObjectType) -> Seq<char> {
    match t {
        ObjectType::Uninitialized => "Uninitialized"@,
        ObjectType::Integer => "Integer"@,
        ObjectType::String => "String"@,
        ObjectType::Buffer => "Buffer"@,
        ObjectType::Package => "Package"@,
        ObjectType::FieldUnit => "Field Unit"@,
        ObjectType::Device => "Device"@,
        ObjectType::Event => "Event"@,
        ObjectType::Method => "Method"@,
        ObjectType::Mutex => "Mutex"@,
        ObjectType::OperationRegion => "Operation Region"@,
        ObjectType::PowerResource => "Power Resource"@,
        ObjectType::Processor => "Processor"@,
        ObjectType::ThermalZone => "Thermal Zone"@,
        ObjectType::BufferField => "Buffer Field"@,
        ObjectType::Debug => "Debug"@,
        ObjectType::Reference => "Reference"@,
        ObjectType::BufferIndex => "Buffer Index"@,
    }
}

impl ObjectType {
    /// The uACPI code of this object type.
    pub fn code(&self) -> (r: i32)
        ensures
            r == object_type_code(*self),
    {
        match self {
            ObjectType::Uninitialized => codes::UACPI_OBJECT_UNINITIALIZED,
            ObjectType::Integer => codes::UACPI_OBJECT_INTEGER,
            ObjectType::String => codes::UACPI_OBJECT_STRING,
            ObjectType::Buffer => codes::UACPI_OBJECT_BUFFER,
            ObjectType::Package => codes::UACPI_OBJECT_PACKAGE,
            ObjectType::FieldUnit => codes::UACPI_OBJECT_FIELD_UNIT,
            ObjectType::Device => codes::UACPI_OBJECT_DEVICE,
            ObjectType::Event => codes::UACPI_OBJECT_EVENT,
            ObjectType::Method => codes::UACPI_OBJECT_METHOD,
            ObjectType::Mutex => codes::UACPI_OBJECT_MUTEX,
            ObjectType::OperationRegion => codes::UACPI_OBJECT_OPERATION_REGION,
            ObjectType::PowerResource => codes::UACPI_OBJECT_POWER_RESOURCE,
            ObjectType::Processor => codes::UACPI_OBJECT_PROCESSOR,
            ObjectType::ThermalZone => codes::UACPI_OBJECT_THERMAL_ZONE,
            ObjectType::BufferField => codes::UACPI_OBJECT_BUFFER_FIELD,
            ObjectType::Debug => codes::UACPI_OBJECT_DEBUG,
            ObjectType::Reference => codes::UACPI_OBJECT_REFERENCE,
            ObjectType::BufferIndex => codes::UACPI_OBJECT_BUFFER_INDEX,
        }
    }

    /// The object type that uACPI reports as `value`; uACPI reports only the
    /// codes of its object types.
    pub fn from(value: i32) -> (r: ObjectType)
        requires
            is_object_type_code(value),
        ensures
            object_type_code(r) == value,
    {
        match value {
            codes::UACPI_OBJECT_UNINITIALIZED => ObjectType::Uninitialized,
            codes::UACPI_OBJECT_INTEGER => ObjectType::Integer,
            codes::UACPI_OBJECT_STRING => ObjectType::String,
            codes::UACPI_OBJECT_BUFFER => ObjectType::Buffer,
            codes::UACPI_OBJECT_PACKAGE => ObjectType::Package,
            codes::UACPI_OBJECT_FIELD_UNIT => ObjectType::FieldUnit,
            codes::UACPI_OBJECT_DEVICE => ObjectType::Device,
            codes::UACPI_OBJECT_EVENT => ObjectType::Event,
            codes::UACPI_OBJECT_METHOD => ObjectType::Method,
            codes::UACPI_OBJECT_MUTEX => ObjectType::Mutex,
            codes::UACPI_OBJECT_OPERATION_REGION => ObjectType::OperationRegion,
            codes::UACPI_OBJECT_POWER_RESOURCE => ObjectType::PowerResource,
            codes::UACPI_OBJECT_PROCESSOR => ObjectType::Processor,
            codes::UACPI_OBJECT_THERMAL_ZONE => ObjectType::ThermalZone,
            codes::UACPI_OBJECT_BUFFER_FIELD => ObjectType::BufferField,
            codes::UACPI_OBJECT_DEBUG => ObjectType::Debug,
            codes::UACPI_OBJECT_REFERENCE => ObjectType::Reference,
            _ => ObjectType::BufferIndex,
        }
    }

    /// The name of this object type.
    pub fn as_str(&self) -> (r: &'static str)
        ensures
            r@ == object_type_name(*self),
    {
        match self {
            ObjectType::Uninitialized => "Uninitialized",
            ObjectType::Integer => "Integer",
            ObjectType::String => "String",
            ObjectType::Buffer => "Buffer",
            ObjectType::Package => "Package",
            ObjectType::FieldUnit => "Field Unit",
            ObjectType::Device => "Device",
            ObjectType::Event => "Event",
            ObjectType::Method => "Method",
            ObjectType::Mutex => "Mutex",
            ObjectType::OperationRegion => "Operation Region",
            ObjectType::PowerResource => "Power Resource",
            ObjectType::Processor => "Processor",
            ObjectType::ThermalZone => "Thermal Zone",
            ObjectType::BufferField => "Buffer Field",
            ObjectType::Debug => "Debug",
            ObjectType::Reference => "Reference",
            ObjectType::BufferIndex => "Buffer Index",
        }
    }
}

/// A set of object types, as the bit mask that uACPI takes.
#[derive(Clone, Copy, PartialEq, Eq, Debug, Structural)]
pub enum ObjectTypeBits {
    Empty,
    Integer,
    String,
    Buffer,
    Package,
    FieldUnit,
    Device,
    Event,
    Method,
    Mutex,
    OperationRegion,
    PowerResource,
    Processor,
    ThermalZone,
    BufferField,
    Debug,
    Reference,
    BufferIndex,
    Any,
}

/// The mask of a set of object types: bit `n` stands for the type whose code is `n`.
pub open spec fn object_type_bits_value(b: ObjectTypeBits) -> i32 {
    match b {
        ObjectTypeBits::Empty => 0,
        ObjectTypeBits::Integer => 0x2,
        ObjectTypeBits::String => 0x4,
        ObjectTypeBits::Buffer => 0x8,
        ObjectTypeBits::Package => 0x10,
        ObjectTypeBits::FieldUnit => 0x20,
        ObjectTypeBits::Device => 0x40,
        ObjectTypeBits::Event => 0x80,
        ObjectTypeBits::Method => 0x100,
        ObjectTypeBits::Mutex => 0x200,
        ObjectTypeBits::OperationRegion => 0x400,
        ObjectTypeBits::PowerResource => 0x800,
        ObjectTypeBits::Processor => 0x1000,
        ObjectTypeBits::ThermalZone => 0x2000,
        ObjectTypeBits::BufferField => 0x4000,
        ObjectTypeBits::Debug => 0x10000,
        ObjectTypeBits::Reference => 0x100000,
        ObjectTypeBits::BufferIndex => 0x200000,
        ObjectTypeBits::Any => -1i32,
    }
}

impl ObjectTypeBits {
    /// The mask of this set of object types.
    pub fn bits(&self) -> (r: i32)
        ensures
            r == object_type_bits_value(*self),
    {
        match self {
            ObjectTypeBits::Empty => 0,
            ObjectTypeBits::Integer => 0x2,
            ObjectTypeBits::String => 0x4,
            ObjectTypeBits::Buffer => 0x8,
            ObjectTypeBits::Package => 0x10,
            ObjectTypeBits::FieldUnit => 0x20,
            ObjectTypeBits::Device => 0x40,
            ObjectTypeBits::Event => 0x80,
            ObjectTypeBits::Method => 0x100,
            ObjectTypeBits::Mutex => 0x200,
            ObjectTypeBits::OperationRegion => 0x400,
            ObjectTypeBits::PowerResource => 0x800,
            ObjectTypeBits::Processor => 0x1000,
            ObjectTypeBits::ThermalZone => 0x2000,
            ObjectTypeBits::BufferField => 0x4000,
            ObjectTypeBits::Debug => 0x10000,
            ObjectTypeBits::Reference => 0x100000,
            ObjectTypeBits::BufferIndex => 0x200000,
            ObjectTypeBits::Any => -1,
        }
    }

    /// The set that holds the one object type `value`; there is none for
    /// `Uninitialized`, whose bit is not a variant.
    pub fn from(value: ObjectType) -> (r: ObjectTypeBits)
        requires
            value != ObjectType::Uninitialized,
        ensures
            object_type_bits_value(r) == vstd::arithmetic::power2::pow2(
                object_type_code(value) as nat,
            ),
    {
        proof {
            vstd::arithmetic::power2::lemma2_to64();
        }
        match value {
            ObjectType::Integer => ObjectTypeBits::Integer,
            ObjectType::String => ObjectTypeBits::String,
            ObjectType::Buffer => ObjectTypeBits::Buffer,
            ObjectType::Package => ObjectTypeBits::Package,
            ObjectType::FieldUnit => ObjectTypeBits::FieldUnit,
            ObjectType::Device => ObjectTypeBits::Device,
            ObjectType::Event => ObjectTypeBits::Event,
            ObjectType::Method => ObjectTypeBits::Method,
            ObjectType::Mutex => ObjectTypeBits::Mutex,
            ObjectType::OperationRegion => ObjectTypeBits::OperationRegion,
            ObjectType::PowerResource => ObjectTypeBits::PowerResource,
            ObjectType::Processor => ObjectTypeBits::Processor,
            ObjectType::ThermalZone => ObjectTypeBits::ThermalZone,
            ObjectType::BufferField => ObjectTypeBits::BufferField,
            ObjectType::Debug => ObjectTypeBits::Debug,
            ObjectType::Reference => ObjectTypeBits::Reference,
            ObjectType::BufferIndex => ObjectTypeBits::BufferIndex,
            ObjectType::Uninitialized => ObjectTypeBits::Empty,
        }
    }
}

/// What uACPI does with an integer that does not fit the width of the running AML.
#[derive(Clone, Copy, PartialEq, Eq, Debug, Structural)]
pub enum OverflowBehavior {
    Allow,
    Truncate,
    Disallow,
}

/// The uACPI code of an overflow behavior.
pub open spec fn overflow_behavior_code(v: OverflowBehavior) -> i32 {
    match v {
        OverflowBehavior::Allow => codes::UACPI_OVERFLOW_ALLOW,
        OverflowBehavior::Truncate => codes::UACPI_OVERFLOW_TRUNCATE,
        OverflowBehavior::Disallow => codes::UACPI_OVERFLOW_DISALLOW,
    }
}

impl OverflowBehavior {
    /// The uACPI code of this value.
    pub fn code(&self) -> (r: i32)
        ensures
            r == overflow_behavior_code(*self),
    {
        match self {
            OverflowBehavior::Allow => codes::UACPI_OVERFLOW_ALLOW,
            OverflowBehavior::Truncate => codes::UACPI_OVERFLOW_TRUNCATE,
            OverflowBehavior::Disallow => codes::UACPI_OVERFLOW_DISALLOW,
        }
    }
}

impl From<OverflowBehavior> for i32 {
    fn from(value: OverflowBehavior) -> (r: i32)
        ensures
            r == overflow_behavior_code(value),
    {
        value.code()
    }
}

impl vstd::std_specs::convert::FromSpecImpl<OverflowBehavior> for i32 {
    open spec fn obeys_from_spec() -> bool {
        true
    }

    open spec fn from_spec(value: OverflowBehavior) -> i32 {
        overflow_behavior_code(value)
    }
}

/// What the `_PR` processor object of AML declares.
#[derive(Debug, Copy, Clone)]
pub struct ProcessorInfo {
    pub id: u8,
    pub block_address: u32,
    pub block_length: u8,
}

/// What an AML power resource object declares.
#[derive(Debug, Copy, Clone)]
pub struct PowerResourceInfo {
    pub system_level: u8,
    pub resource_order: u16,
}

/// An operation that uACPI asks of an address space handler.
#[derive(Clone, Copy, PartialEq, Eq, Debug, Structural)]
pub enum RegionOp {
    Attach,
    Detach,
    Read,
    Write,
    PccSend,
    GPIORead,
    GPIOWrite,
    IPMICommand,
    FFIXEDHWCommand,
    PRMCommand,
    SerialRead,
    SerialWrite,
}

/// The uACPI code of a region operation.
pub open spec fn region_op_code(v: RegionOp) -> i32 {
    match v {
        RegionOp::Attach => codes::UACPI_REGION_OP_ATTACH,
        RegionOp::Detach => codes::UACPI_REGION_OP_DETACH,
        RegionOp::Read => codes::UACPI_REGION_OP_READ,
        RegionOp::Write => codes::UACPI_REGION_OP_WRITE,
        RegionOp::PccSend => codes::UACPI_REGION_OP_PCC_SEND,
        RegionOp::GPIORead => codes::UACPI_REGION_OP_GPIO_READ,
        RegionOp::GPIOWrite => codes::UACPI_REGION_OP_GPIO_WRITE,
        RegionOp::IPMICommand => codes::UACPI_REGION_OP_IPMI_COMMAND,
        RegionOp::FFIXEDHWCommand => codes::UACPI_REGION_OP_FFIXEDHW_COMMAND,
        RegionOp::PRMCommand => codes::UACPI_REGION_OP_PRM_COMMAND,
        RegionOp::SerialRead => codes::UACPI_REGION_OP_SERIAL_READ,
        RegionOp::SerialWrite => codes::UACPI_REGION_OP_SERIAL_WRITE,
    }
}

impl RegionOp {
    /// The uACPI code of this value.
    pub fn code(&self) -> (r: i32)
        ensures
            r == region_op_code(*self),
    {
        match self {
            RegionOp::Attach => codes::UACPI_REGION_OP_ATTACH,
            RegionOp::Detach => codes::UACPI_REGION_OP_DETACH,
            RegionOp::Read => codes::UACPI_REGION_OP_READ,
            RegionOp::Write => codes::UACPI_REGION_OP_WRITE,
            RegionOp::PccSend => codes::UACPI_REGION_OP_PCC_SEND,
            RegionOp::GPIORead => codes::UACPI_REGION_OP_GPIO_READ,
            RegionOp::GPIOWrite => codes::UACPI_REGION_OP_GPIO_WRITE,
            RegionOp::IPMICommand => codes::UACPI_REGION_OP_IPMI_COMMAND,
            RegionOp::FFIXEDHWCommand => codes::UACPI_REGION_OP_FFIXEDHW_COMMAND,
            RegionOp::PRMCommand => codes::UACPI_REGION_OP_PRM_COMMAND,
            RegionOp::SerialRead => codes::UACPI_REGION_OP_SERIAL_READ,
            RegionOp::SerialWrite => codes::UACPI_REGION_OP_SERIAL_WRITE,
        }
    }

    /// The operation that uACPI passes as `value`; uACPI passes only the codes of its operations.
    pub fn from(value: i32) -> (r: RegionOp)
        requires
            codes::UACPI_REGION_OP_ATTACH <= value <= codes::UACPI_REGION_OP_SERIAL_WRITE,
        ensures
            region_op_code(r) == value,
    {
        match value {
            codes::UACPI_REGION_OP_ATTACH => RegionOp::Attach,
            codes::UACPI_REGION_OP_DETACH => RegionOp::Detach,
            codes::UACPI_REGION_OP_READ => RegionOp::Read,
            codes::UACPI_REGION_OP_WRITE => RegionOp::Write,
            codes::UACPI_REGION_OP_PCC_SEND => RegionOp::PccSend,
            codes::UACPI_REGION_OP_GPIO_READ => RegionOp::GPIORead,
            codes::UACPI_REGION_OP_GPIO_WRITE => RegionOp::GPIOWrite,
            codes::UACPI_REGION_OP_IPMI_COMMAND => RegionOp::IPMICommand,
            codes::UACPI_REGION_OP_FFIXEDHW_COMMAND => RegionOp::FFIXEDHWCommand,
            codes::UACPI_REGION_OP_PRM_COMMAND => RegionOp::PRMCommand,
            codes::UACPI_REGION_OP_SERIAL_READ => RegionOp::SerialRead,
            _ => RegionOp::SerialWrite,
        }
    }
}

/// The access attribute of a GenericSerialBus field.
#[derive(Clone, Copy, PartialEq, Eq, Debug, Structural)]
pub enum AccessAttribute {
    Quick,
    SendReceive,
    Byte,
    Word,
    Block,
    Bytes,
    ProcessCall,
    BlockProcessCall,
    RawBytes,
    RawProcessBytes,
}

/// The uACPI code of an access attribute.
pub open spec fn access_attribute_code(v: AccessAttribute) -> i32 {
    match v {
        AccessAttribute::Quick => codes::UACPI_ACCESS_ATTRIBUTE_QUICK,
        AccessAttribute::SendReceive => codes::UACPI_ACCESS_ATTRIBUTE_SEND_RECEIVE,
        AccessAttribute::Byte => codes::UACPI_ACCESS_ATTRIBUTE_BYTE,
        AccessAttribute::Word => codes::UACPI_ACCESS_ATTRIBUTE_WORD,
        AccessAttribute::Block => codes::UACPI_ACCESS_ATTRIBUTE_BLOCK,
        AccessAttribute::Bytes => codes::UACPI_ACCESS_ATTRIBUTE_BYTES,
        AccessAttribute::ProcessCall => codes::UACPI_ACCESS_ATTRIBUTE_PROCESS_CALL,
        AccessAttribute::BlockProcessCall => codes::UACPI_ACCESS_ATTRIBUTE_BLOCK_PROCESS_CALL,
        AccessAttribute::RawBytes => codes::UACPI_ACCESS_ATTRIBUTE_RAW_BYTES,
        AccessAttribute::RawProcessBytes => codes::UACPI_ACCESS_ATTRIBUTE_RAW_PROCESS_BYTES,
    }
}

impl AccessAttribute {
    /// The uACPI code of this value.
    pub fn code(&self) -> (r: i32)
        ensures
            r == access_attribute_code(*self),
    {
        match self {
            AccessAttribute::Quick => codes::UACPI_ACCESS_ATTRIBUTE_QUICK,
            AccessAttribute::SendReceive => codes::UACPI_ACCESS_ATTRIBUTE_SEND_RECEIVE,
            AccessAttribute::Byte => codes::UACPI_ACCESS_ATTRIBUTE_BYTE,
            AccessAttribute::Word => codes::UACPI_ACCESS_ATTRIBUTE_WORD,
            AccessAttribute::Block => codes::UACPI_ACCESS_ATTRIBUTE_BLOCK,
            AccessAttribute::Bytes => codes::UACPI_ACCESS_ATTRIBUTE_BYTES,
            AccessAttribute::ProcessCall => codes::UACPI_ACCESS_ATTRIBUTE_PROCESS_CALL,
            AccessAttribute::BlockProcessCall => codes::UACPI_ACCESS_ATTRIBUTE_BLOCK_PROCESS_CALL,
            AccessAttribute::RawBytes => codes::UACPI_ACCESS_ATTRIBUTE_RAW_BYTES,
            AccessAttribute::RawProcessBytes => codes::UACPI_ACCESS_ATTRIBUTE_RAW_PROCESS_BYTES,
        }
    }
}

/// The kind of a request that AML makes of the firmware.
#[derive(Clone, Copy, PartialEq, Eq, Debug, Structural)]
pub enum FirmwareRequestType {
    Breackpoint,
    Fatal,
}

/// The uACPI code of a firmware request type.
pub open spec fn firmware_request_type_code(v: FirmwareRequestType) -> i32 {
    match v {
        FirmwareRequestType::Breackpoint => codes::UACPI_FIRMWARE_REQUEST_TYPE_BREAKPOINT,
        FirmwareRequestType::Fatal => codes::UACPI_FIRMWARE_REQUEST_TYPE_FATAL,
    }
}

impl FirmwareRequestType {
    /// The uACPI code of this value.
    pub fn code(&self) -> (r: i32)
        ensures
            r == firmware_request_type_code(*self),
    {
        match self {
            FirmwareRequestType::Breackpoint => codes::UACPI_FIRMWARE_REQUEST_TYPE_BREAKPOINT,
            FirmwareRequestType::Fatal => codes::UACPI_FIRMWARE_REQUEST_TYPE_FATAL,
        }
    }
}

/// Whether an interrupt handler took care of an interrupt.
#[derive(Clone, Copy, PartialEq, Eq, Debug, Structural)]
pub enum InterruptRet {
    NotHandled,
    Handled,
}

/// The uACPI code of an interrupt result.
pub open spec fn interrupt_ret_code(v: InterruptRet) -> u32 {
    match v {
        InterruptRet::NotHandled => codes::UACPI_INTERRUPT_NOT_HANDLED,
        InterruptRet::Handled => codes::UACPI_INTERRUPT_HANDLED,
    }
}

impl InterruptRet {
    /// The uACPI code of this value.
    pub fn code(&self) -> (r: u32)
        ensures
            r == interrupt_ret_code(*self),
    {
        match self {
            InterruptRet::NotHandled => codes::UACPI_INTERRUPT_NOT_HANDLED,
            InterruptRet::Handled => codes::UACPI_INTERRUPT_HANDLED,
        }
    }
}

/// How a walk of the namespace goes on after a node; `NextPeer` applies only to walks over the children of a node.
#[derive(Clone, Copy, PartialEq, Eq, Debug, Structural)]
pub enum IterationDecision {
    Continue,
    Break,
    NextPeer,
}

/// The uACPI code of an iteration decision.
pub open spec fn iteration_decision_code(v: IterationDecision) -> i32 {
    match v {
        IterationDecision::Continue => codes::UACPI_ITERATION_DECISION_CONTINUE,
        IterationDecision::Break => codes::UACPI_ITERATION_DECISION_BREAK,
        IterationDecision::NextPeer => codes::UACPI_ITERATION_DECISION_NEXT_PEER,
    }
}

impl IterationDecision {
    /// The uACPI code of this value.
    pub fn code(&self) -> (r: i32)
        ensures
            r == iteration_decision_code(*self),
    {
        match self {
            IterationDecision::Continue => codes::UACPI_ITERATION_DECISION_CONTINUE,
            IterationDecision::Break => codes::UACPI_ITERATION_DECISION_BREAK,
            IterationDecision::NextPeer => codes::UACPI_ITERATION_DECISION_NEXT_PEER,
        }
    }
}


/// Decoding the code of a log level gives it back: no two have the same code.
pub proof fn lemma_log_level_code_injective(a: LogLevel, b: LogLevel)
    ensures
        log_level_code(a) == log_level_code(b) ==> a == b,
{
}

/// Decoding the code of an init level gives it back: no two have the same code.
pub proof fn lemma_init_level_code_injective(a: InitLevel, b: InitLevel)
    ensures
        init_level_code(a) == init_level_code(b) ==> a == b,
{
}

/// Decoding the code of an access size gives it back: no two have the same code.
pub proof fn lemma_access_size_code_injective(a: AccessSize, b: AccessSize)
    ensures
        access_size_code(a) == access_size_code(b) ==> a == b,
{
}

/// Decoding the code of an object type gives it back: no two have the same code.
pub proof fn lemma_object_type_code_injective(a: ObjectType, b: ObjectType)
    ensures
        object_type_code(a) == object_type_code(b) ==> a == b,
{
}

/// Decoding the code of a region operation gives it back: no two have the same code.
pub proof fn lemma_region_op_code_injective(a: RegionOp, b: RegionOp)
    ensures
        region_op_code(a) == region_op_code(b) ==> a == b,
{
}

/// Each log level has uACPI's code: error 1, warn 2, info 3, trace 4, debug 5.
pub proof fn lemma_log_level_code_values(v: LogLevel)
    ensures
        (v == LogLevel::Error) == (log_level_code(v) == 1),
        (v == LogLevel::Warn) == (log_level_code(v) == 2),
        (v == LogLevel::Info) == (log_level_code(v) == 3),
        (v == LogLevel::Trace) == (log_level_code(v) == 4),
        (v == LogLevel::Debug) == (log_level_code(v) == 5),
{
}

/// Each init level has uACPI's code, 0 to 3 in the order of initialisation.
pub proof fn lemma_init_level_code_values(v: InitLevel)
    ensures
        (v == InitLevel::Early) == (init_level_code(v) == 0),
        (v == InitLevel::SubsystemInitialized) == (init_level_code(v) == 1),
        (v == InitLevel::NamespaceLoaded) == (init_level_code(v) == 2),
        (v == InitLevel::NamespaceInitialized) == (init_level_code(v) == 3),
{
}

/// Each access size has its ACPI encoding: undefined 0, byte 1, word 2, dword 3, qword 4.
pub proof fn lemma_access_size_code_values(v: AccessSize)
    ensures
        (v == AccessSize::Undefined) == (access_size_code(v) == 0),
        (v == AccessSize::Byte) == (access_size_code(v) == 1),
        (v == AccessSize::Word) == (access_size_code(v) == 2),
        (v == AccessSize::DWord) == (access_size_code(v) == 3),
        (v == AccessSize::QWord) == (access_size_code(v) == 4),
{
}

/// Each object type has the code of the uACPI object type of the same name.
pub proof fn lemma_object_type_code_values(t: ObjectType)
    ensures
        (t == ObjectType::Uninitialized) == (object_type_code(t) == 0),
        (t == ObjectType::Integer) == (object_type_code(t) == 1),
        (t == ObjectType::String) == (object_type_code(t) == 2),
        (t == ObjectType::Buffer) == (object_type_code(t) == 3),
        (t == ObjectType::Package) == (object_type_code(t) == 4),
        (t == ObjectType::FieldUnit) == (object_type_code(t) == 5),
        (t == ObjectType::Device) == (object_type_code(t) == 6),
        (t == ObjectType::Event) == (object_type_code(t) == 7),
        (t == ObjectType::Method) == (object_type_code(t) == 8),
        (t == ObjectType::Mutex) == (object_type_code(t) == 9),
        (t == ObjectType::OperationRegion) == (object_type_code(t) == 10),
        (t == ObjectType::PowerResource) == (object_type_code(t) == 11),
        (t == ObjectType::Processor) == (object_type_code(t) == 12),
        (t == ObjectType::ThermalZone) == (object_type_code(t) == 13),
        (t == ObjectType::BufferField) == (object_type_code(t) == 14),
        (t == ObjectType::Debug) == (object_type_code(t) == 16),
        (t == ObjectType::Reference) == (object_type_code(t) == 20),
        (t == ObjectType::BufferIndex) == (object_type_code(t) == 21),
{
}

/// The name of each object type.
pub proof fn lemma_object_type_name_values(t: ObjectType)
    ensures
        t == ObjectType::Uninitialized ==> object_type_name(t) == "Uninitialized"@,
        t == ObjectType::Integer ==> object_type_name(t) == "Integer"@,
        t == ObjectType::String ==> object_type_name(t) == "String"@,
        t == ObjectType::Buffer ==> object_type_name(t) == "Buffer"@,
        t == ObjectType::Package ==> object_type_name(t) == "Package"@,
        t == ObjectType::FieldUnit ==> object_type_name(t) == "Field Unit"@,
        t == ObjectType::Device ==> object_type_name(t) == "Device"@,
        t == ObjectType::Event ==> object_type_name(t) == "Event"@,
        t == ObjectType::Method ==> object_type_name(t) == "Method"@,
        t == ObjectType::Mutex ==> object_type_name(t) == "Mutex"@,
        t == ObjectType::OperationRegion ==> object_type_name(t) == "Operation Region"@,
        t == ObjectType::PowerResource ==> object_type_name(t) == "Power Resource"@,
        t == ObjectType::Processor ==> object_type_name(t) == "Processor"@,
        t == ObjectType::ThermalZone ==> object_type_name(t) == "Thermal Zone"@,
        t == ObjectType::BufferField ==> object_type_name(t) == "Buffer Field"@,
        t == ObjectType::Debug ==> object_type_name(t) == "Debug"@,
        t == ObjectType::Reference ==> object_type_name(t) == "Reference"@,
        t == ObjectType::BufferIndex ==> object_type_name(t) == "Buffer Index"@,
{
}

/// The mask of each set holds exactly the bit of its object type's uACPI code; the empty set is 0 and the set of all types is -1.
pub proof fn lemma_object_type_bits_values(b: ObjectTypeBits)
    ensures
        (b == ObjectTypeBits::Empty) == (object_type_bits_value(b) == 0),
        (b == ObjectTypeBits::Integer) == (object_type_bits_value(b) == 0x2),
        (b == ObjectTypeBits::String) == (object_type_bits_value(b) == 0x4),
        (b == ObjectTypeBits::Buffer) == (object_type_bits_value(b) == 0x8),
        (b == ObjectTypeBits::Package) == (object_type_bits_value(b) == 0x10),
        (b == ObjectTypeBits::FieldUnit) == (object_type_bits_value(b) == 0x20),
        (b == ObjectTypeBits::Device) == (object_type_bits_value(b) == 0x40),
        (b == ObjectTypeBits::Event) == (object_type_bits_value(b) == 0x80),
        (b == ObjectTypeBits::Method) == (object_type_bits_value(b) == 0x100),
        (b == ObjectTypeBits::Mutex) == (object_type_bits_value(b) == 0x200),
        (b == ObjectTypeBits::OperationRegion) == (object_type_bits_value(b) == 0x400),
        (b == ObjectTypeBits::PowerResource) == (object_type_bits_value(b) == 0x800),
        (b == ObjectTypeBits::Processor) == (object_type_bits_value(b) == 0x1000),
        (b == ObjectTypeBits::ThermalZone) == (object_type_bits_value(b) == 0x2000),
        (b == ObjectTypeBits::BufferField) == (object_type_bits_value(b) == 0x4000),
        (b == ObjectTypeBits::Debug) == (object_type_bits_value(b) == 0x10000),
        (b == ObjectTypeBits::Reference) == (object_type_bits_value(b) == 0x100000),
        (b == ObjectTypeBits::BufferIndex) == (object_type_bits_value(b) == 0x200000),
        (b == ObjectTypeBits::Any) == (object_type_bits_value(b) == -1),
{
}

/// The mask of the set that `ObjectTypeBits::from` gives for a type is the
/// bit of that type's uACPI code.
pub proof fn lemma_object_type_bits_of_type(t: ObjectType, b: ObjectTypeBits)
    requires
        t != ObjectType::Uninitialized,
        object_type_bits_value(b) == vstd::arithmetic::power2::pow2(object_type_code(t) as nat),
    ensures
        t == ObjectType::Integer ==> b == ObjectTypeBits::Integer,
        t == ObjectType::String ==> b == ObjectTypeBits::String,
        t == ObjectType::Buffer ==> b == ObjectTypeBits::Buffer,
        t == ObjectType::Package ==> b == ObjectTypeBits::Package,
        t == ObjectType::FieldUnit ==> b == ObjectTypeBits::FieldUnit,
        t == ObjectType::Device ==> b == ObjectTypeBits::Device,
        t == ObjectType::Event ==> b == ObjectTypeBits::Event,
        t == ObjectType::Method ==> b == ObjectTypeBits::Method,
        t == ObjectType::Mutex ==> b == ObjectTypeBits::Mutex,
        t == ObjectType::OperationRegion ==> b == ObjectTypeBits::OperationRegion,
        t == ObjectType::PowerResource ==> b == ObjectTypeBits::PowerResource,
        t == ObjectType::Processor ==> b == ObjectTypeBits::Processor,
        t == ObjectType::ThermalZone ==> b == ObjectTypeBits::ThermalZone,
        t == ObjectType::BufferField ==> b == ObjectTypeBits::BufferField,
        t == ObjectType::Debug ==> b == ObjectTypeBits::Debug,
        t == ObjectType::Reference ==> b == ObjectTypeBits::Reference,
        t == ObjectType::BufferIndex ==> b == ObjectTypeBits::BufferIndex,
{
    vstd::arithmetic::power2::lemma2_to64();
    lemma_object_type_code_values(t);
    lemma_object_type_bits_values(b);
}

/// Each overflow behavior has uACPI's code: allow 0, truncate 1, disallow 2.
pub proof fn lemma_overflow_behavior_code_values(v: OverflowBehavior)
    ensures
        (v == OverflowBehavior::Allow) == (overflow_behavior_code(v) == 0),
        (v == OverflowBehavior::Truncate) == (overflow_behavior_code(v) == 1),
        (v == OverflowBehavior::Disallow) == (overflow_behavior_code(v) == 2),
{
}

/// Each region operation has the code of the uACPI operation of the same name.
pub proof fn lemma_region_op_code_values(v: RegionOp)
    ensures
        (v == RegionOp::Attach) == (region_op_code(v) == 0),
        (v == RegionOp::Read) == (region_op_code(v) == 1),
        (v == RegionOp::Write) == (region_op_code(v) == 2),
        (v == RegionOp::Detach) == (region_op_code(v) == 3),
        (v == RegionOp::PccSend) == (region_op_code(v) == 4),
        (v == RegionOp::GPIORead) == (region_op_code(v) == 5),
        (v == RegionOp::GPIOWrite) == (region_op_code(v) == 6),
        (v == RegionOp::IPMICommand) == (region_op_code(v) == 7),
        (v == RegionOp::FFIXEDHWCommand) == (region_op_code(v) == 8),
        (v == RegionOp::PRMCommand) == (region_op_code(v) == 9),
        (v == RegionOp::SerialRead) == (region_op_code(v) == 10),
        (v == RegionOp::SerialWrite) == (region_op_code(v) == 11),
{
}

/// Each access attribute has its ACPI encoding.
pub proof fn lemma_access_attribute_code_values(v: AccessAttribute)
    ensures
        (v == AccessAttribute::Quick) == (access_attribute_code(v) == 0x02),
        (v == AccessAttribute::SendReceive) == (access_attribute_code(v) == 0x04),
        (v == AccessAttribute::Byte) == (access_attribute_code(v) == 0x06),
        (v == AccessAttribute::Word) == (access_attribute_code(v) == 0x08),
        (v == AccessAttribute::Block) == (access_attribute_code(v) == 0x0A),
        (v == AccessAttribute::Bytes) == (access_attribute_code(v) == 0x0B),
        (v == AccessAttribute::ProcessCall) == (access_attribute_code(v) == 0x0C),
        (v == AccessAttribute::BlockProcessCall) == (access_attribute_code(v) == 0x0D),
        (v == AccessAttribute::RawBytes) == (access_attribute_code(v) == 0x0E),
        (v == AccessAttribute::RawProcessBytes) == (access_attribute_code(v) == 0x0F),
{
}

/// A breakpoint request is 0 and a fatal request 1.
pub proof fn lemma_firmware_request_type_code_values(v: FirmwareRequestType)
    ensures
        (v == FirmwareRequestType::Breackpoint) == (firmware_request_type_code(v) == 0),
        (v == FirmwareRequestType::Fatal) == (firmware_request_type_code(v) == 1),
{
}

/// Not handled is 0 and handled 1.
pub proof fn lemma_interrupt_ret_code_values(v: InterruptRet)
    ensures
        (v == InterruptRet::NotHandled) == (interrupt_ret_code(v) == 0),
        (v == InterruptRet::Handled) == (interrupt_ret_code(v) == 1),
{
}

/// Continue is 0, break 1 and next peer 2, as in uACPI.
pub proof fn lemma_iteration_decision_code_values(v: IterationDecision)
    ensures
        (v == IterationDecision::Continue) == (iteration_decision_code(v) == 0),
        (v == IterationDecision::Break) == (iteration_decision_code(v) == 1),
        (v == IterationDecision::NextPeer) == (iteration_decision_code(v) == 2),
{
}

/// The address space id of each named address space is the one the ACPI
/// specification gives it, and the name of each is ASL's; ids 0x0C to 0x7E
/// are reserved and 0x80 up are vendor specific.
pub proof fn lemma_address_space_ids(a: AddressSpace)
    requires
        address_space_wf(a),
    ensures
        (a is SystemMemory) == (address_space_id(a) == 0x00),
        (a is SystemIO) == (address_space_id(a) == 0x01),
        (a is PCIConfig) == (address_space_id(a) == 0x02),
        (a is EmbeddedController) == (address_space_id(a) == 0x03),
        (a is SMBus) == (address_space_id(a) == 0x04),
        (a is SystemCmos) == (address_space_id(a) == 0x05),
        (a is PCIBarTarget) == (address_space_id(a) == 0x06),
        (a is IPMI) == (address_space_id(a) == 0x07),
        (a is GeneralPurposeIO) == (address_space_id(a) == 0x08),
        (a is GenericSerialBus) == (address_space_id(a) == 0x09),
        (a is PCC) == (address_space_id(a) == 0x0A),
        (a is PRM) == (address_space_id(a) == 0x0B),
        (a is FFIXEDHW) == (address_space_id(a) == 0x7F),
        a is SystemMemory ==> address_space_name(a) == "SystemMemory"@,
        a is SystemIO ==> address_space_name(a) == "SystemIO"@,
        a is PCIConfig ==> address_space_name(a) == "PCI_Config"@,
        a is EmbeddedController ==> address_space_name(a) == "EmbeddedControl"@,
        a is SMBus ==> address_space_name(a) == "SMBus"@,
        a is SystemCmos ==> address_space_name(a) == "SystemCMOS"@,
        a is PCIBarTarget ==> address_space_name(a) == "PciBarTarget"@,
        a is IPMI ==> address_space_name(a) == "IPMI"@,
        a is GeneralPurposeIO ==> address_space_name(a) == "GeneralPurposeIO"@,
        a is GenericSerialBus ==> address_space_name(a) == "GenericSerialBus"@,
        a is PCC ==> address_space_name(a) == "PCC"@,
        a is PRM ==> address_space_name(a) == "PRM"@,
        a is FFIXEDHW ==> address_space_name(a) == "FFixedHW"@,
        (a is Reserved) == is_reserved_space_id(address_space_id(a)),
        a is Reserved ==> address_space_name(a) == "<reserved>"@,
        (a is VendorSpecific) == (0x80 <= address_space_id(a)),
        a is VendorSpecific ==> address_space_name(a) == "<vendor specific>"@,
{
}

/// Decoding raw fields gives the address space that the ACPI specification
/// names by the id, carrying the address; a reserved id carries only the id,
/// a vendor-specific one the id and the address.
pub proof fn lemma_gas_decode_spaces(v: GenericAddressStructureInternal, g: GenericAddressStructure)
    requires
        gas_decodes(v, g),
    ensures
        v.address_space_id == 0x00 ==> g.address_space == AddressSpace::SystemMemory(v.address),
        v.address_space_id == 0x01 ==> g.address_space == AddressSpace::SystemIO(v.address),
        v.address_space_id == 0x02 ==> (g.address_space matches AddressSpace::PCIConfig(p) && p@ == v.address),
        v.address_space_id == 0x03 ==> g.address_space == AddressSpace::EmbeddedController(v.address),
        v.address_space_id == 0x04 ==> g.address_space == AddressSpace::SMBus(v.address),
        v.address_space_id == 0x05 ==> g.address_space == AddressSpace::SystemCmos(v.address),
        v.address_space_id == 0x06 ==> (g.address_space matches AddressSpace::PCIBarTarget(p) && p@ == v.address),
        v.address_space_id == 0x07 ==> g.address_space == AddressSpace::IPMI(v.address),
        v.address_space_id == 0x08 ==> g.address_space == AddressSpace::GeneralPurposeIO(v.address),
        v.address_space_id == 0x09 ==> g.address_space == AddressSpace::GenericSerialBus(v.address),
        v.address_space_id == 0x0A ==> g.address_space == AddressSpace::PCC(v.address),
        v.address_space_id == 0x0B ==> g.address_space == AddressSpace::PRM(v.address),
        v.address_space_id == 0x7F ==> g.address_space == AddressSpace::FFIXEDHW(v.address),
        is_reserved_space_id(v.address_space_id) ==> g.address_space == AddressSpace::Reserved(
            v.address_space_id,
        ),
        0x80 <= v.address_space_id ==> g.address_space == AddressSpace::VendorSpecific(
            (v.address_space_id, v.address),
        ),
        v.access_size == 0 ==> g.access_size == AccessSize::Undefined,
        v.access_size == 1 ==> g.access_size == AccessSize::Byte,
        v.access_size == 2 ==> g.access_size == AccessSize::Word,
        v.access_size == 3 ==> g.access_size == AccessSize::DWord,
        v.access_size == 4 ==> g.access_size == AccessSize::QWord,
{
    lemma_address_space_ids(g.address_space);
    lemma_access_size_code_values(g.access_size);
}

} // verus!
