//! PCI configuration space: addressing functions on the bus, reading and
//! writing their registers through I/O ports, and decoding base address
//! registers.
use vstd::prelude::*;

verus! {

/// I/O port that selects the configuration register to access.
pub const CONFIG_ADDRESS: u16 = 0x0CF8;

/// I/O port through which the selected register is read or written.
pub const CONFIG_DATA: u16 = 0x0CFC;

/// Access to the processor's I/O ports.
pub trait PortOps {
    fn read32(&self, port: u16) -> u32;

    fn write32(&self, port: u16, val: u32);
}

/// Position of one function on the PCI bus.
#[derive(Clone, Copy, Debug, PartialEq, Eq, Structural)]
pub struct BusLocation {
    pub bus: u8,
    pub device: u8,
    pub function: u8,
}

/// The device number and the function number are in range.
pub open spec fn valid_location(loc: BusLocation) -> bool {
    loc.device < 32 && loc.function < 8
}

/// Position of `loc` in the scan order: bus, then device, then function.
pub open spec fn scan_index(loc: BusLocation) -> int {
    loc.bus * 256 + loc.device * 8 + loc.function
}

/// Scan index of the last function on the bus: bus 255, device 31, function 7.
pub open spec fn last_scan_index() -> int {
    255int * 256 + 31 * 8 + 7
}

impl BusLocation {
    /// The configuration address of register 0 of this function: the enable
    /// bit, then the bus number in bits 16-23, the device number in bits
    /// 11-15, and the function number in bits 8-10.
    pub fn encode(&self) -> (r: u32)
        ensures
            valid_location(*self) ==> r == 0x8000_0000 + self.bus * 0x1_0000 + self.device * 0x800
                + self.function * 0x100,
    {
        let b = self.bus as u32;
        let d = self.device as u32;
        let f = self.function as u32;
        let r = (1u32 << 31) | (b << 16) | (d << 11) | (f << 8);
        proof {
            if d < 32 && f < 8 {
                assert(b < 256 && d < 32 && f < 8 ==> ((1u32 << 31) | (b << 16) | (d << 11) | (f
                    << 8)) == 0x8000_0000u32 + b * 0x1_0000u32 + d * 0x800u32 + f * 0x100u32)
                    by (bit_vector);
            }
        }
        r
    }
}

/// Identification registers of a function.
#[derive(Clone, Copy, Debug, PartialEq, Eq, Structural)]
pub struct Identifier {
    pub vendor_id: u16,
    pub device_id: u16,
    pub revision_id: u8,
    pub prog_if: u8,
    pub class: u8,
    pub subclass: u8,
}

/// How the configuration space is reached.
#[derive(Clone, Copy, Debug, PartialEq, Eq, Structural)]
pub enum ConfigSpaceAccessMethod {
    /// Through the address and data I/O ports.
    IO,
}

/// Byte `k` (0 to 3, least significant first) of `val`.
pub open spec fn byte_of(val: u32, k: int) -> int {
    let v = val as int;
    if k == 0 {
        v % 0x100
    } else if k == 1 {
        (v / 0x100) % 0x100
    } else if k == 2 {
        (v / 0x1_0000) % 0x100
    } else {
        v / 0x100_0000
    }
}

/// Half `k` (0 or 1, least significant first) of `val`.
pub open spec fn half_of(val: u32, k: int) -> int {
    let v = val as int;
    if k == 0 {
        v % 0x1_0000
    } else {
        v / 0x1_0000
    }
}

/// The byte at register offset `offset` within the dword `val` read from
/// the aligned offset below it.
pub fn extract8(val: u32, offset: u16) -> (r: u8)
    ensures
        r == byte_of(val, (offset % 4) as int),
{
    let k = offset & 3;
    assert(k == offset % 4) by (bit_vector)
        requires
            k == offset & 3,
    ;
    if k == 0 {
        assert(val & 0xFF == val % 0x100) by (bit_vector);
        (val & 0xFF) as u8
    } else if k == 1 {
        assert((val >> 8) & 0xFF == (val / 0x100) % 0x100) by (bit_vector);
        ((val >> 8) & 0xFF) as u8
    } else if k == 2 {
        assert((val >> 16) & 0xFF == (val / 0x1_0000) % 0x100) by (bit_vector);
        ((val >> 16) & 0xFF) as u8
    } else {
        assert(val >> 24 == val / 0x100_0000) by (bit_vector);
        (val >> 24) as u8
    }
}

/// The half-word at register offset `offset` within the dword `val` read
/// from the aligned offset below it; bit 1 of the offset picks the half.
pub fn extract16(val: u32, offset: u16) -> (r: u16)
    ensures
        r == half_of(val, ((offset / 2) % 2) as int),
{
    let k = offset & 2;
    assert(k == 0 <==> (offset / 2) % 2 == 0) by (bit_vector)
        requires
            k == offset & 2,
    ;
    if k == 0 {
        assert(val & 0xFFFF == val % 0x1_0000) by (bit_vector);
        (val & 0xFFFF) as u16
    } else {
        assert(val >> 16 == val / 0x1_0000) by (bit_vector);
        (val >> 16) as u16
    }
}

/// The dword `old` with the byte at register offset `offset` replaced by
/// `val`.
pub fn merge8(old: u32, offset: u16, val: u8) -> (r: u32)
    ensures
        forall|k: int| 0 <= k < 4 ==> #[trigger] byte_of(r, k) == if k == offset % 4 {
            val as int
        } else {
            byte_of(old, k)
        },
{
    let k = offset & 3;
    assert(k == offset % 4) by (bit_vector)
        requires
            k == offset & 3,
    ;
    let shift: u32 = (k as u32) * 8;
    let mask: u32 = 0xFFu32 << shift;
    let r = ((val as u32) << shift) | (old & !mask);
    proof {
        let v = val as u32;
        if k == 0 {
            assert(v < 256 ==> {
                let r = (v << 0u32) | (old & !(0xFFu32 << 0u32));
                &&& r % 0x100 == v
                &&& (r / 0x100) % 0x100 == (old / 0x100) % 0x100
                &&& (r / 0x1_0000) % 0x100 == (old / 0x1_0000) % 0x100
                &&& r / 0x100_0000 == old / 0x100_0000
            }) by (bit_vector);
        } else if k == 1 {
            assert(v < 256 ==> {
                let r = (v << 8u32) | (old & !(0xFFu32 << 8u32));
                &&& r % 0x100 == old % 0x100
                &&& (r / 0x100) % 0x100 == v
                &&& (r / 0x1_0000) % 0x100 == (old / 0x1_0000) % 0x100
                &&& r / 0x100_0000 == old / 0x100_0000
            }) by (bit_vector);
        } else if k == 2 {
            assert(v < 256 ==> {
                let r = (v << 16u32) | (old & !(0xFFu32 << 16u32));
                &&& r % 0x100 == old % 0x100
                &&& (r / 0x100) % 0x100 == (old / 0x100) % 0x100
                &&& (r / 0x1_0000) % 0x100 == v
                &&& r / 0x100_0000 == old / 0x100_0000
            }) by (bit_vector);
        } else {
            assert(v < 256 ==> {
                let r = (v << 24u32) | (old & !(0xFFu32 << 24u32));
                &&& r % 0x100 == old % 0x100
                &&& (r / 0x100) % 0x100 == (old / 0x100) % 0x100
                &&& (r / 0x1_0000) % 0x100 == (old / 0x1_0000) % 0x100
                &&& r / 0x100_0000 == v
            }) by (bit_vector);
        }
    }
    r
}

/// The dword `old` with the half-word at register offset `offset` replaced
/// by `val`; bit 1 of the offset picks the half.
pub fn merge16(old: u32, offset: u16, val: u16) -> (r: u32)
    ensures
        forall|k: int| 0 <= k < 2 ==> #[trigger] half_of(r, k) == if k == (offset / 2) % 2 {
            val as int
        } else {
            half_of(old, k)
        },
{
    let k = offset & 2;
    assert(k == 0 <==> (offset / 2) % 2 == 0) by (bit_vector)
        requires
            k == offset & 2,
    ;
    let v = val as u32;
    if k == 0 {
        let r = v | (old & 0xFFFF_0000);
        assert(v < 0x1_0000 ==> (v | (old & 0xFFFF_0000)) % 0x1_0000 == v && (v | (old
            & 0xFFFF_0000)) / 0x1_0000 == old / 0x1_0000) by (bit_vector);
        r
    } else {
        let r = (v << 16) | (old & 0xFFFF);
        assert(v < 0x1_0000 ==> ((v << 16) | (old & 0xFFFF)) % 0x1_0000 == old % 0x1_0000 && ((v
            << 16) | (old & 0xFFFF)) / 0x1_0000 == v) by (bit_vector);
        r
    }
}

impl ConfigSpaceAccessMethod {
    /// Reads the dword register at the aligned offset `offset` of `loc`.
    pub fn read32<T: PortOps>(&self, ops: &T, loc: BusLocation, offset: u16) -> u32
        requires
            offset % 4 == 0,
    {
        match self {
            ConfigSpaceAccessMethod::IO => {
                ops.write32(CONFIG_ADDRESS, loc.encode() | (offset as u32));
                ops.read32(CONFIG_DATA)
            },
        }
    }

    /// Reads the byte register at offset `offset` of `loc`.
    pub fn read8<T: PortOps>(self, ops: &T, loc: BusLocation, offset: u16) -> u8 {
        let aligned = offset & 0xFC;
        assert(aligned % 4 == 0) by (bit_vector)
            requires
                aligned == offset & 0xFC,
        ;
        let val = self.read32(ops, loc, aligned);
        extract8(val, offset)
    }

    /// Reads the half-word register at offset `offset` of `loc`.
    pub fn read16<T: PortOps>(self, ops: &T, loc: BusLocation, offset: u16) -> u16 {
        let aligned = offset & 0xFC;
        assert(aligned % 4 == 0) by (bit_vector)
            requires
                aligned == offset & 0xFC,
        ;
        let val = self.read32(ops, loc, aligned);
        extract16(val, offset)
    }

    /// Writes the dword register at the aligned offset `offset` of `loc`.
    pub fn write32<T: PortOps>(self, ops: &T, loc: BusLocation, offset: u16, val: u32)
        requires
            offset % 4 == 0,
    {
        match self {
            ConfigSpaceAccessMethod::IO => {
                ops.write32(CONFIG_ADDRESS, loc.encode() | (offset as u32));
                ops.write32(CONFIG_DATA, val)
            },
        }
    }

    /// Writes the byte register at offset `offset` of `loc`, keeping the
    /// other bytes of its dword.
    pub fn write8<T: PortOps>(self, ops: &T, loc: BusLocation, offset: u16, val: u8) {
        let aligned = offset & 0xFC;
        assert(aligned % 4 == 0) by (bit_vector)
            requires
                aligned == offset & 0xFC,
        ;
        let old = self.read32(ops, loc, aligned);
        self.write32(ops, loc, aligned, merge8(old, offset, val));
    }

    /// Writes the half-word register at offset `offset` of `loc`, keeping
    /// the other half of its dword.
    pub fn write16<T: PortOps>(self, ops: &T, loc: BusLocation, offset: u16, val: u16) {
        let aligned = offset & 0xFC;
        assert(aligned % 4 == 0) by (bit_vector)
            requires
                aligned == offset & 0xFC,
        ;
        let old = self.read32(ops, loc, aligned);
        self.write32(ops, loc, aligned, merge16(old, offset, val));
    }
}

/// Whether a memory BAR may be prefetched.
#[derive(Clone, Copy, Debug, PartialEq, Eq, Structural)]
pub enum Prefetchable {
    Yes,
    No,
}

/// Width of a memory BAR.
#[derive(Clone, Copy, Debug, PartialEq, Eq, Structural)]
pub enum Type {
    Bits32,
    Bits64,
}

/// A decoded base address register: a memory window (base, size,
/// prefetchable, width) or an I/O port window (base, size).
#[derive(Clone, Copy, Debug, PartialEq, Eq, Structural)]
pub enum BAR {
    Memory(u64, u32, Prefetchable, Type),
    IO(u32, u32),
}

/// Size of a window whose size mask, read back after writing all ones, is
/// `mask`: its two's complement.
pub open spec fn window_size(mask: u32) -> u32 {
    if mask == 0 {
        0
    } else {
        (0x1_0000_0000int - mask as int) as u32
    }
}

/// Whether the BAR register value `raw` is a 64-bit memory BAR, whose upper
/// half sits in the next register.
pub open spec fn is_bar64(raw: u32) -> bool {
    raw % 2 == 0 && (raw / 2) % 4 == 2
}

/// The BAR register at index `idx` decoded from its value `raw`, its size
/// mask `len_encoded` (read back after writing all ones), and `upper`, the
/// value of the next register (used only by a 64-bit BAR): the BAR, if any,
/// and the index of the next BAR.
pub open spec fn bar_of(raw: u32, len_encoded: u32, upper: u32, idx: u16) -> (Option<BAR>, int) {
    if raw == 0 && len_encoded == 0 {
        (None, idx + 1)
    } else if raw % 2 == 0 {
        let ty = (raw / 2) % 4;
        let prefetch = if (raw / 8) % 2 == 0 {
            Prefetchable::No
        } else {
            Prefetchable::Yes
        };
        let size = window_size(len_encoded & 0xFFFF_FFF0);
        if ty == 0 {
            (Some(BAR::Memory((raw & 0xFFFF_FFF0) as u64, size, prefetch, Type::Bits32)), idx + 1)
        } else if ty == 2 {
            (
                Some(
                    BAR::Memory(
                        ((raw & 0xFFFF_FFF0) as int + upper as int * 0x1_0000_0000) as u64,
                        size,
                        prefetch,
                        Type::Bits64,
                    ),
                ),
                idx + 2,
            )
        } else {
            (None, idx + 1)
        }
    } else {
        (Some(BAR::IO(raw & 0xFFFF_FFFC, window_size(len_encoded & 0xFFFF_FFFC))), idx + 1)
    }
}

impl BAR {
    /// Whether `raw` is a 64-bit memory BAR.
    pub fn is_64bit(raw: u32) -> (r: bool)
        ensures
            r == is_bar64(raw),
    {
        assert((raw & 1 == 0) == (raw % 2 == 0)) by (bit_vector);
        assert((raw & 0b110) >> 1 == (raw / 2) % 4) by (bit_vector);
        raw & 1 == 0 && (raw & 0b110) >> 1 == 2
    }

    /// Decodes BAR `idx` from the values read from the device.
    pub fn decode_raw(raw: u32, len_encoded: u32, upper: u32, idx: u16) -> (r: (
        Option<BAR>,
        usize,
    ))
        requires
            idx + 2 <= u16::MAX,
        ensures
            r.0 == bar_of(raw, len_encoded, upper, idx).0,
            r.1 == bar_of(raw, len_encoded, upper, idx).1,
    {
        if raw == 0 && len_encoded == 0 {
            return (None, idx as usize + 1);
        }
        assert((raw & 1 == 0) == (raw % 2 == 0)) by (bit_vector);
        assert((raw & 0b110) >> 1 == (raw / 2) % 4) by (bit_vector);
        assert((raw & 0b1000 == 0) == ((raw / 8) % 2 == 0)) by (bit_vector);
        if raw & 1 == 0 {
            let prefetch = if raw & 0b1000 == 0 {
                Prefetchable::No
            } else {
                Prefetchable::Yes
            };
            let size = 0u32.wrapping_sub(len_encoded & 0xFFFF_FFF0);
            let ty = (raw & 0b110) >> 1;
            if ty == 0 {
                (
                    Some(BAR::Memory((raw & 0xFFFF_FFF0) as u64, size, prefetch, Type::Bits32)),
                    idx as usize + 1,
                )
            } else if ty == 2 {
                let base: u64 = (raw & 0xFFFF_FFF0) as u64 + (upper as u64) * 0x1_0000_0000;
                (Some(BAR::Memory(base, size, prefetch, Type::Bits64)), idx as usize + 2)
            } else {
                (None, idx as usize + 1)
            }
        } else {
            let size = 0u32.wrapping_sub(len_encoded & 0xFFFF_FFFC);
            (Some(BAR::IO(raw & 0xFFFF_FFFC, size)), idx as usize + 1)
        }
    }

    /// Reads and decodes BAR `idx` of `loc`: reads the register, writes all
    /// ones to learn the size mask, writes the value back, and reads the next
    /// register as well for a 64-bit BAR. Returns the BAR, if any, and the
    /// index of the next BAR.
    pub fn decode<T: PortOps>(
        ops: &T,
        loc: BusLocation,
        am: ConfigSpaceAccessMethod,
        idx: u16,
    ) -> (r: (Option<BAR>, usize))
        requires
            idx < 6,
        ensures
            idx + 1 <= r.1 <= idx + 2,
            exists|raw: u32, len_encoded: u32, upper: u32|
                r.0 == #[trigger] bar_of(raw, len_encoded, upper, idx).0 && r.1 == bar_of(
                    raw,
                    len_encoded,
                    upper,
                    idx,
                ).1,
    {
        let reg = 16 + idx * 4;
        let raw = am.read32(ops, loc, reg);
        am.write32(ops, loc, reg, 0xFFFF_FFFF);
        let len_encoded = am.read32(ops, loc, reg);
        am.write32(ops, loc, reg, raw);
        let upper = if raw != 0 && BAR::is_64bit(raw) {
            am.read32(ops, loc, reg + 4)
        } else {
            0
        };
        BAR::decode_raw(raw, len_encoded, upper, idx)
    }
}

/// The command register of a function.
#[derive(Clone, Copy, Debug, PartialEq, Eq, Structural)]
pub struct Command {
    pub bits: u16,
}

/// The status register of a function.
#[derive(Clone, Copy, Debug, PartialEq, Eq, Structural)]
pub struct Status {
    pub bits: u16,
}

impl Status {
    /// The function has a capabilities list.
    pub const CAPABILITIES_LIST: u16 = 0x0010;
}

/// The bridge control register of a bridge.
#[derive(Clone, Copy, Debug, PartialEq, Eq, Structural)]
pub struct BridgeControl {
    pub bits: u16,
}

/// The message control register of an MSI capability.
#[derive(Clone, Copy, Debug, PartialEq, Eq, Structural)]
pub struct CapabilityMSIMessageControl {
    pub bits: u16,
}

impl CapabilityMSIMessageControl {
    /// The function can use 64-bit message addresses.
    pub const ADDR64_CAPABLE: u16 = 1 << 7;
}

/// Header registers of an ordinary device.
#[derive(Clone, Copy, Debug, PartialEq, Eq, Structural)]
pub struct DeviceDetails {
    pub cardbus_cis_ptr: u32,
    pub subsystem_vendor_id: u16,
    pub subsystem_id: u16,
    pub expansion_rom_base_addr: u32,
    pub min_grant: u8,
    pub max_latency: u8,
}

/// Header registers of a PCI-to-PCI bridge.
#[derive(Clone, Copy, Debug, PartialEq, Eq, Structural)]
pub struct PciBridgeDetails {
    pub primary_bus: u8,
    pub secondary_bus: u8,
    pub subordinate_bus: u8,
    pub secondary_latency_timer: u8,
    pub io_base: u32,
    pub io_limit: u32,
    pub secondary_status: Status,
    pub mem_base: u32,
    pub mem_limit: u32,
    pub prefetchable_mem_base: u64,
    pub prefetchable_mem_limit: u64,
    pub expansion_rom_base_addr: u32,
    pub bridge_control: BridgeControl,
}

/// Header registers of a CardBus bridge.
#[derive(Clone, Copy, Debug, PartialEq, Eq, Structural)]
pub struct CardbusBridgeDetails {
    pub socket_base_addr: u32,
    pub secondary_status: Status,
    pub pci_bus: u8,
    pub cardbus_bus: u8,
    pub subordinate_bus: u8,
    pub cardbus_latency_timer: u8,
    pub mem_base_0: u32,
    pub mem_limit_0: u32,
    pub mem_base_1: u32,
    pub mem_limit_1: u32,
    pub io_base_0: u32,
    pub io_limit_0: u32,
    pub io_base_1: u32,
    pub io_limit_1: u32,
    pub subsystem_device_id: u16,
    pub subsystem_vendor_id: u16,
    pub legacy_mode_base_addr: u32,
    pub bridge_control: BridgeControl,
}

/// What kind of header a function has, with its kind-specific registers.
#[derive(Clone, Copy, Debug, PartialEq, Eq, Structural)]
pub enum DeviceKind {
    Device(DeviceDetails),
    PciBridge(PciBridgeDetails),
    CardbusBridge(CardbusBridgeDetails),
    Unknown,
}

/// The legacy interrupt pin that a function uses.
#[derive(Clone, Copy, Debug, PartialEq, Eq, Structural)]
pub enum InterruptPin {
    INTA,
    INTB,
    INTC,
    INTD,
}

/// Message signalled interrupts.
#[derive(Clone, Copy, Debug, PartialEq, Eq, Structural)]
pub struct CapabilityMSIData {
    pub message_control: CapabilityMSIMessageControl,
    pub message_address: u64,
    pub message_data: u16,
}

/// SATA index/data configuration.
#[derive(Clone, Copy, Debug, PartialEq, Eq, Structural)]
pub struct CapabilitySATAData {
    pub major_revision: u32,
    pub minor_revision: u32,
    pub bar_offset: u32,
    pub bar_location: u32,
}

/// Power management.
#[derive(Clone, Copy, Debug, PartialEq, Eq, Structural)]
pub struct CapabilityPMData {
    pub pme_support: u32,
    pub d2_support: u32,
    pub d1_support: u32,
    pub aux_current: u32,
    pub dsi: u32,
    pub pme_clock: u32,
    pub version: u32,
}

/// PCI Express.
#[derive(Clone, Copy, Debug, PartialEq, Eq, Structural)]
pub struct CapabilityEXPData {
    pub interrupt_message_number: u16,
    pub slot_implemented: u16,
    pub device_port_type: u16,
    pub cap_version: u16,
}

/// The body of one entry of a capabilities list, by capability id.
#[derive(Clone, Copy, Debug, PartialEq, Eq, Structural)]
pub enum CapabilityData {
    PM(CapabilityPMData),
    AGP,
    VPD,
    SLOTID,
    MSI(CapabilityMSIData),
    CHSWP,
    PCIX,
    HP,
    VNDR,
    DBG,
    CCRC,
    SHPC,
    SSVID,
    AGP3,
    SECDEV,
    EXP(CapabilityEXPData),
    MSIX,
    SATA(CapabilitySATAData),
    AF,
    Unknown(u8),
}

/// One entry of a capabilities list: where it sits and what it holds.
#[derive(Clone, Copy, Debug, PartialEq, Eq, Structural)]
pub struct Capability {
    pub cap_ptr: u16,
    pub data: CapabilityData,
}

/// Everything read from the configuration header of one function.
#[derive(Clone, Debug, PartialEq, Eq)]
pub struct PCIDevice {
    pub loc: BusLocation,
    pub id: Identifier,
    pub command: Command,
    pub status: Status,
    pub cache_line_size: u8,
    pub latency_timer: u8,
    pub multifunction: bool,
    pub bist_capable: bool,
    pub bars: [Option<BAR>; 6],
    pub kind: DeviceKind,
    pub pic_interrupt_line: u8,
    pub interrupt_pin: Option<InterruptPin>,
    pub cspace_access_method: ConfigSpaceAccessMethod,
    pub capabilities: Option<Vec<Capability>>,
}

/// Most entries a capabilities list can hold: entries are dword-aligned and
/// lie past the standard header, in the last 192 bytes of the space.
pub const MAX_CAPABILITIES: usize = 48;

/// The interrupt pin that the interrupt pin register value `v` names.
pub open spec fn pin_of(v: u8) -> Option<InterruptPin> {
    if v == 1 {
        Some(InterruptPin::INTA)
    } else if v == 2 {
        Some(InterruptPin::INTB)
    } else if v == 3 {
        Some(InterruptPin::INTC)
    } else if v == 4 {
        Some(InterruptPin::INTD)
    } else {
        None
    }
}

/// The interrupt pin that the interrupt pin register value `v` names.
pub fn interrupt_pin_of(v: u8) -> (r: Option<InterruptPin>)
    ensures
        r == pin_of(v),
{
    match v {
        1 => Some(InterruptPin::INTA),
        2 => Some(InterruptPin::INTB),
        3 => Some(InterruptPin::INTC),
        4 => Some(InterruptPin::INTD),
        _ => None,
    }
}

/// The capability with id `id` when it has no body to read.
pub open spec fn bodiless_capability(id: u8) -> CapabilityData {
    if id == 0x02 {
        CapabilityData::AGP
    } else if id == 0x03 {
        CapabilityData::VPD
    } else if id == 0x04 {
        CapabilityData::SLOTID
    } else if id == 0x11 {
        CapabilityData::MSIX
    } else {
        CapabilityData::Unknown(id)
    }
}

/// The capability with id `id`, which is not one whose body is read (power
/// management, MSI, PCI Express, SATA).
pub fn capability_without_body(id: u8) -> (r: CapabilityData)
    requires
        id != 0x01 && id != 0x05 && id != 0x10 && id != 0x12,
    ensures
        r == bodiless_capability(id),
{
    match id {
        0x02 => CapabilityData::AGP,
        0x03 => CapabilityData::VPD,
        0x04 => CapabilityData::SLOTID,
        0x11 => CapabilityData::MSIX,
        _ => CapabilityData::Unknown(id),
    }
}

/// The power management capability from its capabilities register `cap`.
pub fn pm_data(cap: u32) -> (r: CapabilityPMData)
    ensures
        r.pme_support == cap >> 27,
        r.d2_support == (cap >> 26) & 1,
        r.d1_support == (cap >> 25) & 1,
        r.aux_current == (cap >> 22) & 7,
        r.dsi == (cap >> 21) & 1,
        r.pme_clock == (cap >> 19) & 1,
        r.version == (cap >> 16) & 7,
{
    CapabilityPMData {
        pme_support: cap >> 27,
        d2_support: (cap >> 26) & 0x1,
        d1_support: (cap >> 25) & 0x1,
        aux_current: (cap >> 22) & 0x7,
        dsi: (cap >> 21) & 0x1,
        pme_clock: (cap >> 19) & 0x1,
        version: (cap >> 16) & 0x7,
    }
}

/// The PCI Express capability from its capabilities register `cap`.
pub fn exp_data(cap: u16) -> (r: CapabilityEXPData)
    ensures
        r.interrupt_message_number == (cap >> 9) & 0x1F,
        r.slot_implemented == (cap >> 8) & 1,
        r.device_port_type == (cap >> 4) & 0xF,
        r.cap_version == cap & 0xF,
{
    CapabilityEXPData {
        interrupt_message_number: (cap >> 9) & 0b11111,
        slot_implemented: (cap >> 8) & 0x1,
        device_port_type: (cap >> 4) & 0xf,
        cap_version: cap & 0xf,
    }
}

/// The SATA capability from its two registers `cr0` and `cr1`.
pub fn sata_data(cr0: u32, cr1: u32) -> (r: CapabilitySATAData)
    ensures
        r.major_revision == (cr0 >> 20) & 0xF,
        r.minor_revision == (cr0 >> 16) & 0xF,
        r.bar_offset == (cr1 >> 4) & 0xF_FFFF,
        r.bar_location == cr1 & 0xF,
{
    CapabilitySATAData {
        major_revision: (cr0 >> 20) & 0xf,
        minor_revision: (cr0 >> 16) & 0xf,
        bar_offset: (cr1 >> 4) & 0xfffff,
        bar_location: cr1 & 0xf,
    }
}

/// A capability pointer register value with its two reserved low bits
/// cleared.
fn aligned_pointer(v: u8) -> (r: u16)
    ensures
        r == (v / 4) * 4,
{
    assert(v & 0xFC == (v / 4) * 4) by (bit_vector);
    (v & 0xFC) as u16
}

/// Reads the capabilities list of `loc`, following the next pointers from
/// the capabilities pointer register; pointers are taken dword-aligned.
fn read_capabilities<T: PortOps>(
    ops: &T,
    loc: BusLocation,
    am: ConfigSpaceAccessMethod,
) -> (r: Vec<Capability>)
    ensures
        r@.len() <= MAX_CAPABILITIES,
{
    let mut caps: Vec<Capability> = Vec::new();
    let mut cap_pointer: u16 = aligned_pointer(am.read8(ops, loc, 0x34));
    while cap_pointer > 0 && caps.len() < MAX_CAPABILITIES
        invariant
            caps@.len() <= MAX_CAPABILITIES,
            cap_pointer < 0x100,
            cap_pointer % 4 == 0,
        decreases MAX_CAPABILITIES - caps@.len(),
    {
        let cap_id = am.read8(ops, loc, cap_pointer);
        let data = match cap_id {
            0x01 => CapabilityData::PM(pm_data(am.read32(ops, loc, cap_pointer + 0x4))),
            0x05 => {
                let message_control = CapabilityMSIMessageControl {
                    bits: am.read16(ops, loc, cap_pointer + 0x02) & 0xFF,
                };
                let lo = am.read32(ops, loc, cap_pointer + 0x04) as u64;
                let (addr, data) = if message_control.bits
                    & CapabilityMSIMessageControl::ADDR64_CAPABLE != 0 {
                    let hi = am.read32(ops, loc, cap_pointer + 0x08) as u64;
                    let data = am.read16(ops, loc, cap_pointer + 0x0C);
                    (hi * 0x1_0000_0000 + lo, data)
                } else {
                    let data = am.read16(ops, loc, cap_pointer + 0x0C);
                    (lo, data)
                };
                CapabilityData::MSI(
                    CapabilityMSIData {
                        message_control,
                        message_address: addr,
                        message_data: data,
                    },
                )
            },
            0x10 => CapabilityData::EXP(exp_data(am.read16(ops, loc, cap_pointer + 0x2))),
            0x12 => {
                let cr0 = am.read32(ops, loc, cap_pointer);
                let cr1 = am.read32(ops, loc, cap_pointer + 0x4);
                CapabilityData::SATA(sata_data(cr0, cr1))
            },
            _ => capability_without_body(cap_id),
        };
        caps.push(Capability { cap_ptr: cap_pointer, data });
        cap_pointer = aligned_pointer(am.read8(ops, loc, cap_pointer + 1));
    }
    caps
}

/// Reads the configuration header of the function at `loc`: `None` when no
/// function answers there (vendor id all ones), otherwise its identification,
/// header-kind registers, capabilities list and decoded BARs.
pub fn probe_function<T: PortOps>(
    ops: &T,
    loc: BusLocation,
    am: ConfigSpaceAccessMethod,
) -> (r: Option<PCIDevice>)
    ensures
        match r {
            Some(d) => {
                &&& d.loc == loc
                &&& d.cspace_access_method == am
                &&& d.id.vendor_id != 0xFFFF
                &&& (d.capabilities is Some) == (d.status.bits & Status::CAPABILITIES_LIST != 0)
                &&& d.capabilities matches Some(c) ==> c@.len() <= MAX_CAPABILITIES
                &&& d.kind is Device || forall|i: int| 2 <= i < 6 ==> d.bars[i] is None
                &&& d.kind is Device || d.kind is PciBridge || forall|i: int|
                    0 <= i < 6 ==> d.bars[i] is None
            },
            None => true,
        },
{
    let vid = am.read16(ops, loc, 0);
    if vid == 0xFFFF {
        return None;
    }
    let did = am.read16(ops, loc, 2);
    let command = Command { bits: am.read16(ops, loc, 4) };
    let status = Status { bits: am.read16(ops, loc, 6) };
    let rid = am.read8(ops, loc, 8);
    let prog_if = am.read8(ops, loc, 9);
    let subclass = am.read8(ops, loc, 10);
    let class = am.read8(ops, loc, 11);
    let id = Identifier {
        vendor_id: vid,
        device_id: did,
        revision_id: rid,
        prog_if,
        class,
        subclass,
    };
    let cache_line_size = am.read8(ops, loc, 12);
    let latency_timer = am.read8(ops, loc, 13);
    let bist_capable = am.read8(ops, loc, 15) & 0x80 != 0;
    let hdrty_mf = am.read8(ops, loc, 14);
    let hdrty = hdrty_mf & 0x7F;
    let mf = hdrty_mf & 0x80 != 0;
    let pic_interrupt_line = am.read8(ops, loc, 0x3C);
    let interrupt_pin = interrupt_pin_of(am.read8(ops, loc, 0x3D));
    let (kind, max) = read_header_kind(ops, loc, am, hdrty);
    let capabilities = if status.bits & Status::CAPABILITIES_LIST != 0 {
        Some(read_capabilities(ops, loc, am))
    } else {
        None
    };
    let mut bars: [Option<BAR>; 6] = [None, None, None, None, None, None];
    let mut i: usize = 0;
    while i < max
        invariant
            max <= 6,
            i <= 7,
            forall|j: int| max <= j < 6 ==> bars[j] is None,
        decreases 7 - i,
    {
        let (bar, next) = BAR::decode(ops, loc, am, i as u16);
        bars[i] = bar;
        i = next;
    }
    Some(
        PCIDevice {
            loc,
            id,
            command,
            status,
            cache_line_size,
            latency_timer,
            multifunction: mf,
            bist_capable,
            bars,
            kind,
            pic_interrupt_line,
            interrupt_pin,
            cspace_access_method: am,
            capabilities,
        },
    )
}

/// Reads the registers specific to header type `hdrty` of `loc`: the kind
/// of the function, and how many BARs its header has.
fn read_header_kind<T: PortOps>(
    ops: &T,
    loc: BusLocation,
    am: ConfigSpaceAccessMethod,
    hdrty: u8,
) -> (r: (DeviceKind, usize))
    ensures
        r.1 <= 6,
        hdrty == 0 ==> r.0 is Device && r.1 == 6,
        hdrty == 1 ==> r.0 is PciBridge && r.1 == 2,
        hdrty == 2 ==> r.0 is CardbusBridge && r.1 == 0,
        hdrty > 2 ==> r.0 is Unknown && r.1 == 0,
{
    match hdrty {
        0 => (
            DeviceKind::Device(
                DeviceDetails {
                    cardbus_cis_ptr: am.read32(ops, loc, 0x28),
                    subsystem_vendor_id: am.read16(ops, loc, 0x2C),
                    subsystem_id: am.read16(ops, loc, 0x2E),
                    expansion_rom_base_addr: am.read32(ops, loc, 0x30),
                    min_grant: am.read8(ops, loc, 0x3E),
                    max_latency: am.read8(ops, loc, 0x3F),
                },
            ),
            6,
        ),
        1 => {
            let io_base_lo = am.read8(ops, loc, 0x1c) as u32 & 0xF0;
            let io_base_hi = am.read16(ops, loc, 0x30) as u32;
            let io_limit_lo = am.read8(ops, loc, 0x1d) as u32 & 0xF0;
            let io_limit_hi = am.read16(ops, loc, 0x32) as u32;
            let mem_base = am.read16(ops, loc, 0x20) as u32 & 0xFFF0;
            let mem_limit = am.read16(ops, loc, 0x22) as u32 & 0xFFF0;
            let pf_base = am.read16(ops, loc, 0x24) as u64 & 0xFFF0;
            let pf_base_hi = am.read32(ops, loc, 0x28) as u64;
            let pf_limit = am.read16(ops, loc, 0x26) as u64 & 0xFFF0;
            let pf_limit_hi = am.read32(ops, loc, 0x2c) as u64;
            (
                DeviceKind::PciBridge(
                    PciBridgeDetails {
                        primary_bus: am.read8(ops, loc, 0x18),
                        secondary_bus: am.read8(ops, loc, 0x19),
                        subordinate_bus: am.read8(ops, loc, 0x1a),
                        secondary_latency_timer: am.read8(ops, loc, 0x1b),
                        secondary_status: Status { bits: am.read16(ops, loc, 0x1e) },
                        io_base: (io_base_lo << 8) | (io_base_hi << 16),
                        io_limit: 0xFFF | (io_limit_lo << 8) | (io_limit_hi << 16),
                        mem_base: mem_base << 16,
                        mem_limit: 0xFFFFF | (mem_limit << 16),
                        prefetchable_mem_base: (pf_base << 16) | pf_base_hi,
                        prefetchable_mem_limit: 0xFFFFF | (pf_limit << 16) | pf_limit_hi,
                        expansion_rom_base_addr: am.read32(ops, loc, 0x38),
                        bridge_control: BridgeControl { bits: am.read16(ops, loc, 0x3e) },
                    },
                ),
                2,
            )
        },
        2 => (
            DeviceKind::CardbusBridge(
                CardbusBridgeDetails {
                    socket_base_addr: am.read32(ops, loc, 0x10),
                    secondary_status: Status { bits: am.read16(ops, loc, 0x16) },
                    pci_bus: am.read8(ops, loc, 0x18),
                    cardbus_bus: am.read8(ops, loc, 0x19),
                    subordinate_bus: am.read8(ops, loc, 0x1a),
                    cardbus_latency_timer: am.read8(ops, loc, 0x1b),
                    mem_base_0: am.read32(ops, loc, 0x1c),
                    mem_limit_0: am.read32(ops, loc, 0x20),
                    mem_base_1: am.read32(ops, loc, 0x24),
                    mem_limit_1: am.read32(ops, loc, 0x28),
                    io_base_0: am.read32(ops, loc, 0x2c),
                    io_limit_0: am.read32(ops, loc, 0x30),
                    io_base_1: am.read32(ops, loc, 0x34),
                    io_limit_1: am.read32(ops, loc, 0x38),
                    bridge_control: BridgeControl { bits: am.read16(ops, loc, 0x3e) },
                    subsystem_device_id: am.read16(ops, loc, 0x40),
                    subsystem_vendor_id: am.read16(ops, loc, 0x42),
                    legacy_mode_base_addr: am.read32(ops, loc, 0x44),
                },
            ),
            0,
        ),
        _ => (DeviceKind::Unknown, 0),
    }
}

/// Offset of the command register.
pub const PCI_COMMAND: u16 = 0x04;

/// Offset of the capabilities pointer register.
pub const PCI_CAP_PTR: u16 = 0x34;

/// Capability id of message signalled interrupts.
pub const PCI_CAP_ID_MSI: u8 = 0x05;

/// Interrupt numbers are offset by this much to give interrupt vectors.
pub const IRQ_VECTOR_BASE: u32 = 32;

/// Memory base of an AHCI storage controller (class 1, subclass 6): the base
/// of its memory BAR 5, if it has one.
pub fn ahci_base(dev: &PCIDevice) -> (r: Option<u64>)
    ensures
        r == (if dev.id.class == 1 && dev.id.subclass == 6 {
            match dev.bars[5] {
                Some(BAR::Memory(addr, _, _, _)) => Some(addr),
                _ => None,
            }
        } else {
            None
        }),
{
    if dev.id.class == 0x1 && dev.id.subclass == 0x6 {
        match dev.bars[5] {
            Some(BAR::Memory(addr, _, _, _)) => Some(addr),
            _ => None,
        }
    } else {
        None
    }
}

/// Enables the function at `loc` (I/O and memory space, bus mastering,
/// special cycles) and routes its interrupts: each MSI capability found is
/// pointed at the local interrupt controller and given the next interrupt
/// number, counted in `msi_irq`; without one, the legacy interrupt is left
/// enabled. Returns the last interrupt number assigned, if any.
pub fn enable<T: PortOps>(loc: BusLocation, ops: &T, msi_irq: &mut u32) -> (r: Option<usize>)
    requires
        *old(msi_irq) + MAX_CAPABILITIES + IRQ_VECTOR_BASE <= u32::MAX,
    ensures
        *old(msi_irq) <= *final(msi_irq) <= *old(msi_irq) + MAX_CAPABILITIES,
        match r {
            Some(n) => n == *final(msi_irq) && *final(msi_irq) > *old(msi_irq),
            None => *final(msi_irq) == *old(msi_irq),
        },
{
    let am = ConfigSpaceAccessMethod::IO;
    let orig = am.read16(ops, loc, PCI_COMMAND);
    am.write32(ops, loc, PCI_COMMAND, (orig | 0x40f) as u32);
    let mut msi_found = false;
    let mut assigned_irq: Option<usize> = None;
    let mut cap_ptr: u16 = aligned_pointer(am.read8(ops, loc, PCI_CAP_PTR));
    let mut seen: usize = 0;
    while cap_ptr > 0 && seen < MAX_CAPABILITIES
        invariant
            seen <= MAX_CAPABILITIES,
            cap_ptr < 0x100,
            cap_ptr % 4 == 0,
            *old(msi_irq) + MAX_CAPABILITIES + IRQ_VECTOR_BASE <= u32::MAX,
            *old(msi_irq) <= *msi_irq <= *old(msi_irq) + seen,
            msi_found == (*msi_irq != *old(msi_irq)),
            match assigned_irq {
                Some(n) => n == *msi_irq && msi_found,
                None => !msi_found,
            },
        decreases MAX_CAPABILITIES - seen,
    {
        let cap_id = am.read8(ops, loc, cap_ptr);
        if cap_id == PCI_CAP_ID_MSI {
            let orig_ctrl = am.read32(ops, loc, cap_ptr);
            am.write32(ops, loc, cap_ptr + 0x04, 0xfee0_0000);
            *msi_irq = *msi_irq + 1;
            let irq = *msi_irq;
            assigned_irq = Some(irq as usize);
            if (orig_ctrl >> 16) & 0x80 != 0 {
                am.write32(ops, loc, cap_ptr + 0x0C, irq + IRQ_VECTOR_BASE);
            } else {
                am.write32(ops, loc, cap_ptr + 0x08, irq + IRQ_VECTOR_BASE);
            }
            am.write32(ops, loc, cap_ptr, orig_ctrl | 0x10000);
            msi_found = true;
        }
        cap_ptr = aligned_pointer(am.read8(ops, loc, cap_ptr + 1));
        seen = seen + 1;
    }
    if !msi_found {
        am.write32(ops, loc, PCI_COMMAND, (orig | 0xf) as u32);
    }
    assigned_irq
}

/// Walks every function on the bus in scan order.
pub struct BusScan<'a, T: PortOps> {
    loc: BusLocation,
    am: ConfigSpaceAccessMethod,
    ops: &'a T,
}

/// Starts a scan of the bus at bus 0, device 0, function 0.
pub fn scan_bus<'a, T: PortOps>(ops: &'a T, am: ConfigSpaceAccessMethod) -> (r: BusScan<'a, T>)
    ensures
        r.location() == (BusLocation { bus: 0, device: 0, function: 0 }),
{
    BusScan { loc: BusLocation { bus: 0, device: 0, function: 0 }, am, ops }
}

impl<'a, T: PortOps> BusScan<'a, T> {
    /// The function the scan is at.
    pub closed spec fn location(&self) -> BusLocation {
        self.loc
    }

    /// The function the scan is at.
    pub fn current(&self) -> (r: BusLocation)
        ensures
            r == self.location(),
    {
        self.loc
    }

    /// Whether the scan has reached the last function on the bus.
    pub fn done(&self) -> (r: bool)
        ensures
            r == (self.location() == (BusLocation { bus: 255, device: 31, function: 7 })),
    {
        self.loc.bus == 255 && self.loc.device == 31 && self.loc.function == 7
    }

    /// Moves the scan to the next function in scan order; at the last
    /// function it stays there.
    pub fn increment(&mut self)
        requires
            valid_location(old(self).location()),
        ensures
            valid_location(final(self).location()),
            scan_index(final(self).location()) == if scan_index(old(self).location())
                == last_scan_index() {
                last_scan_index()
            } else {
                scan_index(old(self).location()) + 1
            },
    {
        if self.loc.function < 7 {
            self.loc.function = self.loc.function + 1;
        } else if self.loc.device < 31 {
            self.loc.function = 0;
            self.loc.device = self.loc.device + 1;
        } else if self.loc.bus < 255 {
            self.loc.function = 0;
            self.loc.device = 0;
            self.loc.bus = self.loc.bus + 1;
        }
    }

    /// Probes functions from the current one on, in scan order, and returns
    /// the first that answers, leaving the scan just past it; `None` once the
    /// scan has reached the last function on the bus, which is not probed.
    pub fn next_device(&mut self) -> (r: Option<PCIDevice>)
        requires
            valid_location(old(self).location()),
        ensures
            valid_location(final(self).location()),
            scan_index(old(self).location()) <= scan_index(final(self).location()),
            match r {
                Some(d) => {
                    &&& scan_index(old(self).location()) <= scan_index(d.loc)
                    &&& scan_index(d.loc) + 1 == scan_index(final(self).location())
                },
                None => scan_index(final(self).location()) == last_scan_index(),
            },
    {
        loop
            invariant
                valid_location(self.location()),
                scan_index(old(self).location()) <= scan_index(self.location()),
            decreases last_scan_index() - scan_index(self.location()),
        {
            if self.done() {
                return None;
            }
            let loc = self.loc;
            let result = probe_function(self.ops, loc, self.am);
            self.increment();
            if result.is_some() {
                return result;
            }
        }
    }
}

} // verus!
