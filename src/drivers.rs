//! The capability interface that device drivers present to the kernel.
use vstd::prelude::*;

verus! {

/// A capability with a single operation.
pub trait SomeTrait: Send + Sync {
    fn some(&self);
}

/// Kind of a device.
#[derive(Clone, Copy, Debug, PartialEq, Eq, Structural)]
pub enum DeviceType {
    Net,
    Gpu,
    Input,
    Block,
    Rtc,
    Serial,
    Intc,
}

/// A device driver as the interrupt layer sees it.
pub trait Driver: Send + Sync {
    /// Handles the interrupt if it belongs to this device, and says whether
    /// it did. The interrupt number is given when known; a driver skips an
    /// interrupt whose number is not its own.
    fn try_handle_interrupt(&self, irq: Option<usize>) -> bool;

    /// The kind of this device.
    fn device_type(&self) -> DeviceType;

    /// An identifier that differs between any two devices.
    fn get_id(&self) -> String;
}

/// A driver of a block device.
pub trait BlockDriver: Driver {
    /// Reads block `block_id` into `buf`.
    fn read_at(&self, block_id: usize, buf: &mut [u8]);

    /// Writes `buf` to block `block_id`.
    fn write_at(&self, block_id: usize, buf: &[u8]);
}

} // verus!
