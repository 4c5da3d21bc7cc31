//! Choosing the two interfaces of a device among those that the transport
//! lists: the one that streams input reports and the one that takes LED
//! feature reports.

use vstd::prelude::*;
use crate::description::{VirpilDeviceDescription, VIRPIL_VID};
use crate::error::DeviceError;

verus! {

/// The usage tag of the interface that streams input reports.
pub const STATE_READ_USAGE: u16 = 4;

/// The usage tag of the interface that takes LED feature reports.
pub const LED_WRITE_USAGE: u16 = 1;

/// What the transport tells of one interface.
#[derive(Debug, Copy, Clone, PartialEq, Eq, Structural)]
pub struct InterfaceInfo {
    pub vendor_id: u16,
    pub product_id: u16,
    pub usage: u16,
}

/// The two interfaces of a device, as positions in the list that was searched.
#[derive(Debug, Copy, Clone, PartialEq, Eq, Structural)]
pub struct DeviceInterfaces {
    pub state_read: usize,
    pub led_write: usize,
}

/// Whether an interface belongs to the product and carries the usage tag.
pub open spec fn is_interface(info: InterfaceInfo, product_id: u16, usage: u16) -> bool {
    info.vendor_id == VIRPIL_VID && info.product_id == product_id && info.usage == usage
}

/// How many interfaces of a list belong to the product and carry the usage tag.
pub open spec fn interface_count(
    interfaces: Seq<InterfaceInfo>,
    product_id: u16,
    usage: u16,
) -> nat
    decreases interfaces.len(),
{
    if interfaces.len() == 0 {
        0
    } else {
        interface_count(interfaces.drop_last(), product_id, usage) + if is_interface(
            interfaces.last(),
            product_id,
            usage,
        ) {
            1nat
        } else {
            0nat
        }
    }
}

/// Tells whether an interface belongs to the product and carries the usage tag.
pub fn matches_interface(info: &InterfaceInfo, product_id: u16, usage: u16) -> (matches: bool)
    ensures
        matches == is_interface(*info, product_id, usage),
{
    info.vendor_id == VIRPIL_VID && info.product_id == product_id && info.usage == usage
}

/// Finds the state-read and the LED-write interface of the model `D`.
///
/// More than one of either is `AmbiguousDevice`; otherwise none of either is
/// `DeviceNotFound`; otherwise the positions of the two are returned.
/// Interfaces of other products, and those with another usage tag, are passed over.
pub fn find_device<D: VirpilDeviceDescription>(interfaces: &[InterfaceInfo]) -> (result: Result<
    DeviceInterfaces,
    DeviceError,
>)
    ensures
        ({
            let reads = interface_count(interfaces@, D::PID, STATE_READ_USAGE);
            let writes = interface_count(interfaces@, D::PID, LED_WRITE_USAGE);
            match result {
                Ok(found) => {
                    &&& reads == 1
                    &&& writes == 1
                    &&& found.state_read < interfaces@.len()
                    &&& found.led_write < interfaces@.len()
                    &&& forall|j: int|
                        0 <= j < interfaces@.len() ==> (is_interface(
                            #[trigger] interfaces@[j],
                            D::PID,
                            STATE_READ_USAGE,
                        ) <==> j == found.state_read)
                    &&& forall|j: int|
                        0 <= j < interfaces@.len() ==> (is_interface(
                            #[trigger] interfaces@[j],
                            D::PID,
                            LED_WRITE_USAGE,
                        ) <==> j == found.led_write)
                },
                Err(DeviceError::AmbiguousDevice) => reads > 1 || writes > 1,
                Err(DeviceError::DeviceNotFound) => reads <= 1 && writes <= 1 && (reads == 0
                    || writes == 0),
                Err(_) => false,
            }
        }),
{
    let pid = D::PID;
    let mut state_read: usize = 0;
    let mut led_write: usize = 0;
    let mut state_reads: usize = 0;
    let mut led_writes: usize = 0;
    let mut i: usize = 0;
    while i < interfaces.len()
        invariant
            i <= interfaces@.len(),
            pid == D::PID,
            state_reads == interface_count(interfaces@.take(i as int), pid, STATE_READ_USAGE),
            led_writes == interface_count(interfaces@.take(i as int), pid, LED_WRITE_USAGE),
            state_reads <= i,
            led_writes <= i,
            state_reads > 0 ==> state_read < i && is_interface(
                interfaces@[state_read as int],
                pid,
                STATE_READ_USAGE,
            ),
            led_writes > 0 ==> led_write < i && is_interface(
                interfaces@[led_write as int],
                pid,
                LED_WRITE_USAGE,
            ),
            state_reads <= 1 ==> forall|j: int|
                0 <= j < i && is_interface(#[trigger] interfaces@[j], pid, STATE_READ_USAGE)
                    ==> state_reads == 1 && j == state_read,
            led_writes <= 1 ==> forall|j: int|
                0 <= j < i && is_interface(#[trigger] interfaces@[j], pid, LED_WRITE_USAGE)
                    ==> led_writes == 1 && j == led_write,
        decreases interfaces@.len() - i,
    {
        proof {
            assert(interfaces@.take(i + 1).drop_last() =~= interfaces@.take(i as int));
        }
        if matches_interface(&interfaces[i], pid, STATE_READ_USAGE) {
            state_read = i;
            state_reads += 1;
        }
        if matches_interface(&interfaces[i], pid, LED_WRITE_USAGE) {
            led_write = i;
            led_writes += 1;
        }
        i += 1;
    }
    proof {
        assert(interfaces@.take(i as int) =~= interfaces@);
    }
    if state_reads > 1 || led_writes > 1 {
        Err(DeviceError::AmbiguousDevice)
    } else if state_reads == 0 || led_writes == 0 {
        Err(DeviceError::DeviceNotFound)
    } else {
        Ok(DeviceInterfaces { state_read, led_write })
    }
}

} // verus!
