//! What the library takes from the `xum1541` bus driver.

use vstd::prelude::*;

verus! {

/// `xum1541::DeviceChannel`: a device number and a channel number that the
/// driver has accepted, as its bus commands take them.
#[verifier::external_type_specification]
#[verifier::external_body]
pub struct ExDeviceChannel(xum1541::DeviceChannel);

/// `xum1541::Error`: the driver's error.
#[verifier::external_type_specification]
#[verifier::external_body]
pub struct ExDriverError(xum1541::Error);

/// The lowest device number that the driver addresses.
pub const DRIVER_MIN_DEVICE: u8 = 8;

/// The highest device number that the driver addresses.
pub const DRIVER_MAX_DEVICE: u8 = 30;

/// The highest channel number that the driver addresses.
pub const DRIVER_MAX_CHANNEL: u8 = 15;

/// Whether the driver takes `device` and `channel` as the target of a bus
/// command.
pub open spec fn driver_accepts(device: u8, channel: u8) -> bool {
    DRIVER_MIN_DEVICE <= device <= DRIVER_MAX_DEVICE && channel <= DRIVER_MAX_CHANNEL
}

/// `xum1541::DeviceChannel::new`: checks the two numbers against the
/// driver's limits. It gives the pair where the device is from 8 to 30 and the
/// channel at most 15, and its error for any other numbers.
#[verifier::external_body]
pub(crate) fn new_device_channel(device: u8, channel: u8) -> (made: Result<
    xum1541::DeviceChannel,
    xum1541::Error,
>)
    ensures
        made is Ok <==> driver_accepts(device, channel),
{
    xum1541::DeviceChannel::new(device, channel)
}

/// `xum1541::Error`'s `Display`: the driver's own wording of its error.
/// Nothing is claimed of the text.
#[verifier::external_body]
pub(crate) fn driver_error_text(error: &xum1541::Error) -> (text: String) {
    error.to_string()
}

} // verus!
