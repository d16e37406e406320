//! Decisions of the microcontroller layer that do not touch hardware.
use vstd::prelude::*;

verus! {

/// Detects a USB bus reset from the "configured" state of the device: a
/// device that was configured and no longer is has been reset.
pub struct UsbResetDetector {
    was_configured: bool,
}

impl UsbResetDetector {
    pub closed spec fn was_configured_spec(&self) -> bool {
        self.was_configured
    }

    /// A detector that has not seen a configured device.
    pub fn new() -> (r: UsbResetDetector)
        ensures
            !r.was_configured_spec(),
    {
        UsbResetDetector { was_configured: false }
    }

    /// Takes the current "configured" state; true when the device was
    /// configured at the previous poll and is not now.
    pub fn poll_usb_reset(&mut self, configured: bool) -> (r: bool)
        ensures
            r == (old(self).was_configured_spec() && !configured),
            final(self).was_configured_spec() == configured,
    {
        let mut ret = false;
        if self.was_configured {
            if !configured {
                self.was_configured = false;
                ret = true;
            }
        } else {
            if configured {
                self.was_configured = true;
            }
        }
        ret
    }
}

} // verus!
