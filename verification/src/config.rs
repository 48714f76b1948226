//! The configuration a host binds its transport into.
//!
//! The native driver keeps its state in one large opaque structure that
//! embeds a platform region; the region reserves a fixed number of bytes
//! for a type-erased handle to the host's transport.  This module holds
//! the typed side of that arrangement: a [`Configuration`] owns the bound
//! transport exclusively, and binding is only defined when the handle's
//! measured representation fits the reserved region exactly — on a
//! mismatched pointer-width or ABI, construction must fail loudly in the
//! shell rather than corrupt the bytes around the region on the first
//! callback.

use vstd::prelude::*;

use crate::platform::{PlatformExt, PLATFORM_HANDLE_BYTES};

verus! {

/// Exclusive owner of one sensor binding: the host transport the driver's
/// entry points reach on every byte they move.  The driver's opaque state
/// block is zero-initialized at creation and never interpreted by the
/// binding; everything the binding itself knows about the sensor is here.
#[allow(non_camel_case_types)]
pub struct VL53L7CX_Configuration<P: PlatformExt> {
    /// The bound host transport.
    pub platform: P,
}

impl<P: PlatformExt> VL53L7CX_Configuration<P> {
    /// Bind a host transport into a fresh configuration.
    ///
    /// `handle_bytes` is the measured size of the type-erased handle that
    /// stands for `platform` in the driver's reserved platform region; the
    /// caller measures it and must refuse to construct — loudly, as a
    /// programmer/ABI error — when it is not exactly the reserved size.
    pub fn new(platform: P, handle_bytes: usize) -> (r: Self)
        requires
            handle_bytes == PLATFORM_HANDLE_BYTES,
        ensures
            r.platform == platform,
    {
        let _ = handle_bytes;
        VL53L7CX_Configuration { platform }
    }

    /// The exclusive borrow a driver entry point receives for the duration
    /// of one call.  The driver stores nothing between calls; it borrows
    /// the configuration anew each time.
    pub fn as_ptr(&mut self) -> (r: &mut Self)
        ensures
            *r == *old(self),
            *final(self) == *final(r),
    {
        self
    }
}

} // verus!
