//! The transport capability a host supplies, and the bridge the driver
//! calls through it.
//!
//! The native driver moves every byte through a small set of fixed entry
//! points that receive an opaque handle to the host's transport.  The
//! functions here are the typed core of those entry points: each one
//! forwards to the host's [`PlatformExt`] implementation and translates
//! the typed outcome back into the driver's raw status-byte convention.

use vstd::prelude::*;

use crate::status::{is_known_error_code, raw_code_of, Error, STATUS_OK};

verus! {

/// Bytes the driver's platform structure reserves for the type-erased
/// handle to the host's [`PlatformExt`] implementation: a data word and a
/// dispatch-table word of eight bytes each.  Binding a host implementation
/// must fail loudly if the handle's representation is not exactly this
/// size, since a mismatch would corrupt the surrounding structure on the
/// first callback.
pub const PLATFORM_HANDLE_BYTES: usize = 16;

/// The transport capability a host implements so the driver can reach the
/// physical sensor: byte-level register reads and writes, a millisecond
/// delay, and a notification hook for bus-address changes.
///
/// All four operations are invoked synchronously from within driver calls;
/// none may assume a particular thread.
pub trait PlatformExt {
    /// Fill `buf` by reading `buf.len()` bytes starting at `register`.
    /// Every requested byte is filled, or an error is returned.
    fn rd_bytes(&mut self, register: u16, buf: &mut Vec<u8>) -> (r: Result<(), Error>)
        ensures
            final(buf)@.len() == old(buf)@.len(),
    ;

    /// Write all bytes of `buf` starting at `register`.
    fn wr_bytes(&mut self, register: u16, buf: &[u8]) -> (r: Result<(), Error>);

    /// Block the calling context for at least `ms` milliseconds.
    fn delay_ms(&mut self, ms: u32) -> (r: Result<(), Error>);

    /// Note that the driver has reprogrammed the device's bus address.
    /// There is no failure path.
    fn on_i2c_address_changed(&mut self, new_address: u8);
}

/// The raw status byte a transport outcome is reported to the driver as.
pub open spec fn status_of(r: Result<(), Error>) -> u8 {
    match r {
        Ok(_) => STATUS_OK,
        Err(e) => raw_code_of(e),
    }
}

/// A status byte the bridge may hand the driver: OK, or one of the known
/// non-OK status bytes.
pub open spec fn is_bridge_status(s: u8) -> bool {
    s == STATUS_OK || is_known_error_code(s)
}

/// Translate a transport outcome into the driver's raw status-byte
/// convention.  Success maps to OK and nothing else does: every error
/// variant maps to its own non-OK raw byte.
pub fn status_of_result(r: &Result<(), Error>) -> (s: u8)
    ensures
        s == status_of(*r),
        s == STATUS_OK <==> (*r) is Ok,
        is_bridge_status(s),
{
    match r {
        Ok(_) => STATUS_OK,
        Err(e) => e.raw_code(),
    }
}

/// Single-register byte read: read one byte at `register_address` through
/// the host transport.  Returns the status byte for the driver and the
/// byte that was read (zero when the transport failed without writing).
pub fn rd_byte<P: PlatformExt>(p: &mut P, register_address: u16) -> (r: (u8, u8))
    ensures
        is_bridge_status(r.0),
{
    let mut buf: Vec<u8> = Vec::new();
    buf.push(0);
    let res = p.rd_bytes(register_address, &mut buf);
    let status = status_of_result(&res);
    (status, buf[0])
}

/// Single-register byte write: hand exactly the one byte `value` to the
/// host transport at `register_address`.
pub fn wr_byte<P: PlatformExt>(p: &mut P, register_address: u16, value: u8) -> (r: u8)
    ensures
        is_bridge_status(r),
{
    let mut buf: Vec<u8> = Vec::new();
    buf.push(value);
    let res = p.wr_bytes(register_address, buf.as_slice());
    status_of_result(&res)
}

/// Multi-byte burst read: read `size` bytes starting at
/// `register_address`.  The returned buffer always holds exactly `size`
/// bytes; a burst of size zero asks the transport for nothing.
pub fn rd_multi<P: PlatformExt>(p: &mut P, register_address: u16, size: u32) -> (r: (u8, Vec<u8>))
    ensures
        is_bridge_status(r.0),
        r.1@.len() == size as nat,
{
    let n = size as usize;
    let mut buf: Vec<u8> = Vec::new();
    let mut i: usize = 0;
    while i < n
        invariant
            i <= n,
            buf@.len() == i as nat,
        decreases n - i,
    {
        buf.push(0);
        i = i + 1;
    }
    let res = p.rd_bytes(register_address, &mut buf);
    let status = status_of_result(&res);
    (status, buf)
}

/// Multi-byte burst write: hand all of `values` to the host transport
/// starting at `register_address`.
pub fn wr_multi<P: PlatformExt>(p: &mut P, register_address: u16, values: &[u8]) -> (r: u8)
    ensures
        is_bridge_status(r),
{
    let res = p.wr_bytes(register_address, values);
    status_of_result(&res)
}

/// Sensor reset: the driver does not need real reset behaviour from the
/// platform, so this is a pass-through that leaves the transport alone and
/// always reports success.
pub fn reset_sensor<P: PlatformExt>(platform: &mut P) -> (r: u8)
    ensures
        r == STATUS_OK,
        *final(platform) == *old(platform),
{
    let _ = platform;
    STATUS_OK
}

/// Millisecond wait: delegate to the host transport's delay.
pub fn wait_ms<P: PlatformExt>(p: &mut P, time_ms: u32) -> (r: u8)
    ensures
        is_bridge_status(r),
{
    let res = p.delay_ms(time_ms);
    status_of_result(&res)
}

/// Address-change notification: tell the host transport the new bus
/// address the driver has programmed.  The driver hands the address as a
/// word; the device address itself is its low byte.
pub fn i2c_address_changed<P: PlatformExt>(p: &mut P, address: u16) {
    let new_address: u8 = #[verifier::truncate] (address as u8);
    p.on_i2c_address_changed(new_address);
}

/// The 4-byte-group swap of a byte sequence: every complete group of four
/// bytes is reversed (byte 0 with byte 3, byte 1 with byte 2); trailing
/// bytes beyond the last complete group are left untouched.
pub open spec fn swap_groups(s: Seq<u8>) -> Seq<u8> {
    Seq::new(
        s.len(),
        |i: int|
            if i / 4 < s.len() as int / 4 {
                s[4 * (i / 4) + (3 - i % 4)]
            } else {
                s[i]
            },
    )
}

/// Buffer byte-order reversal in 4-byte groups: a pure utility with no
/// transport dependency, always reporting success.
pub fn swap_buffer(buffer: &mut Vec<u8>) -> (r: u8)
    ensures
        r == STATUS_OK,
        final(buffer)@ == swap_groups(old(buffer)@),
{
    let n: usize = buffer.len();
    let groups: usize = n / 4;
    let mut g: usize = 0;
    while g < groups
        invariant
            n == buffer@.len(),
            n == old(buffer)@.len(),
            groups == n / 4,
            g <= groups,
            forall|k: int| 0 <= k < 4 * (g as int) ==> buffer@[k] == swap_groups(old(buffer)@)[k],
            forall|k: int| 4 * (g as int) <= k < n ==> buffer@[k] == old(buffer)@[k],
        decreases groups - g,
    {
        let base: usize = 4 * g;
        let b0 = buffer[base];
        let b1 = buffer[base + 1];
        let b2 = buffer[base + 2];
        let b3 = buffer[base + 3];
        buffer[base] = b3;
        buffer[base + 1] = b2;
        buffer[base + 2] = b1;
        buffer[base + 3] = b0;
        g = g + 1;
    }
    assert(buffer@ =~= swap_groups(old(buffer)@));
    STATUS_OK
}

/// Applying the 4-byte-group swap twice returns the original sequence.
pub proof fn lemma_swap_groups_involutive(s: Seq<u8>)
    ensures
        swap_groups(swap_groups(s)) == s,
{
    let t = swap_groups(s);
    assert forall|i: int| 0 <= i < s.len() implies swap_groups(t)[i] == s[i] by {
        if i / 4 < s.len() as int / 4 {
            let j = 4 * (i / 4) + (3 - i % 4);
            assert(j / 4 == i / 4 && j % 4 == 3 - i % 4);
        }
    }
    assert(swap_groups(t) =~= s);
}

/// Bytes after the last complete 4-byte group are left where they are by
/// the swap.
pub proof fn lemma_swap_groups_trailing(s: Seq<u8>, i: int)
    requires
        4 * (s.len() as int / 4) <= i < s.len(),
    ensures
        swap_groups(s)[i] == s[i],
{
    assert(i / 4 >= s.len() as int / 4);
}

} // verus!
