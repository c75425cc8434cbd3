//! Scan codes, and the status bit that tells when one can be read.

use vstd::prelude::*;

verus! {

/// The scan code of the escape key, which ends a running program.
pub const KEY_ESC: u8 = 0x01;

/// The scan code of the key `1`.
pub const KEY_1: u8 = 0x02;

/// The scan code of the key `2`.
pub const KEY_2: u8 = 0x03;

/// The scan code of the key `3`.
pub const KEY_3: u8 = 0x04;

/// The scan code of the key `4`.
pub const KEY_4: u8 = 0x05;

/// The bit of the keyboard controller's status byte that is set while a scan
/// code waits to be read.
pub const KEY_READY_BIT: u8 = 0x01;

/// Whether the keyboard controller, with status byte `status`, holds a scan
/// code that can be read.
pub fn key_ready(status: u8) -> (ready: bool)
    ensures
        ready == (status % 2 == 1),
{
    assert(status & 0x01 != 0 <==> status % 2 == 1) by (bit_vector);
    status & KEY_READY_BIT != 0
}

} // verus!
