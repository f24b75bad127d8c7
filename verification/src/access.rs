//! The access mode that a set of `open` flags asks for.

use vstd::prelude::*;

verus! {

/// The values of the three access flags of `open` on the running platform.
#[derive(Clone, Copy, Debug, PartialEq, Eq, Structural)]
pub struct AccessFlags {
    /// Open for reading only.
    pub read_only: i32,
    /// Open for writing only.
    pub write_only: i32,
    /// Open for reading and writing.
    pub read_write: i32,
}

/// How a file is to be opened.
#[derive(Clone, Copy, Debug, PartialEq, Eq, Structural)]
pub struct AccessMode {
    pub read: bool,
    pub write: bool,
}

/// Whether `flags` and `flag` have a bit in common.
pub open spec fn shares_bit(flags: i32, flag: i32) -> bool {
    (flags & flag) != 0
}

/// The access mode that `flags` asks for, given the platform's flag values:
/// reading if a bit of the read-only or of the read-write flag is set, writing
/// if a bit of the write-only or of the read-write flag is set.
pub open spec fn access_for(flags: i32, table: AccessFlags) -> AccessMode {
    AccessMode {
        read: shares_bit(flags, table.read_only) || shares_bit(flags, table.read_write),
        write: shares_bit(flags, table.write_only) || shares_bit(flags, table.read_write),
    }
}

/// Works out how to open a file from the flags that the caller passed, given
/// the platform's flag values.
pub fn access_mode(flags: i32, table: AccessFlags) -> (mode: AccessMode)
    ensures
        mode == access_for(flags, table),
{
    AccessMode {
        read: (flags & table.read_only != 0) || (flags & table.read_write != 0),
        write: (flags & table.write_only != 0) || (flags & table.read_write != 0),
    }
}

/// The value of `libc::O_RDONLY`. It differs between platforms, so nothing is
/// claimed of it.
#[verifier::external_body]
fn read_only_flag() -> (flag: i32) {
    libc::O_RDONLY
}

/// The value of `libc::O_WRONLY`. It differs between platforms, so nothing is
/// claimed of it.
#[verifier::external_body]
fn write_only_flag() -> (flag: i32) {
    libc::O_WRONLY
}

/// The value of `libc::O_RDWR`. It differs between platforms, so nothing is
/// claimed of it.
#[verifier::external_body]
fn read_write_flag() -> (flag: i32) {
    libc::O_RDWR
}

/// Works out how to open a file from the flags that the caller passed, with
/// the flag values of the running platform. Whatever those values are, flags
/// without any bit set ask neither for reading nor for writing.
pub fn requested_access(flags: i32) -> (mode: AccessMode)
    ensures
        exists|table: AccessFlags| mode == access_for(flags, table),
        flags == 0 ==> !mode.read && !mode.write,
{
    let table = AccessFlags {
        read_only: read_only_flag(),
        write_only: write_only_flag(),
        read_write: read_write_flag(),
    };
    proof {
        let (a, b, c) = (table.read_only, table.write_only, table.read_write);
        assert((0i32 & a) == 0 && (0i32 & b) == 0 && (0i32 & c) == 0) by (bit_vector);
    }
    access_mode(flags, table)
}

} // verus!
