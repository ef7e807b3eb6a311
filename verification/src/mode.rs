//! POSIX permission modes: the execute bits and how they follow the read bits.

use vstd::prelude::*;

verus! {

/// The execute bits of owner, group and other.
pub const EXEC_BITS: u32 = 0o111;

/// The read bits of owner, group and other.
pub const READ_BITS: u32 = 0o444;

/// Whether a mode marks its file executable for at least one class.
pub open spec fn mode_is_executable(mode: u32) -> bool {
    mode & 0o111u32 != 0u32
}

/// The mode in which every class that may read may also execute. Nothing else changes.
pub open spec fn elevated(mode: u32) -> u32 {
    mode | ((mode & 0o444u32) >> 2u32)
}

/// Tells whether any execute bit is set in `mode`.
pub fn is_executable(mode: u32) -> (r: bool)
    ensures
        r == mode_is_executable(mode),
{
    (mode & EXEC_BITS) != 0
}

/// Gives each class that holds the read bit its execute bit.
pub fn elevate(mode: u32) -> (r: u32)
    ensures
        r == elevated(mode),
{
    mode | ((mode & READ_BITS) >> 2)
}

/// Raising a mode a second time changes nothing.
pub proof fn lemma_elevated_idempotent(mode: u32)
    by (bit_vector)
    ensures
        elevated(elevated(mode)) == elevated(mode),
{
}

/// The execute bits that raising a mode adds are those of the classes that
/// may read and could not execute before: a class that may not read gains
/// nothing.
pub proof fn lemma_elevated_follows_read(mode: u32)
    by (bit_vector)
    ensures
        elevated(mode) & !mode & 0o111u32 == ((mode & 0o444u32) >> 2u32) & !mode,
{
}

/// Raising a mode clears no bit, and leaves every bit but the execute bits
/// as it was.
pub proof fn lemma_elevated_keeps_bits(mode: u32)
    by (bit_vector)
    ensures
        elevated(mode) & mode == mode,
        elevated(mode) & !0o111u32 == mode & !0o111u32,
{
}

/// Where no class could execute, the execute bits of the raised mode are the
/// read bits moved into the execute position.
pub proof fn lemma_elevated_from_plain(mode: u32)
    by (bit_vector)
    requires
        mode & 0o111u32 == 0u32,
    ensures
        elevated(mode) & 0o111u32 == (mode & 0o444u32) >> 2u32,
{
}

/// A mode that is executable stays so when raised.
pub proof fn lemma_elevated_stays_executable(mode: u32)
    by (bit_vector)
    requires
        mode_is_executable(mode),
    ensures
        mode_is_executable(elevated(mode)),
{
}

} // verus!
