//! The bounded, allocation-free command buffer.
//!
//! The driver batches encoded command bytes in a `heapless::Vec<u8, 16>`: a
//! fixed-capacity vector that refuses an append which would not fit. The
//! vector itself comes from the `heapless` crate; this module declares the
//! type, names its contents as a byte sequence, and wraps the handful of
//! methods the driver calls so their behaviour can be relied on in contracts.

use vstd::prelude::*;

verus! {

#[verifier::external_type_specification]
#[verifier::external_body]
#[verifier::reject_recursive_types(T)]
pub struct ExHeaplessVec<T, const N: usize>(heapless::Vec<T, N>);

/// The bytes a command buffer holds, oldest first.
pub uninterp spec fn cmd_buf_bytes(buf: heapless::Vec<u8, 16>) -> Seq<u8>;

/// Capacity of the command buffer, in bytes.
pub const CMD_BUF_CAPACITY: usize = 16;

/// Relies on heapless::Vec::new: a freshly constructed vector holds no
/// elements.
#[verifier::external_body]
pub fn cmd_buf_new() -> (buf: heapless::Vec<u8, 16>)
    ensures
        cmd_buf_bytes(buf) == Seq::<u8>::empty(),
{
    heapless::Vec::new()
}

/// Relies on heapless::Vec::clear: removes every element.
#[verifier::external_body]
pub fn cmd_buf_clear(buf: &mut heapless::Vec<u8, 16>)
    ensures
        cmd_buf_bytes(*final(buf)) == Seq::<u8>::empty(),
{
    buf.clear()
}

/// Relies on heapless::Vec::extend_from_slice: when the current length plus
/// the slice's length stays within the capacity, every byte of the slice is
/// appended in order and `Ok` is returned; otherwise the vector is left
/// untouched and `Err` is returned.
#[verifier::external_body]
pub fn cmd_buf_extend(buf: &mut heapless::Vec<u8, 16>, bytes: &[u8]) -> (fits: bool)
    ensures
        fits == (cmd_buf_bytes(*old(buf)).len() + bytes@.len() <= CMD_BUF_CAPACITY),
        fits ==> cmd_buf_bytes(*final(buf)) == cmd_buf_bytes(*old(buf)) + bytes@,
        !fits ==> cmd_buf_bytes(*final(buf)) == cmd_buf_bytes(*old(buf)),
{
    buf.extend_from_slice(bytes).is_ok()
}

/// Relies on heapless::Vec::is_empty: true exactly when the vector holds no
/// elements.
#[verifier::external_body]
pub fn cmd_buf_is_empty(buf: &heapless::Vec<u8, 16>) -> (empty: bool)
    ensures
        empty == (cmd_buf_bytes(*buf).len() == 0),
{
    buf.is_empty()
}

/// Relies on heapless::Vec::as_slice: views the stored elements in order.
#[verifier::external_body]
pub fn cmd_buf_to_vec(buf: &heapless::Vec<u8, 16>) -> (bytes: Vec<u8>)
    ensures
        bytes@ == cmd_buf_bytes(*buf),
{
    buf.as_slice().to_vec()
}

} // verus!
