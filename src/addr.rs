//! Virtual addresses of the x86_64 four-level paging scheme.
use vstd::prelude::*;

verus! {

/// An address is canonical when bits 48 to 63 repeat bit 47.
pub open spec fn spec_is_canonical(addr: u64) -> bool {
    (addr >> 47u64) == 0 || (addr >> 47u64) == 0x1FFFF
}

/// Whether `addr` is a canonical virtual address.
pub fn is_canonical(addr: u64) -> (r: bool)
    ensures
        r == spec_is_canonical(addr),
{
    let bit47 = (addr >> 47u64) & 1;
    let upper = addr >> 48u64;
    assert(((((addr >> 47u64) & 1) == 0 && (addr >> 48u64) == 0) || (((addr >> 47u64) & 1) == 1 && (addr >> 48u64) == 0xFFFF))
        == ((addr >> 47u64) == 0 || (addr >> 47u64) == 0x1FFFF)) by (bit_vector);
    (bit47 == 0 && upper == 0) || (bit47 == 1 && upper == 0xFFFF)
}

/// Relies on `x86_64::VirtAddr::try_new`, which accepts exactly the
/// addresses whose bits 48 to 63 equal bit 47, and on `VirtAddr::as_u64`,
/// which gives the address back.
#[verifier::external_body]
pub(crate) fn checked_virt_addr(addr: u64) -> (r: Option<u64>)
    ensures
        r == (if spec_is_canonical(addr) {
            Some(addr)
        } else {
            None
        }),
{
    match x86_64::VirtAddr::try_new(addr) {
        Ok(v) => Some(v.as_u64()),
        Err(_) => None,
    }
}

/// The kernel-visible address of physical address `phys` in a direct map at
/// `offset`, when the sum fits and is canonical.
pub open spec fn spec_direct_map(offset: u64, phys: u64) -> Option<u64> {
    if offset + phys <= u64::MAX && spec_is_canonical((offset + phys) as u64) {
        Some((offset + phys) as u64)
    } else {
        None
    }
}

/// Translates a physical address through a direct map of all physical
/// memory starting at virtual address `offset`.
pub fn direct_map(offset: u64, phys: u64) -> (r: Option<u64>)
    ensures
        r == spec_direct_map(offset, phys),
{
    match offset.checked_add(phys) {
        Some(v) => checked_virt_addr(v),
        None => None,
    }
}

} // verus!
