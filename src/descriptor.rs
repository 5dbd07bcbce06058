//! The 64-bit descriptor that carries a byte range across the host/guest
//! boundary: the address in the high 32 bits, the length in the low 32 bits.

use vstd::prelude::*;

verus! {

/// 2^32: the weight of the address half of a descriptor.
pub open spec fn half() -> nat {
    0x1_0000_0000
}

/// The descriptor of the range that starts at `addr` and holds `len` bytes.
pub open spec fn packed(addr: u32, len: u32) -> nat {
    addr as nat * half() + len as nat
}

/// The address half of a descriptor.
pub open spec fn addr_of(d: u64) -> nat {
    d as nat / half()
}

/// The length half of a descriptor.
pub open spec fn len_of(d: u64) -> nat {
    d as nat % half()
}

/// Packs a byte range into a descriptor.
pub fn pack(addr: u32, len: u32) -> (d: u64)
    ensures
        d as nat == packed(addr, len),
{
    let d: u64 = ((addr as u64) << 32u64) | (len as u64);
    assert(d == (addr as u64) * 0x1_0000_0000u64 + (len as u64)) by (bit_vector)
        requires
            d == ((addr as u64) << 32u64) | (len as u64),
    ;
    d
}

/// Splits a descriptor into its address and its length.
pub fn unpack(d: u64) -> (r: (u32, u32))
    ensures
        r.0 as nat == addr_of(d),
        r.1 as nat == len_of(d),
{
    let addr: u64 = d >> 32u64;
    let len: u64 = d & 0xFFFF_FFFFu64;
    assert(addr == d / 0x1_0000_0000u64 && len == d % 0x1_0000_0000u64) by (bit_vector)
        requires
            addr == d >> 32u64,
            len == d & 0xFFFF_FFFFu64,
    ;
    (addr as u32, len as u32)
}

/// Unpacking a packed range gives back its address and its length.
pub proof fn lemma_unpack_pack(addr: u32, len: u32)
    ensures
        packed(addr, len) < 0x1_0000_0000_0000_0000,
        addr_of(packed(addr, len) as u64) == addr as nat,
        len_of(packed(addr, len) as u64) == len as nat,
{
    let p = packed(addr, len);
    assert(p < 0x1_0000_0000_0000_0000) by (nonlinear_arith)
        requires
            p == addr as nat * 0x1_0000_0000 + len as nat,
            addr < 0x1_0000_0000,
            len < 0x1_0000_0000,
    ;
    assert(p / 0x1_0000_0000 == addr as nat && p % 0x1_0000_0000 == len as nat)
        by (nonlinear_arith)
        requires
            p == addr as nat * 0x1_0000_0000 + len as nat,
            len < 0x1_0000_0000,
    ;
}

/// Packing the two halves of a descriptor gives back the descriptor.
pub proof fn lemma_pack_unpack(d: u64)
    ensures
        addr_of(d) < half(),
        packed(addr_of(d) as u32, len_of(d) as u32) == d as nat,
{
    let a = addr_of(d);
    let l = len_of(d);
    assert(a < 0x1_0000_0000 && a * 0x1_0000_0000 + l == d as nat) by (nonlinear_arith)
        requires
            a == d as nat / 0x1_0000_0000,
            l == d as nat % 0x1_0000_0000,
            d < 0x1_0000_0000_0000_0000,
    ;
}

} // verus!
