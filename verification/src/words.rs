//! Little-endian 32-bit words in memory: what a word read returns and what a
//! word store leaves behind, with the round-trip law relating the two.

use vstd::prelude::*;

verus! {

/// The 32-bit value encoded little-endian by the four bytes at `addr`.
pub open spec fn spec_read_word(mem: Seq<u8>, addr: int) -> u32
    recommends
        0 <= addr,
        addr + 4 <= mem.len(),
{
    vstd::bytes::spec_u32_from_le_bytes(mem.subrange(addr, addr + 4))
}

/// The memory after writing `v` little-endian over the four bytes at `addr`.
pub open spec fn spec_store_word(mem: Seq<u8>, addr: int, v: u32) -> Seq<u8>
    recommends
        0 <= addr,
        addr + 4 <= mem.len(),
{
    let b = vstd::bytes::spec_u32_to_le_bytes(v);
    mem.update(addr, b[0]).update(addr + 1, b[1]).update(addr + 2, b[2]).update(addr + 3, b[3])
}

/// Storing a word and reading it back at the same address yields exactly the
/// stored value, for every in-bounds address.
pub proof fn lemma_word_roundtrip(mem: Seq<u8>, addr: int, v: u32)
    requires
        0 <= addr,
        addr + 4 <= mem.len(),
    ensures
        spec_read_word(spec_store_word(mem, addr, v), addr) == v,
{
    vstd::bytes::lemma_auto_spec_u32_to_from_le_bytes();
    let b = vstd::bytes::spec_u32_to_le_bytes(v);
    assert(spec_store_word(mem, addr, v).subrange(addr, addr + 4) =~= b);
}

/// The 16-bit two's-complement value `(h << 8) | l` sign-extended to 32
/// bits.
pub open spec fn spec_sign_extend16(l: u8, h: u8) -> u32 {
    let v = (h as int) * 256 + (l as int);
    if v < 0x8000 {
        v as u32
    } else {
        (v + 0xFFFF0000) as u32
    }
}

/// A word store changes no byte outside the four it writes.
pub proof fn lemma_store_word_frame(mem: Seq<u8>, addr: int, v: u32, i: int)
    requires
        0 <= addr,
        addr + 4 <= mem.len(),
        0 <= i < mem.len(),
        i < addr || addr + 4 <= i,
    ensures
        spec_store_word(mem, addr, v)[i] == mem[i],
{
}

} // verus!
