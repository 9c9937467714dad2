use vstd::prelude::*;
use vstd::bytes::*;

verus! {

/// The opcode byte of a Whirlpool swap.
pub const WHIRL_SWAP_OPCODE: u8 = 248;

/// The 35-byte data of a Whirlpool swap: opcode, amount, a zero output
/// threshold, the widest square-root price limit (two words of all ones), an
/// exact-input byte of zero and the direction byte.
pub open spec fn whirl_swap_bytes(amount: u64, a_to_b: u8) -> Seq<u8> {
    seq![WHIRL_SWAP_OPCODE] + spec_u64_to_le_bytes(amount) + spec_u64_to_le_bytes(0)
        + spec_u64_to_le_bytes(u64::MAX) + spec_u64_to_le_bytes(u64::MAX) + seq![0u8, a_to_b]
}

/// Encodes the data of a Whirlpool swap of `amount` in direction `a_to_b`.
pub fn whirl_swap_data(amount: u64, a_to_b: u8) -> (r: Vec<u8>)
    ensures
        r@ == whirl_swap_bytes(amount, a_to_b),
        r@.len() == 35,
{
    let mut data: Vec<u8> = Vec::new();
    data.push(WHIRL_SWAP_OPCODE);
    let mut part = u64_to_le_bytes(amount);
    data.append(&mut part);
    let mut part = u64_to_le_bytes(0);
    data.append(&mut part);
    let mut part = u64_to_le_bytes(u64::MAX);
    data.append(&mut part);
    let mut part = u64_to_le_bytes(u64::MAX);
    data.append(&mut part);
    data.push(0);
    data.push(a_to_b);
    assert(data@ =~= whirl_swap_bytes(amount, a_to_b));
    data
}

} // verus!
