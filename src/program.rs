use vstd::prelude::*;

verus! {

/// The EVM program that adds `a` and `b` and returns the sum as one 32-byte word:
/// `PUSH1 a, PUSH1 b, ADD, PUSH1 0, MSTORE, PUSH1 32, PUSH1 0, RETURN`.
pub open spec fn add_and_return_spec(a: u8, b: u8) -> Seq<u8> {
    seq![0x60u8, a, 0x60u8, b, 0x01u8, 0x60u8, 0x00u8, 0x52u8, 0x60u8, 0x20u8, 0x60u8, 0x00u8, 0xf3u8]
}

/// Builds the bytecode of `add_and_return_spec(a, b)`.
pub fn add_and_return(a: u8, b: u8) -> (r: Vec<u8>)
    ensures
        r@ == add_and_return_spec(a, b),
{
    let r: Vec<u8> = vec![0x60, a, 0x60, b, 0x01, 0x60, 0x00, 0x52, 0x60, 0x20, 0x60, 0x00, 0xf3];
    assert(r@ =~= add_and_return_spec(a, b));
    r
}

} // verus!
