use vstd::prelude::*;

verus! {

/// The single byte that every byte of a fallback record is XOR-ed with.
pub const OBFUSCATION_KEY: u8 = 0x42;

/// Each byte of `data` XOR-ed with the obfuscation key.
pub open spec fn xor_bytes(data: Seq<u8>) -> Seq<u8> {
    data.map_values(|b: u8| b ^ OBFUSCATION_KEY)
}

/// Obfuscates a record for the file store: every byte XOR-ed with the key.
pub fn obfuscate(data: &[u8]) -> (r: Vec<u8>)
    ensures
        r@ == xor_bytes(data@),
{
    let mut out: Vec<u8> = Vec::with_capacity(data.len());
    let mut i: usize = 0;
    while i < data.len()
        invariant
            i <= data@.len(),
            out@ == xor_bytes(data@.subrange(0, i as int)),
        decreases data@.len() - i,
    {
        out.push(data[i] ^ OBFUSCATION_KEY);
        i = i + 1;
        assert(xor_bytes(data@.subrange(0, i as int)) =~= xor_bytes(data@.subrange(0, (i - 1) as int)).push(data@[i - 1] ^ OBFUSCATION_KEY));
    }
    assert(data@.subrange(0, data@.len() as int) =~= data@);
    out
}

/// Recovers a record read from the file store; the inverse of `obfuscate`.
pub fn deobfuscate(data: &[u8]) -> (r: Vec<u8>)
    ensures
        r@ == xor_bytes(data@),
{
    obfuscate(data)
}

/// XOR with a fixed byte undoes itself.
proof fn lemma_xor_byte_twice(b: u8)
    ensures
        (b ^ OBFUSCATION_KEY) ^ OBFUSCATION_KEY == b,
{
    assert((b ^ 0x42u8) ^ 0x42u8 == b) by (bit_vector);
}

/// Decoding the encoding of any byte sequence gives back that sequence.
pub proof fn lemma_obfuscation_involution(data: Seq<u8>)
    ensures
        xor_bytes(xor_bytes(data)) == data,
{
    assert forall|i: int| 0 <= i < data.len() implies #[trigger] xor_bytes(xor_bytes(data))[i] == data[i] by {
        lemma_xor_byte_twice(data[i]);
    }
    assert(xor_bytes(xor_bytes(data)) =~= data);
}

} // verus!
