use vstd::prelude::*;
use vstd::arithmetic::div_mod::lemma_div_by_multiple;
use vstd::arithmetic::div_mod::lemma_fundamental_div_mod;
use vstd::arithmetic::div_mod::lemma_mod_multiples_basic;

use crate::errors::DecodeError;

verus! {

/// Whether `len` bytes can hold a serialized public witness: at least the
/// 12-byte header, and the remainder a whole number of 32-byte elements.
pub open spec fn valid_witness_len(len: int) -> bool {
    len >= 12 && (len - 12) % 32 == 0
}

/// How many 32-byte field elements a witness buffer of `len` bytes holds.
pub open spec fn element_count(len: int) -> int {
    (len - 12) / 32
}

/// The bytes of field element `i`: the `i`th 32-byte chunk after the header.
pub open spec fn element_bytes(bytes: Seq<u8>, i: int) -> Seq<u8> {
    bytes.subrange(12 + 32 * i, 12 + 32 * (i + 1))
}

/// A decoded public witness: the 12-byte header verbatim (opaque to this
/// codec, its internal semantics belong to the protocol around it) and
/// the ordered 32-byte field elements. Element `i` corresponds to circuit
/// public input `i`.
#[derive(Debug, Clone, PartialEq, Eq)]
pub struct PublicWitness {
    pub header: [u8; 12],
    pub inputs: Vec<[u8; 32]>,
}

/// Decode a witness buffer into its header and field elements.
///
/// Fails with `TooShort` exactly when the buffer holds fewer than 12
/// bytes, and with `InvalidLength` exactly when it holds at least 12
/// bytes but the remainder is not a whole number of 32-byte elements.
/// On success the header is the first 12 bytes verbatim and element `i`
/// is the `i`th 32-byte chunk after them, in buffer order.
pub fn parse_public_witness(public_witness_bytes: &[u8]) -> (r: Result<PublicWitness, DecodeError>)
    ensures
        public_witness_bytes@.len() < 12 ==> r == Err::<PublicWitness, DecodeError>(
            DecodeError::TooShort,
        ),
        public_witness_bytes@.len() >= 12 && (public_witness_bytes@.len() - 12) % 32 != 0 ==> r
            == Err::<PublicWitness, DecodeError>(DecodeError::InvalidLength),
        valid_witness_len(public_witness_bytes@.len() as int) ==> {
            &&& r is Ok
            &&& r->Ok_0.header@ == public_witness_bytes@.subrange(0, 12)
            &&& r->Ok_0.inputs@.len() == element_count(public_witness_bytes@.len() as int)
            &&& forall|i: int|
                0 <= i < r->Ok_0.inputs@.len() ==> r->Ok_0.inputs@[i]@ == element_bytes(
                    public_witness_bytes@,
                    i,
                )
        },
{
    let n = public_witness_bytes.len();
    if n < 12 {
        return Err(DecodeError::TooShort);
    }
    if (n - 12) % 32 != 0 {
        return Err(DecodeError::InvalidLength);
    }

    let mut header: [u8; 12] = [0u8; 12];
    let mut i: usize = 0;
    while i < 12
        invariant
            i <= 12,
            public_witness_bytes@.len() >= 12,
            forall|j: int| 0 <= j < i ==> header@[j] == public_witness_bytes@[j],
        decreases 12 - i,
    {
        header[i] = public_witness_bytes[i];
        i += 1;
    }
    assert(header@ =~= public_witness_bytes@.subrange(0, 12));

    let count = (n - 12) / 32;
    proof {
        lemma_fundamental_div_mod(n as int - 12, 32);
        assert(32 * count == n - 12);
    }
    let mut inputs: Vec<[u8; 32]> = Vec::new();
    let mut e: usize = 0;
    while e < count
        invariant
            n == public_witness_bytes@.len(),
            n >= 12,
            32 * count == n - 12,
            e <= count,
            inputs@.len() == e,
            forall|k: int|
                0 <= k < e ==> inputs@[k]@ == element_bytes(public_witness_bytes@, k),
        decreases count - e,
    {
        let off = 12 + 32 * e;
        let mut el: [u8; 32] = [0u8; 32];
        let mut j: usize = 0;
        while j < 32
            invariant
                n == public_witness_bytes@.len(),
                off == 12 + 32 * e,
                off + 32 <= n,
                j <= 32,
                forall|k: int| 0 <= k < j ==> el@[k] == public_witness_bytes@[off + k],
            decreases 32 - j,
        {
            el[j] = public_witness_bytes[off + j];
            j += 1;
        }
        assert(el@ =~= element_bytes(public_witness_bytes@, e as int));
        inputs.push(el);
        e += 1;
    }

    Ok(PublicWitness { header, inputs })
}

/// All members of `elems` are 32 bytes long.
pub open spec fn all_elements_sized(elems: Seq<Seq<u8>>) -> bool {
    forall|i: int| 0 <= i < elems.len() ==> elems[i].len() == 32
}

/// Flattening a sequence of 32-byte elements yields `32 * k` bytes, and
/// byte `32 * q + j` of the result is byte `j` of element `q`.
proof fn lemma_flatten_fixed_size(elems: Seq<Seq<u8>>)
    requires
        all_elements_sized(elems),
    ensures
        elems.flatten().len() == 32 * elems.len(),
        forall|q: int, j: int|
            0 <= q < elems.len() && 0 <= j < 32 ==> elems.flatten()[32 * q + j] == elems[q][j],
    decreases elems.len(),
{
    if elems.len() == 0 {
    } else {
        let rest = elems.drop_first();
        assert(all_elements_sized(rest));
        lemma_flatten_fixed_size(rest);
        assert(elems.flatten() == elems.first() + rest.flatten());
        assert forall|q: int, j: int|
            0 <= q < elems.len() && 0 <= j < 32 implies elems.flatten()[32 * q + j]
            == elems[q][j] by {
            if q == 0 {
                assert(elems.flatten()[j] == elems.first()[j]);
            } else {
                assert(elems.flatten()[32 * q + j] == rest.flatten()[32 * (q - 1) + j]);
                assert(rest[q - 1] == elems[q]);
            }
        }
    }
}

/// Structure preservation: a buffer assembled from a 12-byte header and
/// any ordered 32-byte elements has a valid witness shape, and the model
/// that `parse_public_witness` promises recovers that header and each
/// element unchanged, in the original order.
pub proof fn lemma_witness_structure(header: Seq<u8>, elems: Seq<Seq<u8>>)
    requires
        header.len() == 12,
        all_elements_sized(elems),
    ensures
        (header + elems.flatten()).len() == 12 + 32 * elems.len(),
        valid_witness_len((header + elems.flatten()).len() as int),
        element_count((header + elems.flatten()).len() as int) == elems.len(),
        (header + elems.flatten()).subrange(0, 12) == header,
        forall|i: int|
            0 <= i < elems.len() ==> element_bytes(header + elems.flatten(), i) == elems[i],
{
    let buf = header + elems.flatten();
    let k = elems.len() as int;
    lemma_flatten_fixed_size(elems);
    lemma_mod_multiples_basic(k, 32);
    lemma_div_by_multiple(k, 32);
    assert(buf.subrange(0, 12) =~= header);
    assert forall|i: int| 0 <= i < k implies element_bytes(buf, i) == elems[i] by {
        assert forall|j: int| 0 <= j < 32 implies element_bytes(buf, i)[j] == elems[i][j] by {
            assert(element_bytes(buf, i)[j] == buf[12 + 32 * i + j]);
            assert(buf[12 + 32 * i + j] == elems.flatten()[32 * i + j]);
        }
        assert(element_bytes(buf, i) =~= elems[i]);
    }
}

} // verus!
