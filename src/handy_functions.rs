//! Small helpers on names of types.
use vstd::prelude::*;
use vstd::string::StringSliceAdditionalSpecFns;

verus! {

/// Whether `a` and `b` hold the same text, compared byte by byte.
pub fn comptime_str_eq(a: &str, b: &str) -> (r: bool)
    ensures
        r == (a@ == b@),
{
    let bytes_a = a.as_bytes();
    let bytes_b = b.as_bytes();
    proof {
        vstd::utf8::encode_utf8_decode_utf8(a@);
        vstd::utf8::encode_utf8_decode_utf8(b@);
    }
    if bytes_a.len() != bytes_b.len() {
        return false;
    }
    let mut i: usize = 0;
    while i < bytes_a.len()
        invariant
            bytes_a@ == a.spec_bytes(),
            bytes_b@ == b.spec_bytes(),
            bytes_a@.len() == bytes_b@.len(),
            i <= bytes_a@.len(),
            forall|j: int| 0 <= j < i ==> bytes_a@[j] == bytes_b@[j],
        decreases bytes_a@.len() - i,
    {
        if bytes_a[i] != bytes_b[i] {
            return false;
        }
        i = i + 1;
    }
    assert(a.spec_bytes() =~= b.spec_bytes());
    true
}

/// The bytes of "dyn ", the prefix of the name of every trait object type.
pub open spec fn dyn_prefix() -> Seq<u8> {
    seq![100u8, 121u8, 110u8, 32u8]
}

/// Whether a type with the name `name`, whose references take `ref_size`
/// bytes, is a trait object type: its name starts with "dyn " and its
/// references are as wide as those to a trait object, `trait_object_ref_size`.
pub fn is_trait_object_layout(name: &str, ref_size: usize, trait_object_ref_size: usize) -> (r: bool)
    ensures
        r == (name.spec_bytes().len() >= 4 && name.spec_bytes().take(4) == dyn_prefix()
            && ref_size == trait_object_ref_size),
{
    let bytes = name.as_bytes();
    if bytes.len() < 4 {
        return false;
    }
    let prefix_matches = bytes[0] == 100u8 && bytes[1] == 121u8 && bytes[2] == 110u8 && bytes[3] == 32u8;
    assert(prefix_matches == (bytes@.take(4) =~= dyn_prefix()));
    prefix_matches && ref_size == trait_object_ref_size
}

} // verus!
