use vstd::prelude::*;
use vstd::utf8::encode_utf8;

verus! {

/// Encodes each protocol name as its UTF-8 bytes, keeping the order.
pub fn alpn_protocol_ids(protocols: &Vec<String>) -> (ids: Vec<Vec<u8>>)
    ensures
        ids@.len() == protocols@.len(),
        forall|i: int| 0 <= i < ids@.len() ==> #[trigger] ids@[i]@ == encode_utf8(protocols@[i]@),
        ids@.map_values(|v: Vec<u8>| v@) == protocols@.map_values(|p: String| encode_utf8(p@)),
{
    let mut ids: Vec<Vec<u8>> = Vec::new();
    let n: usize = protocols.len();
    for i in 0..n
        invariant
            n == protocols@.len(),
            ids@.len() == i,
            forall|j: int| 0 <= j < i ==> #[trigger] ids@[j]@ == encode_utf8(protocols@[j]@),
    {
        let bytes: Vec<u8> = vstd::slice::slice_to_vec(protocols[i].as_str().as_bytes());
        ids.push(bytes);
    }
    assert(ids@.map_values(|v: Vec<u8>| v@) =~= protocols@.map_values(|p: String| encode_utf8(p@)));
    ids
}

} // verus!
