use vstd::prelude::*;

verus! {

/// The device credentials as owned buffers: the private key and the CA bundle.
pub fn get_certs(key: &[u8], ca: &[u8]) -> (r: (Vec<u8>, Vec<u8>))
    ensures
        r.0@ == key@,
        r.1@ == ca@,
{
    (copy_bytes(key), copy_bytes(ca))
}

fn copy_bytes(src: &[u8]) -> (r: Vec<u8>)
    ensures
        r@ == src@,
{
    let mut r: Vec<u8> = Vec::new();
    let mut i: usize = 0;
    while i < src.len()
        invariant
            i <= src@.len(),
            r@ == src@.subrange(0, i as int),
        decreases src@.len() - i,
    {
        r.push(src[i]);
        i = i + 1;
    }
    r
}

} // verus!
