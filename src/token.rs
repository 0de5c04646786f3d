use vstd::prelude::*;

verus! {

/// Compares a presented token with the configured one. The time taken
/// depends on the lengths only, not on where the two first differ.
pub fn tokens_match(given: &String, token: &String) -> (r: bool)
    ensures
        r == (given@ == token@),
{
    let a = given.as_str().as_bytes();
    let b = token.as_str().as_bytes();
    proof {
        vstd::utf8::encode_utf8_decode_utf8(given@);
        vstd::utf8::encode_utf8_decode_utf8(token@);
    }
    if a.len() != b.len() {
        return false;
    }
    let mut diff: u8 = 0;
    let mut i: usize = 0;
    assert(a@.subrange(0, 0) =~= b@.subrange(0, 0));
    while i < a.len()
        invariant
            a@ == vstd::utf8::encode_utf8(given@),
            b@ == vstd::utf8::encode_utf8(token@),
            a.len() == b.len(),
            i <= a.len(),
            (diff == 0) <==> (a@.subrange(0, i as int) == b@.subrange(0, i as int)),
        decreases a.len() - i,
    {
        let x = a[i];
        let y = b[i];
        let next = diff | (x ^ y);
        assert((next == 0) <==> (diff == 0 && x == y)) by (bit_vector)
            requires
                next == diff | (x ^ y),
        ;
        proof {
            let k = i as int;
            assert(a@.subrange(0, k + 1) =~= a@.subrange(0, k).push(x));
            assert(b@.subrange(0, k + 1) =~= b@.subrange(0, k).push(y));
            if a@.subrange(0, k + 1) == b@.subrange(0, k + 1) {
                assert(a@.subrange(0, k) =~= a@.subrange(0, k + 1).drop_last());
                assert(b@.subrange(0, k) =~= b@.subrange(0, k + 1).drop_last());
                assert(a@.subrange(0, k + 1)[k] == x);
                assert(b@.subrange(0, k + 1)[k] == y);
            }
        }
        diff = next;
        i = i + 1;
    }
    assert(a@ =~= a@.subrange(0, a.len() as int));
    assert(b@ =~= b@.subrange(0, b.len() as int));
    diff == 0
}

} // verus!
