//! Comparing texts by their characters.

use vstd::prelude::*;
use vstd::std_specs::iter::IteratorSpec;

verus! {

broadcast use vstd::string::group_string_axioms;

/// True when the two texts hold the same characters.
pub fn same_text(a: &str, b: &str) -> (r: bool)
    ensures
        r == (a@ == b@),
{
    let mut left = a.chars();
    let mut right = b.chars();
    let ghost mut n: int = 0;
    proof {
        assert(a@.skip(0) =~= a@);
        assert(b@.skip(0) =~= b@);
    }
    loop
        invariant
            0 <= n <= a@.len(),
            n <= b@.len(),
            left.remaining() == a@.skip(n),
            right.remaining() == b@.skip(n),
            a@.take(n) == b@.take(n),
        decreases a@.len() - n,
    {
        match left.next() {
            None => {
                let rest = right.next();
                proof {
                    assert(a@.take(n) =~= a@);
                    if rest is None {
                        assert(b@.take(n) =~= b@);
                    }
                }
                return rest.is_none();
            },
            Some(c) => {
                match right.next() {
                    None => {
                        return false;
                    },
                    Some(d) => {
                        proof {
                            assert(a@[n] == c && b@[n] == d);
                            assert(a@.skip(n).drop_first() =~= a@.skip(n + 1));
                            assert(b@.skip(n).drop_first() =~= b@.skip(n + 1));
                        }
                        if c != d {
                            return false;
                        }
                        proof {
                            assert(a@.take(n + 1) =~= a@.take(n).push(c));
                            assert(b@.take(n + 1) =~= b@.take(n).push(d));
                            n = n + 1;
                        }
                    },
                }
            },
        }
    }
}

} // verus!
