use vstd::prelude::*;
use vstd::string::StrSliceExecFns;

verus! {

/// `n` occurs in `h` starting at position `i`.
pub open spec fn occurs_at(h: Seq<char>, n: Seq<char>, i: int) -> bool {
    0 <= i && i + n.len() <= h.len() && h.subrange(i, i + n.len() as int) == n
}

/// `n` occurs somewhere in `h`.
pub open spec fn contains_seq(h: Seq<char>, n: Seq<char>) -> bool {
    exists|i: int| occurs_at(h, n, i)
}

/// Substring search by characters.
#[verifier::loop_isolation(false)]
pub fn str_contains(h: &str, n: &str) -> (res: bool)
    ensures
        res == contains_seq(h@, n@),
{
    let hl = h.unicode_len();
    let nl = n.unicode_len();
    if nl > hl {
        proof {
            assert forall|i: int| !occurs_at(h@, n@, i) by {}
        }
        return false;
    }
    let mut i: usize = 0;
    while i <= hl - nl
        invariant
            i <= hl - nl + 1,
            forall|i2: int| 0 <= i2 < i ==> !occurs_at(h@, n@, i2),
        decreases hl - nl + 1 - i,
    {
        let mut j: usize = 0;
        let mut ok = true;
        while j < nl && ok
            invariant
                j <= nl,
                ok ==> forall|k: int| 0 <= k < j ==> h@[i + k] == n@[k],
                !ok ==> exists|k: int| 0 <= k < j && h@[i + k] != n@[k],
            decreases nl - j,
        {
            let hc = h.get_char(i + j);
            let nc = n.get_char(j);
            if hc != nc {
                ok = false;
            }
            j = j + 1;
        }
        if ok {
            proof {
                assert(h@.subrange(i as int, i + nl as int) =~= n@);
                assert(occurs_at(h@, n@, i as int));
            }
            return true;
        }
        proof {
            let k = choose|k: int| 0 <= k < j && h@[i + k] != n@[k];
            assert(!occurs_at(h@, n@, i as int)) by {
                if occurs_at(h@, n@, i as int) {
                    assert(h@.subrange(i as int, i + n@.len() as int)[k] == h@[i + k]);
                }
            }
        }
        i = i + 1;
    }
    proof {
        assert forall|i2: int| !occurs_at(h@, n@, i2) by {
            if 0 <= i2 < i {
            }
        }
    }
    false
}

/// Does a helper's captured output acknowledge success? The acknowledgment
/// is a JSON fragment, with or without a space after the colon.
pub fn indicates_success(out: &str) -> (res: bool)
    ensures
        res == (contains_seq(out@, "\"success\":true"@) || contains_seq(out@, "success\": true"@)),
{
    if str_contains(out, "\"success\":true") {
        true
    } else {
        str_contains(out, "success\": true")
    }
}

} // verus!
