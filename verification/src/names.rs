//! Deriving graph names from shared-memory transport paths.
//!
//! The subgraph built for an endpoint is named after its transport
//! path's final component, so that a later removal, which carries only
//! the path, can find it again.

use vstd::prelude::*;
use vstd::string::*;

verus! {

/// The suffix of `s` after its final `/`, or all of `s` when it has
/// none.
pub open spec fn last_component(s: Seq<char>) -> Seq<char>
    decreases s.len(),
{
    if s.len() == 0 {
        s
    } else if s.last() == '/' {
        Seq::<char>::empty()
    } else {
        last_component(s.drop_last()).push(s.last())
    }
}

/// A transport path names an endpoint only if it ends in a non-empty
/// final component; the worker process's socket paths always do.
pub open spec fn names_endpoint(path: Seq<char>) -> bool {
    last_component(path).len() > 0
}

/// The name of the endpoint bound to transport path `path`: the path's
/// final component.
pub fn endpoint_name_of(path: &str) -> (r: String)
    ensures
        r@ == last_component(path@),
{
    let len = path.unicode_len();
    let mut start: usize = 0;
    let mut i: usize = 0;
    while i < len
        invariant
            start <= i <= len,
            len == path@.len(),
            last_component(path@.subrange(0, i as int)) == path@.subrange(
                start as int,
                i as int,
            ),
        decreases len - i,
    {
        let c = path.get_char(i);
        proof {
            let prefix = path@.subrange(0, i as int);
            let grown = path@.subrange(0, i + 1);
            assert(grown =~= prefix.push(path@[i as int]));
            assert(grown.drop_last() =~= prefix);
            if path@[i as int] == '/' {
                assert(last_component(grown) =~= path@.subrange(i + 1, i + 1));
            } else {
                assert(last_component(grown) =~= path@.subrange(start as int, i + 1));
            }
        }
        if c == '/' {
            start = i + 1;
        }
        i = i + 1;
    }
    proof {
        assert(path@.subrange(0, len as int) =~= path@);
    }
    let sub = path.substring_char(start, len);
    String::from_str(sub)
}

} // verus!
