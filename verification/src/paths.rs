//! Joining byte-string paths. A single rule is used everywhere: a `/` is
//! inserted between the two parts unless the base already ends in a
//! separator, and an empty base yields the name alone.

use vstd::prelude::*;
use crate::text::append_bytes;

verus! {

/// Whether `b` is a path separator (`/` or `\`).
pub open spec fn is_separator(b: u8) -> bool {
    b == 47 || b == 92
}

/// `base` and `name` joined into one path.
pub open spec fn spec_join(base: Seq<u8>, name: Seq<u8>) -> Seq<u8> {
    if base.len() == 0 {
        name
    } else if is_separator(base[base.len() - 1]) {
        base + name
    } else {
        base + seq![47u8] + name
    }
}

/// Joins a directory path and an entry name.
pub fn join_path(base: &Vec<u8>, name: &Vec<u8>) -> (r: Vec<u8>)
    ensures
        r@ == spec_join(base@, name@),
{
    let mut v: Vec<u8> = Vec::new();
    append_bytes(&mut v, base);
    if base.len() > 0 {
        let last = base[base.len() - 1];
        if !(last == 47 || last == 92) {
            v.push(47);
        }
    }
    append_bytes(&mut v, name);
    proof {
        assert(v@ =~= spec_join(base@, name@));
    }
    v
}

} // verus!
