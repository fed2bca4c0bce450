//! The canonical message: the exact character sequence that gets signed.
//!
//! Field order and delimiter are fixed; generation and verification must
//! assemble the identical sequence or the signature check fails by
//! construction.

use vstd::prelude::*;
use vstd::string::StringExecFns;
use crate::fields::delim;

verus! {

/// `marker | timestamp | content`, the sequence to be signed.
pub open spec fn spec_message(marker: Seq<char>, ts: Seq<char>, content: Seq<char>) -> Seq<char> {
    marker + seq![delim()] + ts + seq![delim()] + content
}

/// Assembles the canonical message from its three textual fields.
pub fn build_message(marker: &str, ts: &str, content: &str) -> (r: String)
    ensures
        r@ == spec_message(marker@, ts@, content@),
{
    let mut m = marker.to_owned();
    m.append("|");
    m.append(ts);
    m.append("|");
    m.append(content);
    proof {
        reveal_strlit("|");
        assert("|"@ =~= seq![delim()]);
        assert(m@ =~= spec_message(marker@, ts@, content@));
    }
    m
}

} // verus!
