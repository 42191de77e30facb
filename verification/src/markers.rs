//! Validation of the concurrency markers on a deferred-static declaration.
//!
//! A declaration may carry zero or more configuration tokens, each asserting
//! a capability of the generated handle type: `Send` (thread-shareable) or
//! `Sync` (concurrently accessible). Any other token is a declaration-time
//! error, and duplicates collapse: the outcome is only which of the two
//! capabilities were requested.

use vstd::prelude::*;

use crate::errors::ExpandError;

verus! {

/// A token is a recognized concurrency marker exactly when it is `Send` or
/// `Sync`.
pub open spec fn is_marker_token(t: Seq<char>) -> bool {
    t == "Send"@ || t == "Sync"@
}

/// Every token in the list is a recognized marker.
pub open spec fn markers_valid(tokens: Seq<String>) -> bool {
    forall|i: int| 0 <= i < tokens.len() ==> is_marker_token(#[trigger] tokens[i]@)
}

/// The token `t` occurs somewhere in the list.
pub open spec fn has_token(tokens: Seq<String>, t: Seq<char>) -> bool {
    exists|i: int| 0 <= i < tokens.len() && #[trigger] tokens[i]@ == t
}

/// The set of capabilities a declaration requested, duplicates collapsed.
#[derive(Clone, Copy, Debug, PartialEq, Eq, Structural)]
pub struct MarkerSet {
    /// The handle type is asserted thread-shareable (`Send`).
    pub send: bool,
    /// The handle type is asserted safe for concurrent access (`Sync`).
    pub sync: bool,
}

/// Checks the configuration tokens of a declaration. Accepts exactly the
/// lists whose every token is `Send` or `Sync`, collapsing duplicates into
/// a [`MarkerSet`]; any other token is rejected.
pub fn parse_markers(tokens: &Vec<String>) -> (r: Result<MarkerSet, ExpandError>)
    ensures
        r is Ok <==> markers_valid(tokens@),
        r matches Ok(m) ==> {
            &&& m.send <==> has_token(tokens@, "Send"@)
            &&& m.sync <==> has_token(tokens@, "Sync"@)
        },
        r is Err ==> r == Err::<MarkerSet, ExpandError>(ExpandError::UnrecognizedMarker),
{
    let send_tok = String::from_str("Send");
    let sync_tok = String::from_str("Sync");
    let mut send = false;
    let mut sync = false;
    let mut i: usize = 0;
    while i < tokens.len()
        invariant
            i <= tokens@.len(),
            send_tok@ == "Send"@,
            sync_tok@ == "Sync"@,
            forall|j: int| 0 <= j < i ==> is_marker_token(#[trigger] tokens@[j]@),
            send <==> exists|j: int| 0 <= j < i && #[trigger] tokens@[j]@ == "Send"@,
            sync <==> exists|j: int| 0 <= j < i && #[trigger] tokens@[j]@ == "Sync"@,
        decreases tokens@.len() - i,
    {
        proof {
            reveal_strlit("Send");
            reveal_strlit("Sync");
            assert("Send"@[1] == 'e');
            assert("Sync"@[1] == 'y');
            assert("Send"@ != "Sync"@);
        }
        let t = &tokens[i];
        if t.eq(&send_tok) {
            send = true;
        } else if t.eq(&sync_tok) {
            sync = true;
        } else {
            return Err(ExpandError::UnrecognizedMarker);
        }
        i = i + 1;
    }
    Ok(MarkerSet { send, sync })
}

} // verus!
