//! Canonicalization of filename paths extracted from the container.
//!
//! Device-native path separators (the colon used on the device, and the
//! backslash) are mapped to the single conventional separator `/`; no other
//! transformation is applied. The function is total: any string in, a
//! normalized string out.

use crate::text::push_char;
use vstd::prelude::*;
use vstd::string::StrSliceExecFns;

verus! {

/// Whether `c` is a device-native path separator that canonicalization
/// replaces.
pub open spec fn is_device_separator(c: char) -> bool {
    c == ':' || c == '\\'
}

/// The canonical form of a path: every device-native separator replaced by
/// `/`, every other character kept.
pub open spec fn canonical_path(s: Seq<char>) -> Seq<char> {
    s.map_values(
        |c: char|
            if is_device_separator(c) {
                '/'
            } else {
                c
            },
    )
}

/// Normalizes a raw filename read from a metadata-object record into the
/// canonical path form used by the rest of the system.
pub fn get_canonical_path(filename: String) -> (r: String)
    ensures
        r@ == canonical_path(filename@),
{
    let n = filename.as_str().unicode_len();
    let mut r = String::new();
    let mut i: usize = 0;
    while i < n
        invariant
            i <= n,
            n == filename@.len(),
            r@ == canonical_path(filename@).take(i as int),
        decreases n - i,
    {
        let c = filename.as_str().get_char(i);
        if c == ':' || c == '\\' {
            push_char(&mut r, '/');
        } else {
            push_char(&mut r, c);
        }
        proof {
            assert(r@ =~= canonical_path(filename@).take(i as int + 1));
        }
        i = i + 1;
    }
    proof {
        assert(canonical_path(filename@).take(n as int) =~= canonical_path(filename@));
    }
    r
}

/// A canonical path contains no device-native separator: every separator was
/// replaced, so mixed input always reaches the single normalized form.
pub proof fn lemma_canonical_path_no_separators(s: Seq<char>)
    ensures
        canonical_path(s).len() == s.len(),
        forall|i: int|
            0 <= i < canonical_path(s).len() ==> !is_device_separator(#[trigger] canonical_path(s)[i]),
{
}

/// Canonicalization is idempotent: an already-canonical path is unchanged.
pub proof fn lemma_canonical_path_idempotent(s: Seq<char>)
    ensures
        canonical_path(canonical_path(s)) == canonical_path(s),
{
    assert(canonical_path(canonical_path(s)) =~= canonical_path(s));
}

} // verus!
