use vstd::prelude::*;
use vstd::string::StrSliceExecFns;

use crate::error::AttrError;

verus! {

/// No `=` sign occurs in `s`.
pub open spec fn has_no_eq(s: Seq<char>) -> bool {
    forall|j: int| 0 <= j < s.len() ==> s[j] != '='
}

/// Parse one `--attr` argument of the form `key=value`.
///
/// The split is at the first `=`: the key is everything before it and holds
/// no `=` itself, the value is everything after it and may be empty or hold
/// further `=` signs. An empty key is refused, and so is text without any
/// separator; those are the only failures.
pub fn parse_attr(kv: &str) -> (r: Result<(String, String), AttrError>)
    ensures
        match r {
            Ok((k, v)) => {
                &&& kv@ == k@ + seq!['='] + v@
                &&& k@.len() > 0
                &&& has_no_eq(k@)
            },
            Err(AttrError::EmptyKey) => kv@.len() > 0 && kv@[0] == '=',
            Err(AttrError::MissingSeparator) => has_no_eq(kv@),
        },
{
    let n = kv.unicode_len();
    let mut i: usize = 0;
    while i < n
        invariant
            i <= n,
            n == kv@.len(),
            forall|j: int| 0 <= j < i ==> kv@[j] != '=',
        decreases n - i,
    {
        if kv.get_char(i) == '=' {
            if i == 0 {
                return Err(AttrError::EmptyKey);
            }
            let k = kv.substring_char(0, i).to_owned();
            let v = kv.substring_char(i + 1, n).to_owned();
            proof {
                assert(kv@ =~= k@ + seq!['='] + v@);
            }
            return Ok((k, v));
        }
        i += 1;
    }
    Err(AttrError::MissingSeparator)
}

} // verus!
