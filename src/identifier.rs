use vstd::prelude::*;
use crate::error::StoreError;

verus! {

/// A character that separates path components on some platform.
pub open spec fn is_separator(c: char) -> bool {
    c == '/' || c == '\\'
}

/// A character that an identifier may hold anywhere.
pub open spec fn allowed_char(c: char) -> bool {
    !is_separator(c) && c != '\0'
}

/// An identifier names exactly one entry directly under the store's root:
/// it is non-empty, holds no separator and no NUL, and does not begin with
/// `.`, which rules out `.`, `..` and the names of in-progress writes.
pub open spec fn valid_identifier(s: Seq<char>) -> bool {
    &&& s.len() > 0
    &&& s[0] != '.'
    &&& forall|i: int| 0 <= i < s.len() ==> allowed_char(#[trigger] s[i])
}

/// Decides whether `id` may name an entry.
pub fn is_valid_identifier(id: &str) -> (r: bool)
    ensures
        r == valid_identifier(id@),
{
    let n = id.unicode_len();
    if n == 0 {
        return false;
    }
    if id.get_char(0) == '.' {
        return false;
    }
    let mut i: usize = 0;
    while i < n
        invariant
            n == id@.len(),
            0 <= i <= n,
            forall|j: int| 0 <= j < i ==> allowed_char(#[trigger] id@[j]),
        decreases n - i,
    {
        let c = id.get_char(i);
        if c == '/' || c == '\\' || c == '\0' {
            return false;
        }
        i += 1;
    }
    true
}

/// Accepts a valid identifier and rejects any other with `InvalidIdentifier`.
pub fn validate_identifier(id: &str) -> (r: Result<(), StoreError>)
    ensures
        r is Ok <==> valid_identifier(id@),
        r is Err ==> r == Err::<(), StoreError>(StoreError::InvalidIdentifier),
{
    if is_valid_identifier(id) {
        Ok(())
    } else {
        Err(StoreError::InvalidIdentifier)
    }
}

} // verus!
