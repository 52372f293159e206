//! Text that the registration flow builds: the full name, the messages of the
//! response, and the classification of a failed insert.
use vstd::prelude::*;
use vstd::string::*;

verus! {

/// A full name: the first name, one space, the last name.
pub open spec fn spec_full_name(first: Seq<char>, last: Seq<char>) -> Seq<char> {
    first + seq![' '] + last
}

/// The message of a successful registration.
pub open spec fn spec_success_message(email: Seq<char>) -> Seq<char> {
    "User with email '"@ + email + "' registered successfully!"@
}

/// `needle` stands in `hay` starting at position `i`.
pub open spec fn occurs_at(hay: Seq<char>, needle: Seq<char>, i: int) -> bool {
    &&& 0 <= i
    &&& i + needle.len() <= hay.len()
    &&& hay.subrange(i, i + needle.len()) == needle
}

/// `needle` is a substring of `hay` (case-sensitive).
pub open spec fn spec_contains(hay: Seq<char>, needle: Seq<char>) -> bool {
    exists|i: int| occurs_at(hay, needle, i)
}

/// A failed insert whose error text speaks of a uniqueness violation.
pub open spec fn is_duplicate_error(detail: Seq<char>) -> bool {
    spec_contains(detail, "unique"@) || spec_contains(detail, "duplicate"@)
}

/// The error reported for a failed insert, given the store's error text.
pub open spec fn spec_insert_error(detail: Seq<char>) -> Seq<char> {
    if is_duplicate_error(detail) {
        "Email already exists"@
    } else {
        "Database error: "@ + detail
    }
}

/// The characters of `s`, one per element.
fn chars_of(s: &str) -> (r: Vec<char>)
    ensures
        r@ == s@,
{
    let n: usize = s.unicode_len();
    let mut out: Vec<char> = Vec::new();
    let mut i: usize = 0;
    while i < n
        invariant
            n == s@.len(),
            i <= n,
            out@ == s@.subrange(0, i as int),
        decreases n - i,
    {
        out.push(s.get_char(i));
        i += 1;
    }
    assert(out@ =~= s@);
    out
}

/// Whether `needle` occurs in `hay`, comparing characters exactly.
pub fn contains(hay: &str, needle: &str) -> (r: bool)
    ensures
        r == spec_contains(hay@, needle@),
{
    let h = chars_of(hay);
    let n = chars_of(needle);
    if n.len() > h.len() {
        assert forall|k: int| !occurs_at(hay@, needle@, k) by {}
        return false;
    }
    let last: usize = h.len() - n.len();
    let mut i: usize = 0;
    while i <= last
        invariant
            h@ == hay@,
            n@ == needle@,
            last + n.len() == h.len(),
            i <= last + 1,
            forall|k: int| 0 <= k < i ==> !occurs_at(hay@, needle@, k),
        decreases last + 1 - i,
    {
        let mut j: usize = 0;
        while j < n.len() && h[i + j] == n[j]
            invariant
                h@ == hay@,
                n@ == needle@,
                i <= last,
                last + n.len() == h.len(),
                j <= n.len(),
                forall|t: int| 0 <= t < j ==> h@[i + t] == n@[t],
            decreases n.len() - j,
        {
            j += 1;
        }
        if j == n.len() {
            assert(hay@.subrange(i as int, i + n.len()) =~= needle@);
            assert(occurs_at(hay@, needle@, i as int));
            return true;
        }
        assert(!occurs_at(hay@, needle@, i as int)) by {
            if occurs_at(hay@, needle@, i as int) {
                assert(hay@.subrange(i as int, i + n.len())[j as int] == needle@[j as int]);
            }
        }
        i += 1;
    }
    false
}

/// The full name stored for a new user: `first`, one space, `last`.
pub fn full_name(first: &str, last: &str) -> (r: String)
    ensures
        r@ == spec_full_name(first@, last@),
{
    proof {
        reveal_strlit(" ");
    }
    let r = String::from_str(first).concat(" ").concat(last);
    assert(r@ =~= spec_full_name(first@, last@));
    r
}

/// `prefix` followed by `detail`.
pub fn prefixed(prefix: &str, detail: &str) -> (r: String)
    ensures
        r@ == prefix@ + detail@,
{
    String::from_str(prefix).concat(detail)
}

/// The message of a successful registration of `email`.
pub fn success_message(email: &str) -> (r: String)
    ensures
        r@ == spec_success_message(email@),
{
    String::from_str("User with email '").concat(email).concat("' registered successfully!")
}

/// The error reported when the store refuses an insert with error text `detail`:
/// a uniqueness violation reads as an existing email, anything else as a
/// database error that carries the detail.
pub fn insert_error(detail: &str) -> (r: String)
    ensures
        r@ == spec_insert_error(detail@),
{
    if contains(detail, "unique") || contains(detail, "duplicate") {
        String::from_str("Email already exists")
    } else {
        prefixed("Database error: ", detail)
    }
}

} // verus!
