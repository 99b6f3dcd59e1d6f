//! The host identity under which a new pairing is made: the toggled build
//! identifier and the fresh host pairing identifier.

use vstd::prelude::*;

verus! {

/// The host build identifier under which a new pairing is made: the first
/// character becomes `'A'` where it was `'F'` and `'F'` otherwise; the rest,
/// and the empty identifier, stay as they are.
pub open spec fn toggled(buid: Seq<char>) -> Seq<char> {
    if buid.len() == 0 {
        buid
    } else {
        buid.update(0, if buid[0] == 'F' { 'A' } else { 'F' })
    }
}

/// Gives the host identity that differs from the one already active, so that
/// a new pairing does not invalidate a session held under the active one.
pub fn toggle_buid(buid: &str) -> (out: String)
    ensures
        out@ == toggled(buid@),
{
    let n: usize = buid.unicode_len();
    if n == 0 {
        return String::new();
    }
    let head = if buid.get_char(0) == 'F' { "A" } else { "F" };
    let rest = buid.substring_char(1, n);
    let out = String::from_str(head).concat(rest);
    proof {
        reveal_strlit("A");
        reveal_strlit("F");
        assert(out@ =~= toggled(buid@));
    }
    out
}

/// Whether `c` is a digit of upper-case hexadecimal.
pub open spec fn is_upper_hex(c: char) -> bool {
    ('0' <= c && c <= '9') || ('A' <= c && c <= 'F')
}

/// The shape of a host pairing identifier: 36 characters, hyphens at the
/// places 8, 13, 18 and 23, upper-case hexadecimal digits elsewhere.
pub open spec fn is_host_id(id: Seq<char>) -> bool {
    &&& id.len() == 36
    &&& forall|i: int|
        0 <= i < 36 ==> if i == 8 || i == 13 || i == 18 || i == 23 {
            #[trigger] id[i] == '-'
        } else {
            is_upper_hex(id[i])
        }
}

/// A fresh host pairing identifier, made by `uuid::Uuid::new_v4` and written
/// out by `uuid::fmt::Hyphenated::encode_upper`. The identifier is random, so
/// the contract states its shape only: what the encoder gives for every
/// value, 32 upper-case hexadecimal digits in groups of 8, 4, 4, 4 and 12
/// with a hyphen between the groups.
#[verifier::external_body]
pub(crate) fn fresh_host_id() -> (id: String)
    ensures
        is_host_id(id@),
{
    uuid::Uuid::new_v4().hyphenated().encode_upper(&mut uuid::Uuid::encode_buffer()).to_string()
}

/// Toggling changes nothing but the first character, and never yields the
/// identifier it was given unless that identifier is empty.
pub proof fn toggle_changes_first_only(buid: Seq<char>)
    ensures
        toggled(buid).len() == buid.len(),
        forall|i: int| 1 <= i < buid.len() ==> toggled(buid)[i] == buid[i],
        buid.len() > 0 && buid[0] == 'F' ==> toggled(buid)[0] == 'A',
        buid.len() > 0 && buid[0] != 'F' ==> toggled(buid)[0] == 'F',
        buid.len() > 0 ==> toggled(buid) != buid,
        buid.len() == 0 ==> toggled(buid) == buid,
{
    if buid.len() > 0 {
        assert(toggled(buid)[0] != buid[0]);
    }
}

} // verus!
