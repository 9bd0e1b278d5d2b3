//! Objects: members in a fixed order between braces.

use vstd::prelude::*;
use crate::json::text::{push_quoted, quoted};

verus! {

/// One member of an object: its key, and its value as a token.
pub struct Member {
    pub key: Seq<char>,
    pub value: Seq<char>,
}

/// A member as it is written: the key as a string token, a colon, the value.
pub open spec fn member_text(member: Member) -> Seq<char> {
    quoted(member.key) + seq![':'] + member.value
}

/// Members as they are written: one after the other, with commas between.
pub open spec fn members_text(members: Seq<Member>) -> Seq<char>
    decreases members.len(),
{
    if members.len() == 0 {
        Seq::empty()
    } else if members.len() == 1 {
        member_text(members[0])
    } else {
        members_text(members.drop_last()) + seq![','] + member_text(members.last())
    }
}

/// The object that has these members in this order, without white space.
pub open spec fn object_text(members: Seq<Member>) -> Seq<char> {
    seq!['{'] + members_text(members) + seq!['}']
}

/// What begins a member: a comma unless it is the first, the key as a string
/// token, and the colon.
pub open spec fn member_head(first: bool, key: Seq<char>) -> Seq<char> {
    (if first {
        Seq::<char>::empty()
    } else {
        seq![',']
    }) + quoted(key) + seq![':']
}

/// An object that is still open: the brace and the members written so far.
pub open spec fn open_object_text(members: Seq<Member>) -> Seq<char> {
    seq!['{'] + members_text(members)
}

/// What one more member adds to an object that is still open.
pub proof fn lemma_open_object_push(members: Seq<Member>, member: Member)
    ensures
        open_object_text(members.push(member)) == open_object_text(members) + member_head(
            members.len() == 0,
            member.key,
        ) + member.value,
{
    assert(members.push(member).drop_last() =~= members);
    if members.len() == 0 {
        assert(members_text(members) =~= Seq::<char>::empty());
        assert(members_text(members.push(member)) =~= member_text(member));
        assert(open_object_text(members.push(member)) =~= open_object_text(members)
            + member_head(true, member.key) + member.value);
    } else {
        assert(members_text(members.push(member)) =~= members_text(members) + seq![',']
            + member_text(member));
        assert(open_object_text(members.push(member)) =~= open_object_text(members)
            + member_head(false, member.key) + member.value);
    }
}

/// Appends the beginning of one more member to `out`.
pub fn push_member_head(out: &mut String, first: bool, key: &str)
    ensures
        final(out)@ == old(out)@ + member_head(first, key@),
{
    proof {
        reveal_strlit(",");
        reveal_strlit(":");
    }
    if !first {
        out.append(",");
    }
    push_quoted(out, key);
    out.append(":");
    assert(out@ =~= old(out)@ + member_head(first, key@));
}

} // verus!
