//! The line under a group's name that lists its members.

use vstd::prelude::*;
use vstd::utf8::encode_utf8;
use crate::protocol::UserInfo;

verus! {

/// Names joined with ", ".
pub open spec fn joined(names: Seq<Seq<char>>) -> Seq<char>
    decreases names.len(),
{
    if names.len() == 0 {
        Seq::empty()
    } else if names.len() == 1 {
        names[0]
    } else {
        joined(names.drop_last()) + ", "@ + names.last()
    }
}

/// Whether a text takes more than sixty bytes in UTF-8.
pub open spec fn too_long(s: Seq<char>) -> bool {
    (encode_utf8(s).len() as usize) > 60
}

/// Joining the names one at a time from the `k`-th on: as soon as the text
/// grows past sixty bytes it is cut there and marked with "...".
pub open spec fn subtitle_from(names: Seq<Seq<char>>, k: nat) -> Seq<char>
    decreases names.len() - k,
{
    if k >= names.len() {
        joined(names)
    } else {
        let cur = joined(names.take((k + 1) as int));
        if too_long(cur) {
            cur + "..."@
        } else {
            subtitle_from(names, k + 1)
        }
    }
}

pub open spec fn usernames(members: Seq<UserInfo>) -> Seq<Seq<char>> {
    members.map_values(|u: UserInfo| u.username@)
}

proof fn joined_step(names: Seq<Seq<char>>, i: int)
    requires
        0 <= i < names.len(),
    ensures
        joined(names.take(i + 1)) == if i == 0 {
            names[0]
        } else {
            joined(names.take(i)) + ", "@ + names[i]
        },
{
    let t = names.take(i + 1);
    assert(t.drop_last() =~= names.take(i));
    assert(t.last() == names[i]);
    if i == 0 {
        assert(t.len() == 1);
        assert(t[0] == names[0]);
    }
}

/// The member names joined with ", ", cut after the first name that makes
/// the line longer than sixty bytes and then marked with "...".
pub fn generate_members_subtitle(members: &[UserInfo]) -> (r: String)
    ensures
        r@ == subtitle_from(usernames(members@), 0),
{
    let ghost all = usernames(members@);
    let mut names = String::new();
    let mut i: usize = 0;
    assert(all.take(0) =~= Seq::<Seq<char>>::empty());
    while i < members.len()
        invariant
            all == usernames(members@),
            i <= members.len(),
            names@ == joined(all.take(i as int)),
            subtitle_from(all, 0) == subtitle_from(all, i as nat),
        decreases members.len() - i,
    {
        if i > 0 {
            names.append(", ");
        }
        names.append(members[i].username.as_str());
        proof {
            joined_step(all, i as int);
        }
        assert(names@ == joined(all.take(i + 1)));
        if names.as_str().len() > 60 {
            names.append("...");
            return names;
        }
        i = i + 1;
    }
    assert(all.take(members.len() as int) =~= all);
    names
}

} // verus!
