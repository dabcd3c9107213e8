//! Lookups in the player state: casts by number, members and scripts by
//! member number, handlers by name, and the like.  A table that holds a key
//! twice answers with its first entry.
use vstd::prelude::*;
use crate::model::{CastLib, CastMember, CastMemberRef, Script};

verus! {

/// The first index below `n` at which `p` holds, if there is one.
pub open spec fn first_index(n: int, p: spec_fn(int) -> bool) -> Option<int> {
    if exists|i: int| 0 <= i < n && #[trigger] p(i) && (forall|j: int| 0 <= j < i ==> !#[trigger] p(j)) {
        Some(choose|i: int| 0 <= i < n && #[trigger] p(i) && (forall|j: int| 0 <= j < i ==> !#[trigger] p(j)))
    } else {
        None
    }
}

pub proof fn lemma_first_index_found(n: int, p: spec_fn(int) -> bool, i: int)
    requires
        0 <= i < n,
        p(i),
        forall|j: int| 0 <= j < i ==> !#[trigger] p(j),
    ensures
        first_index(n, p) == Some(i),
{
    let k = choose|k: int| 0 <= k < n && #[trigger] p(k) && (forall|j: int| 0 <= j < k ==> !#[trigger] p(j));
    assert(0 <= k < n && p(k) && (forall|j: int| 0 <= j < k ==> !#[trigger] p(j)));
    if k < i {
        assert(!p(k));
    }
    if i < k {
        assert(!p(i));
    }
}

pub proof fn lemma_first_index_none(n: int, p: spec_fn(int) -> bool)
    requires
        forall|j: int| 0 <= j < n ==> !#[trigger] p(j),
    ensures
        first_index(n, p) is None,
{
}

/// Index predicate: the cast at `i` has number `number`.
pub open spec fn cast_has_number(casts: Seq<CastLib>, number: u32) -> spec_fn(int) -> bool {
    |i: int| casts[i].number == number
}

/// Where the cast with number `number` stands.
pub open spec fn cast_pos(casts: Seq<CastLib>, number: u32) -> Option<int> {
    first_index(casts.len() as int, cast_has_number(casts, number))
}

/// Finds the cast library with the given number.
pub fn cast_index(casts: &Vec<CastLib>, number: u32) -> (r: Option<usize>)
    ensures
        r matches Some(i) ==> cast_pos(casts@, number) == Some(i as int),
        r is None ==> cast_pos(casts@, number) is None,
{
    let mut i: usize = 0;
    while i < casts.len()
        invariant
            i <= casts@.len(),
            forall|j: int| 0 <= j < i ==> casts@[j].number != number,
        decreases casts@.len() - i,
    {
        if casts[i].number == number {
            proof {
                lemma_first_index_found(casts@.len() as int, cast_has_number(casts@, number), i as int);
            }
            return Some(i);
        }
        i = i + 1;
    }
    proof {
        lemma_first_index_none(casts@.len() as int, cast_has_number(casts@, number));
    }
    None
}

/// Index predicate: the member entry at `i` is under number `number`.
pub open spec fn member_has_number(members: Seq<(u32, CastMember)>, number: u32) -> spec_fn(int) -> bool {
    |i: int| members[i].0 == number
}

/// Where the member with number `number` stands.
pub open spec fn member_pos(members: Seq<(u32, CastMember)>, number: u32) -> Option<int> {
    first_index(members.len() as int, member_has_number(members, number))
}

/// Finds the member with the given number.
pub fn member_index(members: &Vec<(u32, CastMember)>, number: u32) -> (r: Option<usize>)
    ensures
        r matches Some(i) ==> member_pos(members@, number) == Some(i as int),
        r is None ==> member_pos(members@, number) is None,
{
    let mut i: usize = 0;
    while i < members.len()
        invariant
            i <= members@.len(),
            forall|j: int| 0 <= j < i ==> members@[j].0 != number,
        decreases members@.len() - i,
    {
        if members[i].0 == number {
            proof {
                lemma_first_index_found(members@.len() as int, member_has_number(members@, number), i as int);
            }
            return Some(i);
        }
        i = i + 1;
    }
    proof {
        lemma_first_index_none(members@.len() as int, member_has_number(members@, number));
    }
    None
}

/// Index predicate: the script entry at `i` is under number `number`.
pub open spec fn script_has_number(scripts: Seq<(u32, Script)>, number: u32) -> spec_fn(int) -> bool {
    |i: int| scripts[i].0 == number
}

/// Where the script of member number `number` stands.
pub open spec fn script_pos(scripts: Seq<(u32, Script)>, number: u32) -> Option<int> {
    first_index(scripts.len() as int, script_has_number(scripts, number))
}

/// Finds the script of the given member number.
pub fn script_index(scripts: &Vec<(u32, Script)>, number: u32) -> (r: Option<usize>)
    ensures
        r matches Some(i) ==> script_pos(scripts@, number) == Some(i as int),
        r is None ==> script_pos(scripts@, number) is None,
{
    let mut i: usize = 0;
    while i < scripts.len()
        invariant
            i <= scripts@.len(),
            forall|j: int| 0 <= j < i ==> scripts@[j].0 != number,
        decreases scripts@.len() - i,
    {
        if scripts[i].0 == number {
            proof {
                lemma_first_index_found(scripts@.len() as int, script_has_number(scripts@, number), i as int);
            }
            return Some(i);
        }
        i = i + 1;
    }
    proof {
        lemma_first_index_none(scripts@.len() as int, script_has_number(scripts@, number));
    }
    None
}

/// The member a reference names: the cast with number `cast_lib` (taken as
/// a `u32`), then its member numbered `cast_member` (taken as a `u32`).
pub open spec fn member_by_ref(casts: Seq<CastLib>, r: CastMemberRef) -> Option<CastMember> {
    match cast_pos(casts, r.cast_lib as u32) {
        Some(c) => match member_pos(casts[c].members@, r.cast_member as u32) {
            Some(m) => Some(casts[c].members@[m].1),
            None => None,
        },
        None => None,
    }
}

/// The script a reference names, found the same way.
pub open spec fn script_by_ref(casts: Seq<CastLib>, r: CastMemberRef) -> Option<Script> {
    match cast_pos(casts, r.cast_lib as u32) {
        Some(c) => match script_pos(casts[c].scripts@, r.cast_member as u32) {
            Some(s) => Some(casts[c].scripts@[s].1),
            None => None,
        },
        None => None,
    }
}

/// Finds the member a reference names: the indices of its cast and of its
/// entry in that cast.
pub fn find_member_by_ref(casts: &Vec<CastLib>, r: CastMemberRef) -> (res: Option<(usize, usize)>)
    ensures
        match res {
            Some((c, m)) => {
                &&& cast_pos(casts@, r.cast_lib as u32) == Some(c as int)
                &&& member_pos(casts@[c as int].members@, r.cast_member as u32) == Some(m as int)
                &&& member_by_ref(casts@, r) == Some(casts@[c as int].members@[m as int].1)
            },
            None => member_by_ref(casts@, r) is None,
        },
{
    match cast_index(casts, r.cast_lib as u32) {
        Some(c) => match member_index(&casts[c].members, r.cast_member as u32) {
            Some(m) => Some((c, m)),
            None => None,
        },
        None => None,
    }
}

/// Finds the script a reference names: the indices of its cast and of its
/// entry in that cast.
pub fn find_script_by_ref(casts: &Vec<CastLib>, r: CastMemberRef) -> (res: Option<(usize, usize)>)
    ensures
        match res {
            Some((c, s)) => {
                &&& cast_pos(casts@, r.cast_lib as u32) == Some(c as int)
                &&& script_pos(casts@[c as int].scripts@, r.cast_member as u32) == Some(s as int)
                &&& script_by_ref(casts@, r) == Some(casts@[c as int].scripts@[s as int].1)
            },
            None => script_by_ref(casts@, r) is None,
        },
{
    match cast_index(casts, r.cast_lib as u32) {
        Some(c) => match script_index(&casts[c].scripts, r.cast_member as u32) {
            Some(s) => Some((c, s)),
            None => None,
        },
        None => None,
    }
}

} // verus!
