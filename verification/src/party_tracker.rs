//! Party membership: which characters fight side by side.
//!
//! Members are kept in the order in which they were first seen. A member is
//! identified by the raid instance and the character id; within one raid
//! instance a character belongs to one party.

use crate::lookup::{
    distinct_by, first_match, lemma_filter_all, lemma_filter_keeps_distinct,
    lemma_filter_source, lemma_filter_step, lemma_first_match_exists, lemma_first_match_unique,
};
use vstd::prelude::*;

verus! {

/// One character's place in a party.
///
/// `entity_id` is 0 and `name` is `None` until they are known.
#[derive(Debug)]
pub struct PartyMember {
    pub raid_instance_id: u32,
    pub party_instance_id: u32,
    pub character_id: u64,
    pub entity_id: u64,
    pub name: Option<String>,
}

pub struct PartyMemberView {
    pub raid_instance_id: u32,
    pub party_instance_id: u32,
    pub character_id: u64,
    pub entity_id: u64,
    pub name: Option<Seq<char>>,
}

pub open spec fn name_view(name: Option<String>) -> Option<Seq<char>> {
    match name {
        Some(n) => Some(n@),
        None => None,
    }
}

impl View for PartyMember {
    type V = PartyMemberView;

    open spec fn view(&self) -> PartyMemberView {
        PartyMemberView {
            raid_instance_id: self.raid_instance_id,
            party_instance_id: self.party_instance_id,
            character_id: self.character_id,
            entity_id: self.entity_id,
            name: name_view(self.name),
        }
    }
}

impl Clone for PartyMember {
    fn clone(&self) -> (copy: PartyMember)
        ensures
            copy == *self,
    {
        PartyMember {
            raid_instance_id: self.raid_instance_id,
            party_instance_id: self.party_instance_id,
            character_id: self.character_id,
            entity_id: self.entity_id,
            name: match &self.name {
                Some(n) => Some(n.clone()),
                None => None,
            },
        }
    }
}

pub open spec fn member_views(members: Seq<PartyMember>) -> Seq<PartyMemberView> {
    members.map_values(|m: PartyMember| m@)
}

/// The member is the given character in the given raid instance.
pub open spec fn is_member(raid_instance_id: u32, character_id: u64) -> spec_fn(
    PartyMemberView,
) -> bool {
    |m: PartyMemberView| m.raid_instance_id == raid_instance_id && m.character_id == character_id
}

/// The member is not the one that leaves: another party, or another name.
pub open spec fn stays(party_instance_id: u32, name: Seq<char>) -> spec_fn(
    PartyMemberView,
) -> bool {
    |m: PartyMemberView| !(m.party_instance_id == party_instance_id && m.name == Some(name))
}

/// The key under which a member is filed.
pub open spec fn member_key() -> spec_fn(PartyMemberView) -> (u32, u64) {
    |m: PartyMemberView| (m.raid_instance_id, m.character_id)
}

/// A character appears at most once per raid instance.
pub open spec fn one_party_per_raid(members: Seq<PartyMemberView>) -> bool {
    distinct_by(members, member_key())
}

/// A member seen again: the party is taken over, the object id and the name
/// only where they are given.
pub open spec fn refreshed(
    member: PartyMemberView,
    party_instance_id: u32,
    entity_id: u64,
    name: Option<Seq<char>>,
) -> PartyMemberView {
    PartyMemberView {
        raid_instance_id: member.raid_instance_id,
        party_instance_id: party_instance_id,
        character_id: member.character_id,
        entity_id: if entity_id != 0 {
            entity_id
        } else {
            member.entity_id
        },
        name: if name is Some {
            name
        } else {
            member.name
        },
    }
}

/// The members after `add`: the character's entry in this raid instance is
/// refreshed, or a new entry is appended.
pub open spec fn added(
    members: Seq<PartyMemberView>,
    raid_instance_id: u32,
    party_instance_id: u32,
    character_id: u64,
    entity_id: u64,
    name: Option<Seq<char>>,
) -> Seq<PartyMemberView> {
    let i = first_match(members, is_member(raid_instance_id, character_id));
    if i < members.len() {
        members.update(i, refreshed(members[i], party_instance_id, entity_id, name))
    } else {
        members.push(
            PartyMemberView { raid_instance_id, party_instance_id, character_id, entity_id, name },
        )
    }
}

/// The members after `remove`: everyone of that name in that party is gone.
pub open spec fn removed(
    members: Seq<PartyMemberView>,
    party_instance_id: u32,
    name: Seq<char>,
) -> Seq<PartyMemberView> {
    members.filter(stays(party_instance_id, name))
}

/// Entry `k` puts the character into the party.
pub open spec fn seats(
    members: Seq<PartyMemberView>,
    party_instance_id: u32,
    character_id: u64,
    k: int,
) -> bool {
    &&& 0 <= k < members.len()
    &&& members[k].party_instance_id == party_instance_id
    &&& members[k].character_id == character_id
}

/// The party has the character among its members.
pub open spec fn is_in_party(
    members: Seq<PartyMemberView>,
    party_instance_id: u32,
    character_id: u64,
) -> bool {
    exists|k: int| seats(members, party_instance_id, character_id, k)
}

/// The characters of a party.
pub open spec fn members_in(members: Seq<PartyMemberView>, party_instance_id: u32) -> Set<u64> {
    Set::new(|c: u64| is_in_party(members, party_instance_id, c))
}

/// Entries `i` and `j` put characters `a` and `b` into one party.
pub open spec fn pairs_up(members: Seq<PartyMemberView>, a: u64, b: u64, i: int, j: int) -> bool {
    &&& 0 <= i < members.len()
    &&& 0 <= j < members.len()
    &&& members[i].character_id == a
    &&& members[j].character_id == b
    &&& members[i].raid_instance_id == members[j].raid_instance_id
    &&& members[i].party_instance_id == members[j].party_instance_id
}

/// Characters `a` and `b` are members of one party.
pub open spec fn share_party(members: Seq<PartyMemberView>, a: u64, b: u64) -> bool {
    exists|i: int, j: int| pairs_up(members, a, b, i, j)
}

/// Whether `id` is in the list.
fn has_id(ids: &Vec<u64>, id: u64) -> (found: bool)
    ensures
        found == ids@.contains(id),
{
    let mut i: usize = 0;
    while i < ids.len()
        invariant
            0 <= i <= ids.len(),
            forall|j: int| 0 <= j < i ==> ids@[j] != id,
        decreases ids.len() - i,
    {
        if ids[i] == id {
            return true;
        }
        i += 1;
    }
    false
}

pub struct PartyTracker {
    members: Vec<PartyMember>,
}

impl View for PartyTracker {
    type V = Seq<PartyMemberView>;

    closed spec fn view(&self) -> Seq<PartyMemberView> {
        member_views(self.members@)
    }
}

impl PartyTracker {
    pub fn new() -> (tracker: PartyTracker)
        ensures
            tracker@ == Seq::<PartyMemberView>::empty(),
    {
        let tracker = PartyTracker { members: Vec::new() };
        assert(tracker@ =~= Seq::<PartyMemberView>::empty());
        tracker
    }

    /// Index of the character's entry in the raid instance; the number of
    /// entries if there is none.
    fn position(&self, raid_instance_id: u32, character_id: u64) -> (i: usize)
        ensures
            i == first_match(self@, is_member(raid_instance_id, character_id)),
            i <= self.members.len(),
    {
        let mut i: usize = 0;
        while i < self.members.len()
            invariant
                0 <= i <= self.members.len(),
                forall|j: int|
                    0 <= j < i ==> !is_member(raid_instance_id, character_id)(#[trigger] self@[j]),
            decreases self.members.len() - i,
        {
            let m = &self.members[i];
            if m.raid_instance_id == raid_instance_id && m.character_id == character_id {
                proof {
                    lemma_first_match_unique(
                        self@,
                        is_member(raid_instance_id, character_id),
                        i as int,
                    );
                }
                return i;
            }
            i += 1;
        }
        proof {
            lemma_first_match_unique(self@, is_member(raid_instance_id, character_id), i as int);
        }
        i
    }

    /// Inserts the character into the party, or moves and refreshes the entry
    /// that it already has in this raid instance.
    pub fn add(
        &mut self,
        raid_instance_id: u32,
        party_instance_id: u32,
        character_id: u64,
        entity_id: u64,
        name: Option<String>,
    )
        ensures
            final(self)@ == added(
                old(self)@,
                raid_instance_id,
                party_instance_id,
                character_id,
                entity_id,
                name_view(name),
            ),
            one_party_per_raid(old(self)@) ==> one_party_per_raid(final(self)@),
    {
        let i = self.position(raid_instance_id, character_id);
        let ghost before = self@;
        proof {
            lemma_first_match_exists(before, is_member(raid_instance_id, character_id));
        }
        if i < self.members.len() {
            let mut m = self.members.remove(i);
            m.party_instance_id = party_instance_id;
            if entity_id != 0 {
                m.entity_id = entity_id;
            }
            if name.is_some() {
                m.name = name;
            }
            self.members.insert(i, m);
            assert(self@ =~= before.update(
                i as int,
                refreshed(before[i as int], party_instance_id, entity_id, name_view(name)),
            ));
        } else {
            self.members.push(
                PartyMember { raid_instance_id, party_instance_id, character_id, entity_id, name },
            );
            assert(self@ =~= before.push(
                PartyMemberView {
                    raid_instance_id,
                    party_instance_id,
                    character_id,
                    entity_id,
                    name: name_view(name),
                },
            ));
        }
    }

    /// Removes the member of that name from the party instance. Nothing
    /// happens when the party has no such member.
    pub fn remove(&mut self, party_instance_id: u32, name: String)
        ensures
            final(self)@ == removed(old(self)@, party_instance_id, name@),
            !has_member_named(old(self)@, party_instance_id, name@) ==> final(self)@ == old(self)@,
            one_party_per_raid(old(self)@) ==> one_party_per_raid(final(self)@),
    {
        let ghost before = self@;
        let ghost keep = stays(party_instance_id, name@);
        let mut kept: Vec<PartyMember> = Vec::new();
        let mut i: usize = 0;
        while i < self.members.len()
            invariant
                0 <= i <= self.members.len(),
                before == self@,
                keep == stays(party_instance_id, name@),
                member_views(kept@) == before.take(i as int).filter(keep),
            decreases self.members.len() - i,
        {
            let m = &self.members[i];
            let leaves = m.party_instance_id == party_instance_id && match &m.name {
                Some(n) => *n == name,
                None => false,
            };
            proof {
                lemma_filter_step(before, keep, i as int);
                assert(keep(before[i as int]) == !leaves);
            }
            if !leaves {
                let ghost prior = kept@;
                kept.push(m.clone());
                assert(member_views(kept@) =~= member_views(prior).push(before[i as int]));
            }
            i += 1;
        }
        proof {
            assert(before.take(i as int) == before);
            lemma_remove_absent(before, party_instance_id, name@);
            if one_party_per_raid(before) {
                lemma_filter_keeps_distinct(before, member_key(), keep);
            }
        }
        self.members = kept;
    }

    /// The characters of the party, each once.
    pub fn members_of(&self, party_instance_id: u32) -> (ids: Vec<u64>)
        ensures
            ids@.no_duplicates(),
            ids@.to_set() == members_in(self@, party_instance_id),
    {
        let mut ids: Vec<u64> = Vec::new();
        let mut i: usize = 0;
        while i < self.members.len()
            invariant
                0 <= i <= self.members.len(),
                ids@.no_duplicates(),
                forall|c: u64|
                    ids@.contains(c) <==> exists|k: int|
                        k < i && seats(self@, party_instance_id, c, k),
            decreases self.members.len() - i,
        {
            let m = &self.members[i];
            let ghost prior = ids@;
            if m.party_instance_id == party_instance_id && !has_id(&ids, m.character_id) {
                ids.push(m.character_id);
            }
            proof {
                let here = m.character_id;
                assert forall|c: u64|
                    ids@.contains(c) <==> exists|k: int|
                        k < i + 1 && seats(self@, party_instance_id, c, k) by {
                    if ids@.contains(c) {
                        if prior.contains(c) {
                            let k = choose|k: int| k < i && seats(self@, party_instance_id, c, k);
                            assert(k < i + 1 && seats(self@, party_instance_id, c, k));
                        } else {
                            let at = choose|at: int| 0 <= at < ids@.len() && ids@[at] == c;
                            assert(at == prior.len());
                            assert(seats(self@, party_instance_id, c, i as int));
                        }
                    }
                    if exists|k: int| k < i + 1 && seats(self@, party_instance_id, c, k) {
                        let k = choose|k: int| k < i + 1 && seats(self@, party_instance_id, c, k);
                        if k < i {
                            assert(prior.contains(c));
                            let at = choose|at: int| 0 <= at < prior.len() && prior[at] == c;
                            assert(ids@[at] == c);
                        } else {
                            assert(c == here);
                            if prior.contains(c) {
                                let at = choose|at: int| 0 <= at < prior.len() && prior[at] == c;
                                assert(ids@[at] == c);
                            } else {
                                assert(ids@[prior.len() as int] == c);
                            }
                        }
                    }
                }
            }
            i += 1;
        }
        proof {
            assert forall|c: u64|
                ids@.to_set().contains(c) <==> members_in(self@, party_instance_id).contains(
                    c,
                ) by {
                if ids@.contains(c) {
                    let k = choose|k: int| k < i && seats(self@, party_instance_id, c, k);
                    assert(seats(self@, party_instance_id, c, k));
                }
                if is_in_party(self@, party_instance_id, c) {
                    let k = choose|k: int| seats(self@, party_instance_id, c, k);
                    assert(k < i && seats(self@, party_instance_id, c, k));
                }
            }
            assert(ids@.to_set() =~= members_in(self@, party_instance_id));
        }
        ids
    }

    /// Whether the two characters are members of one party.
    pub fn same_party(&self, a: u64, b: u64) -> (together: bool)
        ensures
            together == share_party(self@, a, b),
    {
        let mut i: usize = 0;
        while i < self.members.len()
            invariant
                0 <= i <= self.members.len(),
                forall|x: int, y: int| 0 <= x < i ==> !pairs_up(self@, a, b, x, y),
            decreases self.members.len() - i,
        {
            if self.members[i].character_id == a {
                let mut j: usize = 0;
                while j < self.members.len()
                    invariant
                        0 <= i < self.members.len(),
                        0 <= j <= self.members.len(),
                        self.members[i as int].character_id == a,
                        forall|y: int| 0 <= y < j ==> !pairs_up(self@, a, b, i as int, y),
                    decreases self.members.len() - j,
                {
                    if self.members[j].character_id == b && self.members[j].raid_instance_id
                        == self.members[i].raid_instance_id && self.members[j].party_instance_id
                        == self.members[i].party_instance_id {
                        assert(pairs_up(self@, a, b, i as int, j as int));
                        return true;
                    }
                    j += 1;
                }
            }
            i += 1;
        }
        false
    }

    /// How many entries the tracker holds.
    pub fn len(&self) -> (n: usize)
        ensures
            n == self@.len(),
    {
        self.members.len()
    }

    /// The entry at `index`, if there is one.
    pub fn member(&self, index: usize) -> (found: Option<PartyMember>)
        ensures
            match found {
                Some(m) => index < self@.len() && m@ == self@[index as int],
                None => index >= self@.len(),
            },
    {
        if index < self.members.len() {
            Some(self.members[index].clone())
        } else {
            None
        }
    }
}

/// The party has a member of the name.
pub open spec fn has_member_named(
    members: Seq<PartyMemberView>,
    party_instance_id: u32,
    name: Seq<char>,
) -> bool {
    exists|k: int|
        0 <= k < members.len() && !stays(party_instance_id, name)(#[trigger] members[k])
}

/// Removing a member that the party does not have changes nothing.
pub proof fn lemma_remove_absent(
    members: Seq<PartyMemberView>,
    party_instance_id: u32,
    name: Seq<char>,
)
    ensures
        !has_member_named(members, party_instance_id, name) ==> removed(
            members,
            party_instance_id,
            name,
        ) == members,
{
    if !has_member_named(members, party_instance_id, name) {
        lemma_filter_all(members, stays(party_instance_id, name));
    }
}

/// Whoever is not the member that leaves is a member afterwards, unchanged.
pub proof fn lemma_remove_keeps_others(
    members: Seq<PartyMemberView>,
    party_instance_id: u32,
    name: Seq<char>,
    k: int,
)
    requires
        0 <= k < members.len(),
        stays(party_instance_id, name)(members[k]),
    ensures
        removed(members, party_instance_id, name).contains(members[k]),
{
    members.lemma_filter_contains(stays(party_instance_id, name), k);
}

/// A removal from one party leaves the members of every other party as they
/// were.
pub proof fn lemma_remove_spares_other_parties(
    members: Seq<PartyMemberView>,
    party_instance_id: u32,
    name: Seq<char>,
    other: u32,
)
    requires
        other != party_instance_id,
    ensures
        members_in(removed(members, party_instance_id, name), other) == members_in(members, other),
{
    let keep = stays(party_instance_id, name);
    let left = removed(members, party_instance_id, name);
    assert forall|c: u64| is_in_party(left, other, c) <==> is_in_party(members, other, c) by {
        if is_in_party(left, other, c) {
            let k = choose|k: int| seats(left, other, c, k);
            let j = lemma_filter_source(members, keep, k);
            assert(seats(members, other, c, j));
        }
        if is_in_party(members, other, c) {
            let k = choose|k: int| seats(members, other, c, k);
            members.lemma_filter_contains(keep, k);
            let at = choose|at: int| 0 <= at < left.len() && left[at] == members[k];
            assert(seats(left, other, c, at));
        }
    }
    assert(members_in(left, other) =~= members_in(members, other));
}

} // verus!
