//! Names that point at change records: branches and tags, gathered once and
//! looked up by record identifier afterwards.

use vstd::prelude::*;
use crate::record::RecordId;
use crate::text::{chars_of, from_utf8_lossy, lossy_text, matches_at, occurs_at, slice_text};

verus! {

/// Where a branch lives.
#[derive(Clone, Copy, Debug, PartialEq, Eq, Structural)]
pub enum BranchType {
    Local,
    Remote,
}

/// The names gathered for one record identifier, in the order in which they
/// were attached.
struct Group<T> {
    id: RecordId,
    names: Vec<T>,
}

/// A mapping from record identifiers to the names attached to each.
pub struct Grouped<T> {
    groups: Vec<Group<T>>,
}

/// The index of the last group of `groups` that belongs to `id`.
spec fn group_of<T>(groups: Seq<Group<T>>, id: Seq<u8>) -> Option<int>
    decreases groups.len(),
{
    if groups.len() == 0 {
        None
    } else if groups.last().id@ == id {
        Some(groups.len() - 1)
    } else {
        group_of(groups.drop_last(), id)
    }
}

proof fn lemma_group_of<T>(groups: Seq<Group<T>>, id: Seq<u8>)
    ensures
        match group_of(groups, id) {
            Some(at) => 0 <= at < groups.len() && groups[at].id@ == id && forall|j: int|
                at < j < groups.len() ==> groups[j].id@ != id,
            None => forall|j: int| 0 <= j < groups.len() ==> groups[j].id@ != id,
        },
    decreases groups.len(),
{
    if groups.len() > 0 && groups.last().id@ != id {
        let rest = groups.drop_last();
        lemma_group_of(rest, id);
        assert forall|j: int| 0 <= j < rest.len() implies rest[j] == groups[j] by {}
    }
}

proof fn lemma_group_of_is<T>(groups: Seq<Group<T>>, id: Seq<u8>, at: int)
    requires
        0 <= at < groups.len(),
        groups[at].id@ == id,
        forall|j: int| at < j < groups.len() ==> groups[j].id@ != id,
    ensures
        group_of(groups, id) == Some(at),
{
    lemma_group_of(groups, id);
}

proof fn lemma_group_of_none<T>(groups: Seq<Group<T>>, id: Seq<u8>)
    requires
        forall|j: int| 0 <= j < groups.len() ==> groups[j].id@ != id,
    ensures
        group_of(groups, id) is None,
{
    lemma_group_of(groups, id);
}

impl<T> Grouped<T> {
    /// Whether any name is attached to `id`.
    pub closed spec fn contains(&self, id: Seq<u8>) -> bool {
        group_of(self.groups@, id) is Some
    }

    /// The names attached to `id`, oldest first; none where `id` is unknown.
    pub closed spec fn names(&self, id: Seq<u8>) -> Seq<T> {
        match group_of(self.groups@, id) {
            Some(at) => self.groups@[at].names@,
            None => Seq::empty(),
        }
    }

    /// A mapping without any name.
    pub fn new() -> (map: Self)
        ensures
            forall|id: Seq<u8>| !map.contains(id),
            forall|id: Seq<u8>| map.names(id) == Seq::<T>::empty(),
    {
        Grouped { groups: Vec::new() }
    }

    fn position(&self, id: &RecordId) -> (at: Option<usize>)
        ensures
            match at {
                Some(i) => group_of(self.groups@, id@) == Some(i as int) && i < self.groups@.len(),
                None => group_of(self.groups@, id@) is None,
            },
    {
        let mut end: usize = self.groups.len();
        while end > 0
            invariant
                end <= self.groups@.len(),
                forall|j: int| end <= j < self.groups@.len() ==> self.groups@[j].id@ != id@,
            decreases end,
        {
            if self.groups[end - 1].id.same(id) {
                proof {
                    lemma_group_of_is(self.groups@, id@, end - 1);
                }
                return Some(end - 1);
            }
            end -= 1;
        }
        proof {
            lemma_group_of_none(self.groups@, id@);
        }
        None
    }

    /// The names attached to `id`, if there are any.
    pub fn get(&self, id: &RecordId) -> (names: Option<&Vec<T>>)
        ensures
            names is Some <==> self.contains(id@),
            names matches Some(found) ==> found@ == self.names(id@),
            names is None ==> self.names(id@) == Seq::<T>::empty(),
    {
        match self.position(id) {
            Some(at) => Some(&self.groups[at].names),
            None => None,
        }
    }
}

/// The branches and tags that point at each record.
pub struct Decorations {
    pub branches: Grouped<(String, BranchType)>,
    pub tags: Grouped<String>,
}

/// Attaches `name` to `commit_id`, after the names it already has.
pub fn push<T>(map: &mut Grouped<T>, commit_id: RecordId, name: T)
    ensures
        forall|id: Seq<u8>|
            #![trigger final(map).contains(id)]
            final(map).contains(id) == (old(map).contains(id) || id == commit_id@),
        forall|id: Seq<u8>|
            #![trigger final(map).names(id)]
            final(map).names(id) == (if id == commit_id@ {
                old(map).names(id).push(name)
            } else {
                old(map).names(id)
            }),
{
    let ghost before = map.groups@;
    match map.position(&commit_id) {
        Some(at) => {
            map.groups[at].names.push(name);
            proof {
                let after = map.groups@;
                assert(after.len() == before.len());
                assert forall|j: int| 0 <= j < after.len() implies after[j].id == before[j].id by {}
                lemma_group_of(before, commit_id@);
                assert forall|id: Seq<u8>| group_of(after, id) == group_of(before, id) by {
                    lemma_group_of(before, id);
                    match group_of(before, id) {
                        Some(i) => lemma_group_of_is(after, id, i),
                        None => lemma_group_of_none(after, id),
                    }
                }
                assert forall|id: Seq<u8>|
                    #![trigger map.names(id)]
                    map.names(id) == (if id == commit_id@ {
                        old(map).names(id).push(name)
                    } else {
                        old(map).names(id)
                    }) by {
                    lemma_group_of(before, id);
                }
            }
        },
        None => {
            let mut names: Vec<T> = Vec::new();
            names.push(name);
            map.groups.push(Group { id: commit_id, names });
            proof {
                let after = map.groups@;
                assert(after.drop_last() =~= before);
                assert(Seq::<T>::empty().push(name) =~= after.last().names@);
                assert forall|id: Seq<u8>|
                    #![trigger map.names(id)]
                    map.names(id) == (if id == commit_id@ {
                        old(map).names(id).push(name)
                    } else {
                        old(map).names(id)
                    }) by {
                    lemma_group_of(before, id);
                    if id != commit_id@ {
                        assert(group_of(after, id) == group_of(before, id));
                        if group_of(before, id) is Some {
                            assert(after[group_of(before, id).unwrap()] == before[group_of(
                                before,
                                id,
                            ).unwrap()]);
                        }
                    }
                }
            }
        },
    }
}

/// A branch as the repository lists it. The name is absent where it is no
/// text, the target where the branch does not point at a record directly.
#[derive(Debug)]
pub struct BranchRef {
    pub name: Option<String>,
    pub kind: BranchType,
    pub target: Option<RecordId>,
}

/// A tag as the repository lists it: the record it points at and the bytes
/// of its full reference name.
#[derive(Debug)]
pub struct TagRef {
    pub id: RecordId,
    pub name: Vec<u8>,
}

/// `s` without `prefix` at its start, or `s` itself where it does not start
/// with `prefix`.
pub open spec fn without_prefix(s: Seq<char>, prefix: Seq<char>) -> Seq<char> {
    if occurs_at(s, prefix, 0) {
        s.skip(prefix.len() as int)
    } else {
        s
    }
}

/// The name under which a tag is shown: its reference name without the
/// directory of tags.
pub open spec fn tag_name(reference: Seq<char>) -> Seq<char> {
    without_prefix(reference, "refs/tags/"@)
}

/// The name under which the tag with the reference name `reference` is shown.
pub fn short_tag_name(reference: &str) -> (name: String)
    ensures
        name@ == tag_name(reference@),
{
    let chars = chars_of(reference);
    let prefix = chars_of("refs/tags/");
    if prefix.len() <= chars.len() && matches_at(&chars, &prefix, 0) {
        let name = slice_text(&chars, prefix.len(), chars.len());
        assert(chars@.skip(prefix@.len() as int) =~= chars@.subrange(
            prefix@.len() as int,
            chars@.len() as int,
        ));
        name
    } else {
        reference.to_owned()
    }
}

/// The names of the branches of `refs` that point at `id`, each with where
/// it lives, in the order of `refs`. A branch without a name or without a
/// target is left out.
pub open spec fn branch_names(refs: Seq<BranchRef>, id: Seq<u8>) -> Seq<(String, BranchType)>
    decreases refs.len(),
{
    if refs.len() == 0 {
        Seq::empty()
    } else {
        let last = refs.last();
        let before = branch_names(refs.drop_last(), id);
        if last.name is Some && last.target is Some && last.target.unwrap()@ == id {
            before.push((last.name.unwrap(), last.kind))
        } else {
            before
        }
    }
}

/// The names under which the tags of `refs` that point at `id` are shown, in
/// the order of `refs`.
pub open spec fn tag_names(refs: Seq<TagRef>, id: Seq<u8>) -> Seq<Seq<char>>
    decreases refs.len(),
{
    if refs.len() == 0 {
        Seq::empty()
    } else {
        let last = refs.last();
        let before = tag_names(refs.drop_last(), id);
        if last.id@ == id {
            before.push(tag_name(lossy_text(last.name@)))
        } else {
            before
        }
    }
}

/// The characters of each of `names`.
pub open spec fn name_views(names: Seq<String>) -> Seq<Seq<char>> {
    Seq::new(names.len(), |i: int| names[i]@)
}

/// Gathers the branches and tags of a repository by the record that each
/// points at.
pub fn decorations(branches: &Vec<BranchRef>, tags: &Vec<TagRef>) -> (found: Decorations)
    ensures
        forall|id: Seq<u8>| #[trigger]
            found.branches.names(id) == branch_names(branches@, id),
        forall|id: Seq<u8>| #[trigger]
            found.branches.contains(id) == (branch_names(branches@, id).len() > 0),
        forall|id: Seq<u8>|
            name_views(#[trigger] found.tags.names(id)) == tag_names(tags@, id),
        forall|id: Seq<u8>| #[trigger]
            found.tags.contains(id) == (tag_names(tags@, id).len() > 0),
{
    let mut by_branch: Grouped<(String, BranchType)> = Grouped::new();
    let mut i: usize = 0;
    while i < branches.len()
        invariant
            i <= branches.len(),
            forall|id: Seq<u8>| #[trigger]
                by_branch.names(id) == branch_names(branches@.take(i as int), id),
            forall|id: Seq<u8>| #[trigger]
                by_branch.contains(id) == (branch_names(branches@.take(i as int), id).len() > 0),
        decreases branches.len() - i,
    {
        let branch = &branches[i];
        let ghost held = by_branch;
        assert(branches@.take(i + 1).drop_last() =~= branches@.take(i as int));
        assert(branches@.take(i + 1).last() == branches@[i as int]);
        if let Some(name) = &branch.name {
            if let Some(target) = branch.target {
                push(&mut by_branch, target, (name.clone(), branch.kind));
            }
        }
        assert forall|id: Seq<u8>| #[trigger]
            by_branch.names(id) == branch_names(branches@.take(i + 1), id) by {
            assert(held.names(id) == branch_names(branches@.take(i as int), id));
        }
        assert forall|id: Seq<u8>| #[trigger]
            by_branch.contains(id) == (branch_names(branches@.take(i + 1), id).len() > 0) by {
            assert(held.contains(id) == (branch_names(branches@.take(i as int), id).len() > 0));
        }
        i += 1;
    }
    assert(branches@.take(i as int) =~= branches@);
    let mut by_tag: Grouped<String> = Grouped::new();
    let mut j: usize = 0;
    while j < tags.len()
        invariant
            j <= tags.len(),
            forall|id: Seq<u8>|
                name_views(#[trigger] by_tag.names(id)) == tag_names(tags@.take(j as int), id),
            forall|id: Seq<u8>| #[trigger]
                by_tag.contains(id) == (tag_names(tags@.take(j as int), id).len() > 0),
        decreases tags.len() - j,
    {
        let tag = &tags[j];
        let ghost held = by_tag;
        assert(tags@.take(j + 1).drop_last() =~= tags@.take(j as int));
        assert(tags@.take(j + 1).last() == tags@[j as int]);
        let full = from_utf8_lossy(&tag.name);
        let name = short_tag_name(full.as_str());
        push(&mut by_tag, tag.id, name);
        assert forall|id: Seq<u8>|
            name_views(#[trigger] by_tag.names(id)) == tag_names(tags@.take(j + 1), id) by {
            assert(name_views(held.names(id)) == tag_names(tags@.take(j as int), id));
            if id == tag.id@ {
                assert(name_views(held.names(id).push(name)) =~= name_views(held.names(id)).push(
                    name@,
                ));
            }
        }
        assert forall|id: Seq<u8>| #[trigger]
            by_tag.contains(id) == (tag_names(tags@.take(j + 1), id).len() > 0) by {
            assert(held.contains(id) == (tag_names(tags@.take(j as int), id).len() > 0));
        }
        j += 1;
    }
    assert(tags@.take(j as int) =~= tags@);
    Decorations { branches: by_branch, tags: by_tag }
}

} // verus!
