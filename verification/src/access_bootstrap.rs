//! What bootstrapping access control creates: the permission sets that the
//! modules' actions name and that do not exist yet, and the roles with the
//! permission sets they are given.
use vstd::prelude::*;
use crate::authz::ActionMapping;

verus! {

/// The name of the role that holds every permission set.
pub const ROLE_NAME_SUPERUSER: &'static str = "superuser";

/// The permission set names that `acts` use, each once, in the order in
/// which they first occur.
pub open spec fn set_names(acts: Seq<ActionMapping>) -> Seq<Seq<char>>
    decreases acts.len(),
{
    if acts.len() == 0 {
        Seq::empty()
    } else {
        let earlier = set_names(acts.drop_last());
        let name = acts.last().permission_set@;
        if earlier.contains(name) {
            earlier
        } else {
            earlier.push(name)
        }
    }
}

/// `name` is the name of one of `existing`.
pub open spec fn is_listed(existing: Seq<String>, name: Seq<char>) -> bool {
    exists|i: int| 0 <= i < existing.len() && (#[trigger] existing[i])@ == name
}

/// The names of `names` that are not listed in `existing`, in order.
pub open spec fn unlisted(names: Seq<Seq<char>>, existing: Seq<String>) -> Seq<Seq<char>>
    decreases names.len(),
{
    if names.len() == 0 {
        Seq::empty()
    } else {
        let earlier = unlisted(names.drop_last(), existing);
        if is_listed(existing, names.last()) {
            earlier
        } else {
            earlier.push(names.last())
        }
    }
}

/// The permission sets to create: those named by the actions and not yet
/// among the existing ones.
pub open spec fn new_set_names(acts: Seq<ActionMapping>, existing: Seq<String>) -> Seq<Seq<char>> {
    unlisted(set_names(acts), existing)
}

/// The places, in ascending order, of the actions that permission set
/// `name` grants.
pub open spec fn granted_by(acts: Seq<ActionMapping>, name: Seq<char>) -> Seq<int>
    decreases acts.len(),
{
    if acts.len() == 0 {
        Seq::empty()
    } else {
        let earlier = granted_by(acts.drop_last(), name);
        if acts.last().permission_set@ == name {
            earlier.push(acts.len() - 1)
        } else {
            earlier
        }
    }
}

/// A permission set to create: its name and the actions it grants, by
/// their places in the list of all actions.
#[derive(Debug)]
pub struct NewPermissionSetDraft {
    pub name: String,
    pub actions: Vec<usize>,
}

/// The integers that a list of places holds.
pub open spec fn places(v: Seq<usize>) -> Seq<int> {
    v.map_values(|x: usize| x as int)
}

/// Whether `names` holds a string with the characters of `name`.
fn holds_name(names: &Vec<String>, name: &String) -> (r: bool)
    ensures
        r == is_listed(names@, name@),
{
    let mut i: usize = 0;
    while i < names.len()
        invariant
            i <= names.len(),
            forall|j: int| 0 <= j < i ==> (#[trigger] names@[j])@ != name@,
        decreases names.len() - i,
    {
        if names[i] == *name {
            return true;
        }
        i = i + 1;
    }
    false
}

/// The names of the permission sets that `acts` use, each once, in the
/// order in which they first occur.
fn distinct_set_names(acts: &Vec<ActionMapping>) -> (r: Vec<String>)
    ensures
        r@.map_values(|s: String| s@) == set_names(acts@),
{
    let mut names: Vec<String> = Vec::new();
    let mut i: usize = 0;
    while i < acts.len()
        invariant
            i <= acts.len(),
            names@.map_values(|s: String| s@) == set_names(acts@.take(i as int)),
        decreases acts.len() - i,
    {
        let name = &acts[i].permission_set;
        let seen = holds_name(&names, name);
        proof {
            assert(acts@.take(i + 1).drop_last() =~= acts@.take(i as int));
            let mapped = names@.map_values(|s: String| s@);
            if seen {
                let j = choose|j: int| 0 <= j < names@.len() && (#[trigger] names@[j])@ == name@;
                assert(mapped[j] == name@);
            } else {
                assert forall|j: int| 0 <= j < mapped.len() implies mapped[j] != name@ by {
                    assert(names@[j]@ != name@);
                }
            }
        }
        if !seen {
            names.push(name.clone());
        }
        proof {
            assert(names@.map_values(|s: String| s@) =~= set_names(acts@.take(i + 1)));
        }
        i = i + 1;
    }
    proof {
        assert(acts@.take(acts@.len() as int) =~= acts@);
    }
    names
}

/// The places of the actions that the permission set `name` grants.
fn granting_places(acts: &Vec<ActionMapping>, name: &String) -> (r: Vec<usize>)
    ensures
        places(r@) == granted_by(acts@, name@),
{
    let mut found: Vec<usize> = Vec::new();
    let mut i: usize = 0;
    while i < acts.len()
        invariant
            i <= acts.len(),
            places(found@) == granted_by(acts@.take(i as int), name@),
        decreases acts.len() - i,
    {
        proof {
            assert(acts@.take(i + 1).drop_last() =~= acts@.take(i as int));
        }
        if acts[i].permission_set == *name {
            found.push(i);
        }
        proof {
            assert(places(found@) =~= granted_by(acts@.take(i + 1), name@));
        }
        i = i + 1;
    }
    proof {
        assert(acts@.take(acts@.len() as int) =~= acts@);
    }
    found
}

/// The permission sets that bootstrapping creates: one for each permission
/// set that the actions name and that `existing` does not list, in the
/// order in which the actions first name them, each with the actions that
/// name it. Nothing that exists is created again.
pub fn new_permission_sets(acts: &Vec<ActionMapping>, existing: &Vec<String>) -> (r: Vec<NewPermissionSetDraft>)
    ensures
        r@.len() == new_set_names(acts@, existing@).len(),
        forall|k: int|
            0 <= k < r@.len() ==> {
                &&& (#[trigger] r@[k]).name@ == new_set_names(acts@, existing@)[k]
                &&& places(r@[k].actions@) == granted_by(acts@, r@[k].name@)
            },
{
    let names = distinct_set_names(acts);
    let ghost all = names@.map_values(|s: String| s@);
    let mut drafts: Vec<NewPermissionSetDraft> = Vec::new();
    let mut i: usize = 0;
    while i < names.len()
        invariant
            i <= names.len(),
            all == names@.map_values(|s: String| s@),
            all == set_names(acts@),
            drafts@.len() == unlisted(all.take(i as int), existing@).len(),
            forall|k: int|
                0 <= k < drafts@.len() ==> {
                    &&& (#[trigger] drafts@[k]).name@ == unlisted(all.take(i as int), existing@)[k]
                    &&& places(drafts@[k].actions@) == granted_by(acts@, drafts@[k].name@)
                },
        decreases names.len() - i,
    {
        let name = &names[i];
        proof {
            assert(all.take(i + 1).drop_last() =~= all.take(i as int));
            assert(all.take(i + 1).last() == name@);
        }
        if !holds_name(existing, name) {
            let actions = granting_places(acts, name);
            drafts.push(NewPermissionSetDraft { name: name.clone(), actions });
        }
        i = i + 1;
    }
    proof {
        assert(all.take(names@.len() as int) =~= all);
    }
    drafts
}

/// Each name of `names` occurs once.
pub open spec fn names_distinct(names: Seq<Seq<char>>) -> bool {
    forall|a: int, b: int| 0 <= a < b < names.len() ==> names[a] != names[b]
}

/// The names the actions use are each named once, and are exactly the
/// permission sets of the actions.
proof fn lemma_set_names(acts: Seq<ActionMapping>)
    ensures
        names_distinct(set_names(acts)),
        forall|n: Seq<char>|
            set_names(acts).contains(n) <==> exists|i: int| 0 <= i < acts.len() && (#[trigger] acts[i]).permission_set@ == n,
    decreases acts.len(),
{
    if acts.len() > 0 {
        let rest = acts.drop_last();
        lemma_set_names(rest);
        let earlier = set_names(rest);
        let name = acts.last().permission_set@;
        assert forall|n: Seq<char>|
            set_names(acts).contains(n) <==> exists|i: int| 0 <= i < acts.len() && (#[trigger] acts[i]).permission_set@ == n by {
            if set_names(acts).contains(n) {
                if earlier.contains(n) {
                    let i = choose|i: int| 0 <= i < rest.len() && (#[trigger] rest[i]).permission_set@ == n;
                    assert(acts[i] == rest[i]);
                } else {
                    assert(n == name);
                    assert(acts[acts.len() - 1].permission_set@ == n);
                }
            }
            if exists|i: int| 0 <= i < acts.len() && (#[trigger] acts[i]).permission_set@ == n {
                let i = choose|i: int| 0 <= i < acts.len() && (#[trigger] acts[i]).permission_set@ == n;
                if i < acts.len() - 1 {
                    assert(rest[i] == acts[i]);
                    assert(earlier.contains(n));
                    let k = choose|k: int| 0 <= k < earlier.len() && earlier[k] == n;
                    if !earlier.contains(name) {
                        assert(set_names(acts)[k] == n);
                    }
                } else {
                    if !earlier.contains(name) {
                        assert(set_names(acts)[earlier.len() as int] == n);
                    }
                }
            }
        }
    }
}

/// The names kept are those of `names` that are not listed, each once
/// where `names` holds each once.
proof fn lemma_unlisted(names: Seq<Seq<char>>, existing: Seq<String>)
    ensures
        forall|n: Seq<char>|
            unlisted(names, existing).contains(n) <==> (names.contains(n) && !is_listed(existing, n)),
        names_distinct(names) ==> names_distinct(unlisted(names, existing)),
    decreases names.len(),
{
    if names.len() > 0 {
        let rest = names.drop_last();
        lemma_unlisted(rest, existing);
        let earlier = unlisted(rest, existing);
        let last = names.last();
        assert forall|n: Seq<char>|
            unlisted(names, existing).contains(n) <==> (names.contains(n) && !is_listed(existing, n)) by {
            let u = unlisted(names, existing);
            if u.contains(n) {
                let m = choose|m: int| 0 <= m < u.len() && u[m] == n;
                if m < earlier.len() {
                    assert(u[m] == earlier[m]);
                    assert(earlier.contains(n));
                    assert(rest.contains(n) && !is_listed(existing, n));
                    let k = choose|k: int| 0 <= k < rest.len() && rest[k] == n;
                    assert(names[k] == n);
                } else {
                    assert(!is_listed(existing, last));
                    assert(u[m] == last);
                    assert(names[names.len() - 1] == n);
                }
            }
            if names.contains(n) && !is_listed(existing, n) {
                let k = choose|k: int| 0 <= k < names.len() && names[k] == n;
                if k < names.len() - 1 {
                    assert(rest[k] == n);
                    assert(rest.contains(n));
                    assert(earlier.contains(n));
                    let m = choose|m: int| 0 <= m < earlier.len() && earlier[m] == n;
                    assert(u[m] == n);
                } else {
                    assert(last == n);
                    assert(u[earlier.len() as int] == n);
                }
            }
        }
        if names_distinct(names) {
            assert(names_distinct(rest)) by {
                assert forall|a: int, b: int| 0 <= a < b < rest.len() implies rest[a] != rest[b] by {
                    assert(rest[a] == names[a] && rest[b] == names[b]);
                }
            }
            if !is_listed(existing, last) {
                assert(!earlier.contains(last)) by {
                    if earlier.contains(last) {
                        assert(rest.contains(last));
                        let k = choose|k: int| 0 <= k < rest.len() && rest[k] == last;
                        assert(names[k] == names[names.len() - 1]);
                    }
                }
                let u = unlisted(names, existing);
                assert forall|a: int, b: int| 0 <= a < b < u.len() implies u[a] != u[b] by {
                    if b == u.len() - 1 {
                        assert(u[a] == earlier[a]);
                        assert(earlier.contains(u[a]));
                    } else {
                        assert(u[a] == earlier[a] && u[b] == earlier[b]);
                    }
                }
            }
        }
    }
}

/// The places a permission set grants are those of the actions that name
/// it.
proof fn lemma_granted_by(acts: Seq<ActionMapping>, name: Seq<char>)
    ensures
        forall|i: int| granted_by(acts, name).contains(i) <==> (0 <= i < acts.len() && acts[i].permission_set@ == name),
    decreases acts.len(),
{
    if acts.len() > 0 {
        let rest = acts.drop_last();
        lemma_granted_by(rest, name);
        let earlier = granted_by(rest, name);
        assert forall|i: int| granted_by(acts, name).contains(i) <==> (0 <= i < acts.len() && acts[i].permission_set@ == name) by {
            if granted_by(acts, name).contains(i) {
                if earlier.contains(i) {
                    assert(acts[i] == rest[i]);
                }
            }
            if 0 <= i < acts.len() && acts[i].permission_set@ == name {
                if i < acts.len() - 1 {
                    assert(rest[i] == acts[i]);
                    assert(earlier.contains(i));
                    let k = choose|k: int| 0 <= k < earlier.len() && earlier[k] == i;
                    assert(granted_by(acts, name)[k] == i);
                } else {
                    assert(granted_by(acts, name)[earlier.len() as int] == i);
                }
            }
        }
    }
}

/// Bootstrapping creates a permission set for every permission set that an
/// action names and that does not exist yet, and for no other: no existing
/// set is created again, none is created twice, and each created set grants
/// exactly the actions that name it.
pub proof fn law_bootstrap_creates_only_missing_sets(acts: Seq<ActionMapping>, existing: Seq<String>)
    ensures
        names_distinct(new_set_names(acts, existing)),
        forall|n: Seq<char>|
            new_set_names(acts, existing).contains(n) <==> (!is_listed(existing, n) && exists|i: int|
                0 <= i < acts.len() && (#[trigger] acts[i]).permission_set@ == n),
        forall|n: Seq<char>, i: int|
            #[trigger] granted_by(acts, n).contains(i) <==> (0 <= i < acts.len() && acts[i].permission_set@ == n),
{
    lemma_set_names(acts);
    lemma_unlisted(set_names(acts), existing);
    assert forall|n: Seq<char>, i: int|
        #[trigger] granted_by(acts, n).contains(i) <==> (0 <= i < acts.len() && acts[i].permission_set@ == n) by {
        lemma_granted_by(acts, n);
    }
}

/// A permission set that exists: its name and its id.
#[derive(Debug)]
pub struct PermissionSetEntry {
    pub name: String,
    pub id: u128,
}

/// The id that a map from the names of `sets` to their ids gives for
/// `name`, where a later entry of the same name replaces an earlier one.
pub open spec fn id_for(sets: Seq<PermissionSetEntry>, name: Seq<char>) -> Option<u128>
    decreases sets.len(),
{
    if sets.len() == 0 {
        None
    } else if sets.last().name@ == name {
        Some(sets.last().id)
    } else {
        id_for(sets.drop_last(), name)
    }
}

/// Another entry after place `i` has the same name as the entry at `i`.
pub open spec fn renamed_later(sets: Seq<PermissionSetEntry>, i: int) -> bool {
    exists|j: int| i < j < sets.len() && (#[trigger] sets[j]).name@ == sets[i].name@
}

/// The ids of the first `n` entries that no later entry of the same name
/// replaces, in order: the values of the map from names to ids.
pub open spec fn kept_ids(sets: Seq<PermissionSetEntry>, n: int) -> Seq<u128>
    decreases n,
{
    if n <= 0 {
        Seq::empty()
    } else if renamed_later(sets, n - 1) {
        kept_ids(sets, n - 1)
    } else {
        kept_ids(sets, n - 1).push(sets[n - 1].id)
    }
}

/// Each value occurs once in `v`, and `v` holds exactly the values of `w`:
/// `v` is `w` as a set.
pub open spec fn same_ids_once(v: Seq<u128>, w: Seq<u128>) -> bool {
    &&& v.no_duplicates()
    &&& forall|x: u128| v.contains(x) <==> w.contains(x)
}

/// The values of `v`, each once, in the order in which they first occur.
fn distinct_ids(v: &Vec<u128>) -> (r: Vec<u128>)
    ensures
        same_ids_once(r@, v@),
{
    let mut out: Vec<u128> = Vec::new();
    let mut i: usize = 0;
    while i < v.len()
        invariant
            i <= v.len(),
            out@.no_duplicates(),
            forall|x: u128| out@.contains(x) <==> exists|j: int| 0 <= j < i && v@[j] == x,
        decreases v.len() - i,
    {
        let x = v[i];
        let mut seen = false;
        let mut k: usize = 0;
        while k < out.len()
            invariant
                k <= out.len(),
                seen <==> exists|m: int| 0 <= m < k && out@[m] == x,
            decreases out.len() - k,
        {
            if out[k] == x {
                seen = true;
            }
            k = k + 1;
        }
        let ghost before = out@;
        if !seen {
            out.push(x);
            proof {
                assert forall|a: int, b: int| 0 <= a < out@.len() && 0 <= b < out@.len() && a != b implies out@[a]
                    != out@[b] by {
                    if a < before.len() && b < before.len() {
                        assert(before[a] != before[b]);
                    } else if a < before.len() {
                        assert(out@[a] == before[a]);
                    } else {
                        assert(out@[b] == before[b]);
                    }
                }
            }
        }
        proof {
            assert forall|y: u128| out@.contains(y) <==> exists|j: int| 0 <= j < i + 1 && v@[j] == y by {
                if out@.contains(y) {
                    let m = choose|m: int| 0 <= m < out@.len() && out@[m] == y;
                    if m < before.len() {
                        assert(before.contains(y));
                        let j = choose|j: int| 0 <= j < i && v@[j] == y;
                        assert(0 <= j < i + 1 && v@[j] == y);
                    } else {
                        assert(v@[i as int] == y);
                    }
                }
                if exists|j: int| 0 <= j < i + 1 && v@[j] == y {
                    let j = choose|j: int| 0 <= j < i + 1 && v@[j] == y;
                    if j < i {
                        assert(before.contains(y));
                        let m = choose|m: int| 0 <= m < before.len() && before[m] == y;
                        assert(out@[m] == y);
                    } else if seen {
                        let m = choose|m: int| 0 <= m < out@.len() && out@[m] == x;
                        assert(out@[m] == y);
                    } else {
                        assert(out@[before.len() as int] == y);
                    }
                }
            }
        }
        i = i + 1;
    }
    proof {
        assert forall|y: u128| out@.contains(y) <==> v@.contains(y) by {
            if v@.contains(y) {
                let j = choose|j: int| 0 <= j < v@.len() && v@[j] == y;
                assert(exists|j: int| 0 <= j < i && v@[j] == y);
            }
        }
    }
    out
}

/// The ids of the permission sets in `sets`, one per name: those that the
/// superuser role is given, each id once.
pub fn superuser_permission_sets(sets: &Vec<PermissionSetEntry>) -> (r: Vec<u128>)
    ensures
        same_ids_once(r@, kept_ids(sets@, sets@.len() as int)),
{
    let mut ids: Vec<u128> = Vec::new();
    let mut i: usize = 0;
    while i < sets.len()
        invariant
            i <= sets.len(),
            ids@ == kept_ids(sets@, i as int),
        decreases sets.len() - i,
    {
        let mut later = false;
        let mut j: usize = i + 1;
        while j < sets.len()
            invariant
                i < j <= sets.len(),
                later <==> exists|m: int| i < m < j && (#[trigger] sets@[m]).name@ == sets@[i as int].name@,
            decreases sets.len() - j,
        {
            if sets[j].name == sets[i].name {
                later = true;
            }
            j = j + 1;
        }
        if !later {
            ids.push(sets[i].id);
        }
        i = i + 1;
    }
    distinct_ids(&ids)
}

/// The id under which `sets` hold the permission set `name`.
fn find_set_id(sets: &Vec<PermissionSetEntry>, name: &String) -> (r: u128)
    requires
        id_for(sets@, name@) is Some,
    ensures
        Some(r) == id_for(sets@, name@),
{
    let mut i: usize = sets.len();
    proof {
        assert(sets@.take(i as int) =~= sets@);
    }
    while i > 0
        invariant
            i <= sets.len(),
            id_for(sets@.take(i as int), name@) == id_for(sets@, name@),
            id_for(sets@, name@) is Some,
        decreases i,
    {
        proof {
            assert(sets@.take(i as int).drop_last() =~= sets@.take(i - 1));
        }
        if sets[i - 1].name == *name {
            return sets[i - 1].id;
        }
        i = i - 1;
    }
    proof {
        assert(sets@.take(0) =~= Seq::<PermissionSetEntry>::empty());
    }
    0
}

/// The ids of the permission sets named `names`, in their order. Each
/// name must be the name of a permission set in `sets`.
pub fn permission_set_ids(sets: &Vec<PermissionSetEntry>, names: &Vec<String>) -> (r: Vec<u128>)
    requires
        forall|k: int| 0 <= k < names@.len() ==> id_for(sets@, (#[trigger] names@[k])@) is Some,
    ensures
        r@.len() == names@.len(),
        forall|k: int| 0 <= k < names@.len() ==> Some(#[trigger] r@[k]) == id_for(sets@, names@[k]@),
{
    let mut ids: Vec<u128> = Vec::new();
    let mut k: usize = 0;
    while k < names.len()
        invariant
            k <= names.len(),
            forall|m: int| 0 <= m < names@.len() ==> id_for(sets@, (#[trigger] names@[m])@) is Some,
            ids@.len() == k,
            forall|m: int| 0 <= m < k ==> Some(#[trigger] ids@[m]) == id_for(sets@, names@[m]@),
        decreases names.len() - k,
    {
        let id = find_set_id(sets, &names[k]);
        ids.push(id);
        k = k + 1;
    }
    ids
}

/// A role to create unless one of its name exists, and the permission
/// sets it is given.
#[derive(Debug)]
pub struct RolePlan {
    pub name: String,
    pub permission_sets: Vec<u128>,
}

/// A predefined role: its name and the names of its permission sets.
#[derive(Debug)]
pub struct PredefinedRole {
    pub name: String,
    pub permission_sets: Vec<String>,
}

/// Every permission set that the predefined roles name exists in `sets`.
pub open spec fn predefined_sets_exist(sets: Seq<PermissionSetEntry>, roles: Seq<PredefinedRole>) -> bool {
    forall|i: int, k: int|
        0 <= i < roles.len() && 0 <= k < roles[i].permission_sets@.len() ==> id_for(
            sets,
            (#[trigger] roles[i].permission_sets@[k])@,
        ) is Some
}

/// The ids of the permission sets named `names`, in their order.
pub open spec fn ids_of_names(sets: Seq<PermissionSetEntry>, names: Seq<String>) -> Seq<u128> {
    Seq::new(names.len(), |k: int| id_for(sets, names[k]@)->0)
}

/// The roles that bootstrapping sets up: first the superuser role with
/// every permission set, then each predefined role, in order, with the
/// permission sets it names; a role is given each of its permission sets
/// once.
pub fn role_plans(sets: &Vec<PermissionSetEntry>, roles: &Vec<PredefinedRole>) -> (r: Vec<RolePlan>)
    requires
        predefined_sets_exist(sets@, roles@),
    ensures
        r@.len() == roles@.len() + 1,
        r@[0].name@ == ROLE_NAME_SUPERUSER@,
        same_ids_once(r@[0].permission_sets@, kept_ids(sets@, sets@.len() as int)),
        forall|i: int|
            0 <= i < roles@.len() ==> {
                &&& (#[trigger] r@[i + 1]).name@ == roles@[i].name@
                &&& same_ids_once(r@[i + 1].permission_sets@, ids_of_names(sets@, roles@[i].permission_sets@))
            },
{
    let mut plans: Vec<RolePlan> = Vec::new();
    plans.push(
        RolePlan {
            name: ROLE_NAME_SUPERUSER.to_owned(),
            permission_sets: superuser_permission_sets(sets),
        },
    );
    let mut i: usize = 0;
    while i < roles.len()
        invariant
            i <= roles.len(),
            predefined_sets_exist(sets@, roles@),
            plans@.len() == i + 1,
            plans@[0].name@ == ROLE_NAME_SUPERUSER@,
            same_ids_once(plans@[0].permission_sets@, kept_ids(sets@, sets@.len() as int)),
            forall|m: int|
                0 <= m < i ==> {
                    &&& (#[trigger] plans@[m + 1]).name@ == roles@[m].name@
                    &&& same_ids_once(plans@[m + 1].permission_sets@, ids_of_names(sets@, roles@[m].permission_sets@))
                },
        decreases roles.len() - i,
    {
        let role = &roles[i];
        proof {
            assert forall|k: int| 0 <= k < role.permission_sets@.len() implies id_for(
                sets@,
                (#[trigger] role.permission_sets@[k])@,
            ) is Some by {
                assert(roles@[i as int].permission_sets@[k] == role.permission_sets@[k]);
            }
        }
        let ids = permission_set_ids(sets, &role.permission_sets);
        proof {
            assert(ids@ =~= ids_of_names(sets@, role.permission_sets@));
        }
        let once = distinct_ids(&ids);
        plans.push(RolePlan { name: role.name.clone(), permission_sets: once });
        proof {
            assert(plans@[i + 1].name@ == roles@[i as int].name@);
        }
        i = i + 1;
    }
    plans
}

} // verus!
