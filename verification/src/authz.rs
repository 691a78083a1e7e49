//! What the modules' permissions are written in: objects named by an
//! entity and one id or all of them, actions named by an entity and a
//! verb, and the permission set each action belongs to.
use vstd::prelude::*;
use crate::ids::{is_uuid_char, parse_uuid, parsed_uuid, uuid_to_string};
use crate::text::{chars_eq, chars_of, string_from_chars};

verus! {

/// The position of the first `c` in `s`, or the length of `s` when there is
/// none.
pub open spec fn first_index_of(s: Seq<char>, c: char) -> int
    decreases s.len(),
{
    if s.len() == 0 {
        0
    } else if s[0] == c {
        0
    } else {
        1 + first_index_of(s.drop_first(), c)
    }
}

/// What comes before the first `c` of `s`.
pub open spec fn before_first(s: Seq<char>, c: char) -> Seq<char> {
    s.take(first_index_of(s, c))
}

/// What comes after the first `c` of `s`.
pub open spec fn after_first(s: Seq<char>, c: char) -> Seq<char> {
    s.skip(first_index_of(s, c) + 1)
}

/// `s` does not hold `c`.
pub open spec fn lacks(s: Seq<char>, c: char) -> bool {
    forall|i: int| 0 <= i < s.len() ==> s[i] != c
}

/// The first `c` of `s` sits where it does: after text that lacks it.
pub proof fn lemma_first_index_of(s: Seq<char>, c: char)
    ensures
        0 <= first_index_of(s, c) <= s.len(),
        forall|i: int| 0 <= i < first_index_of(s, c) ==> s[i] != c,
        first_index_of(s, c) < s.len() ==> s[first_index_of(s, c)] == c,
    decreases s.len(),
{
    if s.len() > 0 && s[0] != c {
        lemma_first_index_of(s.drop_first(), c);
        assert forall|i: int| 0 <= i < first_index_of(s, c) implies s[i] != c by {
            if i > 0 {
                assert(s[i] == s.drop_first()[i - 1]);
            }
        }
    }
}

/// In `a + [c] + b` where `a` lacks `c`, the first `c` follows `a`.
pub proof fn lemma_split_at_first(a: Seq<char>, c: char, b: Seq<char>)
    requires
        lacks(a, c),
    ensures
        first_index_of(a + seq![c] + b, c) == a.len(),
        before_first(a + seq![c] + b, c) == a,
        after_first(a + seq![c] + b, c) == b,
    decreases a.len(),
{
    let s = a + seq![c] + b;
    if a.len() > 0 {
        lemma_split_at_first(a.drop_first(), c, b);
        assert(s.drop_first() == a.drop_first() + seq![c] + b);
    }
    assert(s.take(a.len() as int) == a);
    assert(s.skip(a.len() as int + 1) == b);
}

/// The position of the first `c` in `v`.
pub fn find_first(v: &Vec<char>, c: char) -> (r: usize)
    ensures
        r == first_index_of(v@, c),
        r <= v.len(),
{
    proof {
        lemma_first_index_of(v@, c);
    }
    let mut i: usize = 0;
    while i < v.len()
        invariant
            i <= v.len(),
            forall|j: int| 0 <= j < i ==> v@[j] != c,
            i <= first_index_of(v@, c),
            0 <= first_index_of(v@, c) <= v@.len(),
            forall|j: int| 0 <= j < first_index_of(v@, c) ==> v@[j] != c,
            first_index_of(v@, c) < v@.len() ==> v@[first_index_of(v@, c)] == c,
        decreases v.len() - i,
    {
        if v[i] == c {
            return i;
        }
        i = i + 1;
    }
    i
}

/// The characters of `v` from `start` to `end`.
pub fn slice_chars(v: &Vec<char>, start: usize, end: usize) -> (r: Vec<char>)
    requires
        start <= end <= v.len(),
    ensures
        r@ == v@.subrange(start as int, end as int),
{
    let mut r: Vec<char> = Vec::new();
    let mut i = start;
    while i < end
        invariant
            start <= i <= end <= v.len(),
            r@ == v@.subrange(start as int, i as int),
        decreases end - i,
    {
        r.push(v[i]);
        i = i + 1;
        assert(r@ =~= v@.subrange(start as int, i as int));
    }
    r
}

/// Whether the characters of `v` are those of the literal `lit`.
pub fn chars_are(v: &Vec<char>, lit: &str) -> (r: bool)
    ensures
        r == (v@ == lit@),
{
    let l = chars_of(lit);
    chars_eq(v, &l)
}

/// The text `a`, then `sep`, then `b`.
pub fn join_with(a: &str, sep: char, b: &str) -> (r: String)
    ensures
        r@ == a@ + seq![sep] + b@,
{
    let mut v = chars_of(a);
    v.push(sep);
    let mut w = chars_of(b);
    v.append(&mut w);
    string_from_chars(v.as_slice())
}

/// An object of permissions: all of a kind, or the one with an id.
#[derive(Debug, Clone, Copy, PartialEq, Eq)]
pub enum AllOrOne {
    All,
    ById(u128),
}

/// The text of an object reference: `*` for all, the id's UUID text for
/// one.
pub open spec fn all_or_one_text(a: AllOrOne) -> Seq<char> {
    match a {
        AllOrOne::All => seq!['*'],
        AllOrOne::ById(id) => crate::ids::uuid_text(id),
    }
}

/// What a text names as an object reference: all for `*`, else the UUID it
/// is, if any.
pub open spec fn all_or_one_from_text(s: Seq<char>) -> Option<AllOrOne> {
    if s == seq!['*'] {
        Some(AllOrOne::All)
    } else {
        match parsed_uuid(s) {
            Some(id) => Some(AllOrOne::ById(id)),
            None => None,
        }
    }
}

impl AllOrOne {
    /// The text of the reference.
    pub fn to_string(&self) -> (r: String)
        ensures
            r@ == all_or_one_text(*self),
            lacks(r@, '/'),
            lacks(r@, ':'),
            all_or_one_from_text(r@) == Some(*self),
    {
        match self {
            AllOrOne::All => {
                let v: Vec<char> = vec!['*'];
                let r = string_from_chars(v.as_slice());
                assert(r@ =~= seq!['*']);
                r
            },
            AllOrOne::ById(id) => {
                let r = uuid_to_string(*id);
                proof {
                    crate::ids::lemma_uuid_text_chars(*id);
                }
                assert(r@.len() != seq!['*'].len());
                assert forall|i: int| 0 <= i < r@.len() implies r@[i] != '/' && r@[i] != ':' by {
                    assert(is_uuid_char(r@[i]));
                }
                r
            },
        }
    }

    /// The reference a text names, if any.
    pub fn from_chars(v: &Vec<char>) -> (r: Option<AllOrOne>)
        ensures
            r == all_or_one_from_text(v@),
    {
        if v.len() == 1 && v[0] == '*' {
            assert(v@ =~= seq!['*']);
            return Some(AllOrOne::All);
        }
        assert(v@ != seq!['*']);
        let s = string_from_chars(v.as_slice());
        match parse_uuid(s.as_str()) {
            Some(id) => Some(AllOrOne::ById(id)),
            None => None,
        }
    }
}

/// A text names no variant of the enum it is read as.
#[derive(Debug, Clone, Copy, PartialEq, Eq)]
pub enum ParseError {
    VariantNotFound,
}

/// An action of a module as the permission store records it: the module,
/// the entity, the verb, and the permission set that grants it.
#[derive(Debug)]
pub struct ActionMapping {
    pub module: String,
    pub entity: String,
    pub action: String,
    pub permission_set: String,
}

/// An action mapping, over character sequences.
pub struct ActionMappingView {
    pub module: Seq<char>,
    pub entity: Seq<char>,
    pub action: Seq<char>,
    pub permission_set: Seq<char>,
}

impl View for ActionMapping {
    type V = ActionMappingView;

    open spec fn view(&self) -> ActionMappingView {
        ActionMappingView {
            module: self.module@,
            entity: self.entity@,
            action: self.action@,
            permission_set: self.permission_set@,
        }
    }
}

/// Maps the action `action` of `entity` in `module` to its permission set.
pub fn action_mapping(module: &str, entity: &str, action: &str, permission_set: &str) -> (r: ActionMapping)
    ensures
        r@ == (ActionMappingView { module: module@, entity: entity@, action: action@, permission_set: permission_set@ }),
{
    ActionMapping {
        module: module.to_owned(),
        entity: entity.to_owned(),
        action: action.to_owned(),
        permission_set: permission_set.to_owned(),
    }
}

} // verus!
