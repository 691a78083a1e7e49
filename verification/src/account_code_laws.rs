//! Laws of account codes: the ancestor relation is a strict order, and the
//! written form of a code parses back to the code.
use vstd::prelude::*;
use crate::account_code::{
    code_is_parent_of, code_parses_to, code_text_parts, first_dot, join_dots, section_error,
    sections_wf, split_dots, strip_uuid_prefix,
};
use crate::ids::parsed_uuid;

verus! {

/// No code is its own ancestor.
pub proof fn law_parent_irreflexive(c: Seq<Seq<char>>)
    ensures
        !code_is_parent_of(c, c),
{
}

/// Two codes are never ancestors of each other.
pub proof fn law_parent_antisymmetric(a: Seq<Seq<char>>, b: Seq<Seq<char>>)
    ensures
        !(code_is_parent_of(a, b) && code_is_parent_of(b, a)),
{
    if code_is_parent_of(a, b) && code_is_parent_of(b, a) {
        assert forall|i: int| 0 <= i < a.len() implies a[i] == b[i] by {
            assert(a[i].is_prefix_of(b[i]));
            assert(b[i].is_prefix_of(a[i]));
            assert(a[i] =~= b[i]);
        }
        assert(a =~= b);
    }
}

/// An ancestor of an ancestor of a code is an ancestor of it.
pub proof fn law_parent_transitive(a: Seq<Seq<char>>, b: Seq<Seq<char>>, c: Seq<Seq<char>>)
    requires
        code_is_parent_of(a, b),
        code_is_parent_of(b, c),
    ensures
        code_is_parent_of(a, c),
{
    assert forall|i: int| 0 <= i < a.len() implies (#[trigger] a[i]).is_prefix_of(c[i]) by {
        assert(a[i].is_prefix_of(b[i]));
        assert(b[i].is_prefix_of(c[i]));
        assert(a[i] =~= c[i].subrange(0, a[i].len() as int));
    }
    if a == c {
        law_parent_antisymmetric(a, b);
    }
}

/// A text without `.`.
pub open spec fn dot_free(t: Seq<char>) -> bool {
    forall|i: int| 0 <= i < t.len() ==> t[i] != '.'
}

proof fn lemma_split_len(x: Seq<char>)
    ensures
        split_dots(x).len() >= 1,
    decreases x.len(),
{
    if x.len() > 0 {
        lemma_split_len(x.drop_last());
    }
}

/// Joining the parts of a split text gives the text back.
proof fn lemma_join_split(x: Seq<char>)
    ensures
        join_dots(split_dots(x)) == x,
    decreases x.len(),
{
    if x.len() == 0 {
        assert(split_dots(x) =~= seq![Seq::<char>::empty()]);
        assert(join_dots(split_dots(x)) =~= x);
    } else {
        let y = x.drop_last();
        let ch = x.last();
        lemma_join_split(y);
        lemma_split_len(y);
        let s = split_dots(y);
        assert(x =~= y.push(ch));
        if ch == '.' {
            let t = s.push(Seq::empty());
            assert(t.drop_last() =~= s);
            assert(join_dots(t) =~= x);
        } else {
            let t = s.update(s.len() - 1, s.last().push(ch));
            if s.len() == 1 {
                assert(join_dots(t) =~= x);
            } else {
                assert(t.drop_last() =~= s.drop_last());
                assert(join_dots(t) =~= x);
            }
        }
    }
}

proof fn lemma_split_dot_free(t: Seq<char>)
    requires
        dot_free(t),
    ensures
        split_dots(t) == seq![t],
    decreases t.len(),
{
    if t.len() == 0 {
        assert(t =~= Seq::<char>::empty());
    } else {
        let d = t.drop_last();
        assert(dot_free(d));
        lemma_split_dot_free(d);
        assert(t.last() != '.');
        assert(d.push(t.last()) =~= t);
        assert(split_dots(t) == seq![d].update(0, d.push(t.last())));
        assert(split_dots(t) =~= seq![t]);
    }
}

proof fn lemma_split_after_dot(x: Seq<char>, t: Seq<char>)
    requires
        dot_free(t),
    ensures
        split_dots(x + seq!['.'] + t) == split_dots(x).push(t),
    decreases t.len(),
{
    let s = x + seq!['.'] + t;
    if t.len() == 0 {
        assert(t =~= Seq::<char>::empty());
        assert(s.drop_last() =~= x);
        assert(s.last() == '.');
        assert(split_dots(s) == split_dots(x).push(Seq::empty()));
        assert(split_dots(s) =~= split_dots(x).push(t));
    } else {
        let u = t.drop_last();
        lemma_split_after_dot(x, u);
        assert(s.drop_last() =~= x + seq!['.'] + u);
        assert(s.last() == t.last());
        assert(u.push(t.last()) =~= t);
        assert(split_dots(s) =~= split_dots(x).push(t));
    }
}

proof fn lemma_split_join(c: Seq<Seq<char>>)
    requires
        c.len() >= 1,
        forall|i: int| 0 <= i < c.len() ==> dot_free(#[trigger] c[i]),
    ensures
        split_dots(join_dots(c)) == c,
    decreases c.len(),
{
    if c.len() == 1 {
        lemma_split_dot_free(c[0]);
        assert(split_dots(join_dots(c)) =~= c);
    } else {
        let d = c.drop_last();
        assert forall|i: int| 0 <= i < d.len() implies dot_free(#[trigger] d[i]) by {
            assert(d[i] == c[i]);
        }
        lemma_split_join(d);
        assert(dot_free(c[c.len() - 1]));
        lemma_split_after_dot(join_dots(d), c.last());
        assert(d.push(c.last()) =~= c);
    }
}

proof fn lemma_join_front(c: Seq<Seq<char>>)
    requires
        c.len() >= 2,
    ensures
        join_dots(c) == c[0] + seq!['.'] + join_dots(c.drop_first()),
    decreases c.len(),
{
    if c.len() == 2 {
        assert(c.drop_last() =~= seq![c[0]]);
        assert(c.drop_first() =~= seq![c[1]]);
        assert(join_dots(c.drop_last()) == c[0]);
        assert(join_dots(c.drop_first()) == c[1]);
        assert(join_dots(c) == join_dots(c.drop_last()) + seq!['.'] + c.last());
    } else {
        let d = c.drop_last();
        lemma_join_front(d);
        assert(d.drop_first() =~= c.drop_first().drop_last());
        assert(c.drop_first().last() == c.last());
        assert(d[0] == c[0]);
        assert(join_dots(c) == join_dots(d) + seq!['.'] + c.last());
        assert(join_dots(c.drop_first()) == join_dots(c.drop_first().drop_last()) + seq!['.'] + c.last());
        assert(join_dots(c) =~= c[0] + seq!['.'] + join_dots(c.drop_first()));
    }
}

proof fn lemma_first_dot_after(a: Seq<char>, r: Seq<char>)
    requires
        dot_free(a),
    ensures
        first_dot(a + seq!['.'] + r) == a.len(),
    decreases a.len(),
{
    let s = a + seq!['.'] + r;
    if a.len() == 0 {
        assert(s[0] == '.');
    } else {
        lemma_first_dot_after(a.drop_first(), r);
        assert(s.drop_first() =~= a.drop_first() + seq!['.'] + r);
    }
}

proof fn lemma_digits_dot_free(t: Seq<char>)
    requires
        crate::text::all_ascii_digits(t),
    ensures
        dot_free(t),
{
    assert forall|i: int| 0 <= i < t.len() implies t[i] != '.' by {
        assert(crate::text::is_ascii_digit(t[i]));
    }
}

/// The written form of a code parses back to the code, unless the code has
/// several sections and its first section reads as a UUID (a chart id,
/// which the parser drops).
pub proof fn law_display_then_parse(c: Seq<Seq<char>>, r: Result<crate::account_code::AccountCode, crate::account_code::AccountCodeParseError>)
    requires
        sections_wf(c),
        c.len() > 0,
        c.len() == 1 || parsed_uuid(c[0]) is None,
        code_parses_to(join_dots(c), r),
    ensures
        r matches Ok(d) && d@ == c,
{
    let s = join_dots(c);
    assert forall|i: int| 0 <= i < c.len() implies dot_free(#[trigger] c[i]) by {
        lemma_digits_dot_free(c[i]);
    }
    if c.len() == 1 {
        lemma_split_dot_free(c[0]);
        assert(first_dot(s) == s.len()) by {
            lemma_first_dot_none(s);
        }
    } else {
        lemma_join_front(c);
        lemma_first_dot_after(c[0], join_dots(c.drop_first()));
        assert(s.take(c[0].len() as int) =~= c[0]);
    }
    assert(strip_uuid_prefix(s) == s);
    lemma_split_join(c);
    assert(code_text_parts(s) == c);
    assert(s.len() > 0) by {
        if c.len() > 1 {
            assert(s.len() >= c[0].len());
        }
    }
    assert forall|i: int| 0 <= i < c.len() implies section_error(#[trigger] c[i]) is None by {
        assert(crate::account_code::section_wf(c[i]));
    }
}

proof fn lemma_first_dot_none(s: Seq<char>)
    requires
        dot_free(s),
    ensures
        first_dot(s) == s.len(),
    decreases s.len(),
{
    if s.len() > 0 {
        lemma_first_dot_none(s.drop_first());
    }
}

/// Writing out a parsed code gives back the text that was parsed, less a
/// leading chart id.
pub proof fn law_parse_then_display(s: Seq<char>, r: Result<crate::account_code::AccountCode, crate::account_code::AccountCodeParseError>)
    requires
        code_parses_to(s, r),
        r is Ok,
    ensures
        r matches Ok(c) && join_dots(c@) == strip_uuid_prefix(s),
{
    lemma_join_split(strip_uuid_prefix(s));
}

/// A code written after a chart id and a `.`, as the external id of its
/// account set is, parses back to the code: the chart id is dropped.
pub proof fn law_external_id_then_parse(
    chart_text: Seq<char>,
    c: Seq<Seq<char>>,
    r: Result<crate::account_code::AccountCode, crate::account_code::AccountCodeParseError>,
)
    requires
        sections_wf(c),
        c.len() > 0,
        dot_free(chart_text),
        parsed_uuid(chart_text) is Some,
        code_parses_to(chart_text + seq!['.'] + join_dots(c), r),
    ensures
        r matches Ok(d) && d@ == c,
{
    let j = join_dots(c);
    let s = chart_text + seq!['.'] + j;
    assert forall|i: int| 0 <= i < c.len() implies dot_free(#[trigger] c[i]) by {
        lemma_digits_dot_free(c[i]);
    }
    lemma_first_dot_after(chart_text, j);
    assert(s.take(chart_text.len() as int) =~= chart_text);
    assert(s.skip(chart_text.len() as int + 1) =~= j);
    assert(strip_uuid_prefix(s) == j);
    lemma_split_join(c);
    assert(code_text_parts(s) == c);
    assert forall|i: int| 0 <= i < c.len() implies section_error(#[trigger] c[i]) is None by {
        assert(crate::account_code::section_wf(c[i]));
    }
}

} // verus!
