//! Chart-of-account codes: dot-separated sections of digits, such as `32.01`.
use vstd::prelude::*;
use crate::text::{
    all_ascii_digits, chars_all_digits, chars_of, is_ascii_digit, string_from_chars, trim_str, trimmed,
};
use crate::ids::{is_uuid_char, parse_uuid, parsed_uuid, uuid_text, uuid_to_string};
use crate::text::concat_str;

verus! {

/// Why a section of an account code was refused.
#[derive(Debug, Clone, Copy, PartialEq, Eq)]
pub enum AccountCodeSectionParseError {
    Empty,
    NonDigit,
}

/// Why an account code was refused.
#[derive(Debug, Clone, Copy, PartialEq, Eq)]
pub enum AccountCodeParseError {
    Empty,
    AccountCodeSectionParseError(AccountCodeSectionParseError),
    InvalidParent,
}

/// A code was given a parent that is not one of its ancestors.
#[derive(Debug, Clone, Copy, PartialEq, Eq)]
pub enum AccountCodeError {
    InvalidParent,
}

/// A section is a non-empty run of ASCII digits.
pub open spec fn section_wf(s: Seq<char>) -> bool {
    s.len() > 0 && all_ascii_digits(s)
}

/// Every section of a code is well formed.
pub open spec fn sections_wf(c: Seq<Seq<char>>) -> bool {
    forall|i: int| 0 <= i < c.len() ==> section_wf(#[trigger] c[i])
}

/// One section of an account code.
#[derive(Debug, PartialEq, Eq, PartialOrd, Ord, Hash)]
pub struct AccountCodeSection {
    code: Vec<char>,
}

impl View for AccountCodeSection {
    type V = Seq<char>;

    closed spec fn view(&self) -> Seq<char> {
        self.code@
    }
}

impl AccountCodeSection {
    #[verifier::type_invariant]
    spec fn inv(self) -> bool {
        section_wf(self.code@)
    }

    /// The section whose digits are `s`, or why `s` is not one:
    /// `Empty` for the empty string, `NonDigit` when a character is not an
    /// ASCII digit.
    pub fn from_str(s: &str) -> (r: Result<AccountCodeSection, AccountCodeSectionParseError>)
        ensures
            section_parses_to(s@, r),
    {
        let v = chars_of(s);
        Self::from_chars(v)
    }

    pub(crate) fn from_chars(v: Vec<char>) -> (r: Result<AccountCodeSection, AccountCodeSectionParseError>)
        ensures
            section_parses_to(v@, r),
    {
        if v.len() == 0 {
            return Err(AccountCodeSectionParseError::Empty);
        }
        if !chars_all_digits(&v) {
            return Err(AccountCodeSectionParseError::NonDigit);
        }
        Ok(AccountCodeSection { code: v })
    }

    /// A copy of the section.
    pub fn duplicate(&self) -> (r: AccountCodeSection)
        ensures
            r@ == self@,
    {
        proof { use_type_invariant(self); }
        let code = self.code.clone();
        assert(code@ =~= self.code@);
        AccountCodeSection { code }
    }

    /// The digits of the section.
    pub fn digits(&self) -> (r: &Vec<char>)
        ensures
            r@ == self@,
            section_wf(r@),
    {
        proof { use_type_invariant(self); }
        &self.code
    }

    /// The section as text.
    pub fn to_string(&self) -> (r: String)
        ensures
            r@ == self@,
    {
        string_from_chars(self.code.as_slice())
    }
}

/// Why the text `s` is not a section, if it is not one.
pub open spec fn section_error(s: Seq<char>) -> Option<AccountCodeSectionParseError> {
    if s.len() == 0 {
        Some(AccountCodeSectionParseError::Empty)
    } else if !all_ascii_digits(s) {
        Some(AccountCodeSectionParseError::NonDigit)
    } else {
        None
    }
}

/// `r` is what parsing the text `s` as a section must give.
pub open spec fn section_parses_to(
    s: Seq<char>,
    r: Result<AccountCodeSection, AccountCodeSectionParseError>,
) -> bool {
    match section_error(s) {
        Some(e) => r == Err::<AccountCodeSection, AccountCodeSectionParseError>(e),
        None => r matches Ok(sec) && sec@ == s,
    }
}


/// The views of a run of sections.
pub open spec fn sections_view(s: Seq<AccountCodeSection>) -> Seq<Seq<char>> {
    s.map_values(|x: AccountCodeSection| x@)
}

/// `p` is an ancestor of `c` in the chart: both are non-empty, they differ,
/// `c` has at least as many sections, and each section of `p` is a prefix of
/// the section of `c` at the same place (`1` is an ancestor of `11`, `10` of
/// `10.20`, but `10` is not one of `11`).
pub open spec fn code_is_parent_of(p: Seq<Seq<char>>, c: Seq<Seq<char>>) -> bool {
    &&& p.len() > 0
    &&& c.len() > 0
    &&& p != c
    &&& p.len() <= c.len()
    &&& forall|i: int| 0 <= i < p.len() ==> (#[trigger] p[i]).is_prefix_of(c[i])
}

/// The sections written one after the other, without separators.
pub open spec fn concat_sections(c: Seq<Seq<char>>) -> Seq<char>
    decreases c.len(),
{
    if c.len() == 0 {
        Seq::empty()
    } else {
        concat_sections(c.drop_last()) + c.last()
    }
}

/// The parts joined by `.`: the written form of a code.
pub open spec fn join_dots(c: Seq<Seq<char>>) -> Seq<char>
    decreases c.len(),
{
    if c.len() == 0 {
        Seq::empty()
    } else if c.len() == 1 {
        c[0]
    } else {
        join_dots(c.drop_last()) + seq!['.'] + c.last()
    }
}

/// An account code: its sections, from the top of the chart down.
#[derive(Debug, PartialEq, Eq, PartialOrd, Ord, Hash)]
pub struct AccountCode {
    sections: Vec<AccountCodeSection>,
}

impl View for AccountCode {
    type V = Seq<Seq<char>>;

    closed spec fn view(&self) -> Seq<Seq<char>> {
        sections_view(self.sections@)
    }
}

/// Compares two runs of sections.
pub fn sections_equal(a: &[AccountCodeSection], b: &[AccountCodeSection]) -> (r: bool)
    ensures
        r == (sections_view(a@) == sections_view(b@)),
{
    if a.len() != b.len() {
        assert(sections_view(a@).len() != sections_view(b@).len());
        return false;
    }
    let mut i: usize = 0;
    while i < a.len()
        invariant
            a.len() == b.len(),
            i <= a.len(),
            forall|j: int| 0 <= j < i ==> (#[trigger] a@[j])@ == b@[j]@,
        decreases a.len() - i,
    {
        if !crate::text::chars_eq(a[i].digits(), b[i].digits()) {
            assert(sections_view(a@)[i as int] != sections_view(b@)[i as int]);
            return false;
        }
        i = i + 1;
    }
    assert(sections_view(a@) =~= sections_view(b@));
    true
}

impl AccountCode {
    #[verifier::type_invariant]
    spec fn inv(self) -> bool {
        sections_wf(self@)
    }

    /// The code made of the given sections.
    pub fn new(section: Vec<AccountCodeSection>) -> (r: AccountCode)
        ensures
            r@ == sections_view(section@),
    {
        let mut i: usize = 0;
        while i < section.len()
            invariant
                i <= section.len(),
                forall|j: int| 0 <= j < i ==> section_wf(#[trigger] sections_view(section@)[j]),
            decreases section.len() - i,
        {
            let s = &section[i];
            proof { use_type_invariant(s); }
            i = i + 1;
        }
        AccountCode { sections: section }
    }

    /// The sections of the code.
    pub fn sections(&self) -> (r: &[AccountCodeSection])
        ensures
            sections_view(r@) == self@,
    {
        self.sections.as_slice()
    }

    /// The sections of the code, taken out of it.
    pub fn into_sections(self) -> (r: Vec<AccountCodeSection>)
        ensures
            sections_view(r@) == self@,
    {
        self.sections
    }

    /// A copy of the code.
    pub fn duplicate(&self) -> (r: AccountCode)
        ensures
            r@ == self@,
    {
        proof { use_type_invariant(self); }
        let mut out: Vec<AccountCodeSection> = Vec::new();
        let mut i: usize = 0;
        while i < self.sections.len()
            invariant
                i <= self.sections.len(),
                sections_view(out@) =~= self@.take(i as int),
            decreases self.sections.len() - i,
        {
            let d = self.sections[i].duplicate();
            let ghost prev = out@;
            out.push(d);
            assert(out@ == prev.push(d));
            assert(self@[i as int] == self.sections@[i as int]@);
            assert(sections_view(prev).len() == i);
            assert(forall|j: int| 0 <= j < i ==> sections_view(prev)[j] == self@[j]);
            assert(sections_view(out@)[i as int] == d@);
            assert forall|j: int| 0 <= j < i implies sections_view(out@)[j] == sections_view(prev)[j] by {
                assert(out@[j] == prev[j]);
            }
            i = i + 1;
            assert(sections_view(out@) =~= self@.take(i as int));
        }
        assert(self@.take(self@.len() as int) =~= self@);
        AccountCode { sections: out }
    }

    /// Whether the two codes have the same sections.
    pub fn same_code(&self, other: &AccountCode) -> (r: bool)
        ensures
            r == (self@ == other@),
    {
        sections_equal(self.sections.as_slice(), other.sections.as_slice())
    }

    /// The number of sections.
    pub fn len_sections(&self) -> (r: usize)
        ensures
            r == self@.len(),
    {
        self.sections.len()
    }

    /// The depth of the code in the chart: the number of sections less one.
    pub fn chart_level(&self) -> (r: usize)
        requires
            self@.len() > 0,
        ensures
            r == self@.len() - 1,
    {
        self.len_sections() - 1
    }

    /// Whether the code is a top-level code of the chart: one section of one
    /// digit.
    pub fn is_top_level_chart_code(&self) -> (r: bool)
        ensures
            r == (self@.len() == 1 && self@[0].len() == 1),
    {
        self.sections.len() == 1 && self.sections[0].digits().len() == 1
    }

    /// The section at `idx`, if there is one.
    pub fn section(&self, idx: usize) -> (r: Option<&AccountCodeSection>)
        ensures
            idx < self@.len() ==> (r matches Some(s) && s@ == self@[idx as int]),
            idx >= self@.len() ==> r is None,
    {
        if idx < self.sections.len() {
            Some(&self.sections[idx])
        } else {
            None
        }
    }

    #[verifier::loop_isolation(false)]
    /// Whether the text `code` is the sections of this code written one after
    /// the other without separators (`11.01.0201` is `11010201`).
    pub fn is_equivalent_to_str(&self, code: &str) -> (r: bool)
        ensures
            r == (concat_sections(self@) == code@),
    {
        let text = chars_of(code);
        let mut position: usize = 0;
        let mut k: usize = 0;
        while k < self.sections.len()
            invariant
                text@ == code@,
                k <= self.sections.len(),
                position <= text@.len(),
                position == concat_sections(self@.take(k as int)).len(),
                text@.take(position as int) =~= concat_sections(self@.take(k as int)),
            decreases self.sections.len() - k,
        {
            let section = self.sections[k].digits();
            let section_len = section.len();
            proof {
                assert(self@.take(k + 1).drop_last() =~= self@.take(k as int));
                assert(self@.take(k + 1).last() == section@);
            }
            if section_len > text.len() - position {
                proof {
                    lemma_concat_len_mono(self@, k as int + 1);
                }
                return false;
            }
            let mut j: usize = 0;
            while j < section_len
                invariant
                    section_len == section@.len(),
                    position + section_len <= text@.len(),
                    j <= section_len,
                    forall|t: int| 0 <= t < j ==> text@[position + t] == section@[t],
                decreases section_len - j,
            {
                if text[position + j] != section[j] {
                    proof {
                        lemma_concat_prefix_mono(self@, k as int + 1);
                        let full = concat_sections(self@);
                        let pre = concat_sections(self@.take(k + 1));
                        assert(pre[position + j] == section@[j as int]);
                        if full == code@ {
                            assert(full[position + j] == pre[position + j]);
                        }
                    }
                    return false;
                }
                j = j + 1;
            }
            position = position + section_len;
            k = k + 1;
            assert(text@.take(position as int) =~= concat_sections(self@.take(k as int)));
        }
        assert(self@.take(self@.len() as int) =~= self@);
        if position == text.len() {
            assert(text@.take(position as int) =~= text@);
            true
        } else {
            false
        }
    }

    /// Whether this code is an ancestor of the code made of `child_sections`.
    pub fn is_parent_of(&self, child_sections: &[AccountCodeSection]) -> (r: bool)
        ensures
            r == code_is_parent_of(self@, sections_view(child_sections@)),
    {
        let ghost c = sections_view(child_sections@);
        if self.sections.len() == 0 || child_sections.len() == 0 {
            return false;
        }
        if sections_equal(self.sections.as_slice(), child_sections) {
            return false;
        }
        let mut i: usize = 0;
        while i < self.sections.len()
            invariant
                c == sections_view(child_sections@),
                i <= self.sections.len(),
                i <= child_sections.len(),
                forall|t: int| 0 <= t < i ==> (#[trigger] self@[t]).is_prefix_of(c[t]),
            decreases self.sections.len() - i,
        {
            if i >= child_sections.len() {
                return false;
            }
            let parent_section = self.sections[i].digits();
            let child_section = child_sections[i].digits();
            if !crate::text::chars_starts_with(child_section, parent_section) {
                assert(!self@[i as int].is_prefix_of(c[i as int]));
                return false;
            }
            i = i + 1;
        }
        true
    }

    /// `Ok` when no parent is given or the parent is an ancestor of this code;
    /// `InvalidParent` otherwise.
    pub fn check_valid_parent(&self, parent_code: Option<AccountCode>) -> (r: Result<(), AccountCodeError>)
        ensures
            r is Ok <==> (parent_code matches Some(p) ==> code_is_parent_of(p@, self@)),
            r matches Err(e) ==> e == AccountCodeError::InvalidParent,
    {
        let parent_code = if let Some(parent_code) = parent_code {
            parent_code
        } else {
            return Ok(());
        };
        if parent_code.is_parent_of(self.sections.as_slice()) {
            Ok(())
        } else {
            Err(AccountCodeError::InvalidParent)
        }
    }

    /// The external id of the code's account set in the chart `chart_id`:
    /// the chart id, `.`, and the code's written form. Where the code has
    /// sections, parsing the id gives the code back.
    pub fn account_set_external_id(&self, chart_id: u128) -> (r: String)
        ensures
            r@ == uuid_text(chart_id) + "."@ + join_dots(self@),
            self@.len() > 0 ==> forall|p: Result<AccountCode, AccountCodeParseError>|
                code_parses_to(r@, p) ==> (p matches Ok(d) && d@ == self@),
    {
        proof {
            reveal_strlit(".");
            use_type_invariant(self);
        }
        let id = uuid_to_string(chart_id);
        let code = self.to_string();
        let with_dot = concat_str(id.as_str(), ".");
        let r = concat_str(with_dot.as_str(), code.as_str());
        proof {
            assert("."@ =~= seq!['.']);
            assert forall|p: Result<AccountCode, AccountCodeParseError>|
                self@.len() > 0 && code_parses_to(r@, p) implies (p matches Ok(d) && d@ == self@) by {
                assert(crate::account_code_laws::dot_free(id@)) by {
                    assert forall|i: int| 0 <= i < id@.len() implies id@[i] != '.' by {
                        assert(is_uuid_char(id@[i]));
                    }
                }
                assert(r@ =~= id@ + seq!['.'] + join_dots(self@));
                crate::account_code_laws::law_external_id_then_parse(id@, self@, p);
            }
        }
        r
    }

    /// The external id of the code's manual account in the chart
    /// `chart_id`: the account set's external id followed by `.manual`.
    pub fn manual_account_external_id(&self, chart_id: u128) -> (r: String)
        ensures
            r@ == uuid_text(chart_id) + "."@ + join_dots(self@) + ".manual"@,
    {
        let set_id = self.account_set_external_id(chart_id);
        concat_str(set_id.as_str(), ".manual")
    }

    /// The code written with `.` between its sections.
    pub fn to_string(&self) -> (r: String)
        ensures
            r@ == join_dots(self@),
    {
        let mut out: Vec<char> = Vec::new();
        let mut k: usize = 0;
        while k < self.sections.len()
            invariant
                k <= self.sections.len(),
                out@ == join_dots(self@.take(k as int)),
            decreases self.sections.len() - k,
        {
            if k > 0 {
                out.push('.');
            }
            let d = self.sections[k].digits();
            let mut j: usize = 0;
            let ghost before = out@;
            while j < d.len()
                invariant
                    j <= d@.len(),
                    out@ == before + d@.take(j as int),
                decreases d.len() - j,
            {
                out.push(d[j]);
                j = j + 1;
                assert(out@ =~= before + d@.take(j as int));
            }
            proof {
                assert(d@.take(d@.len() as int) =~= d@);
                let t = self@.take(k + 1);
                assert(t.drop_last() =~= self@.take(k as int));
                if k == 0 {
                    assert(out@ =~= t[0]);
                } else {
                    assert(out@ =~= join_dots(t.drop_last()) + seq!['.'] + t.last());
                }
            }
            k = k + 1;
        }
        assert(self@.take(self@.len() as int) =~= self@);
        string_from_chars(out.as_slice())
    }
}

/// The text split at every `.`: `1..2` gives `1`, an empty part, and `2`;
/// the empty text gives one empty part.
pub open spec fn split_dots(s: Seq<char>) -> Seq<Seq<char>>
    decreases s.len(),
{
    if s.len() == 0 {
        seq![Seq::empty()]
    } else {
        let init = split_dots(s.drop_last());
        if s.last() == '.' {
            init.push(Seq::empty())
        } else {
            init.update(init.len() - 1, init.last().push(s.last()))
        }
    }
}

/// The index of the first `.` of the text, or its length when it has none.
pub open spec fn first_dot(s: Seq<char>) -> int
    decreases s.len(),
{
    if s.len() == 0 {
        0
    } else if s[0] == '.' {
        0
    } else {
        1 + first_dot(s.drop_first())
    }
}

/// The text with a leading `<uuid>.` removed, when its part before the first
/// `.` parses as a UUID (the chart id that an external id starts with).
pub open spec fn strip_uuid_prefix(s: Seq<char>) -> Seq<char> {
    let d = first_dot(s);
    if d < s.len() && parsed_uuid(s.take(d)) is Some {
        s.skip(d + 1)
    } else {
        s
    }
}

/// The parts of the text that become the sections of a parsed code.
pub open spec fn code_text_parts(s: Seq<char>) -> Seq<Seq<char>> {
    split_dots(strip_uuid_prefix(s))
}

/// `r` is what parsing the text `s` as an account code must give: `Empty` for
/// the empty text; else, when a part is not a section, the error of the
/// first such part; else the code whose sections are the parts.
pub open spec fn code_parses_to(s: Seq<char>, r: Result<AccountCode, AccountCodeParseError>) -> bool {
    let parts = code_text_parts(s);
    if s.len() == 0 {
        r == Err::<AccountCode, AccountCodeParseError>(AccountCodeParseError::Empty)
    } else if forall|i: int| 0 <= i < parts.len() ==> section_error(#[trigger] parts[i]) is None {
        r matches Ok(c) && c@ == parts
    } else {
        exists|i: int|
            #![trigger section_error(parts[i])]
            {
                &&& 0 <= i < parts.len()
                &&& forall|j: int| 0 <= j < i ==> section_error(#[trigger] parts[j]) is None
                &&& section_error(parts[i]) is Some
                &&& r == Err::<AccountCode, AccountCodeParseError>(
                    AccountCodeParseError::AccountCodeSectionParseError(section_error(parts[i])->0),
                )
            }
    }
}

/// The views of a run of character vectors.
pub open spec fn char_vecs_view(v: Seq<Vec<char>>) -> Seq<Seq<char>> {
    v.map_values(|x: Vec<char>| x@)
}

fn first_dot_index(v: &Vec<char>) -> (r: usize)
    ensures
        r == first_dot(v@),
        r <= v@.len(),
{
    let mut i: usize = 0;
    assert(v@.skip(0) =~= v@);
    while i < v.len()
        invariant
            i <= v.len(),
            forall|j: int| 0 <= j < i ==> v@[j] != '.',
            first_dot(v@) == i + first_dot(v@.skip(i as int)),
        decreases v.len() - i,
    {
        if v[i] == '.' {
            assert(v@.skip(i as int)[0] == '.');
            return i;
        }
        assert(v@.skip(i as int).drop_first() =~= v@.skip(i + 1));
        i = i + 1;
    }
    assert(v@.skip(i as int).len() == 0);
    i
}

fn split_at_dots(body: &Vec<char>) -> (r: Vec<Vec<char>>)
    ensures
        char_vecs_view(r@) == split_dots(body@),
{
    let mut parts: Vec<Vec<char>> = Vec::new();
    let mut current: Vec<char> = Vec::new();
    let mut i: usize = 0;
    assert(body@.take(0) =~= Seq::<char>::empty());
    assert(char_vecs_view(parts@).push(current@) =~= split_dots(body@.take(0)));
    while i < body.len()
        invariant
            i <= body.len(),
            char_vecs_view(parts@).push(current@) == split_dots(body@.take(i as int)),
        decreases body.len() - i,
    {
        let ghost t = body@.take(i + 1);
        assert(t.drop_last() =~= body@.take(i as int));
        assert(t.last() == body@[i as int]);
        let c = body[i];
        if c == '.' {
            let done = current;
            let ghost pv = char_vecs_view(parts@);
            parts.push(done);
            current = Vec::new();
            assert(char_vecs_view(parts@) =~= pv.push(done@));
            assert(char_vecs_view(parts@).push(current@) =~= split_dots(body@.take(i as int)).push(Seq::empty()));
        } else {
            let ghost before = current@;
            current.push(c);
            assert(char_vecs_view(parts@).push(current@) =~= split_dots(body@.take(i as int)).update(
                char_vecs_view(parts@).len() as int,
                before.push(c),
            ));
        }
        i = i + 1;
    }
    assert(body@.take(body@.len() as int) =~= body@);
    let ghost pv = char_vecs_view(parts@);
    parts.push(current);
    assert(char_vecs_view(parts@) =~= pv.push(current@));
    parts
}

impl AccountCode {
    /// Parses a code written with `.` between its sections, such as `32.01`.
    /// A leading chart id (`<uuid>.32.01`) is dropped.
    pub fn from_str(s: &str) -> (r: Result<AccountCode, AccountCodeParseError>)
        ensures
            code_parses_to(s@, r),
    {
        let text = chars_of(s);
        if text.len() == 0 {
            return Err(AccountCodeParseError::Empty);
        }
        let d = first_dot_index(&text);
        let mut body = text.clone();
        assert(body@ =~= text@);
        if d < text.len() {
            let mut first: Vec<char> = Vec::new();
            let mut j: usize = 0;
            while j < d
                invariant
                    d < text@.len(),
                    j <= d,
                    first@ =~= text@.take(j as int),
                decreases d - j,
            {
                first.push(text[j]);
                j = j + 1;
                assert(first@ =~= text@.take(j as int));
            }
            let first_str = string_from_chars(first.as_slice());
            if parse_uuid(first_str.as_str()).is_some() {
                let mut rest: Vec<char> = Vec::new();
                let mut k: usize = d + 1;
                while k < text.len()
                    invariant
                        d < text@.len(),
                        d + 1 <= k <= text@.len(),
                        rest@ =~= text@.subrange(d + 1, k as int),
                    decreases text.len() - k,
                {
                    rest.push(text[k]);
                    k = k + 1;
                    assert(rest@ =~= text@.subrange(d + 1, k as int));
                }
                body = rest;
                assert(body@ =~= text@.skip(d + 1));
            }
        }
        assert(body@ == strip_uuid_prefix(s@));
        let parts = split_at_dots(&body);
        let ghost pv = char_vecs_view(parts@);
        let mut sections: Vec<AccountCodeSection> = Vec::new();
        let mut i: usize = 0;
        while i < parts.len()
            invariant
                pv == char_vecs_view(parts@),
                pv == code_text_parts(s@),
                s@.len() > 0,
                i <= parts.len(),
                sections_view(sections@) =~= pv.take(i as int),
                forall|j: int| 0 <= j < i ==> section_error(#[trigger] pv[j]) is None,
            decreases parts.len() - i,
        {
            let part = parts[i].clone();
            assert(part@ =~= pv[i as int]);
            match AccountCodeSection::from_chars(part) {
                Ok(sec) => {
                    let ghost prev = sections@;
                    assert(pv.len() == parts.len());
                    assert(sections_view(prev).len() == i);
                    sections.push(sec);
                    assert(sections_view(sections@) =~= pv.take(i + 1)) by {
                        assert(sections@ == prev.push(sec));
                        assert forall|j: int| 0 <= j < i implies sections_view(sections@)[j]
                            == sections_view(prev)[j] by {
                            assert(sections@[j] == prev[j]);
                        }
                    }
                },
                Err(e) => {
                    assert(section_error(pv[i as int]) == Some(e));
                    return Err(AccountCodeParseError::AccountCodeSectionParseError(e));
                },
            }
            i = i + 1;
        }
        assert(pv.take(pv.len() as int) =~= pv);
        Ok(AccountCode::new(sections))
    }
}

/// Why an account name was refused.
#[derive(Debug, Clone, Copy, PartialEq, Eq)]
pub enum AccountNameParseError {
    Empty,
    StartsWithDigit,
}

/// The name of a ledger account: trimmed, not empty, not starting with a digit.
#[derive(Debug, Clone)]
pub struct AccountName {
    name: String,
}

impl View for AccountName {
    type V = Seq<char>;

    closed spec fn view(&self) -> Seq<char> {
        self.name@
    }
}

/// `r` is what parsing `s` as an account name must give: the text is
/// trimmed; an empty result is `Empty`, one that starts with an ASCII digit is
/// `StartsWithDigit`, and any other is the name.
pub open spec fn name_parses_to(s: Seq<char>, r: Result<AccountName, AccountNameParseError>) -> bool {
    let t = trimmed(s);
    if t.len() == 0 {
        r == Err::<AccountName, AccountNameParseError>(AccountNameParseError::Empty)
    } else if is_ascii_digit(t[0]) {
        r == Err::<AccountName, AccountNameParseError>(AccountNameParseError::StartsWithDigit)
    } else {
        r matches Ok(n) && n@ == t
    }
}

impl AccountName {
    /// Parses an account name.
    pub fn from_str(s: &str) -> (r: Result<AccountName, AccountNameParseError>)
        ensures
            name_parses_to(s@, r),
    {
        let trimmed_text = trim_str(s);
        let n = trimmed_text.unicode_len();
        if n == 0 {
            return Err(AccountNameParseError::Empty);
        }
        let first_char = trimmed_text.get_char(0);
        if first_char >= '0' && first_char <= '9' {
            return Err(AccountNameParseError::StartsWithDigit);
        }
        Ok(AccountName { name: trimmed_text.to_owned() })
    }

    /// The name as text.
    pub fn to_string(&self) -> (r: String)
        ensures
            r@ == self@,
    {
        self.name.clone()
    }
}

impl std::str::FromStr for AccountCodeSection {
    type Err = AccountCodeSectionParseError;

    fn from_str(s: &str) -> (r: Result<AccountCodeSection, AccountCodeSectionParseError>)
        ensures
            section_parses_to(s@, r),
    {
        AccountCodeSection::from_str(s)
    }
}

impl std::str::FromStr for AccountCode {
    type Err = AccountCodeParseError;

    fn from_str(s: &str) -> (r: Result<AccountCode, AccountCodeParseError>)
        ensures
            code_parses_to(s@, r),
    {
        AccountCode::from_str(s)
    }
}

impl std::str::FromStr for AccountName {
    type Err = AccountNameParseError;

    fn from_str(s: &str) -> (r: Result<AccountName, AccountNameParseError>)
        ensures
            name_parses_to(s@, r),
    {
        AccountName::from_str(s)
    }
}

proof fn lemma_concat_len_mono(c: Seq<Seq<char>>, k: int)
    requires
        0 <= k <= c.len(),
    ensures
        concat_sections(c.take(k)).len() <= concat_sections(c).len(),
    decreases c.len(),
{
    if k < c.len() {
        assert(c.drop_last().take(k) =~= c.take(k));
        lemma_concat_len_mono(c.drop_last(), k);
    } else {
        assert(c.take(k) =~= c);
    }
}

proof fn lemma_concat_prefix_mono(c: Seq<Seq<char>>, k: int)
    requires
        0 <= k <= c.len(),
    ensures
        concat_sections(c.take(k)).is_prefix_of(concat_sections(c)),
    decreases c.len(),
{
    if k < c.len() {
        assert(c.drop_last().take(k) =~= c.take(k));
        lemma_concat_prefix_mono(c.drop_last(), k);
        let a = concat_sections(c.take(k));
        let b = concat_sections(c.drop_last());
        assert(concat_sections(c) == b + c.last());
        assert(a =~= (b + c.last()).subrange(0, a.len() as int));
    } else {
        assert(c.take(k) =~= c);
        assert(concat_sections(c) =~= concat_sections(c).subrange(0, concat_sections(c).len() as int));
    }
}

} // verus!
