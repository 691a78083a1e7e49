//! Setting the module's ledger up: the decisions by which each account set
//! and omnibus account is found or created, one ledger call at a time.
use vstd::prelude::*;
use crate::authz::join_with;
use crate::accounting_config::DebitOrCredit;
use crate::ids::{uuid_text, uuid_to_string};

verus! {

/// The external reference of one of the module's sets or accounts in a
/// journal: the journal's id, `:`, the reference.
pub fn journal_reference(journal_id: u128, reference: &str) -> (r: String)
    ensures
        r@ == uuid_text(journal_id) + seq![':'] + reference@,
{
    let journal = uuid_to_string(journal_id);
    join_with(journal.as_str(), ':', reference)
}

/// What looking an account set up by its external reference found.
#[derive(Debug, Clone, Copy, PartialEq, Eq)]
pub enum AccountSetLookup {
    Found { id: u128, journal_id: u128 },
    NotFound,
    Failed,
}

/// What to do after looking an account set up.
#[derive(Debug, Clone, Copy, PartialEq, Eq)]
pub enum AccountSetLookupStep {
    UseExisting(u128),
    Create,
    JournalIdMismatch,
    Fail,
}

/// A set found in another journal is an error; one found in the journal is
/// used; one not found is created; a failed lookup fails.
pub open spec fn account_set_lookup_step(lookup: AccountSetLookup, journal_id: u128) -> AccountSetLookupStep {
    match lookup {
        AccountSetLookup::Found { id, journal_id: j } => if j != journal_id {
            AccountSetLookupStep::JournalIdMismatch
        } else {
            AccountSetLookupStep::UseExisting(id)
        },
        AccountSetLookup::NotFound => AccountSetLookupStep::Create,
        AccountSetLookup::Failed => AccountSetLookupStep::Fail,
    }
}

/// What to do after looking an account set up.
pub fn after_account_set_lookup(lookup: AccountSetLookup, journal_id: u128) -> (r: AccountSetLookupStep)
    ensures
        r == account_set_lookup_step(lookup, journal_id),
{
    match lookup {
        AccountSetLookup::Found { id, journal_id: j } => {
            if j != journal_id {
                AccountSetLookupStep::JournalIdMismatch
            } else {
                AccountSetLookupStep::UseExisting(id)
            }
        },
        AccountSetLookup::NotFound => AccountSetLookupStep::Create,
        AccountSetLookup::Failed => AccountSetLookupStep::Fail,
    }
}

/// What creating a ledger record gave.
#[derive(Debug, Clone, Copy, PartialEq, Eq)]
pub enum Creation {
    Created(u128),
    ExternalIdAlreadyExists,
    Failed,
}

/// What to do after creating a ledger record.
#[derive(Debug, Clone, Copy, PartialEq, Eq)]
pub enum CreationStep {
    Use(u128),
    FindByExternalId,
    Fail,
}

/// A created record is used; where another one took its external
/// reference meanwhile, that one is looked up and used; other failures
/// fail.
pub open spec fn creation_step(creation: Creation) -> CreationStep {
    match creation {
        Creation::Created(id) => CreationStep::Use(id),
        Creation::ExternalIdAlreadyExists => CreationStep::FindByExternalId,
        Creation::Failed => CreationStep::Fail,
    }
}

/// What to do after creating a ledger record.
pub fn after_creation(creation: Creation) -> (r: CreationStep)
    ensures
        r == creation_step(creation),
{
    match creation {
        Creation::Created(id) => CreationStep::Use(id),
        Creation::ExternalIdAlreadyExists => CreationStep::FindByExternalId,
        Creation::Failed => CreationStep::Fail,
    }
}

/// The first member of an omnibus account set, if any.
#[derive(Debug, Clone, Copy, PartialEq, Eq)]
pub enum FirstMember {
    NoMembers,
    Account(u128),
    AccountSet(u128),
}

/// What to do once an omnibus set's members are listed.
#[derive(Debug, Clone, Copy, PartialEq, Eq)]
pub enum OmnibusStep {
    UseAccount(u128),
    NonAccountMemberFound,
    CreateAccount,
}

/// An omnibus set whose first member is an account uses it; one whose first
/// member is a set is an error; an empty one gets a new account.
pub open spec fn members_step(first: FirstMember) -> OmnibusStep {
    match first {
        FirstMember::NoMembers => OmnibusStep::CreateAccount,
        FirstMember::Account(id) => OmnibusStep::UseAccount(id),
        FirstMember::AccountSet(_) => OmnibusStep::NonAccountMemberFound,
    }
}

/// What to do once an omnibus set's members are listed.
pub fn after_members_listed(first: FirstMember) -> (r: OmnibusStep)
    ensures
        r == members_step(first),
{
    match first {
        FirstMember::NoMembers => OmnibusStep::CreateAccount,
        FirstMember::Account(id) => OmnibusStep::UseAccount(id),
        FirstMember::AccountSet(_) => OmnibusStep::NonAccountMemberFound,
    }
}

/// The account sets and omnibus account sets that the module's ledger
/// setup finds or creates. The receivable sets stand for all of their
/// kind, for every term and customer type.
#[derive(Debug, Clone, Copy, PartialEq, Eq)]
pub enum LedgerSetKind {
    Facility,
    Collateral,
    CollateralInLiquidation,
    LiquidatedCollateral,
    ProceedsFromLiquidation,
    DisbursedReceivable,
    DisbursedDefaulted,
    InterestReceivable,
    InterestDefaulted,
    InterestIncome,
    FeeIncome,
    UncoveredOutstanding,
    PaymentHolding,
    CollateralOmnibus,
    InterestAddedToObligationsOmnibus,
    PaymentsMadeOmnibus,
    FacilityOmnibus,
    LiquidationProceedsOmnibus,
}

/// The normal balance side each set is created with: receivables, what
/// has defaulted and the omnibus sets other than payments made are debit
/// sets; the others are credit sets.
pub open spec fn set_normal_balance(kind: LedgerSetKind) -> DebitOrCredit {
    match kind {
        LedgerSetKind::DisbursedReceivable | LedgerSetKind::DisbursedDefaulted | LedgerSetKind::InterestReceivable
        | LedgerSetKind::InterestDefaulted | LedgerSetKind::CollateralOmnibus
        | LedgerSetKind::InterestAddedToObligationsOmnibus | LedgerSetKind::FacilityOmnibus
        | LedgerSetKind::LiquidationProceedsOmnibus => DebitOrCredit::Debit,
        _ => DebitOrCredit::Credit,
    }
}

/// The normal balance side the setup gives a set of the kind.
pub fn normal_balance_type_of(kind: LedgerSetKind) -> (r: DebitOrCredit)
    ensures
        r == set_normal_balance(kind),
{
    match kind {
        LedgerSetKind::DisbursedReceivable | LedgerSetKind::DisbursedDefaulted | LedgerSetKind::InterestReceivable
        | LedgerSetKind::InterestDefaulted | LedgerSetKind::CollateralOmnibus
        | LedgerSetKind::InterestAddedToObligationsOmnibus | LedgerSetKind::FacilityOmnibus
        | LedgerSetKind::LiquidationProceedsOmnibus => DebitOrCredit::Debit,
        _ => DebitOrCredit::Credit,
    }
}

/// What creating a transaction template gave.
#[derive(Debug, Clone, Copy, PartialEq, Eq)]
pub enum TemplateCreation {
    Created,
    DuplicateCode,
    Failed,
}

/// A template is in place once it was created or one with its code
/// already existed; other failures fail.
pub open spec fn template_in_place(outcome: TemplateCreation) -> bool {
    !(outcome is Failed)
}

/// Whether the template is in place after its creation was asked for.
pub fn after_template_creation(outcome: TemplateCreation) -> (r: bool)
    ensures
        r == template_in_place(outcome),
{
    match outcome {
        TemplateCreation::Failed => false,
        _ => true,
    }
}

/// What creating a velocity control under a chosen id gave.
#[derive(Debug, Clone, Copy, PartialEq, Eq)]
pub enum ControlCreation {
    Created(u128),
    ControlIdAlreadyExists,
    Failed,
}

/// The control to use: the created one, or, where a control with the
/// chosen id exists, that id; none where creating failed otherwise.
pub open spec fn control_step(id: u128, outcome: ControlCreation) -> Option<u128> {
    match outcome {
        ControlCreation::Created(c) => Some(c),
        ControlCreation::ControlIdAlreadyExists => Some(id),
        ControlCreation::Failed => None,
    }
}

/// The control to use after its creation under `id` was asked for.
pub fn after_control_creation(id: u128, outcome: ControlCreation) -> (r: Option<u128>)
    ensures
        r == control_step(id, outcome),
{
    match outcome {
        ControlCreation::Created(c) => Some(c),
        ControlCreation::ControlIdAlreadyExists => Some(id),
        ControlCreation::Failed => None,
    }
}

/// What adding a limit to a velocity control gave.
#[derive(Debug, Clone, Copy, PartialEq, Eq)]
pub enum LimitAddition {
    Added,
    LimitAlreadyAddedToControl,
    Failed,
}

/// The limit is on the control once it was added or was there already;
/// other failures fail.
pub open spec fn limit_in_place(outcome: LimitAddition) -> bool {
    !(outcome is Failed)
}

/// Whether the limit is on the control after adding it was asked for.
pub fn after_limit_added(outcome: LimitAddition) -> (r: bool)
    ensures
        r == limit_in_place(outcome),
{
    match outcome {
        LimitAddition::Failed => false,
        _ => true,
    }
}

/// What the setup of the module's ledger finds or creates, item by item.
pub enum SetupItem {
    /// A transaction template, by its code.
    Template { code: Seq<char> },
    /// An account set, by its external reference.
    AccountSet { reference: Seq<char> },
    /// An omnibus account: its set's reference and its own reference.
    Omnibus { set_reference: Seq<char>, account_reference: Seq<char> },
    /// A velocity control under a chosen id, with a limit on it.
    Control { control_id: u128, limit_id: u128 },
}

/// The part of a ledger that the setup reads and writes: template codes;
/// account sets by reference, with their ids and journals; the members of
/// each set, oldest first (`true` for an account); accounts by reference;
/// velocity controls; and the limits on each control.
pub struct LedgerModel {
    pub templates: Set<Seq<char>>,
    pub sets: Map<Seq<char>, (u128, u128)>,
    pub members: Map<Seq<char>, Seq<(bool, u128)>>,
    pub accounts: Map<Seq<char>, u128>,
    pub controls: Set<u128>,
    pub limits: Set<(u128, u128)>,
}

/// What looking an account set up in the ledger finds.
pub open spec fn lookup_in(sets: Map<Seq<char>, (u128, u128)>, reference: Seq<char>) -> AccountSetLookup {
    if sets.contains_key(reference) {
        AccountSetLookup::Found { id: sets[reference].0, journal_id: sets[reference].1 }
    } else {
        AccountSetLookup::NotFound
    }
}

/// The members of a set, none where the ledger has no list for it.
pub open spec fn members_of(m: LedgerModel, set_reference: Seq<char>) -> Seq<(bool, u128)> {
    if m.members.contains_key(set_reference) {
        m.members[set_reference]
    } else {
        Seq::empty()
    }
}

/// The first member of a list of members.
pub open spec fn first_member(ms: Seq<(bool, u128)>) -> FirstMember {
    if ms.len() == 0 {
        FirstMember::NoMembers
    } else if ms[0].0 {
        FirstMember::Account(ms[0].1)
    } else {
        FirstMember::AccountSet(ms[0].1)
    }
}

/// Finding or creating the account set `reference` of the journal, a new
/// one under the id `fresh`: the ledger after it and the set's id.
pub open spec fn set_step(m: LedgerModel, reference: Seq<char>, journal_id: u128, fresh: u128) -> Option<(LedgerModel, u128)> {
    match account_set_lookup_step(lookup_in(m.sets, reference), journal_id) {
        AccountSetLookupStep::UseExisting(id) => Some((m, id)),
        AccountSetLookupStep::Create => Some((LedgerModel { sets: m.sets.insert(reference, (fresh, journal_id)), ..m }, fresh)),
        _ => None,
    }
}

/// One item of the setup, with `fresh` the ids that anything it creates
/// gets: the ledger after it and what it gives (a set's id, an omnibus
/// set's and account's ids, a control's id; zero where it gives nothing).
/// Nothing where the setup fails there.
pub open spec fn item_step(m: LedgerModel, item: SetupItem, journal_id: u128, fresh: (u128, u128)) -> Option<(LedgerModel, (u128, u128))> {
    match item {
        SetupItem::Template { code } => {
            let outcome = if m.templates.contains(code) {
                TemplateCreation::DuplicateCode
            } else {
                TemplateCreation::Created
            };
            if template_in_place(outcome) {
                Some((LedgerModel { templates: m.templates.insert(code), ..m }, (0, 0)))
            } else {
                None
            }
        },
        SetupItem::AccountSet { reference } => match set_step(m, reference, journal_id, fresh.0) {
            Some((m1, id)) => Some((m1, (id, 0))),
            None => None,
        },
        SetupItem::Omnibus { set_reference, account_reference } => match set_step(m, set_reference, journal_id, fresh.0) {
            Some((m1, set_id)) => match members_step(first_member(members_of(m1, set_reference))) {
                OmnibusStep::UseAccount(a) => Some((m1, (set_id, a))),
                OmnibusStep::NonAccountMemberFound => None,
                OmnibusStep::CreateAccount => {
                    let creation = if m1.accounts.contains_key(account_reference) {
                        Creation::ExternalIdAlreadyExists
                    } else {
                        Creation::Created(fresh.1)
                    };
                    match creation_step(creation) {
                        CreationStep::Use(a) => Some(
                            (
                                LedgerModel {
                                    accounts: m1.accounts.insert(account_reference, a),
                                    members: m1.members.insert(set_reference, seq![(true, a)]),
                                    ..m1
                                },
                                (set_id, a),
                            ),
                        ),
                        CreationStep::FindByExternalId => Some((m1, (set_id, m1.accounts[account_reference]))),
                        CreationStep::Fail => None,
                    }
                },
            },
            None => None,
        },
        SetupItem::Control { control_id, limit_id } => {
            let creation = if m.controls.contains(control_id) {
                ControlCreation::ControlIdAlreadyExists
            } else {
                ControlCreation::Created(control_id)
            };
            match control_step(control_id, creation) {
                Some(c) => {
                    let addition = if m.limits.contains((c, limit_id)) {
                        LimitAddition::LimitAlreadyAddedToControl
                    } else {
                        LimitAddition::Added
                    };
                    if limit_in_place(addition) {
                        Some(
                            (
                                LedgerModel { controls: m.controls.insert(c), limits: m.limits.insert((c, limit_id)), ..m },
                                (c, 0),
                            ),
                        )
                    } else {
                        None
                    }
                },
                None => None,
            }
        },
    }
}

/// A run of the setup over `items` in the journal, each item creating what
/// it creates under its ids of `fresh`: the ledger afterwards and what each
/// item gave; nothing where an item fails.
pub open spec fn setup_run(
    m: LedgerModel,
    items: Seq<SetupItem>,
    journal_id: u128,
    fresh: Seq<(u128, u128)>,
) -> Option<(LedgerModel, Seq<(u128, u128)>)>
    decreases items.len(),
{
    if items.len() == 0 {
        Some((m, Seq::empty()))
    } else {
        match setup_run(m, items.drop_last(), journal_id, fresh.drop_last()) {
            None => None,
            Some((before, given)) => match item_step(before, items.last(), journal_id, fresh.last()) {
                Some((after, r)) => Some((after, given.push(r))),
                None => None,
            },
        }
    }
}

/// No two omnibus items of the setup share an account set.
pub open spec fn omnibus_sets_distinct(items: Seq<SetupItem>) -> bool {
    forall|a: int, b: int|
        0 <= a < items.len() && 0 <= b < items.len() && a != b && (#[trigger] items[a]) is Omnibus && (
        #[trigger] items[b]) is Omnibus ==> items[a]->Omnibus_set_reference != items[b]->Omnibus_set_reference
}

/// The ledger holds what the item found or created, as the item gave it.
pub open spec fn item_in_place(m: LedgerModel, item: SetupItem, r: (u128, u128), journal_id: u128) -> bool {
    match item {
        SetupItem::Template { code } => r == (0u128, 0u128) && m.templates.contains(code),
        SetupItem::AccountSet { reference } => r.1 == 0 && m.sets.contains_key(reference) && m.sets[reference] == (
            r.0,
            journal_id,
        ),
        SetupItem::Omnibus { set_reference, account_reference } => {
            &&& m.sets.contains_key(set_reference)
            &&& m.sets[set_reference] == (r.0, journal_id)
            &&& {
                ||| members_of(m, set_reference).len() > 0 && members_of(m, set_reference)[0] == (true, r.1)
                ||| members_of(m, set_reference).len() == 0 && m.accounts.contains_key(account_reference)
                    && m.accounts[account_reference] == r.1
            }
        },
        SetupItem::Control { control_id, limit_id } => r == (control_id, 0u128) && m.controls.contains(control_id)
            && m.limits.contains((control_id, limit_id)),
    }
}

/// An item adds to the ledger without changing what was there, except the
/// members of an omnibus item's own set, which it fills only when empty;
/// and the ledger then holds what the item gave.
proof fn lemma_item_step(m: LedgerModel, item: SetupItem, journal_id: u128, fresh: (u128, u128))
    requires
        item_step(m, item, journal_id, fresh) is Some,
    ensures
        ({
            let (m2, r) = item_step(m, item, journal_id, fresh)->0;
            &&& m.templates.subset_of(m2.templates)
            &&& m.controls.subset_of(m2.controls)
            &&& m.limits.subset_of(m2.limits)
            &&& forall|k: Seq<char>| m.sets.contains_key(k) ==> m2.sets.contains_key(k) && m2.sets[k] == m.sets[k]
            &&& forall|k: Seq<char>| m.accounts.contains_key(k) ==> m2.accounts.contains_key(k) && m2.accounts[k] == m.accounts[k]
            &&& forall|k: Seq<char>|
                !(item matches SetupItem::Omnibus { set_reference, .. } && set_reference == k) ==> #[trigger] members_of(m2, k)
                    == members_of(m, k)
            &&& item_in_place(m2, item, r, journal_id)
        }),
{
    let (m2, r) = item_step(m, item, journal_id, fresh)->0;
    match item {
        SetupItem::Template { code } => {},
        SetupItem::AccountSet { reference } => {},
        SetupItem::Omnibus { set_reference, account_reference } => {
            let (m1, set_id) = set_step(m, set_reference, journal_id, fresh.0)->0;
            assert forall|k: Seq<char>| !(k == set_reference) implies #[trigger] members_of(m2, k) == members_of(m, k) by {
                assert(members_of(m1, k) == members_of(m, k));
            }
            if m1.members.insert(set_reference, seq![(true, r.1)]) == m2.members {
                assert(members_of(m2, set_reference) == seq![(true, r.1)]);
            }
        },
        SetupItem::Control { control_id, limit_id } => {},
    }
}

/// A run keeps in the ledger what each of its items found or created.
proof fn lemma_run_in_place(m: LedgerModel, items: Seq<SetupItem>, journal_id: u128, fresh: Seq<(u128, u128)>)
    requires
        fresh.len() == items.len(),
        omnibus_sets_distinct(items),
        setup_run(m, items, journal_id, fresh) is Some,
    ensures
        (setup_run(m, items, journal_id, fresh)->0).1.len() == items.len(),
        forall|k: int|
            0 <= k < items.len() ==> item_in_place(
                (setup_run(m, items, journal_id, fresh)->0).0,
                #[trigger] items[k],
                (setup_run(m, items, journal_id, fresh)->0).1[k],
                journal_id,
            ),
    decreases items.len(),
{
    if items.len() > 0 {
        let rest = items.drop_last();
        let fr = fresh.drop_last();
        assert(omnibus_sets_distinct(rest)) by {
            assert forall|a: int, b: int|
                0 <= a < rest.len() && 0 <= b < rest.len() && a != b && (#[trigger] rest[a]) is Omnibus && (
                #[trigger] rest[b]) is Omnibus implies rest[a]->Omnibus_set_reference != rest[b]->Omnibus_set_reference by {
                assert(rest[a] == items[a] && rest[b] == items[b]);
            }
        }
        lemma_run_in_place(m, rest, journal_id, fr);
        let prev = setup_run(m, rest, journal_id, fr)->0;
        let before = prev.0;
        let given = prev.1;
        let item = items.last();
        lemma_item_step(before, item, journal_id, fresh.last());
        let cur = setup_run(m, items, journal_id, fresh)->0;
        let after = cur.0;
        let all = cur.1;
        assert forall|k: int| 0 <= k < items.len() implies item_in_place(after, #[trigger] items[k], all[k], journal_id) by {
            if k < items.len() - 1 {
                assert(items[k] == rest[k]);
                assert(all[k] == given[k]);
                assert(item_in_place(before, rest[k], given[k], journal_id));
                match items[k] {
                    SetupItem::Template { code } => {
                        assert(before.templates.contains(code));
                    },
                    SetupItem::AccountSet { reference } => {
                        assert(before.sets.contains_key(reference));
                    },
                    SetupItem::Omnibus { set_reference, account_reference } => {
                        assert(before.sets.contains_key(set_reference));
                        if item is Omnibus {
                            assert(items[items.len() - 1] is Omnibus);
                            assert(items[k]->Omnibus_set_reference != items[items.len() - 1]->Omnibus_set_reference);
                        }
                        assert(members_of(after, set_reference) == members_of(before, set_reference));
                        if members_of(before, set_reference).len() == 0 {
                            assert(before.accounts.contains_key(account_reference));
                        }
                    },
                    SetupItem::Control { control_id, limit_id } => {
                        assert(before.controls.contains(control_id));
                        assert(before.limits.contains((control_id, limit_id)));
                    },
                }
            }
        }
    }
}

/// An item whose result the ledger holds already is found again: the item
/// changes nothing and gives the same.
proof fn lemma_item_found(m: LedgerModel, item: SetupItem, r: (u128, u128), journal_id: u128, fresh: (u128, u128))
    requires
        item_in_place(m, item, r, journal_id),
    ensures
        item_step(m, item, journal_id, fresh) == Some((m, r)),
{
    match item {
        SetupItem::Template { code } => {
            assert(m.templates.insert(code) =~= m.templates);
            assert(LedgerModel { templates: m.templates.insert(code), ..m } == m);
        },
        SetupItem::AccountSet { reference } => {},
        SetupItem::Omnibus { set_reference, account_reference } => {},
        SetupItem::Control { control_id, limit_id } => {
            assert(m.controls.insert(control_id) =~= m.controls);
            assert(m.limits.insert((control_id, limit_id)) =~= m.limits);
            assert(LedgerModel { controls: m.controls.insert(control_id), limits: m.limits.insert((control_id, limit_id)), ..m } == m);
        },
    }
}

proof fn lemma_rerun_prefix(
    m: LedgerModel,
    given: Seq<(u128, u128)>,
    items: Seq<SetupItem>,
    journal_id: u128,
    fresh: Seq<(u128, u128)>,
    k: int,
)
    requires
        0 <= k <= items.len(),
        given.len() == items.len(),
        fresh.len() == items.len(),
        forall|n: int| 0 <= n < items.len() ==> item_in_place(m, #[trigger] items[n], given[n], journal_id),
    ensures
        setup_run(m, items.take(k), journal_id, fresh.take(k)) == Some((m, given.take(k))),
    decreases k,
{
    if k == 0 {
        assert(given.take(0) =~= Seq::<(u128, u128)>::empty());
    } else {
        lemma_rerun_prefix(m, given, items, journal_id, fresh, k - 1);
        assert(items.take(k).drop_last() =~= items.take(k - 1));
        assert(fresh.take(k).drop_last() =~= fresh.take(k - 1));
        assert(items.take(k).last() == items[k - 1]);
        assert(fresh.take(k).last() == fresh[k - 1]);
        lemma_item_found(m, items[k - 1], given[k - 1], journal_id, fresh[k - 1]);
        assert(given.take(k - 1).push(given[k - 1]) =~= given.take(k));
    }
}

/// A second run of the setup over the same items creates nothing: every
/// template, account set, omnibus account and velocity control (with its
/// limit) is found where the first run left it, the ledger stays as it was,
/// and each item gives what it gave the first time. The omnibus items are
/// for distinct account sets, as the module's are.
pub proof fn law_second_setup_creates_nothing(
    m: LedgerModel,
    items: Seq<SetupItem>,
    journal_id: u128,
    first_fresh: Seq<(u128, u128)>,
    second_fresh: Seq<(u128, u128)>,
)
    requires
        first_fresh.len() == items.len(),
        second_fresh.len() == items.len(),
        omnibus_sets_distinct(items),
        setup_run(m, items, journal_id, first_fresh) is Some,
    ensures
        setup_run((setup_run(m, items, journal_id, first_fresh)->0).0, items, journal_id, second_fresh)
            == setup_run(m, items, journal_id, first_fresh),
{
    lemma_run_in_place(m, items, journal_id, first_fresh);
    let after = (setup_run(m, items, journal_id, first_fresh)->0).0;
    let given = (setup_run(m, items, journal_id, first_fresh)->0).1;
    lemma_rerun_prefix(after, given, items, journal_id, second_fresh, items.len() as int);
    assert(items.take(items.len() as int) =~= items);
    assert(second_fresh.take(items.len() as int) =~= second_fresh);
    assert(given.take(items.len() as int) =~= given);
}

} // verus!
