//! The table of accounts and the table of settings, with the rules that
//! every store of them keeps.

use crate::ipc::protocol::optional_account;
use crate::ipc::protocol::pairs_view;
use crate::ipc::protocol::Effect;
use crate::ipc::protocol::EffectModel;
use crate::ipc::protocol::Outcome;
use crate::ipc::protocol::OutcomeModel;
use crate::models::account::accounts_view;
use crate::models::account::StoredAccount;
use crate::models::account::StoredAccountModel;
use crate::models::ipc_message::optional_text;
use crate::text::same_text;
use vstd::prelude::*;

verus! {

/// The position of the first account of `accounts` with the identifier
/// `id`, from position `from` on.
pub open spec fn index_of(accounts: Seq<StoredAccountModel>, id: Seq<char>, from: int) -> Option<
    int,
>
    decreases accounts.len() - from,
{
    if from < 0 || from >= accounts.len() {
        None
    } else if accounts[from].id == id {
        Some(from)
    } else {
        index_of(accounts, id, from + 1)
    }
}

/// The position of the first default account of `accounts`, from position
/// `from` on.
pub open spec fn first_default(accounts: Seq<StoredAccountModel>, from: int) -> Option<int>
    decreases accounts.len() - from,
{
    if from < 0 || from >= accounts.len() {
        None
    } else if accounts[from].is_default {
        Some(from)
    } else {
        first_default(accounts, from + 1)
    }
}

/// The position of the account of `accounts` that was used last; of several
/// such, the first. Zero for no accounts at all.
pub open spec fn latest(accounts: Seq<StoredAccountModel>) -> int
    decreases accounts.len(),
{
    if accounts.len() <= 1 {
        0
    } else {
        let before = latest(accounts.drop_last());
        if accounts.last().last_used_at > accounts[before].last_used_at {
            accounts.len() - 1
        } else {
            before
        }
    }
}

/// `sorted` with `account` put before the first account that was used
/// earlier than it.
pub open spec fn insert_by_recency(sorted: Seq<StoredAccountModel>, account: StoredAccountModel)
    -> Seq<StoredAccountModel>
    decreases sorted.len(),
{
    if sorted.len() == 0 || account.last_used_at > sorted[0].last_used_at {
        seq![account] + sorted
    } else {
        seq![sorted[0]] + insert_by_recency(sorted.drop_first(), account)
    }
}

/// The accounts of `accounts`, the one used last first.
pub open spec fn by_recency(accounts: Seq<StoredAccountModel>) -> Seq<StoredAccountModel>
    decreases accounts.len(),
{
    if accounts.len() == 0 {
        Seq::empty()
    } else {
        insert_by_recency(by_recency(accounts.drop_last()), accounts.last())
    }
}

/// Whether no account of `accounts` was used later than one before it.
pub open spec fn is_by_recency(accounts: Seq<StoredAccountModel>) -> bool {
    forall|i: int, j: int|
        0 <= i < j < accounts.len() ==> accounts[i].last_used_at >= accounts[j].last_used_at
}

/// The position of the first setting of `settings` with the key `key`, from
/// position `from` on.
pub open spec fn key_index(settings: Seq<(Seq<char>, Seq<char>)>, key: Seq<char>, from: int)
    -> Option<int>
    decreases settings.len() - from,
{
    if from < 0 || from >= settings.len() {
        None
    } else if settings[from].0 == key {
        Some(from)
    } else {
        key_index(settings, key, from + 1)
    }
}

/// What a store holds: the accounts, and the settings as pairs of key and
/// value.
pub ghost struct CacheModel {
    pub accounts: Seq<StoredAccountModel>,
    pub settings: Seq<(Seq<char>, Seq<char>)>,
}

impl CacheModel {
    /// The store that holds nothing.
    pub open spec fn empty() -> CacheModel {
        CacheModel { accounts: Seq::empty(), settings: Seq::empty() }
    }

    /// Whether no two accounts share an identifier and no two settings a
    /// key.
    pub open spec fn wf(self) -> bool {
        &&& forall|i: int, j: int|
            0 <= i < j < self.accounts.len() ==> self.accounts[i].id != self.accounts[j].id
        &&& forall|i: int, j: int|
            0 <= i < j < self.settings.len() ==> self.settings[i].0 != self.settings[j].0
    }

    /// Whether at most one account is the default.
    pub open spec fn single_default(self) -> bool {
        forall|i: int, j: int|
            0 <= i < self.accounts.len() && 0 <= j < self.accounts.len()
                && self.accounts[i].is_default && self.accounts[j].is_default ==> i == j
    }

    /// The store after `account` is written: in place of the account with
    /// its identifier, or as a new one.
    pub open spec fn save_account(self, account: StoredAccountModel) -> CacheModel {
        match index_of(self.accounts, account.id, 0) {
            Some(i) => CacheModel { accounts: self.accounts.update(i, account), ..self },
            None => CacheModel { accounts: self.accounts.push(account), ..self },
        }
    }

    /// The account with the identifier `id`.
    pub open spec fn get_account(self, id: Seq<char>) -> Option<StoredAccountModel> {
        match index_of(self.accounts, id, 0) {
            Some(i) => Some(self.accounts[i]),
            None => None,
        }
    }

    /// The accounts, the one used last first.
    pub open spec fn get_accounts(self) -> Seq<StoredAccountModel> {
        by_recency(self.accounts)
    }

    /// The account that a new run signs in with: the default one, or else
    /// the one used last.
    pub open spec fn get_default_account(self) -> Option<StoredAccountModel> {
        if self.accounts.len() == 0 {
            None
        } else {
            match first_default(self.accounts, 0) {
                Some(i) => Some(self.accounts[i]),
                None => Some(self.accounts[latest(self.accounts)]),
            }
        }
    }

    /// The store without the account with the identifier `id`.
    pub open spec fn delete_account(self, id: Seq<char>) -> CacheModel {
        match index_of(self.accounts, id, 0) {
            Some(i) => CacheModel { accounts: self.accounts.remove(i), ..self },
            None => self,
        }
    }

    /// The store after the account with the identifier `id` is made the
    /// default at the time `now`: no other account is the default any more,
    /// and the account counts as used at that time.
    pub open spec fn set_default_account(self, id: Seq<char>, now: i64) -> CacheModel {
        CacheModel {
            accounts: Seq::new(
                self.accounts.len(),
                |i: int|
                    if self.accounts[i].id == id {
                        StoredAccountModel {
                            is_default: true,
                            last_used_at: now,
                            ..self.accounts[i]
                        }
                    } else {
                        StoredAccountModel { is_default: false, ..self.accounts[i] }
                    },
            ),
            ..self
        }
    }

    /// The value of the setting `key`.
    pub open spec fn get_setting(self, key: Seq<char>) -> Option<Seq<char>> {
        match key_index(self.settings, key, 0) {
            Some(i) => Some(self.settings[i].1),
            None => None,
        }
    }

    /// The store after the setting `key` is given the value `value`.
    pub open spec fn set_setting(self, key: Seq<char>, value: Seq<char>) -> CacheModel {
        match key_index(self.settings, key, 0) {
            Some(i) => CacheModel { settings: self.settings.update(i, (key, value)), ..self },
            None => CacheModel { settings: self.settings.push((key, value)), ..self },
        }
    }

    /// The store without the setting `key`.
    pub open spec fn delete_setting(self, key: Seq<char>) -> CacheModel {
        match key_index(self.settings, key, 0) {
            Some(i) => CacheModel { settings: self.settings.remove(i), ..self },
            None => self,
        }
    }

    /// How the store answers an effect at the time `now`: the store after
    /// it and the outcome. `None` for an effect that is not the store's.
    pub open spec fn perform(self, effect: EffectModel, now: i64) -> Option<
        (CacheModel, OutcomeModel),
    > {
        match effect {
            EffectModel::LoadDefaultAccount => Some(
                (self, OutcomeModel::Account(self.get_default_account())),
            ),
            EffectModel::LoadAccount { account_id } => Some(
                (self, OutcomeModel::Account(self.get_account(account_id))),
            ),
            EffectModel::ListAccounts => Some((self, OutcomeModel::Accounts(self.get_accounts()))),
            EffectModel::SaveAccount { account } => Some(
                (self.save_account(account), OutcomeModel::Done),
            ),
            EffectModel::DeleteAccount { account_id } => Some(
                (self.delete_account(account_id), OutcomeModel::Done),
            ),
            EffectModel::SetDefaultAccount { account_id } => Some(
                (self.set_default_account(account_id, now), OutcomeModel::Done),
            ),
            EffectModel::GetSetting { key } => Some(
                (self, OutcomeModel::Setting(self.get_setting(key))),
            ),
            EffectModel::SetSetting { key, value } => Some(
                (self.set_setting(key, value), OutcomeModel::Done),
            ),
            EffectModel::ListSettings => Some((self, OutcomeModel::Settings(self.settings))),
            _ => None,
        }
    }
}

/// Where `index_of` finds an account, it is the first with the identifier;
/// where it finds none, there is none.
pub proof fn lemma_index_of(accounts: Seq<StoredAccountModel>, id: Seq<char>, from: int)
    requires
        0 <= from,
    ensures
        match index_of(accounts, id, from) {
            Some(i) => from <= i < accounts.len() && accounts[i].id == id && forall|k: int|
                from <= k < i ==> accounts[k].id != id,
            None => forall|k: int| from <= k < accounts.len() ==> accounts[k].id != id,
        },
    decreases accounts.len() - from,
{
    if from < accounts.len() && accounts[from].id != id {
        lemma_index_of(accounts, id, from + 1);
    }
}

/// Where `first_default` finds an account, it is the first default one;
/// where it finds none, there is none.
pub proof fn lemma_first_default(accounts: Seq<StoredAccountModel>, from: int)
    requires
        0 <= from,
    ensures
        match first_default(accounts, from) {
            Some(i) => from <= i < accounts.len() && accounts[i].is_default && forall|k: int|
                from <= k < i ==> !accounts[k].is_default,
            None => forall|k: int| from <= k < accounts.len() ==> !accounts[k].is_default,
        },
    decreases accounts.len() - from,
{
    if from < accounts.len() && !accounts[from].is_default {
        lemma_first_default(accounts, from + 1);
    }
}

/// The account at `latest` was used no earlier than any other, and later
/// than every account before it.
pub proof fn lemma_latest(accounts: Seq<StoredAccountModel>)
    requires
        accounts.len() > 0,
    ensures
        0 <= latest(accounts) < accounts.len(),
        forall|k: int|
            0 <= k < accounts.len() ==> (#[trigger] accounts[k]).last_used_at
                <= accounts[latest(accounts)].last_used_at,
        forall|k: int|
            0 <= k < latest(accounts) ==> (#[trigger] accounts[k]).last_used_at
                < accounts[latest(accounts)].last_used_at,
    decreases accounts.len(),
{
    if accounts.len() > 1 {
        let before = accounts.drop_last();
        lemma_latest(before);
        assert forall|k: int| 0 <= k < accounts.len() implies (#[trigger] accounts[k]).last_used_at
            <= accounts[latest(accounts)].last_used_at by {
            if k < before.len() {
                assert(before[k] == accounts[k]);
            }
        }
        assert forall|k: int| 0 <= k < latest(accounts) implies (#[trigger] accounts[k]).last_used_at
            < accounts[latest(accounts)].last_used_at by {
            assert(before[k] == accounts[k]);
        }
    }
}

/// The account that a new run signs in with is one of the accounts: a default
/// one where there is any, and else one that was used no earlier than any
/// other. A store without accounts has none.
pub proof fn lemma_default_account(store: CacheModel)
    ensures
        store.accounts.len() == 0 <==> store.get_default_account() is None,
        store.get_default_account() matches Some(chosen) ==> {
            &&& exists|i: int| 0 <= i < store.accounts.len() && store.accounts[i] == chosen
            &&& chosen.is_default || forall|k: int|
                0 <= k < store.accounts.len() ==> !(#[trigger] store.accounts[k]).is_default
                    && store.accounts[k].last_used_at <= chosen.last_used_at
        },
{
    if store.accounts.len() > 0 {
        lemma_first_default(store.accounts, 0);
        lemma_latest(store.accounts);
        match first_default(store.accounts, 0) {
            Some(i) => {
                assert(store.accounts[i] == store.get_default_account()->0);
            },
            None => {
                assert(store.accounts[latest(store.accounts)] == store.get_default_account()->0);
            },
        }
    }
}

/// Where `key_index` finds a setting, it is the first with the key; where
/// it finds none, there is none.
pub proof fn lemma_key_index(settings: Seq<(Seq<char>, Seq<char>)>, key: Seq<char>, from: int)
    requires
        0 <= from,
    ensures
        match key_index(settings, key, from) {
            Some(i) => from <= i < settings.len() && settings[i].0 == key && forall|k: int|
                from <= k < i ==> settings[k].0 != key,
            None => forall|k: int| from <= k < settings.len() ==> settings[k].0 != key,
        },
    decreases settings.len() - from,
{
    if from < settings.len() && settings[from].0 != key {
        lemma_key_index(settings, key, from + 1);
    }
}

/// Putting an account into a list that is ordered by recency is inserting
/// it at one position; the list stays ordered and gains that account alone.
pub proof fn lemma_insert_by_recency(sorted: Seq<StoredAccountModel>, account: StoredAccountModel)
    requires
        is_by_recency(sorted),
    ensures
        is_by_recency(insert_by_recency(sorted, account)),
        insert_by_recency(sorted, account).len() == sorted.len() + 1,
        insert_by_recency(sorted, account).to_multiset() == sorted.to_multiset().insert(account),
    decreases sorted.len(),
{
    broadcast use vstd::seq_lib::group_to_multiset_ensures;

    if sorted.len() == 0 || account.last_used_at > sorted[0].last_used_at {
        assert(seq![account] + sorted =~= sorted.insert(0, account));
    } else {
        let rest = sorted.drop_first();
        lemma_insert_by_recency(rest, account);
        let tail = insert_by_recency(rest, account);
        let out = seq![sorted[0]] + tail;
        assert(out =~= tail.insert(0, sorted[0]));
        assert(sorted =~= rest.insert(0, sorted[0]));
        assert(out.to_multiset() =~= sorted.to_multiset().insert(account));
        assert forall|i: int, j: int| 0 <= i < j < out.len() implies out[i].last_used_at
            >= out[j].last_used_at by {
            if i == 0 {
                assert(tail.to_multiset().count(out[j]) > 0) by {
                    assert(tail[j - 1] == out[j]);
                }
                if out[j] != account {
                    assert(rest.to_multiset().count(out[j]) > 0);
                    let k = choose|k: int| 0 <= k < rest.len() && rest[k] == out[j];
                    assert(sorted[k + 1] == out[j]);
                }
            } else {
                assert(out[i] == tail[i - 1] && out[j] == tail[j - 1]);
            }
        }
    }
}

/// The accounts by recency are the same accounts, each as often as before,
/// and none of them was used later than one before it.
pub proof fn lemma_by_recency(accounts: Seq<StoredAccountModel>)
    ensures
        is_by_recency(by_recency(accounts)),
        by_recency(accounts).len() == accounts.len(),
        by_recency(accounts).to_multiset() == accounts.to_multiset(),
    decreases accounts.len(),
{
    broadcast use vstd::seq_lib::group_to_multiset_ensures;

    if accounts.len() > 0 {
        lemma_by_recency(accounts.drop_last());
        lemma_insert_by_recency(by_recency(accounts.drop_last()), accounts.last());
        assert(accounts =~= accounts.drop_last().push(accounts.last()));
    } else {
        assert(accounts =~= Seq::empty());
    }
}

/// Making an account the default leaves at most one default account, in
/// whatever state the store was before.
pub proof fn lemma_set_default_is_single(store: CacheModel, id: Seq<char>, now: i64)
    requires
        store.wf(),
    ensures
        store.set_default_account(id, now).wf(),
        store.set_default_account(id, now).single_default(),
{
}

/// Deleting an account never makes a second default.
pub proof fn lemma_delete_keeps_single(store: CacheModel, id: Seq<char>)
    requires
        store.wf(),
        store.single_default(),
    ensures
        store.delete_account(id).wf(),
        store.delete_account(id).single_default(),
{
    lemma_index_of(store.accounts, id, 0);
}

/// Deleting an account keeps identifiers apart.
pub proof fn lemma_delete_keeps_wf(store: CacheModel, id: Seq<char>)
    requires
        store.wf(),
    ensures
        store.delete_account(id).wf(),
{
    lemma_index_of(store.accounts, id, 0);
}

/// Writing an account keeps identifiers apart.
pub proof fn lemma_save_keeps_wf(store: CacheModel, account: StoredAccountModel)
    requires
        store.wf(),
    ensures
        store.save_account(account).wf(),
{
    lemma_index_of(store.accounts, account.id, 0);
}

/// Writing an account that is no default never makes a second default.
pub proof fn lemma_save_keeps_single(store: CacheModel, account: StoredAccountModel)
    requires
        store.wf(),
        store.single_default(),
        !account.is_default,
    ensures
        store.save_account(account).wf(),
        store.save_account(account).single_default(),
{
    lemma_index_of(store.accounts, account.id, 0);
    let after = store.save_account(account);
    assert forall|i: int, j: int|
        0 <= i < after.accounts.len() && 0 <= j < after.accounts.len()
            && after.accounts[i].is_default && after.accounts[j].is_default implies i == j by {
        assert(after.accounts[i] == store.accounts[i]);
        assert(after.accounts[j] == store.accounts[j]);
    }
}

impl EffectModel {
    /// Whether the effect writes an account as the default at once, without
    /// taking the mark from the other accounts first.
    pub open spec fn writes_a_default(self) -> bool {
        self matches EffectModel::SaveAccount { account } && account.is_default
    }
}

/// An effect with the time at which the store performs it.
pub ghost struct TimedEffect {
    pub effect: EffectModel,
    pub now: i64,
}

impl CacheModel {
    /// The store after the effects `effects`, one after the other; an effect
    /// that is not the store's leaves it as it is.
    pub open spec fn after_all(self, effects: Seq<TimedEffect>) -> CacheModel
        decreases effects.len(),
    {
        if effects.len() == 0 {
            self
        } else {
            let before = self.after_all(effects.drop_last());
            match before.perform(effects.last().effect, effects.last().now) {
                Some(done) => done.0,
                None => before,
            }
        }
    }
}

/// No effect but the writing of a default account makes a second default.
pub proof fn lemma_effect_keeps_single(store: CacheModel, effect: EffectModel, now: i64)
    requires
        store.wf(),
        store.single_default(),
        !effect.writes_a_default(),
    ensures
        store.perform(effect, now) matches Some(done) ==> done.0.wf() && done.0.single_default(),
{
    match effect {
        EffectModel::SaveAccount { account } => {
            lemma_save_keeps_single(store, account);
        },
        EffectModel::DeleteAccount { account_id } => {
            lemma_delete_keeps_single(store, account_id);
        },
        EffectModel::SetDefaultAccount { account_id } => {
            lemma_set_default_is_single(store, account_id, now);
        },
        EffectModel::SetSetting { key, value } => {
            lemma_set_setting(store, key, value);
        },
        _ => {},
    }
}

/// After any sequence of effects none of which writes a default account at
/// once, at most one account is the default: whichever effects the store
/// was asked for, in whatever order, and whichever of them were left out
/// because they failed.
pub proof fn lemma_single_default_always(store: CacheModel, effects: Seq<TimedEffect>)
    requires
        store.wf(),
        store.single_default(),
        forall|i: int| 0 <= i < effects.len() ==> !(#[trigger] effects[i]).effect.writes_a_default(),
    ensures
        store.after_all(effects).wf(),
        store.after_all(effects).single_default(),
    decreases effects.len(),
{
    if effects.len() > 0 {
        let earlier = effects.drop_last();
        assert forall|i: int| 0 <= i < earlier.len() implies !(#[trigger] earlier[i])
            .effect.writes_a_default() by {
            assert(earlier[i] == effects[i]);
        }
        lemma_single_default_always(store, earlier);
        lemma_effect_keeps_single(store.after_all(earlier), effects.last().effect, effects.last().now);
    }
}

/// The first account with the identifier `id` is the one that `index_of`
/// finds.
pub proof fn lemma_index_of_is(accounts: Seq<StoredAccountModel>, id: Seq<char>, at: int)
    requires
        0 <= at < accounts.len(),
        accounts[at].id == id,
        forall|k: int| 0 <= k < at ==> (#[trigger] accounts[k]).id != id,
    ensures
        index_of(accounts, id, 0) == Some(at),
{
    lemma_index_of(accounts, id, 0);
    match index_of(accounts, id, 0) {
        Some(found) => {
            if found < at {
                assert(accounts[found].id != id);
            }
        },
        None => {
            assert(accounts[at].id != id);
        },
    }
}

/// An account that is written is the account that is read under its
/// identifier.
pub proof fn lemma_save_then_get(store: CacheModel, account: StoredAccountModel)
    requires
        store.wf(),
    ensures
        store.save_account(account).wf(),
        store.save_account(account).get_account(account.id) == Some(account),
{
    lemma_index_of(store.accounts, account.id, 0);
    let after = store.save_account(account);
    match index_of(store.accounts, account.id, 0) {
        Some(i) => {
            lemma_index_of_is(after.accounts, account.id, i);
        },
        None => {
            lemma_index_of_is(after.accounts, account.id, store.accounts.len() as int);
        },
    }
}

/// Making the account `id` the default at the time `now` marks that account
/// and no other: where the store has the account, it is read as the default
/// that was used at `now`, and every default account has that identifier.
pub proof fn lemma_set_default_marks(store: CacheModel, id: Seq<char>, now: i64)
    requires
        store.wf(),
    ensures
        store.set_default_account(id, now).wf(),
        store.set_default_account(id, now).single_default(),
        forall|i: int|
            0 <= i < store.set_default_account(id, now).accounts.len() ==> (
            #[trigger] store.set_default_account(id, now).accounts[i]).is_default == (
            store.set_default_account(id, now).accounts[i].id == id),
        store.get_account(id) matches Some(before) ==> store.set_default_account(
            id,
            now,
        ).get_account(id) == Some(
            StoredAccountModel { is_default: true, last_used_at: now, ..before },
        ),
        store.get_account(id) is None ==> store.set_default_account(id, now).get_account(id)
            is None,
{
    lemma_index_of(store.accounts, id, 0);
    let after = store.set_default_account(id, now);
    match index_of(store.accounts, id, 0) {
        Some(i) => {
            assert(after.accounts[i].id == id);
            assert forall|k: int| 0 <= k < i implies (#[trigger] after.accounts[k]).id != id by {
                assert(store.accounts[k].id != id);
            }
            lemma_index_of_is(after.accounts, id, i);
        },
        None => {
            lemma_index_of(after.accounts, id, 0);
            match index_of(after.accounts, id, 0) {
                Some(j) => {
                    assert(store.accounts[j].id != id);
                },
                None => {},
            }
        },
    }
}

/// A completed sign-in, which writes the account as no default and then
/// makes it the default, leaves that account as the one default: whatever
/// account was the default before is none any more.
pub proof fn lemma_sign_in_makes_the_only_default(
    store: CacheModel,
    account: StoredAccountModel,
    now: i64,
)
    requires
        store.wf(),
    ensures
        ({
            let after = store.save_account(account).set_default_account(account.id, now);
            &&& after.wf()
            &&& after.single_default()
            &&& after.get_account(account.id) == Some(
                StoredAccountModel { is_default: true, last_used_at: now, ..account },
            )
            &&& forall|i: int|
                0 <= i < after.accounts.len() && (#[trigger] after.accounts[i]).is_default
                    ==> after.accounts[i].id == account.id
        }),
{
    lemma_save_then_get(store, account);
    lemma_set_default_marks(store.save_account(account), account.id, now);
}

/// Deleting an account removes that account and no other: it is read no
/// more, and every other account is read as before.
pub proof fn lemma_delete_removes_the_account(store: CacheModel, id: Seq<char>, other: Seq<char>)
    requires
        store.wf(),
        other != id,
    ensures
        store.delete_account(id).wf(),
        store.delete_account(id).get_account(id) is None,
        store.delete_account(id).get_account(other) == store.get_account(other),
{
    lemma_index_of(store.accounts, id, 0);
    lemma_index_of(store.accounts, other, 0);
    let after = store.delete_account(id);
    lemma_index_of(after.accounts, id, 0);
    lemma_index_of(after.accounts, other, 0);
    match index_of(store.accounts, id, 0) {
        Some(i) => {
            assert forall|k: int| 0 <= k < after.accounts.len() implies (
            #[trigger] after.accounts[k]).id != id by {
                if k < i {
                    assert(after.accounts[k] == store.accounts[k]);
                } else {
                    assert(after.accounts[k] == store.accounts[k + 1]);
                }
            }
            match index_of(after.accounts, id, 0) {
                Some(found) => {
                    assert(after.accounts[found].id != id);
                },
                None => {},
            }
            match index_of(store.accounts, other, 0) {
                Some(j) => {
                    let moved = if j < i {
                        j
                    } else {
                        j - 1
                    };
                    assert(after.accounts[moved] == store.accounts[j]);
                    assert forall|k: int| 0 <= k < moved implies (#[trigger] after.accounts[k]).id
                        != other by {
                        if k < i {
                            assert(after.accounts[k] == store.accounts[k]);
                        } else {
                            assert(after.accounts[k] == store.accounts[k + 1]);
                        }
                    }
                    lemma_index_of_is(after.accounts, other, moved);
                },
                None => {
                    match index_of(after.accounts, other, 0) {
                        Some(found) => {
                            if found < i {
                                assert(after.accounts[found] == store.accounts[found]);
                            } else {
                                assert(after.accounts[found] == store.accounts[found + 1]);
                            }
                        },
                        None => {},
                    }
                },
            }
        },
        None => {},
    }
}

/// The first setting with the key `key` is the one that `key_index` finds.
pub proof fn lemma_key_index_is(settings: Seq<(Seq<char>, Seq<char>)>, key: Seq<char>, at: int)
    requires
        0 <= at < settings.len(),
        settings[at].0 == key,
        forall|k: int| 0 <= k < at ==> (#[trigger] settings[k]).0 != key,
    ensures
        key_index(settings, key, 0) == Some(at),
{
    lemma_key_index(settings, key, 0);
    match key_index(settings, key, 0) {
        Some(found) => {
            if found < at {
                assert(settings[found].0 != key);
            }
        },
        None => {
            assert(settings[at].0 != key);
        },
    }
}

/// The setting `key` has the value `value` once it is written, and the
/// store still keeps keys apart.
pub proof fn lemma_set_setting(store: CacheModel, key: Seq<char>, value: Seq<char>)
    requires
        store.wf(),
    ensures
        store.set_setting(key, value).wf(),
        store.set_setting(key, value).get_setting(key) == Some(value),
{
    lemma_key_index(store.settings, key, 0);
    let after = store.set_setting(key, value);
    match key_index(store.settings, key, 0) {
        Some(i) => {
            lemma_key_index_is(after.settings, key, i);
        },
        None => {
            lemma_key_index_is(after.settings, key, store.settings.len() as int);
        },
    }
}

/// A setting that is written twice has the value that was written last, and
/// a setting that was never written has none.
pub proof fn lemma_settings_keep_last(
    store: CacheModel,
    key: Seq<char>,
    first: Seq<char>,
    second: Seq<char>,
)
    requires
        store.wf(),
    ensures
        store.set_setting(key, first).set_setting(key, second).get_setting(key) == Some(second),
        store.set_setting(key, first).wf(),
        CacheModel::empty().get_setting(key) is None,
{
    lemma_set_setting(store, key, first);
    lemma_set_setting(store.set_setting(key, first), key, second);
}

/// A setting that is written has the value that was written, and writing it
/// changes no other setting.
pub proof fn lemma_set_then_get(store: CacheModel, key: Seq<char>, value: Seq<char>, other: Seq<char>)
    requires
        store.wf(),
        other != key,
    ensures
        store.set_setting(key, value).get_setting(key) == Some(value),
        store.set_setting(key, value).get_setting(other) == store.get_setting(other),
{
    lemma_set_setting(store, key, value);
    lemma_key_index(store.settings, key, 0);
    lemma_key_index(store.settings, other, 0);
    let after = store.set_setting(key, value);
    match key_index(store.settings, other, 0) {
        Some(i) => {
            assert(after.settings[i] == store.settings[i]);
            assert forall|k: int| 0 <= k < i implies (#[trigger] after.settings[k]).0 != other by {
                if k < store.settings.len() {
                    assert(store.settings[k].0 != other);
                }
            }
            lemma_key_index_is(after.settings, other, i);
        },
        None => {
            lemma_key_index(after.settings, other, 0);
            match key_index(after.settings, other, 0) {
                Some(j) => {
                    if j < store.settings.len() {
                        assert(store.settings[j].0 != other);
                    }
                },
                None => {},
            }
        },
    }
}

/// Putting an account into a list is inserting it before the first account
/// that was used earlier than it.
pub proof fn lemma_insert_position(
    sorted: Seq<StoredAccountModel>,
    account: StoredAccountModel,
    at: int,
)
    requires
        0 <= at <= sorted.len(),
        forall|k: int| 0 <= k < at ==> account.last_used_at <= (#[trigger] sorted[k]).last_used_at,
        at < sorted.len() ==> account.last_used_at > sorted[at].last_used_at,
    ensures
        insert_by_recency(sorted, account) == sorted.insert(at, account),
    decreases sorted.len(),
{
    if sorted.len() == 0 || account.last_used_at > sorted[0].last_used_at {
        if at > 0 {
            assert(account.last_used_at <= sorted[0].last_used_at);
        }
        assert(seq![account] + sorted =~= sorted.insert(0, account));
    } else {
        let rest = sorted.drop_first();
        assert forall|k: int| 0 <= k < at - 1 implies account.last_used_at <= (
        #[trigger] rest[k]).last_used_at by {
            assert(rest[k] == sorted[k + 1]);
        }
        lemma_insert_position(rest, account, at - 1);
        assert(seq![sorted[0]] + rest.insert(at - 1, account) =~= sorted.insert(at, account));
    }
}

/// A copy of the accounts in `accounts`.
fn copy_accounts(accounts: &Vec<StoredAccount>) -> (out: Vec<StoredAccount>)
    ensures
        out@ == accounts@,
{
    let mut out: Vec<StoredAccount> = Vec::new();
    let mut i: usize = 0;
    while i < accounts.len()
        invariant
            i <= accounts.len(),
            out@ =~= accounts@.take(i as int),
        decreases accounts.len() - i,
    {
        out.push(accounts[i].duplicate());
        i += 1;
    }
    assert(accounts@.take(accounts@.len() as int) =~= accounts@);
    out
}

/// A copy of the pairs in `pairs`.
fn copy_pairs(pairs: &Vec<(String, String)>) -> (out: Vec<(String, String)>)
    ensures
        out@ == pairs@,
{
    let mut out: Vec<(String, String)> = Vec::new();
    let mut i: usize = 0;
    while i < pairs.len()
        invariant
            i <= pairs.len(),
            out@ =~= pairs@.take(i as int),
        decreases pairs.len() - i,
    {
        out.push((pairs[i].0.clone(), pairs[i].1.clone()));
        i += 1;
    }
    assert(pairs@.take(pairs@.len() as int) =~= pairs@);
    out
}

/// A store of accounts and settings that lives in memory. No two of its
/// accounts share an identifier, and no two of its settings a key.
#[derive(Debug)]
pub struct CacheManager {
    accounts: Vec<StoredAccount>,
    settings: Vec<(String, String)>,
}

impl View for CacheManager {
    type V = CacheModel;

    closed spec fn view(&self) -> CacheModel {
        CacheModel { accounts: accounts_view(self.accounts@), settings: pairs_view(self.settings@) }
    }
}

impl CacheManager {
    #[verifier::type_invariant]
    closed spec fn inv(self) -> bool {
        self@.wf()
    }

    /// Looks at the store and changes nothing; after it the caller knows
    /// that the store keeps identifiers apart, and keys.
    pub fn check(&self)
        ensures
            self@.wf(),
    {
        proof {
            use_type_invariant(self);
        }
    }

    /// The store that holds nothing.
    pub fn new() -> (r: Self)
        ensures
            r@ == CacheModel::empty(),
    {
        let r = CacheManager { accounts: Vec::new(), settings: Vec::new() };
        assert(r@.accounts =~= Seq::empty());
        assert(r@.settings =~= Seq::empty());
        r
    }

    /// The position of the account with the identifier `id`.
    fn find_account(&self, id: &str) -> (r: Option<usize>)
        ensures
            match r {
                Some(i) => index_of(self@.accounts, id@, 0) == Some(i as int) && i
                    < self.accounts.len(),
                None => index_of(self@.accounts, id@, 0) is None,
            },
    {
        let mut i: usize = 0;
        while i < self.accounts.len()
            invariant
                i <= self.accounts.len(),
                index_of(self@.accounts, id@, 0) == index_of(self@.accounts, id@, i as int),
            decreases self.accounts.len() - i,
        {
            if same_text(self.accounts[i].id.as_str(), id) {
                return Some(i);
            }
            i += 1;
        }
        None
    }

    /// The position of the setting with the key `key`.
    fn find_setting(&self, key: &str) -> (r: Option<usize>)
        ensures
            match r {
                Some(i) => key_index(self@.settings, key@, 0) == Some(i as int) && i
                    < self.settings.len(),
                None => key_index(self@.settings, key@, 0) is None,
            },
    {
        let mut i: usize = 0;
        while i < self.settings.len()
            invariant
                i <= self.settings.len(),
                key_index(self@.settings, key@, 0) == key_index(self@.settings, key@, i as int),
            decreases self.settings.len() - i,
        {
            if same_text(self.settings[i].0.as_str(), key) {
                return Some(i);
            }
            i += 1;
        }
        None
    }

    /// Writes `account`: in place of the account with its identifier, or as
    /// a new one.
    pub fn save_account(&mut self, account: &StoredAccount)
        ensures
            final(self)@ == old(self)@.save_account(account@),
    {
        proof {
            use_type_invariant(&*self);
            lemma_index_of(self@.accounts, account@.id, 0);
        }
        let ghost before = self@;
        let mut accounts = copy_accounts(&self.accounts);
        match self.find_account(account.id.as_str()) {
            Some(i) => {
                accounts.remove(i);
                accounts.insert(i, account.duplicate());
                assert(accounts_view(accounts@) =~= before.accounts.update(i as int, account@));
            },
            None => {
                accounts.push(account.duplicate());
                assert(accounts_view(accounts@) =~= before.accounts.push(account@));
            },
        }
        proof {
            lemma_save_keeps_wf(before, account@);
            assert(accounts_view(accounts@) == before.save_account(account@).accounts);
        }
        self.accounts = accounts;
    }

    /// The account with the identifier `account_id`.
    pub fn get_account(&self, account_id: &str) -> (r: Option<StoredAccount>)
        ensures
            optional_account(r) == self@.get_account(account_id@),
    {
        match self.find_account(account_id) {
            Some(i) => Some(self.accounts[i].duplicate()),
            None => None,
        }
    }

    /// The accounts, the one used last first.
    pub fn get_accounts(&self) -> (r: Vec<StoredAccount>)
        ensures
            accounts_view(r@) == self@.get_accounts(),
    {
        let mut out: Vec<StoredAccount> = Vec::new();
        let mut i: usize = 0;
        let ghost all = self@.accounts;
        assert(all.take(0) =~= Seq::empty());
        assert(accounts_view(out@) =~= Seq::empty());
        while i < self.accounts.len()
            invariant
                i <= self.accounts.len(),
                all == self@.accounts,
                accounts_view(out@) == by_recency(all.take(i as int)),
            decreases self.accounts.len() - i,
        {
            let account = &self.accounts[i];
            let ghost sorted = accounts_view(out@);
            let mut at: usize = 0;
            while at < out.len() && account.last_used_at <= out[at].last_used_at
                invariant
                    at <= out.len(),
                    sorted == accounts_view(out@),
                    forall|k: int|
                        0 <= k < at ==> account.last_used_at <= (#[trigger] sorted[k]).last_used_at,
                decreases out.len() - at,
            {
                at += 1;
            }
            proof {
                lemma_insert_position(sorted, account@, at as int);
                assert(all.take(i + 1).drop_last() =~= all.take(i as int));
                assert(all.take(i + 1).last() == account@);
                assert(accounts_view(out@.insert(at as int, *account))
                    =~= sorted.insert(at as int, account@));
            }
            out.insert(at, account.duplicate());
            i += 1;
        }
        assert(all.take(all.len() as int) =~= all);
        out
    }

    /// The account that a new run signs in with: the default one, or else
    /// the one used last.
    pub fn get_default_account(&self) -> (r: Option<StoredAccount>)
        ensures
            optional_account(r) == self@.get_default_account(),
    {
        if self.accounts.len() == 0 {
            return None;
        }
        let mut i: usize = 0;
        while i < self.accounts.len()
            invariant
                i <= self.accounts.len(),
                first_default(self@.accounts, 0) == first_default(self@.accounts, i as int),
            decreases self.accounts.len() - i,
        {
            if self.accounts[i].is_default {
                return Some(self.accounts[i].duplicate());
            }
            i += 1;
        }
        let mut best: usize = 0;
        let mut k: usize = 1;
        let ghost all = self@.accounts;
        assert(all.take(1).len() == 1);
        while k < self.accounts.len()
            invariant
                1 <= k <= self.accounts.len(),
                all == self@.accounts,
                best < k,
                best == latest(all.take(k as int)),
            decreases self.accounts.len() - k,
        {
            proof {
                assert(all.take(k + 1).drop_last() =~= all.take(k as int));
                assert(all.take(k + 1).last() == all[k as int]);
                assert(all.take(k + 1)[best as int] == all[best as int]);
            }
            if self.accounts[k].last_used_at > self.accounts[best].last_used_at {
                best = k;
            }
            k += 1;
        }
        assert(all.take(all.len() as int) =~= all);
        Some(self.accounts[best].duplicate())
    }

    /// Deletes the account with the identifier `account_id`.
    pub fn delete_account(&mut self, account_id: &str)
        ensures
            final(self)@ == old(self)@.delete_account(account_id@),
    {
        proof {
            use_type_invariant(&*self);
            lemma_index_of(self@.accounts, account_id@, 0);
        }
        let ghost before = self@;
        match self.find_account(account_id) {
            Some(i) => {
                let mut accounts = copy_accounts(&self.accounts);
                accounts.remove(i);
                assert(accounts_view(accounts@) =~= before.accounts.remove(i as int));
                proof {
                    lemma_delete_keeps_wf(before, account_id@);
                    assert(accounts_view(accounts@) == before.delete_account(account_id@).accounts);
                }
                self.accounts = accounts;
            },
            None => {},
        }
    }

    /// Makes the account with the identifier `account_id` the only default
    /// one, and marks it as used at the time `now`.
    pub fn set_default_account(&mut self, account_id: &str, now: i64)
        ensures
            final(self)@ == old(self)@.set_default_account(account_id@, now),
    {
        proof {
            use_type_invariant(&*self);
        }
        let ghost before = self@;
        let ghost after = before.set_default_account(account_id@, now);
        let mut out: Vec<StoredAccount> = Vec::new();
        let mut i: usize = 0;
        while i < self.accounts.len()
            invariant
                i <= self.accounts.len(),
                before == self@,
                after == before.set_default_account(account_id@, now),
                out@.len() == i,
                forall|k: int| 0 <= k < i ==> (#[trigger] out@[k])@ == after.accounts[k],
            decreases self.accounts.len() - i,
        {
            let mut account = self.accounts[i].duplicate();
            if same_text(account.id.as_str(), account_id) {
                account.is_default = true;
                account.last_used_at = now;
            } else {
                account.is_default = false;
            }
            out.push(account);
            i += 1;
        }
        proof {
            assert(accounts_view(out@) =~= after.accounts);
            lemma_set_default_is_single(before, account_id@, now);
        }
        self.accounts = out;
    }

    /// The value of the setting `key`.
    pub fn get_setting(&self, key: &str) -> (r: Option<String>)
        ensures
            optional_text(r) == self@.get_setting(key@),
    {
        match self.find_setting(key) {
            Some(i) => Some(self.settings[i].1.clone()),
            None => None,
        }
    }

    /// Gives the setting `key` the value `value`.
    pub fn set_setting(&mut self, key: &str, value: &str)
        ensures
            final(self)@ == old(self)@.set_setting(key@, value@),
    {
        proof {
            use_type_invariant(&*self);
            lemma_key_index(self@.settings, key@, 0);
        }
        let ghost before = self@;
        let pair = (String::from_str(key), String::from_str(value));
        let mut settings = copy_pairs(&self.settings);
        match self.find_setting(key) {
            Some(i) => {
                settings.remove(i);
                settings.insert(i, pair);
                assert(pairs_view(settings@) =~= before.settings.update(i as int, (key@, value@)));
            },
            None => {
                settings.push(pair);
                assert(pairs_view(settings@) =~= before.settings.push((key@, value@)));
            },
        }
        self.settings = settings;
    }

    /// Deletes the setting `key`.
    pub fn delete_setting(&mut self, key: &str)
        ensures
            final(self)@ == old(self)@.delete_setting(key@),
    {
        proof {
            use_type_invariant(&*self);
            lemma_key_index(self@.settings, key@, 0);
        }
        let ghost before = self@;
        match self.find_setting(key) {
            Some(i) => {
                let mut settings = copy_pairs(&self.settings);
                settings.remove(i);
                assert(pairs_view(settings@) =~= before.settings.remove(i as int));
                self.settings = settings;
            },
            None => {},
        }
    }

    /// Every setting, as pairs of key and value.
    pub fn get_all_settings(&self) -> (r: Vec<(String, String)>)
        ensures
            pairs_view(r@) == self@.settings,
    {
        let mut out: Vec<(String, String)> = Vec::new();
        let mut i: usize = 0;
        while i < self.settings.len()
            invariant
                i <= self.settings.len(),
                out@.len() == i,
                forall|k: int|
                    0 <= k < i ==> (#[trigger] out@[k]).0@ == self.settings@[k].0@ && out@[k].1@
                        == self.settings@[k].1@,
            decreases self.settings.len() - i,
        {
            out.push((self.settings[i].0.clone(), self.settings[i].1.clone()));
            i += 1;
        }
        assert(pairs_view(out@) =~= self@.settings);
        out
    }

    /// Answers the effect `effect` at the time `now` as a store does: the
    /// outcome, or `None` for an effect that is not the store's, which
    /// leaves the store as it is.
    pub fn perform(&mut self, effect: &Effect, now: i64) -> (r: Option<Outcome>)
        ensures
            match r {
                Some(outcome) => old(self)@.perform(effect@, now) == Some((final(self)@, outcome@)),
                None => old(self)@.perform(effect@, now) is None && final(self)@ == old(self)@,
            },
    {
        match effect {
            Effect::LoadDefaultAccount => Some(Outcome::Account(self.get_default_account())),
            Effect::LoadAccount { account_id } => Some(
                Outcome::Account(self.get_account(account_id.as_str())),
            ),
            Effect::ListAccounts => Some(Outcome::Accounts(self.get_accounts())),
            Effect::SaveAccount { account } => {
                self.save_account(account);
                Some(Outcome::Done)
            },
            Effect::DeleteAccount { account_id } => {
                self.delete_account(account_id.as_str());
                Some(Outcome::Done)
            },
            Effect::SetDefaultAccount { account_id } => {
                self.set_default_account(account_id.as_str(), now);
                Some(Outcome::Done)
            },
            Effect::GetSetting { key } => Some(Outcome::Setting(self.get_setting(key.as_str()))),
            Effect::SetSetting { key, value } => {
                self.set_setting(key.as_str(), value.as_str());
                Some(Outcome::Done)
            },
            Effect::ListSettings => Some(Outcome::Settings(self.get_all_settings())),
            _ => None,
        }
    }
}

} // verus!
