use mastodon_core::cache::CacheManager;
use mastodon_core::ipc::protocol::{Effect, Outcome};
use mastodon_core::models::StoredAccount;

fn store_account(id: &str, last_used_at: i64, is_default: bool) -> StoredAccount {
    StoredAccount {
        id: id.to_string(),
        instance_url: "https://example.social".to_string(),
        username: id.split('@').next().unwrap().to_string(),
        acct: id.to_string(),
        display_name: "Name".to_string(),
        access_token: format!("token-{}", id),
        refresh_token: None,
        token_expires_at: None,
        added_at: 1,
        last_used_at,
        is_default,
        avatar_url: None,
        blindodon_pm_private_key: None,
        blindodon_pm_public_key: None,
    }
}

fn store_defaults(store: &CacheManager) -> Vec<String> {
    store.get_accounts().into_iter().filter(|a| a.is_default).map(|a| a.id).collect()
}

#[test]
fn empty_store_has_nothing() {
    let store = CacheManager::new();
    assert_eq!(store.get_accounts(), vec![]);
    assert_eq!(store.get_default_account(), None);
    assert_eq!(store.get_account("a@x"), None);
    assert_eq!(store.get_setting("theme"), None);
    assert_eq!(store.get_all_settings(), vec![]);
}

#[test]
fn save_is_an_upsert_by_identifier() {
    let mut store = CacheManager::new();
    store.save_account(&store_account("a@x", 10, false));
    store.save_account(&store_account("b@x", 20, false));
    let mut changed = store_account("a@x", 30, false);
    changed.display_name = "Other".to_string();
    store.save_account(&changed);
    assert_eq!(store.get_accounts().len(), 2);
    assert_eq!(store.get_account("a@x"), Some(changed));
    assert_eq!(store.get_account("b@x"), Some(store_account("b@x", 20, false)));
}

#[test]
fn accounts_come_most_recent_first() {
    let mut store = CacheManager::new();
    store.save_account(&store_account("a@x", 10, false));
    store.save_account(&store_account("b@x", 30, false));
    store.save_account(&store_account("c@x", 20, false));
    let ids: Vec<String> = store.get_accounts().into_iter().map(|a| a.id).collect();
    assert_eq!(ids, vec!["b@x", "c@x", "a@x"]);
}

#[test]
fn default_account_wins_over_recency() {
    let mut store = CacheManager::new();
    store.save_account(&store_account("a@x", 10, true));
    store.save_account(&store_account("b@x", 30, false));
    assert_eq!(store.get_default_account().unwrap().id, "a@x");
}

#[test]
fn most_recent_account_stands_in_for_a_default() {
    let mut store = CacheManager::new();
    store.save_account(&store_account("a@x", 10, false));
    store.save_account(&store_account("b@x", 30, false));
    store.save_account(&store_account("c@x", 30, false));
    assert_eq!(store.get_default_account().unwrap().id, "b@x");
}

#[test]
fn set_default_clears_every_other_default() {
    let mut store = CacheManager::new();
    store.save_account(&store_account("a@x", 10, true));
    store.save_account(&store_account("b@x", 20, true));
    store.set_default_account("b@x", 99);
    assert_eq!(store_defaults(&store), vec!["b@x"]);
    assert_eq!(store.get_account("b@x").unwrap().last_used_at, 99);
    assert_eq!(store.get_account("a@x").unwrap().last_used_at, 10);
    store.set_default_account("nobody@x", 100);
    assert_eq!(store_defaults(&store), Vec::<String>::new());
}

#[test]
fn at_most_one_default_after_any_sequence() {
    let mut store = CacheManager::new();
    let names = ["a@x", "b@x", "c@x", "d@x"];
    let mut now = 0;
    for round in 0..40usize {
        now += 1;
        let name = names[(round * 7 + round / 3) % names.len()];
        match round % 4 {
            0 => store.save_account(&store_account(name, now, false)),
            1 => store.set_default_account(name, now),
            2 => store.delete_account(name),
            _ => {
                store.save_account(&store_account(name, now, false));
                assert!(store_defaults(&store).len() <= 1);
                store.set_default_account(name, now);
                assert_eq!(store_defaults(&store), vec![name]);
            }
        }
        assert!(store_defaults(&store).len() <= 1);
    }
}

#[test]
fn saving_a_default_at_once_can_make_a_second() {
    let mut store = CacheManager::new();
    store.save_account(&store_account("a@x", 1, true));
    store.save_account(&store_account("b@x", 2, true));
    assert_eq!(store_defaults(&store).len(), 2);
    store.set_default_account("a@x", 3);
    assert_eq!(store_defaults(&store), vec!["a@x"]);
}

#[test]
fn delete_removes_the_account_alone() {
    let mut store = CacheManager::new();
    store.save_account(&store_account("a@x", 10, false));
    store.save_account(&store_account("b@x", 20, false));
    store.delete_account("a@x");
    assert_eq!(store.get_account("a@x"), None);
    assert_eq!(store.get_accounts(), vec![store_account("b@x", 20, false)]);
    store.delete_account("a@x");
    assert_eq!(store.get_accounts().len(), 1);
}

#[test]
fn setting_keeps_the_value_written_last() {
    let mut store = CacheManager::new();
    store.set_setting("theme", "dark");
    store.set_setting("theme", "light");
    assert_eq!(store.get_setting("theme"), Some("light".to_string()));
    assert_eq!(store.get_setting("font"), None);
    assert_eq!(store.get_all_settings(), vec![("theme".to_string(), "light".to_string())]);
}

#[test]
fn settings_are_kept_apart() {
    let mut store = CacheManager::new();
    store.set_setting("theme", "dark");
    store.set_setting("font", "mono");
    store.set_setting("theme", "light");
    assert_eq!(store.get_setting("font"), Some("mono".to_string()));
    store.delete_setting("theme");
    assert_eq!(store.get_setting("theme"), None);
    assert_eq!(store.get_all_settings(), vec![("font".to_string(), "mono".to_string())]);
}

#[test]
fn store_answers_its_own_effects_alone() {
    let mut store = CacheManager::new();
    assert_eq!(
        store.perform(&Effect::SaveAccount { account: store_account("a@x", 5, true) }, 7),
        Some(Outcome::Done)
    );
    assert_eq!(
        store.perform(&Effect::LoadAccount { account_id: "a@x".to_string() }, 7),
        Some(Outcome::Account(Some(store_account("a@x", 5, true))))
    );
    assert_eq!(
        store.perform(&Effect::SetDefaultAccount { account_id: "a@x".to_string() }, 8),
        Some(Outcome::Done)
    );
    assert_eq!(
        store.perform(&Effect::LoadDefaultAccount, 9),
        Some(Outcome::Account(Some(store_account("a@x", 8, true))))
    );
    assert_eq!(
        store.perform(&Effect::ListAccounts, 9),
        Some(Outcome::Accounts(vec![store_account("a@x", 8, true)]))
    );
    assert_eq!(
        store.perform(
            &Effect::SetSetting { key: "k".to_string(), value: "v".to_string() },
            9
        ),
        Some(Outcome::Done)
    );
    assert_eq!(
        store.perform(&Effect::GetSetting { key: "k".to_string() }, 9),
        Some(Outcome::Setting(Some("v".to_string())))
    );
    assert_eq!(
        store.perform(&Effect::ListSettings, 9),
        Some(Outcome::Settings(vec![("k".to_string(), "v".to_string())]))
    );
    assert_eq!(
        store.perform(&Effect::DeleteAccount { account_id: "a@x".to_string() }, 9),
        Some(Outcome::Done)
    );
    assert_eq!(store.get_accounts(), vec![]);
    assert_eq!(
        store.perform(&Effect::RegisterApp { instance_url: "https://x".to_string() }, 9),
        None
    );
}
