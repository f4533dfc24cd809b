use std::collections::BTreeSet;

use telechecker::enrich::{
    deletion_targets, import_entries, resolved_users, BatchEnricher, EnrichAction, EnrichPhase,
    InputUser,
};
use telechecker::error::TelecheckerError;
use telechecker::phone::validate;
use telechecker::user::{UserData, UserStatus, UserStatusOnline};

fn user(id: i64, access_hash: Option<i64>, phone: &str) -> UserData {
    UserData {
        is_self: false,
        contact: true,
        mutual_contact: false,
        deleted: false,
        bot: false,
        bot_chat_history: false,
        bot_nochats: false,
        verified: false,
        restricted: false,
        min: false,
        bot_inline_geo: false,
        support: false,
        scam: false,
        apply_min_photo: false,
        fake: false,
        bot_attach_menu: false,
        premium: false,
        attach_menu_enabled: false,
        bot_can_edit: false,
        close_friend: false,
        stories_hidden: false,
        stories_unavailable: false,
        id,
        access_hash,
        first_name: Some(format!("user{id}")),
        last_name: None,
        username: None,
        phone: Some(phone.to_string()),
        photo: None,
        status: Some(UserStatus::Online(UserStatusOnline { expires: 1700000000 })),
        bot_info_version: None,
        restriction_reason: None,
        bot_inline_placeholder: None,
        lang_code: None,
        emoji_status: None,
        usernames: None,
        stories_max_id: None,
        color: None,
        background_emoji_id: None,
    }
}

fn strings(v: &[&str]) -> Vec<String> {
    v.iter().map(|s| s.to_string()).collect()
}

/// A stand-in for the directory service that tracks its contact list.
struct MockDirectory {
    contacts: BTreeSet<i64>,
    import_calls: usize,
    delete_calls: usize,
}

impl MockDirectory {
    fn new() -> Self {
        MockDirectory { contacts: BTreeSet::new(), import_calls: 0, delete_calls: 0 }
    }

    fn import(&mut self, answer: &[Option<UserData>]) -> Vec<Option<UserData>> {
        self.import_calls += 1;
        for u in answer.iter().flatten() {
            self.contacts.insert(u.id);
        }
        answer.to_vec()
    }

    fn delete(&mut self, targets: &[InputUser]) {
        self.delete_calls += 1;
        for t in targets {
            self.contacts.remove(&t.user_id);
        }
    }
}

/// Runs one batch through the enricher against the mock directory.
fn run_batch(
    enricher: &mut BatchEnricher,
    dir: &mut MockDirectory,
    numbers: &[&str],
    answer: &[Option<UserData>],
) -> EnrichAction {
    let mut action = enricher.start(&strings(numbers));
    loop {
        action = match action {
            EnrichAction::Import(_) => {
                let got = dir.import(answer);
                enricher.imported(Ok(got))
            }
            EnrichAction::Delete(targets) => {
                dir.delete(&targets);
                enricher.deleted(Ok(()))
            }
            done => return done,
        }
    }
}

#[test]
fn validate_accepts_international_number() {
    assert_eq!(validate("+15551230001"), Ok(()));
    assert_eq!(validate("+44 20 7946 0958"), Ok(()));
}

#[test]
fn validate_rejects_text_and_empty() {
    assert_eq!(validate("not a phone"), Err(TelecheckerError::InvalidPhoneFormat));
    assert_eq!(validate(""), Err(TelecheckerError::InvalidPhoneFormat));
}

#[test]
fn import_entries_keys_by_position() {
    let entries = import_entries(&strings(&["+15551230001", "+15551230002"])).unwrap();
    assert_eq!(entries.len(), 2);
    assert_eq!(entries[0].client_id, 0);
    assert_eq!(entries[0].phone, "+15551230001");
    assert_eq!(entries[1].client_id, 1);
    assert_eq!(entries[1].phone, "+15551230002");
}

#[test]
fn import_entries_of_empty_batch_is_empty() {
    assert_eq!(import_entries(&Vec::new()), Ok(Vec::new()));
}

#[test]
fn import_entries_rejects_malformed_entry() {
    let r = import_entries(&strings(&["+15551230001", "garbage", "+15551230002"]));
    assert_eq!(r, Err(TelecheckerError::MalformedBatch));
}

#[test]
fn resolved_users_drops_placeholders_in_order() {
    let out = resolved_users(vec![
        Some(user(1, Some(11), "+15551230001")),
        None,
        Some(user(3, None, "+15551230003")),
    ]);
    assert_eq!(out.len(), 2);
    assert_eq!(out[0].id, 1);
    assert_eq!(out[1].id, 3);
}

#[test]
fn deletion_targets_are_the_addressable_users() {
    let users = vec![
        user(1, Some(11), "+15551230001"),
        user(2, None, "+15551230002"),
        user(3, Some(33), "+15551230003"),
    ];
    assert_eq!(
        deletion_targets(&users),
        vec![
            InputUser { user_id: 1, access_hash: 11 },
            InputUser { user_id: 3, access_hash: 33 },
        ]
    );
}

#[test]
fn malformed_batch_issues_no_import() {
    let mut enricher = BatchEnricher::new(true);
    let mut dir = MockDirectory::new();
    let r = run_batch(&mut enricher, &mut dir, &["+15551230001", "12ab"], &[]);
    assert_eq!(r, EnrichAction::Fail(TelecheckerError::MalformedBatch));
    assert_eq!(dir.import_calls, 0);
    assert_eq!(dir.delete_calls, 0);
    assert_eq!(enricher.phase(), EnrichPhase::Idle);
}

#[test]
fn resolved_batch_keeps_every_record_and_cleans_up_addressable() {
    let mut enricher = BatchEnricher::new(true);
    let numbers = strings(&["+15551230001", "+15551230002", "+15551230003"]);
    let EnrichAction::Import(entries) = enricher.start(&numbers) else { panic!("no import") };
    assert_eq!(entries.len(), 3);
    let answer = vec![
        Some(user(1, Some(11), "+15551230001")),
        Some(user(2, None, "+15551230002")),
        Some(user(3, Some(33), "+15551230003")),
    ];
    let EnrichAction::Delete(targets) = enricher.imported(Ok(answer)) else { panic!("no delete") };
    assert_eq!(
        targets,
        vec![
            InputUser { user_id: 1, access_hash: 11 },
            InputUser { user_id: 3, access_hash: 33 },
        ]
    );
    assert_eq!(enricher.phase(), EnrichPhase::Deleting);
    let EnrichAction::Finish(records, warning) = enricher.deleted(Ok(())) else { panic!("no finish") };
    assert_eq!(records.len(), 3);
    assert_eq!(warning, None);
    assert_eq!(enricher.phase(), EnrichPhase::Idle);
}

#[test]
fn enrich_twice_leaves_no_contact() {
    let mut enricher = BatchEnricher::new(true);
    let mut dir = MockDirectory::new();
    dir.contacts.insert(99);
    let numbers = ["+15551230001", "+15551230002"];
    let answer = [Some(user(1, Some(11), numbers[0])), Some(user(2, Some(22), numbers[1]))];
    for _ in 0..2 {
        let r = run_batch(&mut enricher, &mut dir, &numbers, &answer);
        assert!(matches!(r, EnrichAction::Finish(ref users, None) if users.len() == 2));
        assert_eq!(dir.contacts, BTreeSet::from([99]));
    }
    assert_eq!(dir.import_calls, 2);
    assert_eq!(dir.delete_calls, 2);
}

#[test]
fn two_numbers_end_to_end() {
    let mut enricher = BatchEnricher::new(true);
    let mut dir = MockDirectory::new();
    let numbers = ["+15551230001", "+15551230002"];
    let answer = [Some(user(7, Some(70), numbers[0])), Some(user(8, None, numbers[1]))];
    let EnrichAction::Finish(records, None) = run_batch(&mut enricher, &mut dir, &numbers, &answer)
    else {
        panic!("batch did not finish cleanly")
    };
    assert_eq!(records.len(), 2);
    assert_eq!(records[0].phone.as_deref(), Some("+15551230001"));
    assert_eq!(records[1].phone.as_deref(), Some("+15551230002"));
    assert_eq!(records[0].access_hash, Some(70));
    assert_eq!(records[1].access_hash, None);
    assert_eq!(dir.contacts, BTreeSet::from([8]));
}

#[test]
fn unresolved_numbers_are_absent_from_output() {
    let mut enricher = BatchEnricher::new(false);
    enricher.start(&strings(&["+15551230001", "+15551230002"]));
    let r = enricher.imported(Ok(vec![None, Some(user(2, Some(22), "+15551230002"))]));
    let EnrichAction::Finish(records, None) = r else { panic!("no finish") };
    assert_eq!(records.len(), 1);
    assert_eq!(records[0].id, 2);
}

#[test]
fn preserved_contacts_skip_deletion() {
    let mut enricher = BatchEnricher::new(false);
    assert!(!enricher.remove_contacts());
    let mut dir = MockDirectory::new();
    let numbers = ["+15551230001"];
    let answer = [Some(user(1, Some(11), numbers[0]))];
    let r = run_batch(&mut enricher, &mut dir, &numbers, &answer);
    assert!(matches!(r, EnrichAction::Finish(ref users, None) if users.len() == 1));
    assert_eq!(dir.delete_calls, 0);
    assert_eq!(dir.contacts, BTreeSet::from([1]));
}

#[test]
fn no_addressable_user_means_no_deletion_call() {
    let mut enricher = BatchEnricher::new(true);
    enricher.start(&strings(&["+15551230001"]));
    let r = enricher.imported(Ok(vec![Some(user(1, None, "+15551230001"))]));
    assert!(matches!(r, EnrichAction::Finish(ref users, None) if users.len() == 1));
}

#[test]
fn failed_deletion_keeps_records() {
    let mut enricher = BatchEnricher::new(true);
    enricher.start(&strings(&["+15551230001"]));
    enricher.imported(Ok(vec![Some(user(1, Some(11), "+15551230001"))]));
    let r = enricher.deleted(Err("FLOOD_WAIT".to_string()));
    let EnrichAction::Finish(records, warning) = r else { panic!("no finish") };
    assert_eq!(records.len(), 1);
    assert_eq!(warning, Some(TelecheckerError::DeletionFailed("FLOOD_WAIT".to_string())));
}

#[test]
fn failed_import_fails_batch() {
    let mut enricher = BatchEnricher::new(true);
    enricher.start(&strings(&["+15551230001"]));
    let r = enricher.imported(Err("timeout".to_string()));
    assert_eq!(r, EnrichAction::Fail(TelecheckerError::ServiceFailed("timeout".to_string())));
    assert_eq!(enricher.phase(), EnrichPhase::Idle);
}

#[test]
fn out_of_order_answers_are_refused() {
    let mut enricher = BatchEnricher::new(true);
    assert_eq!(enricher.imported(Ok(Vec::new())), EnrichAction::Fail(TelecheckerError::UnexpectedEvent));
    assert_eq!(enricher.deleted(Ok(())), EnrichAction::Fail(TelecheckerError::UnexpectedEvent));
    enricher.start(&strings(&["+15551230001"]));
    assert_eq!(
        enricher.start(&strings(&["+15551230001"])),
        EnrichAction::Fail(TelecheckerError::UnexpectedEvent)
    );
    assert_eq!(enricher.phase(), EnrichPhase::Importing);
}
