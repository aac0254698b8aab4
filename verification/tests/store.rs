//! The in-memory store, the data-access port and the request handlers.

use rush::account::{Account, AccountId, Session};
use rush::answer::NewAnswer;
use rush::errors::Error;
use rush::memory_repository::MemoryRepository;
use rush::question::{NewQuestion, QuestionId};
use rush::repository::RepositoryPort;
use rush::routes::{add_answer, add_question, delete_question, login, register, update_question};
use rush::token::verify_token_at;

const KEY: [u8; 32] = [9u8; 32];

fn new_question(title: &str, content: &str, tags: &[&str]) -> NewQuestion {
    NewQuestion {
        title: title.to_string(),
        content: content.to_string(),
        tags: tags.iter().map(|t| t.to_string()).collect(),
    }
}

fn account(email: &str, password: &str) -> Account {
    Account { id: None, email: email.to_string(), password: password.to_string() }
}

fn session(id: u64) -> Session {
    Session { account_id: AccountId(id), nbf: 0, exp: 86_400 }
}

#[test]
fn sequential_inserts_assign_gapless_distinct_ids() {
    let mut repo = MemoryRepository::new();
    for i in 1..=5u64 {
        let q = repo
            .add_question(new_question("t", "c", &[]), AccountId(1))
            .expect("add failed");
        assert_eq!(q.id, QuestionId(i));
    }
    let all = repo.get_questions(None, 0).expect("get failed");
    assert_eq!(all.len(), 5);
    let ids: Vec<u64> = all.iter().map(|q| q.id.0).collect();
    assert_eq!(ids, vec![1, 2, 3, 4, 5]);
}

#[test]
fn concurrent_inserts_assign_distinct_gapless_ids() {
    let rt = tokio::runtime::Builder::new_multi_thread()
        .worker_threads(4)
        .enable_all()
        .build()
        .expect("runtime failed");
    rt.block_on(async {
        let repo = std::sync::Arc::new(tokio::sync::RwLock::new(MemoryRepository::new()));
        let mut handles = Vec::new();
        for _ in 0..10 {
            let repo = repo.clone();
            handles.push(tokio::spawn(async move {
                for _ in 0..10 {
                    let mut guard = repo.write().await;
                    guard
                        .add_question(new_question("t", "c", &[]), AccountId(1))
                        .expect("add failed");
                }
            }));
        }
        for handle in handles {
            handle.await.expect("task failed");
        }
        let guard = repo.read().await;
        let all = guard.get_questions(None, 0).expect("get failed");
        assert_eq!(all.len(), 100);
        let ids: Vec<u64> = all.iter().map(|q| q.id.0).collect();
        assert_eq!(ids, (1..=100).collect::<Vec<u64>>());
    });
}

#[test]
fn deleted_ids_are_never_reused() {
    let mut repo = MemoryRepository::new();
    for _ in 0..3 {
        repo.add_question(new_question("t", "c", &[]), AccountId(1)).expect("add failed");
    }
    assert_eq!(repo.delete_question(3, AccountId(1)), Ok(true));
    let q = repo.add_question(new_question("t", "c", &[]), AccountId(1)).expect("add failed");
    assert_eq!(q.id, QuestionId(4));
}

#[test]
fn exhausted_identifier_space_is_a_store_error() {
    let mut store = rush::memory_store::MemoryStore::new();
    store.question_index = u64::MAX;
    store.answer_index = u64::MAX;
    let mut repo = rush::memory_repository::MemoryRepository { store };
    assert_eq!(
        repo.add_question(new_question("t", "c", &[]), AccountId(1)),
        Err(Error::StoreError)
    );
    assert_eq!(
        repo.add_answer(
            NewAnswer { content: "a".to_string(), question_id: QuestionId(1) },
            AccountId(1)
        ),
        Err(Error::StoreError)
    );
}

#[test]
fn owner_check_holds_for_the_owner_and_fails_for_others() {
    let mut repo = MemoryRepository::new();
    let q = repo
        .add_question(new_question("t", "c", &[]), AccountId(1))
        .expect("add failed");
    assert_eq!(repo.is_question_owner(q.id.0, &AccountId(1)), Ok(true));
    assert_eq!(repo.is_question_owner(q.id.0, &AccountId(2)), Ok(false));
    assert_eq!(repo.is_question_owner(99, &AccountId(1)), Ok(false));
}

#[test]
fn deleted_question_is_not_found() {
    let mut repo = MemoryRepository::new();
    let q = repo
        .add_question(new_question("t", "c", &[]), AccountId(1))
        .expect("add failed");
    assert_eq!(repo.delete_question(q.id.0, AccountId(1)), Ok(true));
    assert_eq!(repo.get_question(q.id.0), Err(Error::NotFound));
    assert_eq!(repo.delete_question(q.id.0, AccountId(1)), Err(Error::NotFound));
}

#[test]
fn add_question_scenario_and_unauthorized_update() {
    let mut repo = MemoryRepository::new();
    let q = add_question(session(1), &mut repo, new_question("T", "C", &["x"]))
        .expect("add failed");
    assert_eq!(q.id, QuestionId(1));
    assert_eq!(q.title, "T");
    assert_eq!(q.content, "C");
    assert_eq!(q.tags, vec!["x".to_string()]);
    assert_eq!(q.owner, AccountId(1));

    let replacement = rush::question::Question {
        id: QuestionId(1),
        title: "T2".to_string(),
        content: "C2".to_string(),
        tags: vec!["y".to_string()],
        owner: AccountId(2),
    };
    let denied = update_question(1, session(2), &mut repo, replacement);
    assert_eq!(denied, Err(Error::Unauthorized));
    // the store was never reached
    let stored = repo.get_question(1).expect("get failed");
    assert_eq!(stored.title, "T");
    assert_eq!(stored.content, "C");
    assert_eq!(stored.owner, AccountId(1));
}

#[test]
fn authorized_update_replaces_texts_and_keeps_the_owner() {
    let mut repo = MemoryRepository::new();
    add_question(session(1), &mut repo, new_question("T", "C", &["x"])).expect("add failed");
    let replacement = rush::question::Question {
        id: QuestionId(999),
        title: "T2".to_string(),
        content: "C2".to_string(),
        tags: vec!["y".to_string()],
        owner: AccountId(777),
    };
    let updated = update_question(1, session(1), &mut repo, replacement).expect("update failed");
    assert_eq!(updated.id, QuestionId(1));
    assert_eq!(updated.title, "T2");
    assert_eq!(updated.owner, AccountId(1));
    let stored = repo.get_question(1).expect("get failed");
    assert_eq!(stored.title, "T2");
    assert_eq!(stored.content, "C2");
    assert_eq!(stored.tags, vec!["y".to_string()]);
    assert_eq!(stored.owner, AccountId(1));
}

#[test]
fn unauthorized_delete_is_rejected_before_the_store() {
    let mut repo = MemoryRepository::new();
    add_question(session(1), &mut repo, new_question("T", "C", &[])).expect("add failed");
    assert_eq!(delete_question(1, session(2), &mut repo), Err(Error::Unauthorized));
    assert!(repo.get_question(1).is_ok());
    assert_eq!(delete_question(1, session(1), &mut repo), Ok(true));
    assert_eq!(repo.get_question(1), Err(Error::NotFound));
}

#[test]
fn answers_get_their_own_gapless_ids() {
    let mut repo = MemoryRepository::new();
    let a1 = add_answer(
        session(1),
        &mut repo,
        NewAnswer { content: "a".to_string(), question_id: QuestionId(1) },
    )
    .expect("add failed");
    let a2 = add_answer(
        session(1),
        &mut repo,
        NewAnswer { content: "b".to_string(), question_id: QuestionId(1) },
    )
    .expect("add failed");
    assert_eq!(a1.id.0, 1);
    assert_eq!(a2.id.0, 2);
    assert_eq!(a2.content, "b");
    assert_eq!(a2.question_id, QuestionId(1));
}

#[test]
fn register_then_login_succeeds_and_wrong_password_fails() {
    let mut repo = MemoryRepository::new();
    assert_eq!(register(&mut repo, account("a@b.com", "pw")), Ok(true));

    let token = login(&repo, &KEY, account("a@b.com", "pw")).expect("login failed");
    let session = verify_token_at(&KEY, &token, now_unix_for_test(&token)).expect("bad token");
    assert_eq!(session.account_id, AccountId(1));

    assert_eq!(login(&repo, &KEY, account("a@b.com", "wrong")), Err(Error::WrongPassword));
    assert_eq!(login(&repo, &KEY, account("x@y.com", "pw")), Err(Error::NotFound));
}

// A freshly issued token states its own not-before time; validating at
// that instant is always inside the window.
fn now_unix_for_test(token: &str) -> u64 {
    let session = rush::token::verify_token(&KEY, token).expect("token not valid now");
    session.nbf
}

#[test]
fn stored_password_is_a_hash_not_the_plaintext() {
    let mut repo = MemoryRepository::new();
    register(&mut repo, account("a@b.com", "pw")).expect("register failed");
    let stored = repo.get_account("a@b.com".to_string()).expect("get failed");
    assert_ne!(stored.password, "pw");
    assert_eq!(stored.id, Some(AccountId(1)));
}

#[test]
fn duplicate_email_is_rejected() {
    let mut repo = MemoryRepository::new();
    assert_eq!(register(&mut repo, account("a@b.com", "pw")), Ok(true));
    assert_eq!(register(&mut repo, account("a@b.com", "other")), Err(Error::DuplicateAccount));
    assert_eq!(register(&mut repo, account("b@c.com", "pw")), Ok(true));
    let second = repo.get_account("b@c.com".to_string()).expect("get failed");
    assert_eq!(second.id, Some(AccountId(2)));
}

#[test]
fn get_account_of_unknown_email_is_not_found() {
    let repo = MemoryRepository::new();
    assert_eq!(repo.get_account("nobody@nowhere".to_string()), Err(Error::NotFound));
}

#[test]
fn get_questions_returns_every_stored_question() {
    let mut repo = MemoryRepository::new();
    for title in ["a", "b", "c"] {
        repo.add_question(new_question(title, "c", &[]), AccountId(1)).expect("add failed");
    }
    repo.delete_question(2, AccountId(1)).expect("delete failed");
    let all = repo.get_questions(Some(10), 0).expect("get failed");
    let ids: Vec<u64> = all.iter().map(|q| q.id.0).collect();
    assert_eq!(ids, vec![1, 3]);
}
