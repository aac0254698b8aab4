//! The request handlers of the core: registration, login, and the
//! question operations, including the ownership gate that every
//! question mutation must pass.
//!
//! Each handler takes the store backend through the data-access port and
//! plain, already-parsed values; the transport layer around the core
//! extracts those values and serializes what comes back.

use vstd::prelude::*;

use vstd::utf8::encode_utf8;

use crate::account::{Account, Session};
use crate::answer::{Answer, NewAnswer};
use crate::credentials::{hash_password, password_matches, phc_supported, verify_password};
use crate::errors::Error;
use crate::question::{NewQuestion, Question, QuestionView};
use crate::repository::{email_taken, is_owner, RepositoryPort};
use crate::token::{issue_token, issued_for, SESSION_LIFETIME_SECS};
use crate::account::AccountId;

verus! {

/// Registers an account: hashes the password, then stores the account
/// with the hash at rest. The stored password is never the plaintext:
/// it is a supported hash that verifies against the given password.
pub fn register<P: RepositoryPort>(store: &mut P, account: Account) -> (r: Result<bool, Error>)
    requires
        old(store).inv(),
    ensures
        final(store).inv(),
        r matches Ok(b) ==> b && {
            &&& !email_taken(old(store).accounts(), account.email@)
            &&& final(store).accounts().len() == old(store).accounts().len() + 1
            &&& final(store).accounts() == old(store).accounts().push(
                final(store).accounts().last(),
            )
            &&& final(store).accounts().last().email == account.email
            &&& final(store).accounts().last().id == Some(
                AccountId((old(store).accounts().len() + 1) as u64),
            )
            &&& phc_supported(final(store).accounts().last().password@)
            &&& password_matches(
                final(store).accounts().last().password@,
                encode_utf8(account.password@),
            )
            &&& final(store).questions() == old(store).questions()
            &&& final(store).answers() == old(store).answers()
            &&& final(store).next_question_id() == old(store).next_question_id()
            &&& final(store).next_answer_id() == old(store).next_answer_id()
        },
        r matches Err(e) ==> *final(store) == *old(store) && (e == Error::HashingError || e
            == Error::DuplicateAccount || e == Error::StoreError),
        r == Err::<bool, Error>(Error::DuplicateAccount) ==> email_taken(
            old(store).accounts(),
            account.email@,
        ),
        r == Err::<bool, Error>(Error::StoreError) ==> old(store).accounts().len() >= usize::MAX,
        !email_taken(old(store).accounts(), account.email@) && old(store).accounts().len()
            < usize::MAX ==> (r is Ok || r == Err::<bool, Error>(Error::HashingError)),
{
    let hashed = match hash_password(account.password.as_str().as_bytes()) {
        Ok(h) => h,
        Err(e) => {
            return Err(e);
        },
    };
    let candidate = Account { id: account.id, email: account.email, password: hashed };
    match store.add_account(candidate) {
        Ok(_) => Ok(true),
        Err(e) => Err(e),
    }
}

/// Logs an account in: looks it up by email, verifies the password
/// against the stored hash, and issues a bearer token for its identity.
/// `WrongPassword` reports a credential mismatch; an unknown email is
/// `NotFound`.
pub fn login<P: RepositoryPort>(store: &P, key: &[u8], credentials: Account) -> (r: Result<
    String,
    Error,
>)
    requires
        store.inv(),
    ensures
        r matches Ok(t) ==> exists|i: int|
            {
                &&& 0 <= i < store.accounts().len()
                &&& (#[trigger] store.accounts()[i]).email@ == credentials.email@
                &&& store.accounts()[i].id is Some
                &&& password_matches(
                    store.accounts()[i].password@,
                    encode_utf8(credentials.password@),
                )
                &&& exists|n: u64|
                    #[trigger] issued_for(
                        encode_utf8(t@),
                        key@,
                        store.accounts()[i].id_value(),
                        n,
                        (n + SESSION_LIFETIME_SECS) as u64,
                    ) && n + SESSION_LIFETIME_SECS <= u64::MAX
            },
        r == Err::<String, Error>(Error::NotFound) <==> !email_taken(
            store.accounts(),
            credentials.email@,
        ),
        r == Err::<String, Error>(Error::WrongPassword) ==> exists|i: int|
            {
                &&& 0 <= i < store.accounts().len()
                &&& (#[trigger] store.accounts()[i]).email@ == credentials.email@
                &&& phc_supported(store.accounts()[i].password@)
                &&& !password_matches(
                    store.accounts()[i].password@,
                    encode_utf8(credentials.password@),
                )
            },
        r == Err::<String, Error>(Error::HashingError) ==> exists|i: int|
            {
                &&& 0 <= i < store.accounts().len()
                &&& (#[trigger] store.accounts()[i]).email@ == credentials.email@
                &&& (!phc_supported(store.accounts()[i].password@) || password_matches(
                    store.accounts()[i].password@,
                    encode_utf8(credentials.password@),
                ))
            },
        r matches Err(e) ==> e == Error::NotFound || e == Error::WrongPassword || e
            == Error::HashingError,
{
    let account = match store.get_account(credentials.email) {
        Ok(a) => a,
        Err(e) => {
            return Err(e);
        },
    };
    let ghost wi = choose|i: int|
        0 <= i < store.accounts().len() && #[trigger] store.accounts()[i] == account;
    let verified = match verify_password(
        account.password.as_str(),
        credentials.password.as_str().as_bytes(),
    ) {
        Ok(b) => b,
        Err(e) => {
            proof {
                assert(store.accounts()[wi].email@ == credentials.email@);
                assert(!phc_supported(store.accounts()[wi].password@));
            }
            return Err(e);
        },
    };
    if !verified {
        proof {
            assert(store.accounts()[wi].email@ == credentials.email@);
            assert(phc_supported(store.accounts()[wi].password@));
            assert(!password_matches(
                store.accounts()[wi].password@,
                encode_utf8(credentials.password@),
            ));
        }
        return Err(Error::WrongPassword);
    }
    let account_id = match account.id {
        Some(a) => a,
        None => {
            assert(false);
            AccountId(0)
        },
    };
    let r = issue_token(key, account_id);
    proof {
        assert(store.accounts()[wi].email@ == credentials.email@);
        if r is Ok {
            let t = r->Ok_0;
            assert(store.accounts()[wi].id_value() == account_id.0);
            assert(password_matches(
                store.accounts()[wi].password@,
                encode_utf8(credentials.password@),
            ));
            let n = choose|n: u64|
                #[trigger] issued_for(
                    encode_utf8(t@),
                    key@,
                    account_id.0,
                    n,
                    (n + SESSION_LIFETIME_SECS) as u64,
                ) && n + SESSION_LIFETIME_SECS <= u64::MAX;
            assert(issued_for(
                encode_utf8(t@),
                key@,
                store.accounts()[wi].id_value(),
                n,
                (n + SESSION_LIFETIME_SECS) as u64,
            ));
        } else {
            assert(password_matches(
                store.accounts()[wi].password@,
                encode_utf8(credentials.password@),
            ));
        }
    }
    r
}

/// The ownership gate before a question update: rejects with
/// `Unauthorized`, touching nothing, unless the acting account owns the
/// question; an authorized update replaces title, content and tags and
/// keeps identifier and owner.
pub fn update_question<P: RepositoryPort>(
    id: u64,
    session: Session,
    store: &mut P,
    question: Question,
) -> (r: Result<Question, Error>)
    requires
        old(store).inv(),
    ensures
        final(store).inv(),
        r == Err::<Question, Error>(Error::Unauthorized) <==> !is_owner(
            old(store).questions(),
            id,
            session.account_id.0,
        ),
        !is_owner(old(store).questions(), id, session.account_id.0) ==> *final(store) == *old(
            store,
        ),
        is_owner(old(store).questions(), id, session.account_id.0) ==> (r matches Ok(q) && {
            &&& q@ == (QuestionView {
                id: id,
                title: question.title@,
                content: question.content@,
                tags: question.tags.deep_view(),
                owner: session.account_id.0,
            })
            &&& final(store).questions() == old(store).questions().insert(id, q@)
            &&& final(store).answers() == old(store).answers()
            &&& final(store).accounts() == old(store).accounts()
            &&& final(store).next_question_id() == old(store).next_question_id()
            &&& final(store).next_answer_id() == old(store).next_answer_id()
        }),
{
    let owns = match store.is_question_owner(id, &session.account_id) {
        Ok(b) => b,
        Err(e) => {
            assert(false);
            return Err(e);
        },
    };
    if owns {
        match store.update_question(question, id, session.account_id) {
            Ok(q) => Ok(q),
            Err(e) => {
                assert(false);
                Err(e)
            },
        }
    } else {
        Err(Error::Unauthorized)
    }
}

/// The ownership gate before a question deletion: rejects with
/// `Unauthorized`, touching nothing, unless the acting account owns the
/// question; an authorized deletion removes it.
pub fn delete_question<P: RepositoryPort>(id: u64, session: Session, store: &mut P) -> (r: Result<
    bool,
    Error,
>)
    requires
        old(store).inv(),
    ensures
        final(store).inv(),
        r == Err::<bool, Error>(Error::Unauthorized) <==> !is_owner(
            old(store).questions(),
            id,
            session.account_id.0,
        ),
        !is_owner(old(store).questions(), id, session.account_id.0) ==> *final(store) == *old(
            store,
        ),
        is_owner(old(store).questions(), id, session.account_id.0) ==> r == Ok::<bool, Error>(true)
            && {
            &&& final(store).questions() == old(store).questions().remove(id)
            &&& final(store).answers() == old(store).answers()
            &&& final(store).accounts() == old(store).accounts()
            &&& final(store).next_question_id() == old(store).next_question_id()
            &&& final(store).next_answer_id() == old(store).next_answer_id()
        },
{
    let owns = match store.is_question_owner(id, &session.account_id) {
        Ok(b) => b,
        Err(e) => {
            assert(false);
            return Err(e);
        },
    };
    if owns {
        match store.delete_question(id, session.account_id) {
            Ok(b) => Ok(b),
            Err(e) => {
                assert(false);
                Err(e)
            },
        }
    } else {
        Err(Error::Unauthorized)
    }
}

/// Creates a question owned by the acting account.
pub fn add_question<P: RepositoryPort>(
    session: Session,
    store: &mut P,
    new_question: NewQuestion,
) -> (r: Result<Question, Error>)
    requires
        old(store).inv(),
    ensures
        final(store).inv(),
        r matches Ok(q) ==> {
            &&& q@ == (QuestionView {
                id: old(store).next_question_id(),
                title: new_question.title@,
                content: new_question.content@,
                tags: new_question.tags.deep_view(),
                owner: session.account_id.0,
            })
            &&& !old(store).questions().contains_key(old(store).next_question_id())
            &&& final(store).questions() == old(store).questions().insert(q@.id, q@)
            &&& final(store).next_question_id() == old(store).next_question_id() + 1
            &&& final(store).answers() == old(store).answers()
            &&& final(store).accounts() == old(store).accounts()
            &&& final(store).next_answer_id() == old(store).next_answer_id()
        },
        r matches Err(e) ==> e == Error::StoreError && *final(store) == *old(store),
        r is Ok <==> old(store).next_question_id() < u64::MAX,
{
    store.add_question(new_question, session.account_id)
}

/// Submits an answer under the acting account.
pub fn add_answer<P: RepositoryPort>(session: Session, store: &mut P, new_answer: NewAnswer) -> (r:
    Result<Answer, Error>)
    requires
        old(store).inv(),
    ensures
        final(store).inv(),
        r matches Ok(a) ==> {
            &&& a.id.0 == old(store).next_answer_id()
            &&& a.content == new_answer.content
            &&& a.question_id == new_answer.question_id
            &&& !old(store).answers().contains_key(old(store).next_answer_id())
            &&& final(store).answers() == old(store).answers().insert(a.id.0, a)
            &&& final(store).next_answer_id() == old(store).next_answer_id() + 1
            &&& final(store).questions() == old(store).questions()
            &&& final(store).accounts() == old(store).accounts()
            &&& final(store).next_question_id() == old(store).next_question_id()
        },
        r matches Err(e) ==> e == Error::StoreError && *final(store) == *old(store),
        r is Ok <==> old(store).next_answer_id() < u64::MAX,
{
    store.add_answer(new_answer, session.account_id)
}

} // verus!
