//! Handlers that go to the store.

use vstd::prelude::*;
use vstd::string::StringExecFns;
use crate::domain::{NewUser, User, UserView};
use crate::engine::{
    create_user_db_call, create_view, fetch_view, get_users_db_call, DatabaseExecutor,
    MockExecutor, StorageError,
};
use crate::reply::{text_reply, Body, BodyView, Reply, ReplyView, CREATED, INTERNAL_SERVER_ERROR, OK};
use crate::state::AppState;

verus! {

/// The reply to a listing for each outcome of the fetch: 200 with the users
/// as the store returned them, or 500 with the diagnostic.
pub open spec fn users_reply_of(outcome: Result<Seq<UserView>, Seq<char>>) -> ReplyView {
    match outcome {
        Ok(users) => ReplyView { status: 200, body: BodyView::Users(users) },
        Err(details) => text_reply(500, "failed to get users: "@ + details),
    }
}

/// Turns the outcome of the fetch into the reply to a listing.
pub fn users_reply(outcome: Result<Vec<User>, StorageError>) -> (reply: Reply)
    ensures
        reply@ == users_reply_of(fetch_view(outcome)),
{
    match outcome {
        Ok(users) => Reply { status: OK, body: Body::Users(users) },
        Err(error) => {
            let mut line = String::from_str("failed to get users: ");
            line.append(error.details());
            Reply::text(INTERNAL_SERVER_ERROR, line.as_str())
        },
    }
}

/// The reply to a creation for each outcome of the store: 201 with the
/// literal `CREATED`, or 500 with the diagnostic.
pub open spec fn creation_reply_of(outcome: Result<Seq<char>, Seq<char>>) -> ReplyView {
    match outcome {
        Ok(_) => text_reply(201, "CREATED"@),
        Err(details) => text_reply(500, "failed to insert user: "@ + details),
    }
}

/// Turns the outcome of the store into the reply to a creation.
pub fn creation_reply(outcome: Result<String, StorageError>) -> (reply: Reply)
    ensures
        reply@ == creation_reply_of(create_view(outcome)),
{
    match outcome {
        Ok(_) => Reply::text(CREATED, "CREATED"),
        Err(error) => {
            let mut line = String::from_str("failed to insert user: ");
            line.append(error.details());
            Reply::text(INTERNAL_SERVER_ERROR, line.as_str())
        },
    }
}

/// Lists the users: one fetch through the executor of the state, and the
/// reply that belongs to its outcome.
pub fn get_users<E: DatabaseExecutor>(state: &mut AppState<E>) -> (reply: Reply)
    requires
        old(state).db_pool.can_fetch(),
    ensures
        exists|outcome: Result<Seq<UserView>, Seq<char>>|
            #![trigger users_reply_of(outcome)]
            old(state).db_pool.fetched(&final(state).db_pool, outcome) && reply@ == users_reply_of(
                outcome,
            ),
{
    let outcome = get_users_db_call(state);
    users_reply(outcome)
}

/// Creates a user: one creation through the executor of the state, called
/// with exactly the name of the payload, and the reply that belongs to its
/// outcome. A failure of the store is reported, never swallowed. The payload
/// is a validated one: its name is not empty.
pub fn create_user<E: DatabaseExecutor>(state: &mut AppState<E>, payload: NewUser) -> (reply: Reply)
    requires
        payload.is_valid(),
        old(state).db_pool.can_create(payload.name@),
    ensures
        exists|outcome: Result<Seq<char>, Seq<char>>|
            #![trigger creation_reply_of(outcome)]
            old(state).db_pool.created(&final(state).db_pool, payload.name@, outcome) && reply@
                == creation_reply_of(outcome),
{
    let outcome = create_user_db_call(state, payload.name);
    creation_reply(outcome)
}

/// Listing through a programmed executor: the reply is the one that belongs
/// to the next programmed outcome, so 500 where a failure was programmed and
/// 200 with exactly the programmed users where a list was; the fetch is
/// counted once.
pub proof fn lemma_get_users_on_mock(
    before: AppState<MockExecutor>,
    after: AppState<MockExecutor>,
    reply: ReplyView,
)
    requires
        exists|outcome: Result<Seq<UserView>, Seq<char>>|
            #![trigger users_reply_of(outcome)]
            before.db_pool.fetched(&after.db_pool, outcome) && reply == users_reply_of(outcome),
    ensures
        before.db_pool@.fetch_plan.len() > 0,
        reply == users_reply_of(before.db_pool@.fetch_plan[0]),
        before.db_pool@.fetch_plan[0] is Err ==> reply.status == 500,
        before.db_pool@.fetch_plan[0] is Ok ==> reply.status == 200 && reply.body
            == BodyView::Users(before.db_pool@.fetch_plan[0]->Ok_0),
        after.db_pool@.fetch_calls == before.db_pool@.fetch_calls + 1,
        after.db_pool@.create_calls == before.db_pool@.create_calls,
{
}

/// Creating through a programmed executor: the reply is the one that belongs
/// to the next programmed outcome, so 201 where a success was programmed and
/// 500 where a failure was; the executor has recorded one more call, with
/// exactly the name of the payload.
pub proof fn lemma_create_user_on_mock(
    before: AppState<MockExecutor>,
    after: AppState<MockExecutor>,
    name: Seq<char>,
    reply: ReplyView,
)
    requires
        exists|outcome: Result<Seq<char>, Seq<char>>|
            #![trigger creation_reply_of(outcome)]
            before.db_pool.created(&after.db_pool, name, outcome) && reply == creation_reply_of(
                outcome,
            ),
    ensures
        before.db_pool@.create_plan.len() > 0,
        reply == creation_reply_of(before.db_pool@.create_plan[0]),
        before.db_pool@.create_plan[0] is Ok ==> reply.status == 201,
        before.db_pool@.create_plan[0] is Err ==> reply.status == 500,
        after.db_pool@.create_calls == before.db_pool@.create_calls.push(name),
        after.db_pool@.fetch_calls == before.db_pool@.fetch_calls,
{
}

} // verus!
