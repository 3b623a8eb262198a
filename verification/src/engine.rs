//! The storage executor: the two operations that handlers may ask of the
//! store, a programmable executor for tests, and the pool that holds one or
//! the other.

use vstd::prelude::*;
use vstd::string::StringExecFns;
use crate::domain::{User, UserView};
use crate::state::AppState;

verus! {

/// Why a storage operation failed.
#[derive(Debug)]
pub enum StorageError {
    /// The backend could not be reached or refused the statement.
    Backend(String),
}

impl View for StorageError {
    type V = Seq<char>;

    /// The diagnostic text.
    open spec fn view(&self) -> Seq<char> {
        match self {
            StorageError::Backend(details) => details@,
        }
    }
}

impl StorageError {
    /// The diagnostic text.
    pub fn details(&self) -> (text: &str)
        ensures
            text@ == self@,
    {
        match self {
            StorageError::Backend(details) => details.as_str(),
        }
    }
}

/// The value of the outcome of fetching all users.
pub open spec fn fetch_view(outcome: Result<Vec<User>, StorageError>) -> Result<
    Seq<UserView>,
    Seq<char>,
> {
    match outcome {
        Ok(users) => Ok(users.deep_view()),
        Err(error) => Err(error@),
    }
}

/// The value of the outcome of creating a user.
pub open spec fn create_view(outcome: Result<String, StorageError>) -> Result<
    Seq<char>,
    Seq<char>,
> {
    match outcome {
        Ok(token) => Ok(token@),
        Err(error) => Err(error@),
    }
}

/// The capability that handlers depend on. An implementation says through
/// its spec functions when each operation may be called and which outcomes it
/// can have; callers rely on nothing else.
pub trait DatabaseExecutor {
    /// Whether all users may be fetched now.
    spec fn can_fetch(&self) -> bool;

    /// Whether `after` and `outcome` are a possible result of fetching all
    /// users from this executor.
    spec fn fetched(&self, after: &Self, outcome: Result<Seq<UserView>, Seq<char>>) -> bool;

    /// Whether a user named `name` may be created now.
    spec fn can_create(&self, name: Seq<char>) -> bool;

    /// Whether `after` and `outcome` are a possible result of creating a user
    /// named `name` through this executor.
    spec fn created(
        &self,
        after: &Self,
        name: Seq<char>,
        outcome: Result<Seq<char>, Seq<char>>,
    ) -> bool;

    /// Returns every stored user, in the order of the store.
    fn execute_get_users(&mut self) -> (outcome: Result<Vec<User>, StorageError>)
        requires
            old(self).can_fetch(),
        ensures
            old(self).fetched(final(self), fetch_view(outcome)),
    ;

    /// Stores a new user under a name that is not empty and returns the
    /// store's confirmation.
    fn execute_create_user(&mut self, name: String) -> (outcome: Result<String, StorageError>)
        requires
            name@.len() > 0,
            old(self).can_create(name@),
        ensures
            old(self).created(final(self), name@, create_view(outcome)),
    ;
}

/// The mathematical value of a [`MockExecutor`].
pub struct MockView {
    /// The programmed outcomes of fetching that are still to come, next first.
    pub fetch_plan: Seq<Result<Seq<UserView>, Seq<char>>>,
    /// The programmed outcomes of creating that are still to come, next first.
    pub create_plan: Seq<Result<Seq<char>, Seq<char>>>,
    /// How often all users were fetched.
    pub fetch_calls: nat,
    /// The names that creation was called with, oldest first.
    pub create_calls: Seq<Seq<char>>,
}

/// An executor for tests: it returns outcomes that were programmed in
/// advance, in the order in which they were programmed, and records every
/// call.
pub struct MockExecutor {
    fetch_plan: Vec<Result<Vec<User>, StorageError>>,
    create_plan: Vec<Result<String, StorageError>>,
    fetch_calls: usize,
    create_calls: Vec<String>,
}

impl View for MockExecutor {
    type V = MockView;

    closed spec fn view(&self) -> MockView {
        MockView {
            fetch_plan: self.fetch_plan@.map_values(
                |outcome: Result<Vec<User>, StorageError>| fetch_view(outcome),
            ),
            create_plan: self.create_plan@.map_values(
                |outcome: Result<String, StorageError>| create_view(outcome),
            ),
            fetch_calls: self.fetch_calls as nat,
            create_calls: self.create_calls@.map_values(|name: String| name@),
        }
    }
}

impl MockExecutor {
    /// The counter of fetches has room for every fetch that is programmed.
    pub closed spec fn well_formed(&self) -> bool {
        self.fetch_calls + self.fetch_plan.len() <= usize::MAX
    }

    /// An executor with nothing programmed and nothing recorded.
    pub fn new() -> (mock: MockExecutor)
        ensures
            mock.well_formed(),
            mock@ == (MockView {
                fetch_plan: Seq::empty(),
                create_plan: Seq::empty(),
                fetch_calls: 0,
                create_calls: Seq::empty(),
            }),
    {
        let mock = MockExecutor {
            fetch_plan: Vec::new(),
            create_plan: Vec::new(),
            fetch_calls: 0,
            create_calls: Vec::new(),
        };
        assert(mock@.fetch_plan =~= Seq::empty());
        assert(mock@.create_plan =~= Seq::empty());
        assert(mock@.create_calls =~= Seq::empty());
        mock
    }

    /// Programs the outcome of one more fetch, after those already programmed.
    pub fn expect_get_users(&mut self, outcome: Result<Vec<User>, StorageError>)
        requires
            old(self).well_formed(),
            old(self)@.fetch_calls + old(self)@.fetch_plan.len() < usize::MAX,
        ensures
            final(self).well_formed(),
            final(self)@ == (MockView {
                fetch_plan: old(self)@.fetch_plan.push(fetch_view(outcome)),
                ..old(self)@
            }),
    {
        self.fetch_plan.push(outcome);
        assert(self@.fetch_plan =~= old(self)@.fetch_plan.push(fetch_view(outcome)));
    }

    /// Programs the outcome of one more creation, after those already
    /// programmed.
    pub fn expect_create_user(&mut self, outcome: Result<String, StorageError>)
        requires
            old(self).well_formed(),
        ensures
            final(self).well_formed(),
            final(self)@ == (MockView {
                create_plan: old(self)@.create_plan.push(create_view(outcome)),
                ..old(self)@
            }),
    {
        self.create_plan.push(outcome);
        assert(self@.create_plan =~= old(self)@.create_plan.push(create_view(outcome)));
    }

    /// How often all users were fetched.
    pub fn fetch_calls(&self) -> (count: usize)
        ensures
            count == self@.fetch_calls,
    {
        self.fetch_calls
    }

    /// How often a user was created.
    pub fn create_call_count(&self) -> (count: usize)
        ensures
            count == self@.create_calls.len(),
    {
        self.create_calls.len()
    }

    /// The name that the `index`-th creation was called with.
    pub fn create_call(&self, index: usize) -> (name: &str)
        requires
            index < self@.create_calls.len(),
        ensures
            name@ == self@.create_calls[index as int],
    {
        self.create_calls[index].as_str()
    }

    /// Whether every programmed outcome has been handed out.
    pub fn is_exhausted(&self) -> (done: bool)
        ensures
            done == (self@.fetch_plan.len() == 0 && self@.create_plan.len() == 0),
    {
        self.fetch_plan.len() == 0 && self.create_plan.len() == 0
    }
}

impl DatabaseExecutor for MockExecutor {
    /// A fetch needs a programmed outcome.
    open spec fn can_fetch(&self) -> bool {
        self.well_formed() && self@.fetch_plan.len() > 0
    }

    /// A fetch hands out the next programmed outcome and counts the call.
    open spec fn fetched(&self, after: &Self, outcome: Result<Seq<UserView>, Seq<char>>) -> bool {
        &&& self@.fetch_plan.len() > 0
        &&& outcome == self@.fetch_plan[0]
        &&& after.well_formed()
        &&& after@ == (MockView {
            fetch_plan: self@.fetch_plan.drop_first(),
            fetch_calls: self@.fetch_calls + 1,
            ..self@
        })
    }

    /// A creation needs a programmed outcome, whatever the name.
    open spec fn can_create(&self, name: Seq<char>) -> bool {
        self.well_formed() && self@.create_plan.len() > 0
    }

    /// A creation hands out the next programmed outcome and records the name
    /// it was called with.
    open spec fn created(
        &self,
        after: &Self,
        name: Seq<char>,
        outcome: Result<Seq<char>, Seq<char>>,
    ) -> bool {
        &&& self@.create_plan.len() > 0
        &&& outcome == self@.create_plan[0]
        &&& after.well_formed()
        &&& after@ == (MockView {
            create_plan: self@.create_plan.drop_first(),
            create_calls: self@.create_calls.push(name),
            ..self@
        })
    }

    fn execute_get_users(&mut self) -> (outcome: Result<Vec<User>, StorageError>) {
        let outcome = self.fetch_plan.remove(0);
        self.fetch_calls = self.fetch_calls + 1;
        assert(self@.fetch_plan =~= old(self)@.fetch_plan.drop_first());
        outcome
    }

    fn execute_create_user(&mut self, name: String) -> (outcome: Result<String, StorageError>) {
        let outcome = self.create_plan.remove(0);
        self.create_calls.push(name);
        assert(self@.create_plan =~= old(self)@.create_plan.drop_first());
        assert(self@.create_calls =~= old(self)@.create_calls.push(name@));
        outcome
    }
}

/// A programmed outcome comes back: where `programmed` is added to an
/// executor with nothing left to hand out, the fetch that follows returns
/// exactly `programmed`, uses it up and is counted once.
pub proof fn lemma_mock_fetch_returns_programmed(
    fresh: MockExecutor,
    armed: MockExecutor,
    after: MockExecutor,
    programmed: Result<Seq<UserView>, Seq<char>>,
    outcome: Result<Seq<UserView>, Seq<char>>,
)
    requires
        fresh@.fetch_plan.len() == 0,
        armed@ == (MockView { fetch_plan: fresh@.fetch_plan.push(programmed), ..fresh@ }),
        armed.fetched(&after, outcome),
    ensures
        outcome == programmed,
        after@.fetch_plan.len() == 0,
        after@.fetch_calls == fresh@.fetch_calls + 1,
        after@.create_calls == fresh@.create_calls,
{
}

/// A creation is recorded as it was asked: where `programmed` is added to an
/// executor with nothing left to hand out, the creation that follows returns
/// exactly `programmed`, and the executor has recorded one more call, with
/// exactly the name that the caller supplied.
pub proof fn lemma_mock_create_records_name(
    fresh: MockExecutor,
    armed: MockExecutor,
    after: MockExecutor,
    programmed: Result<Seq<char>, Seq<char>>,
    name: Seq<char>,
    outcome: Result<Seq<char>, Seq<char>>,
)
    requires
        fresh@.create_plan.len() == 0,
        armed@ == (MockView { create_plan: fresh@.create_plan.push(programmed), ..fresh@ }),
        armed.created(&after, name, outcome),
    ensures
        outcome == programmed,
        after@.create_plan.len() == 0,
        after@.create_calls == fresh@.create_calls.push(name),
        after@.create_calls.len() == fresh@.create_calls.len() + 1,
        after@.create_calls.last() == name,
        after@.fetch_calls == fresh@.fetch_calls,
{
}

/// The pool that the application state holds: the real executor, or the
/// programmable one.
pub enum DbPool<R> {
    Real(R),
    Mock(MockExecutor),
}

impl<R: DatabaseExecutor> DatabaseExecutor for DbPool<R> {
    open spec fn can_fetch(&self) -> bool {
        match self {
            DbPool::Real(pool) => pool.can_fetch(),
            DbPool::Mock(mock) => mock.can_fetch(),
        }
    }

    /// The outcome is one of the executor inside; the variant stays.
    open spec fn fetched(&self, after: &Self, outcome: Result<Seq<UserView>, Seq<char>>) -> bool {
        match (self, after) {
            (DbPool::Real(pool), DbPool::Real(next)) => pool.fetched(next, outcome),
            (DbPool::Mock(mock), DbPool::Mock(next)) => mock.fetched(next, outcome),
            _ => false,
        }
    }

    open spec fn can_create(&self, name: Seq<char>) -> bool {
        match self {
            DbPool::Real(pool) => pool.can_create(name),
            DbPool::Mock(mock) => mock.can_create(name),
        }
    }

    /// The outcome is one of the executor inside; the variant stays.
    open spec fn created(
        &self,
        after: &Self,
        name: Seq<char>,
        outcome: Result<Seq<char>, Seq<char>>,
    ) -> bool {
        match (self, after) {
            (DbPool::Real(pool), DbPool::Real(next)) => pool.created(next, name, outcome),
            (DbPool::Mock(mock), DbPool::Mock(next)) => mock.created(next, name, outcome),
            _ => false,
        }
    }

    fn execute_get_users(&mut self) -> (outcome: Result<Vec<User>, StorageError>) {
        match self {
            DbPool::Real(pool) => pool.execute_get_users(),
            DbPool::Mock(mock) => mock.execute_get_users(),
        }
    }

    fn execute_create_user(&mut self, name: String) -> (outcome: Result<String, StorageError>) {
        match self {
            DbPool::Real(pool) => pool.execute_create_user(name),
            DbPool::Mock(mock) => mock.execute_create_user(name),
        }
    }
}

/// Fetches all users through the executor of the application state.
pub fn get_users_db_call<E: DatabaseExecutor>(state: &mut AppState<E>) -> (outcome: Result<
    Vec<User>,
    StorageError,
>)
    requires
        old(state).db_pool.can_fetch(),
    ensures
        old(state).db_pool.fetched(&final(state).db_pool, fetch_view(outcome)),
{
    state.db_pool.execute_get_users()
}

/// Creates a user through the executor of the application state, which is
/// called with exactly `name`. The name is not empty.
pub fn create_user_db_call<E: DatabaseExecutor>(state: &mut AppState<E>, name: String) -> (outcome:
    Result<String, StorageError>)
    requires
        name@.len() > 0,
        old(state).db_pool.can_create(name@),
    ensures
        old(state).db_pool.created(&final(state).db_pool, name@, create_view(outcome)),
{
    state.db_pool.execute_create_user(name)
}

/// The confirmation that a successful creation returns.
pub fn confirmation() -> (token: String)
    ensures
        token@ == "OK"@,
{
    String::from_str("OK")
}

/// The statement that lists the users.
pub fn users_statement() -> (statement: String)
    ensures
        statement@ == "CALL sp_Return_USERS();"@,
{
    String::from_str("CALL sp_Return_USERS();")
}

/// The text of the statement that inserts a user named `name`.
pub open spec fn insert_statement_of(name: Seq<char>) -> Seq<char> {
    "CALL sp_Insert_User(\""@ + name + "\")"@
}

/// The statement that inserts a user named `name`.
pub fn insert_statement(name: &str) -> (statement: String)
    ensures
        statement@ == insert_statement_of(name@),
{
    let mut statement = String::from_str("CALL sp_Insert_User(\"");
    statement.append(name);
    statement.append("\")");
    statement
}

} // verus!
