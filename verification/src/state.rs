//! The state that every handler receives.

use vstd::prelude::*;

verus! {

/// The application state: the storage executor that was selected when the
/// process started. Handlers reach the store through it and never ask which
/// executor it is.
pub struct AppState<E> {
    pub db_pool: E,
}

} // verus!
