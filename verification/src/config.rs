//! Process configuration consumed by forecast callers.
//!
//! A configuration names users, each with the coordinates their forecasts
//! are fetched for, plus a database URL for the persistence collaborator.
//! Users are held as an association list looked up by identifier; the
//! lookup returns the first entry with a matching identifier.

use vstd::prelude::*;
use crate::types::latitude::Latitude;
use crate::types::longitude::Longitude;

verus! {

/// One configured user: the coordinates their forecasts are fetched for.
#[derive(Debug, Clone, Copy)]
pub struct ConfigUser {
    pub latitude: Latitude,
    pub longitude: Longitude,
}

/// One named user entry.
#[derive(Debug, Clone)]
pub struct ConfigUserEntry {
    pub user_id: String,
    pub user: ConfigUser,
}

/// Errors raised by configuration lookups.
#[derive(Debug, Clone, PartialEq, Eq)]
pub enum ConfigError {
    /// The named user does not exist in the configuration.
    UnknownUser(String),
}

/// Process configuration: the configured users and the database URL the
/// persistence collaborator connects to.
#[derive(Debug, Clone)]
pub struct Config {
    pub users: Vec<ConfigUserEntry>,
    pub db_url: String,
}

impl Config {
    /// Whether an entry with the given identifier exists.
    pub open spec fn spec_has_user(&self, user_id: Seq<char>) -> bool {
        exists|k: int| 0 <= k < self.users@.len() && #[trigger] self.users@[k].user_id@ == user_id
    }

    /// User identifiers are unique: no two entries share one.
    pub open spec fn wf(&self) -> bool {
        forall|j: int, k: int|
            0 <= j < k < self.users@.len() ==> #[trigger] self.users@[j].user_id@ != #[trigger] self.users@[k].user_id@
    }

    /// Looks up a user by identifier: the first entry whose identifier
    /// matches, or an error naming the missing identifier.
    pub fn get_user_or_err(&self, user_id: &str) -> (r: Result<&ConfigUser, ConfigError>)
        ensures
            match r {
                Ok(u) => exists|k: int|
                    {
                        &&& 0 <= k < self.users@.len()
                        &&& #[trigger] self.users@[k].user_id@ == user_id@
                        &&& *u == self.users@[k].user
                        &&& forall|j: int| 0 <= j < k ==> #[trigger] self.users@[j].user_id@ != user_id@
                    },
                Err(e) => !self.spec_has_user(user_id@) && (e
                    matches ConfigError::UnknownUser(s) && s@ == user_id@),
            },
    {
        let key = user_id.to_owned();
        let n = self.users.len();
        let mut k: usize = 0;
        while k < n
            invariant
                n == self.users@.len(),
                k <= n,
                key@ == user_id@,
                forall|j: int| 0 <= j < k as int ==> #[trigger] self.users@[j].user_id@ != user_id@,
            decreases n - k,
        {
            let entry = &self.users[k];
            if entry.user_id == key {
                return Ok(&entry.user);
            }
            k = k + 1;
        }
        Err(ConfigError::UnknownUser(key))
    }
}

} // verus!
