//! The service's configuration and the rule it must meet before start-up.

use vstd::prelude::*;
use vstd::string::*;

verus! {

/// Where the service listens and which domain it answers for.
pub struct ServerConfig {
    pub domain: String,
    pub listen_addr: String,
    pub log_dir: String,
}

/// One user and the connection descriptors of the user's wallets.
pub struct UserConfig {
    pub name: String,
    pub nwcs: Vec<String>,
}

/// The whole configuration.
pub struct Config {
    pub server: ServerConfig,
    pub users: Vec<UserConfig>,
}

/// Why a configuration cannot be used.
#[derive(Debug)]
pub enum ConfigError {
    /// The named user has no wallet connection.
    NoBackend { user: String },
    /// A connection descriptor was refused, for the given reason.
    InvalidUri { reason: String },
}

impl ConfigError {
    /// The message of the error.
    pub open spec fn text(&self) -> Seq<char> {
        match self {
            ConfigError::NoBackend { user } => "user "@ + user@ + " has no NWC configured"@,
            ConfigError::InvalidUri { reason } => reason@,
        }
    }

    /// The message of the error, as a string.
    pub fn to_string(&self) -> (s: String)
        ensures
            s@ == self.text(),
    {
        match self {
            ConfigError::NoBackend { user } => {
                let mut s = "user ".to_string();
                s.append(user.as_str());
                s.append(" has no NWC configured");
                s
            },
            ConfigError::InvalidUri { reason } => reason.clone(),
        }
    }
}

/// User `i` is the first one without a wallet connection.
pub open spec fn first_without_backend(users: Seq<UserConfig>, i: int) -> bool {
    &&& 0 <= i < users.len()
    &&& users[i].nwcs@.len() == 0
    &&& forall|j: int| 0 <= j < i ==> (#[trigger] users[j]).nwcs@.len() > 0
}

impl Config {
    /// Every user has at least one wallet connection.
    pub open spec fn valid(&self) -> bool {
        forall|i: int| 0 <= i < self.users@.len() ==> (#[trigger] self.users@[i]).nwcs@.len() > 0
    }

    /// Accepts the configuration exactly when every user has at least one
    /// wallet connection; otherwise names the first user who has none.
    pub fn validate(&self) -> (r: Result<(), ConfigError>)
        ensures
            r is Ok <==> self.valid(),
            r matches Err(e) ==> (e matches ConfigError::NoBackend { user } && exists|i: int|
                first_without_backend(self.users@, i) && user@ == self.users@[i].name@),
    {
        let mut i: usize = 0;
        while i < self.users.len()
            invariant
                i <= self.users@.len(),
                forall|j: int| 0 <= j < i ==> (#[trigger] self.users@[j]).nwcs@.len() > 0,
            decreases self.users@.len() - i,
        {
            let user_config = &self.users[i];
            if user_config.nwcs.is_empty() {
                assert(first_without_backend(self.users@, i as int));
                return Err(ConfigError::NoBackend { user: user_config.name.clone() });
            }
            i = i + 1;
        }
        Ok(())
    }
}

} // verus!
