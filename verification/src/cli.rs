//! What the program is told on its command line.

use crate::db::DbConfig;
use crate::dev::fake::users::FakeUserInitConfig;
use crate::web::ServeConfig;
use vstd::prelude::*;

verus! {

/// The whole configuration: the store, the server and the simulated users.
#[derive(Debug)]
pub struct CliConfig {
    pub db: DbConfig,
    pub serve: ServeConfig,
    pub fake: FakeUserInitConfig,
}

impl Default for CliConfig {
    fn default() -> (config: Self)
        ensures
            config.serve.port == 0,
            config.fake.fake_count == 0,
    {
        CliConfig {
            db: DbConfig::default(),
            serve: ServeConfig::default(),
            fake: FakeUserInitConfig::default(),
        }
    }
}

} // verus!
