//! Simulated users and the text they write.

use self::users::FakeUserInitConfig;
use vstd::prelude::*;

pub mod text;
pub mod user;
pub mod users;

verus! {

/// How everything that is made up is set up.
#[derive(Debug, Clone, Copy, PartialEq, Eq, Structural)]
pub struct FakeConfig {
    pub user: FakeUserInitConfig,
}

impl Default for FakeConfig {
    fn default() -> (config: Self)
        ensures
            config.user.fake_count == 0,
            config.user.ff_ticks == 0,
            !config.user.dont_start_runtime,
    {
        FakeConfig { user: FakeUserInitConfig::default() }
    }
}

} // verus!
