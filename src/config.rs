//! Application settings.
use vstd::prelude::*;

verus! {

#[derive(Debug)]
pub struct Config {
    pub feature_flags: FeatureFlags,
}

#[derive(Debug)]
pub struct FeatureFlags {
    pub update_db_when_startup: bool,
    pub language: String,
}

/// Settings used when none were saved: no refresh at startup, Japanese.
pub fn default_config() -> (r: Config)
    ensures
        !r.feature_flags.update_db_when_startup,
        r.feature_flags.language@ == "ja"@,
{
    Config {
        feature_flags: FeatureFlags { update_db_when_startup: false, language: String::from_str("ja") },
    }
}

} // verus!
