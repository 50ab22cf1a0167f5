//! The scraper process configuration.
//!
//! One scrape job targets one symbol in one session at one timeframe,
//! writing under an output directory.  The values come from the
//! process environment; loading them is the embedding program's job,
//! and the library only carries them.

use vstd::prelude::*;

verus! {

/// One scrape job's settings.
#[derive(Debug, Clone)]
pub struct Config {
    pub auth_token: String,
    pub output_dir: String,
    pub symbol: String,
    pub session: String,
    pub timeframe: String,
}

/// The view of a [`Config`].
pub struct ConfigSettingsV {
    pub auth_token: Seq<char>,
    pub output_dir: Seq<char>,
    pub symbol: Seq<char>,
    pub session: Seq<char>,
    pub timeframe: Seq<char>,
}

impl View for Config {
    type V = ConfigSettingsV;

    open spec fn view(&self) -> ConfigSettingsV {
        ConfigSettingsV {
            auth_token: self.auth_token@,
            output_dir: self.output_dir@,
            symbol: self.symbol@,
            session: self.session@,
            timeframe: self.timeframe@,
        }
    }
}

} // verus!
