use vstd::prelude::*;
use crate::decimal::{decimal_of, format_u16};

verus! {

/// Server settings.
#[derive(Clone, Debug, Default)]
pub struct Config {
    pub assets: ConfigAssets,
    pub database: ConfigDatabase,
    pub network: ConfigNetwork,
}

/// Where assets are looked up; the local data directory when `path` is absent.
#[derive(Clone, Debug, Default)]
pub struct ConfigAssets {
    pub path: Option<String>,
}

/// Where the database file lives.
#[derive(Clone, Debug, Default)]
pub struct ConfigDatabase {
    pub path: String,
}

/// The address the server listens on.
#[derive(Clone, Debug, Default)]
pub struct ConfigNetwork {
    pub ip: String,
    pub port: u16,
}

impl Config {
    /// Settings for tests: no asset directory, a local database file and
    /// the loopback address on port 8080.
    pub fn getTestConfig() -> (r: Config)
        ensures
            r.assets.path is None,
            r.database.path@ == "testData.sqlite"@,
            r.network.ip@ == "127.0.0.1"@,
            r.network.port == 8080,
    {
        Config {
            assets: ConfigAssets { path: None },
            database: ConfigDatabase { path: String::from_str("testData.sqlite") },
            network: ConfigNetwork { ip: String::from_str("127.0.0.1"), port: 8080 },
        }
    }
}

impl ConfigNetwork {
    /// The address in the form `<ip>:<port>`.
    pub fn fullAddress(&self) -> (r: String)
        ensures
            r@ == self.ip@ + ":"@ + decimal_of(self.port as int),
    {
        let mut s = self.ip.clone();
        s.append(":");
        let port = format_u16(self.port);
        s.append(port.as_str());
        s
    }
}

} // verus!
