//! The desktop application's own settings.

use vstd::prelude::*;

verus! {

/// Where the server executable is installed and which port the API serves on.
#[derive(Clone, Debug)]
pub struct AppConfig {
    pub reforger_path: Option<String>,
    pub api_port: u16,
}

impl Default for AppConfig {
    fn default() -> (r: Self)
        ensures
            r.reforger_path is None,
            r.api_port == 10625,
    {
        AppConfig { reforger_path: None, api_port: 10625 }
    }
}

} // verus!
