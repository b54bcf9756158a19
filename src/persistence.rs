//! Where configuration and results live, and how the results history is
//! rotated. Reading and writing the files is the caller's part.

use vstd::prelude::*;
use vstd::string::*;
use crate::error::{DIOrbError, Result};

verus! {

/// Name of the application's directory.
pub const APP_NAME: &'static str = "diorb";

/// Name of the configuration file.
pub const CONFIG_FILE: &'static str = "diorb.toml";

/// Name of the results file.
pub const RESULTS_FILE: &'static str = "results.json";

/// At most this many results are kept.
pub const MAX_RESULTS_HISTORY: usize = 100;

/// Relies on `dirs::data_dir`: the user's data directory, where the
/// platform has one. It depends on the environment; nothing is known of it.
#[verifier::external_body]
fn data_dir_text() -> (r: Option<String>) {
    dirs::data_dir().map(|p| p.to_string_lossy().into_owned())
}

/// Relies on `dirs::config_dir`: the user's configuration directory, where
/// the platform has one. It depends on the environment; nothing is known of it.
#[verifier::external_body]
fn config_dir_text() -> (r: Option<String>) {
    dirs::config_dir().map(|p| p.to_string_lossy().into_owned())
}

/// Relies on `std::path::Path::join`: `name` appended to `base` with the
/// platform's separator. The separator differs between platforms; nothing
/// is stated of the result.
#[verifier::external_body]
fn path_join(base: &str, name: &str) -> (r: String) {
    std::path::Path::new(base).join(name).to_string_lossy().into_owned()
}

/// The last `count` items of `s`, or all of them where there are fewer.
pub open spec fn last_n<T>(s: Seq<T>, count: nat) -> Seq<T> {
    if s.len() <= count {
        s
    } else {
        s.subrange(s.len() - count, s.len() as int)
    }
}

/// The last `count` items, in order.
pub fn keep_last<T>(items: Vec<T>, count: usize) -> (r: Vec<T>)
    ensures
        r@ == last_n(items@, count as nat),
{
    let n = items.len();
    if n <= count {
        return items;
    }
    let skip = n - count;
    let mut rest = items;
    let mut out: Vec<T> = Vec::new();
    let mut i: usize = 0;
    let ghost all = rest@;
    while i < n
        invariant
            n == all.len(),
            skip == n - count,
            i <= n,
            rest@ == all.subrange(i as int, n as int),
            i <= skip ==> out@.len() == 0,
            i > skip ==> out@ == all.subrange(skip as int, i as int),
        decreases n - i,
    {
        let item = rest.remove(0);
        if i >= skip {
            out.push(item);
        }
        i = i + 1;
        assert(rest@ =~= all.subrange(i as int, n as int));
        if i > skip {
            assert(out@ =~= all.subrange(skip as int, i as int));
        }
    }
    out
}

/// The results after appending one: the new one is kept, and only the
/// most recent `MAX_RESULTS_HISTORY` remain.
pub fn rotate_results<T>(results: Vec<T>, result: T) -> (r: Vec<T>)
    ensures
        r@ == last_n(results@.push(result), MAX_RESULTS_HISTORY as nat),
{
    let mut all = results;
    all.push(result);
    keep_last(all, MAX_RESULTS_HISTORY)
}

/// Results storage manager: the location of the results file.
#[derive(Debug)]
pub struct ResultsStorage {
    results_path: String,
}

impl ResultsStorage {
    /// The results file's path.
    pub closed spec fn path_spec(&self) -> Seq<char> {
        self.results_path@
    }

    /// A storage manager for the results file under the user's data
    /// directory; where there is none, that is a configuration error.
    pub fn new() -> (r: Result<Self>)
        ensures
            r is Err ==> r->Err_0 is ConfigError,
    {
        match Self::results_file_path() {
            Ok(path) => Ok(ResultsStorage { results_path: path }),
            Err(e) => Err(e),
        }
    }

    /// A storage manager for the results file at `path`.
    pub fn at_path(path: String) -> (r: Self)
        ensures
            r.path_spec() == path@,
    {
        ResultsStorage { results_path: path }
    }

    /// The standard results file path: `diorb/results.json` under the user's
    /// data directory.
    pub fn results_file_path() -> (r: Result<String>)
        ensures
            r is Err ==> r->Err_0 is ConfigError,
    {
        Self::results_path_under(data_dir_text())
    }

    /// The results file path under a data directory, if one was found.
    pub fn results_path_under(data_dir: Option<String>) -> (r: Result<String>)
        ensures
            r is Ok <==> data_dir is Some,
            r is Err ==> r->Err_0 is ConfigError,
    {
        match data_dir {
            Some(dir) => {
                let app_dir = path_join(dir.as_str(), APP_NAME);
                Ok(path_join(app_dir.as_str(), RESULTS_FILE))
            },
            None => Err(
                DIOrbError::ConfigError(String::from_str("Unable to determine data directory")),
            ),
        }
    }

    /// Get results file path for external access
    pub fn get_results_path(&self) -> (r: &str)
        ensures
            r@ == self.path_spec(),
    {
        self.results_path.as_str()
    }

    /// The most recent `count` of the loaded results, in order.
    pub fn recent_results<T>(&self, results: Vec<T>, count: usize) -> (r: Vec<T>)
        ensures
            r@ == last_n(results@, count as nat),
    {
        keep_last(results, count)
    }
}

/// The configuration file path under a configuration directory, if one was
/// found: `diorb/diorb.toml` beneath it.
pub fn config_path_under(config_dir: Option<String>) -> (r: Result<String>)
    ensures
        r is Ok <==> config_dir is Some,
        r is Err ==> r->Err_0 is ConfigError,
{
    match config_dir {
        Some(dir) => {
            let app_dir = path_join(dir.as_str(), APP_NAME);
            Ok(path_join(app_dir.as_str(), CONFIG_FILE))
        },
        None => Err(
            DIOrbError::ConfigError(String::from_str("Unable to determine config directory")),
        ),
    }
}

/// The standard configuration file path.
pub fn config_file_path() -> (r: Result<String>)
    ensures
        r is Err ==> r->Err_0 is ConfigError,
{
    config_path_under(config_dir_text())
}

/// Configuration manager: where the configuration lives, and the results storage.
pub struct ConfigManager {
    config_path: String,
    results_manager: ResultsStorage,
}

impl ConfigManager {
    /// The configuration file's path.
    pub closed spec fn config_path_spec(&self) -> Seq<char> {
        self.config_path@
    }

    /// The results file's path.
    pub closed spec fn results_path_spec(&self) -> Seq<char> {
        self.results_manager.path_spec()
    }

    /// A configuration manager for the standard locations; where either
    /// directory cannot be found, that is a configuration error.
    pub fn new() -> (r: Result<Self>)
        ensures
            r is Err ==> r->Err_0 is ConfigError,
    {
        let config_path = match config_file_path() {
            Ok(p) => p,
            Err(e) => {
                return Err(e);
            },
        };
        let results_manager = match ResultsStorage::new() {
            Ok(m) => m,
            Err(e) => {
                return Err(e);
            },
        };
        Ok(ConfigManager { config_path, results_manager })
    }

    /// The configuration file's path.
    pub fn config_path(&self) -> (r: &str)
        ensures
            r@ == self.config_path_spec(),
    {
        self.config_path.as_str()
    }

    /// The results storage.
    pub fn results(&self) -> (r: &ResultsStorage)
        ensures
            r.path_spec() == self.results_path_spec(),
    {
        &self.results_manager
    }
}

} // verus!
