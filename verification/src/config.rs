//! The typed configuration handed to the core at construction: storage
//! location, encryption switch, exclusion set, and intervals.

use vstd::prelude::*;
use vstd::string::StringExecFns;

verus! {

/// Configuration of the capture-and-persistence pipeline.  Paths are
/// plain strings; the surrounding application resolves them against
/// the platform's data directory.
#[derive(Debug)]
pub struct Config {
    pub data_dir: String,
    pub database_path: String,
    pub encryption_enabled: bool,
    pub exclude_apps: Vec<String>,
    pub idle_timeout_seconds: u64,
    pub flush_interval_seconds: u64,
}

/// The exclusion set as a sequence of character sequences.
pub open spec fn spec_excludes(apps: Seq<String>) -> Seq<Seq<char>> {
    Seq::new(apps.len(), |i: int| apps[i]@)
}

/// The default exclusion set: common password managers.
pub open spec fn spec_default_excludes() -> Seq<Seq<char>> {
    seq!["1Password"@, "Bitwarden"@, "KeePass"@]
}

/// Whether an exclusion set holds this process name, by exact string
/// equality.
pub open spec fn spec_excludes_contain(excludes: Seq<Seq<char>>, name: Seq<char>) -> bool {
    exists|i: int| 0 <= i < excludes.len() && excludes[i] == name
}

/// The default field values, as `Config::default` establishes them.
pub open spec fn spec_is_default(c: Config) -> bool {
    &&& c.data_dir@ == "selfspy"@
    &&& c.database_path@ == "selfspy/selfspy.db"@
    &&& c.encryption_enabled
    &&& spec_excludes(c.exclude_apps@) == spec_default_excludes()
    &&& c.idle_timeout_seconds == 180
    &&& c.flush_interval_seconds == 10
}

/// Two configurations that agree on every observable field value.
pub open spec fn config_like(a: Config, b: Config) -> bool {
    &&& a.data_dir@ == b.data_dir@
    &&& a.database_path@ == b.database_path@
    &&& a.encryption_enabled == b.encryption_enabled
    &&& spec_excludes(a.exclude_apps@) == spec_excludes(b.exclude_apps@)
    &&& a.idle_timeout_seconds == b.idle_timeout_seconds
    &&& a.flush_interval_seconds == b.flush_interval_seconds
}

/// Copy a name list, keeping every name's characters.
pub fn clone_names(names: &Vec<String>) -> (r: Vec<String>)
    ensures
        spec_excludes(r@) == spec_excludes(names@),
{
    let n = names.len();
    let mut r: Vec<String> = Vec::new();
    let mut i: usize = 0;
    while i < n
        invariant
            n == names@.len(),
            i <= n,
            r@.len() == i,
            forall|j: int| 0 <= j < i ==> (#[trigger] r@[j])@ == names@[j]@,
        decreases n - i,
    {
        r.push(names[i].clone());
        i += 1;
    }
    proof {
        assert(spec_excludes(r@) =~= spec_excludes(names@));
    }
    r
}

impl Clone for Config {
    /// A copy that agrees on every observable field value.
    fn clone(&self) -> (r: Config)
        ensures
            config_like(r, *self),
    {
        Config {
            data_dir: self.data_dir.clone(),
            database_path: self.database_path.clone(),
            encryption_enabled: self.encryption_enabled,
            exclude_apps: clone_names(&self.exclude_apps),
            idle_timeout_seconds: self.idle_timeout_seconds,
            flush_interval_seconds: self.flush_interval_seconds,
        }
    }
}

impl Default for Config {
    /// The default configuration: a relative data directory, the
    /// database file inside it, encryption on, the password managers
    /// excluded, a three-minute idle timeout and a ten-second flush
    /// interval.
    fn default() -> (r: Config)
        ensures
            r.data_dir@ == "selfspy"@,
            r.database_path@ == "selfspy/selfspy.db"@,
            r.encryption_enabled,
            spec_excludes(r.exclude_apps@) == spec_default_excludes(),
            r.idle_timeout_seconds == 180,
            r.flush_interval_seconds == 10,
    {
        let mut exclude_apps: Vec<String> = Vec::new();
        exclude_apps.push("1Password".to_owned());
        exclude_apps.push("Bitwarden".to_owned());
        exclude_apps.push("KeePass".to_owned());
        proof {
            assert(spec_excludes(exclude_apps@) =~= spec_default_excludes());
        }
        Config {
            data_dir: "selfspy".to_owned(),
            database_path: "selfspy/selfspy.db".to_owned(),
            encryption_enabled: true,
            exclude_apps,
            idle_timeout_seconds: 180,
            flush_interval_seconds: 10,
        }
    }
}

impl Config {
    /// The default configuration.
    pub fn new() -> (r: Config)
        ensures
            r.data_dir@ == "selfspy"@,
            r.database_path@ == "selfspy/selfspy.db"@,
            r.encryption_enabled,
            spec_excludes(r.exclude_apps@) == spec_default_excludes(),
            r.idle_timeout_seconds == 180,
            r.flush_interval_seconds == 10,
    {
        Config::default()
    }

    /// The same configuration with the data directory replaced and the
    /// database file placed inside it.
    pub fn with_data_dir(self, dir: String) -> (r: Config)
        ensures
            r.data_dir@ == dir@,
            r.database_path@ == dir@ + "/selfspy.db"@,
            r.encryption_enabled == self.encryption_enabled,
            r.exclude_apps == self.exclude_apps,
            r.idle_timeout_seconds == self.idle_timeout_seconds,
            r.flush_interval_seconds == self.flush_interval_seconds,
    {
        let database_path = dir.clone().concat("/selfspy.db");
        Config { data_dir: dir, database_path, ..self }
    }

    /// Whether this process name is in the exclusion set, by exact
    /// string equality.
    pub fn is_excluded(&self, name: &String) -> (r: bool)
        ensures
            r == spec_excludes_contain(spec_excludes(self.exclude_apps@), name@),
    {
        let n = self.exclude_apps.len();
        let mut i: usize = 0;
        while i < n
            invariant
                n == self.exclude_apps.len(),
                i <= n,
                forall|j: int| 0 <= j < i ==> (#[trigger] self.exclude_apps@[j])@ != name@,
            decreases n - i,
        {
            if self.exclude_apps[i].eq(name) {
                proof {
                    assert(spec_excludes(self.exclude_apps@)[i as int] == name@);
                }
                return true;
            }
            i += 1;
        }
        false
    }
}

} // verus!
