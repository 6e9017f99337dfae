//! Settings from the configuration file.
//!
//! The file holds lines of `key=value`. Each setting stands in for the
//! environment variable of that name, in upper case, unless the environment
//! has that variable already: the environment wins. Nothing here reads the
//! file or the environment; the caller hands in what it found there and gets
//! back what to do with each line.

use vstd::prelude::*;
use vstd::string::*;
use crate::text::{same_text, texts};

verus! {

/// The name of the configuration file.
pub const CONFIG_FILE: &'static str = "tv-power.conf";

/// The byte that parts the components of a path: a slash.
pub const SEPARATOR: u8 = 0x2f;

/// A path with one more component: `name` itself where that starts at the
/// root, and else `base`, a slash unless `base` is empty or ends in one, and
/// `name`. Paths are the bytes that the system knows them by.
pub open spec fn joined(base: Seq<u8>, name: Seq<u8>) -> Seq<u8> {
    if name.len() > 0 && name[0] == SEPARATOR {
        name
    } else if base.len() == 0 || base.last() == SEPARATOR {
        base + name
    } else {
        base + seq![SEPARATOR] + name
    }
}

/// Appends `bytes` to `path`.
fn push_bytes(path: &mut Vec<u8>, bytes: &[u8])
    ensures
        final(path)@ == old(path)@ + bytes@,
{
    let n: usize = bytes.len();
    let mut i: usize = 0;
    while i < n
        invariant
            n == bytes@.len(),
            i <= n,
            path@ == old(path)@ + bytes@.take(i as int),
        decreases n - i,
    {
        path.push(bytes[i]);
        assert(bytes@.take(i + 1) =~= bytes@.take(i as int).push(bytes@[i as int]));
        i += 1;
    }
    assert(bytes@.take(n as int) =~= bytes@);
}

/// Adds the component `name` to the path `base`.
pub fn join(base: &[u8], name: &[u8]) -> (path: Vec<u8>)
    ensures
        path@ == joined(base@, name@),
{
    let mut path: Vec<u8> = Vec::new();
    if name.len() > 0 && name[0] == SEPARATOR {
        push_bytes(&mut path, name);
        return path;
    }
    push_bytes(&mut path, base);
    let base_len: usize = base.len();
    if base_len > 0 && base[base_len - 1] != SEPARATOR {
        path.push(SEPARATOR);
    }
    push_bytes(&mut path, name);
    path
}

/// The directory that holds the configuration of the program called
/// `program_name`: a directory of that name in the directory for
/// configuration files, which is `xdg_config_dir` where that is given and
/// else `.config` in `home`.
pub open spec fn spec_config_dir(
    xdg_config_dir: Option<Seq<u8>>,
    home: Option<Seq<u8>>,
    program_name: Seq<u8>,
) -> Seq<u8> {
    match xdg_config_dir {
        Some(dir) => joined(dir, program_name),
        None => joined(joined(home->0, ".config".spec_bytes()), program_name),
    }
}

/// The bytes of an optional path.
pub open spec fn bytes_of(path: Option<&[u8]>) -> Option<Seq<u8>> {
    match path {
        Some(path) => Some(path@),
        None => None,
    }
}

/// Finds the directory that holds the program's configuration. One of the
/// two directories must be known.
pub fn config_dir(xdg_config_dir: Option<&[u8]>, home: Option<&[u8]>, program_name: &str) -> (dir:
    Vec<u8>)
    requires
        xdg_config_dir is Some || home is Some,
    ensures
        dir@ == spec_config_dir(
            bytes_of(xdg_config_dir),
            bytes_of(home),
            program_name.spec_bytes(),
        ),
{
    match xdg_config_dir {
        Some(dir) => join(dir, program_name.as_bytes()),
        None => {
            let base = join(home.unwrap(), ".config".as_bytes());
            join(base.as_slice(), program_name.as_bytes())
        },
    }
}

/// Finds the program's configuration file: [`CONFIG_FILE`] in the directory
/// that holds the program's configuration.
pub fn config_file(xdg_config_dir: Option<&[u8]>, home: Option<&[u8]>, program_name: &str) -> (file:
    Vec<u8>)
    requires
        xdg_config_dir is Some || home is Some,
    ensures
        file@ == joined(
            spec_config_dir(bytes_of(xdg_config_dir), bytes_of(home), program_name.spec_bytes()),
            CONFIG_FILE.spec_bytes(),
        ),
{
    let dir = config_dir(xdg_config_dir, home, program_name);
    join(dir.as_slice(), CONFIG_FILE.as_bytes())
}

/// What to do with a line of the configuration file.
#[derive(Debug, Clone, Copy, PartialEq, Eq)]
pub enum Decision {
    /// The key is none that the program knows: leave the line out.
    Unexpected,
    /// The variable is set already, in the environment or by an earlier
    /// line: leave the line out.
    Kept,
    /// Set the variable to the line's value.
    Apply,
}

/// A line of the configuration file, decided: the name of the variable that
/// it is about, which is its key in upper case, and what to do.
#[derive(Debug, PartialEq, Eq)]
pub struct Override {
    pub key: String,
    pub decision: Decision,
}

/// Whether the key of line `i` is also the key of an earlier line.
pub open spec fn seen_before(keys: Seq<Seq<char>>, i: int) -> bool {
    keys.take(i).contains(keys[i])
}

/// What to do with line `i`, where `keys` are the keys of the lines in upper
/// case, `expected` the variables that the program knows, and `environment`
/// the variables that are set.
pub open spec fn decision_at(
    keys: Seq<Seq<char>>,
    expected: Seq<Seq<char>>,
    environment: Seq<Seq<char>>,
    i: int,
) -> Decision {
    if !expected.contains(keys[i]) {
        Decision::Unexpected
    } else if environment.contains(keys[i]) || seen_before(keys, i) {
        Decision::Kept
    } else {
        Decision::Apply
    }
}

/// Whether `key` is one of the first `n` of `list`.
fn among(list: &Vec<String>, n: usize, key: &str) -> (found: bool)
    requires
        n <= list@.len(),
    ensures
        found == texts(list@).take(n as int).contains(key@),
{
    let mut i: usize = 0;
    while i < n
        invariant
            n <= list@.len(),
            i <= n,
            forall|j: int| 0 <= j < i ==> (#[trigger] texts(list@)[j]) != key@,
        decreases n - i,
    {
        if same_text(list[i].as_str(), key) {
            assert(texts(list@).take(n as int)[i as int] == key@);
            return true;
        }
        i += 1;
    }
    false
}

/// Decides every line of the configuration file, given the keys of the lines
/// in upper case, the variables that the program knows and the variables that
/// are set.
pub fn plan_overrides(keys: &Vec<String>, expected: &Vec<String>, environment: &Vec<String>) -> (plan:
    Vec<Decision>)
    ensures
        plan@.len() == keys@.len(),
        forall|i: int|
            0 <= i < keys@.len() ==> #[trigger] plan@[i] == decision_at(
                texts(keys@),
                texts(expected@),
                texts(environment@),
                i,
            ),
{
    let mut plan: Vec<Decision> = Vec::new();
    let n: usize = keys.len();
    let mut i: usize = 0;
    while i < n
        invariant
            n == keys@.len(),
            i <= n,
            plan@.len() == i,
            forall|j: int|
                0 <= j < i ==> #[trigger] plan@[j] == decision_at(
                    texts(keys@),
                    texts(expected@),
                    texts(environment@),
                    j,
                ),
        decreases n - i,
    {
        let key = keys[i].as_str();
        assert(texts(expected@).take(expected@.len() as int) =~= texts(expected@));
        assert(texts(environment@).take(environment@.len() as int) =~= texts(environment@));
        let decision = if !among(expected, expected.len(), key) {
            Decision::Unexpected
        } else if among(environment, environment.len(), key) {
            Decision::Kept
        } else if among(keys, i, key) {
            Decision::Kept
        } else {
            Decision::Apply
        };
        plan.push(decision);
        i += 1;
    }
    plan
}

/// The text in upper case.
pub uninterp spec fn uppercase(text: Seq<char>) -> Seq<char>;

/// `str::to_uppercase`: the text with every character in upper case, which
/// is what [`uppercase`] names.
#[verifier::external_body]
fn to_uppercase(text: &str) -> (upper: String)
    ensures
        upper@ == uppercase(text@),
{
    text.to_uppercase()
}

/// The keys of the lines in upper case.
pub fn config_keys(vars: &Vec<(String, String)>) -> (keys: Vec<String>)
    ensures
        keys@.len() == vars@.len(),
        forall|i: int| 0 <= i < vars@.len() ==> (#[trigger] keys@[i])@ == uppercase(vars@[i].0@),
{
    let mut keys: Vec<String> = Vec::new();
    let n: usize = vars.len();
    let mut i: usize = 0;
    while i < n
        invariant
            n == vars@.len(),
            i <= n,
            keys@.len() == i,
            forall|j: int| 0 <= j < i ==> (#[trigger] keys@[j])@ == uppercase(vars@[j].0@),
        decreases n - i,
    {
        keys.push(to_uppercase(vars[i].0.as_str()));
        i += 1;
    }
    keys
}

/// The keys of the lines of a configuration file, in upper case.
pub open spec fn upper_keys(vars: Seq<(String, String)>) -> Seq<Seq<char>> {
    Seq::new(vars.len(), |i: int| uppercase(vars[i].0@))
}

/// Decides what the configuration file changes. `vars` are its lines, as
/// keys and values in the order of the file, `expected_vars` the variables
/// that the program knows, and `environment` the variables that are set.
/// There is one decision for each line, in their order: the variable is the
/// key in upper case, and it is to be set where the program knows it, the
/// environment does not have it, and no earlier line is about it.
pub fn apply_env_overrides(
    vars: &Vec<(String, String)>,
    expected_vars: &Vec<String>,
    environment: &Vec<String>,
) -> (overrides: Vec<Override>)
    ensures
        overrides@.len() == vars@.len(),
        forall|i: int|
            0 <= i < vars@.len() ==> {
                &&& (#[trigger] overrides@[i]).key@ == upper_keys(vars@)[i]
                &&& overrides@[i].decision == decision_at(
                    upper_keys(vars@),
                    texts(expected_vars@),
                    texts(environment@),
                    i,
                )
            },
{
    let keys = config_keys(vars);
    assert(texts(keys@) =~= upper_keys(vars@));
    let plan = plan_overrides(&keys, expected_vars, environment);
    let mut overrides: Vec<Override> = Vec::new();
    let n: usize = keys.len();
    let mut i: usize = 0;
    while i < n
        invariant
            n == keys@.len(),
            n == plan@.len(),
            i <= n,
            overrides@.len() == i,
            forall|j: int|
                0 <= j < i ==> (#[trigger] overrides@[j]).key == keys@[j] && overrides@[j].decision
                    == plan@[j],
        decreases n - i,
    {
        overrides.push(Override { key: keys[i].clone(), decision: plan[i] });
        i += 1;
    }
    overrides
}

} // verus!
