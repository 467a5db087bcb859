//! Launch parameters and how they are derived from raw configuration lookups.

use vstd::prelude::*;
use vstd::string::*;

verus! {

/// The character that separates key and value in an environment entry.
pub const SEPARATOR: char = '=';

/// Key and value of an environment entry: the text before and after the
/// first separator, or `None` for an entry without one.
pub open spec fn split_pair(entry: Seq<char>) -> Option<(Seq<char>, Seq<char>)> {
    match entry.index_of_first(SEPARATOR) {
        Some(i) => Some((entry.subrange(0, i), entry.subrange(i + 1, entry.len() as int))),
        None => None,
    }
}

/// Splits one `KEY=VALUE` entry on its first separator. The key holds no
/// separator; the value is all that follows the first one and may hold
/// more of them. An entry without a separator gives `None`.
pub fn split_entry(entry: &str) -> (pair: Option<(String, String)>)
    ensures
        pair.deep_view() == split_pair(entry@),
        pair is Some <==> entry@.contains(SEPARATOR),
        pair matches Some((key, value)) ==> entry@ == key@ + seq![SEPARATOR] + value@
            && !key@.contains(SEPARATOR),
{
    let n: usize = entry.unicode_len();
    let mut i: usize = 0;
    for c in it: entry.chars()
        invariant
            n == entry@.len(),
            it.seq() == entry@,
            i == it.index(),
            forall|j: int| 0 <= j < i ==> entry@[j] != SEPARATOR,
    {
        if c == SEPARATOR {
            let key = entry.substring_char(0, i).to_owned();
            let value = entry.substring_char(i + 1, n).to_owned();
            proof {
                entry@.index_of_first_ensures(SEPARATOR);
            }
            return Some((key, value));
        }
        i += 1;
    }
    proof {
        entry@.index_of_first_ensures(SEPARATOR);
    }
    None
}

/// The pairs named by a list of entries, in order; entries without a
/// separator are left out.
pub open spec fn environment_pairs(entries: Seq<Seq<char>>) -> Seq<(Seq<char>, Seq<char>)> {
    entries.filter_map(|entry: Seq<char>| split_pair(entry))
}

/// Turns the stored `KEY=VALUE` entries into pairs, keeping their order
/// and any repeated key, and dropping entries that hold no separator.
pub fn parse_environment(entries: &Vec<String>) -> (pairs: Vec<(String, String)>)
    ensures
        pairs.deep_view() == environment_pairs(entries.deep_view()),
{
    let ghost all = entries.deep_view();
    let mut pairs: Vec<(String, String)> = Vec::new();
    let mut i: usize = 0;
    while i < entries.len()
        invariant
            all == entries.deep_view(),
            i <= entries.len(),
            pairs.deep_view() == environment_pairs(all.take(i as int)),
        decreases entries.len() - i,
    {
        let found = split_entry(entries[i].as_str());
        assert(all.take(i as int + 1).drop_last() =~= all.take(i as int));
        if let Some(pair) = found {
            pairs.push(pair);
        }
        i += 1;
    }
    assert(all.take(i as int) =~= all);
    pairs
}

/// The restart flag is set by the stored value one and by nothing else.
pub open spec fn restart_requested(flag: Option<u32>) -> bool {
    flag == Some(1u32)
}

/// Reads the restart flag from its lookup: `None` stands for a value that
/// is absent or not an unsigned integer.
pub fn restart_flag(flag: Option<u32>) -> (restart: bool)
    ensures
        restart == restart_requested(flag),
{
    match flag {
        Some(value) => value == 1,
        None => false,
    }
}

/// A copy of an optional text.
pub fn copy_text(text: &Option<String>) -> (copy: Option<String>)
    ensures
        copy.deep_view() == text.deep_view(),
{
    match text {
        Some(value) => Some(value.clone()),
        None => None,
    }
}

/// A copy of a list of pairs, in the same order.
pub fn copy_pairs(pairs: &Vec<(String, String)>) -> (copy: Vec<(String, String)>)
    ensures
        copy.deep_view() == pairs.deep_view(),
{
    let mut copy: Vec<(String, String)> = Vec::new();
    let mut i: usize = 0;
    while i < pairs.len()
        invariant
            i <= pairs.len(),
            copy.deep_view() == pairs.deep_view().take(i as int),
        decreases pairs.len() - i,
    {
        let ghost before = copy.deep_view();
        let key = pairs[i].0.clone();
        let value = pairs[i].1.clone();
        copy.push((key, value));
        assert(copy.deep_view() =~= before.push(pairs.deep_view()[i as int]));
        i += 1;
    }
    copy
}

/// What the configuration store returned for each launch parameter.
/// `None` stands for a value that is absent or could not be read.
#[derive(Clone, Debug, PartialEq, Eq)]
pub struct Lookups {
    /// Path of the program to run.
    pub executable_path: Option<String>,
    /// Directory in which the program starts.
    pub working_directory: Option<String>,
    /// Arguments, as one unsplit string.
    pub argument_string: Option<String>,
    /// Environment entries, each of the form `KEY=VALUE`.
    pub environment: Option<Vec<String>>,
    /// Restart flag, as the stored unsigned integer.
    pub restart_on_exit: Option<u32>,
}

/// Mathematical content of [`Lookups`].
pub struct LookupsView {
    pub executable_path: Option<Seq<char>>,
    pub working_directory: Option<Seq<char>>,
    pub argument_string: Option<Seq<char>>,
    pub environment: Option<Seq<Seq<char>>>,
    pub restart_on_exit: Option<u32>,
}

impl View for Lookups {
    type V = LookupsView;

    open spec fn view(&self) -> LookupsView {
        LookupsView {
            executable_path: self.executable_path.deep_view(),
            working_directory: self.working_directory.deep_view(),
            argument_string: self.argument_string.deep_view(),
            environment: self.environment.deep_view(),
            restart_on_exit: self.restart_on_exit,
        }
    }
}

/// Why no launch configuration could be derived.
#[derive(Clone, Copy, Debug, PartialEq, Eq, Structural)]
pub enum ConfigError {
    /// The path of the program is absent, unreadable or empty.
    Missing,
}

/// How to start the child process. Fixed once loaded.
#[derive(Debug, PartialEq, Eq)]
pub struct LaunchConfig {
    executable_path: String,
    working_directory: Option<String>,
    argument_string: Option<String>,
    environment_overrides: Option<Vec<(String, String)>>,
    restart_on_exit: bool,
}

/// Mathematical content of a [`LaunchConfig`].
pub struct LaunchConfigView {
    pub executable_path: Seq<char>,
    pub working_directory: Option<Seq<char>>,
    pub argument_string: Option<Seq<char>>,
    pub environment_overrides: Option<Seq<(Seq<char>, Seq<char>)>>,
    pub restart_on_exit: bool,
}

impl LaunchConfigView {
    /// A configuration always names a program.
    pub open spec fn wf(self) -> bool {
        self.executable_path.len() > 0
    }
}

/// The configuration that a set of lookups stands for. A program path
/// is required; every other parameter may be absent. An absent
/// environment stays absent, which is not the same as an empty one.
pub open spec fn resolve(lookups: LookupsView) -> Result<LaunchConfigView, ConfigError> {
    match lookups.executable_path {
        Some(path) => if path.len() > 0 {
            Ok(
                LaunchConfigView {
                    executable_path: path,
                    working_directory: lookups.working_directory,
                    argument_string: lookups.argument_string,
                    environment_overrides: match lookups.environment {
                        Some(entries) => Some(environment_pairs(entries)),
                        None => None,
                    },
                    restart_on_exit: restart_requested(lookups.restart_on_exit),
                },
            )
        } else {
            Err(ConfigError::Missing)
        },
        None => Err(ConfigError::Missing),
    }
}

/// Mathematical content of the outcome of loading.
pub open spec fn outcome_view(outcome: Result<LaunchConfig, ConfigError>) -> Result<
    LaunchConfigView,
    ConfigError,
> {
    match outcome {
        Ok(config) => Ok(config@),
        Err(error) => Err(error),
    }
}

impl View for LaunchConfig {
    type V = LaunchConfigView;

    closed spec fn view(&self) -> LaunchConfigView {
        LaunchConfigView {
            executable_path: self.executable_path@,
            working_directory: self.working_directory.deep_view(),
            argument_string: self.argument_string.deep_view(),
            environment_overrides: self.environment_overrides.deep_view(),
            restart_on_exit: self.restart_on_exit,
        }
    }
}

impl Clone for LaunchConfig {
    fn clone(&self) -> (copy: Self)
        ensures
            copy@ == self@,
    {
        proof {
            use_type_invariant(self);
        }
        LaunchConfig {
            executable_path: self.executable_path.clone(),
            working_directory: copy_text(&self.working_directory),
            argument_string: copy_text(&self.argument_string),
            environment_overrides: match &self.environment_overrides {
                Some(pairs) => Some(copy_pairs(pairs)),
                None => None,
            },
            restart_on_exit: self.restart_on_exit,
        }
    }
}

impl LaunchConfig {
    #[verifier::type_invariant]
    spec fn names_a_program(&self) -> bool {
        self.executable_path@.len() > 0
    }

    /// Derives the launch configuration from the raw lookups.
    pub fn load(lookups: Lookups) -> (outcome: Result<LaunchConfig, ConfigError>)
        ensures
            outcome_view(outcome) == resolve(lookups@),
    {
        let Lookups {
            executable_path,
            working_directory,
            argument_string,
            environment,
            restart_on_exit,
        } = lookups;
        let path = match executable_path {
            Some(path) => path,
            None => {
                return Err(ConfigError::Missing);
            },
        };
        let length: usize = path.as_str().unicode_len();
        if length == 0 {
            return Err(ConfigError::Missing);
        }
        let environment_overrides = match environment {
            Some(entries) => Some(parse_environment(&entries)),
            None => None,
        };
        Ok(
            LaunchConfig {
                executable_path: path,
                working_directory,
                argument_string,
                environment_overrides,
                restart_on_exit: restart_flag(restart_on_exit),
            },
        )
    }

    /// Path of the program to run; never empty.
    pub fn executable_path(&self) -> (path: &String)
        ensures
            path@ == self@.executable_path,
            self@.wf(),
    {
        proof {
            use_type_invariant(self);
        }
        &self.executable_path
    }

    /// Directory in which the child starts, if one is configured.
    pub fn working_directory(&self) -> (directory: &Option<String>)
        ensures
            directory.deep_view() == self@.working_directory,
    {
        &self.working_directory
    }

    /// Arguments handed to the child as one unsplit string, if any.
    pub fn argument_string(&self) -> (arguments: &Option<String>)
        ensures
            arguments.deep_view() == self@.argument_string,
    {
        &self.argument_string
    }

    /// Pairs that replace the child's environment, if any are configured.
    pub fn environment_overrides(&self) -> (pairs: &Option<Vec<(String, String)>>)
        ensures
            pairs.deep_view() == self@.environment_overrides,
    {
        &self.environment_overrides
    }

    /// Whether the child is started again after it exits.
    pub fn restart_on_exit(&self) -> (restart: bool)
        ensures
            restart == self@.restart_on_exit,
    {
        self.restart_on_exit
    }
}

} // verus!
