//! Where a Python 3 shared library may be, most likely place first.
//!
//! How to find out depends on the platform. On Linux and FreeBSD an installed
//! interpreter is asked for the install name of its shared library. On macOS
//! it is asked for its installation prefix too, and four paths are made of the
//! two answers. On Windows the interpreter's home directory, if the
//! environment names one, and the installations in the registry are looked
//! at, those of the user before those of the machine.
//!
//! [`plan`] says what the host has to find out. The functions that end in
//! `_candidates` turn what it found into candidate paths. That the host found
//! nothing is no error here: there are no candidates then, and where a query
//! failed, the reason is reported beside the empty list.

use crate::paths::{join, joined_path, pop, popped_path, texts};
use crate::text::{after_first_line, decode, first_line, split_line};
use vstd::prelude::*;
use vstd::string::StringExecFns;
use vstd::utf8::*;

verus! {

/// The program that is asked.
pub const INTERPRETER: &'static str = "python3";

/// The option after which the interpreter takes a program on its command line.
pub const INLINE_OPTION: &'static str = "-c";

/// Prints the install name of the interpreter's shared library.
pub const INSTALL_NAME_SCRIPT: &'static str =
    "import sysconfig; print(sysconfig.get_config_var('INSTSONAME'))";

/// Prints the interpreter's installation prefix, then the install name of its
/// shared library.
pub const FRAMEWORK_SCRIPT: &'static str =
    "import sys,sysconfig; print(sys.base_exec_prefix); print(sysconfig.get_config_var('INSTSONAME'))";

/// The environment variable that names the interpreter's home directory.
pub const HOME_VARIABLE: &'static str = "PYTHONHOME";

/// The registry key under which each installed version has a key of its own.
pub const REGISTRY_KEY: &'static str = "Software\\Python\\PythonCore";

/// The key, under a version's key, whose default value is the installation path.
pub const INSTALL_PATH_KEY: &'static str = "InstallPath";

/// The file name of the library in a Windows installation.
pub const WINDOWS_LIBRARY: &'static str = "python3.dll";

/// The file name of the library in a framework that is named after Python 3.
pub const FRAMEWORK_LIBRARY: &'static str = "Python3";

/// The file name of the library in a framework that is named after Python.
pub const PLAIN_FRAMEWORK_LIBRARY: &'static str = "Python";

/// How many directories lie between a framework's installation prefix and
/// the directory that the install name starts from.
pub const FRAMEWORK_DEPTH: usize = 3;

/// The platforms on which a library can be looked for.
#[derive(Debug, Clone, Copy, PartialEq, Eq)]
pub enum Platform {
    Linux,
    FreeBsd,
    MacOs,
    Windows,
}

/// What the host has to find out before candidates can be named.
#[derive(Debug, PartialEq, Eq)]
pub enum Plan {
    /// Run `program` with the arguments `option` and `script`, and keep its
    /// exit code and what it writes to its standard output.
    Query { program: &'static str, option: &'static str, script: &'static str },
    /// Read the environment variable `variable`. In the registry, under the
    /// current user and then under the local machine, list the keys under
    /// `key`, and read the default value of `install_key` under each of them.
    Registry { variable: &'static str, key: &'static str, install_key: &'static str },
}

/// What came of running a query program.
#[derive(Debug, PartialEq, Eq)]
pub enum Query {
    /// The program could not be run; the text says why.
    Unavailable { reason: String },
    /// The program ran and ended with `code`, or without one where a signal
    /// ended it, after it had written `stdout`.
    Exited { code: Option<i32>, stdout: Vec<u8> },
}

/// Why a query gave no candidates.
#[derive(Debug, PartialEq, Eq)]
pub enum QueryFailure {
    /// The program could not be run; the text says why.
    Unavailable { reason: String },
    /// The program did not end with the exit code 0.
    Failed { code: Option<i32> },
    /// The output has fewer lines than were asked for.
    MissingLine,
    /// A line of the output is not UTF-8 text.
    NotText,
}

/// The candidates that a locator found, and the failure that left it without any.
#[derive(Debug, PartialEq, Eq)]
pub struct Located {
    pub candidates: Vec<String>,
    pub failure: Option<QueryFailure>,
}

/// What the host found out, by the kind of plan that it followed.
#[derive(Debug, PartialEq, Eq)]
pub enum Findings {
    /// What came of the query for the install name (Linux, FreeBSD).
    InstallName(Query),
    /// What came of the query for the prefix and the install name (macOS).
    PrefixAndName(Query),
    /// What the environment and the registry hold (Windows): the interpreter's
    /// home directory, and what the user's and the machine's scope list.
    Registry {
        home: Option<String>,
        per_user: Option<Vec<Option<String>>>,
        per_machine: Option<Vec<Option<String>>>,
    },
}

/// What `platform` needs to be found out.
pub open spec fn plan_for(platform: Platform) -> Plan {
    match platform {
        Platform::Linux => Plan::Query {
            program: INTERPRETER,
            option: INLINE_OPTION,
            script: INSTALL_NAME_SCRIPT,
        },
        Platform::FreeBsd => Plan::Query {
            program: INTERPRETER,
            option: INLINE_OPTION,
            script: INSTALL_NAME_SCRIPT,
        },
        Platform::MacOs => Plan::Query {
            program: INTERPRETER,
            option: INLINE_OPTION,
            script: FRAMEWORK_SCRIPT,
        },
        Platform::Windows => Plan::Registry {
            variable: HOME_VARIABLE,
            key: REGISTRY_KEY,
            install_key: INSTALL_PATH_KEY,
        },
    }
}

/// The output of a query that succeeded: the program ran and ended with the
/// exit code 0.
pub open spec fn output_of(query: Query) -> Result<Seq<u8>, QueryFailure> {
    match query {
        Query::Unavailable { reason } => Err(QueryFailure::Unavailable { reason }),
        Query::Exited { code, stdout } => if code == Some(0i32) {
            Ok(stdout@)
        } else {
            Err(QueryFailure::Failed { code })
        },
    }
}

/// The first line of `output` as text.
pub open spec fn line_text(output: Seq<u8>) -> Result<Seq<char>, QueryFailure> {
    if output.len() == 0 {
        Err(QueryFailure::MissingLine)
    } else if !valid_utf8(first_line(output)) {
        Err(QueryFailure::NotText)
    } else {
        Ok(decode_utf8(first_line(output)))
    }
}

/// The install name that a query reports: the first line of its output.
pub open spec fn install_name(query: Query) -> Result<Seq<char>, QueryFailure> {
    match output_of(query) {
        Err(failure) => Err(failure),
        Ok(output) => line_text(output),
    }
}

/// The installation prefix and the install name that a query reports: the
/// first two lines of its output.
pub open spec fn prefix_and_name(query: Query) -> Result<(Seq<char>, Seq<char>), QueryFailure> {
    match output_of(query) {
        Err(failure) => Err(failure),
        Ok(output) => match line_text(output) {
            Err(failure) => Err(failure),
            Ok(prefix) => match line_text(after_first_line(output)) {
                Err(failure) => Err(failure),
                Ok(name) => Ok((prefix, name)),
            },
        },
    }
}

/// `path` with its last `count` components taken off.
pub open spec fn ancestor(path: Seq<char>, count: nat) -> Seq<char>
    decreases count,
{
    if count == 0 {
        path
    } else {
        popped_path(ancestor(path, (count - 1) as nat))
    }
}

/// The four places of a framework's library: in the prefix under either file
/// name, under the install name from [`FRAMEWORK_DEPTH`] directories above
/// the prefix, and at the install name as it stands.
pub open spec fn framework_paths(prefix: Seq<char>, name: Seq<char>) -> Seq<Seq<char>> {
    seq![
        joined_path(prefix, FRAMEWORK_LIBRARY@),
        joined_path(prefix, PLAIN_FRAMEWORK_LIBRARY@),
        joined_path(ancestor(prefix, FRAMEWORK_DEPTH as nat), name),
        name,
    ]
}

/// The libraries of the installations in `entries` that could be read, in
/// the order of the entries.
pub open spec fn installed_libraries(entries: Seq<Option<String>>) -> Seq<Seq<char>>
    decreases entries.len(),
{
    if entries.len() == 0 {
        Seq::empty()
    } else {
        let earlier = installed_libraries(entries.drop_last());
        match entries.last() {
            Some(path) => earlier.push(joined_path(path@, WINDOWS_LIBRARY@)),
            None => earlier,
        }
    }
}

/// The libraries of the installations that one registry scope lists; none
/// where the scope has no key for them.
pub open spec fn scope_libraries(scope: Option<Vec<Option<String>>>) -> Seq<Seq<char>> {
    match scope {
        Some(entries) => installed_libraries(entries@),
        None => Seq::empty(),
    }
}

/// The library in the interpreter's home directory, where one is named.
pub open spec fn home_library(home: Option<String>) -> Seq<Seq<char>> {
    match home {
        Some(directory) => seq![joined_path(directory@, WINDOWS_LIBRARY@)],
        None => Seq::empty(),
    }
}

/// The failure in `result`, if it is one.
pub open spec fn failure_in<T>(result: Result<T, QueryFailure>) -> Option<QueryFailure> {
    match result {
        Ok(_) => None,
        Err(failure) => Some(failure),
    }
}

/// The candidate paths that follow from `findings`, in their order.
pub open spec fn candidate_paths(findings: Findings) -> Seq<Seq<char>> {
    match findings {
        Findings::InstallName(query) => match install_name(query) {
            Ok(name) => seq![name],
            Err(_) => Seq::empty(),
        },
        Findings::PrefixAndName(query) => match prefix_and_name(query) {
            Ok((prefix, name)) => framework_paths(prefix, name),
            Err(_) => Seq::empty(),
        },
        Findings::Registry { home, per_user, per_machine } => home_library(home) + scope_libraries(
            per_user,
        ) + scope_libraries(per_machine),
    }
}

/// The failure that left `findings` without candidates, if there was one.
pub open spec fn query_failure(findings: Findings) -> Option<QueryFailure> {
    match findings {
        Findings::InstallName(query) => failure_in(install_name(query)),
        Findings::PrefixAndName(query) => failure_in(prefix_and_name(query)),
        Findings::Registry { home, per_user, per_machine } => None,
    }
}

/// A query that failed, because the program could not be run or did not end
/// with the exit code 0, is no error of the locator: it gives no candidates,
/// whatever the program wrote, and the failure is reported beside them.
pub proof fn failed_query_gives_no_candidates(query: Query)
    requires
        output_of(query) is Err,
    ensures
        candidate_paths(Findings::InstallName(query)) == Seq::<Seq<char>>::empty(),
        candidate_paths(Findings::PrefixAndName(query)) == Seq::<Seq<char>>::empty(),
        query_failure(Findings::InstallName(query)) == failure_in(output_of(query)),
        query_failure(Findings::PrefixAndName(query)) == failure_in(output_of(query)),
        query_failure(Findings::InstallName(query)) is Some,
{
}

/// Says what the host has to find out on `platform`. What comes of a
/// [`Plan::Query`] is handed to [`get_candidate_locations`] as
/// [`Findings::InstallName`] on Linux and FreeBSD and as
/// [`Findings::PrefixAndName`] on macOS; what comes of a [`Plan::Registry`] as
/// [`Findings::Registry`].
pub fn plan(platform: Platform) -> (plan: Plan)
    ensures
        plan == plan_for(platform),
{
    match platform {
        Platform::Linux => Plan::Query {
            program: INTERPRETER,
            option: INLINE_OPTION,
            script: INSTALL_NAME_SCRIPT,
        },
        Platform::FreeBsd => Plan::Query {
            program: INTERPRETER,
            option: INLINE_OPTION,
            script: INSTALL_NAME_SCRIPT,
        },
        Platform::MacOs => Plan::Query {
            program: INTERPRETER,
            option: INLINE_OPTION,
            script: FRAMEWORK_SCRIPT,
        },
        Platform::Windows => Plan::Registry {
            variable: HOME_VARIABLE,
            key: REGISTRY_KEY,
            install_key: INSTALL_PATH_KEY,
        },
    }
}

/// The output of `query`, if the program ran and ended with the exit code 0.
fn read_output(query: Query) -> (output: Result<Vec<u8>, QueryFailure>)
    ensures
        match output {
            Ok(bytes) => output_of(query) == Ok::<Seq<u8>, QueryFailure>(bytes@),
            Err(failure) => output_of(query) == Err::<Seq<u8>, QueryFailure>(failure),
        },
{
    match query {
        Query::Unavailable { reason } => Err(QueryFailure::Unavailable { reason }),
        Query::Exited { code, stdout } => {
            let succeeded = match code {
                Some(value) => value == 0,
                None => false,
            };
            if succeeded {
                Ok(stdout)
            } else {
                Err(QueryFailure::Failed { code })
            }
        },
    }
}

/// The first line of `output` as text, and what follows the line.
fn read_line(output: &[u8]) -> (read: Result<(String, &[u8]), QueryFailure>)
    ensures
        match read {
            Ok((text, rest)) => line_text(output@) == Ok::<Seq<char>, QueryFailure>(text@)
                && rest@ == after_first_line(output@),
            Err(failure) => line_text(output@) == Err::<Seq<char>, QueryFailure>(failure),
        },
{
    match split_line(output) {
        None => Err(QueryFailure::MissingLine),
        Some((line, rest)) => match decode(line) {
            None => Err(QueryFailure::NotText),
            Some(text) => Ok((String::from_str(text), rest)),
        },
    }
}

/// Names the candidate on a platform whose interpreter reports the install
/// name of its library: the first line of the query's output, as it stands.
/// Where the query failed, or its output has no first line that is text,
/// there is no candidate, and the failure is reported.
pub fn install_name_candidates(query: Query) -> (located: Located)
    ensures
        located.failure == failure_in(install_name(query)),
        texts(located.candidates@) == match install_name(query) {
            Ok(name) => seq![name],
            Err(_) => Seq::empty(),
        },
        located.failure is Some ==> located.candidates@.len() == 0,
{
    let found = match read_output(query) {
        Err(failure) => Err(failure),
        Ok(output) => match read_line(output.as_slice()) {
            Err(failure) => Err(failure),
            Ok((name, _)) => Ok(name),
        },
    };
    match found {
        Err(failure) => {
            let candidates: Vec<String> = Vec::new();
            Located { candidates, failure: Some(failure) }
        },
        Ok(name) => {
            let mut candidates: Vec<String> = Vec::new();
            candidates.push(name);
            Located { candidates, failure: None }
        },
    }
}

/// `path` with its last `count` components taken off.
fn strip(path: &str, count: usize) -> (shorter: String)
    ensures
        shorter@ == ancestor(path@, count as nat),
{
    let mut shorter = String::from_str(path);
    let mut taken: usize = 0;
    while taken < count
        invariant
            taken <= count,
            shorter@ == ancestor(path@, taken as nat),
        decreases count - taken,
    {
        shorter = pop(shorter.as_str());
        taken = taken + 1;
    }
    shorter
}

/// Names the candidates on a platform whose interpreter lives in a
/// framework. The query's output holds the installation prefix on its first
/// line and the install name on its second. The candidates are the four of
/// [`framework_paths`], whether or not anything exists there. Where the query
/// failed, or its output has no two lines that are text, there is no
/// candidate, and the failure is reported.
pub fn framework_candidates(query: Query) -> (located: Located)
    ensures
        located.failure == failure_in(prefix_and_name(query)),
        texts(located.candidates@) == match prefix_and_name(query) {
            Ok((prefix, name)) => framework_paths(prefix, name),
            Err(_) => Seq::empty(),
        },
        located.failure is Some ==> located.candidates@.len() == 0,
{
    let found = match read_output(query) {
        Err(failure) => Err(failure),
        Ok(output) => match read_line(output.as_slice()) {
            Err(failure) => Err(failure),
            Ok((prefix, rest)) => match read_line(rest) {
                Err(failure) => Err(failure),
                Ok((name, _)) => Ok((prefix, name)),
            },
        },
    };
    match found {
        Err(failure) => {
            let candidates: Vec<String> = Vec::new();
            Located { candidates, failure: Some(failure) }
        },
        Ok((prefix, name)) => {
            let mut candidates: Vec<String> = Vec::new();
            candidates.push(join(prefix.as_str(), FRAMEWORK_LIBRARY));
            candidates.push(join(prefix.as_str(), PLAIN_FRAMEWORK_LIBRARY));
            let above = strip(prefix.as_str(), FRAMEWORK_DEPTH);
            candidates.push(join(above.as_str(), name.as_str()));
            candidates.push(name);
            Located { candidates, failure: None }
        },
    }
}

/// Adds to `candidates` the libraries of the installations that `scope` lists.
fn add_installed(candidates: &mut Vec<String>, scope: &Option<Vec<Option<String>>>)
    ensures
        texts(final(candidates)@) == texts(old(candidates)@) + scope_libraries(*scope),
{
    match scope {
        None => {},
        Some(entries) => {
            let mut position: usize = 0;
            while position < entries.len()
                invariant
                    position <= entries.len(),
                    texts(candidates@) == texts(old(candidates)@) + installed_libraries(
                        entries@.take(position as int),
                    ),
                decreases entries.len() - position,
            {
                let ghost before = texts(candidates@);
                assert(entries@.take(position + 1).drop_last() =~= entries@.take(position as int));
                match &entries[position] {
                    Some(path) => {
                        let library = join(path.as_str(), WINDOWS_LIBRARY);
                        candidates.push(library);
                        assert(texts(candidates@) =~= before.push(library@));
                    },
                    None => {},
                }
                position = position + 1;
            }
            assert(entries@.take(entries.len() as int) =~= entries@);
        },
    }
}

/// Names the candidates on a platform that keeps its installations in a
/// registry. `home` is the interpreter's home directory, where the
/// environment names one. `per_user` and `per_machine` are what the two
/// registry scopes list: `None` where a scope has no key for installations,
/// else one entry for each version's key, with the installation path, or
/// `None` where the path could not be read. The candidates are the library in
/// the home directory, then the libraries of the user's installations, then
/// those of the machine's. What could not be read is left out.
pub fn registry_candidates(
    home: Option<String>,
    per_user: Option<Vec<Option<String>>>,
    per_machine: Option<Vec<Option<String>>>,
) -> (candidates: Vec<String>)
    ensures
        texts(candidates@) == home_library(home) + scope_libraries(per_user) + scope_libraries(
            per_machine,
        ),
{
    let mut candidates: Vec<String> = Vec::new();
    match &home {
        Some(directory) => {
            candidates.push(join(directory.as_str(), WINDOWS_LIBRARY));
        },
        None => {},
    }
    add_installed(&mut candidates, &per_user);
    add_installed(&mut candidates, &per_machine);
    candidates
}

/// Names the candidate paths that follow from what the host found out, most
/// likely place first. A query that failed leaves the list empty and is
/// reported beside it; it is never an error of the locator.
pub fn get_candidate_locations(findings: Findings) -> (located: Located)
    ensures
        texts(located.candidates@) == candidate_paths(findings),
        located.failure == query_failure(findings),
        located.failure is Some ==> located.candidates@.len() == 0,
{
    match findings {
        Findings::InstallName(query) => install_name_candidates(query),
        Findings::PrefixAndName(query) => framework_candidates(query),
        Findings::Registry { home, per_user, per_machine } => Located {
            candidates: registry_candidates(home, per_user, per_machine),
            failure: None,
        },
    }
}

} // verus!
