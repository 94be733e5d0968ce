//! Trying the candidates, one after the other.
//!
//! Loading a dynamic library, looking a symbol up in it, calling the function
//! behind the symbol and releasing the library are the host's business. What
//! to do next, and what an answer means, is decided here. A [`Search`] is that
//! decision as a state machine: [`Search::action`] names the operation that is
//! due, and [`Search::step`] takes the host's answer to it.
//!
//! A candidate is accepted when it loads, exports [`VERSION_SYMBOL`], and the
//! text that the function behind the symbol returns holds an accepted version.
//! The first accepted candidate ends the search. Every library that was loaded
//! is released before the next one is loaded and before the search ends.

use crate::text::decode;
use crate::version::{is_suitable, parse_version, suitable, version_of};
use vstd::prelude::*;
use vstd::string::StringExecFns;
use vstd::utf8::*;

verus! {

/// The symbol that a candidate must export: a function without arguments that
/// returns a pointer to the version text, a string that ends with a zero byte.
pub const VERSION_SYMBOL: &'static str = "Py_GetVersion";

/// What a search that accepted no candidate has to say.
pub const NOT_FOUND_MESSAGE: &'static str = "No suitable Python 3 installation found.";

/// Why a search found no library.
#[derive(Debug, PartialEq, Eq)]
pub enum FindError {
    /// No candidate was accepted.
    NotFound,
    /// A candidate was accepted, but the host could not release it; the text is the host's.
    ReleaseFailed(String),
}

impl FindError {
    /// The text of the error: [`NOT_FOUND_MESSAGE`], or the host's reason.
    pub open spec fn message_text(self) -> Seq<char> {
        match self {
            FindError::NotFound => NOT_FOUND_MESSAGE@,
            FindError::ReleaseFailed(reason) => reason@,
        }
    }

    /// The text of the error, for the user to read.
    pub fn message(&self) -> (text: String)
        ensures
            text@ == self.message_text(),
    {
        match self {
            FindError::NotFound => String::from_str(NOT_FOUND_MESSAGE),
            FindError::ReleaseFailed(reason) => reason.clone(),
        }
    }
}

/// A dynamic-library operation for the host to perform, or the end of the search.
#[derive(Debug, PartialEq, Eq)]
pub enum Action {
    /// Load the library at `path`. With `global` set, its symbols must stay
    /// visible to the libraries that the process loads later.
    Load { path: String, global: bool },
    /// Look `symbol` up in the library that was loaded last.
    Resolve { symbol: &'static str },
    /// Call the function that was found and hand back the bytes of the string
    /// that it returns, without the zero byte at their end.
    Invoke,
    /// Release the library that was loaded last.
    Release,
    /// The search is over, with this result.
    Finish { outcome: Result<String, FindError> },
}

/// The host's answer to an [`Action`].
#[derive(Debug, PartialEq, Eq)]
pub enum Event {
    /// The library could not be loaded.
    LoadFailed,
    /// The library is loaded.
    Loaded,
    /// The library does not export the symbol.
    SymbolMissing,
    /// The library exports the symbol.
    SymbolFound,
    /// The function returned a string made of these bytes.
    Returned(Vec<u8>),
    /// The library is released.
    Released,
    /// The library could not be released; the text says why.
    ReleaseFailed(String),
}

/// Where a search stands with the candidate that it is trying.
#[derive(Debug, PartialEq, Eq)]
pub enum Phase {
    /// The library is to be loaded.
    Loading,
    /// The library is loaded and the symbol is to be looked up.
    Resolving,
    /// The symbol is found and the function is to be called.
    Invoking,
    /// The library is to be released; `accepted` says whether it passed.
    Releasing { accepted: bool },
    /// The search is over.
    Finished { outcome: Result<String, FindError> },
}

/// The state of a search: the candidates, the position of the one that is
/// being tried, and how far the search is with it.
pub struct Progress {
    pub candidates: Seq<String>,
    pub index: nat,
    pub phase: Phase,
}

/// The bytes are UTF-8 text that holds an accepted version.
pub open spec fn acceptable(reported: Seq<u8>) -> bool {
    valid_utf8(reported) && match version_of(decode_utf8(reported)) {
        Ok((major, minor)) => suitable(major, minor),
        Err(_) => false,
    }
}

/// The state in which the search turns to the candidate at `index`: it is to
/// be loaded, or, where the candidates are used up, the search is over and
/// nothing was found.
pub open spec fn attempt(candidates: Seq<String>, index: nat) -> Progress {
    if index < candidates.len() {
        Progress { candidates, index, phase: Phase::Loading }
    } else {
        Progress {
            candidates,
            index: candidates.len(),
            phase: Phase::Finished { outcome: Err(FindError::NotFound) },
        }
    }
}

/// The state in which a search of `candidates` starts.
pub open spec fn begin(candidates: Seq<String>) -> Progress {
    attempt(candidates, 0)
}

impl Progress {
    /// While the search is not over, there is a candidate that is being tried.
    pub open spec fn wf(self) -> bool {
        &&& self.index <= self.candidates.len()
        &&& !(self.phase is Finished) ==> self.index < self.candidates.len()
    }

    /// A library is loaded and not yet released.
    pub open spec fn holds_library(self) -> bool {
        self.phase is Resolving || self.phase is Invoking || self.phase is Releasing
    }

    /// The operation that is due.
    pub open spec fn action(self) -> Action {
        match self.phase {
            Phase::Loading => Action::Load {
                path: self.candidates[self.index as int],
                global: true,
            },
            Phase::Resolving => Action::Resolve { symbol: VERSION_SYMBOL },
            Phase::Invoking => Action::Invoke,
            Phase::Releasing { accepted } => Action::Release,
            Phase::Finished { outcome } => Action::Finish { outcome },
        }
    }

    /// `event` is an answer to the operation that is due.
    pub open spec fn awaits(self, event: Event) -> bool {
        match self.phase {
            Phase::Loading => event is LoadFailed || event is Loaded,
            Phase::Resolving => event is SymbolMissing || event is SymbolFound,
            Phase::Invoking => event is Returned,
            Phase::Releasing { accepted } => event is Released || event is ReleaseFailed,
            Phase::Finished { outcome } => false,
        }
    }

    /// This state, in another phase.
    pub open spec fn at(self, phase: Phase) -> Progress {
        Progress { candidates: self.candidates, index: self.index, phase }
    }

    /// The state after `event`. An event that is no answer to the operation
    /// that is due changes nothing.
    pub open spec fn next(self, event: Event) -> Progress {
        match (self.phase, event) {
            (Phase::Loading, Event::LoadFailed) => attempt(self.candidates, self.index + 1),
            (Phase::Loading, Event::Loaded) => self.at(Phase::Resolving),
            (Phase::Resolving, Event::SymbolMissing) => self.at(
                Phase::Releasing { accepted: false },
            ),
            (Phase::Resolving, Event::SymbolFound) => self.at(Phase::Invoking),
            (Phase::Invoking, Event::Returned(reported)) => self.at(
                Phase::Releasing { accepted: acceptable(reported@) },
            ),
            (Phase::Releasing { accepted: true }, Event::Released) => self.at(
                Phase::Finished { outcome: Ok(self.candidates[self.index as int]) },
            ),
            (Phase::Releasing { accepted: true }, Event::ReleaseFailed(reason)) => self.at(
                Phase::Finished { outcome: Err(FindError::ReleaseFailed(reason)) },
            ),
            (Phase::Releasing { accepted: false }, Event::Released) => attempt(
                self.candidates,
                self.index + 1,
            ),
            (Phase::Releasing { accepted: false }, Event::ReleaseFailed(reason)) => attempt(
                self.candidates,
                self.index + 1,
            ),
            _ => self,
        }
    }

    /// A bound on the number of answers that the search still takes: four for
    /// each candidate that was not tried yet, and for the one that is being
    /// tried as many as its phase leaves.
    pub open spec fn steps_left(self) -> nat {
        let untried = if self.index < self.candidates.len() {
            (self.candidates.len() - self.index - 1) as nat
        } else {
            0
        };
        4 * untried + match self.phase {
            Phase::Loading => 4nat,
            Phase::Resolving => 3nat,
            Phase::Invoking => 2nat,
            Phase::Releasing { accepted } => 1nat,
            Phase::Finished { outcome } => 0nat,
        }
    }
}

/// Says whether `reported`, the bytes that a candidate's version function
/// returned, are text that holds an accepted version.
pub fn accepts(reported: &[u8]) -> (accepted: bool)
    ensures
        accepted == acceptable(reported@),
{
    match decode(reported) {
        None => false,
        Some(text) => match parse_version(text) {
            Ok((major, minor)) => is_suitable(major, minor),
            Err(_) => false,
        },
    }
}

/// A search for the first accepted candidate.
pub struct Search {
    candidates: Vec<String>,
    index: usize,
    phase: Phase,
}

impl View for Search {
    type V = Progress;

    closed spec fn view(&self) -> Progress {
        Progress { candidates: self.candidates@, index: self.index as nat, phase: self.phase }
    }
}

/// A copy of `outcome`.
fn copy_outcome(outcome: &Result<String, FindError>) -> (copy: Result<String, FindError>)
    ensures
        copy == *outcome,
{
    match outcome {
        Ok(path) => Ok(path.clone()),
        Err(FindError::NotFound) => Err(FindError::NotFound),
        Err(FindError::ReleaseFailed(reason)) => Err(FindError::ReleaseFailed(reason.clone())),
    }
}

impl Search {
    #[verifier::type_invariant]
    spec fn well_formed(&self) -> bool {
        self@.wf()
    }

    /// The search, turned to the candidate at `index`.
    fn turn_to(candidates: Vec<String>, index: usize) -> (search: Search)
        requires
            index <= candidates.len(),
        ensures
            search@ == attempt(candidates@, index as nat),
    {
        if index < candidates.len() {
            Search { candidates, index, phase: Phase::Loading }
        } else {
            Search { candidates, index, phase: Phase::Finished { outcome: Err(FindError::NotFound) } }
        }
    }

    /// Starts a search of `candidates`, which are tried in their order.
    pub fn start(candidates: Vec<String>) -> (search: Search)
        ensures
            search@ == begin(candidates@),
            search@.wf(),
    {
        Search::turn_to(candidates, 0)
    }

    /// The operation that the host is to perform now. Once it is
    /// [`Action::Finish`], the search is over and stays so.
    pub fn action(&self) -> (action: Action)
        ensures
            action == self@.action(),
            self@.wf(),
    {
        proof {
            use_type_invariant(self);
        }
        match &self.phase {
            Phase::Loading => Action::Load { path: self.candidates[self.index].clone(), global: true },
            Phase::Resolving => Action::Resolve { symbol: VERSION_SYMBOL },
            Phase::Invoking => Action::Invoke,
            Phase::Releasing { accepted } => Action::Release,
            Phase::Finished { outcome } => Action::Finish { outcome: copy_outcome(outcome) },
        }
    }

    /// Says whether `event` is an answer to the operation that is due.
    pub fn awaits(&self, event: &Event) -> (awaited: bool)
        ensures
            awaited == self@.awaits(*event),
    {
        match &self.phase {
            Phase::Loading => match event {
                Event::LoadFailed => true,
                Event::Loaded => true,
                _ => false,
            },
            Phase::Resolving => match event {
                Event::SymbolMissing => true,
                Event::SymbolFound => true,
                _ => false,
            },
            Phase::Invoking => match event {
                Event::Returned(_) => true,
                _ => false,
            },
            Phase::Releasing { accepted } => match event {
                Event::Released => true,
                Event::ReleaseFailed(_) => true,
                _ => false,
            },
            Phase::Finished { outcome } => false,
        }
    }

    /// Takes the host's answer to the operation that was due.
    ///
    /// A library that failed to load is passed over. One that is loaded is
    /// asked for the symbol, and released whatever comes of it. The search ends
    /// with the path of the first candidate that is accepted, if the host
    /// could release it, and with the host's reason if it could not; that a
    /// candidate which was not accepted could not be released is passed over.
    /// When the candidates are used up, nothing was found. An event that is no
    /// answer to the operation that was due changes nothing.
    pub fn step(self, event: Event) -> (next: Search)
        ensures
            next@ == self@.next(event),
            next@.wf(),
    {
        proof {
            use_type_invariant(&self);
        }
        assert(!(self.phase is Finished) ==> self.index < self.candidates.len());
        let Search { candidates, index, phase } = self;
        match phase {
            Phase::Loading => match event {
                Event::LoadFailed => Search::turn_to(candidates, index + 1),
                Event::Loaded => Search { candidates, index, phase: Phase::Resolving },
                _ => Search { candidates, index, phase: Phase::Loading },
            },
            Phase::Resolving => match event {
                Event::SymbolMissing => Search {
                    candidates,
                    index,
                    phase: Phase::Releasing { accepted: false },
                },
                Event::SymbolFound => Search { candidates, index, phase: Phase::Invoking },
                _ => Search { candidates, index, phase: Phase::Resolving },
            },
            Phase::Invoking => match event {
                Event::Returned(reported) => {
                    let accepted = accepts(reported.as_slice());
                    Search { candidates, index, phase: Phase::Releasing { accepted } }
                },
                _ => Search { candidates, index, phase: Phase::Invoking },
            },
            Phase::Releasing { accepted } => match event {
                Event::Released => if accepted {
                    let path = candidates[index].clone();
                    Search { candidates, index, phase: Phase::Finished { outcome: Ok(path) } }
                } else {
                    Search::turn_to(candidates, index + 1)
                },
                Event::ReleaseFailed(reason) => if accepted {
                    Search {
                        candidates,
                        index,
                        phase: Phase::Finished { outcome: Err(FindError::ReleaseFailed(reason)) },
                    }
                } else {
                    Search::turn_to(candidates, index + 1)
                },
                _ => Search { candidates, index, phase: Phase::Releasing { accepted } },
            },
            Phase::Finished { outcome } => Search {
                candidates,
                index,
                phase: Phase::Finished { outcome },
            },
        }
    }
}

} // verus!
