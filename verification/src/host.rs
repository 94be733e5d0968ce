//! What a search does on a host, whatever the host is like.
//!
//! A host is described by what each candidate path leads to: whether the
//! library loads, whether it exports the symbol, what its version function
//! returns, and whether it can be released. [`run`] is the search played
//! against such a host to its end. The theorems of this module say what the
//! end is, and that the search releases what it loads.

use crate::probe::{acceptable, attempt, begin, Action, Event, FindError, Phase, Progress};
use vstd::prelude::*;

verus! {

/// What a candidate path leads to on a host.
pub struct Library {
    /// The path can be loaded as a dynamic library.
    pub loads: bool,
    /// The library exports the version symbol.
    pub exports_symbol: bool,
    /// The bytes of the string that the version function returns.
    pub reported: Vec<u8>,
    /// What comes of releasing the library.
    pub release: Result<(), String>,
}

impl Library {
    /// The host's answer to `action` on this library.
    pub open spec fn answer(self, action: Action) -> Event {
        match action {
            Action::Load { path, global } => if self.loads {
                Event::Loaded
            } else {
                Event::LoadFailed
            },
            Action::Resolve { symbol } => if self.exports_symbol {
                Event::SymbolFound
            } else {
                Event::SymbolMissing
            },
            Action::Invoke => Event::Returned(self.reported),
            Action::Release => match self.release {
                Ok(_) => Event::Released,
                Err(reason) => Event::ReleaseFailed(reason),
            },
            Action::Finish { outcome } => Event::Released,
        }
    }

    /// The library loads, exports the symbol and reports an accepted version.
    pub open spec fn passes(self) -> bool {
        self.loads && self.exports_symbol && acceptable(self.reported@)
    }

    /// How a search ends that accepts this library, found under `path`.
    pub open spec fn accepted_as(self, path: String) -> Result<String, FindError> {
        match self.release {
            Ok(_) => Ok(path),
            Err(reason) => Err(FindError::ReleaseFailed(reason)),
        }
    }
}

/// The host's answer to the operation that is due in `progress`.
pub open spec fn reply(progress: Progress, host: Seq<Library>) -> Event {
    host[progress.index as int].answer(progress.action())
}

/// The state in which a search ends that stands at `progress`, on `host`.
pub open spec fn run(progress: Progress, host: Seq<Library>) -> Progress
    decreases progress.steps_left(),
{
    if progress.phase is Finished {
        progress
    } else {
        run(progress.next(reply(progress, host)), host)
    }
}

/// How many libraries the host loads from `progress` to the end of the search.
pub open spec fn loads(progress: Progress, host: Seq<Library>) -> nat
    decreases progress.steps_left(),
{
    if progress.phase is Finished {
        0
    } else {
        let loaded: nat = if reply(progress, host) is Loaded {
            1
        } else {
            0
        };
        loaded + loads(progress.next(reply(progress, host)), host)
    }
}

/// How many times the host is asked to release a library from `progress` to
/// the end of the search.
pub open spec fn releases(progress: Progress, host: Seq<Library>) -> nat
    decreases progress.steps_left(),
{
    if progress.phase is Finished {
        0
    } else {
        let released: nat = if progress.action() is Release {
            1
        } else {
            0
        };
        released + releases(progress.next(reply(progress, host)), host)
    }
}

/// How a search of the candidates from position `from` on ends: with the first
/// of them that passes, or with nothing found.
pub open spec fn verdict(candidates: Seq<String>, host: Seq<Library>, from: nat) -> Result<
    String,
    FindError,
>
    decreases candidates.len() - from,
{
    if from >= candidates.len() {
        Err(FindError::NotFound)
    } else if host[from as int].passes() {
        host[from as int].accepted_as(candidates[from as int])
    } else {
        verdict(candidates, host, from + 1)
    }
}

/// An answer to the operation that is due brings the search nearer to its
/// end, and leaves it in a state in which a candidate is being tried or the
/// search is over.
pub proof fn answer_makes_progress(progress: Progress, event: Event)
    requires
        progress.wf(),
        progress.awaits(event),
    ensures
        progress.next(event).steps_left() < progress.steps_left(),
        progress.next(event).wf(),
        progress.next(event).candidates == progress.candidates,
{
}

/// A library is loaded, looked at and released while one is held, and only
/// then: the search asks for the next library, and ends, with none held.
pub proof fn operations_fit_what_is_held(progress: Progress)
    ensures
        progress.holds_library() <==> progress.action() is Resolve || progress.action() is Invoke
            || progress.action() is Release,
        !progress.holds_library() <==> progress.action() is Load || progress.action() is Finish,
{
}

/// A library is held from the answer that it is loaded up to the answer to
/// the request to release it, whatever that answer is.
pub proof fn held_library_follows_answers(progress: Progress, event: Event)
    requires
        progress.awaits(event),
    ensures
        progress.next(event).holds_library() <==> event is Loaded || (progress.holds_library()
            && !(progress.action() is Release)),
{
}

/// Every search comes to an end.
pub proof fn search_ends(progress: Progress, host: Seq<Library>)
    ensures
        run(progress, host).phase is Finished,
    decreases progress.steps_left(),
{
    if !(progress.phase is Finished) {
        search_ends(progress.next(reply(progress, host)), host);
    }
}

/// A search that turns to the candidate at `from` ends with the first
/// candidate from there on that passes, and with nothing found where none
/// passes.
pub proof fn search_gives_verdict(candidates: Seq<String>, host: Seq<Library>, from: nat)
    requires
        host.len() == candidates.len(),
    ensures
        run(attempt(candidates, from), host).phase == (Phase::Finished {
            outcome: verdict(candidates, host, from),
        }),
    decreases candidates.len() - from,
{
    reveal_with_fuel(run, 5);
    if from < candidates.len() {
        search_gives_verdict(candidates, host, from + 1);
    }
}

/// A search ends with the first candidate that passes: the candidates before
/// it are passed over, whatever they lead to, and what the candidates behind
/// it lead to makes no difference. The result is its path where the host can
/// release it, and the host's reason where it cannot.
pub proof fn first_that_passes_is_found(candidates: Seq<String>, host: Seq<Library>, first: nat)
    requires
        host.len() == candidates.len(),
        first < candidates.len(),
        host[first as int].passes(),
        forall|i: int| 0 <= i < first ==> !(#[trigger] host[i]).passes(),
    ensures
        run(begin(candidates), host).phase == (Phase::Finished {
            outcome: host[first as int].accepted_as(candidates[first as int]),
        }),
{
    search_gives_verdict(candidates, host, 0);
    verdict_skips(candidates, host, 0, first);
}

/// Of two candidates of which the first does not load and the second passes
/// and can be released, the search finds the second.
pub proof fn unloadable_candidate_is_skipped(candidates: Seq<String>, host: Seq<Library>)
    requires
        candidates.len() == 2,
        host.len() == 2,
        !host[0].loads,
        host[1].passes(),
        host[1].release is Ok,
    ensures
        run(begin(candidates), host).phase == (Phase::Finished { outcome: Ok(candidates[1]) }),
{
    first_that_passes_is_found(candidates, host, 1);
}

/// Where no candidate passes, and so where there is no candidate at all, the
/// search ends with nothing found.
pub proof fn nothing_passes_nothing_found(candidates: Seq<String>, host: Seq<Library>)
    requires
        host.len() == candidates.len(),
        forall|i: int| 0 <= i < candidates.len() ==> !(#[trigger] host[i]).passes(),
    ensures
        run(begin(candidates), host).phase == (Phase::Finished {
            outcome: Err(FindError::NotFound),
        }),
{
    search_gives_verdict(candidates, host, 0);
    verdict_skips(candidates, host, 0, candidates.len());
}

/// From any state on, the search asks for as many releases as the host loads
/// libraries, and for one more where a library is loaded already.
pub proof fn releases_match_loads(progress: Progress, host: Seq<Library>)
    ensures
        releases(progress, host) == loads(progress, host) + if progress.holds_library() {
            1nat
        } else {
            0nat
        },
    decreases progress.steps_left(),
{
    if !(progress.phase is Finished) {
        releases_match_loads(progress.next(reply(progress, host)), host);
    }
}

/// Over a whole search, the host is asked to release a library exactly as
/// often as it loaded one, whatever the candidates lead to.
pub proof fn every_load_is_released(candidates: Seq<String>, host: Seq<Library>)
    ensures
        releases(begin(candidates), host) == loads(begin(candidates), host),
{
    releases_match_loads(begin(candidates), host);
}

/// The candidates from `from` up to `upto` do not pass: the verdict is that of
/// the candidates from `upto` on.
proof fn verdict_skips(candidates: Seq<String>, host: Seq<Library>, from: nat, upto: nat)
    requires
        from <= upto <= candidates.len(),
        forall|i: int| from <= i < upto ==> !(#[trigger] host[i]).passes(),
    ensures
        verdict(candidates, host, from) == verdict(candidates, host, upto),
    decreases upto - from,
{
    if from < upto {
        verdict_skips(candidates, host, from + 1, upto);
    }
}

} // verus!
