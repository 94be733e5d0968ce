use python_finder::probe::{
    accepts, Action, Event, FindError, Search, NOT_FOUND_MESSAGE, VERSION_SYMBOL,
};

fn paths(names: &[&str]) -> Vec<String> {
    names.iter().map(|name| name.to_string()).collect()
}

fn load(path: &str) -> Action {
    Action::Load { path: path.to_string(), global: true }
}

fn resolve() -> Action {
    Action::Resolve { symbol: "Py_GetVersion" }
}

fn found(path: &str) -> Action {
    Action::Finish { outcome: Ok(path.to_string()) }
}

fn not_found() -> Action {
    Action::Finish { outcome: Err(FindError::NotFound) }
}

/// What a candidate leads to on the host of a test.
struct Library {
    loads: bool,
    exports_symbol: bool,
    reported: Vec<u8>,
    release: Result<(), String>,
}

fn library(reported: &[u8]) -> Library {
    Library { loads: true, exports_symbol: true, reported: reported.to_vec(), release: Ok(()) }
}

fn unloadable() -> Library {
    Library { loads: false, exports_symbol: false, reported: Vec::new(), release: Ok(()) }
}

fn without_symbol() -> Library {
    Library { loads: true, exports_symbol: false, reported: Vec::new(), release: Ok(()) }
}

fn stuck(reported: &[u8], reason: &str) -> Library {
    Library {
        loads: true,
        exports_symbol: true,
        reported: reported.to_vec(),
        release: Err(reason.to_string()),
    }
}

/// What a search did on the host of a test.
struct Report {
    outcome: Result<String, FindError>,
    loaded: Vec<String>,
    load_calls: usize,
    release_calls: usize,
    held_at_most: usize,
}

/// Runs a search of `candidates` to its end; `host` says what each leads to.
fn search(candidates: &[&str], host: &[Library]) -> Report {
    assert_eq!(candidates.len(), host.len());
    let mut search = Search::start(paths(candidates));
    let mut current: Option<usize> = None;
    let mut held: usize = 0;
    let mut report = Report {
        outcome: Err(FindError::NotFound),
        loaded: Vec::new(),
        load_calls: 0,
        release_calls: 0,
        held_at_most: 0,
    };
    for _ in 0..(4 * candidates.len() + 1) {
        let event = match search.action() {
            Action::Load { path, global } => {
                assert!(global);
                let index = current.map_or(0, |index| index + 1);
                assert_eq!(path, candidates[index]);
                current = Some(index);
                report.load_calls += 1;
                if host[index].loads {
                    report.loaded.push(path);
                    held += 1;
                    report.held_at_most = report.held_at_most.max(held);
                    Event::Loaded
                } else {
                    Event::LoadFailed
                }
            }
            Action::Resolve { symbol } => {
                assert_eq!(symbol, "Py_GetVersion");
                assert_eq!(held, 1);
                if host[current.unwrap()].exports_symbol {
                    Event::SymbolFound
                } else {
                    Event::SymbolMissing
                }
            }
            Action::Invoke => {
                assert_eq!(held, 1);
                Event::Returned(host[current.unwrap()].reported.clone())
            }
            Action::Release => {
                assert_eq!(held, 1);
                held -= 1;
                report.release_calls += 1;
                match &host[current.unwrap()].release {
                    Ok(()) => Event::Released,
                    Err(reason) => Event::ReleaseFailed(reason.clone()),
                }
            }
            Action::Finish { outcome } => {
                assert_eq!(held, 0);
                report.outcome = outcome;
                return report;
            }
        };
        assert!(search.awaits(&event));
        search = search.step(event);
    }
    panic!("the search did not end");
}

#[test]
fn a_candidate_that_does_not_load_is_skipped() {
    let search = Search::start(paths(&["/missing/libpython3.so", "/usr/lib/libpython3.8.so.1.0"]));
    assert_eq!(search.action(), load("/missing/libpython3.so"));
    let search = search.step(Event::LoadFailed);
    assert_eq!(search.action(), load("/usr/lib/libpython3.8.so.1.0"));
    let search = search.step(Event::Loaded);
    assert_eq!(search.action(), resolve());
    let search = search.step(Event::SymbolFound);
    assert_eq!(search.action(), Action::Invoke);
    let search = search.step(Event::Returned(b"3.8.10 (default, Nov 22 2023) [GCC 9.4.0]".to_vec()));
    assert_eq!(search.action(), Action::Release);
    let search = search.step(Event::Released);
    assert_eq!(search.action(), found("/usr/lib/libpython3.8.so.1.0"));
}

#[test]
fn the_first_candidate_that_passes_ends_the_search() {
    let report = search(
        &["a", "b", "c", "d"],
        &[unloadable(), library(b"2.7.18"), library(b"3.9.1"), library(b"3.12.0")],
    );
    assert_eq!(report.outcome, Ok("c".to_string()));
    assert_eq!(report.load_calls, 3);
    assert_eq!(report.loaded, vec!["b".to_string(), "c".to_string()]);
    assert_eq!(report.release_calls, 2);
}

#[test]
fn no_candidates_nothing_found() {
    let search = Search::start(Vec::new());
    assert_eq!(search.action(), not_found());
    let report = self::search(&[], &[]);
    assert_eq!(report.outcome, Err(FindError::NotFound));
    assert_eq!(report.load_calls, 0);
    assert_eq!(report.release_calls, 0);
}

#[test]
fn no_candidate_passes_nothing_found() {
    let report = search(
        &["a", "b", "c", "d", "e", "f", "g"],
        &[
            unloadable(),
            without_symbol(),
            library(&[0x33, 0x2e, 0xff]),
            library(b"three.eight"),
            library(b"3.2.6"),
            library(b"2.9"),
            library(b"4.0"),
        ],
    );
    assert_eq!(report.outcome, Err(FindError::NotFound));
    assert_eq!(report.load_calls, 7);
    assert_eq!(report.loaded.len(), 6);
    assert_eq!(report.release_calls, 6);
}

#[test]
fn every_library_that_was_loaded_is_released() {
    let kinds: [fn() -> Library; 7] = [
        unloadable,
        without_symbol,
        || library(&[0xc3, 0x28]),
        || library(b"3."),
        || library(b"3.2"),
        || library(b"3.3"),
        || stuck(b"3.1", "busy"),
    ];
    for first in kinds.iter() {
        for second in kinds.iter() {
            for third in kinds.iter() {
                let report = search(&["a", "b", "c"], &[first(), second(), third()]);
                assert_eq!(report.release_calls, report.loaded.len());
                assert!(report.held_at_most <= 1);
            }
        }
    }
}

#[test]
fn a_library_without_the_symbol_is_released_and_skipped() {
    let search = Search::start(paths(&["a", "b"]));
    let search = search.step(Event::Loaded);
    assert_eq!(search.action(), resolve());
    let search = search.step(Event::SymbolMissing);
    assert_eq!(search.action(), Action::Release);
    let search = search.step(Event::Released);
    assert_eq!(search.action(), load("b"));
}

#[test]
fn a_version_that_is_no_text_is_rejected() {
    let search = Search::start(paths(&["a"]));
    let search = search.step(Event::Loaded).step(Event::SymbolFound);
    let search = search.step(Event::Returned(vec![0x33, 0x2e, 0x38, 0xff]));
    assert_eq!(search.action(), Action::Release);
    let search = search.step(Event::Released);
    assert_eq!(search.action(), not_found());
}

#[test]
fn a_version_that_is_too_old_is_rejected() {
    for reported in [&b"3.2.6"[..], b"2.7.18", b"4.0.0", b"3", b"", b"python 3.8"] {
        let search = Search::start(paths(&["a", "b"]));
        let search = search.step(Event::Loaded).step(Event::SymbolFound);
        let search = search.step(Event::Returned(reported.to_vec()));
        assert_eq!(search.action(), Action::Release);
        let search = search.step(Event::Released);
        assert_eq!(search.action(), load("b"));
    }
}

#[test]
fn a_release_that_fails_after_acceptance_is_the_result() {
    let report = search(&["a", "b"], &[stuck(b"3.7.0", "library is busy"), library(b"3.8.0")]);
    assert_eq!(report.outcome, Err(FindError::ReleaseFailed("library is busy".to_string())));
    assert_eq!(report.load_calls, 1);
    assert_eq!(report.release_calls, 1);
}

#[test]
fn a_release_that_fails_after_rejection_is_passed_over() {
    let report = search(&["a", "b"], &[stuck(b"2.7.0", "library is busy"), library(b"3.8.0")]);
    assert_eq!(report.outcome, Ok("b".to_string()));
    assert_eq!(report.release_calls, 2);
    let report = search(&["a"], &[stuck(b"2.7.0", "library is busy")]);
    assert_eq!(report.outcome, Err(FindError::NotFound));
}

#[test]
fn an_event_that_is_no_answer_changes_nothing() {
    let search = Search::start(paths(&["a", "b"]));
    assert!(search.awaits(&Event::Loaded));
    assert!(search.awaits(&Event::LoadFailed));
    assert!(!search.awaits(&Event::Released));
    assert!(!search.awaits(&Event::SymbolFound));
    assert!(!search.awaits(&Event::Returned(b"3.8".to_vec())));
    let search = search.step(Event::Released);
    assert_eq!(search.action(), load("a"));
    let search = search.step(Event::Returned(b"3.8".to_vec()));
    assert_eq!(search.action(), load("a"));
    let search = search.step(Event::Loaded);
    assert!(!search.awaits(&Event::Loaded));
    assert!(search.awaits(&Event::SymbolMissing));
    let search = search.step(Event::Loaded);
    assert_eq!(search.action(), resolve());
    let search = search.step(Event::SymbolFound);
    assert!(search.awaits(&Event::Returned(Vec::new())));
    assert!(!search.awaits(&Event::SymbolFound));
    let search = search.step(Event::LoadFailed);
    assert_eq!(search.action(), Action::Invoke);
    let search = search.step(Event::Returned(b"3.8".to_vec()));
    assert!(search.awaits(&Event::Released));
    assert!(search.awaits(&Event::ReleaseFailed("busy".to_string())));
    assert!(!search.awaits(&Event::Returned(Vec::new())));
    let search = search.step(Event::SymbolMissing);
    assert_eq!(search.action(), Action::Release);
}

#[test]
fn a_search_that_is_over_stays_over() {
    let search = Search::start(paths(&["a"]));
    let search = search.step(Event::Loaded).step(Event::SymbolFound);
    let search = search.step(Event::Returned(b"3.8".to_vec())).step(Event::Released);
    assert_eq!(search.action(), found("a"));
    for event in [Event::Loaded, Event::LoadFailed, Event::Released, Event::SymbolFound] {
        assert!(!search.awaits(&event));
    }
    let search = search.step(Event::LoadFailed).step(Event::Released);
    assert_eq!(search.action(), found("a"));
}

#[test]
fn reported_versions_are_judged_as_text() {
    assert!(accepts(b"3.3"));
    assert!(accepts(b"3.11.4 (main, Jun  7 2023, 10:13:09) [GCC 12.2.0]"));
    assert!(accepts("3.8\u{e9}".as_bytes()));
    assert!(!accepts(b"3.2"));
    assert!(!accepts(b"2.9"));
    assert!(!accepts(b"4.0"));
    assert!(!accepts(b""));
    assert!(!accepts(b"3"));
    assert!(!accepts(b"3."));
    assert!(!accepts(&[0x33, 0x2e, 0x38, 0x80]));
    assert!(!accepts(&[0xff, 0x33, 0x2e, 0x38]));
    assert!(!accepts(&[0x33, 0x2e, 0x38, 0xed, 0xa0, 0x80]));
}

#[test]
fn the_errors_have_a_text() {
    assert_eq!(FindError::NotFound.message(), "No suitable Python 3 installation found.");
    assert_eq!(FindError::NotFound.message(), NOT_FOUND_MESSAGE);
    assert_eq!(FindError::ReleaseFailed("library is busy".to_string()).message(), "library is busy");
}

#[test]
fn the_symbol_is_the_version_function() {
    assert_eq!(VERSION_SYMBOL, "Py_GetVersion");
}
