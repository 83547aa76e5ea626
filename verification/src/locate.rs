//! Discovery of the Maya Python interpreter, with a first-success-wins
//! cache.
//!
//! The locator itself never touches the filesystem: it hands the caller the
//! ordered candidate install locations and takes back one boolean per
//! candidate. A path found once is cached and answered verbatim from then
//! on, deliberately without re-checking the filesystem; a failed search
//! leaves the cache empty so the next call probes again.

use vstd::prelude::*;

use crate::errors::CleanError;
use crate::errors::CleanErrorV;
use crate::resolve::first_hit;
use crate::resolve::first_true;
use crate::resolve::lemma_first_hit;

verus! {

/// How many candidate install locations are probed.
pub open spec fn candidate_count() -> int {
    6
}

/// The fixed install location probed at priority `i`: one product year per
/// candidate, newest first.
pub open spec fn interpreter_candidate(i: int) -> Seq<char> {
    if i == 0 {
        "C:\\Program Files\\Autodesk\\Maya2025\\bin\\mayapy.exe"@
    } else if i == 1 {
        "C:\\Program Files\\Autodesk\\Maya2024\\bin\\mayapy.exe"@
    } else if i == 2 {
        "C:\\Program Files\\Autodesk\\Maya2023\\bin\\mayapy.exe"@
    } else if i == 3 {
        "C:\\Program Files\\Autodesk\\Maya2022\\bin\\mayapy.exe"@
    } else if i == 4 {
        "C:\\Program Files\\Autodesk\\Maya2021\\bin\\mayapy.exe"@
    } else {
        "C:\\Program Files\\Autodesk\\Maya2020\\bin\\mayapy.exe"@
    }
}

/// Builds the candidate list, newest product year first.
pub fn interpreter_candidates() -> (v: Vec<String>)
    ensures
        v@.len() == candidate_count(),
        forall|i: int| 0 <= i < candidate_count() ==> v.deep_view()[i] == interpreter_candidate(i),
{
    let mut v: Vec<String> = Vec::new();
    v.push("C:\\Program Files\\Autodesk\\Maya2025\\bin\\mayapy.exe".to_owned());
    v.push("C:\\Program Files\\Autodesk\\Maya2024\\bin\\mayapy.exe".to_owned());
    v.push("C:\\Program Files\\Autodesk\\Maya2023\\bin\\mayapy.exe".to_owned());
    v.push("C:\\Program Files\\Autodesk\\Maya2022\\bin\\mayapy.exe".to_owned());
    v.push("C:\\Program Files\\Autodesk\\Maya2021\\bin\\mayapy.exe".to_owned());
    v.push("C:\\Program Files\\Autodesk\\Maya2020\\bin\\mayapy.exe".to_owned());
    proof {
        assert forall|i: int| 0 <= i < candidate_count() implies v.deep_view()[i]
            == interpreter_candidate(i) by {
            assert(v.deep_view()[i] == v@[i]@);
        }
    }
    v
}

/// What one probing pass yields: the newest candidate that exists, if any.
pub open spec fn probe_outcome(found: Seq<bool>) -> Option<Seq<char>> {
    match first_hit(found) {
        Some(i) => Some(interpreter_candidate(i)),
        None => None,
    }
}

/// What one whole locate call returns: the cached path when there is one,
/// else the newest existing candidate.
pub open spec fn locate_outcome(state: Option<Seq<char>>, found: Seq<bool>) -> Option<Seq<char>> {
    match state {
        Some(p) => Some(p),
        None => probe_outcome(found),
    }
}

/// The cache after one whole locate call: a success is remembered, a
/// failure leaves the cache as it was.
pub open spec fn state_after_locate(state: Option<Seq<char>>, found: Seq<bool>) -> Option<
    Seq<char>,
> {
    match locate_outcome(state, found) {
        Some(p) => Some(p),
        None => state,
    }
}

/// Law: locating twice gives the identical path both times, and the second
/// call needs no probing pass — its answer does not depend on the probe at
/// all, because after a success the cache holds the path and answers
/// verbatim.
pub proof fn lemma_locate_twice(state: Option<Seq<char>>, f1: Seq<bool>, f2: Seq<bool>)
    requires
        locate_outcome(state, f1) is Some,
    ensures
        locate_outcome(state_after_locate(state, f1), f2) == locate_outcome(state, f1),
        state_after_locate(state_after_locate(state, f1), f2) == state_after_locate(state, f1),
        state_after_locate(state, f1) is Some,
{
}

/// The locator's first answer: either the cached path, or the candidate
/// locations the caller must probe for existence.
pub enum LocateQuery {
    Cached(String),
    Probe(Vec<String>),
}

/// Discovers and caches the interpreter path.
pub struct ExecutableLocator {
    cached: Option<String>,
}

impl View for ExecutableLocator {
    type V = Option<Seq<char>>;

    closed spec fn view(&self) -> Option<Seq<char>> {
        match &self.cached {
            Some(p) => Some(p@),
            None => None,
        }
    }
}

impl ExecutableLocator {
    /// A locator that has not found anything yet.
    pub fn new() -> (r: ExecutableLocator)
        ensures
            r@ is None,
    {
        ExecutableLocator { cached: None }
    }

    /// First phase of a locate call: a cached path answers at once, with no
    /// filesystem work; otherwise the caller must probe the returned
    /// candidate locations and hand the answers to [`Self::finish_locate`].
    pub fn begin_locate(&self) -> (q: LocateQuery)
        ensures
            match q {
                LocateQuery::Cached(c) => self@ == Some(c@) && forall|f: Seq<bool>|
                    locate_outcome(self@, f) == Some(c@),
                LocateQuery::Probe(v) => self@ is None && v@.len() == candidate_count() && forall|
                    i: int,
                |
                    0 <= i < candidate_count() ==> v.deep_view()[i] == interpreter_candidate(i),
            },
    {
        match &self.cached {
            Some(p) => LocateQuery::Cached(p.clone()),
            None => LocateQuery::Probe(interpreter_candidates()),
        }
    }

    /// Second phase, after a probe: takes one existence answer per
    /// candidate, returns the newest existing one and caches it, or reports
    /// that no interpreter was found, leaving the cache empty so that the
    /// next call probes again.
    pub fn finish_locate(&mut self, found: &Vec<bool>) -> (r: Result<String, CleanError>)
        requires
            old(self)@ is None,
            found@.len() == candidate_count(),
        ensures
            final(self)@ == state_after_locate(old(self)@, found@),
            match r {
                Ok(exe) => locate_outcome(old(self)@, found@) == Some(exe@),
                Err(e) => locate_outcome(old(self)@, found@) is None && e@
                    == CleanErrorV::ExecutableNotFound,
            },
    {
        proof {
            lemma_first_hit(found@);
        }
        match first_true(found) {
            Some(i) => {
                let v = interpreter_candidates();
                let exe = v[i].clone();
                self.cached = Some(exe.clone());
                Ok(exe)
            },
            None => Err(CleanError::ExecutableNotFound),
        }
    }
}

} // verus!
