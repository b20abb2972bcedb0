//! Folding the outcomes of all attempts, in candidate order, into one
//! discovery result.

use vstd::prelude::*;

use crate::parsed_url::ParsedUrl;
use crate::url_discovery::{UrlDiscoveryAttemptError, UrlDiscoveryAttemptSuccess, WpApiDetails};

verus! {

pub type AttemptOutcome = Result<UrlDiscoveryAttemptSuccess, UrlDiscoveryAttemptError>;

#[derive(Debug, Clone, PartialEq, Eq)]
pub enum UrlDiscoveryState {
    Success(UrlDiscoveryAttemptSuccess),
    Failure(UrlDiscoveryAttemptError),
}

/// The chosen attempt, with every attempt in candidate order.
#[derive(Debug, Clone, PartialEq, Eq)]
pub struct UrlDiscoverySuccess {
    pub site_url: ParsedUrl,
    pub api_root_url: ParsedUrl,
    pub api_details: WpApiDetails,
    pub attempts: Vec<UrlDiscoveryState>,
}

#[derive(Debug, Clone, PartialEq, Eq)]
pub enum UrlDiscoveryError {
    /// The input gave no candidate, so nothing was attempted.
    CandidateGenerationEmpty,
    /// Every attempt failed; all of them, in candidate order.
    AllAttemptsFailed { attempts: Vec<UrlDiscoveryState> },
}

pub open spec fn state_of(o: AttemptOutcome) -> UrlDiscoveryState {
    match o {
        Ok(s) => UrlDiscoveryState::Success(s),
        Err(e) => UrlDiscoveryState::Failure(e),
    }
}

pub open spec fn states_of(outcomes: Seq<AttemptOutcome>) -> Seq<UrlDiscoveryState> {
    outcomes.map_values(|o: AttemptOutcome| state_of(o))
}

/// The first successful attempt in candidate order.
pub open spec fn chosen_attempt(outcomes: Seq<AttemptOutcome>) -> Option<UrlDiscoveryAttemptSuccess>
    decreases outcomes.len(),
{
    if outcomes.len() == 0 {
        None
    } else {
        match outcomes[0] {
            Ok(s) => Some(s),
            Err(_) => chosen_attempt(outcomes.drop_first()),
        }
    }
}

/// `d` reports the attempt `s` as the winner, with `attempts` as history.
pub open spec fn reports(d: UrlDiscoverySuccess, s: UrlDiscoveryAttemptSuccess, attempts: Seq<
    UrlDiscoveryState,
>) -> bool {
    &&& d.site_url == s.site_url
    &&& d.api_root_url == s.api_root_url
    &&& d.api_details.name == s.api_details.name
    &&& d.api_details.description == s.api_details.description
    &&& d.api_details.url == s.api_details.url
    &&& d.api_details.home == s.api_details.home
    &&& d.api_details.namespaces@ == s.api_details.namespaces@
    &&& d.api_details.site_icon_url == s.api_details.site_icon_url
    &&& d.attempts@ == attempts
}

proof fn lemma_chosen_skips_failures(outcomes: Seq<AttemptOutcome>, i: int)
    requires
        0 <= i <= outcomes.len(),
        forall|j: int| 0 <= j < i ==> outcomes[j] is Err,
    ensures
        chosen_attempt(outcomes) == chosen_attempt(outcomes.subrange(i, outcomes.len() as int)),
    decreases i,
{
    if i > 0 {
        let rest = outcomes.drop_first();
        assert(rest.subrange(i - 1, rest.len() as int) =~= outcomes.subrange(i, outcomes.len() as int));
        lemma_chosen_skips_failures(rest, i - 1);
    } else {
        assert(outcomes.subrange(0, outcomes.len() as int) =~= outcomes);
    }
}

/// The winner is the earliest successful attempt in candidate order, however
/// many later attempts also succeed and whenever they completed.
pub proof fn lemma_earliest_success_wins(outcomes: Seq<AttemptOutcome>, i: int)
    requires
        0 <= i < outcomes.len(),
        outcomes[i] is Ok,
        forall|j: int| 0 <= j < i ==> outcomes[j] is Err,
    ensures
        chosen_attempt(outcomes) == Some(outcomes[i]->Ok_0),
{
    lemma_chosen_skips_failures(outcomes, i);
}

/// When exactly one attempt succeeds, it is the winner, wherever it stands.
pub proof fn lemma_sole_success_wins(outcomes: Seq<AttemptOutcome>, i: int)
    requires
        0 <= i < outcomes.len(),
        outcomes[i] is Ok,
        forall|j: int| 0 <= j < outcomes.len() && j != i ==> outcomes[j] is Err,
    ensures
        chosen_attempt(outcomes) == Some(outcomes[i]->Ok_0),
{
    lemma_earliest_success_wins(outcomes, i);
}

/// When the first candidate succeeds, it is the winner, whatever the others
/// gave.
pub proof fn lemma_first_candidate_has_priority(outcomes: Seq<AttemptOutcome>)
    requires
        outcomes.len() > 0,
        outcomes[0] is Ok,
    ensures
        chosen_attempt(outcomes) == Some(outcomes[0]->Ok_0),
{
}

/// With no successful attempt there is no winner, and the history has one
/// failure per candidate, in candidate order, each with its own phase.
pub proof fn lemma_all_failed_history(outcomes: Seq<AttemptOutcome>)
    requires
        forall|j: int| 0 <= j < outcomes.len() ==> outcomes[j] is Err,
    ensures
        chosen_attempt(outcomes) is None,
        states_of(outcomes).len() == outcomes.len(),
        forall|j: int|
            0 <= j < outcomes.len() ==> #[trigger] states_of(outcomes)[j]
                == UrlDiscoveryState::Failure(outcomes[j]->Err_0),
{
    lemma_chosen_skips_failures(outcomes, outcomes.len() as int);
}

/// The same outcomes always give the same winner and the same history.
pub proof fn lemma_selection_is_deterministic(a: Seq<AttemptOutcome>, b: Seq<AttemptOutcome>)
    requires
        a == b,
    ensures
        chosen_attempt(a) == chosen_attempt(b),
        states_of(a) == states_of(b),
{
}

fn duplicate_attempt(s: &UrlDiscoveryAttemptSuccess) -> (r: (ParsedUrl, ParsedUrl, WpApiDetails))
    ensures
        r.0 == s.site_url,
        r.1 == s.api_root_url,
        r.2.name == s.api_details.name,
        r.2.description == s.api_details.description,
        r.2.url == s.api_details.url,
        r.2.home == s.api_details.home,
        r.2.namespaces@ == s.api_details.namespaces@,
        r.2.site_icon_url == s.api_details.site_icon_url,
{
    (s.site_url.duplicate(), s.api_root_url.duplicate(), s.api_details.duplicate())
}

/// Folds the outcomes of all attempts, given in candidate order, into the
/// discovery result: the first success in that order wins, and every
/// attempt is kept, in that order, whether one succeeded or not.
pub fn api_discovery_result(outcomes: Vec<AttemptOutcome>) -> (r: Result<
    UrlDiscoverySuccess,
    UrlDiscoveryError,
>)
    ensures
        chosen_attempt(outcomes@) matches Some(s) ==> (r matches Ok(d) && reports(
            d,
            s,
            states_of(outcomes@),
        )),
        chosen_attempt(outcomes@) is None && outcomes@.len() == 0 ==> r
            == Err::<UrlDiscoverySuccess, _>(UrlDiscoveryError::CandidateGenerationEmpty),
        chosen_attempt(outcomes@) is None && outcomes@.len() > 0 ==> (r matches Err(
            UrlDiscoveryError::AllAttemptsFailed { attempts },
        ) && attempts@ == states_of(outcomes@)),
{
    let ghost all = outcomes@;
    let mut winner: Option<(ParsedUrl, ParsedUrl, WpApiDetails)> = None;
    let ghost mut winner_index: int = -1;
    let mut i: usize = 0;
    while i < outcomes.len()
        invariant
            all == outcomes@,
            i <= outcomes.len(),
            winner is None ==> forall|j: int| 0 <= j < i ==> all[j] is Err,
            winner matches Some(w) ==> {
                &&& 0 <= winner_index < i
                &&& all[winner_index] is Ok
                &&& forall|j: int| 0 <= j < winner_index ==> all[j] is Err
                &&& w.0 == all[winner_index]->Ok_0.site_url
                &&& w.1 == all[winner_index]->Ok_0.api_root_url
                &&& w.2.name == all[winner_index]->Ok_0.api_details.name
                &&& w.2.description == all[winner_index]->Ok_0.api_details.description
                &&& w.2.url == all[winner_index]->Ok_0.api_details.url
                &&& w.2.home == all[winner_index]->Ok_0.api_details.home
                &&& w.2.namespaces@ == all[winner_index]->Ok_0.api_details.namespaces@
                &&& w.2.site_icon_url == all[winner_index]->Ok_0.api_details.site_icon_url
            },
        decreases outcomes.len() - i,
    {
        if winner.is_none() {
            match &outcomes[i] {
                Ok(s) => {
                    winner = Some(duplicate_attempt(s));
                    proof {
                        winner_index = i as int;
                    }
                },
                Err(_) => {},
            }
        }
        i = i + 1;
    }
    proof {
        match winner {
            Some(_) => lemma_earliest_success_wins(all, winner_index),
            None => lemma_all_failed_history(all),
        }
    }
    let mut attempts: Vec<UrlDiscoveryState> = Vec::new();
    let mut rest = outcomes;
    while rest.len() > 0
        invariant
            rest@.len() <= all.len(),
            rest@ == all.subrange((all.len() - rest@.len()) as int, all.len() as int),
            attempts@ == states_of(all.subrange(0, (all.len() - rest@.len()) as int)),
        decreases rest.len(),
    {
        let ghost done = (all.len() - rest@.len()) as int;
        let o = rest.remove(0);
        assert(o == all[done]);
        attempts.push(
            match o {
                Ok(s) => UrlDiscoveryState::Success(s),
                Err(e) => UrlDiscoveryState::Failure(e),
            },
        );
        assert(attempts@ =~= states_of(all.subrange(0, done + 1)));
        assert(rest@ =~= all.subrange(done + 1, all.len() as int));
    }
    assert(all.subrange(0, all.len() as int) =~= all);
    match winner {
        Some((site_url, api_root_url, api_details)) => Ok(
            UrlDiscoverySuccess { site_url, api_root_url, api_details, attempts },
        ),
        None => {
            if attempts.len() == 0 {
                Err(UrlDiscoveryError::CandidateGenerationEmpty)
            } else {
                Err(UrlDiscoveryError::AllAttemptsFailed { attempts })
            }
        },
    }
}

} // verus!
