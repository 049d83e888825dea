//! Degraded-mode catalog logic: assembling a game list from whatever parsed,
//! and hydrating tag query results while tolerating individual failures.
//!
//! Reading a directory or fetching over the network happens outside this
//! crate; these functions take the per-entry outcomes and decide what the
//! caller sees, so a whole call never fails because one entry did.

use vstd::prelude::*;
use crate::game::DevcadeGame;

verus! {

/// The games among a scan's per-directory parse outcomes, in order; a
/// directory whose manifest was missing or malformed contributes nothing.
pub open spec fn present_games(s: Seq<Option<DevcadeGame>>) -> Seq<DevcadeGame>
    decreases s.len(),
{
    if s.len() == 0 {
        Seq::empty()
    } else {
        let rest = present_games(s.drop_last());
        match s.last() {
            Some(g) => rest.push(g),
            None => rest,
        }
    }
}

/// How many outcomes in a scan carried a valid manifest.
pub open spec fn count_present(s: Seq<Option<DevcadeGame>>) -> nat
    decreases s.len(),
{
    if s.len() == 0 {
        0
    } else {
        count_present(s.drop_last()) + if s.last() is Some {
            1nat
        } else {
            0nat
        }
    }
}

/// A storage scan over directories with the given parse outcomes returns
/// exactly the valid manifests: it never fails outright because some
/// directories lack one.
pub fn games_from_scan(parsed: Vec<Option<DevcadeGame>>) -> (r: Vec<DevcadeGame>)
    ensures
        r@ == present_games(parsed@),
{
    let mut out: Vec<DevcadeGame> = Vec::new();
    let mut i: usize = 0;
    while i < parsed.len()
        invariant
            i <= parsed@.len(),
            out@ == present_games(parsed@.take(i as int)),
        decreases parsed@.len() - i,
    {
        proof {
            assert(parsed@.take(i + 1).drop_last() =~= parsed@.take(i as int));
            assert(parsed@.take(i + 1).last() == parsed@[i as int]);
        }
        match &parsed[i] {
            Some(g) => {
                out.push(g.clone());
            },
            None => {},
        }
        i += 1;
    }
    proof {
        assert(parsed@.take(parsed@.len() as int) =~= parsed@);
    }
    out
}

/// A scan over `n` valid and `m` invalid directories yields exactly `n`
/// games.
pub proof fn lemma_scan_keeps_exactly_the_valid(s: Seq<Option<DevcadeGame>>)
    ensures
        present_games(s).len() == count_present(s),
    decreases s.len(),
{
    if s.len() > 0 {
        lemma_scan_keeps_exactly_the_valid(s.drop_last());
    }
}

/// The games among a batch of hydration outcomes, in order.
pub open spec fn hydrated_ok(s: Seq<Result<DevcadeGame, String>>) -> Seq<DevcadeGame>
    decreases s.len(),
{
    if s.len() == 0 {
        Seq::empty()
    } else {
        let rest = hydrated_ok(s.drop_last());
        match s.last() {
            Ok(g) => rest.push(g),
            Err(_) => rest,
        }
    }
}

/// The warnings a batch of hydration outcomes leaves behind, in order.
pub open spec fn hydration_warnings(s: Seq<Result<DevcadeGame, String>>) -> Seq<String>
    decreases s.len(),
{
    if s.len() == 0 {
        Seq::empty()
    } else {
        let rest = hydration_warnings(s.drop_last());
        match s.last() {
            Ok(_) => rest,
            Err(e) => rest.push(e),
        }
    }
}

/// Split a batch of hydration outcomes into the games that hydrated and the
/// warnings for those that did not. The enclosing query succeeds with the
/// hydrated subset whatever the warnings say.
pub fn hydrated_games(results: Vec<Result<DevcadeGame, String>>) -> (r: (
    Vec<DevcadeGame>,
    Vec<String>,
))
    ensures
        r.0@ == hydrated_ok(results@),
        r.1@ == hydration_warnings(results@),
{
    let mut games: Vec<DevcadeGame> = Vec::new();
    let mut warnings: Vec<String> = Vec::new();
    let mut i: usize = 0;
    while i < results.len()
        invariant
            i <= results@.len(),
            games@ == hydrated_ok(results@.take(i as int)),
            warnings@ == hydration_warnings(results@.take(i as int)),
        decreases results@.len() - i,
    {
        proof {
            assert(results@.take(i + 1).drop_last() =~= results@.take(i as int));
            assert(results@.take(i + 1).last() == results@[i as int]);
        }
        match &results[i] {
            Ok(g) => {
                games.push(g.clone());
            },
            Err(e) => {
                warnings.push(e.clone());
            },
        }
        i += 1;
    }
    proof {
        assert(results@.take(results@.len() as int) =~= results@);
    }
    (games, warnings)
}

/// Every hydration outcome lands either in the game list or in the warning
/// list, never both and never neither.
pub proof fn lemma_hydration_partition(s: Seq<Result<DevcadeGame, String>>)
    ensures
        hydrated_ok(s).len() + hydration_warnings(s).len() == s.len(),
    decreases s.len(),
{
    if s.len() > 0 {
        lemma_hydration_partition(s.drop_last());
    }
}

/// If exactly one of `k` hydration fetches fails, the query still succeeds,
/// with exactly `k - 1` games and one warning.
pub proof fn lemma_one_failed_hydration_drops_one(s: Seq<Result<DevcadeGame, String>>)
    requires
        hydration_warnings(s).len() == 1,
    ensures
        hydrated_ok(s).len() == s.len() - 1,
{
    lemma_hydration_partition(s);
}

/// When every hydration succeeds, every game comes back and nothing is
/// logged.
pub proof fn lemma_all_hydrations_ok(s: Seq<Result<DevcadeGame, String>>)
    requires
        forall|k: int| 0 <= k < s.len() ==> #[trigger] s[k] is Ok,
    ensures
        hydrated_ok(s).len() == s.len(),
        hydration_warnings(s) == Seq::<String>::empty(),
    decreases s.len(),
{
    if s.len() > 0 {
        let prefix = s.drop_last();
        assert forall|k: int| 0 <= k < prefix.len() implies #[trigger] prefix[k] is Ok by {
            assert(prefix[k] == s[k]);
        }
        lemma_all_hydrations_ok(prefix);
    }
}

/// When exactly one of `k` concurrent hydration fetches fails — the one at
/// index `j` — the query yields the `k - 1` hydrated games and exactly one
/// warning, the failed fetch's own message; the single failure never turns
/// into a failure of the whole query.
pub proof fn lemma_single_failure_keeps_the_rest(s: Seq<Result<DevcadeGame, String>>, j: int)
    requires
        0 <= j < s.len(),
        s[j] is Err,
        forall|k: int| 0 <= k < s.len() && k != j ==> #[trigger] s[k] is Ok,
    ensures
        hydrated_ok(s).len() == s.len() - 1,
        hydration_warnings(s) == seq![s[j]->Err_0],
    decreases s.len(),
{
    let prefix = s.drop_last();
    if j == s.len() - 1 {
        assert forall|k: int| 0 <= k < prefix.len() implies #[trigger] prefix[k] is Ok by {
            assert(prefix[k] == s[k]);
        }
        lemma_all_hydrations_ok(prefix);
        assert(hydration_warnings(s) =~= seq![s[j]->Err_0]);
    } else {
        assert(prefix[j] == s[j]);
        assert forall|k: int| 0 <= k < prefix.len() && k != j implies #[trigger] prefix[k]
            is Ok by {
            assert(prefix[k] == s[k]);
        }
        lemma_single_failure_keeps_the_rest(prefix, j);
        assert(s.last() is Ok);
    }
}

} // verus!
