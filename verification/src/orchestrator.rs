//! Running one pipeline per manifest entry and collecting the outcomes.
//!
//! The concurrent scheduling itself lives in the surrounding application —
//! the order in which entries settle is unconstrained anyway — and every
//! entry's outcome is a function of that entry's own outside answers alone,
//! which is what makes the concurrency sound: `run` is the sequential
//! kernel, and the isolation lemma states that one entry's answers cannot
//! reach any other entry's outcome.

use vstd::prelude::*;
use crate::pipeline::{outcome_of, run_entry, EntryEnv, EntryEnvView};
use crate::types::{DownloadOutcome, ManifestEntry};

verus! {

/// Runs one pipeline per entry and returns exactly one outcome per entry,
/// in entry order: the outcome the transition relation assigns to that
/// entry against its own outside answers.
pub fn run(entries: &Vec<ManifestEntry>, envs: Vec<EntryEnv>) -> (outcomes: Vec<DownloadOutcome>)
    requires
        envs@.len() == entries@.len(),
    ensures
        outcomes@.len() == entries@.len(),
        forall|i: int|
            0 <= i < entries@.len() ==> #[trigger] outcomes@[i]@ == outcome_of(
                entries@[i],
                envs@[i]@,
            ),
{
    let ghost all_envs = envs@;
    let mut envs = envs;
    let mut outcomes: Vec<DownloadOutcome> = Vec::new();
    let mut scratch: Vec<u8> = Vec::new();
    let mut i: usize = 0;
    while i < entries.len()
        invariant
            i <= entries@.len(),
            all_envs.len() == entries@.len(),
            envs@ =~= all_envs.subrange(i as int, all_envs.len() as int),
            outcomes@.len() == i,
            forall|j: int|
                0 <= j < i ==> #[trigger] outcomes@[j]@ == outcome_of(entries@[j], all_envs[j]@),
        decreases entries@.len() - i,
    {
        let env = envs.remove(0);
        let entry = entries[i];
        let outcome = run_entry(entry, env, &mut scratch);
        outcomes.push(outcome);
        i = i + 1;
        assert(envs@ =~= all_envs.subrange(i as int, all_envs.len() as int));
    }
    outcomes
}

/// Failure isolation: change one entry's outside answers — let it fail at
/// any stage — and every other entry's outcome is exactly what it was.
pub proof fn lemma_failure_isolation(
    entries: Seq<ManifestEntry>,
    envs1: Seq<EntryEnvView>,
    envs2: Seq<EntryEnvView>,
    k: int,
)
    requires
        envs1.len() == entries.len(),
        envs2.len() == entries.len(),
        forall|i: int| 0 <= i < entries.len() && i != k ==> envs1[i] == envs2[i],
    ensures
        forall|i: int|
            0 <= i < entries.len() && i != k ==> outcome_of(entries[i], envs1[i]) == outcome_of(
                entries[i],
                envs2[i],
            ),
{
}

} // verus!
