//! Properties of the store's lifecycle, stated over the same transition
//! functions (`create_ok`, `create_map`, `delete_ok`, `delete_map`,
//! `fetch_of`) that the store's own contracts are written in.

use vstd::prelude::*;

use crate::store::{create_map, create_ok, delete_map, delete_ok, fetch_of};

verus! {

/// Creating the same short id twice: the second `Create` is refused, and the
/// refusal leaves the mapping created first — in particular its target URL —
/// exactly as it was.
pub proof fn lemma_second_create_conflicts(
    m: Map<Seq<char>, Seq<char>>,
    short: Seq<char>,
    target1: Seq<char>,
    target2: Seq<char>,
)
    requires
        create_ok(m, short),
    ensures
        !create_ok(create_map(m, short, target1), short),
        create_map(create_map(m, short, target1), short, target2) == create_map(
            m,
            short,
            target1,
        ),
        fetch_of(create_map(create_map(m, short, target1), short, target2), short) == Some(
            target1,
        ),
{
}

/// A short id that was never created — and so is absent from the store —
/// makes `Fetch`, `Delete` and redirect resolution all fail with absence:
/// there is nothing to return, nothing to remove, and the store stays as it
/// is.
pub proof fn lemma_absent_fails(m: Map<Seq<char>, Seq<char>>, short: Seq<char>)
    requires
        !m.contains_key(short),
    ensures
        fetch_of(m, short) is None,
        !delete_ok(m, short),
        delete_map(m, short) == m,
{
}

/// Round trip: after `Create(short, url)` succeeds, `Fetch(short)` returns
/// exactly that pair.
pub proof fn lemma_create_fetch_round_trip(
    m: Map<Seq<char>, Seq<char>>,
    short: Seq<char>,
    target: Seq<char>,
)
    requires
        create_ok(m, short),
    ensures
        fetch_of(create_map(m, short, target), short) == Some(target),
{
}

/// Idempotence of failure: once a short id is deleted, deleting it again
/// fails with absence and changes nothing — so every further repetition
/// fails the same way.
pub proof fn lemma_repeated_delete_fails(m: Map<Seq<char>, Seq<char>>, short: Seq<char>)
    requires
        delete_ok(m, short),
    ensures
        !delete_ok(delete_map(m, short), short),
        delete_map(delete_map(m, short), short) == delete_map(m, short),
        fetch_of(delete_map(m, short), short) is None,
{
}

/// The store a sequence of `Create` calls for one short id leaves behind,
/// applied oldest first.
pub open spec fn run_creates(
    m: Map<Seq<char>, Seq<char>>,
    short: Seq<char>,
    targets: Seq<Seq<char>>,
) -> Map<Seq<char>, Seq<char>>
    decreases targets.len(),
{
    if targets.len() == 0 {
        m
    } else {
        run_creates(create_map(m, short, targets[0]), short, targets.drop_first())
    }
}

/// How many of those `Create` calls succeed.
pub open spec fn count_create_successes(
    m: Map<Seq<char>, Seq<char>>,
    short: Seq<char>,
    targets: Seq<Seq<char>>,
) -> nat
    decreases targets.len(),
{
    if targets.len() == 0 {
        0
    } else {
        (if create_ok(m, short) {
            1nat
        } else {
            0nat
        }) + count_create_successes(create_map(m, short, targets[0]), short, targets.drop_first())
    }
}

/// On a store that already holds the short id, every `Create` for it fails
/// and the stored target never moves.
pub proof fn lemma_creates_all_fail(
    m: Map<Seq<char>, Seq<char>>,
    short: Seq<char>,
    targets: Seq<Seq<char>>,
)
    requires
        !create_ok(m, short),
    ensures
        count_create_successes(m, short, targets) == 0,
        run_creates(m, short, targets) == m,
    decreases targets.len(),
{
    if targets.len() > 0 {
        lemma_creates_all_fail(m, short, targets.drop_first());
    }
}

/// Any number of `Create` calls race for one free short id — in whichever
/// order the store serialises them: exactly one succeeds, the rest fail with
/// conflict, and the target URL that stays stored is the successful call's.
pub proof fn lemma_one_create_wins(
    m: Map<Seq<char>, Seq<char>>,
    short: Seq<char>,
    targets: Seq<Seq<char>>,
)
    requires
        create_ok(m, short),
        targets.len() >= 1,
    ensures
        count_create_successes(m, short, targets) == 1,
        fetch_of(run_creates(m, short, targets), short) == Some(targets[0]),
{
    let after = create_map(m, short, targets[0]);
    lemma_creates_all_fail(after, short, targets.drop_first());
}

} // verus!
