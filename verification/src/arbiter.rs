//! Driver-exclusivity arbitration.
//!
//! The platform SDK ships two mutually incompatible I2C driver families, and
//! running both against the same hardware register set is undefined
//! behaviour. The arbiter records, once per process run, which family has
//! been selected: the first successful claim locks the selection for the
//! rest of the run, later claims of the same family are accepted
//! (idempotence), and a claim of the other family is a fatal configuration
//! conflict that the embedding program must treat as unrecoverable.

use vstd::prelude::*;

verus! {

/// One of the two mutually incompatible native driver families.
#[derive(Clone, Copy, PartialEq, Eq, Structural, Debug)]
pub enum DriverFamily {
    Legacy,
    Modern,
}

/// What the process-wide selection flag records: no family chosen yet, or
/// one of the two families locked in for the rest of the run.
#[derive(Clone, Copy, PartialEq, Eq, Structural, Debug)]
pub enum DriverSelection {
    Unset,
    Legacy,
    Modern,
}

/// The selection that recording family `f` produces.
pub open spec fn selection_of(f: DriverFamily) -> DriverSelection {
    match f {
        DriverFamily::Legacy => DriverSelection::Legacy,
        DriverFamily::Modern => DriverSelection::Modern,
    }
}

/// A claim of family `f` is accepted exactly when no family has been
/// selected yet, or the selected family is `f` itself.
pub open spec fn claim_accepted(s: DriverSelection, f: DriverFamily) -> bool {
    s == DriverSelection::Unset || s == selection_of(f)
}

/// The selection after a claim of family `f`: the first claim locks the
/// selection, and no later claim changes it, accepted or not.
pub open spec fn claim_next(s: DriverSelection, f: DriverFamily) -> DriverSelection {
    if s == DriverSelection::Unset {
        selection_of(f)
    } else {
        s
    }
}

/// The arbiter: holder of the driver-family selection for one process run.
///
/// A program embeds exactly one of these behind its process-wide atomic
/// flag; the methods here are the entire decision logic of that flag.
pub struct DriverArbiter {
    selection: DriverSelection,
}

impl View for DriverArbiter {
    type V = DriverSelection;

    closed spec fn view(&self) -> DriverSelection {
        self.selection
    }
}

impl DriverArbiter {
    /// A fresh arbiter: no driver family selected, as at process start.
    pub fn new() -> (a: DriverArbiter)
        ensures
            a@ == DriverSelection::Unset,
    {
        DriverArbiter { selection: DriverSelection::Unset }
    }

    /// Attempt to select `family`.
    ///
    /// Returns `true` when the claim is accepted: the flag was unset (and is
    /// now locked to `family`) or already recorded `family`. Returns `false`
    /// on the fatal conflict: the other family is already active, no safe
    /// continuation exists, and the embedding program must terminate rather
    /// than drive the hardware with both families.
    pub fn try_claim(&mut self, family: DriverFamily) -> (accepted: bool)
        ensures
            accepted == claim_accepted(old(self)@, family),
            final(self)@ == claim_next(old(self)@, family),
    {
        let target = match family {
            DriverFamily::Legacy => DriverSelection::Legacy,
            DriverFamily::Modern => DriverSelection::Modern,
        };
        if self.selection == DriverSelection::Unset {
            self.selection = target;
            true
        } else {
            self.selection == target
        }
    }
}

/// The selection left by running `claims` in order, oldest first, from
/// state `s`.
pub open spec fn selection_after(s: DriverSelection, claims: Seq<DriverFamily>) -> DriverSelection
    decreases claims.len(),
{
    if claims.len() == 0 {
        s
    } else {
        selection_after(claim_next(s, claims[0]), claims.drop_first())
    }
}

/// Whether claim `i` of the run `claims`, started from a fresh arbiter, is
/// accepted: the claims before it have run, and it meets the selection they
/// left.
pub open spec fn accepted_at(claims: Seq<DriverFamily>, i: int) -> bool {
    claim_accepted(selection_after(DriverSelection::Unset, claims.take(i)), claims[i])
}

/// A selection, once made, survives any further run of claims.
proof fn lemma_selection_stable(s: DriverSelection, claims: Seq<DriverFamily>)
    requires
        s != DriverSelection::Unset,
    ensures
        selection_after(s, claims) == s,
    decreases claims.len(),
{
    if claims.len() > 0 {
        lemma_selection_stable(s, claims.drop_first());
    }
}

/// After any nonempty run from a fresh arbiter, the selection is the family
/// of the very first claim.
proof fn lemma_selection_locked_by_first(claims: Seq<DriverFamily>)
    requires
        claims.len() > 0,
    ensures
        selection_after(DriverSelection::Unset, claims) == selection_of(claims[0]),
{
    lemma_selection_stable(selection_of(claims[0]), claims.drop_first());
}

/// Law: the first claim decides. In any run of claims on a fresh arbiter, a
/// claim is accepted exactly when it is the first claim or names the same
/// family as the first; every other claim hits the fatal conflict.
pub proof fn lemma_first_claim_decides(claims: Seq<DriverFamily>, i: int)
    requires
        0 <= i < claims.len(),
    ensures
        accepted_at(claims, i) <==> (i == 0 || claims[i] == claims[0]),
{
    if i == 0 {
        assert(claims.take(0) =~= Seq::<DriverFamily>::empty());
    } else {
        let prefix = claims.take(i);
        assert(prefix[0] == claims[0]);
        lemma_selection_locked_by_first(prefix);
    }
}

/// Law: same-family runs never conflict. When every claim of a run names
/// family `f`, every claim is accepted — repeated claims are idempotent, and
/// since any interleaving of claims racing on the flag is such a run, no
/// same-family race can hit the fatal branch.
pub proof fn lemma_same_family_all_accepted(claims: Seq<DriverFamily>, f: DriverFamily)
    requires
        forall|j: int| 0 <= j < claims.len() ==> claims[j] == f,
    ensures
        forall|i: int| 0 <= i < claims.len() ==> accepted_at(claims, i),
{
    assert forall|i: int| 0 <= i < claims.len() implies accepted_at(claims, i) by {
        lemma_first_claim_decides(claims, i);
    }
}

/// Law: in a mixed run the first claim of the other family, and only it
/// among the claims up to that point, hits the fatal conflict — however many
/// same-family claims came before it.
pub proof fn lemma_mixed_run_first_conflict(claims: Seq<DriverFamily>, k: int)
    requires
        0 <= k < claims.len(),
        claims[k] != claims[0],
        forall|j: int| 0 < j < k ==> #[trigger] claims[j] == claims[0],
    ensures
        !accepted_at(claims, k),
        forall|j: int| 0 <= j < k ==> accepted_at(claims, j),
{
    lemma_first_claim_decides(claims, k);
    assert forall|j: int| 0 <= j < k implies accepted_at(claims, j) by {
        lemma_first_claim_decides(claims, j);
    }
}

/// The code a selection is stored under in the process-wide atomic flag:
/// 0 while unset, 1 for the legacy family, 2 for the modern one.
pub open spec fn spec_selection_code(s: DriverSelection) -> u8 {
    match s {
        DriverSelection::Unset => 0u8,
        DriverSelection::Legacy => 1u8,
        DriverSelection::Modern => 2u8,
    }
}

/// The flag encoding of a selection, for the embedding program's atomic.
pub fn selection_code(s: DriverSelection) -> (code: u8)
    ensures
        code == spec_selection_code(s),
{
    match s {
        DriverSelection::Unset => 0,
        DriverSelection::Legacy => 1,
        DriverSelection::Modern => 2,
    }
}

/// The flag encoding a claim of `family` tries to install.
pub fn family_code(family: DriverFamily) -> (code: u8)
    ensures
        code == spec_selection_code(selection_of(family)),
{
    match family {
        DriverFamily::Legacy => 1,
        DriverFamily::Modern => 2,
    }
}

/// The family a claim must not meet: the one it did not name.
pub open spec fn other_family(f: DriverFamily) -> DriverFamily {
    match f {
        DriverFamily::Legacy => DriverFamily::Modern,
        DriverFamily::Modern => DriverFamily::Legacy,
    }
}

/// The decision rule on a failed compare-and-swap of the flag: the value
/// observed in place of "unset" is fatal for a claim of `family` exactly
/// when it encodes a selection that rejects the claim — that is, the code of
/// the other family. Any same-family or unset observation is harmless.
pub fn observed_conflicts(observed: u8, family: DriverFamily) -> (fatal: bool)
    ensures
        fatal <==> observed == spec_selection_code(selection_of(other_family(family))),
        fatal <==> exists|s: DriverSelection|
            observed == spec_selection_code(s) && !claim_accepted(s, family),
{
    let other_code: u8 = match family {
        DriverFamily::Legacy => 2,
        DriverFamily::Modern => 1,
    };
    let fatal = observed == other_code;
    proof {
        let other = match family {
            DriverFamily::Legacy => DriverSelection::Modern,
            DriverFamily::Modern => DriverSelection::Legacy,
        };
        if fatal {
            assert(observed == spec_selection_code(other) && !claim_accepted(other, family));
        } else {
            assert forall|s: DriverSelection|
                observed == spec_selection_code(s) implies claim_accepted(s, family) by {
                if s != DriverSelection::Unset && s != selection_of(family) {
                    assert(s == other);
                }
            }
        }
    }
    fatal
}

/// Claim the legacy driver family.
///
/// Accepted unless the modern family is already selected; a `false` result
/// is the fatal configuration conflict described on
/// [`DriverArbiter::try_claim`].
pub fn check_and_set_legacy_driver(arbiter: &mut DriverArbiter) -> (accepted: bool)
    ensures
        accepted == claim_accepted(old(arbiter)@, DriverFamily::Legacy),
        final(arbiter)@ == claim_next(old(arbiter)@, DriverFamily::Legacy),
{
    arbiter.try_claim(DriverFamily::Legacy)
}

/// Claim the modern driver family.
///
/// Accepted unless the legacy family is already selected; a `false` result
/// is the fatal configuration conflict described on
/// [`DriverArbiter::try_claim`].
pub fn check_and_set_modern_driver(arbiter: &mut DriverArbiter) -> (accepted: bool)
    ensures
        accepted == claim_accepted(old(arbiter)@, DriverFamily::Modern),
        final(arbiter)@ == claim_next(old(arbiter)@, DriverFamily::Modern),
{
    arbiter.try_claim(DriverFamily::Modern)
}

} // verus!
