//! Counting the permits in use across the per-queue semaphores.

use vstd::prelude::*;

verus! {

/// The number of permits in use across semaphores, given for each the
/// permits it was created with or given since (`totals`) and those it has
/// available now.
pub open spec fn spec_busy_permits(totals: Seq<usize>, available: Seq<usize>) -> int
    decreases totals.len(),
{
    if totals.len() == 0 {
        0
    } else {
        spec_busy_permits(totals.drop_last(), available.drop_last()) + (totals.last() - available.last())
    }
}

/// The busy count is the sum of each semaphore's total less its available
/// permits: zero without semaphores, a lone semaphore's own difference, and
/// adding a semaphore adds its own difference to the count of the others.
pub proof fn law_busy_permits_sum(totals: Seq<usize>, available: Seq<usize>, t: usize, a: usize)
    requires
        totals.len() == available.len(),
    ensures
        spec_busy_permits(Seq::empty(), Seq::empty()) == 0,
        spec_busy_permits(seq![t], seq![a]) == t - a,
        spec_busy_permits(totals.push(t), available.push(a)) == spec_busy_permits(totals, available)
            + (t - a),
{
    assert(seq![t].drop_last() =~= Seq::<usize>::empty());
    assert(seq![a].drop_last() =~= Seq::<usize>::empty());
    assert(totals.push(t).drop_last() =~= totals);
    assert(available.push(a).drop_last() =~= available);
}

/// The permits in use: the sum over the semaphores of their total permits
/// less their available ones.
pub fn busy_permits(totals: &Vec<usize>, available: &Vec<usize>) -> (r: usize)
    requires
        totals@.len() == available@.len(),
        forall|i: int| 0 <= i < totals@.len() ==> available@[i] <= #[trigger] totals@[i],
        forall|i: int| 0 <= i <= totals@.len() ==> #[trigger] spec_busy_permits(totals@.take(i), available@.take(i)) <= usize::MAX,
    ensures
        r == spec_busy_permits(totals@, available@),
{
    let mut sum: usize = 0;
    let mut i: usize = 0;
    while i < totals.len()
        invariant
            i <= totals@.len(),
            totals@.len() == available@.len(),
            forall|j: int| 0 <= j < totals@.len() ==> available@[j] <= #[trigger] totals@[j],
            forall|j: int| 0 <= j <= totals@.len() ==> #[trigger] spec_busy_permits(totals@.take(j), available@.take(j)) <= usize::MAX,
            sum == spec_busy_permits(totals@.take(i as int), available@.take(i as int)),
        decreases totals@.len() - i,
    {
        assert(totals@.take(i + 1).drop_last() =~= totals@.take(i as int));
        assert(available@.take(i + 1).drop_last() =~= available@.take(i as int));
        assert(spec_busy_permits(totals@.take(i + 1), available@.take(i + 1)) <= usize::MAX);
        sum = sum + (totals[i] - available[i]);
        i = i + 1;
    }
    assert(totals@.take(i as int) =~= totals@);
    assert(available@.take(i as int) =~= available@);
    sum
}

} // verus!
