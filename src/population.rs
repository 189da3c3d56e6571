//! Advancing a population of independent members, one tick at a time.
use vstd::prelude::*;

verus! {

/// `after` is what one tick makes of `before`: each member is a result of
/// `step` on the member at the same place, and nothing else.
pub open spec fn stepped<T, F: Fn(&T) -> T>(step: F, before: Seq<T>, after: Seq<T>) -> bool {
    &&& after.len() == before.len()
    &&& forall|i: int| 0 <= i < before.len() ==> step.ensures((&before[i],), #[trigger] after[i])
}

/// `after` is `before` with only the member at `index` replaced, and the
/// replacement is a result of `step` on the member that stood there.
pub open spec fn member_stepped<T, F: Fn(&T) -> T>(
    step: F,
    before: Seq<T>,
    after: Seq<T>,
    index: int,
) -> bool {
    &&& 0 <= index < before.len()
    &&& step.ensures((&before[index],), after[index])
    &&& after == before.update(index, after[index])
}

/// Stepping one member never changes another member of the same
/// population: every place other than `index` keeps its member.
pub proof fn lemma_step_member_leaves_others<T, F: Fn(&T) -> T>(
    step: F,
    before: Seq<T>,
    after: Seq<T>,
    index: int,
    other: int,
)
    requires
        member_stepped(step, before, after, index),
        0 <= other < before.len(),
        other != index,
    ensures
        after.len() == before.len(),
        after[other] == before[other],
{
}

/// Replaces the member at `index` by what `step` makes of it. Every other
/// member is left as it was.
pub fn step_member<T, F: Fn(&T) -> T>(members: &mut Vec<T>, index: usize, step: &F)
    requires
        index < old(members)@.len(),
        step.requires((&old(members)@[index as int],)),
    ensures
        member_stepped(*step, old(members)@, final(members)@, index as int),
{
    let next = step(&members[index]);
    members[index] = next;
}

/// Two ticks of the same population agree when `step` gives one result for
/// each member: stepping adds no choice of its own.
pub proof fn lemma_stepped_deterministic<T, F: Fn(&T) -> T>(
    step: F,
    before: Seq<T>,
    first: Seq<T>,
    second: Seq<T>,
)
    requires
        forall|x: T, y: T, z: T|
            #![trigger step.ensures((&x,), y), step.ensures((&x,), z)]
            step.ensures((&x,), y) && step.ensures((&x,), z) ==> y == z,
        stepped(step, before, first),
        stepped(step, before, second),
    ensures
        first == second,
{
    assert(first =~= second);
}

/// One tick of the population: every member is stepped once, in order, and
/// the position of each stepped member is read.
pub fn tick<T, P, F: Fn(&T) -> T, G: Fn(&T) -> P>(
    members: &mut Vec<T>,
    step: &F,
    position: &G,
) -> (positions: Vec<P>)
    requires
        forall|i: int| 0 <= i < old(members)@.len() ==> step.requires((&old(members)@[i],)),
        forall|x: T| position.requires((&x,)),
    ensures
        stepped(*step, old(members)@, final(members)@),
        positions@.len() == final(members)@.len(),
        forall|i: int|
            0 <= i < final(members)@.len() ==> position.ensures(
                (&final(members)@[i],),
                #[trigger] positions@[i],
            ),
{
    let ghost before = members@;
    let mut positions: Vec<P> = Vec::new();
    let mut index: usize = 0;
    while index < members.len()
        invariant
            members@.len() == before.len(),
            index <= before.len(),
            positions@.len() == index,
            forall|i: int| 0 <= i < before.len() ==> step.requires((&before[i],)),
            forall|x: T| position.requires((&x,)),
            forall|i: int| 0 <= i < index ==> step.ensures((&before[i],), #[trigger] members@[i]),
            forall|i: int| index <= i < before.len() ==> #[trigger] members@[i] == before[i],
            forall|i: int|
                0 <= i < index ==> position.ensures((&members@[i],), #[trigger] positions@[i]),
        decreases before.len() - index,
    {
        step_member(members, index, step);
        positions.push(position(&members[index]));
        index = index + 1;
    }
    positions
}

} // verus!
