//! The state that drives a running simulation: its population and its
//! frame count, and what one animation frame does to them.
use vstd::prelude::*;
use crate::frames::{report_due, FrameCounter};
use crate::population::{stepped, tick};

verus! {

/// What one animation frame hands back to be drawn and shown.
pub struct FrameOutcome<P> {
    /// The position of each member after the frame, in member order.
    pub positions: Vec<P>,
    /// Whether frame statistics are due after this frame.
    pub report: bool,
}

/// A running simulation: an ordered population of members and the number
/// of frames drawn so far.
pub struct Simulation<T> {
    members: Vec<T>,
    frames: FrameCounter,
}

impl<T> Simulation<T> {
    /// The members, in order.
    pub closed spec fn members_view(&self) -> Seq<T> {
        self.members@
    }

    /// The number of frames drawn so far.
    pub closed spec fn frames_view(&self) -> nat {
        self.frames@
    }

    /// A simulation of `members` that has drawn no frame yet.
    pub fn new(members: Vec<T>) -> (r: Simulation<T>)
        ensures
            r.members_view() == members@,
            r.frames_view() == 0,
    {
        Simulation { members, frames: FrameCounter::new() }
    }

    /// The members, in order.
    pub fn members(&self) -> (r: &Vec<T>)
        ensures
            r@ == self.members_view(),
    {
        &self.members
    }

    /// The number of frames drawn so far.
    pub fn frames(&self) -> (r: u64)
        ensures
            r == self.frames_view(),
    {
        self.frames.frames()
    }

    /// Discards the whole population for `members`. The frame count goes on.
    pub fn replace_members(&mut self, members: Vec<T>)
        ensures
            final(self).members_view() == members@,
            final(self).frames_view() == old(self).frames_view(),
    {
        self.members = members;
    }

    /// One animation frame: counts it, steps every member once, and reads
    /// the position of each stepped member.
    pub fn advance<P, F: Fn(&T) -> T, G: Fn(&T) -> P>(&mut self, step: &F, position: &G) -> (r:
        FrameOutcome<P>)
        requires
            old(self).frames_view() < u64::MAX,
            forall|i: int|
                0 <= i < old(self).members_view().len() ==> step.requires(
                    (&old(self).members_view()[i],),
                ),
            forall|x: T| position.requires((&x,)),
        ensures
            final(self).frames_view() == old(self).frames_view() + 1,
            r.report == report_due(final(self).frames_view()),
            stepped(*step, old(self).members_view(), final(self).members_view()),
            r.positions@.len() == final(self).members_view().len(),
            forall|i: int|
                0 <= i < final(self).members_view().len() ==> position.ensures(
                    (&final(self).members_view()[i],),
                    #[trigger] r.positions@[i],
                ),
    {
        let report = self.frames.tick();
        assert forall|i: int| 0 <= i < self.members@.len() implies step.requires(
            (&self.members@[i],),
        ) by {
            assert(self.members@[i] == old(self).members_view()[i]);
        }
        let positions = tick(&mut self.members, step, position);
        FrameOutcome { positions, report }
    }
}

} // verus!
