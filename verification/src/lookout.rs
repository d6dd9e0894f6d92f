//! Looking again and again, with a record of what each look came to.

use vstd::prelude::*;

verus! {

/// Something to ask, and what it has answered so far. It can be asked through
/// [`look`](Self::look) alone, which asks it once and records the answer.
#[verifier::reject_recursive_types(A)]
pub struct Lookout<A, F: Fn() -> A> {
    ask: F,
    answers: Ghost<Seq<A>>,
}

impl<A, F: Fn() -> A> Lookout<A, F> {
    /// What is asked.
    pub closed spec fn asks(self) -> F {
        self.ask
    }

    /// Every answer so far, in the order in which they came.
    pub closed spec fn answers(self) -> Seq<A> {
        self.answers@
    }

    /// Something that has not been asked yet.
    pub fn new(ask: F) -> (r: Self)
        ensures
            r.asks() == ask,
            r.answers() == Seq::<A>::empty(),
    {
        Lookout { ask, answers: Ghost(Seq::empty()) }
    }

    /// Asks once more.
    pub fn look(&mut self) -> (r: A)
        requires
            call_requires(old(self).asks(), ()),
        ensures
            call_ensures(old(self).asks(), (), r),
            final(self).asks() == old(self).asks(),
            final(self).answers() == old(self).answers().push(r),
    {
        let answer = (self.ask)();
        self.answers = Ghost(self.answers@.push(answer));
        answer
    }
}

} // verus!
