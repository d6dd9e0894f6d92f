//! Providers that are looked for until they are found, and then kept.

use vstd::prelude::*;

use std::sync::Arc;

use crate::lookout::Lookout;
use crate::text::concat5;

verus! {

/// What looking for a provider came to.
#[derive(Debug)]
pub enum ProviderProbe<T> {
    /// Not there yet; it may appear later.
    NotInstalled,
    /// There, but it cannot be opened.
    Unusable,
    /// Open.
    Ready(Arc<T>),
}

impl<T> ProviderProbe<T> {
    fn share(&self) -> (r: Self)
        ensures
            r == *self,
    {
        match self {
            ProviderProbe::NotInstalled => ProviderProbe::NotInstalled,
            ProviderProbe::Unusable => ProviderProbe::Unusable,
            ProviderProbe::Ready(provider) => ProviderProbe::Ready(Arc::clone(provider)),
        }
    }

    /// The provider with something made of it, where it is open.
    pub fn adapt<U, G: Fn(Arc<T>) -> Arc<U>>(self, wrap: &G) -> (r: ProviderProbe<U>)
        requires
            self matches ProviderProbe::Ready(provider) ==> call_requires(*wrap, (provider,)),
        ensures
            match (self, r) {
                (ProviderProbe::NotInstalled, ProviderProbe::NotInstalled) => true,
                (ProviderProbe::Unusable, ProviderProbe::Unusable) => true,
                (ProviderProbe::Ready(provider), ProviderProbe::Ready(made)) => call_ensures(
                    *wrap,
                    (provider,),
                    made,
                ),
                _ => false,
            },
    {
        match self {
            ProviderProbe::NotInstalled => ProviderProbe::NotInstalled,
            ProviderProbe::Unusable => ProviderProbe::Unusable,
            ProviderProbe::Ready(provider) => ProviderProbe::Ready(wrap(provider)),
        }
    }
}

/// The provider, where it is open.
pub open spec fn opened<T>(state: ProviderProbe<T>) -> Option<Arc<T>> {
    match state {
        ProviderProbe::Ready(provider) => Some(provider),
        _ => None,
    }
}

/// A provider that is probed for as long as it is not there. Once it is open, or found to
/// be unusable, it is not probed again.
#[verifier::reject_recursive_types(T)]
pub struct LazyProvider<T, F: Fn() -> ProviderProbe<T>> {
    state: ProviderProbe<T>,
    probe: Lookout<ProviderProbe<T>, F>,
}

impl<T, F: Fn() -> ProviderProbe<T>> LazyProvider<T, F> {
    /// What is known of the provider so far.
    pub closed spec fn known(self) -> ProviderProbe<T> {
        self.state
    }

    /// How the provider is looked for.
    pub closed spec fn looks_with(self) -> F {
        self.probe.asks()
    }

    /// What each look for the provider came to, in their order.
    pub closed spec fn answers(self) -> Seq<ProviderProbe<T>> {
        self.probe.answers()
    }

    /// Looking is possible.
    pub open spec fn can_look(self) -> bool {
        call_requires(self.looks_with(), ())
    }

    /// What asking for the provider needs: leave to look where nothing was found so far. Once
    /// something was found, asking needs no leave to look, and so has none.
    pub open spec fn may_be_asked(self) -> bool {
        self.known() is NotInstalled ==> self.can_look()
    }

    /// What the looks came to once `self` was asked and `state` is known: one look more where
    /// nothing was found so far, and none where something was.
    pub open spec fn answers_after(self, state: ProviderProbe<T>) -> Seq<ProviderProbe<T>> {
        if self.known() is NotInstalled {
            self.answers().push(state)
        } else {
            self.answers()
        }
    }

    /// `self` after it was asked: what is known stays, unless nothing was found so far, and
    /// then it is what looking once more came to.
    pub open spec fn asked(self, after: Self) -> bool {
        &&& after.looks_with() == self.looks_with()
        &&& after.answers() == self.answers_after(after.known())
        &&& match self.known() {
            ProviderProbe::NotInstalled => call_ensures(self.looks_with(), (), after.known()),
            _ => after.known() == self.known(),
        }
    }

    /// `r` is what is known of the provider after `self` was asked, which left `after`.
    pub open spec fn state_gives(self, after: Self, r: ProviderProbe<T>) -> bool {
        self.asked(after) && r == after.known()
    }

    /// `r` is the provider, where it is open, after `self` was asked, which left `after`.
    pub open spec fn ready_gives(self, after: Self, r: Option<Arc<T>>) -> bool {
        self.asked(after) && r == opened(after.known())
    }

    /// Nobody has looked for the provider.
    pub open spec fn is_fresh(self) -> bool {
        self.known() is NotInstalled && self.answers().len() == 0
    }

    /// What is known is what the last look came to, and no look before that found anything.
    pub open spec fn keeps_the_last_answer(self) -> bool {
        &&& self.known() == (if self.answers().len() == 0 {
            ProviderProbe::NotInstalled
        } else {
            self.answers().last()
        })
        &&& forall|i: int|
            0 <= i < self.answers().len() - 1 ==> (#[trigger] self.answers()[i]) is NotInstalled
    }

    /// A provider that nobody has looked for yet. Making one looks for nothing.
    pub fn new(probe: F) -> (r: Self)
        ensures
            r.is_fresh(),
            r.looks_with() == probe,
    {
        LazyProvider { state: ProviderProbe::NotInstalled, probe: Lookout::new(probe) }
    }

    /// What is known of the provider now. Where nothing was found so far, this looks once; where
    /// something was, it does not look.
    pub fn state(&mut self) -> (r: ProviderProbe<T>)
        requires
            old(self).may_be_asked(),
        ensures
            old(self).state_gives(*final(self), r),
            final(self).answers() == old(self).answers_after(r),
    {
        if let ProviderProbe::NotInstalled = &self.state {
            self.state = self.probe.look();
        }
        self.state.share()
    }

    /// The provider, where it is open. This looks as [`state`](Self::state) does.
    pub fn ready(&mut self) -> (r: Option<Arc<T>>)
        requires
            old(self).may_be_asked(),
        ensures
            old(self).ready_gives(*final(self), r),
            final(self).answers() == old(self).answers_after(final(self).known()),
    {
        match self.state() {
            ProviderProbe::Ready(provider) => Some(provider),
            _ => None,
        }
    }
}

/// A provider that is open stays the same provider, and one that is unusable stays unusable,
/// however often it is asked for. Asking needs no leave to look any more.
pub proof fn law_what_is_found_stays_found<T, F: Fn() -> ProviderProbe<T>>(
    first: LazyProvider<T, F>,
    second: LazyProvider<T, F>,
    third: LazyProvider<T, F>,
)
    requires
        first.asked(second),
        second.known() !is NotInstalled,
    ensures
        second.may_be_asked(),
        second.asked(third) ==> third.known() == second.known() && third.may_be_asked(),
{
}

/// The first time that a new provider is asked for, it is looked for exactly once: the answer
/// of its probe is what comes back, and what is known from then on.
pub proof fn law_the_first_look_is_an_answer<T, F: Fn() -> ProviderProbe<T>>(
    probe: F,
    fresh: LazyProvider<T, F>,
    after: LazyProvider<T, F>,
    state: ProviderProbe<T>,
)
    requires
        fresh.is_fresh(),
        fresh.looks_with() == probe,
        fresh.state_gives(after, state),
    ensures
        call_ensures(probe, (), state),
        after.answers() == seq![state],
        after.known() == state,
        after.looks_with() == probe,
{
    assert(fresh.answers().push(state) =~= seq![state]);
}

/// Asking whether a provider is ready is asking for its state: it leaves what that would
/// leave, looks as often as that would look, and gives the provider exactly where the state
/// would be one that is open.
pub proof fn law_ready_agrees_with_state<T, F: Fn() -> ProviderProbe<T>>(
    before: LazyProvider<T, F>,
    after: LazyProvider<T, F>,
    ready: Option<Arc<T>>,
)
    ensures
        before.ready_gives(after, ready) <==> exists|state: ProviderProbe<T>|
            #[trigger] before.state_gives(after, state) && ready == opened(state),
        before.ready_gives(after, ready) ==> forall|provider: Arc<T>|
            ready == Some(provider) <==> #[trigger] before.state_gives(
                after,
                ProviderProbe::Ready(provider),
            ),
        before.ready_gives(after, ready) ==> after.answers().len() == before.answers().len() + (
        if before.known() is NotInstalled {
            1int
        } else {
            0
        }),
        forall|state: ProviderProbe<T>| #[trigger]
            before.state_gives(after, state) ==> after.answers().len() == before.answers().len() + (
            if before.known() is NotInstalled {
                1int
            } else {
                0
            }),
{
    if before.ready_gives(after, ready) {
        assert(before.state_gives(after, after.known()));
    }
}

/// A provider that is asked for again and again: each of `times` is what asking the one before
/// it left.
pub open spec fn asked_in_turn<T, F: Fn() -> ProviderProbe<T>>(
    times: Seq<LazyProvider<T, F>>,
) -> bool {
    forall|i: int| 0 <= i < times.len() - 1 ==> (#[trigger] times[i]).asked(times[i + 1])
}

/// However often a new provider is asked for, the probe's answers come back in their order, and
/// the last of them comes back for good: asking for the `i`th time gives the `i`th answer, or
/// the last one where there are fewer. There is one look for each time that the provider was
/// asked for until something was found, and none after that.
#[verifier::spinoff_prover]
#[verifier::rlimit(60)]
pub proof fn law_answers_come_in_their_order<T, F: Fn() -> ProviderProbe<T>>(
    times: Seq<LazyProvider<T, F>>,
)
    requires
        times.len() > 0,
        times[0].is_fresh(),
        asked_in_turn(times),
    ensures
        ({
            let answers = times.last().answers();
            &&& answers.len() <= times.len() - 1
            &&& times.last().known() is NotInstalled ==> answers.len() == times.len() - 1
            &&& times.len() > 1 ==> answers.len() > 0
            &&& forall|i: int|
                0 < i < times.len() ==> (#[trigger] times[i]).known() == answers[if i
                    <= answers.len() {
                    i - 1
                } else {
                    answers.len() - 1
                }]
            &&& forall|i: int|
                0 <= i < answers.len() ==> call_ensures(
                    times[0].looks_with(),
                    (),
                    #[trigger] answers[i],
                )
        }),
        times.last().looks_with() == times[0].looks_with(),
        times.last().keeps_the_last_answer(),
    decreases times.len(),
{
    if times.len() > 1 {
        let last = times.len() - 1;
        let before = times.drop_last();
        assert forall|i: int| 0 <= i < before.len() - 1 implies (#[trigger] before[i]).asked(
            before[i + 1],
        ) by {
            assert(times[i].asked(times[i + 1]));
        }
        law_answers_come_in_their_order(before);
        assert(times[last - 1].asked(times[last]));
        assert forall|i: int| 0 < i < times.len() implies (#[trigger] times[i]).known()
            == times.last().answers()[if i <= times.last().answers().len() {
            i - 1
        } else {
            times.last().answers().len() - 1
        }] by {
            if i < last {
                assert(before[i].known() == times[i].known());
            }
        }
    }
}

/// How many of `answers` are a provider that was opened.
pub open spec fn openings<T>(answers: Seq<ProviderProbe<T>>) -> nat
    decreases answers.len(),
{
    if answers.len() == 0 {
        0
    } else {
        openings(answers.drop_last()) + (if answers.last() is Ready {
            1nat
        } else {
            0nat
        })
    }
}

proof fn lemma_nothing_opened<T>(answers: Seq<ProviderProbe<T>>)
    requires
        forall|i: int| 0 <= i < answers.len() ==> (#[trigger] answers[i]) is NotInstalled,
    ensures
        openings(answers) == 0,
    decreases answers.len(),
{
    if answers.len() > 0 {
        lemma_nothing_opened(answers.drop_last());
        assert(answers[answers.len() - 1] is NotInstalled);
    }
}

/// A provider that keeps the last answer was opened once at most.
proof fn lemma_opened_once_at_most<T, F: Fn() -> ProviderProbe<T>>(provider: LazyProvider<T, F>)
    requires
        provider.keeps_the_last_answer(),
    ensures
        openings(provider.answers()) <= 1,
{
    let answers = provider.answers();
    if answers.len() > 0 {
        assert forall|i: int| 0 <= i < answers.len() - 1 implies (#[trigger]
        answers.drop_last()[i]) is NotInstalled by {
            assert(provider.answers()[i] is NotInstalled);
        }
        lemma_nothing_opened(answers.drop_last());
    }
}

/// The two providers of embeddings, each looked for on its own.
#[verifier::reject_recursive_types(T)]
pub struct LazyEmbedderProvider<T, C: Fn() -> ProviderProbe<T>, M: Fn() -> ProviderProbe<T>> {
    pub code: LazyProvider<T, C>,
    pub memory: LazyProvider<T, M>,
}

impl<
    T,
    C: Fn() -> ProviderProbe<T>,
    M: Fn() -> ProviderProbe<T>,
> LazyEmbedderProvider<T, C, M> {
    /// Providers that are looked for as given.
    pub fn with_probes(code: C, memory: M) -> (r: Self)
        ensures
            r.code.is_fresh(),
            r.code.looks_with() == code,
            r.memory.is_fresh(),
            r.memory.looks_with() == memory,
    {
        LazyEmbedderProvider { code: LazyProvider::new(code), memory: LazyProvider::new(memory) }
    }

    /// The provider for code, where it is open.
    pub fn code(&mut self) -> (r: Option<Arc<T>>)
        requires
            old(self).code.may_be_asked(),
        ensures
            old(self).code.ready_gives(final(self).code, r),
            final(self).memory == old(self).memory,
    {
        self.code.ready()
    }

    /// The provider for memory, where it is open.
    pub fn memory(&mut self) -> (r: Option<Arc<T>>)
        requires
            old(self).memory.may_be_asked(),
        ensures
            old(self).memory.ready_gives(final(self).memory, r),
            final(self).code == old(self).code,
    {
        self.memory.ready()
    }

    /// What is known of the provider for code.
    pub fn code_probe(&mut self) -> (r: ProviderProbe<T>)
        requires
            old(self).code.may_be_asked(),
        ensures
            old(self).code.state_gives(final(self).code, r),
            final(self).memory == old(self).memory,
    {
        self.code.state()
    }

    /// What is known of the provider for memory.
    pub fn memory_probe(&mut self) -> (r: ProviderProbe<T>)
        requires
            old(self).memory.may_be_asked(),
        ensures
            old(self).memory.state_gives(final(self).memory, r),
            final(self).code == old(self).code,
    {
        self.memory.state()
    }
}

/// Providers that are asked for again and again: each of `times` is what asking for one of
/// the two left of the one before it.
pub open spec fn either_asked_in_turn<
    T,
    C: Fn() -> ProviderProbe<T>,
    M: Fn() -> ProviderProbe<T>,
>(times: Seq<LazyEmbedderProvider<T, C, M>>) -> bool {
    forall|i: int|
        0 <= i < times.len() - 1 ==> {
            ||| (#[trigger] times[i]).code.asked(times[i + 1].code) && times[i + 1].memory
                == times[i].memory
            ||| times[i].memory.asked(times[i + 1].memory) && times[i + 1].code == times[i].code
        }
}

proof fn lemma_both_keep_the_last_answer<
    T,
    C: Fn() -> ProviderProbe<T>,
    M: Fn() -> ProviderProbe<T>,
>(times: Seq<LazyEmbedderProvider<T, C, M>>)
    requires
        times.len() > 0,
        times[0].code.is_fresh(),
        times[0].memory.is_fresh(),
        either_asked_in_turn(times),
    ensures
        times.last().code.keeps_the_last_answer(),
        times.last().memory.keeps_the_last_answer(),
    decreases times.len(),
{
    if times.len() > 1 {
        let before = times.drop_last();
        assert forall|i: int| 0 <= i < before.len() - 1 implies {
            ||| (#[trigger] before[i]).code.asked(before[i + 1].code) && before[i + 1].memory
                == before[i].memory
            ||| before[i].memory.asked(before[i + 1].memory) && before[i + 1].code == before[i].code
        } by {
            assert(times[i] == before[i] && times[i + 1] == before[i + 1]);
        }
        lemma_both_keep_the_last_answer(before);
        assert(times[times.len() - 2] == before.last());
    }
}

/// However often either of the two providers is asked for, each is opened once at most: a
/// process has two sessions at most.
pub proof fn law_two_sessions_at_most<
    T,
    C: Fn() -> ProviderProbe<T>,
    M: Fn() -> ProviderProbe<T>,
>(times: Seq<LazyEmbedderProvider<T, C, M>>)
    requires
        times.len() > 0,
        times[0].code.is_fresh(),
        times[0].memory.is_fresh(),
        either_asked_in_turn(times),
    ensures
        openings(times.last().code.answers()) <= 1,
        openings(times.last().memory.answers()) <= 1,
        openings(times.last().code.answers()) + openings(times.last().memory.answers()) <= 2,
{
    lemma_both_keep_the_last_answer(times);
    lemma_opened_once_at_most(times.last().code);
    lemma_opened_once_at_most(times.last().memory);
}

/// What is said of a model that is installed but cannot be opened.
pub open spec fn cannot_open(model_id: Seq<char>, leg: Seq<char>, error: Seq<char>) -> Seq<char> {
    "local-rag: "@ + model_id + " is installed but could not be opened for its "@ + leg
        + (" representation ("@ + error
        + "); this session will stay unavailable until this is fixed"@)
}

/// What looking for a model comes to, and what to warn of: one that no catalog knows is
/// unusable, one that is not installed may appear later, and one that is installed is `opened`.
pub open spec fn model_probe<T>(
    model_id: Option<Seq<char>>,
    installed: bool,
    opened: Result<T, Seq<char>>,
    leg: Seq<char>,
) -> (ProviderProbe<T>, Option<Seq<char>>) {
    match model_id {
        None => (ProviderProbe::Unusable, None),
        Some(id) => if !installed {
            (ProviderProbe::NotInstalled, None)
        } else {
            match opened {
                Ok(provider) => (ProviderProbe::Ready(Arc::new(provider)), None),
                Err(e) => (ProviderProbe::Unusable, Some(cannot_open(id, leg, e))),
            }
        },
    }
}

/// The id of a model, where there is one.
pub open spec fn model_name(model_id: Option<&str>) -> Option<Seq<char>> {
    match model_id {
        Some(id) => Some(id@),
        None => None,
    }
}

/// What opening a model gave.
pub open spec fn opening<T>(opened: Result<T, String>) -> Result<T, Seq<char>> {
    match opened {
        Ok(provider) => Ok(provider),
        Err(e) => Err(e@),
    }
}

/// Looks for a model, which is opened only where it is known and installed. Also says what to
/// warn of.
pub fn probe_onnx<T, F: FnOnce() -> Result<T, String>>(
    model_id: Option<&str>,
    installed: bool,
    open: F,
    leg: &str,
) -> (r: (ProviderProbe<T>, Option<String>))
    requires
        model_id is Some && installed ==> call_requires(open, ()),
    ensures
        model_id is Some && installed ==> exists|opened: Result<T, String>|
            #[trigger] call_ensures(open, (), opened) && (r.0, r.1.deep_view()) == model_probe(
                model_name(model_id),
                installed,
                opening(opened),
                leg@,
            ),
        !(model_id is Some && installed) ==> forall|opened: Result<T, Seq<char>>|
            (r.0, r.1.deep_view()) == #[trigger] model_probe(
                model_name(model_id),
                installed,
                opened,
                leg@,
            ),
{
    let id = match model_id {
        Some(id) => id,
        None => {
            return (ProviderProbe::Unusable, None);
        },
    };
    if !installed {
        return (ProviderProbe::NotInstalled, None);
    }
    match open() {
        Ok(provider) => {
            proof {
                assert(call_ensures(open, (), Ok::<T, String>(provider)));
            }
            (ProviderProbe::Ready(Arc::new(provider)), None)
        },
        Err(e) => {
            proof {
                assert(call_ensures(open, (), Err::<T, String>(e)));
            }
            let tail = crate::text::concat3(
                " representation (",
                e.as_str(),
                "); this session will stay unavailable until this is fixed",
            );
            let warning = concat5(
                "local-rag: ",
                id,
                " is installed but could not be opened for its ",
                leg,
                tail.as_str(),
            );
            (ProviderProbe::Unusable, Some(warning))
        },
    }
}

/// A model that no catalog knows is never usable. One that is not installed may appear later,
/// and nothing is warned of. One that is installed is what opening it gave, and where it could
/// not be opened that is warned of.
pub proof fn law_a_model_is_what_opening_it_gave<T>(
    id: Seq<char>,
    opened: Result<T, Seq<char>>,
    leg: Seq<char>,
    installed: bool,
)
    ensures
        model_probe(None, installed, opened, leg).0 is Unusable,
        model_probe(None, installed, opened, leg).1 is None,
        model_probe(Some(id), false, opened, leg).0 is NotInstalled,
        model_probe(Some(id), false, opened, leg).1 is None,
        opened matches Ok(provider) ==> (model_probe(
            Some(id),
            true,
            opened,
            leg,
        ).0 matches ProviderProbe::Ready(p) && *p == provider),
        opened is Ok ==> model_probe(Some(id), true, opened, leg).1 is None,
        opened is Err ==> model_probe(Some(id), true, opened, leg).0 is Unusable,
        opened is Err ==> model_probe(Some(id), true, opened, leg).1 is Some,
{
}

} // verus!
