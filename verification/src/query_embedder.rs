//! Embedding a query with the provider that made the vectors it is compared to.

use vstd::prelude::*;

use std::sync::Arc;

use crate::embedder_provider::{LazyProvider, ProviderProbe};
use crate::text::concat5;

verus! {

/// What is said of a provider whose key is not the one that was asked for.
pub open spec fn key_mismatch(own_key: Seq<char>, key: Seq<char>) -> Seq<char> {
    "provider's own representation key ("@ + own_key + ") does not match the requested key ("@
        + key + ")"@
}

/// The answer of an embedder: the last vector it returned.
pub open spec fn query_answer<V>(embedded: Result<Vec<V>, String>) -> Result<V, Seq<char>> {
    match embedded {
        Err(e) => Err(e@),
        Ok(vectors) => if vectors@.len() == 0 {
            Err("embedder returned no vector for the query"@)
        } else {
            Ok(vectors@.last())
        },
    }
}

/// The vector of an embedder's answer.
pub fn last_vector<V>(embedded: Result<Vec<V>, String>) -> (r: Result<V, String>)
    ensures
        match r {
            Ok(v) => query_answer(embedded) == Ok::<V, Seq<char>>(v),
            Err(e) => query_answer(embedded) == Err::<V, Seq<char>>(e@),
        },
{
    match embedded {
        Err(e) => Err(e),
        Ok(vectors) => {
            let mut rest = vectors;
            match rest.pop() {
                Some(v) => Ok(v),
                None => Err("embedder returned no vector for the query".to_owned()),
            }
        },
    }
}

/// Embeds a query. A provider whose own key is not the requested one is not asked: vectors
/// of different keys do not compare. The keys are given as they are shown.
pub fn embed_query<V, F: FnOnce() -> Result<Vec<V>, String>>(
    keys_match: bool,
    own_key: &str,
    key: &str,
    embed: F,
) -> (r: Result<V, String>)
    requires
        keys_match ==> call_requires(embed, ()),
    ensures
        !keys_match ==> (r matches Err(e) && e@ == key_mismatch(own_key@, key@)),
        keys_match ==> exists|embedded: Result<Vec<V>, String>|
            #[trigger] call_ensures(embed, (), embedded) && match r {
                Ok(v) => query_answer(embedded) == Ok::<V, Seq<char>>(v),
                Err(e) => query_answer(embedded) == Err::<V, Seq<char>>(e@),
            },
{
    if !keys_match {
        return Err(
            concat5(
                "provider's own representation key (",
                own_key,
                ") does not match the requested key (",
                key,
                ")",
            ),
        );
    }
    let embedded = embed();
    let ghost given = embedded;
    proof {
        assert(call_ensures(embed, (), given));
    }
    last_vector(embedded)
}

/// A provider with a stand-in for as long as it is not open.
#[verifier::reject_recursive_types(T)]
pub struct LazyQueryEmbedder<T, F: Fn() -> ProviderProbe<T>> {
    pub inner: LazyProvider<T, F>,
    pub unavailable: Arc<T>,
}

impl<T, F: Fn() -> ProviderProbe<T>> LazyQueryEmbedder<T, F> {
    /// `r` is the provider to ask: the open one, or the stand-in. Finding that out left `after`
    /// of `self`.
    pub open spec fn gives(self, after: Self, r: Arc<T>) -> bool {
        &&& self.inner.asked(after.inner)
        &&& after.unavailable == self.unavailable
        &&& r == (match after.inner.known() {
            ProviderProbe::Ready(provider) => provider,
            _ => self.unavailable,
        })
    }

    /// A provider that nobody has looked for yet.
    pub fn new(unavailable: Arc<T>, probe: F) -> (r: Self)
        ensures
            r.inner.is_fresh(),
            r.inner.looks_with() == probe,
            r.unavailable == unavailable,
    {
        LazyQueryEmbedder { inner: LazyProvider::new(probe), unavailable }
    }

    /// The provider to ask now: the open one, or the stand-in. This looks once where nothing was
    /// found so far, and not at all where something was.
    pub fn provider(&mut self) -> (r: Arc<T>)
        requires
            old(self).inner.may_be_asked(),
        ensures
            old(self).gives(*final(self), r),
            final(self).inner.answers() == old(self).inner.answers_after(final(self).inner.known()),
    {
        match self.inner.ready() {
            Some(provider) => provider,
            None => Arc::clone(&self.unavailable),
        }
    }
}

/// After any calls, one more call looks at most once, and only if every look before it found
/// nothing. It gives the provider that was opened, or the stand-in.
pub proof fn law_a_call_looks_only_until_something_is_found<T, F: Fn() -> ProviderProbe<T>>(
    calls: Seq<LazyQueryEmbedder<T, F>>,
    given: Seq<Arc<T>>,
)
    requires
        calls.len() >= 2,
        given.len() == calls.len() - 1,
        calls[0].inner.is_fresh(),
        forall|i: int|
            0 <= i < given.len() ==> (#[trigger] calls[i]).gives(calls[i + 1], given[i]),
    ensures
        ({
            let before = calls[calls.len() - 2].inner.answers();
            let after = calls.last().inner.answers();
            &&& after == before || exists|answer: ProviderProbe<T>| after == #[trigger] before.push(
                answer,
            )
            &&& after != before ==> forall|i: int|
                0 <= i < before.len() ==> (#[trigger] before[i]) is NotInstalled
            &&& after.len() > 0
            &&& given.last() == (match after.last() {
                ProviderProbe::Ready(provider) => provider,
                _ => calls[0].unavailable,
            })
        }),
{
    let times = Seq::new(calls.len(), |i: int| calls[i].inner);
    let last = calls.len() - 1;
    assert forall|i: int| 0 <= i < times.len() - 1 implies (#[trigger] times[i]).asked(
        times[i + 1],
    ) by {
        assert(calls[i].gives(calls[i + 1], given[i]));
    }
    crate::embedder_provider::law_answers_come_in_their_order(times);
    let earlier = times.drop_last();
    assert(crate::embedder_provider::asked_in_turn(earlier)) by {
        assert forall|i: int| 0 <= i < earlier.len() - 1 implies (#[trigger] earlier[i]).asked(
            earlier[i + 1],
        ) by {
            assert(times[i].asked(times[i + 1]));
        }
    }
    crate::embedder_provider::law_answers_come_in_their_order(earlier);
    assert(calls[last - 1].gives(calls[last], given[last - 1]));
    lemma_one_stand_in(calls, given, last - 1);
    let before = calls[last - 1].inner;
    if calls[last].inner.answers() != before.answers() {
        assert(before.known() is NotInstalled);
        assert forall|i: int| 0 <= i < before.answers().len() implies (#[trigger]
        before.answers()[i]) is NotInstalled by {
            if i == before.answers().len() - 1 {
                assert(before.answers().last() == before.known());
            }
        }
    }
}

/// The stand-in stays the same.
proof fn lemma_one_stand_in<T, F: Fn() -> ProviderProbe<T>>(
    calls: Seq<LazyQueryEmbedder<T, F>>,
    given: Seq<Arc<T>>,
    n: int,
)
    requires
        0 <= n < calls.len(),
        given.len() == calls.len() - 1,
        forall|i: int|
            0 <= i < given.len() ==> (#[trigger] calls[i]).gives(calls[i + 1], given[i]),
    ensures
        calls[n].unavailable == calls[0].unavailable,
    decreases n,
{
    if n > 0 {
        lemma_one_stand_in(calls, given, n - 1);
        assert(calls[n - 1].gives(calls[n], given[n - 1]));
    }
}

/// The answer is the last vector that the embedder returned. None at all is an error, and an
/// error of the embedder's own is passed on as it is.
pub proof fn law_the_last_vector_answers<V>(vectors: Vec<V>, e: String)
    ensures
        query_answer(Err::<Vec<V>, String>(e)) == Err::<V, Seq<char>>(e@),
        vectors@.len() > 0 ==> query_answer(Ok::<Vec<V>, String>(vectors)) == Ok::<V, Seq<char>>(
            vectors@[vectors@.len() - 1],
        ),
        vectors@.len() == 0 ==> query_answer(Ok::<Vec<V>, String>(vectors)) is Err,
{
}

/// A provider with another key is refused with both keys, its own first.
pub proof fn law_a_mismatch_names_both_keys(own_key: Seq<char>, key: Seq<char>)
    ensures
        key_mismatch(own_key, key) == "provider's own representation key ("@ + own_key
            + ") does not match the requested key ("@ + key + ")"@,
{
}

} // verus!
