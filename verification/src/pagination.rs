//! Paginated results and the lazy, cross-page sequence of items.
//!
//! A sequence is in one of three informal states: items are buffered, a
//! fetch is pending, or it is exhausted. Yielding pops buffered items in
//! server order; when the buffer empties and a cursor is pending, the next
//! page is fetched through the same engine as the initial fetch. Two
//! deliberate, documented policies shape the transitions:
//!
//! - a failed follow-up fetch is absorbed, not surfaced: the sequence ends
//!   early, and the failure is kept in a diagnostic field (`last_error`)
//!   so a caller can tell an early end from natural end-of-data;
//! - a fetched page is installed exactly as it came: one with no items
//!   answers `None` for that call but keeps its cursor pending, so a later
//!   call follows it and no later page's items are lost. The sequence is
//!   exhausted only when nothing is buffered and no cursor is pending.

use vstd::prelude::*;

use crate::api::API;
use crate::error::Error;
use crate::internal_api::Page;
use crate::json::FromJson;

verus! {

/// The abstract state of a page sequence: the items still to be yielded,
/// in server order, and the cursor a fetch would follow, if any.
#[verifier::ext_equal]
pub struct CursorModel<T> {
    pub items: Seq<T>,
    pub next: Option<Seq<char>>,
}

/// The abstract content of one fetched page.
pub open spec fn page_view<T>(p: Page<T>) -> CursorModel<T> {
    CursorModel { items: p.values@, next: p.next.deep_view() }
}

/// The terminal state: nothing buffered, nothing to fetch.
pub open spec fn drained<T>() -> CursorModel<T> {
    CursorModel { items: Seq::empty(), next: None }
}

/// What absorbing one fetch outcome leaves. A failed fetch (`None`) ends
/// the sequence; a fetched page is installed as it is, items and cursor
/// both, so a page without items leaves its cursor pending for the next
/// call. The sequence ends on a fetched page only when the page brings no
/// items and names no next page.
pub open spec fn absorbed<T>(outcome: Option<CursorModel<T>>) -> CursorModel<T> {
    match outcome {
        Some(p) => p,
        None => drained::<T>(),
    }
}

/// The mutable cursor state of a page sequence, without the client: the
/// page-to-page state machine, exactly as the contracts below describe it.
/// At most one page's items are held at a time.
#[derive(Debug)]
pub struct PageState<T> {
    items: Vec<T>,
    next_url: Option<String>,
    failure: Option<Error>,
}

impl<T> PageState<T> {
    /// The items still to be yielded without a fetch, in server order.
    pub closed spec fn buffered(self) -> Seq<T> {
        self.items@
    }

    /// The cursor a fetch would follow, when one is pending.
    pub closed spec fn cursor(self) -> Option<Seq<char>> {
        self.next_url.deep_view()
    }

    /// The fetch failure this sequence absorbed, if any.
    pub closed spec fn fault(self) -> Option<Error> {
        self.failure
    }

    /// The abstract state.
    pub open spec fn model(self) -> CursorModel<T> {
        CursorModel { items: self.buffered(), next: self.cursor() }
    }

    /// Terminal: nothing is buffered and nothing will be fetched.
    pub open spec fn exhausted(self) -> bool {
        self.model() == drained::<T>()
    }

    /// The state seeded from a page that was already fetched.
    pub fn seeded(page: Page<T>) -> (s: Self)
        ensures
            s.model() == page_view(page),
            s.fault() is None,
    {
        let ghost target = page_view(page);
        let s = PageState { items: page.values, next_url: page.next, failure: None };
        proof {
            assert(s.model() =~= target);
        }
        s
    }

    /// Yield the next buffered item, in server order. On an empty buffer
    /// this is a no-op, never an error, so a terminated sequence stays
    /// terminated however often it is asked again.
    pub fn take_next(&mut self) -> (r: Option<T>)
        ensures
            old(self).buffered().len() > 0 ==> ({
                &&& r == Some(old(self).buffered()[0])
                &&& final(self).buffered() == old(self).buffered().skip(1)
                &&& final(self).cursor() == old(self).cursor()
                &&& final(self).fault() == old(self).fault()
            }),
            old(self).buffered().len() == 0 ==> r is None && *final(self) == *old(self),
            old(self).exhausted() ==> r is None && *final(self) == *old(self),
    {
        if self.items.len() > 0 {
            let item = self.items.remove(0);
            proof {
                assert(self.items@ =~= old(self).items@.skip(1));
            }
            Some(item)
        } else {
            None
        }
    }

    /// The pending cursor, when there is one.
    pub fn pending_cursor(&self) -> (r: Option<&String>)
        ensures
            match r {
                Some(u) => self.cursor() == Some(u@),
                None => self.cursor() is None,
            },
    {
        match &self.next_url {
            Some(u) => Some(u),
            None => None,
        }
    }

    /// Install the outcome of one fetch, exactly as [`absorbed`] says: a
    /// failure ends the sequence and is kept as the last fault; a page is
    /// installed as it came, so a page without items leaves its cursor
    /// pending and only a page with neither items nor cursor ends the
    /// sequence.
    pub fn absorb(&mut self, fetched: Result<Page<T>, Error>)
        ensures
            final(self).model() == absorbed(
                match fetched {
                    Ok(p) => Some(page_view(p)),
                    Err(_) => None,
                },
            ),
            final(self).fault() == (match fetched {
                Ok(_) => old(self).fault(),
                Err(e) => Some(e),
            }),
    {
        match fetched {
            Ok(page) => {
                let ghost target = page_view(page);
                self.items = page.values;
                self.next_url = page.next;
                proof {
                    assert(self.model() =~= target);
                }
            },
            Err(e) => {
                self.items = Vec::new();
                self.next_url = None;
                self.failure = Some(e);
                proof {
                    assert(self.model() =~= drained::<T>());
                }
            },
        }
    }

    /// The fetch failure this sequence absorbed, if any.
    pub fn last_error(&self) -> (r: &Option<Error>)
        ensures
            *r == self.fault(),
    {
        &self.failure
    }
}

/// A page from a paginated response: the fetched page and whether more
/// pages exist. Produced by one fetch call and consumed right away, either
/// for its own values or turned into a sequence over all pages.
#[derive(Debug)]
pub struct Paginated<'a, T> {
    /// Are there more pages?
    pub has_more: bool,
    /// the fetched page
    pub current_page: Page<T>,
    /// the client that fetched the page and will fetch any follow-up pages
    pub client: &'a API,
}

impl<'a, T> Paginated<'a, T> {
    /// The values of the current page, in server order.
    pub fn current_page_values(self) -> (r: Vec<T>)
        ensures
            r == self.current_page.values,
    {
        self.current_page.values
    }

    /// Turn this page into the lazy sequence over all values across pages.
    /// Follow-up pages are requested through the same client, and so carry
    /// the same authorization, as the initial fetch.
    pub fn into_iter(self) -> (it: PageIterator<'a, T>)
        ensures
            it.buffered() == self.current_page.values@,
            it.cursor() == self.current_page.next.deep_view(),
            it.fault() is None,
            it.client() == *self.client,
    {
        PageIterator { state: PageState::seeded(self.current_page), api: self.client }
    }
}

/// Iterator over all values across pages. Advancing it requests new pages
/// from the service as needed; the client only lends itself to the
/// iterator and must outlive it.
#[derive(Debug)]
pub struct PageIterator<'a, T> {
    state: PageState<T>,
    api: &'a API,
}

impl<'a, T> PageIterator<'a, T> {
    /// The items still to be yielded without a fetch, in server order.
    pub closed spec fn buffered(self) -> Seq<T> {
        self.state.buffered()
    }

    /// The cursor a fetch would follow, when one is pending.
    pub closed spec fn cursor(self) -> Option<Seq<char>> {
        self.state.cursor()
    }

    /// The fetch failure this sequence absorbed, if any.
    pub closed spec fn fault(self) -> Option<Error> {
        self.state.fault()
    }

    /// The client the sequence fetches through.
    pub closed spec fn client(self) -> API {
        *self.api
    }

    /// The abstract state.
    pub open spec fn model(self) -> CursorModel<T> {
        CursorModel { items: self.buffered(), next: self.cursor() }
    }

    /// Terminal: nothing is buffered and nothing will be fetched.
    pub open spec fn exhausted(self) -> bool {
        self.model() == drained::<T>()
    }

    /// The fetch failure this sequence absorbed, if any: a failed follow-up
    /// fetch ends iteration instead of surfacing an error, and this is the
    /// diagnostic channel that tells such an end from natural end-of-data.
    pub fn last_error(&self) -> (r: &Option<Error>)
        ensures
            *r == self.fault(),
    {
        self.state.last_error()
    }
}

impl<'a, T: FromJson> PageIterator<'a, T> {
    /// Yield the next item: the first buffered one when there is one, else
    /// by fetching the pending cursor through the borrowed client, one
    /// fetch per call. What a fetch returns is not pinned down by
    /// anything, so the contract states what holds of every outcome. A
    /// fetched page is installed as it came: one with items yields its
    /// first at once; one without items answers `None` for this call while
    /// its cursor stays pending, so a caller that asks again loses
    /// nothing; a failed fetch exhausts the sequence and is kept for
    /// `last_error`. An exhausted sequence answers `None` for ever, with
    /// no further fetch.
    pub fn next(&mut self) -> (r: Option<T>)
        ensures
            final(self).client() == old(self).client(),
            old(self).buffered().len() > 0 ==> ({
                &&& r == Some(old(self).buffered()[0])
                &&& final(self).buffered() == old(self).buffered().skip(1)
                &&& final(self).cursor() == old(self).cursor()
                &&& final(self).fault() == old(self).fault()
            }),
            (old(self).buffered().len() == 0 && old(self).cursor() is None) ==> ({
                &&& r is None
                &&& final(self).model() == old(self).model()
                &&& final(self).fault() == old(self).fault()
            }),
            old(self).exhausted() ==> r is None && final(self).exhausted(),
            (old(self).buffered().len() == 0 && old(self).cursor() is Some) ==> exists|
                outcome: Option<CursorModel<T>>,
            |
                {
                    let m = #[trigger] absorbed(outcome);
                    &&& (m.items.len() > 0 ==> r == Some(m.items[0]) && final(self).model() == (
                    CursorModel { items: m.items.skip(1), next: m.next }))
                    &&& (m.items.len() == 0 ==> r is None && final(self).model() == m)
                    &&& (outcome is None ==> final(self).fault() is Some)
                    &&& (outcome is Some ==> final(self).fault() == old(self).fault())
                },
    {
        match self.state.take_next() {
            Some(item) => Some(item),
            None => {
                let url = match self.state.pending_cursor() {
                    Some(u) => u.clone(),
                    None => {
                        proof {
                            assert(self.state.model() =~= drained::<T>());
                        }
                        return None;
                    },
                };
                let fetched = self.api.get::<Page<T>>(&url);
                let ghost outcome: Option<CursorModel<T>> = match &fetched {
                    Ok(p) => Some(page_view(*p)),
                    Err(_) => None,
                };
                self.state.absorb(fetched);
                let r = self.state.take_next();
                proof {
                    let m = absorbed(outcome);
                    if m.items.len() > 0 {
                        assert(self.state.model() =~= CursorModel {
                            items: m.items.skip(1),
                            next: m.next,
                        });
                    }
                }
                r
            },
        }
    }
}

/// The values of a run of pages, concatenated in order.
pub open spec fn concatenated<T>(pages: Seq<CursorModel<T>>) -> Seq<T>
    decreases pages.len(),
{
    if pages.len() == 0 {
        Seq::empty()
    } else {
        pages[0].items + concatenated(pages.skip(1))
    }
}

/// Everything a sequence in state `m` yields when the successive fetches
/// return `outcomes`, in order: the buffered items first, then — while a
/// cursor is pending — each scripted outcome absorbed and its items yielded
/// in turn. A page without items contributes nothing while its cursor, if
/// any, keeps the run going; `None` stands for a fetch that failed. The
/// definition composes [`absorbed`], the very transition the executable
/// sequence is proved to take.
pub open spec fn yielded_by<T>(m: CursorModel<T>, outcomes: Seq<Option<CursorModel<T>>>) -> Seq<T>
    decreases outcomes.len(),
{
    m.items + (match m.next {
        Some(_) => if outcomes.len() == 0 {
            Seq::empty()
        } else {
            yielded_by(absorbed(outcomes[0]), outcomes.skip(1))
        },
        None => Seq::empty(),
    })
}

/// Law: seeded from the first page of a chain — every page but the last
/// carries a cursor and the last carries none — a page sequence yields
/// exactly the concatenation of the chain's values, in order; a page
/// without items contributes nothing and its cursor is followed like any
/// other. That the sequence then stays terminated is the
/// `take_next`/`next` contracts: an exhausted state answers `None` for
/// ever, with no further fetch.
pub proof fn lemma_chain_yields_concatenation<T>(pages: Seq<CursorModel<T>>)
    requires
        pages.len() >= 1,
        forall|i: int| 0 <= i < pages.len() - 1 ==> (#[trigger] pages[i]).next is Some,
        pages[pages.len() - 1].next is None,
    ensures
        yielded_by(pages[0], pages.skip(1).map_values(|p: CursorModel<T>| Some(p)))
            == concatenated(pages),
    decreases pages.len(),
{
    let outcomes = pages.skip(1).map_values(|p: CursorModel<T>| Some(p));
    let rest = pages.skip(1);
    if pages.len() == 1 {
        assert(rest =~= Seq::<CursorModel<T>>::empty());
        assert(concatenated(pages) == pages[0].items + concatenated(rest));
        assert(pages[0].items + Seq::<T>::empty() =~= pages[0].items);
        assert(yielded_by(pages[0], outcomes) == pages[0].items);
    } else {
        assert(outcomes[0] == Some(pages[1]));
        assert(rest[rest.len() - 1] == pages[pages.len() - 1]);
        assert(absorbed(outcomes[0]) == pages[1]);
        assert forall|i: int| 0 <= i < rest.len() - 1 implies (#[trigger] rest[i]).next
            is Some by {
            assert(rest[i] == pages[i + 1]);
        }
        lemma_chain_yields_concatenation::<T>(rest);
        assert(outcomes.skip(1) =~= rest.skip(1).map_values(
            |p: CursorModel<T>| Some(p),
        ));
        assert(yielded_by(pages[0], outcomes) == pages[0].items + yielded_by(
            pages[1],
            outcomes.skip(1),
        ));
        assert(concatenated(pages) == pages[0].items + concatenated(rest));
    }
}

/// Law: when every page carries a cursor and the fetch after the last of
/// them fails, the sequence yields every item already fetched, in order,
/// and the failure ends it: nothing partial is yielded, and no fetch is
/// tried again.
pub proof fn lemma_failure_ends_sequence<T>(pages: Seq<CursorModel<T>>)
    requires
        pages.len() >= 1,
        forall|i: int| 0 <= i < pages.len() ==> (#[trigger] pages[i]).next is Some,
    ensures
        yielded_by(
            pages[0],
            pages.skip(1).map_values(|p: CursorModel<T>| Some(p)).push(None),
        ) == concatenated(pages),
    decreases pages.len(),
{
    let outcomes = pages.skip(1).map_values(|p: CursorModel<T>| Some(p)).push(None);
    let rest = pages.skip(1);
    if pages.len() == 1 {
        assert(outcomes[0] is None);
        assert(absorbed(outcomes[0]) == drained::<T>());
        assert(yielded_by(drained::<T>(), outcomes.skip(1)) =~= Seq::<T>::empty());
        assert(rest =~= Seq::<CursorModel<T>>::empty());
        assert(concatenated(rest) == Seq::<T>::empty());
        assert(concatenated(pages) == pages[0].items + concatenated(rest));
        assert(concatenated(pages) =~= pages[0].items);
        assert(yielded_by(pages[0], outcomes) =~= pages[0].items);
    } else {
        assert(outcomes[0] == Some(pages[1]));
        assert(absorbed(outcomes[0]) == pages[1]);
        assert forall|i: int| 0 <= i < rest.len() implies (#[trigger] rest[i]).next is Some by {
            assert(rest[i] == pages[i + 1]);
        }
        lemma_failure_ends_sequence::<T>(rest);
        assert(outcomes.skip(1) =~= rest.skip(1).map_values(
            |p: CursorModel<T>| Some(p),
        ).push(None));
        assert(yielded_by(pages[0], outcomes) == pages[0].items + yielded_by(
            pages[1],
            outcomes.skip(1),
        ));
        assert(concatenated(pages) == pages[0].items + concatenated(rest));
    }
}

} // verus!
