use vstd::prelude::*;

use crate::articles::{merged, Article, ArticleContent, ArticlePreFetch};
use crate::errors::Error;

verus! {

/// Where the fetch loop stands inside one iteration.
///
/// The loop walks list pages forever; within a page it resolves the pending
/// previews one by one, front first. `Stopped` is the sole terminal stage and
/// is reached only by observing cancellation.
#[derive(Clone, Copy, Debug, PartialEq, Eq, Structural)]
pub enum Stage {
    /// About to issue (or awaiting) the list request for the current page.
    FetchingList,
    /// List request succeeded; awaiting the decode of its body.
    DecodingList,
    /// Awaiting the content request for the first pending preview.
    FetchingContent,
    /// Content request succeeded; awaiting the decode of its body.
    DecodingContent,
    /// Cancellation observed; the loop is over.
    Stopped,
}

/// What the driver must do next, as decided by the state machine.
#[derive(Clone, Copy, Debug, PartialEq, Eq, Structural)]
pub enum Action {
    /// Issue the list request for the given page, racing it against
    /// cancellation.
    FetchList { page: u128, per_page: u128 },
    /// Decode the list response body, racing the decode against
    /// cancellation.
    DecodeList,
    /// Issue the content request for the item with the given id, racing it
    /// against cancellation.
    FetchContent { id: u128 },
    /// Decode the content response body, racing the decode against
    /// cancellation.
    DecodeContent,
    /// Terminate the loop; no further request may be issued.
    Stop,
}

/// How a request race ended: cancellation won, the transport failed, or a
/// response arrived.
#[derive(Clone, Copy, Debug, PartialEq, Eq, Structural)]
pub enum FetchOutcome {
    Cancelled,
    TransportFailure,
    Success,
}

/// How the list-decode race ended.
#[derive(Debug)]
pub enum ListDecodeOutcome {
    Cancelled,
    DecodeFailure,
    Decoded(Vec<ArticlePreFetch>),
}

/// How the content-decode race ended.
#[derive(Debug)]
pub enum ContentDecodeOutcome {
    Cancelled,
    DecodeFailure,
    Decoded(ArticleContent),
}

/// The net result of resolving one pending item: both of its race points
/// collapsed into what they mean for the item.
#[derive(Debug)]
pub enum ItemOutcome {
    Cancelled,
    TransportFailure,
    DecodeFailure,
    Content(ArticleContent),
}

/// What one whole iteration of the outer loop came to, as observed at its
/// race points: the list request was lost to cancellation, failed in the
/// transport, or succeeded and its decode was then lost to cancellation,
/// failed, or delivered a page of previews together with the outcome each
/// item's resolution came to.
#[derive(Debug)]
pub enum PageEvent {
    ListCancelled,
    ListTransportFailure,
    DecodeCancelled,
    DecodeFailure,
    Page(Vec<ArticlePreFetch>, Vec<ItemOutcome>),
}

/// The records a page's pending previews yield, given the outcome of each
/// item's resolution, in response order: one merged record per item whose
/// content arrived whole, none for a skipped item, and nothing at or after
/// the first observed cancellation.
pub open spec fn merged_seq(pending: Seq<ArticlePreFetch>, outs: Seq<ItemOutcome>) -> Seq<Article>
    decreases outs.len(),
{
    if outs.len() == 0 || pending.len() == 0 {
        Seq::<Article>::empty()
    } else {
        match outs[0] {
            ItemOutcome::Cancelled => Seq::<Article>::empty(),
            ItemOutcome::Content(content) => Seq::<Article>::empty().push(
                merged(pending[0], content),
            ) + merged_seq(pending.skip(1), outs.skip(1)),
            _ => merged_seq(pending.skip(1), outs.skip(1)),
        }
    }
}

/// No outcome in the sequence is a cancellation.
pub open spec fn cancel_free(outs: Seq<ItemOutcome>) -> bool {
    forall|i: int| 0 <= i < outs.len() ==> !(outs[i] is Cancelled)
}

/// How many outcomes delivered content whole.
pub open spec fn content_count(outs: Seq<ItemOutcome>) -> nat
    decreases outs.len(),
{
    if outs.len() == 0 {
        0
    } else {
        (if outs[0] is Content {
            1nat
        } else {
            0nat
        }) + content_count(outs.skip(1))
    }
}

/// The records a run of outer-loop iterations yields: each page contributes
/// the records its items yield, pages in order, and nothing follows the
/// iteration in which cancellation was observed.
pub open spec fn page_emissions(events: Seq<PageEvent>) -> Seq<Article>
    decreases events.len(),
{
    if events.len() == 0 {
        Seq::<Article>::empty()
    } else {
        match events[0] {
            PageEvent::Page(previews, outs) => merged_seq(previews@, outs@) + (if cancel_free(
                outs@,
            ) {
                page_emissions(events.skip(1))
            } else {
                Seq::<Article>::empty()
            }),
            PageEvent::ListTransportFailure => page_emissions(events.skip(1)),
            PageEvent::DecodeFailure => page_emissions(events.skip(1)),
            _ => Seq::<Article>::empty(),
        }
    }
}

/// Whether a run of outer-loop iterations observes cancellation anywhere.
pub open spec fn script_cancelled(events: Seq<PageEvent>) -> bool
    decreases events.len(),
{
    if events.len() == 0 {
        false
    } else {
        match events[0] {
            PageEvent::ListCancelled => true,
            PageEvent::DecodeCancelled => true,
            PageEvent::Page(previews, outs) => !cancel_free(outs@) || script_cancelled(
                events.skip(1),
            ),
            _ => script_cancelled(events.skip(1)),
        }
    }
}

/// How far the page number moves over a run of outer-loop iterations: one
/// step per iteration whose list request succeeded — whether or not the
/// decode then failed — and no step for an iteration whose list request
/// failed in the transport or was lost to cancellation.
pub open spec fn pages_advanced(events: Seq<PageEvent>) -> nat
    decreases events.len(),
{
    if events.len() == 0 {
        0
    } else {
        match events[0] {
            PageEvent::ListCancelled => 0,
            PageEvent::ListTransportFailure => pages_advanced(events.skip(1)),
            PageEvent::DecodeCancelled => 1,
            PageEvent::DecodeFailure => 1 + pages_advanced(events.skip(1)),
            PageEvent::Page(previews, outs) => 1 + (if cancel_free(outs@) {
                pages_advanced(events.skip(1))
            } else {
                0
            }),
        }
    }
}

/// Every page event pairs each listed preview with exactly one resolution
/// outcome.
pub open spec fn events_well_formed(events: Seq<PageEvent>) -> bool {
    forall|i: int|
        0 <= i < events.len() ==> (#[trigger] events[i] matches PageEvent::Page(previews, outs)
            ==> previews@.len() == outs@.len())
}

/// The fetch loop's state: the fixed page size, the page number the next
/// list request will ask for, the stage within the current iteration, and
/// the previews of the current page still awaiting resolution (front first).
pub struct DevToFetcher {
    pub per_page: u128,
    pub page: u128,
    pub stage: Stage,
    pub pending: Vec<ArticlePreFetch>,
}

/// A step that observed cancellation: the loop stops, nothing else changes,
/// and the driver is told to terminate.
pub open spec fn stopped_step(pre: DevToFetcher, post: DevToFetcher, action: Action) -> bool {
    &&& post.page == pre.page
    &&& post.per_page == pre.per_page
    &&& post.pending@ == pre.pending@
    &&& post.stage is Stopped
    &&& action is Stop
}

/// A step that gives up on the front pending item only: the item is dropped,
/// the loop moves to the next item or back to the list stage, and in
/// particular it does not terminate.
pub open spec fn skip_step(pre: DevToFetcher, post: DevToFetcher, action: Action) -> bool {
    &&& post.page == pre.page
    &&& post.per_page == pre.per_page
    &&& post.pending@ == pre.pending@.skip(1)
    &&& (post.stage is FetchingContent || post.stage is FetchingList)
    &&& !(action is Stop)
    &&& (pre.pending@.len() > 1 ==> post.stage is FetchingContent && action == (
    Action::FetchContent { id: pre.pending@[1].id }))
    &&& (pre.pending@.len() == 1 ==> post.stage is FetchingList && action == (Action::FetchList {
        page: pre.page,
        per_page: pre.per_page,
    }))
}

impl DevToFetcher {
    /// Structural soundness of the loop state: the page size is positive,
    /// pages are numbered from one, pending previews exist exactly while an
    /// item is being resolved.
    pub open spec fn wf(self) -> bool {
        &&& self.per_page >= 1
        &&& self.page >= 1
        &&& ((self.stage is FetchingContent || self.stage is DecodingContent)
            ==> self.pending@.len() >= 1)
        &&& ((self.stage is FetchingList || self.stage is DecodingList) ==> self.pending@.len()
            == 0)
    }

    /// Builds the loop state from its configuration. The page size must be
    /// positive — a zero page size is the one invalid configuration — and a
    /// fresh loop starts at page one with nothing pending.
    pub fn from_config(per_page: u128) -> (r: Result<DevToFetcher, Error>)
        ensures
            per_page == 0 <==> r is Err,
            (r matches Err(e) ==> e is Invalid),
            (r matches Ok(f) ==> f.wf() && f.per_page == per_page && f.page == 1 && f.stage
                is FetchingList && f.pending@.len() == 0),
    {
        if per_page == 0 {
            Err(Error::Invalid("page size must be positive".to_string()))
        } else {
            Ok(DevToFetcher { per_page, page: 1, stage: Stage::FetchingList, pending: Vec::new() })
        }
    }

    /// The first thing a fresh (or between-pages) loop does: request the
    /// current page.
    pub fn start(&self) -> (action: Action)
        requires
            self.wf(),
            self.stage is FetchingList,
        ensures
            action == (Action::FetchList { page: self.page, per_page: self.per_page }),
    {
        Action::FetchList { page: self.page, per_page: self.per_page }
    }

    /// Reacts to the end of the list-request race.
    ///
    /// Cancellation terminates the loop. A transport failure retries the
    /// same page — the page number does not move. A response advances the
    /// page number at once (even if the decode later fails, the page counts
    /// as attempted) and hands the body over to the decode stage.
    pub fn on_list_fetch(&mut self, outcome: FetchOutcome) -> (action: Action)
        requires
            old(self).wf(),
            old(self).stage is FetchingList,
            old(self).page < u128::MAX,
        ensures
            final(self).wf(),
            final(self).per_page == old(self).per_page,
            final(self).pending@ == old(self).pending@,
            (outcome is Cancelled ==> stopped_step(*old(self), *final(self), action)),
            (outcome is TransportFailure ==> final(self).page == old(self).page && final(self).stage
                is FetchingList && action == (Action::FetchList {
                page: old(self).page,
                per_page: old(self).per_page,
            })),
            (outcome is Success ==> final(self).page == old(self).page + 1 && final(self).stage
                is DecodingList && action is DecodeList),
    {
        match outcome {
            FetchOutcome::Cancelled => {
                self.stage = Stage::Stopped;
                Action::Stop
            },
            FetchOutcome::TransportFailure => {
                Action::FetchList { page: self.page, per_page: self.per_page }
            },
            FetchOutcome::Success => {
                self.page = self.page + 1;
                self.stage = Stage::DecodingList;
                Action::DecodeList
            },
        }
    }

    /// Reacts to the end of the list-decode race.
    ///
    /// Cancellation terminates the loop. A decode failure skips the page —
    /// the page number was already advanced, so the next request asks for
    /// the following page. A decoded body becomes the pending previews; an
    /// empty page goes straight back to the list stage, otherwise the first
    /// item's content is requested.
    pub fn on_list_decode(&mut self, outcome: ListDecodeOutcome) -> (action: Action)
        requires
            old(self).wf(),
            old(self).stage is DecodingList,
        ensures
            final(self).wf(),
            final(self).per_page == old(self).per_page,
            final(self).page == old(self).page,
            (outcome is Cancelled ==> stopped_step(*old(self), *final(self), action)),
            (outcome is DecodeFailure ==> final(self).stage is FetchingList && final(self).pending@
                == old(self).pending@ && action == (Action::FetchList {
                page: old(self).page,
                per_page: old(self).per_page,
            })),
            (outcome matches ListDecodeOutcome::Decoded(previews) ==> final(self).pending@
                == previews@ && (previews@.len() == 0 ==> final(self).stage is FetchingList
                && action == (Action::FetchList {
                page: old(self).page,
                per_page: old(self).per_page,
            })) && (previews@.len() > 0 ==> final(self).stage is FetchingContent && action == (
            Action::FetchContent { id: previews@[0].id }))),
    {
        match outcome {
            ListDecodeOutcome::Cancelled => {
                self.stage = Stage::Stopped;
                Action::Stop
            },
            ListDecodeOutcome::DecodeFailure => {
                self.stage = Stage::FetchingList;
                Action::FetchList { page: self.page, per_page: self.per_page }
            },
            ListDecodeOutcome::Decoded(previews) => {
                self.pending = previews;
                if self.pending.len() == 0 {
                    self.stage = Stage::FetchingList;
                    Action::FetchList { page: self.page, per_page: self.per_page }
                } else {
                    self.stage = Stage::FetchingContent;
                    Action::FetchContent { id: self.pending[0].id }
                }
            },
        }
    }

    /// Drops the front pending item and decides what comes next: the next
    /// item's content request, or the next list request once the page is
    /// drained.
    fn skip_current(&mut self) -> (action: Action)
        requires
            old(self).wf(),
            old(self).stage is FetchingContent || old(self).stage is DecodingContent,
        ensures
            final(self).wf(),
            skip_step(*old(self), *final(self), action),
    {
        let _ = self.pending.remove(0);
        proof {
            assert(self.pending@ =~= old(self).pending@.skip(1));
        }
        if self.pending.len() > 0 {
            self.stage = Stage::FetchingContent;
            Action::FetchContent { id: self.pending[0].id }
        } else {
            self.stage = Stage::FetchingList;
            Action::FetchList { page: self.page, per_page: self.per_page }
        }
    }

    /// Reacts to the end of the content-request race for the front pending
    /// item.
    ///
    /// Cancellation terminates the whole loop, not just this item. A
    /// transport failure skips this item only; the loop goes on. A response
    /// hands the body over to the content-decode stage.
    pub fn on_content_fetch(&mut self, outcome: FetchOutcome) -> (action: Action)
        requires
            old(self).wf(),
            old(self).stage is FetchingContent,
        ensures
            final(self).wf(),
            final(self).per_page == old(self).per_page,
            final(self).page == old(self).page,
            (outcome is Cancelled ==> stopped_step(*old(self), *final(self), action)),
            (outcome is TransportFailure ==> skip_step(*old(self), *final(self), action)),
            (outcome is Success ==> final(self).pending@ == old(self).pending@ && final(self).stage
                is DecodingContent && action is DecodeContent),
    {
        match outcome {
            FetchOutcome::Cancelled => {
                self.stage = Stage::Stopped;
                Action::Stop
            },
            FetchOutcome::TransportFailure => self.skip_current(),
            FetchOutcome::Success => {
                self.stage = Stage::DecodingContent;
                Action::DecodeContent
            },
        }
    }

    /// Reacts to the end of the content-decode race for the front pending
    /// item.
    ///
    /// Cancellation terminates the whole loop and emits nothing. A decode
    /// failure skips this item only. A decoded body is merged with the
    /// item's preview into the one record to emit — a record is produced
    /// exactly here, and only whole.
    pub fn on_content_decode(&mut self, outcome: ContentDecodeOutcome) -> (r: (
        Option<Article>,
        Action,
    ))
        requires
            old(self).wf(),
            old(self).stage is DecodingContent,
        ensures
            final(self).wf(),
            final(self).per_page == old(self).per_page,
            final(self).page == old(self).page,
            (outcome is Cancelled ==> r.0 is None && stopped_step(*old(self), *final(self), r.1)),
            (outcome is DecodeFailure ==> r.0 is None && skip_step(*old(self), *final(self), r.1)),
            (outcome matches ContentDecodeOutcome::Decoded(content) ==> r.0 == Some(
                merged(old(self).pending@[0], content),
            ) && skip_step(*old(self), *final(self), r.1)),
    {
        match outcome {
            ContentDecodeOutcome::Cancelled => {
                self.stage = Stage::Stopped;
                (None, Action::Stop)
            },
            ContentDecodeOutcome::DecodeFailure => {
                let action = self.skip_current();
                (None, action)
            },
            ContentDecodeOutcome::Decoded(content) => {
                let pre = self.pending.remove(0);
                proof {
                    assert(self.pending@ =~= old(self).pending@.skip(1));
                }
                let article = Article::merge(pre, content);
                let action = if self.pending.len() > 0 {
                    self.stage = Stage::FetchingContent;
                    Action::FetchContent { id: self.pending[0].id }
                } else {
                    self.stage = Stage::FetchingList;
                    Action::FetchList { page: self.page, per_page: self.per_page }
                };
                (Some(article), action)
            },
        }
    }

    /// Resolves every pending preview of the current page in response
    /// order, given the outcome each item's resolution came to, and returns
    /// the emitted records together with the loop's next action.
    ///
    /// This is the per-item inner loop run to completion. Its contract is
    /// the loop's law: the records that come out are exactly
    /// `merged_seq(pending, outcomes)` — one whole merged record per item
    /// whose content arrived, in order, none for a skipped item and nothing
    /// from the first cancellation on. An item-level transport or decode
    /// failure never ends the loop: if no outcome is a cancellation, the
    /// loop stands ready to fetch the next page (whose number this stage
    /// never moves); if one is, the loop has stopped and demands no further
    /// request.
    pub fn resolve_items(&mut self, outcomes: Vec<ItemOutcome>) -> (r: (Vec<Article>, Action))
        requires
            old(self).wf(),
            old(self).stage is FetchingContent,
            outcomes@.len() == old(self).pending@.len(),
        ensures
            final(self).wf(),
            final(self).page == old(self).page,
            final(self).per_page == old(self).per_page,
            r.0@ == merged_seq(old(self).pending@, outcomes@),
            (cancel_free(outcomes@) ==> r.0@.len() == content_count(outcomes@)),
            (cancel_free(outcomes@) ==> final(self).stage is FetchingList && r.1 == (
            Action::FetchList { page: old(self).page, per_page: old(self).per_page })),
            (!cancel_free(outcomes@) ==> final(self).stage is Stopped && r.1 is Stop),
    {
        let mut outs = outcomes;
        let mut emitted: Vec<Article> = Vec::new();
        let mut action = Action::Stop;
        let mut cancelled = false;
        let ghost mut processed: Seq<ItemOutcome> = Seq::<ItemOutcome>::empty();
        proof {
            assert(outcomes@ =~= processed + outs@);
        }
        while outs.len() > 0 && !cancelled
            invariant
                self.wf(),
                self.per_page == old(self).per_page,
                self.page == old(self).page,
                cancel_free(processed),
                (!cancelled ==> outcomes@ == processed + outs@),
                (!cancelled && outs@.len() > 0 ==> self.stage is FetchingContent && outs@.len()
                    == self.pending@.len()),
                (!cancelled && outs@.len() == 0 ==> self.stage is FetchingList && action == (
                Action::FetchList { page: old(self).page, per_page: old(self).per_page })),
                (cancelled ==> self.stage is Stopped && action is Stop && !cancel_free(outcomes@)
                    && merged_seq(old(self).pending@, outcomes@) == emitted@),
                (!cancelled ==> merged_seq(old(self).pending@, outcomes@) == emitted@ + merged_seq(
                    self.pending@,
                    outs@,
                )),
            decreases outs@.len(),
        {
            let ghost pre_self = *self;
            let ghost pre_outs = outs@;
            let out = outs.remove(0);
            let ghost out_spec = out;
            proof {
                assert(outs@ =~= pre_outs.skip(1));
            }
            match out {
                ItemOutcome::Cancelled => {
                    action = self.on_content_fetch(FetchOutcome::Cancelled);
                    cancelled = true;
                    proof {
                        assert(outcomes@[processed.len() as int] is Cancelled);
                        assert(!cancel_free(outcomes@));
                        assert(merged_seq(pre_self.pending@, pre_outs) =~= Seq::<
                            Article,
                        >::empty());
                    }
                },
                ItemOutcome::TransportFailure => {
                    action = self.on_content_fetch(FetchOutcome::TransportFailure);
                },
                ItemOutcome::DecodeFailure => {
                    let _ = self.on_content_fetch(FetchOutcome::Success);
                    let step = self.on_content_decode(ContentDecodeOutcome::DecodeFailure);
                    action = step.1;
                },
                ItemOutcome::Content(content) => {
                    let _ = self.on_content_fetch(FetchOutcome::Success);
                    let step = self.on_content_decode(ContentDecodeOutcome::Decoded(content));
                    match step.0 {
                        Some(article) => emitted.push(article),
                        None => (),
                    }
                    action = step.1;
                },
            }
            proof {
                match out_spec {
                    ItemOutcome::Cancelled => (),
                    ItemOutcome::Content(content) => {
                        assert(merged_seq(pre_self.pending@, pre_outs) == Seq::<
                            Article,
                        >::empty().push(merged(pre_self.pending@[0], content)) + merged_seq(
                            pre_self.pending@.skip(1),
                            pre_outs.skip(1),
                        ));
                    },
                    _ => {
                        assert(merged_seq(pre_self.pending@, pre_outs) == merged_seq(
                            pre_self.pending@.skip(1),
                            pre_outs.skip(1),
                        ));
                    },
                }
                if !(out_spec is Cancelled) {
                    processed = processed.push(out_spec);
                    assert(outcomes@ =~= processed + outs@);
                    assert forall|i: int| 0 <= i < processed.len() implies !(processed[i]
                        is Cancelled) by {
                        if i < processed.len() - 1 {
                            assert(processed[i] == outcomes@[i]);
                        }
                    }
                }
            }
        }
        if !cancelled {
            proof {
                assert(outcomes@ =~= processed);
                assert(merged_seq(self.pending@, outs@) =~= Seq::<Article>::empty());
            }
        }
        proof {
            if cancel_free(outcomes@) {
                lemma_emitted_count(old(self).pending@, outcomes@);
            }
        }
        (emitted, action)
    }

    /// Runs the outer loop over a finite sequence of observed iteration
    /// outcomes and returns the emitted records with the loop's next
    /// action.
    ///
    /// This is the loop's law across pages. The records that come out are
    /// exactly `page_emissions(events)`: each page's successfully resolved
    /// items in response order, pages in order, and nothing from the first
    /// observed cancellation on. The page number moves by exactly
    /// `pages_advanced(events)`: one step per iteration whose list request
    /// succeeded, no step on a list-stage transport failure. Only
    /// cancellation stops the loop — absent one, however many items or
    /// pages failed, the loop stands ready to fetch the next page.
    pub fn run_pages(&mut self, events: Vec<PageEvent>) -> (r: (Vec<Article>, Action))
        requires
            old(self).wf(),
            old(self).stage is FetchingList,
            old(self).page + events@.len() < u128::MAX,
            events_well_formed(events@),
        ensures
            final(self).wf(),
            final(self).per_page == old(self).per_page,
            r.0@ == page_emissions(events@),
            final(self).page == old(self).page + pages_advanced(events@),
            (script_cancelled(events@) ==> final(self).stage is Stopped && r.1 is Stop),
            (!script_cancelled(events@) ==> final(self).stage is FetchingList && r.1 == (
            Action::FetchList { page: final(self).page, per_page: old(self).per_page })),
    {
        let mut evs = events;
        let mut emitted: Vec<Article> = Vec::new();
        let mut action = self.start();
        let mut cancelled = false;
        let ghost mut processed: Seq<PageEvent> = Seq::<PageEvent>::empty();
        proof {
            assert(events@ =~= processed + evs@);
        }
        while evs.len() > 0 && !cancelled
            invariant
                self.wf(),
                self.per_page == old(self).per_page,
                old(self).page + events@.len() < u128::MAX,
                events_well_formed(events@),
                old(self).page <= self.page,
                (!cancelled ==> events@ == processed + evs@),
                (!cancelled ==> self.stage is FetchingList),
                (!cancelled ==> action == (Action::FetchList {
                    page: self.page,
                    per_page: old(self).per_page,
                })),
                (!cancelled ==> pages_advanced(events@) == (self.page - old(self).page)
                    + pages_advanced(evs@)),
                (!cancelled ==> page_emissions(events@) == emitted@ + page_emissions(evs@)),
                (!cancelled ==> (script_cancelled(events@) <==> script_cancelled(evs@))),
                (cancelled ==> self.stage is Stopped && action is Stop && script_cancelled(events@)
                    && emitted@ == page_emissions(events@) && self.page == old(self).page
                    + pages_advanced(events@)),
            decreases evs@.len(),
        {
            proof {
                lemma_pages_advanced_le_len(events@);
            }
            let ghost pre_evs = evs@;
            let ev = evs.remove(0);
            let ghost ev_spec = ev;
            proof {
                assert(evs@ =~= pre_evs.skip(1));
                assert(events@[processed.len() as int] == ev_spec);
            }
            match ev {
                PageEvent::ListCancelled => {
                    action = self.on_list_fetch(FetchOutcome::Cancelled);
                    cancelled = true;
                    proof {
                        assert(page_emissions(pre_evs) =~= Seq::<Article>::empty());
                        assert(pages_advanced(pre_evs) == 0);
                        assert(script_cancelled(pre_evs));
                    }
                },
                PageEvent::ListTransportFailure => {
                    action = self.on_list_fetch(FetchOutcome::TransportFailure);
                    proof {
                        assert(page_emissions(pre_evs) == page_emissions(evs@));
                        assert(pages_advanced(pre_evs) == pages_advanced(evs@));
                        assert(script_cancelled(pre_evs) <==> script_cancelled(evs@));
                        processed = processed.push(ev_spec);
                        assert(events@ =~= processed + evs@);
                    }
                },
                PageEvent::DecodeCancelled => {
                    let _ = self.on_list_fetch(FetchOutcome::Success);
                    action = self.on_list_decode(ListDecodeOutcome::Cancelled);
                    cancelled = true;
                    proof {
                        assert(page_emissions(pre_evs) =~= Seq::<Article>::empty());
                        assert(pages_advanced(pre_evs) == 1);
                        assert(script_cancelled(pre_evs));
                    }
                },
                PageEvent::DecodeFailure => {
                    let _ = self.on_list_fetch(FetchOutcome::Success);
                    action = self.on_list_decode(ListDecodeOutcome::DecodeFailure);
                    proof {
                        assert(page_emissions(pre_evs) == page_emissions(evs@));
                        assert(pages_advanced(pre_evs) == 1 + pages_advanced(evs@));
                        assert(script_cancelled(pre_evs) <==> script_cancelled(evs@));
                        processed = processed.push(ev_spec);
                        assert(events@ =~= processed + evs@);
                    }
                },
                PageEvent::Page(previews, outs) => {
                    proof {
                        assert(previews@.len() == outs@.len());
                    }
                    let n = previews.len();
                    let _ = self.on_list_fetch(FetchOutcome::Success);
                    action = self.on_list_decode(ListDecodeOutcome::Decoded(previews));
                    if n > 0 {
                        let step = self.resolve_items(outs);
                        let mut records = step.0;
                        emitted.append(&mut records);
                        action = step.1;
                        let stop = matches!(action, Action::Stop);
                        if stop {
                            cancelled = true;
                        }
                        proof {
                            assert(page_emissions(pre_evs) == merged_seq(previews@, outs@) + (
                            if cancel_free(outs@) {
                                page_emissions(pre_evs.skip(1))
                            } else {
                                Seq::<Article>::empty()
                            }));
                            if cancel_free(outs@) {
                                processed = processed.push(ev_spec);
                                assert(events@ =~= processed + evs@);
                            } else {
                                assert(script_cancelled(pre_evs));
                                assert(pages_advanced(pre_evs) == 1);
                                assert(page_emissions(pre_evs) =~= merged_seq(previews@, outs@));
                            }
                        }
                    } else {
                        proof {
                            assert(outs@.len() == 0);
                            assert(cancel_free(outs@));
                            assert(merged_seq(previews@, outs@) =~= Seq::<Article>::empty());
                            assert(page_emissions(pre_evs) == merged_seq(previews@, outs@)
                                + page_emissions(evs@));
                            assert(page_emissions(pre_evs) =~= page_emissions(evs@));
                            assert(pages_advanced(pre_evs) == 1 + pages_advanced(evs@));
                            assert(script_cancelled(pre_evs) <==> script_cancelled(evs@));
                            processed = processed.push(ev_spec);
                            assert(events@ =~= processed + evs@);
                        }
                    }
                },
            }
        }
        if !cancelled {
            proof {
                assert(events@ =~= processed);
                assert(page_emissions(evs@) =~= Seq::<Article>::empty());
                assert(pages_advanced(evs@) == 0);
                assert(!script_cancelled(evs@));
            }
        }
        (emitted, action)
    }
}

/// The page number moves at most one step per outer-loop iteration.
proof fn lemma_pages_advanced_le_len(events: Seq<PageEvent>)
    ensures
        pages_advanced(events) <= events.len(),
    decreases events.len(),
{
    if events.len() > 0 {
        lemma_pages_advanced_le_len(events.skip(1));
    }
}

/// Law: for any page of previews and any cancellation-free sequence of
/// per-item outcomes, the number of emitted records equals exactly the
/// number of items whose content fetch and decode both succeeded.
pub proof fn lemma_emitted_count(pending: Seq<ArticlePreFetch>, outs: Seq<ItemOutcome>)
    requires
        pending.len() == outs.len(),
        cancel_free(outs),
    ensures
        merged_seq(pending, outs).len() == content_count(outs),
    decreases outs.len(),
{
    if outs.len() == 0 {
    } else {
        assert(!(outs[0] is Cancelled));
        assert(cancel_free(outs.skip(1))) by {
            assert forall|i: int| 0 <= i < outs.skip(1).len() implies !(outs.skip(1)[i]
                is Cancelled) by {
                assert(outs.skip(1)[i] == outs[i + 1]);
            }
        }
        lemma_emitted_count(pending.skip(1), outs.skip(1));
    }
}

/// Law: outcomes at or after the first observed cancellation contribute no
/// record — once the signal wins a race, nothing further is emitted.
pub proof fn lemma_no_output_after_cancel(
    pending: Seq<ArticlePreFetch>,
    outs: Seq<ItemOutcome>,
    i: int,
)
    requires
        pending.len() == outs.len(),
        0 <= i < outs.len(),
        outs[i] is Cancelled,
        forall|j: int| 0 <= j < i ==> !(outs[j] is Cancelled),
    ensures
        merged_seq(pending, outs) == merged_seq(pending.take(i), outs.take(i)),
    decreases i,
{
    if i == 0 {
        assert(merged_seq(pending.take(0), outs.take(0)) =~= Seq::<Article>::empty());
    } else {
        assert(!(outs[0] is Cancelled));
        assert(pending.skip(1).len() == outs.skip(1).len());
        assert(outs.skip(1)[i - 1] is Cancelled);
        assert forall|j: int| 0 <= j < i - 1 implies !(outs.skip(1)[j] is Cancelled) by {
            assert(outs.skip(1)[j] == outs[j + 1]);
        }
        lemma_no_output_after_cancel(pending.skip(1), outs.skip(1), i - 1);
        assert(pending.skip(1).take(i - 1) =~= pending.take(i).skip(1));
        assert(outs.skip(1).take(i - 1) =~= outs.take(i).skip(1));
        assert(outs.take(i)[0] == outs[0]);
        assert(pending.take(i)[0] == pending[0]);
    }
}

} // verus!
