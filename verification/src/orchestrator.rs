//! The scan cycle: fetch the summary rows page by page, keep the cheap ones,
//! look at each of those with a bounded number at a time, and begin again.
//!
//! The orchestrator decides; it does not fetch, wait or buy. Whoever runs it
//! tells it what happened and does what it answers.

use crate::engine::Outcome;
use crate::market_secondary::{MarketSecondaryResponse, Secondary};
use crate::price_table::PriceTable;
use crate::store::{cheap_cards, cheap_listings};
use vstd::prelude::*;

verus! {

/// Whether scanning goes on after a cycle.
#[derive(Debug, Clone, Copy, PartialEq, Eq, Structural)]
pub enum Mode {
    /// Cycle after cycle, until a stop is asked for.
    Continuous,
    /// One cycle.
    SingleShot,
}

/// Where in the cycle the orchestrator is.
#[derive(Debug, Clone, Copy, PartialEq, Eq, Structural)]
pub enum Phase {
    /// Nothing has begun.
    Idle,
    /// The pages of summary rows are being fetched.
    Scanning,
    /// All pages are here; the cheap rows are to be picked.
    Filtering,
    /// The candidates are being looked at.
    Buying,
    /// Nothing will be done any more.
    Terminated,
}

/// What is to be done next.
#[derive(Debug, Clone, Copy, PartialEq, Eq, Structural)]
pub enum ScanAction {
    /// Fetch page `page` of the summary rows, `page_size` rows to a page.
    FetchPage { page: u32, page_size: u32 },
    /// Hand over the reference prices, so that the cheap rows are picked.
    Filter,
    /// Begin to look at the candidates `first`, `first + 1`, and so on,
    /// `count` of them, in this order.
    Evaluate { first: usize, count: usize },
    /// Begin nothing: candidates are still being looked at.
    Wait,
    /// Stop: the orchestrator has terminated.
    Stop,
    /// What was told does not belong to this phase; nothing has changed.
    Ignored,
}

/// How many pages hold `total` rows, with `page_size` rows to a page: one
/// more than the full pages, so that the last rows are never missed.
pub open spec fn page_count(total: u32, page_size: u32) -> int {
    total as int / page_size as int + 1
}

/// The phase that follows a cycle: scanning again, unless one cycle was all
/// that was asked for or a stop has been asked for since.
pub open spec fn phase_after_cycle(mode: Mode, stop_requested: bool) -> Phase {
    if stop_requested || mode == Mode::SingleShot {
        Phase::Terminated
    } else {
        Phase::Scanning
    }
}

/// The scan cycle as a state machine.
#[derive(Debug)]
pub struct ScanOrchestrator {
    mode: Mode,
    width: usize,
    page_size: u32,
    phase: Phase,
    page: u32,
    stop_requested: bool,
    listings: Vec<Secondary>,
    candidates: Vec<Secondary>,
    dispatched: usize,
    outcomes: Vec<Outcome>,
}

impl ScanOrchestrator {
    /// What holds of every orchestrator, whatever it has been told: the width
    /// and the page size are at least one, no more candidates are being looked
    /// at than the width allows, and while candidates are left the width is
    /// filled.
    #[verifier::type_invariant]
    spec fn well_formed(self) -> bool {
        &&& self.width >= 1
        &&& self.page_size >= 1
        &&& self.page >= 1
        &&& self.outcomes@.len() <= self.dispatched <= self.candidates@.len()
        &&& self.dispatched - self.outcomes@.len() <= self.width
        &&& self.phase == Phase::Buying ==> self.outcomes@.len() < self.candidates@.len()
        &&& self.phase == Phase::Buying ==> (self.dispatched == self.candidates@.len()
            || self.dispatched - self.outcomes@.len() == self.width)
        &&& self.phase != Phase::Buying ==> self.dispatched == self.outcomes@.len()
    }

    /// Whether scanning goes on after a cycle.
    pub closed spec fn mode(self) -> Mode {
        self.mode
    }

    /// The fan-out width: how many candidates are looked at at a time, at
    /// most.
    pub closed spec fn width(self) -> nat {
        self.width as nat
    }

    /// How many rows are asked for on one page.
    pub closed spec fn page_size(self) -> u32 {
        self.page_size
    }

    /// Where in the cycle the orchestrator is.
    pub closed spec fn phase(self) -> Phase {
        self.phase
    }

    /// The page that is being fetched, while scanning.
    pub closed spec fn page(self) -> u32 {
        self.page
    }

    /// Whether a stop has been asked for.
    pub closed spec fn stop_requested(self) -> bool {
        self.stop_requested
    }

    /// The summary rows gathered in this cycle.
    pub closed spec fn listings(self) -> Seq<Secondary> {
        self.listings@
    }

    /// The cheap rows of this cycle, in the order in which they are looked
    /// at.
    pub closed spec fn candidates(self) -> Seq<Secondary> {
        self.candidates@
    }

    /// How many candidates have been begun.
    pub closed spec fn dispatched(self) -> nat {
        self.dispatched as nat
    }

    /// The outcomes gathered in this cycle, in the order in which they came.
    pub closed spec fn outcomes(self) -> Seq<Outcome> {
        self.outcomes@
    }

    /// How many candidates are being looked at now.
    pub open spec fn in_flight(self) -> int {
        self.dispatched() - self.outcomes().len()
    }

    /// An orchestrator that has not begun. A width or a page size of zero
    /// counts as one.
    pub fn new(mode: Mode, width: usize, page_size: u32) -> (made: ScanOrchestrator)
        ensures
            made.mode() == mode,
            made.width() == if width == 0 {
                1
            } else {
                width
            },
            made.page_size() == if page_size == 0 {
                1
            } else {
                page_size
            },
            made.phase() == Phase::Idle,
            !made.stop_requested(),
            made.listings().len() == 0,
            made.candidates().len() == 0,
            made.outcomes().len() == 0,
            made.dispatched() == 0,
    {
        ScanOrchestrator {
            mode,
            width: if width == 0 {
                1
            } else {
                width
            },
            page_size: if page_size == 0 {
                1
            } else {
                page_size
            },
            phase: Phase::Idle,
            page: 1,
            stop_requested: false,
            listings: Vec::new(),
            candidates: Vec::new(),
            dispatched: 0,
            outcomes: Vec::new(),
        }
    }

    /// The phase the orchestrator is in. At every moment, no more candidates
    /// are being looked at than the width allows, and outside the buying
    /// phase none is.
    pub fn current_phase(&self) -> (phase: Phase)
        ensures
            phase == self.phase(),
            0 <= self.in_flight() <= self.width(),
            self.width() >= 1,
            self.dispatched() <= self.candidates().len(),
            phase != Phase::Buying ==> self.in_flight() == 0,
            phase == Phase::Buying ==> self.outcomes().len() < self.candidates().len(),
    {
        proof {
            use_type_invariant(self);
        }
        self.phase
    }

    /// The candidate at place `i`.
    pub fn candidate(&self, i: usize) -> (row: Option<&Secondary>)
        ensures
            row is Some <==> i < self.candidates().len(),
            row matches Some(r) ==> *r == self.candidates()[i as int],
    {
        if i < self.candidates.len() {
            Some(&self.candidates[i])
        } else {
            None
        }
    }

    /// The outcomes gathered so far in this cycle; after the cycle, those of
    /// the whole cycle, until the next cycle picks its candidates.
    pub fn collected(&self) -> (outcomes: &Vec<Outcome>)
        ensures
            outcomes@ == self.outcomes(),
    {
        &self.outcomes
    }

    /// Begins the first cycle.
    pub fn start(&mut self) -> (action: ScanAction)
        ensures
            final(self).mode() == old(self).mode(),
            final(self).width() == old(self).width(),
            final(self).page_size() == old(self).page_size(),
            final(self).stop_requested() == old(self).stop_requested(),
            old(self).phase() == Phase::Idle ==> final(self).phase() == Phase::Scanning
                && final(self).page() == 1 && final(self).listings().len() == 0 && action
                == (ScanAction::FetchPage { page: 1, page_size: old(self).page_size() }),
            old(self).phase() != Phase::Idle ==> *final(self) == *old(self) && action
                == ScanAction::Ignored,
    {
        proof {
            use_type_invariant(&*self);
        }
        if self.phase != Phase::Idle {
            return ScanAction::Ignored;
        }
        self.phase = Phase::Scanning;
        self.page = 1;
        self.listings = Vec::new();
        ScanAction::FetchPage { page: 1, page_size: self.page_size }
    }

    /// Tells that the setup has failed, before anything began: the reference
    /// prices could not be made. Nothing will be scanned.
    pub fn setup_failed(&mut self) -> (action: ScanAction)
        ensures
            final(self).mode() == old(self).mode(),
            final(self).width() == old(self).width(),
            final(self).page_size() == old(self).page_size(),
            old(self).phase() == Phase::Idle ==> final(self).phase() == Phase::Terminated
                && action == ScanAction::Stop,
            old(self).phase() != Phase::Idle ==> *final(self) == *old(self) && action
                == ScanAction::Ignored,
    {
        proof {
            use_type_invariant(&*self);
        }
        if self.phase != Phase::Idle {
            return ScanAction::Ignored;
        }
        self.phase = Phase::Terminated;
        ScanAction::Stop
    }

    /// Asks for a stop. It takes effect between cycles: a cycle that has
    /// begun runs to its end. An orchestrator that has not begun terminates
    /// at once.
    pub fn cancel(&mut self)
        ensures
            final(self).stop_requested(),
            final(self).mode() == old(self).mode(),
            final(self).width() == old(self).width(),
            final(self).page_size() == old(self).page_size(),
            final(self).page() == old(self).page(),
            final(self).listings() == old(self).listings(),
            final(self).candidates() == old(self).candidates(),
            final(self).outcomes() == old(self).outcomes(),
            final(self).dispatched() == old(self).dispatched(),
            final(self).phase() == if old(self).phase() == Phase::Idle {
                Phase::Terminated
            } else {
                old(self).phase()
            },
    {
        proof {
            use_type_invariant(&*self);
        }
        self.stop_requested = true;
        if self.phase == Phase::Idle {
            self.phase = Phase::Terminated;
        }
    }

    /// Takes the orchestrator out of its place, to make the next state of
    /// what it holds; an orchestrator that has not begun is left behind until
    /// the next state is put there.
    fn take(&mut self) -> (taken: ScanOrchestrator)
        ensures
            taken == *old(self),
    {
        let mut taken = ScanOrchestrator::new(Mode::SingleShot, 1, 1);
        core::mem::swap(self, &mut taken);
        taken
    }

    /// The state after a cycle, with what is to be done next: scanning begins
    /// again with the first page, unless one cycle was all that was asked for
    /// or a stop has been asked for. The candidates and the outcomes of the
    /// cycle are kept.
    fn close_cycle(
        mode: Mode,
        width: usize,
        page_size: u32,
        stop_requested: bool,
        listings: Vec<Secondary>,
        candidates: Vec<Secondary>,
        outcomes: Vec<Outcome>,
    ) -> (next: (ScanOrchestrator, ScanAction))
        requires
            width >= 1,
            page_size >= 1,
            outcomes@.len() <= candidates@.len(),
        ensures
            next.0.mode() == mode,
            next.0.width() == width,
            next.0.page_size() == page_size,
            next.0.stop_requested() == stop_requested,
            next.0.candidates() == candidates@,
            next.0.outcomes() == outcomes@,
            next.0.dispatched() == outcomes@.len(),
            next.0.phase() == phase_after_cycle(mode, stop_requested),
            next.0.phase() == Phase::Scanning ==> next.0.page() == 1 && next.0.listings().len()
                == 0 && next.1 == (ScanAction::FetchPage { page: 1, page_size }),
            next.0.phase() == Phase::Terminated ==> next.1 == ScanAction::Stop,
    {
        let dispatched = outcomes.len();
        if stop_requested || mode == Mode::SingleShot {
            (
                ScanOrchestrator {
                    mode,
                    width,
                    page_size,
                    phase: Phase::Terminated,
                    page: 1,
                    stop_requested,
                    listings,
                    candidates,
                    dispatched,
                    outcomes,
                },
                ScanAction::Stop,
            )
        } else {
            (
                ScanOrchestrator {
                    mode,
                    width,
                    page_size,
                    phase: Phase::Scanning,
                    page: 1,
                    stop_requested,
                    listings: Vec::new(),
                    candidates,
                    dispatched,
                    outcomes,
                },
                ScanAction::FetchPage { page: 1, page_size },
            )
        }
    }

    /// Takes a page of summary rows. Its rows are put behind those gathered
    /// so far. While pages are left the next one is asked for; after the last
    /// the cheap rows are to be picked.
    pub fn page_fetched(&mut self, response: MarketSecondaryResponse) -> (action: ScanAction)
        ensures
            final(self).mode() == old(self).mode(),
            final(self).width() == old(self).width(),
            final(self).page_size() == old(self).page_size(),
            final(self).stop_requested() == old(self).stop_requested(),
            old(self).phase() != Phase::Scanning ==> *final(self) == *old(self) && action
                == ScanAction::Ignored,
            old(self).phase() == Phase::Scanning ==> {
                &&& final(self).listings() == old(self).listings() + response.list@
                &&& final(self).candidates() == old(self).candidates()
                &&& final(self).outcomes() == old(self).outcomes()
                &&& if old(self).page() < page_count(response.total, old(self).page_size())
                    && old(self).page() < u32::MAX {
                    &&& final(self).phase() == Phase::Scanning
                    &&& final(self).page() == old(self).page() + 1
                    &&& action == (ScanAction::FetchPage {
                        page: final(self).page(),
                        page_size: old(self).page_size(),
                    })
                } else {
                    &&& final(self).phase() == Phase::Filtering
                    &&& action == ScanAction::Filter
                }
            },
    {
        proof {
            use_type_invariant(&*self);
        }
        if self.phase != Phase::Scanning {
            return ScanAction::Ignored;
        }
        let ScanOrchestrator {
            mode,
            width,
            page_size,
            phase: _,
            page,
            stop_requested,
            listings,
            candidates,
            dispatched,
            outcomes,
        } = self.take();
        let mut listings = listings;
        let mut rows = response.list;
        listings.append(&mut rows);
        let pages: u64 = (response.total / page_size) as u64 + 1;
        if (page as u64) < pages && page < u32::MAX {
            *self = ScanOrchestrator {
                mode,
                width,
                page_size,
                phase: Phase::Scanning,
                page: page + 1,
                stop_requested,
                listings,
                candidates,
                dispatched,
                outcomes,
            };
            ScanAction::FetchPage { page: page + 1, page_size }
        } else {
            *self = ScanOrchestrator {
                mode,
                width,
                page_size,
                phase: Phase::Filtering,
                page,
                stop_requested,
                listings,
                candidates,
                dispatched,
                outcomes,
            };
            ScanAction::Filter
        }
    }

    /// Tells that a page could not be fetched. The cycle is given up, with
    /// nothing bought; the failure ends nothing but the cycle.
    pub fn page_failed(&mut self) -> (action: ScanAction)
        ensures
            final(self).mode() == old(self).mode(),
            final(self).width() == old(self).width(),
            final(self).page_size() == old(self).page_size(),
            final(self).stop_requested() == old(self).stop_requested(),
            old(self).phase() != Phase::Scanning ==> *final(self) == *old(self) && action
                == ScanAction::Ignored,
            old(self).phase() == Phase::Scanning ==> {
                &&& final(self).phase() == phase_after_cycle(
                    old(self).mode(),
                    old(self).stop_requested(),
                )
                &&& final(self).phase() == Phase::Scanning ==> final(self).page() == 1
                    && final(self).listings().len() == 0
                    && action == (ScanAction::FetchPage {
                        page: 1,
                        page_size: old(self).page_size(),
                    })
                &&& final(self).phase() == Phase::Terminated ==> action == ScanAction::Stop
            },
    {
        proof {
            use_type_invariant(&*self);
        }
        if self.phase != Phase::Scanning {
            return ScanAction::Ignored;
        }
        let ScanOrchestrator {
            mode,
            width,
            page_size,
            phase: _,
            page: _,
            stop_requested,
            listings,
            candidates,
            dispatched: _,
            outcomes,
        } = self.take();
        let (next, action) = ScanOrchestrator::close_cycle(
            mode,
            width,
            page_size,
            stop_requested,
            listings,
            candidates,
            outcomes,
        );
        *self = next;
        action
    }

    /// Picks the cheap rows among those gathered, by the reference prices
    /// `prices`, and begins to look at them: as many at once as the width
    /// allows, in the order of the rows. Without a cheap row the cycle ends.
    pub fn filter(&mut self, prices: &PriceTable) -> (action: ScanAction)
        ensures
            final(self).mode() == old(self).mode(),
            final(self).width() == old(self).width(),
            final(self).page_size() == old(self).page_size(),
            final(self).stop_requested() == old(self).stop_requested(),
            old(self).phase() != Phase::Filtering ==> *final(self) == *old(self) && action
                == ScanAction::Ignored,
            old(self).phase() == Phase::Filtering ==> {
                &&& final(self).candidates() == cheap_listings(old(self).listings(), prices@)
                &&& final(self).outcomes().len() == 0
                &&& if final(self).candidates().len() == 0 {
                    &&& final(self).dispatched() == 0
                    &&& final(self).phase() == phase_after_cycle(
                        old(self).mode(),
                        old(self).stop_requested(),
                    )
                    &&& final(self).phase() == Phase::Scanning ==> action
                        == (ScanAction::FetchPage { page: 1, page_size: old(self).page_size() })
                    &&& final(self).phase() == Phase::Terminated ==> action == ScanAction::Stop
                } else {
                    &&& final(self).phase() == Phase::Buying
                    &&& final(self).dispatched() == if final(self).candidates().len()
                        <= old(self).width() {
                        final(self).candidates().len()
                    } else {
                        old(self).width()
                    }
                    &&& action == (ScanAction::Evaluate {
                        first: 0,
                        count: final(self).dispatched() as usize,
                    })
                }
            },
    {
        proof {
            use_type_invariant(&*self);
        }
        if self.phase != Phase::Filtering {
            return ScanAction::Ignored;
        }
        let ScanOrchestrator {
            mode,
            width,
            page_size,
            phase: _,
            page,
            stop_requested,
            listings,
            candidates: _,
            dispatched: _,
            outcomes: _,
        } = self.take();
        let candidates = cheap_cards(&listings, prices);
        let n = candidates.len();
        if n == 0 {
            let (next, action) = ScanOrchestrator::close_cycle(
                mode,
                width,
                page_size,
                stop_requested,
                listings,
                candidates,
                Vec::new(),
            );
            *self = next;
            action
        } else {
            let count = if n <= width {
                n
            } else {
                width
            };
            *self = ScanOrchestrator {
                mode,
                width,
                page_size,
                phase: Phase::Buying,
                page,
                stop_requested,
                listings,
                candidates,
                dispatched: count,
                outcomes: Vec::new(),
            };
            ScanAction::Evaluate { first: 0, count }
        }
    }

    /// Takes the outcome of one candidate. It is kept, whatever it is: a
    /// purchase that failed ends nothing. If candidates are left, the next one
    /// is begun, so that the width stays filled; after the last outcome the
    /// cycle ends.
    pub fn candidate_finished(&mut self, outcome: Outcome) -> (action: ScanAction)
        ensures
            final(self).mode() == old(self).mode(),
            final(self).width() == old(self).width(),
            final(self).page_size() == old(self).page_size(),
            final(self).stop_requested() == old(self).stop_requested(),
            // the buying phase is left only when every candidate has its outcome
            old(self).phase() == Phase::Buying && final(self).phase() != Phase::Buying
                ==> final(self).outcomes().len() == final(self).candidates().len(),
            old(self).phase() != Phase::Buying ==> *final(self) == *old(self) && action
                == ScanAction::Ignored,
            old(self).phase() == Phase::Buying ==> {
                &&& final(self).candidates() == old(self).candidates()
                &&& final(self).outcomes() == old(self).outcomes().push(outcome)
                &&& if old(self).dispatched() < old(self).candidates().len() {
                    &&& final(self).phase() == Phase::Buying
                    &&& final(self).dispatched() == old(self).dispatched() + 1
                    &&& action == (ScanAction::Evaluate {
                        first: old(self).dispatched() as usize,
                        count: 1,
                    })
                } else if final(self).outcomes().len() < old(self).candidates().len() {
                    &&& final(self).phase() == Phase::Buying
                    &&& final(self).dispatched() == old(self).dispatched()
                    &&& action == ScanAction::Wait
                } else {
                    &&& final(self).dispatched() == old(self).dispatched()
                    &&& final(self).phase() == phase_after_cycle(
                        old(self).mode(),
                        old(self).stop_requested(),
                    )
                    &&& final(self).phase() == Phase::Scanning ==> action
                        == (ScanAction::FetchPage { page: 1, page_size: old(self).page_size() })
                    &&& final(self).phase() == Phase::Terminated ==> action == ScanAction::Stop
                }
            },
    {
        proof {
            use_type_invariant(&*self);
        }
        if self.phase != Phase::Buying {
            return ScanAction::Ignored;
        }
        let ScanOrchestrator {
            mode,
            width,
            page_size,
            phase: _,
            page,
            stop_requested,
            listings,
            candidates,
            dispatched,
            outcomes,
        } = self.take();
        let mut outcomes = outcomes;
        outcomes.push(outcome);
        let n = candidates.len();
        if dispatched < n {
            *self = ScanOrchestrator {
                mode,
                width,
                page_size,
                phase: Phase::Buying,
                page,
                stop_requested,
                listings,
                candidates,
                dispatched: dispatched + 1,
                outcomes,
            };
            ScanAction::Evaluate { first: dispatched, count: 1 }
        } else if outcomes.len() < n {
            *self = ScanOrchestrator {
                mode,
                width,
                page_size,
                phase: Phase::Buying,
                page,
                stop_requested,
                listings,
                candidates,
                dispatched,
                outcomes,
            };
            ScanAction::Wait
        } else {
            let (next, action) = ScanOrchestrator::close_cycle(
                mode,
                width,
                page_size,
                stop_requested,
                listings,
                candidates,
                outcomes,
            );
            *self = next;
            action
        }
    }
}

/// The orchestrator terminates only where it is meant to: after a cycle, when
/// one cycle was all that was asked for or a stop has been asked for. No
/// outcome and no failed fetch has a say in it.
pub proof fn lemma_termination_is_deliberate(mode: Mode, stop_requested: bool)
    ensures
        phase_after_cycle(mode, stop_requested) == Phase::Terminated <==> (stop_requested || mode
            == Mode::SingleShot),
        phase_after_cycle(mode, stop_requested) != Phase::Terminated ==> phase_after_cycle(
            mode,
            stop_requested,
        ) == Phase::Scanning,
{
}

} // verus!
