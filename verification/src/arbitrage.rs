//! The fundamentals overlay: matching social momentum against the balance sheet.
use vstd::prelude::*;

use crate::yfinance::YFinanceClient;

verus! {

/// Outcome of the arbitrage overlay.
#[derive(Debug, Clone, Copy, PartialEq, Eq, Structural)]
pub enum Signal {
    /// Overbought: high hype together with bad fundamentals.
    ShortTarget,
    /// Oversold: high fear together with good fundamentals.
    BuyTarget,
    NoSignal,
}

/// The six constraints that the overlay reads: two about social momentum,
/// two about valuation and two about earnings.
#[derive(Debug, Clone, Copy, PartialEq, Eq, Structural)]
pub struct AnomalyFacts {
    /// Massive positive momentum spike (acceleration above 0.5).
    pub is_hype_explosive: bool,
    /// Massive negative panic spike (acceleration below -0.5).
    pub is_panic_explosive: bool,
    /// Forward P/E above 50 (a missing P/E counts as 15).
    pub is_overvalued: bool,
    /// Forward P/E below 10 (a missing P/E counts as 15).
    pub is_undervalued: bool,
    /// Trailing EPS below zero (a missing EPS counts as neither bad nor good).
    pub has_bad_earnings: bool,
    /// Trailing EPS above zero (a missing EPS counts as neither bad nor good).
    pub has_good_earnings: bool,
}

/// Irrational exuberance: explosive hype on an overvalued, loss-making company.
pub open spec fn is_irrational_exuberance(f: AnomalyFacts) -> bool {
    f.is_hype_explosive && f.is_overvalued && f.has_bad_earnings
}

/// Unwarranted panic: explosive fear on an undervalued, profitable company.
pub open spec fn is_unwarranted_panic(f: AnomalyFacts) -> bool {
    f.is_panic_explosive && f.is_undervalued && f.has_good_earnings
}

/// The signal that the overlay gives for a set of facts.
pub open spec fn signal_of(f: AnomalyFacts) -> Signal {
    if is_irrational_exuberance(f) {
        Signal::ShortTarget
    } else if is_unwarranted_panic(f) {
        Signal::BuyTarget
    } else {
        Signal::NoSignal
    }
}

/// Matches explosive social momentum against the financial reality of the balance sheet.
pub struct ArbitrageMatcher {
    yf_client: YFinanceClient,
}

impl ArbitrageMatcher {
    pub fn new() -> (r: Self)
        ensures
            r.client() == (YFinanceClient {}),
    {
        ArbitrageMatcher { yf_client: YFinanceClient::new() }
    }

    pub closed spec fn client(&self) -> YFinanceClient {
        self.yf_client
    }

    /// The fundamentals client that the matcher queries.
    pub fn yf_client(&self) -> (r: &YFinanceClient)
        ensures
            *r == self.client(),
    {
        &self.yf_client
    }

    /// Overlays the momentum and fundamentals constraints and decides the signal:
    /// a short target on irrational exuberance, else a buy target on unwarranted
    /// panic, else no signal.
    pub fn overlay(&self, facts: AnomalyFacts) -> (s: Signal)
        ensures
            s == signal_of(facts),
            s == Signal::ShortTarget <==> facts.is_hype_explosive && facts.is_overvalued
                && facts.has_bad_earnings,
            s == Signal::BuyTarget <==> !(facts.is_hype_explosive && facts.is_overvalued
                && facts.has_bad_earnings) && facts.is_panic_explosive && facts.is_undervalued
                && facts.has_good_earnings,
    {
        if facts.is_hype_explosive && facts.is_overvalued && facts.has_bad_earnings {
            Signal::ShortTarget
        } else if facts.is_panic_explosive && facts.is_undervalued && facts.has_good_earnings {
            Signal::BuyTarget
        } else {
            Signal::NoSignal
        }
    }
}

/// Without explosive momentum in either direction the overlay gives no signal,
/// whatever the fundamentals.
pub proof fn lemma_calm_momentum_gives_no_signal(f: AnomalyFacts)
    requires
        !f.is_hype_explosive,
        !f.is_panic_explosive,
    ensures
        signal_of(f) == Signal::NoSignal,
{
}

/// A signal never contradicts the balance sheet: a short target needs an
/// overvalued, loss-making company and a buy target an undervalued, profitable one.
pub proof fn lemma_signal_agrees_with_fundamentals(f: AnomalyFacts)
    ensures
        signal_of(f) == Signal::ShortTarget ==> f.is_overvalued && f.has_bad_earnings,
        signal_of(f) == Signal::BuyTarget ==> f.is_undervalued && f.has_good_earnings,
{
}

/// Explosive hype on an overvalued, loss-making company is a short target, and
/// explosive panic on an undervalued, profitable company (without such hype) is
/// a buy target.
pub proof fn lemma_divergence_is_signalled(f: AnomalyFacts)
    ensures
        is_irrational_exuberance(f) ==> signal_of(f) == Signal::ShortTarget,
        !is_irrational_exuberance(f) && is_unwarranted_panic(f) ==> signal_of(f)
            == Signal::BuyTarget,
{
}

/// A signal follows the direction of momentum: a short target needs explosive
/// hype and a buy target needs explosive panic.
pub proof fn lemma_signal_follows_momentum(f: AnomalyFacts)
    ensures
        signal_of(f) == Signal::ShortTarget ==> f.is_hype_explosive,
        signal_of(f) == Signal::BuyTarget ==> f.is_panic_explosive,
{
}

/// The overlay gives a short target exactly on explosive hype over an overvalued,
/// loss-making company, and a buy target exactly on explosive panic over an
/// undervalued, profitable company that is not also such a short target.
pub proof fn lemma_signal_exactly_on_divergence(f: AnomalyFacts)
    ensures
        signal_of(f) == Signal::ShortTarget <==> f.is_hype_explosive && f.is_overvalued
            && f.has_bad_earnings,
        signal_of(f) == Signal::BuyTarget <==> !(f.is_hype_explosive && f.is_overvalued
            && f.has_bad_earnings) && f.is_panic_explosive && f.is_undervalued
            && f.has_good_earnings,
{
}

} // verus!
