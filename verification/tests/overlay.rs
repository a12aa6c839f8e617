use eat_the_rich_core::arbitrage::{AnomalyFacts, ArbitrageMatcher, Signal};
use eat_the_rich_core::yfinance::YFinanceClient;

fn facts(hype: bool, panic: bool, over: bool, under: bool, bad: bool, good: bool) -> AnomalyFacts {
    AnomalyFacts {
        is_hype_explosive: hype,
        is_panic_explosive: panic,
        is_overvalued: over,
        is_undervalued: under,
        has_bad_earnings: bad,
        has_good_earnings: good,
    }
}

#[test]
fn hype_on_overvalued_loss_maker_is_short_target() {
    let m = ArbitrageMatcher::new();
    assert_eq!(m.overlay(facts(true, false, true, false, true, false)), Signal::ShortTarget);
}

#[test]
fn panic_on_undervalued_earner_is_buy_target() {
    let m = ArbitrageMatcher::new();
    assert_eq!(m.overlay(facts(false, true, false, true, false, true)), Signal::BuyTarget);
}

#[test]
fn partial_matches_give_no_signal() {
    let m = ArbitrageMatcher::new();
    assert_eq!(m.overlay(facts(true, false, true, false, false, false)), Signal::NoSignal);
    assert_eq!(m.overlay(facts(true, false, false, false, true, false)), Signal::NoSignal);
    assert_eq!(m.overlay(facts(false, true, false, true, false, false)), Signal::NoSignal);
    assert_eq!(m.overlay(facts(true, false, false, true, false, true)), Signal::NoSignal);
}

#[test]
fn calm_momentum_gives_no_signal_whatever_the_fundamentals() {
    let m = ArbitrageMatcher::new();
    for bits in 0u8..16 {
        let f = facts(false, false, bits & 1 != 0, bits & 2 != 0, bits & 4 != 0, bits & 8 != 0);
        assert_eq!(m.overlay(f), Signal::NoSignal);
    }
}

#[test]
fn exuberance_is_checked_before_panic() {
    let m = ArbitrageMatcher::new();
    assert_eq!(m.overlay(facts(true, true, true, true, true, true)), Signal::ShortTarget);
}

#[test]
fn matcher_queries_a_fundamentals_client() {
    let m = ArbitrageMatcher::new();
    assert_eq!(*m.yf_client(), YFinanceClient::new());
}
