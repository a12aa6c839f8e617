use eat_the_rich_core::models::RawMention;
use eat_the_rich_core::router::{InferenceTier, TaskRouter};

fn mock_mention(text: &str) -> RawMention {
    RawMention {
        id: "test_id".to_string(),
        source: "mock".to_string(),
        ticker: "GME".to_string(),
        text: text.to_string(),
        timestamp: 0,
        engagement: 0,
    }
}

#[test]
fn test_tier1_simple_bullish() {
    let router = TaskRouter::new();
    let mention = mock_mention("$GME to the moon! 🚀");
    assert_eq!(router.route_mention(&mention), InferenceTier::Tier1);
}

#[test]
fn test_tier2_sarcasm_entanglement() {
    let router = TaskRouter::new();
    let mention = mock_mention("This stock is headed for complete loss porn and bankruptcy... 🚀💎");
    assert_eq!(router.route_mention(&mention), InferenceTier::Tier2);
}

#[test]
fn test_tier2_multi_ticker() {
    let router = TaskRouter::new();
    let mention = mock_mention("$TSLA is fine but $RIVN is crashing hard.");
    assert_eq!(router.route_mention(&mention), InferenceTier::Tier2);
}

#[test]
fn upper_case_bearish_words_are_lowered_before_matching() {
    let router = TaskRouter::new();
    let mention = mock_mention("BANKRUPT by Friday, TO THE MOON");
    assert_eq!(router.route_mention(&mention), InferenceTier::Tier2);
    // The same text already lower-cased routes the same way.
    assert_eq!(router.route_lowercased("bankrupt by friday, to the moon"), InferenceTier::Tier2);
    // Without lower-casing, the upper-case words match no marker.
    assert_eq!(router.route_lowercased("BANKRUPT by Friday, TO THE MOON"), InferenceTier::Tier1);
}

#[test]
fn each_bearish_phrase_with_a_rocket_escalates() {
    let router = TaskRouter::new();
    for phrase in ["loss porn", "bankrupt", "down 50%", "dilution", "bagholder"] {
        let text = format!("{} 🚀", phrase);
        assert_eq!(router.route_mention(&mock_mention(&text)), InferenceTier::Tier2, "{}", text);
    }
}

#[test]
fn each_bullish_marker_with_bearish_text_escalates() {
    let router = TaskRouter::new();
    for marker in ["🚀", "💎", "moon"] {
        let text = format!("total dilution {}", marker);
        assert_eq!(router.route_mention(&mock_mention(&text)), InferenceTier::Tier2, "{}", text);
    }
}

#[test]
fn bearish_text_alone_stays_on_fast_path() {
    let router = TaskRouter::new();
    let mention = mock_mention("Another dilution round, I am a bagholder now");
    assert_eq!(router.route_mention(&mention), InferenceTier::Tier1);
}

#[test]
fn one_cashtag_stays_on_fast_path_two_escalate() {
    let router = TaskRouter::new();
    assert_eq!(router.route_mention(&mock_mention("bought more $AAPL")), InferenceTier::Tier1);
    assert_eq!(router.route_mention(&mock_mention("$$")), InferenceTier::Tier2);
    assert_eq!(router.route_mention(&mock_mention("")), InferenceTier::Tier1);
}

#[test]
fn long_formal_text_escalates() {
    let router = TaskRouter::new();
    let long = "a".repeat(301);
    assert_eq!(router.route_mention(&mock_mention(&long)), InferenceTier::Tier2);
    let exactly_300 = "a".repeat(300);
    assert_eq!(router.route_mention(&mock_mention(&exactly_300)), InferenceTier::Tier1);
}

#[test]
fn long_text_with_bearish_bear_or_bullish_marker_stays_on_fast_path() {
    let router = TaskRouter::new();
    let with_bear = format!("{} more dilution 🐻", "a".repeat(400));
    assert_eq!(router.route_mention(&mock_mention(&with_bear)), InferenceTier::Tier1);
    let with_moon = format!("{} moon", "a".repeat(400));
    assert_eq!(router.route_mention(&mock_mention(&with_moon)), InferenceTier::Tier1);
}

#[test]
fn bear_icon_on_positive_text_escalates() {
    let router = TaskRouter::new();
    assert_eq!(router.route_mention(&mock_mention("Great quarter 🐻")), InferenceTier::Tier2);
    assert_eq!(router.route_mention(&mock_mention("$GME 🚀 🐻")), InferenceTier::Tier2);
    let long = format!("{} great 🐻", "a".repeat(400));
    assert_eq!(router.route_mention(&mock_mention(&long)), InferenceTier::Tier2);
}

#[test]
fn bear_icon_on_neutral_text_keeps_the_fast_path() {
    let router = TaskRouter::new();
    let long = format!("{}🐻", "a".repeat(301));
    assert_eq!(router.route_mention(&mock_mention(&long)), InferenceTier::Tier1);
    assert_eq!(router.route_mention(&mock_mention("quarter results 🐻")), InferenceTier::Tier1);
}

#[test]
fn bear_icon_on_bearish_text_stays_on_fast_path() {
    let router = TaskRouter::new();
    assert_eq!(router.route_mention(&mock_mention("Heading to bankrupt 🐻")), InferenceTier::Tier1);
}

#[test]
fn length_threshold_counts_utf8_bytes_not_characters() {
    let router = TaskRouter::new();
    // 151 characters of two bytes each: 302 bytes.
    let text = "é".repeat(151);
    assert_eq!(text.chars().count(), 151);
    assert_eq!(router.route_mention(&mock_mention(&text)), InferenceTier::Tier2);
    // 150 of them: exactly 300 bytes.
    let text = "é".repeat(150);
    assert_eq!(router.route_mention(&mock_mention(&text)), InferenceTier::Tier1);
}

#[test]
fn routing_ignores_mention_metadata() {
    let router = TaskRouter::new();
    let a = mock_mention("$TSLA and $RIVN");
    let b = RawMention {
        id: "other".to_string(),
        source: "reddit".to_string(),
        ticker: "TSLA".to_string(),
        text: "$TSLA and $RIVN".to_string(),
        timestamp: 1_620_000_000,
        engagement: 4200,
    };
    assert_eq!(router.route_mention(&a), router.route_mention(&b));
}
