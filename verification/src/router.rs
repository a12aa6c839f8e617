//! Semantic decomposition: choosing which inference tier handles a mention.
use vstd::prelude::*;
use vstd::utf8::encode_utf8;

use crate::models::RawMention;
use crate::text::{
    contains_seq, count_char, spec_to_lowercase, to_lowercase, chars_of, contains_str,
    count_occurrences,
};

verus! {

/// Which model size handles a mention.
#[derive(Debug, Clone, Copy, PartialEq, Eq, Structural)]
pub enum InferenceTier {
    /// Fast path: small model, predictable structure.
    Tier1,
    /// Slow path: large model, sarcasm and deep reasoning.
    Tier2,
}

/// Routes mentions to an inference tier.
pub struct TaskRouter;

/// Bullish emojis or slang: a rocket, a diamond, or "moon".
pub open spec fn has_bullish_markers(t: Seq<char>) -> bool {
    ||| contains_seq(t, "🚀"@)
    ||| contains_seq(t, "💎"@)
    ||| contains_seq(t, "moon"@)
}

/// Loss-porn and bankruptcy language.
pub open spec fn has_bearish_markers(t: Seq<char>) -> bool {
    ||| contains_seq(t, "loss porn"@)
    ||| contains_seq(t, "bankrupt"@)
    ||| contains_seq(t, "down 50%"@)
    ||| contains_seq(t, "dilution"@)
    ||| contains_seq(t, "bagholder"@)
}

/// Bullish markers together with bearish language: likely sarcasm.
pub open spec fn is_sarcastic(t: Seq<char>) -> bool {
    has_bullish_markers(t) && has_bearish_markers(t)
}

/// Positive wording: a bullish marker, or "great" (as in "great quarter").
pub open spec fn has_positive_wording(t: Seq<char>) -> bool {
    has_bullish_markers(t) || contains_seq(t, "great"@)
}

/// A bear icon on positive wording without bearish language: the emoji
/// contrasts with the text (as in "great quarter 🐻"), a mark of high perplexity.
pub open spec fn is_emoji_contrast(t: Seq<char>) -> bool {
    &&& contains_seq(t, "🐻"@)
    &&& has_positive_wording(t)
    &&& !has_bearish_markers(t)
}

/// More than one `$` cashtag: several tickers entangled in one post.
pub open spec fn is_multi_ticker(t: Seq<char>) -> bool {
    count_char(t, '$') > 1
}

/// Longer than 300 bytes of UTF-8 with no bullish marker and no bear emoji:
/// likely a filing or a formal macro thesis.
pub open spec fn is_long_formal(t: Seq<char>) -> bool {
    &&& encode_utf8(t).len() > 300
    &&& !has_bullish_markers(t)
    &&& !contains_seq(t, "🐻"@)
}

/// The tier for an already lower-cased text.
pub open spec fn tier_of(t: Seq<char>) -> InferenceTier {
    if is_sarcastic(t) || is_emoji_contrast(t) || is_multi_ticker(t) || is_long_formal(t) {
        InferenceTier::Tier2
    } else {
        InferenceTier::Tier1
    }
}

impl TaskRouter {
    pub fn new() -> (r: Self)
        ensures
            r == TaskRouter,
    {
        TaskRouter
    }

    /// Decides the tier of a text that has already been lower-cased.
    pub fn route_lowercased(&self, text_lower: &str) -> (tier: InferenceTier)
        ensures
            tier == tier_of(text_lower@),
    {
        let t = chars_of(text_lower);

        // 1. Sarcasm / complex signal detection
        let has_bullish_emojis = contains_str(&t, "🚀") || contains_str(&t, "💎") || contains_str(
            &t,
            "moon",
        );
        let has_bearish_text = contains_str(&t, "loss porn") || contains_str(&t, "bankrupt")
            || contains_str(&t, "down 50%") || contains_str(&t, "dilution") || contains_str(
            &t,
            "bagholder",
        );
        if has_bullish_emojis && has_bearish_text {
            return InferenceTier::Tier2;
        }

        // 2. Emoji contrast: a bear icon on positive wording without bearish language
        let has_bear_emoji = contains_str(&t, "🐻");
        let has_positive_wording = has_bullish_emojis || contains_str(&t, "great");
        if has_bear_emoji && has_positive_wording && !has_bearish_text {
            return InferenceTier::Tier2;
        }

        // 3. Multi-ticker entanglement
        let ticker_count = count_occurrences(&t, '$');
        if ticker_count > 1 {
            return InferenceTier::Tier2;
        }

        // 4. Long formal text
        // `str::len` counts the bytes of the UTF-8 encoding.
        let byte_len = text_lower.as_bytes().len();
        if byte_len > 300 && !has_bullish_emojis && !has_bear_emoji {
            return InferenceTier::Tier2;
        }

        // 5. Default triage flow
        InferenceTier::Tier1
    }

    /// Evaluates a mention and decides which inference model size handles it,
    /// from sarcasm markers, cashtag count and length of its lower-cased text.
    pub fn route_mention(&self, mention: &RawMention) -> (tier: InferenceTier)
        ensures
            tier == tier_of(spec_to_lowercase(mention.text@)),
    {
        let text_lower = to_lowercase(mention.text.as_str());
        self.route_lowercased(text_lower.as_str())
    }
}

/// Bullish markers next to bearish language always escalate to the slow path.
pub proof fn lemma_sarcasm_escalates(t: Seq<char>)
    requires
        has_bullish_markers(t),
        has_bearish_markers(t),
    ensures
        tier_of(t) == InferenceTier::Tier2,
{
}

/// A bear icon on positive wording without bearish language always escalates to
/// the slow path.
pub proof fn lemma_emoji_contrast_escalates(t: Seq<char>)
    requires
        contains_seq(t, "🐻"@),
        has_positive_wording(t),
        !has_bearish_markers(t),
    ensures
        tier_of(t) == InferenceTier::Tier2,
{
}

/// A text that names more than one `$` ticker always escalates to the slow path.
pub proof fn lemma_multi_ticker_escalates(t: Seq<char>)
    requires
        count_char(t, '$') > 1,
    ensures
        tier_of(t) == InferenceTier::Tier2,
{
}

/// Without positive wording a bear icon changes nothing: a text with a bear icon,
/// no bullish marker, no "great" and at most one `$` ticker is routed to Tier 1,
/// however long.
pub proof fn lemma_bear_icon_on_neutral_text_is_fast_path(t: Seq<char>)
    requires
        contains_seq(t, "🐻"@),
        !has_positive_wording(t),
        count_char(t, '$') <= 1,
    ensures
        tier_of(t) == InferenceTier::Tier1,
{
}

/// Short, simple formats stay on the fast path: a text with a bullish marker,
/// no bearish language, no bear icon and at most one `$` ticker is routed to Tier 1,
/// however long.
pub proof fn lemma_plain_bullish_is_fast_path(t: Seq<char>)
    requires
        has_bullish_markers(t),
        !has_bearish_markers(t),
        !contains_seq(t, "🐻"@),
        count_char(t, '$') <= 1,
    ensures
        tier_of(t) == InferenceTier::Tier1,
{
}

/// A text of at most 300 UTF-8 bytes, without sarcasm or emoji contrast and with
/// at most one `$` ticker, is routed to Tier 1.
pub proof fn lemma_short_plain_text_is_fast_path(t: Seq<char>)
    requires
        encode_utf8(t).len() <= 300,
        !is_sarcastic(t),
        !is_emoji_contrast(t),
        count_char(t, '$') <= 1,
    ensures
        tier_of(t) == InferenceTier::Tier1,
{
}

/// The route of a mention is decided by its text alone: mentions with the same
/// text get the same tier, whatever their id, source, ticker, timestamp or engagement.
pub proof fn lemma_route_reads_only_text(m1: RawMention, m2: RawMention)
    requires
        m1.text@ == m2.text@,
    ensures
        tier_of(spec_to_lowercase(m1.text@)) == tier_of(spec_to_lowercase(m2.text@)),
{
}

/// A text over 300 bytes of UTF-8 with no bullish marker and no bear icon always
/// escalates to the slow path, whatever bearish words it contains.
pub proof fn lemma_long_formal_text_escalates(t: Seq<char>)
    requires
        encode_utf8(t).len() > 300,
        !has_bullish_markers(t),
        !contains_seq(t, "🐻"@),
    ensures
        tier_of(t) == InferenceTier::Tier2,
{
}

/// A text stays on the fast path only when no escalation mark holds: no bullish
/// marker next to bearish language, no bear icon on positive wording without
/// bearish language, at most one `$` ticker, and no long text that lacks both
/// bullish markers and a bear icon.
pub proof fn lemma_fast_path_has_no_escalation_mark(t: Seq<char>)
    requires
        tier_of(t) == InferenceTier::Tier1,
    ensures
        !(has_bullish_markers(t) && has_bearish_markers(t)),
        !(contains_seq(t, "🐻"@) && has_positive_wording(t) && !has_bearish_markers(t)),
        count_char(t, '$') <= 1,
        !(encode_utf8(t).len() > 300 && !has_bullish_markers(t) && !contains_seq(t, "🐻"@)),
{
}

} // verus!
