//! KV-cache intercept layer: keeps the token count of the cache within its budget.
use vstd::prelude::*;

use candle_core::Tensor;

verus! {

/// Tokens that one forward pass adds to the cache.
pub const TOKENS_PER_PASS: usize = 150;

/// The tokens held after one forward pass: the pass adds its tokens, and a
/// cache that then exceeds its budget is pruned to half the budget.
pub open spec fn tokens_after_pass(current: int, max_tokens: int) -> int {
    if current + TOKENS_PER_PASS > max_tokens {
        max_tokens / 2
    } else {
        current + TOKENS_PER_PASS
    }
}

/// The tokens held by a fresh cache with the given budget after `passes` forward passes.
pub open spec fn tokens_after_passes(max_tokens: int, passes: nat) -> int
    decreases passes,
{
    if passes == 0 {
        0
    } else {
        tokens_after_pass(tokens_after_passes(max_tokens, (passes - 1) as nat), max_tokens)
    }
}

/// Tracks how many tokens the KV cache holds against its budget.
pub struct KVCacheController {
    max_tokens: usize,
    current_tokens: usize,
}

impl KVCacheController {
    /// The cache never holds more tokens than its budget.
    #[verifier::type_invariant]
    spec fn within_budget(self) -> bool {
        self.current_tokens <= self.max_tokens
    }

    /// The token budget.
    pub closed spec fn max_tokens(self) -> usize {
        self.max_tokens
    }

    /// The tokens that the cache holds.
    pub closed spec fn current_tokens(self) -> usize {
        self.current_tokens
    }

    /// The token budget.
    pub fn token_budget(&self) -> (r: usize)
        ensures
            r == self.max_tokens(),
    {
        self.max_tokens
    }

    /// The tokens that the cache holds.
    pub fn tokens_held(&self) -> (r: usize)
        ensures
            r == self.current_tokens(),
    {
        self.current_tokens
    }

    /// An empty cache with a budget of `max_tokens` tokens.
    pub fn new(max_tokens: usize) -> (r: Self)
        ensures
            r.max_tokens() == max_tokens,
            r.current_tokens() == 0,
    {
        KVCacheController { max_tokens, current_tokens: 0 }
    }

    /// Evaluates whether the cache needs compression before the next forward pass:
    /// accounts for the pass and, when the cache then exceeds its budget, prunes it
    /// to half the budget. Returns whether it pruned.
    pub fn evaluate_compression(&mut self, _kv_tensor: &Option<Tensor>) -> (evicted: bool)
        requires
            old(self).current_tokens() + TOKENS_PER_PASS <= usize::MAX,
        ensures
            final(self).max_tokens() == old(self).max_tokens(),
            evicted == (old(self).current_tokens() + TOKENS_PER_PASS > old(self).max_tokens()),
            final(self).current_tokens() == tokens_after_pass(
                old(self).current_tokens() as int,
                old(self).max_tokens() as int,
            ),
            evicted ==> final(self).current_tokens() == old(self).max_tokens() / 2,
            !evicted ==> final(self).current_tokens() == old(self).current_tokens()
                + TOKENS_PER_PASS,
            final(self).current_tokens() <= final(self).max_tokens(),
    {
        proof {
            use_type_invariant(&*self);
        }
        let next = self.current_tokens + TOKENS_PER_PASS;
        if next > self.max_tokens {
            self.current_tokens = self.max_tokens / 2;
            true
        } else {
            self.current_tokens = next;
            false
        }
    }
}

/// Whatever its budget, a fresh cache holds between zero tokens and its budget
/// after any number of forward passes.
pub proof fn lemma_passes_stay_within_budget(max_tokens: nat, passes: nat)
    ensures
        0 <= tokens_after_passes(max_tokens as int, passes) <= max_tokens,
    decreases passes,
{
    if passes > 0 {
        lemma_passes_stay_within_budget(max_tokens, (passes - 1) as nat);
    }
}

/// Until its budget is reached, a fresh cache grows by one pass's tokens per pass
/// and is never pruned.
pub proof fn lemma_fresh_cache_fills_linearly(max_tokens: nat, passes: nat)
    requires
        passes * TOKENS_PER_PASS <= max_tokens,
    ensures
        tokens_after_passes(max_tokens as int, passes) == passes * TOKENS_PER_PASS,
    decreases passes,
{
    if passes > 0 {
        assert((passes - 1) * TOKENS_PER_PASS <= max_tokens) by (nonlinear_arith)
            requires
                passes * TOKENS_PER_PASS <= max_tokens,
                passes > 0,
        ;
        lemma_fresh_cache_fills_linearly(max_tokens, (passes - 1) as nat);
        assert((passes - 1) * TOKENS_PER_PASS + TOKENS_PER_PASS == passes * TOKENS_PER_PASS)
            by (nonlinear_arith);
    }
}

/// The first pass that overflows the budget prunes the cache to half the budget.
pub proof fn lemma_overflowing_pass_prunes_to_half(max_tokens: nat, passes: nat)
    requires
        passes * TOKENS_PER_PASS <= max_tokens,
        (passes + 1) * TOKENS_PER_PASS > max_tokens,
    ensures
        tokens_after_passes(max_tokens as int, passes + 1) == max_tokens as int / 2,
{
    lemma_fresh_cache_fills_linearly(max_tokens, passes);
    assert((passes + 1) * TOKENS_PER_PASS == passes * TOKENS_PER_PASS + TOKENS_PER_PASS)
        by (nonlinear_arith);
    assert(tokens_after_passes(max_tokens as int, passes + 1) == tokens_after_pass(
        tokens_after_passes(max_tokens as int, passes),
        max_tokens as int,
    ));
}

/// From any count within the budget, a pass that overflows the budget leaves
/// exactly half the budget, and any other pass adds one pass's tokens.
pub proof fn lemma_pass_prunes_to_half_or_grows(current: nat, max_tokens: nat)
    requires
        current <= max_tokens,
    ensures
        current + TOKENS_PER_PASS > max_tokens ==> tokens_after_pass(current as int, max_tokens as int)
            == max_tokens as int / 2,
        current + TOKENS_PER_PASS <= max_tokens ==> tokens_after_pass(
            current as int,
            max_tokens as int,
        ) == current + TOKENS_PER_PASS,
{
}

/// For a fresh cache, every pass that overflows the budget (not only the first)
/// leaves exactly half the budget, and every other pass adds one pass's tokens.
pub proof fn lemma_every_overflow_prunes_to_half(max_tokens: nat, passes: nat)
    ensures
        tokens_after_passes(max_tokens as int, passes) + TOKENS_PER_PASS > max_tokens
            ==> tokens_after_passes(max_tokens as int, passes + 1) == max_tokens as int / 2,
        tokens_after_passes(max_tokens as int, passes) + TOKENS_PER_PASS <= max_tokens
            ==> tokens_after_passes(max_tokens as int, passes + 1) == tokens_after_passes(
            max_tokens as int,
            passes,
        ) + TOKENS_PER_PASS,
{
    lemma_passes_stay_within_budget(max_tokens, passes);
    let c = tokens_after_passes(max_tokens as int, passes);
    lemma_pass_prunes_to_half_or_grows(c as nat, max_tokens);
    assert(tokens_after_passes(max_tokens as int, passes + 1) == tokens_after_pass(c, max_tokens as int));
}

} // verus!
