//! Ready-made plugins. The frame counter is the canonical pattern: a
//! plugin that computes per-frame derived state in its tick callback and
//! exposes it through the store for draw callbacks to consume.

use vstd::prelude::*;

use crate::handlers::{NoOpDraw, TickHandler};
use crate::helpers::{get_u64_state, put_state, read_u64};
use crate::store::StateStore;
use crate::value::Value;
use crate::Plugin;

verus! {

/// The counter value one frame-counter tick writes: an absent or
/// other-shaped counter becomes 0, an existing count rises by one,
/// saturating at the largest count.
pub open spec fn next_count(m: Map<Seq<char>, Value>) -> u64 {
    match read_u64(m, "frame_counter"@) {
        Some(v) => if v < u64::MAX {
            (v + 1) as u64
        } else {
            v
        },
        None => 0,
    }
}

/// One tick of the frame counter: writes the next count under the key
/// "frame_counter".
pub fn frame_counter_step(state: &mut StateStore)
    requires
        old(state).wf(),
    ensures
        final(state).wf(),
        final(state)@ == old(state)@.insert("frame_counter"@, Value::UInt(next_count(old(state)@))),
{
    let current: Option<u64> = get_u64_state(state, "frame_counter");
    let next: u64 = match current {
        Some(v) => if v < u64::MAX {
            v + 1
        } else {
            v
        },
        None => 0,
    };
    put_state(state, "frame_counter", Value::UInt(next));
}

/// The tick callback of the frame counter plugin.
pub struct FrameCounterTick;

impl TickHandler for FrameCounterTick {
    open spec fn spec_next(&self, m: Map<Seq<char>, Value>) -> Map<Seq<char>, Value> {
        m.insert("frame_counter"@, Value::UInt(next_count(m)))
    }

    fn on_tick(&self, state: &mut StateStore) {
        frame_counter_step(state);
    }
}

/// Adds a state key named "frame_counter" that increments every frame.
/// The count starts at 0 on the first tick (the absent key is written as
/// 0, not pre-incremented), so after n ticks it reads n - 1. Its tick
/// writes the next count and nothing else; its draw is a no-op.
pub fn frame_counter() -> (r: Plugin)
    ensures
        r.priority == 0,
        forall|m: Map<Seq<char>, Value>| #[trigger] r.tick.spec_next(m) == m.insert(
            "frame_counter"@,
            Value::UInt(next_count(m)),
        ),
        forall|fb: Seq<u32>, m: Map<Seq<char>, Value>| #[trigger] r.draw.spec_next_fb(fb, m)
            == fb,
        forall|fb: Seq<u32>, m: Map<Seq<char>, Value>| #[trigger] r.draw.spec_next_store(fb, m)
            == m,
{
    Plugin { priority: 0, tick: Box::new(FrameCounterTick), draw: Box::new(NoOpDraw) }
}

/// The store one frame-counter step leaves is the one-tick counted store.
/// This bridges a host tick to the counting law: for a game whose only
/// plugin is the frame counter and whose primary tick leaves the store
/// unchanged, `Game::tick`'s contract with the two transition clauses of
/// `frame_counter` and `Game::new` reduces the final store to the
/// left-hand side here, and `lemma_count_after_ticks` then reads the
/// count after n such ticks.
pub proof fn lemma_frame_counter_game_step(m: Map<Seq<char>, Value>)
    ensures
        m.insert("frame_counter"@, Value::UInt(next_count(m))) == counted_store(m, 1),
{
    assert(counted_store(m, 0) == m);
}

/// The store that n frame-counter ticks build from a start store.
pub open spec fn counted_store(m0: Map<Seq<char>, Value>, n: nat) -> Map<Seq<char>, Value>
    decreases n,
{
    if n == 0 {
        m0
    } else {
        let prev = counted_store(m0, (n - 1) as nat);
        prev.insert("frame_counter"@, Value::UInt(next_count(prev)))
    }
}

/// On a store whose counter key was never written, n frame-counter ticks
/// leave a counter that reads n - 1: the count starts at 0, not 1.
pub proof fn lemma_count_after_ticks(m0: Map<Seq<char>, Value>, n: nat)
    requires
        !m0.contains_key("frame_counter"@),
        1 <= n <= u64::MAX,
    ensures
        read_u64(counted_store(m0, n), "frame_counter"@) == Some((n - 1) as u64),
    decreases n,
{
    if n == 1 {
        assert(next_count(m0) == 0);
        assert(counted_store(m0, 1) == m0.insert("frame_counter"@, Value::UInt(0)));
    } else {
        lemma_count_after_ticks(m0, (n - 1) as nat);
        let prev = counted_store(m0, (n - 1) as nat);
        assert(read_u64(prev, "frame_counter"@) == Some((n - 2) as u64));
        assert(next_count(prev) == (n - 1) as u64);
        assert(counted_store(m0, n) == prev.insert(
            "frame_counter"@,
            Value::UInt((n - 1) as u64),
        ));
    }
}

} // verus!
