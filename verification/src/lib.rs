//! A minimal game-loop scaffold: a framebuffer host, per-frame tick/draw
//! dispatch, and a plugin extension point ordered by priority. Plugins and
//! the primary callbacks communicate through a shared key-value state store
//! of dynamically shaped values.
//!
//! The host owns the pixel buffer, the state store and the plugin list; the
//! embedding application owns the window, drives the loop, and presents the
//! buffer after each `draw`.

pub mod framebuffer;
pub mod handlers;
pub mod helpers;
pub mod plugins;
pub mod store;
pub mod value;

use vstd::prelude::*;

use crate::framebuffer::FrameBuffer;
use crate::handlers::{DrawHandler, NoOpDraw, NoOpTick, TickHandler};
use crate::store::StateStore;
use crate::value::Value;

verus! {

/// Plugins execute extra tick and draw callbacks around the primary ones.
/// A plugin could, for example, be used to draw sprites, keep track of
/// time, or perform actions in the background. Lower priority runs first;
/// plugins of equal priority run in insertion order.
pub struct Plugin {
    pub priority: isize,
    pub tick: Box<dyn TickHandler>,
    pub draw: Box<dyn DrawHandler>,
}

/// The base game structure: the pixel buffer, the state store, the plugin
/// list and the two primary callbacks.
pub struct Game {
    pub state: StateStore,
    pub title: String,
    pub res: (usize, usize),
    pub rate: u64,
    pub fb: FrameBuffer,
    pub tick: Box<dyn TickHandler>,
    pub draw: Box<dyn DrawHandler>,
    pub plugins: Vec<Plugin>,
}

proof fn lemma_filter_empty(s: Seq<Plugin>, pred: spec_fn(Plugin) -> bool)
    requires
        forall|i: int| 0 <= i < s.len() ==> !pred(s[i]),
    ensures
        s.filter(pred) == Seq::<Plugin>::empty(),
    decreases s.len(),
{
    reveal(Seq::filter);
    if s.len() > 0 {
        lemma_filter_empty(s.drop_last(), pred);
    }
    assert(s.filter(pred) =~= Seq::<Plugin>::empty());
}

proof fn lemma_filter_singleton(m: Plugin, pred: spec_fn(Plugin) -> bool)
    ensures
        seq![m].filter(pred) == if pred(m) {
            seq![m]
        } else {
            Seq::<Plugin>::empty()
        },
{
    reveal_with_fuel(Seq::<_>::filter, 2);
    assert(seq![m].drop_last() =~= Seq::<Plugin>::empty());
    if pred(m) {
        assert(seq![m].filter(pred) =~= seq![m]);
    } else {
        assert(seq![m].filter(pred) =~= Seq::<Plugin>::empty());
    }
}

/// Moving the element at `i` back to position `k`, over elements that all
/// have a strictly greater priority, reorders no two plugins of one
/// priority.
proof fn lemma_stable_move(s: Seq<Plugin>, s2: Seq<Plugin>, i: int, k: int)
    requires
        0 <= k <= i < s.len(),
        s2 == s.remove(i).insert(k, s[i]),
        forall|j: int| k <= j < i ==> s[j].priority > s[i].priority,
    ensures
        s2.len() == s.len(),
        forall|j: int| 0 <= j < k ==> s2[j] == s[j],
        s2[k] == s[i],
        forall|j: int| k < j <= i ==> s2[j] == s[j - 1],
        forall|j: int| i < j < s.len() ==> s2[j] == s[j],
        forall|p: isize| #[trigger] Game::with_priority(s2, p) == Game::with_priority(s, p),
{
    let m = s[i];
    let a1 = s.subrange(0, k);
    let sm = seq![m];
    let a2 = s.subrange(k, i);
    let b = s.subrange(i + 1, s.len() as int);
    assert(s =~= ((a1 + a2) + sm) + b);
    assert(s2 =~= ((a1 + sm) + a2) + b);
    assert forall|p: isize| #[trigger] Game::with_priority(s2, p) == Game::with_priority(s, p) by {
        let pred = |pl: Plugin| pl.priority == p;
        Seq::filter_distributes_over_add(a1 + a2, sm, pred);
        Seq::filter_distributes_over_add((a1 + a2) + sm, b, pred);
        Seq::filter_distributes_over_add(a1, a2, pred);
        Seq::filter_distributes_over_add(a1 + sm, a2, pred);
        Seq::filter_distributes_over_add((a1 + sm) + a2, b, pred);
        Seq::filter_distributes_over_add(a1, sm, pred);
        if pred(m) {
            lemma_filter_empty(a2, pred);
        } else {
            lemma_filter_singleton(m, pred);
        }
        assert(s2.filter(pred) =~= s.filter(pred));
    }
}

/// The store after the tick callbacks of a plugin list ran on it, in list
/// order, each declared transition applied to what the previous one left.
pub open spec fn run_ticks(ps: Seq<Plugin>, m: Map<Seq<char>, Value>) -> Map<Seq<char>, Value>
    decreases ps.len(),
{
    if ps.len() == 0 {
        m
    } else {
        ps.last().tick.spec_next(run_ticks(ps.drop_last(), m))
    }
}

/// The pixels and store after the draw callbacks of a plugin list ran on
/// them, in list order, each declared transition applied to what the
/// previous one left.
pub open spec fn run_draws(ps: Seq<Plugin>, fb: Seq<u32>, m: Map<Seq<char>, Value>) -> (
    Seq<u32>,
    Map<Seq<char>, Value>,
)
    decreases ps.len(),
{
    if ps.len() == 0 {
        (fb, m)
    } else {
        let prev = run_draws(ps.drop_last(), fb, m);
        (ps.last().draw.spec_next_fb(prev.0, prev.1), ps.last().draw.spec_next_store(
            prev.0,
            prev.1,
        ))
    }
}

/// The presentation interval that caps a frame rate, in microseconds.
pub fn frame_interval_micros(rate: u64) -> (r: u64)
    requires
        rate >= 1,
    ensures
        r == 1000000u64 / rate,
{
    1000000 / rate
}

impl Game {
    /// Well-formed: the store has unique keys and the pixel buffer holds
    /// exactly `res.0 * res.1` pixels.
    pub open spec fn wf(&self) -> bool {
        &&& self.state.wf()
        &&& self.fb.wf()
        &&& self.fb.spec_width() == self.res.0
        &&& self.fb.spec_height() == self.res.1
    }

    /// The plugin list in ascending priority order.
    pub open spec fn sorted_by_priority(s: Seq<Plugin>) -> bool {
        forall|i: int, j: int| 0 <= i < j < s.len() ==> s[i].priority <= s[j].priority
    }

    /// The plugins of one priority, in list order.
    pub open spec fn with_priority(s: Seq<Plugin>, p: isize) -> Seq<Plugin> {
        s.filter(|pl: Plugin| pl.priority == p)
    }

    /// Build a new game structure: an empty state store, an empty plugin
    /// list, a zero-filled pixel buffer of the given resolution, and no-op
    /// primary callbacks. The rate is the frame-rate cap the embedder
    /// configures its window with.
    pub fn new(title: String, res: (usize, usize), rate: u64) -> (r: Game)
        requires
            rate >= 1,
            res.0 * res.1 <= usize::MAX,
        ensures
            r.wf(),
            r.title@ == title@,
            r.res == res,
            r.rate == rate,
            r.state@ == Map::<Seq<char>, Value>::empty(),
            r.fb@ == Seq::new((res.0 * res.1) as nat, |i: int| 0u32),
            r.plugins@ == Seq::<Plugin>::empty(),
            forall|m: Map<Seq<char>, Value>| #[trigger] r.tick.spec_next(m) == m,
            forall|fb: Seq<u32>, m: Map<Seq<char>, Value>| #[trigger] r.draw.spec_next_fb(fb, m)
                == fb,
            forall|fb: Seq<u32>, m: Map<Seq<char>, Value>| #[trigger] r.draw.spec_next_store(
                fb,
                m,
            ) == m,
    {
        let r = Game {
            state: StateStore::new(),
            title,
            res,
            rate,
            fb: FrameBuffer::new(res.0, res.1),
            tick: Box::new(NoOpTick),
            draw: Box::new(NoOpDraw),
            plugins: Vec::new(),
        };
        proof {
            assert(r.plugins@ =~= Seq::<Plugin>::empty());
        }
        r
    }

    /// Write the tick callback for use in builder patterns. The contract
    /// equates the result with the updated structure; Verus does not carry
    /// a boxed handler's identity through the move, so a caller that needs
    /// the slot's declared transition should rely on a constructor that
    /// states it, as `new` and `frame_counter` do.
    pub fn with_tick(self, tick: Box<dyn TickHandler>) -> (r: Self)
        ensures
            r == (Game { tick, ..self }),
    {
        Game { tick, ..self }
    }

    /// Write the draw callback for use in builder patterns; the same note
    /// as on `with_tick` applies.
    pub fn with_draw(self, draw: Box<dyn DrawHandler>) -> (r: Self)
        ensures
            r == (Game { draw, ..self }),
    {
        Game { draw, ..self }
    }

    /// Add a plugin for use in builder patterns. Plugins accumulate in
    /// append order; `sort_plugins` puts them in execution order.
    pub fn with_plugin(self, plugin: Plugin) -> (r: Self)
        ensures
            r.plugins@ == self.plugins@.push(plugin),
            r.state == self.state,
            r.title == self.title,
            r.res == self.res,
            r.rate == self.rate,
            r.fb == self.fb,
            r.tick == self.tick,
            r.draw == self.draw,
    {
        let mut g = self;
        g.plugins.push(plugin);
        g
    }

    /// Sort the list of plugins so they will execute in the right order:
    /// ascending priority, plugins of equal priority keeping their
    /// insertion order. Nothing else about the game changes.
    #[verifier::loop_isolation(false)]
    pub fn sort_plugins(&mut self)
        ensures
            final(self).plugins@.len() == old(self).plugins@.len(),
            Self::sorted_by_priority(final(self).plugins@),
            forall|p: isize| #[trigger] Self::with_priority(final(self).plugins@, p)
                == Self::with_priority(old(self).plugins@, p),
            final(self).state == old(self).state,
            final(self).title == old(self).title,
            final(self).res == old(self).res,
            final(self).rate == old(self).rate,
            final(self).fb == old(self).fb,
            final(self).tick == old(self).tick,
            final(self).draw == old(self).draw,
    {
        let n = self.plugins.len();
        if n <= 1 {
            return ;
        }
        let mut i: usize = 1;
        while i < n
            invariant
                n == self.plugins@.len(),
                1 <= i <= n,
                Self::sorted_by_priority(self.plugins@.take(i as int)),
                forall|p: isize| #[trigger] Self::with_priority(self.plugins@, p)
                    == Self::with_priority(old(self).plugins@, p),
                self.state == old(self).state,
                self.title == old(self).title,
                self.res == old(self).res,
                self.rate == old(self).rate,
                self.fb == old(self).fb,
                self.tick == old(self).tick,
                self.draw == old(self).draw,
            decreases n - i,
        {
            let ghost sb = self.plugins@;
            let key_prio = self.plugins[i].priority;
            let mut k: usize = 0;
            while k < i && self.plugins[k].priority <= key_prio
                invariant
                    0 <= k <= i,
                    forall|j: int| 0 <= j < k ==> self.plugins@[j].priority <= key_prio,
                decreases i - k,
            {
                k += 1;
            }
            assert(forall|j: int| k <= j < i ==> sb[j].priority > key_prio) by {
                if k < i {
                    assert(sb[k as int].priority > key_prio);
                    assert forall|j: int| k <= j < i implies sb[j].priority > key_prio by {
                        assert(sb.take(i as int)[k as int].priority
                            <= sb.take(i as int)[j].priority);
                    }
                }
            }
            let moved = self.plugins.remove(i);
            self.plugins.insert(k, moved);
            proof {
                let s2 = self.plugins@;
                lemma_stable_move(sb, s2, i as int, k as int);
                assert forall|x: int, y: int| #![trigger s2[x], s2[y]]
                    0 <= x < y < i + 1 implies s2[x].priority <= s2[y].priority by {
                    let sp = sb.take(i as int);
                    if x < k {
                        assert(s2[x] == sb[x] && sb[x] == sp[x]);
                    }
                    if k < x <= i {
                        assert(s2[x] == sb[x - 1] && sb[x - 1] == sp[x - 1]);
                    }
                    if y < k {
                        assert(s2[y] == sb[y] && sb[y] == sp[y]);
                    }
                    if k < y <= i {
                        assert(s2[y] == sb[y - 1] && sb[y - 1] == sp[y - 1]);
                    }
                }
                assert(Self::sorted_by_priority(s2.take(i as int + 1)));
            }
            i += 1;
        }
        proof {
            assert(self.plugins@.take(n as int) =~= self.plugins@);
        }
    }

    /// Run the plugin tick callbacks in list order, then the primary tick
    /// callback, all on the shared state store: the final store is the
    /// fold of the declared transitions. Nothing but the store changes.
    pub fn tick(&mut self)
        requires
            old(self).wf(),
        ensures
            final(self).wf(),
            final(self).state@ == old(self).tick.spec_next(
                run_ticks(old(self).plugins@, old(self).state@),
            ),
            final(self).title == old(self).title,
            final(self).res == old(self).res,
            final(self).rate == old(self).rate,
            final(self).fb == old(self).fb,
            final(self).tick == old(self).tick,
            final(self).draw == old(self).draw,
            final(self).plugins == old(self).plugins,
    {
        let ghost m0 = old(self).state@;
        let n = self.plugins.len();
        let mut i: usize = 0;
        while i < n
            invariant
                n == self.plugins@.len(),
                0 <= i <= n,
                self.state.wf(),
                self.state@ == run_ticks(old(self).plugins@.take(i as int), m0),
                self.title == old(self).title,
                self.res == old(self).res,
                self.rate == old(self).rate,
                self.fb == old(self).fb,
                self.tick == old(self).tick,
                self.draw == old(self).draw,
                self.plugins == old(self).plugins,
                m0 == old(self).state@,
                old(self).wf(),
            decreases n - i,
        {
            let ghost prev = self.state@;
            self.plugins[i].tick.on_tick(&mut self.state);
            proof {
                let ps = old(self).plugins@;
                assert(ps.take(i as int + 1).drop_last() =~= ps.take(i as int));
                assert(ps.take(i as int + 1).last() == ps[i as int]);
                assert(self.state@ == ps[i as int].tick.spec_next(prev));
            }
            i += 1;
        }
        proof {
            assert(old(self).plugins@.take(n as int) =~= old(self).plugins@);
        }
        self.tick.on_tick(&mut self.state);
    }

    /// Run the plugin draw callbacks in list order, then the primary draw
    /// callback, each on the live pixel buffer and the shared state store:
    /// the final pixels and store are the fold of the declared transitions.
    /// The buffer's resolution never changes; the embedder presents the
    /// buffer afterwards.
    pub fn draw(&mut self)
        requires
            old(self).wf(),
        ensures
            final(self).wf(),
            final(self).fb@ == old(self).draw.spec_next_fb(
                run_draws(old(self).plugins@, old(self).fb@, old(self).state@).0,
                run_draws(old(self).plugins@, old(self).fb@, old(self).state@).1,
            ),
            final(self).state@ == old(self).draw.spec_next_store(
                run_draws(old(self).plugins@, old(self).fb@, old(self).state@).0,
                run_draws(old(self).plugins@, old(self).fb@, old(self).state@).1,
            ),
            final(self).title == old(self).title,
            final(self).res == old(self).res,
            final(self).rate == old(self).rate,
            final(self).tick == old(self).tick,
            final(self).draw == old(self).draw,
            final(self).plugins == old(self).plugins,
            final(self).fb.spec_width() == old(self).fb.spec_width(),
            final(self).fb.spec_height() == old(self).fb.spec_height(),
    {
        let ghost fb0 = old(self).fb@;
        let ghost m0 = old(self).state@;
        let n = self.plugins.len();
        let mut i: usize = 0;
        while i < n
            invariant
                n == self.plugins@.len(),
                0 <= i <= n,
                self.state.wf(),
                self.fb.wf(),
                self.fb.spec_width() == old(self).fb.spec_width(),
                self.fb.spec_height() == old(self).fb.spec_height(),
                self.fb@ == run_draws(old(self).plugins@.take(i as int), fb0, m0).0,
                self.state@ == run_draws(old(self).plugins@.take(i as int), fb0, m0).1,
                self.title == old(self).title,
                self.res == old(self).res,
                self.rate == old(self).rate,
                self.tick == old(self).tick,
                self.draw == old(self).draw,
                self.plugins == old(self).plugins,
                fb0 == old(self).fb@,
                m0 == old(self).state@,
                old(self).wf(),
            decreases n - i,
        {
            let ghost prev_fb = self.fb@;
            let ghost prev_m = self.state@;
            self.plugins[i].draw.on_draw(&mut self.fb, &mut self.state);
            proof {
                let ps = old(self).plugins@;
                assert(ps.take(i as int + 1).drop_last() =~= ps.take(i as int));
                assert(ps.take(i as int + 1).last() == ps[i as int]);
                assert(self.fb@ == ps[i as int].draw.spec_next_fb(prev_fb, prev_m));
                assert(self.state@ == ps[i as int].draw.spec_next_store(prev_fb, prev_m));
            }
            i += 1;
        }
        proof {
            assert(old(self).plugins@.take(n as int) =~= old(self).plugins@);
        }
        self.draw.on_draw(&mut self.fb, &mut self.state);
    }
}

} // verus!
