use mini_game::frame_interval_micros;
use mini_game::framebuffer::FrameBuffer;
use mini_game::handlers::{FillDraw, NoOpDraw, NoOpTick, TickHandler};
use mini_game::helpers::{get_list_state, get_u64_state, put_state};
use mini_game::plugins::frame_counter;
use mini_game::store::StateStore;
use mini_game::value::Value;
use mini_game::{Game, Plugin};

/// A tick callback that appends its identifier to the shared "order" list,
/// so tests can observe the order plugins ran in.
struct AppendTick {
    id: u64,
}

impl TickHandler for AppendTick {
    fn on_tick(&self, state: &mut StateStore) {
        let mut list: Vec<Value> = Vec::new();
        if let Some(l) = get_list_state(state, "order") {
            for v in l.iter() {
                list.push(Value::UInt(v.as_u64().expect("order entries are unsigned integers")));
            }
        }
        list.push(Value::UInt(self.id));
        put_state(state, "order", Value::List(list));
    }
}

fn order_ids(state: &StateStore) -> Vec<u64> {
    get_list_state(state, "order")
        .map(|l| {
            l.iter()
                .map(|v| v.as_u64().expect("order entries are unsigned integers"))
                .collect()
        })
        .unwrap_or_default()
}

#[test]
fn frame_interval_formula() {
    assert_eq!(frame_interval_micros(60), 16666);
    assert_eq!(frame_interval_micros(1), 1000000);
}

#[test]
fn buffer_starts_zero_filled() {
    let fb = FrameBuffer::new(4, 3);
    assert_eq!(fb.width(), 4);
    assert_eq!(fb.height(), 3);
    assert_eq!(fb.len(), 12);
    for i in 0..12 {
        assert_eq!(fb.pixel_at(i), 0);
    }
}

#[test]
fn buffer_set_and_get_pixel() {
    let mut fb = FrameBuffer::new(4, 3);
    fb.set_pixel(1, 2, 0xABCD);
    assert_eq!(fb.pixel(1, 2), 0xABCD);
    assert_eq!(fb.pixel_at(2 * 4 + 1), 0xABCD);
    assert_eq!(fb.pixel(0, 0), 0);
    fb.set_pixel_at(0, 7);
    assert_eq!(fb.pixel(0, 0), 7);
}

#[test]
fn buffer_fill_paints_every_pixel() {
    let mut fb = FrameBuffer::new(5, 2);
    fb.fill(u32::MAX);
    for i in 0..10 {
        assert_eq!(fb.pixel_at(i), u32::MAX);
    }
}

#[test]
fn new_game_is_empty() {
    let game = Game::new("title".to_string(), (8, 4), 60);
    assert_eq!(game.title, "title");
    assert_eq!(game.res, (8, 4));
    assert_eq!(game.rate, 60);
    assert_eq!(game.fb.len(), 32);
    assert_eq!(game.plugins.len(), 0);
    assert!(get_u64_state(&game.state, "anything").is_none());
}

#[test]
fn no_plugins_fill_draw_paints_constant_color() {
    let mut game = Game::new("t".to_string(), (8, 4), 60)
        .with_tick(Box::new(NoOpTick))
        .with_draw(Box::new(FillDraw { color: 0x00FF00 }));
    game.tick();
    game.draw();
    assert_eq!(game.fb.len(), 32);
    for i in 0..32 {
        assert_eq!(game.fb.pixel_at(i), 0x00FF00);
    }
}

#[test]
fn frame_counter_reads_ticks_minus_one() {
    let mut game = Game::new("t".to_string(), (2, 2), 60).with_plugin(frame_counter());
    game.tick();
    // the absent key is written as 0 on the first tick, not pre-incremented
    assert_eq!(get_u64_state(&game.state, "frame_counter"), Some(0));
    for _ in 0..4 {
        game.tick();
    }
    assert_eq!(get_u64_state(&game.state, "frame_counter"), Some(4));
}

#[test]
fn sorted_plugins_run_low_priority_first() {
    let mut game = Game::new("t".to_string(), (2, 2), 60)
        .with_plugin(Plugin {
            priority: 5,
            tick: Box::new(AppendTick { id: 5 }),
            draw: Box::new(NoOpDraw),
        })
        .with_plugin(Plugin {
            priority: -5,
            tick: Box::new(AppendTick { id: 105 }),
            draw: Box::new(NoOpDraw),
        });
    game.sort_plugins();
    assert_eq!(game.plugins[0].priority, -5);
    assert_eq!(game.plugins[1].priority, 5);
    game.tick();
    assert_eq!(order_ids(&game.state), vec![105, 5]);
}

#[test]
fn sort_is_stable_for_equal_priorities() {
    let mut game = Game::new("t".to_string(), (2, 2), 60);
    for (priority, id) in [(1, 1), (1, 2), (0, 3), (1, 4), (0, 5)] {
        game = game.with_plugin(Plugin {
            priority,
            tick: Box::new(AppendTick { id }),
            draw: Box::new(NoOpDraw),
        });
    }
    game.sort_plugins();
    let priorities: Vec<isize> = game.plugins.iter().map(|p| p.priority).collect();
    assert_eq!(priorities, vec![0, 0, 1, 1, 1]);
    game.tick();
    assert_eq!(order_ids(&game.state), vec![3, 5, 1, 2, 4]);
}

#[test]
fn unsorted_plugins_run_in_insertion_order() {
    let mut game = Game::new("t".to_string(), (2, 2), 60)
        .with_plugin(Plugin {
            priority: 5,
            tick: Box::new(AppendTick { id: 5 }),
            draw: Box::new(NoOpDraw),
        })
        .with_plugin(Plugin {
            priority: -5,
            tick: Box::new(AppendTick { id: 105 }),
            draw: Box::new(NoOpDraw),
        });
    // the host does not auto-sort: without sort_plugins, insertion order is kept
    game.tick();
    assert_eq!(order_ids(&game.state), vec![5, 105]);
}

#[test]
fn buffer_size_invariant_across_cycles() {
    let mut game = Game::new("t".to_string(), (7, 5), 30)
        .with_plugin(frame_counter())
        .with_draw(Box::new(FillDraw { color: 3 }));
    assert_eq!(game.fb.len(), 35);
    for _ in 0..10 {
        game.tick();
        game.draw();
        assert_eq!(game.fb.len(), 35);
        assert_eq!(game.fb.width(), 7);
        assert_eq!(game.fb.height(), 5);
    }
}

#[test]
fn zero_resolution_is_allowed() {
    let mut game = Game::new("t".to_string(), (0, 0), 60)
        .with_draw(Box::new(FillDraw { color: 9 }));
    game.tick();
    game.draw();
    assert_eq!(game.fb.len(), 0);
}

#[test]
fn builder_accumulates_plugins_in_append_order() {
    let game = Game::new("t".to_string(), (2, 2), 60)
        .with_plugin(Plugin {
            priority: 3,
            tick: Box::new(NoOpTick),
            draw: Box::new(NoOpDraw),
        })
        .with_plugin(Plugin {
            priority: -1,
            tick: Box::new(NoOpTick),
            draw: Box::new(NoOpDraw),
        });
    let priorities: Vec<isize> = game.plugins.iter().map(|p| p.priority).collect();
    assert_eq!(priorities, vec![3, -1]);
}

#[test]
fn sorting_no_plugins_is_a_no_op() {
    let mut game = Game::new("t".to_string(), (2, 2), 60);
    game.sort_plugins();
    assert_eq!(game.plugins.len(), 0);
    let mut one = game.with_plugin(Plugin {
        priority: 7,
        tick: Box::new(NoOpTick),
        draw: Box::new(NoOpDraw),
    });
    one.sort_plugins();
    assert_eq!(one.plugins[0].priority, 7);
}

#[test]
fn last_set_primary_tick_wins() {
    let mut game = Game::new("t".to_string(), (2, 2), 60)
        .with_tick(Box::new(AppendTick { id: 1 }))
        .with_tick(Box::new(AppendTick { id: 2 }));
    game.tick();
    assert_eq!(order_ids(&game.state), vec![2]);
}

#[test]
fn plugin_ticks_run_before_the_primary_tick() {
    let mut game = Game::new("t".to_string(), (2, 2), 60)
        .with_tick(Box::new(AppendTick { id: 99 }))
        .with_plugin(Plugin {
            priority: 1,
            tick: Box::new(AppendTick { id: 1 }),
            draw: Box::new(NoOpDraw),
        });
    game.tick();
    assert_eq!(order_ids(&game.state), vec![1, 99]);
}

#[test]
fn frame_counter_plugin_has_priority_zero() {
    let plugin = frame_counter();
    assert_eq!(plugin.priority, 0);
}
