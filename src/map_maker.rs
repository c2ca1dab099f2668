//! Recording a chart from live key presses.
use vstd::prelude::*;

use crate::types::{all_directions, ArrowTimeToml, Directions, Key, Speed};

verus! {

/// The cues recorded at time `now` for the keys pressed in one frame: one
/// slow cue for each lane whose key was pressed, lanes top to bottom.
pub open spec fn presses_at(pressed: Seq<Key>, now: u64) -> Seq<ArrowTimeToml> {
    all_directions().filter(|d: Directions| d.pressed_in(pressed)).map_values(
        |d: Directions| ArrowTimeToml { click_time: now, speed: Speed::Slow, direction: d },
    )
}

/// Appends to `presses` a slow cue at time `now` for each lane whose key
/// was pressed this frame.
pub fn save_key_presses(pressed: &Vec<Key>, now: u64, presses: &mut Vec<ArrowTimeToml>)
    ensures
        final(presses)@ == old(presses)@ + presses_at(pressed@, now),
{
    let directions = Directions::directions();
    let mut i: usize = 0;
    while i < directions.len()
        invariant
            0 <= i <= directions@.len(),
            directions@ == all_directions(),
            presses@ == old(presses)@ + presses_at_prefix(pressed@, now, i as int),
        decreases directions.len() - i,
    {
        let d = directions[i];
        proof {
            lemma_prefix_step(pressed@, now, i as int);
        }
        if d.key_just_pressed(pressed) {
            presses.push(ArrowTimeToml { click_time: now, speed: Speed::Slow, direction: d });
        }
        i += 1;
    }
    proof {
        assert(all_directions().take(4) =~= all_directions());
    }
}

/// `presses_at` over the first `n` lanes only.
spec fn presses_at_prefix(pressed: Seq<Key>, now: u64, n: int) -> Seq<ArrowTimeToml> {
    all_directions().take(n).filter(|d: Directions| d.pressed_in(pressed)).map_values(
        |d: Directions| ArrowTimeToml { click_time: now, speed: Speed::Slow, direction: d },
    )
}

proof fn lemma_prefix_step(pressed: Seq<Key>, now: u64, n: int)
    requires
        0 <= n < 4,
    ensures
        presses_at_prefix(pressed, now, n + 1) == if all_directions()[n].pressed_in(pressed) {
            presses_at_prefix(pressed, now, n).push(
                ArrowTimeToml {
                    click_time: now,
                    speed: Speed::Slow,
                    direction: all_directions()[n],
                },
            )
        } else {
            presses_at_prefix(pressed, now, n)
        },
{
    let f = |d: Directions| d.pressed_in(pressed);
    let s = all_directions().take(n + 1);
    assert(s.drop_last() =~= all_directions().take(n));
    all_directions().take(n).lemma_filter_push(all_directions()[n], f);
    assert(s =~= all_directions().take(n).push(all_directions()[n]));
    let g = |d: Directions| ArrowTimeToml { click_time: now, speed: Speed::Slow, direction: d };
    let fl = all_directions().take(n).filter(f);
    assert(fl.push(all_directions()[n]).map_values(g) =~= fl.map_values(g).push(
        g(all_directions()[n]),
    ));
}

} // verus!
