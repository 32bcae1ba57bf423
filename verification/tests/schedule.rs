use sqa_engine::channels::PortId;
use sqa_engine::schedule::{
    advance, elapsed_samples, plan_block, position_millis, BlockPlan, Notices, StreamState,
    StreamUpdate,
};

fn playing(position: u64, start_time: u64) -> StreamState {
    StreamState {
        active: true,
        alive: true,
        kill_when_empty: false,
        position,
        start_time,
        output_patch: 0,
    }
}

#[test]
fn initial_state_is_idle_and_unpatched() {
    let state = StreamState::initial();
    assert!(!state.active);
    assert!(!state.alive);
    assert!(!state.kill_when_empty);
    assert_eq!(state.position, 0);
    assert_eq!(state.start_time, 0);
    assert_eq!(state.output_patch, usize::MAX);
    assert_eq!(state.output_patch, sqa_engine::NO_PATCH);
}

#[test]
fn elapsed_samples_is_rate_times_seconds() {
    assert_eq!(elapsed_samples(0, 1_000_000_000, 48_000), 48_000);
    assert_eq!(elapsed_samples(1_000, 1_000, 48_000), 0);
    assert_eq!(elapsed_samples(5, 500_000_005, 44_100), 22_050);
    // rounds down: 1 ns short of one sample at 1 Hz
    assert_eq!(elapsed_samples(0, 999_999_999, 1), 0);
    assert_eq!(elapsed_samples(0, 1_000_000_000, 1), 1);
}

#[test]
fn elapsed_samples_does_not_overflow() {
    let owed = elapsed_samples(0, u64::MAX, u64::MAX);
    assert_eq!(owed, (u64::MAX as u128) * (u64::MAX as u128) / 1_000_000_000);
}

#[test]
fn advance_adds_and_saturates() {
    assert_eq!(advance(10, 5), 15);
    assert_eq!(advance(u64::MAX - 1, 1), u64::MAX);
    assert_eq!(advance(u64::MAX - 1, 2), u64::MAX);
    assert_eq!(advance(u64::MAX, usize::MAX), u64::MAX);
}

#[test]
fn position_millis_rounds_down() {
    assert_eq!(position_millis(48_000, 48_000), 1_000);
    assert_eq!(position_millis(24_000, 48_000), 500);
    assert_eq!(position_millis(1, 3), 333);
    assert_eq!(position_millis(0, 44_100), 0);
}

#[test]
fn position_millis_at_rate_zero() {
    assert_eq!(position_millis(0, 0), 0);
    assert_eq!(position_millis(7, 0), i64::MAX);
}

#[test]
fn position_millis_saturates() {
    assert_eq!(position_millis(u64::MAX, 1), i64::MAX);
}

#[test]
fn dead_stream_is_reaped() {
    let mut state = playing(0, 0);
    state.alive = false;
    assert_eq!(plan_block(state, 48_000, 10, 64, 1_000, Some(PortId(1))), BlockPlan::Reap);
}

#[test]
fn inactive_stream_is_idle() {
    let mut state = playing(0, 0);
    state.active = false;
    assert_eq!(plan_block(state, 48_000, 10, 64, 1_000, Some(PortId(1))), BlockPlan::Idle);
}

#[test]
fn unpatched_stream_is_deactivated() {
    let state = playing(0, 0);
    let plan = plan_block(state, 48_000, 10, 64, 1_000, None);
    assert_eq!(plan, BlockPlan::Unpatch);
    let next = plan.outcome(state, 1_000);
    assert!(!next.active);
    assert!(next.alive);
    assert_eq!(next.position, 0);
}

#[test]
fn stream_waits_for_its_start_time() {
    let state = playing(17, 1_000);
    let plan = plan_block(state, 48_000, 999, 64, 1_000, Some(PortId(1)));
    assert_eq!(plan, BlockPlan::Wait);
    assert_eq!(plan.dropped(), 0);
    assert_eq!(plan.outcome(state, 1_000).position, 0);
}

#[test]
fn stream_plays_at_its_start_time() {
    let state = playing(0, 1_000);
    let plan = plan_block(state, 48_000, 1_000, 64, 1_000, Some(PortId(3)));
    assert_eq!(plan, BlockPlan::Play { dropped: 0, frames: 64, port: PortId(3) });
    assert_eq!(plan.outcome(state, 936).position, 64);
}

#[test]
fn stream_on_schedule_drops_nothing() {
    // 480 samples are owed and 480 were played: position + 1 is not less.
    let state = playing(480, 0);
    let plan = plan_block(state, 48_000, 10_000_000, 480, 1_000, Some(PortId(1)));
    assert_eq!(plan, BlockPlan::Play { dropped: 0, frames: 480, port: PortId(1) });
}

#[test]
fn one_sample_behind_is_still_on_schedule() {
    let state = playing(479, 0);
    let plan = plan_block(state, 48_000, 10_000_000, 480, 1_000, Some(PortId(1)));
    assert_eq!(plan, BlockPlan::Play { dropped: 0, frames: 480, port: PortId(1) });
}

#[test]
fn stream_behind_schedule_catches_up_then_plays() {
    // One second after the start 48000 samples are owed; the stream is at 40000.
    let state = playing(40_000, 0);
    let plan = plan_block(state, 48_000, 1_000_000_000, 256, 10_000, Some(PortId(1)));
    assert_eq!(plan, BlockPlan::Play { dropped: 7_999, frames: 256, port: PortId(1) });
    assert_eq!(plan.dropped(), 7_999);
    assert_eq!(plan.outcome(state, 10_000 - 7_999 - 256).position, 40_000 + 7_999 + 256);
}

#[test]
fn catch_up_that_empties_the_buffer_starves() {
    let state = playing(40_000, 0);
    let plan = plan_block(state, 48_000, 1_000_000_000, 256, 5_000, Some(PortId(1)));
    assert_eq!(plan, BlockPlan::Starve { dropped: 5_000 });
    assert_eq!(plan.outcome(state, 0).position, 45_000);
}

#[test]
fn catch_up_that_leaves_less_than_a_block_underflows() {
    let state = playing(40_000, 0);
    let plan = plan_block(state, 48_000, 1_000_000_000, 256, 8_100, Some(PortId(1)));
    assert_eq!(plan, BlockPlan::Underflow { dropped: 7_999 });
    assert_eq!(plan.outcome(state, 101).position, 47_999);
}

#[test]
fn short_buffer_underflows_without_catch_up() {
    let state = playing(0, 0);
    let plan = plan_block(state, 48_000, 0, 256, 255, Some(PortId(1)));
    assert_eq!(plan, BlockPlan::Underflow { dropped: 0 });
    assert_eq!(plan.outcome(state, 255), state);
}

#[test]
fn exactly_one_block_in_the_buffer_plays() {
    let state = playing(0, 0);
    let plan = plan_block(state, 48_000, 0, 256, 256, Some(PortId(1)));
    assert_eq!(plan, BlockPlan::Play { dropped: 0, frames: 256, port: PortId(1) });
}

#[test]
fn kill_when_empty_kills_on_the_block_that_empties_the_buffer() {
    let mut state = playing(0, 0);
    state.kill_when_empty = true;
    let plan = plan_block(state, 48_000, 0, 256, 256, Some(PortId(1)));
    let next = plan.outcome(state, 0);
    assert!(!next.alive);
    assert_eq!(next.position, 256);
    assert_eq!(plan_block(next, 48_000, 1, 256, 0, Some(PortId(1))), BlockPlan::Reap);
}

#[test]
fn kill_when_empty_spares_a_buffer_with_samples_left() {
    let mut state = playing(0, 0);
    state.kill_when_empty = true;
    let plan = plan_block(state, 48_000, 0, 256, 300, Some(PortId(1)));
    assert!(plan.outcome(state, 44).alive);
}

#[test]
fn empty_buffer_without_the_flag_leaves_the_stream_alive() {
    let state = playing(0, 0);
    let plan = plan_block(state, 48_000, 0, 256, 256, Some(PortId(1)));
    assert!(plan.outcome(state, 0).alive);
}

#[test]
fn position_saturates_in_the_outcome() {
    let state = playing(u64::MAX - 10, 0);
    let plan = BlockPlan::Play { dropped: 5, frames: 64, port: PortId(1) };
    assert_eq!(plan.outcome(state, 0).position, u64::MAX);
}

#[test]
fn notices_fall_due_once() {
    let plan = BlockPlan::Play { dropped: 0, frames: 64, port: PortId(1) };
    assert_eq!(
        plan.notices(60_000, 100_000, false, false),
        Notices { half_empty: false, empty: false }
    );
    assert_eq!(
        plan.notices(50_000, 100_000, false, false),
        Notices { half_empty: false, empty: false }
    );
    assert_eq!(
        plan.notices(49_999, 100_000, false, false),
        Notices { half_empty: true, empty: false }
    );
    assert_eq!(
        plan.notices(49_999, 100_000, true, false),
        Notices { half_empty: false, empty: false }
    );
    assert_eq!(plan.notices(0, 100_000, true, false), Notices { half_empty: false, empty: true });
    assert_eq!(plan.notices(0, 100_000, false, false), Notices { half_empty: true, empty: true });
    assert_eq!(plan.notices(0, 100_000, true, true), Notices { half_empty: false, empty: false });
}

#[test]
fn only_a_played_block_gives_notices() {
    let quiet = Notices { half_empty: false, empty: false };
    assert_eq!(BlockPlan::Starve { dropped: 9 }.notices(0, 100_000, false, false), quiet);
    assert_eq!(BlockPlan::Underflow { dropped: 9 }.notices(0, 100_000, false, false), quiet);
    assert_eq!(BlockPlan::Idle.notices(0, 100_000, false, false), quiet);
    assert_eq!(BlockPlan::Wait.notices(0, 100_000, false, false), quiet);
    assert_eq!(BlockPlan::Reap.notices(0, 100_000, false, false), quiet);
    assert_eq!(BlockPlan::Unpatch.notices(0, 100_000, false, false), quiet);
}

#[test]
fn a_block_of_no_frames_plays_nothing() {
    let state = playing(0, 0);
    let plan = plan_block(state, 48_000, 0, 0, 0, Some(PortId(1)));
    assert_eq!(plan, BlockPlan::Play { dropped: 0, frames: 0, port: PortId(1) });
    assert_eq!(plan.outcome(state, 0).position, 0);
}

#[test]
fn empty_update_changes_nothing() {
    let state = playing(17, 5);
    assert_eq!(state.apply(StreamUpdate::none()), state);
    assert_eq!(
        StreamUpdate::none(),
        StreamUpdate { active: None, alive: None, position: None, start_time: None }
    );
}

#[test]
fn play_from_sets_start_time_and_activates() {
    let update = StreamUpdate::play_from(1_234);
    assert_eq!(
        update,
        StreamUpdate { active: Some(true), alive: None, position: None, start_time: Some(1_234) }
    );
    let mut state = playing(17, 5);
    state.active = false;
    let next = state.apply(update);
    assert!(next.active);
    assert_eq!(next.start_time, 1_234);
    assert_eq!(next.position, 17);
    assert!(next.alive);
}

#[test]
fn rewind_sets_position_and_start_time_together() {
    let update = StreamUpdate::rewind(99);
    assert_eq!(
        update,
        StreamUpdate { active: None, alive: None, position: Some(0), start_time: Some(99) }
    );
    let next = playing(17, 5).apply(update);
    assert_eq!(next.position, 0);
    assert_eq!(next.start_time, 99);
    assert!(next.active);
    // on schedule at the moment of the rewind: nothing to catch up
    assert_eq!(
        plan_block(next, 48_000, 99, 64, 64, Some(PortId(1))),
        BlockPlan::Play { dropped: 0, frames: 64, port: PortId(1) }
    );
}

#[test]
fn release_of_the_original_ends_the_stream() {
    let update = StreamUpdate::release(true);
    assert_eq!(
        update,
        StreamUpdate { active: Some(false), alive: Some(false), position: None, start_time: None }
    );
    let next = playing(17, 5).apply(update);
    assert!(!next.alive);
    assert!(!next.active);
    assert_eq!(plan_block(next, 48_000, 99, 64, 64, Some(PortId(1))), BlockPlan::Reap);
}

#[test]
fn release_of_a_plain_sender_writes_nothing() {
    assert_eq!(StreamUpdate::release(false), StreamUpdate::none());
    let state = playing(17, 5);
    assert_eq!(state.apply(StreamUpdate::release(false)), state);
}

#[test]
fn plans_write_only_what_they_change() {
    let state = playing(10, 0);
    let none = StreamUpdate::none();
    assert_eq!(BlockPlan::Reap.update(state, 0), none);
    assert_eq!(BlockPlan::Idle.update(state, 0), none);
    assert_eq!(BlockPlan::Unpatch.update(state, 0), StreamUpdate { active: Some(false), ..none });
    assert_eq!(BlockPlan::Wait.update(state, 0), StreamUpdate { position: Some(0), ..none });
    assert_eq!(
        BlockPlan::Starve { dropped: 5 }.update(state, 0),
        StreamUpdate { position: Some(15), ..none }
    );
    assert_eq!(
        BlockPlan::Underflow { dropped: 7 }.update(state, 3),
        StreamUpdate { position: Some(17), ..none }
    );
    let play = BlockPlan::Play { dropped: 2, frames: 64, port: PortId(1) };
    assert_eq!(play.update(state, 0), StreamUpdate { position: Some(76), ..none });
    let mut dying = state;
    dying.kill_when_empty = true;
    assert_eq!(
        play.update(dying, 0),
        StreamUpdate { position: Some(76), alive: Some(false), ..none }
    );
    assert_eq!(play.update(dying, 1), StreamUpdate { position: Some(76), ..none });
}

#[test]
fn nothing_is_owed_before_the_start() {
    assert_eq!(elapsed_samples(10, 5, 48_000), 0);
    assert_eq!(elapsed_samples(u64::MAX, 0, u64::MAX), 0);
}

#[test]
fn changes_name_the_cells_that_differ() {
    let before = playing(10, 5);
    assert_eq!(before.changes_to(before), StreamUpdate::none());
    let mut after = before;
    after.position = 11;
    after.alive = false;
    let update = before.changes_to(after);
    assert_eq!(
        update,
        StreamUpdate { active: None, alive: Some(false), position: Some(11), start_time: None }
    );
    assert_eq!(before.apply(update), after);
    after.active = false;
    after.start_time = 9;
    let update = before.changes_to(after);
    assert_eq!(
        update,
        StreamUpdate {
            active: Some(false),
            alive: Some(false),
            position: Some(11),
            start_time: Some(9)
        }
    );
    assert_eq!(before.apply(update), after);
}

#[test]
fn plan_that_changes_nothing_writes_nothing() {
    let state = playing(0, 100);
    assert_eq!(BlockPlan::Wait.update(state, 5), StreamUpdate::none());
    assert_eq!(BlockPlan::Underflow { dropped: 0 }.update(state, 5), StreamUpdate::none());
    assert_eq!(BlockPlan::Starve { dropped: 0 }.update(state, 0), StreamUpdate::none());
    let at_the_end = playing(u64::MAX, 0);
    assert_eq!(BlockPlan::Starve { dropped: 3 }.update(at_the_end, 0), StreamUpdate::none());
}
