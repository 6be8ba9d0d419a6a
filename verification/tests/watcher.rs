use pipeline_runner::watcher::{
    Acquire, Action, BusEvent, Drive, Ending, Event, KillPoll, Phase, Stage,
    StartPoll, Watcher, WatcherError, BUS_WAIT_MS, POLL_INTERVAL_MS, STATE_WAIT_MS,
    STATE_WAIT_RETRIES,
};

fn started(allow_block: bool) -> Watcher {
    let mut watcher = Watcher::new(allow_block);
    assert_eq!(watcher.step(Event::Acquired(Acquire::Ready)), Action::Pause);
    assert_eq!(watcher.step(Event::Paused), Action::PollStart);
    assert_eq!(watcher.step(Event::Start(StartPoll::Received)), Action::ReadState);
    watcher
}

fn monitoring(allow_block: bool) -> Watcher {
    let mut watcher = started(allow_block);
    watcher.step(Event::State(true));
    assert_eq!(watcher.phase(), Phase::Monitoring);
    watcher
}

#[test]
fn waits_are_bounded() {
    assert_eq!(POLL_INTERVAL_MS, 100);
    assert_eq!(STATE_WAIT_MS, 100);
    assert_eq!(STATE_WAIT_RETRIES, 5);
    assert_eq!(BUS_WAIT_MS, 100);
}

#[test]
fn new_watcher_acquires_first() {
    let watcher = Watcher::new(false);
    assert_eq!(watcher.stage(), Stage::Acquire);
    assert_eq!(watcher.phase(), Phase::WaitingForStart);
    assert_eq!(watcher.action(), Action::Acquire);
    assert_eq!(watcher.outcome(), None);
    assert_eq!(watcher.lost_timestamps(), 0);
}

#[test]
fn vanished_pipeline_ends_with_error() {
    let mut watcher = Watcher::new(false);
    assert_eq!(watcher.step(Event::Acquired(Acquire::PipelineGone)), Action::Stop);
    assert_eq!(watcher.phase(), Phase::Terminal);
    assert_eq!(watcher.outcome(), Some(Err(WatcherError::PipelineGone)));
}

#[test]
fn missing_bus_ends_with_error() {
    let mut watcher = Watcher::new(false);
    assert_eq!(watcher.step(Event::Acquired(Acquire::BusUnavailable)), Action::Stop);
    assert_eq!(watcher.outcome(), Some(Err(WatcherError::BusUnavailable)));
}

#[test]
fn idle_until_the_start_signal() {
    let mut watcher = Watcher::new(false);
    watcher.step(Event::Acquired(Acquire::Ready));
    let mut i: usize = 0;
    while i < 5 {
        assert_eq!(watcher.action(), Action::Pause);
        assert_eq!(watcher.step(Event::Paused), Action::PollStart);
        assert_eq!(watcher.step(Event::Start(StartPoll::Empty)), Action::Pause);
        assert_eq!(watcher.phase(), Phase::WaitingForStart);
        i += 1;
    }
    watcher.step(Event::Paused);
    assert_eq!(watcher.step(Event::Start(StartPoll::Received)), Action::ReadState);
    assert_eq!(watcher.phase(), Phase::Starting);
}

#[test]
fn closed_start_channel_is_fatal() {
    let mut watcher = Watcher::new(false);
    watcher.step(Event::Acquired(Acquire::Ready));
    watcher.step(Event::Paused);
    let action = watcher.step(Event::Start(StartPoll::Closed));
    assert_eq!(action, Action::Stop);
    assert_eq!(watcher.phase(), Phase::Terminal);
    assert_eq!(watcher.outcome(), Some(Err(WatcherError::StartSignalClosed)));
}

#[test]
fn second_start_signal_is_ignored() {
    let mut once = started(false);
    let mut twice = started(false);
    assert_eq!(twice.step(Event::Start(StartPoll::Received)), Action::ReadState);
    assert_eq!(twice.stage(), once.stage());
    once.step(Event::State(true));
    twice.step(Event::State(true));
    assert_eq!(twice.step(Event::Start(StartPoll::Received)), once.action());
    assert_eq!(twice.stage(), once.stage());
    assert_eq!(twice.phase(), Phase::Monitoring);
}

#[test]
fn pipeline_already_playing_is_monitored_at_once() {
    let mut watcher = started(false);
    assert_eq!(watcher.step(Event::State(true)), Action::QueryPosition);
    assert_eq!(watcher.phase(), Phase::Monitoring);
}

#[test]
fn pipeline_not_playing_is_driven() {
    let mut watcher = started(false);
    assert_eq!(watcher.step(Event::State(false)), Action::RequestPlaying);
    assert_eq!(watcher.step(Event::Driven(Drive::Reached)), Action::QueryPosition);
}

#[test]
fn unconfirmed_state_is_tried_again() {
    let mut watcher = started(false);
    watcher.step(Event::State(false));
    assert_eq!(watcher.step(Event::Driven(Drive::NotReached)), Action::Pause);
    assert_eq!(watcher.phase(), Phase::Starting);
    assert_eq!(watcher.step(Event::Paused), Action::ReadState);
    assert_eq!(watcher.outcome(), None);
}

#[test]
fn refused_state_change_is_fatal() {
    let mut watcher = started(false);
    watcher.step(Event::State(false));
    assert_eq!(watcher.step(Event::Driven(Drive::SetFailed)), Action::Stop);
    assert_eq!(watcher.outcome(), Some(Err(WatcherError::SetState)));
}

#[test]
fn allowed_block_skips_the_position() {
    let mut watcher = started(true);
    assert_eq!(watcher.step(Event::State(true)), Action::PopBus);
    assert_eq!(watcher.step(Event::Bus(None)), Action::PollKill);
    assert_eq!(watcher.step(Event::Kill(KillPoll::Empty)), Action::PopBus);
}

#[test]
fn one_round_of_monitoring() {
    let mut watcher = monitoring(false);
    assert_eq!(watcher.step(Event::Position(Some(10))), Action::PopBus);
    assert_eq!(watcher.step(Event::Bus(Some(BusEvent::StateChanged))), Action::PopBus);
    assert_eq!(watcher.step(Event::Bus(Some(BusEvent::Other))), Action::PopBus);
    assert_eq!(watcher.step(Event::Bus(None)), Action::PollKill);
    assert_eq!(watcher.step(Event::Kill(KillPoll::Empty)), Action::QueryPosition);
    assert_eq!(watcher.phase(), Phase::Monitoring);
}

#[test]
fn end_of_stream_ends_without_error() {
    let mut watcher = monitoring(false);
    watcher.step(Event::Position(Some(10)));
    assert_eq!(watcher.step(Event::Bus(Some(BusEvent::EndOfStream))), Action::Stop);
    assert_eq!(watcher.phase(), Phase::Terminal);
    assert_eq!(watcher.outcome(), Some(Ok(Ending::EndOfStream)));
}

#[test]
fn bus_error_drives_again() {
    let mut watcher = monitoring(false);
    watcher.step(Event::Position(Some(10)));
    assert_eq!(watcher.step(Event::Bus(Some(BusEvent::Error))), Action::Pause);
    assert_eq!(watcher.phase(), Phase::Starting);
    assert_eq!(watcher.step(Event::Paused), Action::ReadState);
    assert_eq!(watcher.outcome(), None);
}

#[test]
fn killswitch_value_ends_without_error() {
    let mut watcher = monitoring(false);
    watcher.step(Event::Position(None));
    watcher.step(Event::Bus(None));
    assert_eq!(watcher.step(Event::Kill(KillPoll::Received)), Action::Stop);
    assert_eq!(watcher.outcome(), Some(Ok(Ending::Killed)));
}

#[test]
fn closed_killswitch_is_fatal() {
    let mut watcher = monitoring(false);
    watcher.step(Event::Position(None));
    watcher.step(Event::Bus(None));
    let action = watcher.step(Event::Kill(KillPoll::Closed));
    assert_eq!(action, Action::Stop);
    assert_eq!(watcher.outcome(), Some(Err(WatcherError::KillswitchClosed)));
}

#[test]
fn sixteen_unchanged_positions_drive_the_pipeline_once() {
    let mut watcher = monitoring(false);
    let mut drives: usize = 0;
    // The baseline, then sixteen readings that do not move.
    let mut i: usize = 0;
    while i < 17 {
        assert_eq!(watcher.action(), Action::QueryPosition);
        let action = watcher.step(Event::Position(Some(123_456)));
        if action == Action::Pause {
            drives += 1;
            assert_eq!(i, 16);
            assert_eq!(watcher.phase(), Phase::Starting);
            assert_eq!(watcher.lost_timestamps(), 0);
            assert_eq!(watcher.step(Event::Paused), Action::ReadState);
            assert_eq!(watcher.step(Event::State(true)), Action::QueryPosition);
        } else {
            assert_eq!(action, Action::PopBus);
            assert_eq!(watcher.lost_timestamps(), i);
            assert_eq!(watcher.step(Event::Bus(None)), Action::PollKill);
            assert_eq!(watcher.step(Event::Kill(KillPoll::Empty)), Action::QueryPosition);
        }
        i += 1;
    }
    assert_eq!(drives, 1);
    assert_eq!(watcher.lost_timestamps(), 0);
    // The reading that stalled already counts for the next window.
    assert_eq!(watcher.step(Event::Position(Some(123_456))), Action::PopBus);
    assert_eq!(watcher.lost_timestamps(), 1);
}

#[test]
fn ended_watcher_takes_no_event() {
    let mut watcher = monitoring(false);
    watcher.step(Event::Position(None));
    watcher.step(Event::Bus(Some(BusEvent::EndOfStream)));
    assert_eq!(watcher.step(Event::Kill(KillPoll::Received)), Action::Stop);
    assert_eq!(watcher.step(Event::Paused), Action::Stop);
    assert_eq!(watcher.step(Event::Start(StartPoll::Received)), Action::Stop);
    assert_eq!(watcher.outcome(), Some(Ok(Ending::EndOfStream)));
}

#[test]
fn event_of_another_action_changes_nothing() {
    let mut watcher = monitoring(false);
    assert_eq!(watcher.step(Event::Bus(Some(BusEvent::EndOfStream))), Action::QueryPosition);
    assert_eq!(watcher.step(Event::Kill(KillPoll::Received)), Action::QueryPosition);
    assert_eq!(watcher.stage(), Stage::Position);
    assert_eq!(watcher.outcome(), None);
}

#[test]
fn undefined_position_resets_the_watchers_counter() {
    let mut watcher = monitoring(false);
    let mut i: usize = 0;
    while i < 4 {
        assert_eq!(watcher.step(Event::Position(Some(55))), Action::PopBus);
        watcher.step(Event::Bus(None));
        watcher.step(Event::Kill(KillPoll::Empty));
        i += 1;
    }
    assert_eq!(watcher.lost_timestamps(), 3);
    assert_eq!(watcher.step(Event::Position(None)), Action::PopBus);
    assert_eq!(watcher.lost_timestamps(), 0);
    watcher.step(Event::Bus(None));
    watcher.step(Event::Kill(KillPoll::Empty));
    assert_eq!(watcher.step(Event::Position(Some(55))), Action::PopBus);
    assert_eq!(watcher.lost_timestamps(), 1);
}
