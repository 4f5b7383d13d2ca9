use carburetor::channel::Channel;
use carburetor::control_channel::{
    ControlLoop, HardwareWriteFailure, LoopAction, LoopEvent, LoopReaction, Stage,
};
use carburetor::pulse::pulse_width;
use carburetor::speed::Speed;

fn speed_of(value: f32) -> Speed {
    Speed::from_bits(value.to_bits()).expect("speed within bounds")
}

fn quiet(next: LoopAction) -> LoopReaction {
    LoopReaction { failure: None, next }
}

#[test]
fn channels_have_the_indices_of_their_outputs() {
    assert_eq!(Channel::Pwm0.index(), 0);
    assert_eq!(Channel::Pwm1.index(), 1);
    assert_eq!(Channel::from_index(0), Some(Channel::Pwm0));
    assert_eq!(Channel::from_index(1), Some(Channel::Pwm1));
    for index in 2..=255u8 {
        assert_eq!(Channel::from_index(index), None);
    }
    assert_eq!(Channel::from_index(7), None);
}

#[test]
fn a_fresh_loop_waits_on_its_queue() {
    let state = ControlLoop::new(Channel::Pwm1);
    assert_eq!(state.channel, Channel::Pwm1);
    assert_eq!(state.stage, Stage::Waiting);
    assert_eq!(state.applied, None);
    assert_eq!(ControlLoop::first_action(), LoopAction::Receive);
}

#[test]
fn a_speed_is_written_as_its_pulse() {
    let mut state = ControlLoop::new(Channel::Pwm0);
    let reaction = state.step(LoopEvent::Command(speed_of(0.5)));
    let pulse = pulse_width(speed_of(0.5));
    assert_eq!(pulse.as_nanos(), 1_750_000);
    assert_eq!(reaction, quiet(LoopAction::Write(pulse)));
    assert_eq!(state.stage, Stage::Writing(pulse));
    assert_eq!(state.applied, None);

    assert_eq!(state.step(LoopEvent::Written), quiet(LoopAction::Receive));
    assert_eq!(state.stage, Stage::Waiting);
    assert_eq!(state.applied, Some(pulse));
}

#[test]
fn neutral_is_written_as_1500_microseconds() {
    let mut state = ControlLoop::new(Channel::Pwm0);
    match state.step(LoopEvent::Command(Speed::neutral())).next {
        LoopAction::Write(pulse) => assert_eq!(pulse.as_micros(), 1500),
        other => panic!("expected a write, got {other:?}"),
    }
}

#[test]
fn the_last_speed_taken_wins() {
    let mut state = ControlLoop::new(Channel::Pwm1);
    for value in [0.25f32, -1.0, 0.75, 0.0] {
        state.step(LoopEvent::Command(speed_of(value)));
        state.step(LoopEvent::Written);
        assert_eq!(state.applied, Some(pulse_width(speed_of(value))));
    }
    assert_eq!(state.applied.map(|pulse| pulse.as_nanos()), Some(1_500_000));
}

#[test]
fn a_failed_write_is_reported_and_the_loop_goes_on() {
    let mut state = ControlLoop::new(Channel::Pwm1);
    state.step(LoopEvent::Command(speed_of(0.25)));
    state.step(LoopEvent::Written);

    let refused = pulse_width(speed_of(1.0));
    assert_eq!(
        state.step(LoopEvent::Command(speed_of(1.0))),
        quiet(LoopAction::Write(refused))
    );
    let reaction = state.step(LoopEvent::WriteFailed);
    assert_eq!(
        reaction,
        LoopReaction {
            failure: Some(HardwareWriteFailure { channel: Channel::Pwm1, pulse: refused }),
            next: LoopAction::Receive,
        }
    );
    assert_eq!(state.stage, Stage::Waiting);
    // the output still holds what it took last
    assert_eq!(state.applied, Some(pulse_width(speed_of(0.25))));
}

#[test]
fn the_next_command_heals_a_failed_write() {
    let mut state = ControlLoop::new(Channel::Pwm0);
    state.step(LoopEvent::Command(speed_of(1.0)));
    state.step(LoopEvent::WriteFailed);
    state.step(LoopEvent::Command(speed_of(-1.0)));
    state.step(LoopEvent::WriteFailed);

    let reaction = state.step(LoopEvent::Command(Speed::neutral()));
    assert_eq!(reaction, quiet(LoopAction::Write(pulse_width(Speed::neutral()))));
    assert_eq!(state.step(LoopEvent::Written), quiet(LoopAction::Receive));
    assert_eq!(state.applied, Some(pulse_width(Speed::neutral())));
}

#[test]
fn the_loop_ends_when_its_queue_is_closed() {
    let mut state = ControlLoop::new(Channel::Pwm0);
    state.step(LoopEvent::Command(speed_of(0.5)));
    state.step(LoopEvent::Written);
    assert_eq!(state.step(LoopEvent::QueueClosed), quiet(LoopAction::Stop));
    assert_eq!(state.stage, Stage::Stopped);
    assert_eq!(state.applied, Some(pulse_width(speed_of(0.5))));
}

#[test]
fn the_loop_ends_even_while_a_write_is_pending() {
    let mut state = ControlLoop::new(Channel::Pwm0);
    state.step(LoopEvent::Command(speed_of(0.5)));
    assert_eq!(state.step(LoopEvent::QueueClosed), quiet(LoopAction::Stop));
    assert_eq!(state.stage, Stage::Stopped);
}

#[test]
fn a_stopped_loop_stays_stopped() {
    let events = [
        LoopEvent::Command(speed_of(0.5)),
        LoopEvent::QueueClosed,
        LoopEvent::Written,
        LoopEvent::WriteFailed,
    ];
    for event in events {
        let mut state = ControlLoop::new(Channel::Pwm0);
        state.step(LoopEvent::QueueClosed);
        let before = state;
        assert_eq!(state.step(event), quiet(LoopAction::Stop));
        assert_eq!(state, before);
    }
}

#[test]
fn nothing_but_a_closed_queue_ends_the_loop() {
    let events = [
        LoopEvent::Command(speed_of(-0.5)),
        LoopEvent::Written,
        LoopEvent::WriteFailed,
    ];
    for first in events {
        for second in events {
            let mut state = ControlLoop::new(Channel::Pwm1);
            assert_ne!(state.step(first).next, LoopAction::Stop);
            assert_ne!(state.step(second).next, LoopAction::Stop);
            assert_ne!(state.stage, Stage::Stopped);
            assert_eq!(state.channel, Channel::Pwm1);
        }
    }
}

#[test]
fn outcomes_without_a_pending_write_change_nothing() {
    for event in [LoopEvent::Written, LoopEvent::WriteFailed] {
        let mut state = ControlLoop::new(Channel::Pwm0);
        let before = state;
        assert_eq!(state.step(event), quiet(LoopAction::Receive));
        assert_eq!(state, before);
    }
}

#[test]
fn a_newer_speed_replaces_a_pending_write() {
    let mut state = ControlLoop::new(Channel::Pwm0);
    state.step(LoopEvent::Command(speed_of(1.0)));
    let newer = pulse_width(speed_of(-0.5));
    assert_eq!(
        state.step(LoopEvent::Command(speed_of(-0.5))),
        quiet(LoopAction::Write(newer))
    );
    state.step(LoopEvent::Written);
    assert_eq!(state.applied, Some(newer));
}
