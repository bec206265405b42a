use remote_pad::actuator::Actuator;
use remote_pad::actuator::ActuatorAction;
use remote_pad::actuator::ActuatorState;
use remote_pad::config::Config;
use remote_pad::controller::ControlMessages;
use remote_pad::controller::ControlMessages::{Down, Left, Right, Start, Up, A, B};
use remote_pad::listener::Listener;
use remote_pad::listener::ListenerAction;
use remote_pad::listener::ListenerEvent;
use remote_pad::listener::ListenerState;
use remote_pad::queue::EventQueue;
use remote_pad::queue::QUEUE_CAPACITY;
use remote_pad::session::acknowledgment;
use remote_pad::session::ReadOutcome;
use remote_pad::virtual_keyboard_matrix::VirtualKeyaboardMatrixItem as Key;

/// What an observer of the device sees.
#[derive(Debug, PartialEq, Eq)]
enum Seen {
    High(u8),
    Low(u8),
    Slept(u64),
    Wrote(Vec<u8>),
    Closed,
}

/// Runs the actuator until it is idle and the queue is empty.
fn drain(actuator: &mut Actuator, config: &Config, queue: &mut EventQueue, seen: &mut Vec<Seen>) {
    let mut active: Vec<u8> = Vec::new();
    loop {
        let was_idle = actuator.state() == ActuatorState::Idle;
        match actuator.step(config, queue) {
            ActuatorAction::Wait => {
                assert!(active.is_empty());
                if was_idle {
                    return;
                }
            }
            ActuatorAction::Drive { line, hold_ms } => {
                assert!(active.is_empty());
                active.push(line);
                seen.push(Seen::High(line));
                seen.push(Seen::Slept(hold_ms));
            }
            ActuatorAction::Release { line, settle_ms } => {
                assert_eq!(active, vec![line]);
                active.clear();
                seen.push(Seen::Low(line));
                seen.push(Seen::Slept(settle_ms));
            }
        }
    }
}

/// Serves one read the way the device does: queue the events, letting the
/// actuator run whenever the queue is full, then acknowledge and close.
fn serve(
    listener: &mut Listener,
    actuator: &mut Actuator,
    queue: &mut EventQueue,
    bytes: &[u8],
) -> Vec<Seen> {
    let config = listener.config();
    let mut seen = Vec::new();
    let outcome = listener.on_read(bytes);
    let mut rest = &outcome.events[..];
    while !rest.is_empty() {
        let taken = queue.try_enqueue_all(rest);
        rest = &rest[taken..];
        if !rest.is_empty() {
            drain(actuator, &config, queue, &mut seen);
        }
    }
    drain(actuator, &config, queue, &mut seen);
    if outcome.acknowledge {
        seen.push(Seen::Wrote(acknowledgment().to_vec()));
    }
    if listener.action() == ListenerAction::Close {
        seen.push(Seen::Closed);
        listener.step(ListenerEvent::Closed);
    }
    seen
}

fn pulse(event: ControlMessages, config: &Config) -> Vec<Seen> {
    vec![
        Seen::High(event.line()),
        Seen::Slept(config.hold_ms),
        Seen::Low(event.line()),
        Seen::Slept(config.settle_ms),
    ]
}

fn connected(config: Config) -> Listener {
    let mut listener = Listener::new(config);
    assert_eq!(listener.step(ListenerEvent::Ready), ListenerAction::Accept { port: config.port });
    assert_eq!(listener.step(ListenerEvent::Accepted), ListenerAction::Read);
    listener
}

#[test]
fn a_new_queue_is_empty() {
    let mut queue = EventQueue::new();
    assert_eq!(queue.try_dequeue(), None);
    assert_eq!(queue.try_dequeue(), None);
}

#[test]
fn the_queue_hands_events_out_in_the_order_they_went_in() {
    let mut queue = EventQueue::new();
    assert_eq!(queue.try_enqueue(Up), None);
    assert_eq!(queue.try_enqueue(A), None);
    assert_eq!(queue.try_enqueue(Left), None);
    assert_eq!(queue.try_dequeue(), Some(Up));
    assert_eq!(queue.try_enqueue(Start), None);
    assert_eq!(queue.try_dequeue(), Some(A));
    assert_eq!(queue.try_dequeue(), Some(Left));
    assert_eq!(queue.try_dequeue(), Some(Start));
    assert_eq!(queue.try_dequeue(), None);
}

#[test]
fn the_queue_holds_ten_events() {
    assert_eq!(QUEUE_CAPACITY, 10);
    let mut queue = EventQueue::new();
    for _ in 0..10 {
        assert_eq!(queue.try_enqueue(B), None);
    }
}

#[test]
fn an_eleventh_event_waits_until_one_is_taken() {
    let mut queue = EventQueue::new();
    for _ in 0..10 {
        assert_eq!(queue.try_enqueue(Up), None);
    }
    assert_eq!(queue.try_enqueue(Down), Some(Down));
    assert_eq!(queue.try_enqueue(Down), Some(Down));
    assert_eq!(queue.try_dequeue(), Some(Up));
    assert_eq!(queue.try_enqueue(Down), None);
    assert_eq!(queue.try_enqueue(Left), Some(Left));
    for _ in 0..9 {
        assert_eq!(queue.try_dequeue(), Some(Up));
    }
    assert_eq!(queue.try_dequeue(), Some(Down));
    assert_eq!(queue.try_dequeue(), None);
}

#[test]
fn offering_many_events_fills_the_queue_and_keeps_the_rest() {
    let mut queue = EventQueue::new();
    let events: Vec<ControlMessages> =
        vec![A, B, Up, Down, Left, Right, Start, A, B, Up, Down, Left, Right];
    assert_eq!(queue.try_enqueue_all(&events), 10);
    assert_eq!(queue.try_enqueue_all(&events[10..]), 0);
    assert_eq!(queue.try_dequeue(), Some(A));
    assert_eq!(queue.try_dequeue(), Some(B));
    assert_eq!(queue.try_enqueue_all(&events[10..]), 2);
    assert_eq!(queue.try_enqueue_all(&events[12..]), 0);
    let mut out = Vec::new();
    while let Some(event) = queue.try_dequeue() {
        out.push(event);
    }
    assert_eq!(out, events[2..12].to_vec());
}

#[test]
fn offering_few_events_takes_them_all() {
    let mut queue = EventQueue::new();
    assert_eq!(queue.try_enqueue_all(&[]), 0);
    assert_eq!(queue.try_enqueue_all(&[Left, Right]), 2);
    assert_eq!(queue.try_dequeue(), Some(Left));
    assert_eq!(queue.try_dequeue(), Some(Right));
    assert_eq!(queue.try_dequeue(), None);
}

#[test]
fn an_idle_actuator_waits_on_an_empty_queue() {
    let mut actuator = Actuator::new();
    let mut queue = EventQueue::new();
    assert_eq!(actuator.state(), ActuatorState::Idle);
    assert_eq!(actuator.step(&Config::default(), &mut queue), ActuatorAction::Wait);
    assert_eq!(actuator.state(), ActuatorState::Idle);
}

#[test]
fn a_pulse_drives_holds_releases_and_settles() {
    let config = Config { hold_ms: 200, settle_ms: 75, ..Config::default() };
    let mut actuator = Actuator::new();
    let mut queue = EventQueue::new();
    queue.try_enqueue(Start);
    queue.try_enqueue(Up);
    assert_eq!(
        actuator.step(&config, &mut queue),
        ActuatorAction::Drive { line: 10, hold_ms: 200 }
    );
    assert_eq!(actuator.state(), ActuatorState::Driving(Start));
    assert_eq!(
        actuator.step(&config, &mut queue),
        ActuatorAction::Release { line: 10, settle_ms: 75 }
    );
    assert_eq!(actuator.state(), ActuatorState::Settling(Start));
    assert_eq!(actuator.step(&config, &mut queue), ActuatorAction::Wait);
    assert_eq!(actuator.state(), ActuatorState::Idle);
    assert_eq!(actuator.step(&config, &mut queue), ActuatorAction::Drive { line: 6, hold_ms: 200 });
    assert_eq!(queue.try_dequeue(), None);
}

#[test]
fn a_pulse_under_way_takes_nothing_from_the_queue() {
    let config = Config::default();
    let mut actuator = Actuator::new();
    let mut queue = EventQueue::new();
    queue.try_enqueue(A);
    queue.try_enqueue(B);
    actuator.step(&config, &mut queue);
    actuator.step(&config, &mut queue);
    actuator.step(&config, &mut queue);
    assert_eq!(queue.try_dequeue(), Some(B));
}

#[test]
fn pulses_never_overlap() {
    let config = Config::default();
    let mut actuator = Actuator::new();
    let mut queue = EventQueue::new();
    let mut seen = Vec::new();
    queue.try_enqueue_all(&[A, Right, Right, Start, Down]);
    drain(&mut actuator, &config, &mut queue, &mut seen);
    let mut expected = Vec::new();
    for event in [A, Right, Right, Start, Down] {
        expected.extend(pulse(event, &config));
    }
    assert_eq!(seen, expected);
}

#[test]
fn a_listener_starts_without_a_connection() {
    let config = Config::default();
    let listener = Listener::new(config);
    assert_eq!(listener.state(), ListenerState::Listening);
    assert_eq!(listener.action(), ListenerAction::Prepare { idle_timeout_secs: 10 });
    assert_eq!(listener.config(), config);
    assert_eq!(listener.cursor(), Key::N1);
    assert!(!listener.indicator());
}

#[test]
fn a_connection_runs_from_accept_to_close() {
    let mut listener = Listener::new(Config::default());
    assert_eq!(listener.step(ListenerEvent::Ready), ListenerAction::Accept { port: 1234 });
    assert_eq!(listener.state(), ListenerState::Accepting);
    assert!(!listener.indicator());
    assert_eq!(listener.step(ListenerEvent::Accepted), ListenerAction::Read);
    assert_eq!(listener.state(), ListenerState::Connected);
    assert!(listener.indicator());
    assert_eq!(listener.step(ListenerEvent::ReadFailed), ListenerAction::Close);
    assert_eq!(listener.state(), ListenerState::Closing);
    assert!(listener.indicator());
    assert_eq!(
        listener.step(ListenerEvent::Closed),
        ListenerAction::Prepare { idle_timeout_secs: 10 }
    );
    assert_eq!(listener.state(), ListenerState::Listening);
    assert!(!listener.indicator());
}

#[test]
fn a_failed_accept_goes_back_to_listening() {
    let mut listener = Listener::new(Config::default());
    listener.step(ListenerEvent::Ready);
    assert_eq!(
        listener.step(ListenerEvent::AcceptFailed),
        ListenerAction::Prepare { idle_timeout_secs: 10 }
    );
    assert_eq!(listener.state(), ListenerState::Listening);
    assert_eq!(listener.step(ListenerEvent::Ready), ListenerAction::Accept { port: 1234 });
}

#[test]
fn a_failed_write_closes_the_connection() {
    let mut listener = connected(Config { close_after_ack: false, ..Config::default() });
    let outcome = listener.on_read(&[1, b'w']);
    assert!(outcome.acknowledge);
    assert_eq!(listener.state(), ListenerState::Connected);
    assert_eq!(listener.step(ListenerEvent::WriteFailed), ListenerAction::Close);
    assert_eq!(listener.state(), ListenerState::Closing);
}

#[test]
fn events_out_of_place_change_nothing() {
    let mut listener = Listener::new(Config::default());
    for event in [
        ListenerEvent::Accepted,
        ListenerEvent::AcceptFailed,
        ListenerEvent::ReadFailed,
        ListenerEvent::IdleTimeout,
        ListenerEvent::WriteFailed,
        ListenerEvent::Closed,
    ] {
        assert_eq!(listener.step(event), ListenerAction::Prepare { idle_timeout_secs: 10 });
        assert_eq!(listener.state(), ListenerState::Listening);
    }
    let mut listener = connected(Config::default());
    for event in [
        ListenerEvent::Ready,
        ListenerEvent::Accepted,
        ListenerEvent::AcceptFailed,
        ListenerEvent::Closed,
    ] {
        assert_eq!(listener.step(event), ListenerAction::Read);
        assert_eq!(listener.state(), ListenerState::Connected);
    }
}

#[test]
fn bytes_outside_a_connection_amount_to_nothing() {
    let mut listener = Listener::new(Config::default());
    assert_eq!(listener.on_read(&[0, b'q', b'\n']), ReadOutcome::idle());
    assert_eq!(listener.state(), ListenerState::Listening);
    listener.step(ListenerEvent::Ready);
    assert_eq!(listener.on_read(&[1, b'w']), ReadOutcome::idle());
    assert_eq!(listener.state(), ListenerState::Accepting);
    assert_eq!(listener.cursor(), Key::N1);
}

#[test]
fn an_idle_connection_is_closed_without_further_events() {
    let mut listener = connected(Config::default());
    assert_eq!(listener.step(ListenerEvent::IdleTimeout), ListenerAction::Close);
    assert_eq!(listener.state(), ListenerState::Closing);
    assert_eq!(listener.on_read(&[0, b'q', b'a', b'\n']), ReadOutcome::idle());
    assert_eq!(listener.on_read(&[1, b'w']), ReadOutcome::idle());
    assert_eq!(listener.state(), ListenerState::Closing);
    assert_eq!(
        listener.step(ListenerEvent::Closed),
        ListenerAction::Prepare { idle_timeout_secs: 10 }
    );
}

#[test]
fn an_empty_read_keeps_the_connection() {
    let mut listener = connected(Config::default());
    assert_eq!(listener.on_read(&[]), ReadOutcome::idle());
    assert_eq!(listener.state(), ListenerState::Connected);
    assert_eq!(listener.action(), ListenerAction::Read);
}

#[test]
fn every_connection_starts_on_the_first_key() {
    let mut listener = connected(Config::default());
    listener.on_read(&[0, b'm']);
    assert_eq!(listener.cursor(), Key::M);
    listener.step(ListenerEvent::ReadFailed);
    listener.step(ListenerEvent::Closed);
    listener.step(ListenerEvent::Ready);
    listener.step(ListenerEvent::Accepted);
    assert_eq!(listener.cursor(), Key::N1);
    assert_eq!(listener.on_read(&[0, b'q']).events, vec![Right, A]);
}

#[test]
fn an_open_connection_keeps_its_cursor_between_reads() {
    let mut listener = connected(Config { close_after_ack: false, ..Config::default() });
    assert_eq!(listener.on_read(&[0, b'q', b'\n']).events, vec![Right, A]);
    assert_eq!(listener.state(), ListenerState::Connected);
    assert_eq!(listener.on_read(&[0, b'a', b'\n']).events, vec![Right, A]);
    assert_eq!(listener.cursor(), Key::A);
}

#[test]
fn matrix_mode_end_to_end() {
    let config = Config::default();
    let mut listener = connected(config);
    let mut actuator = Actuator::new();
    let mut queue = EventQueue::new();
    let seen = serve(&mut listener, &mut actuator, &mut queue, &[0x00, b'q', b'a', b'\n']);
    let mut expected = Vec::new();
    for event in [Right, A, Right, A] {
        expected.extend(pulse(event, &config));
    }
    expected.push(Seen::Wrote(b"OK\n".to_vec()));
    expected.push(Seen::Closed);
    assert_eq!(seen, expected);
    assert_eq!(listener.cursor(), Key::A);
    assert_eq!(listener.state(), ListenerState::Listening);
}

#[test]
fn direct_mode_end_to_end() {
    let config = Config { hold_ms: 120, ..Config::default() };
    let mut listener = connected(config);
    let mut actuator = Actuator::new();
    let mut queue = EventQueue::new();
    let seen = serve(&mut listener, &mut actuator, &mut queue, &[config.direct_selector, b'w']);
    assert_eq!(
        seen,
        vec![
            Seen::High(Up.line()),
            Seen::Slept(120),
            Seen::Low(Up.line()),
            Seen::Slept(50),
            Seen::Wrote(b"OK\n".to_vec()),
            Seen::Closed,
        ]
    );
}

#[test]
fn a_long_read_goes_through_the_queue_in_order() {
    let config = Config::default();
    let mut listener = connected(config);
    let mut actuator = Actuator::new();
    let mut queue = EventQueue::new();
    let seen = serve(&mut listener, &mut actuator, &mut queue, &[0x00, b'0', b'z', b'p', b'\n']);
    let mut events = vec![A];
    events.extend(vec![Right; 3]);
    events.extend(vec![Down; 9]);
    events.push(A);
    events.extend(vec![Left; 2]);
    events.push(A);
    assert!(events.len() > QUEUE_CAPACITY);
    let mut expected = Vec::new();
    for event in events {
        expected.extend(pulse(event, &config));
    }
    expected.push(Seen::Wrote(b"OK\n".to_vec()));
    expected.push(Seen::Closed);
    assert_eq!(seen, expected);
}
