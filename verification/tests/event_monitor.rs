//! The bounded buffer of observed input events.

use openlogi::binding::ButtonId;
use openlogi::event_monitor::{EventMonitor, CAPACITY};
use openlogi::hook_runtime::MouseEvent;
use openlogi::ipc::MonitorEvent;

#[test]
fn records_only_while_enabled_and_skips_moves() {
    let mut m = EventMonitor::default();
    // Off by default: a press before any poll is not buffered.
    m.record(&MouseEvent::Button {
        id: ButtonId::Back,
        pressed: true,
    });
    assert!(!m.enabled());

    // The first poll enables monitoring and returns nothing buffered yet.
    assert!(m.poll().is_empty());
    assert!(m.enabled());

    // Now events land — except pointer moves, which are dropped.
    m.record(&MouseEvent::Moved {
        delta_x: 5,
        delta_y: 5,
    });
    m.record(&MouseEvent::Button {
        id: ButtonId::Forward,
        pressed: false,
    });
    assert_eq!(
        m.poll(),
        vec![MonitorEvent::Button {
            button: ButtonId::Forward.label().to_string(),
            pressed: false,
        }]
    );
    // Draining leaves the buffer empty.
    assert!(m.poll().is_empty());
}

#[test]
fn bounded_buffer_drops_oldest() {
    let mut m = EventMonitor::default();
    let _ = m.poll(); // enable
    for _ in 0..(CAPACITY + 10) {
        m.record(&MouseEvent::Scroll {
            delta_x_bits: 0.0f32.to_bits(),
            delta_y_bits: 1.0f32.to_bits(),
        });
    }
    assert_eq!(m.poll().len(), CAPACITY, "never grows past the cap");
}

#[test]
fn the_newest_events_survive_in_order() {
    let mut m = EventMonitor::default();
    let _ = m.poll();
    for n in 0..(CAPACITY + 10) {
        m.record(&MouseEvent::Scroll {
            delta_x_bits: n as u32,
            delta_y_bits: 0,
        });
    }
    let events = m.poll();
    assert_eq!(
        events.first(),
        Some(&MonitorEvent::Scroll {
            delta_x_bits: 10,
            delta_y_bits: 0,
        })
    );
    assert_eq!(
        events.last(),
        Some(&MonitorEvent::Scroll {
            delta_x_bits: (CAPACITY + 9) as u32,
            delta_y_bits: 0,
        })
    );
}

#[test]
fn monitoring_stops_when_nobody_polls() {
    let mut m = EventMonitor::default();
    let _ = m.poll();
    m.record(&MouseEvent::CaptureInterrupted);
    m.idle_check();
    assert!(m.enabled(), "there was a poll since the last check");
    m.idle_check();
    assert!(!m.enabled());
    assert!(m.poll().is_empty(), "the buffer was released");
}

#[test]
fn scroll_amounts_are_compared_as_numbers() {
    let scroll = |x: f32, y: f32| MonitorEvent::Scroll {
        delta_x_bits: x.to_bits(),
        delta_y_bits: y.to_bits(),
    };
    let samples = [
        0.0,
        -0.0,
        1.5,
        -1.5,
        f32::MIN_POSITIVE,
        f32::MAX,
        f32::INFINITY,
        f32::NEG_INFINITY,
        f32::NAN,
        -f32::NAN,
    ];
    for a in samples {
        for b in samples {
            assert_eq!(scroll(a, 1.0) == scroll(b, 1.0), a == b, "{a} and {b}");
            assert_eq!(scroll(1.0, a) == scroll(1.0, b), a == b, "{a} and {b}");
        }
    }
}
