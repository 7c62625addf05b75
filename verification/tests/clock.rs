//! The tick-barrier protocol on concrete states.
use gbcore::clock::Clock;
use gbcore::clock::FPS;
use gbcore::clock::FREQUENCY;
use gbcore::clock::TICKS_PER_FRAME;

#[test]
fn barrier_waits_for_every_subscriber() {
    let mut c = Clock::new();
    let first = c.syncer();
    let second = c.syncer();
    assert_eq!((first, second), (0, 1));
    assert_eq!(c.syncer_count, 2);

    c.begin_tick();
    assert_eq!(c.ticks, 1);
    assert!(!c.all_acknowledged(), "no subscriber has acknowledged yet");
    c.acknowledge();
    assert!(!c.all_acknowledged(), "one acknowledgment of two is not enough");
    c.acknowledge();
    assert!(c.all_acknowledged());
    c.end_tick();
    assert!(!c.round_open);
}

#[test]
fn subscriber_added_between_ticks_raises_the_requirement() {
    let mut c = Clock::new();
    c.syncer();
    c.begin_tick();
    c.acknowledge();
    assert!(c.all_acknowledged(), "the single subscriber suffices");
    c.end_tick();

    c.syncer();
    c.begin_tick();
    assert_eq!(c.ticks, 2);
    c.acknowledge();
    assert!(!c.all_acknowledged(), "the new subscriber must acknowledge too");
    c.acknowledge();
    assert!(c.all_acknowledged());
    c.end_tick();
}

#[test]
fn pacing_cadence_constants() {
    assert_eq!(FREQUENCY, 4_194_304);
    assert_eq!(FPS, 60);
    assert_eq!(TICKS_PER_FRAME, FREQUENCY / FPS);
    assert!(TICKS_PER_FRAME > 0);
}
