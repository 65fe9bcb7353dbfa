use coffee_level::acquire::{Acquisition, CycleOutcome};
use coffee_level::bridge::FrameBridge;
use coffee_level::clock::Timestamp;
use coffee_level::level::{CoffeeLevel, LevelConfig};

#[test]
fn acquisition_to_presentation_keeps_order_and_audits_everything() {
    let config = LevelConfig { min: 0, max: 100 };
    let mut acq = Acquisition::new(config);
    let mut bridge = FrameBridge::new();

    let readings: [&[u8]; 4] = [b"30\n", b"85\n", b"85\n", b"10\n"];
    let mut produced = Vec::new();
    for (i, reading) in readings.iter().enumerate() {
        let ts = Timestamp {
            month: 10,
            day: 9,
            hour12: 3,
            minute: 5,
            second: 9,
            milli: i as u16,
        };
        match acq.process_at(reading, reading.len(), &ts) {
            CycleOutcome::Sample { weight, level } => {
                produced.push((weight, level));
                bridge.emit(weight);
            }
            other => panic!("expected a sample, got {:?}", other),
        }
    }

    // Every sample was classified by the padding rule.
    let produced_levels: Vec<CoffeeLevel> = produced.iter().map(|s| s.1).collect();
    assert_eq!(
        produced_levels,
        vec![CoffeeLevel::NORMAL, CoffeeLevel::HIGH, CoffeeLevel::HIGH, CoffeeLevel::LOW]
    );

    // The presentation side receives them in production order.
    assert_eq!(bridge.frame_consume(true), 30);
    assert_eq!(bridge.frame_consume(true), 85);
    assert_eq!(bridge.frame_consume(true), 85);
    assert_eq!(bridge.frame_consume(true), 10);
    // And keeps the last one once the producer goes quiet.
    assert_eq!(bridge.frame_consume(false), 10);

    // The log holds one record per line, in arrival order.
    assert_eq!(acq.audit_len(), 4);
    assert_eq!(acq.audit_record_at(0), "Oct 9, 3:05:09.000: 30\n");
    assert_eq!(acq.audit_record_at(1), "Oct 9, 3:05:09.001: 85\n");
    assert_eq!(acq.audit_record_at(2), "Oct 9, 3:05:09.002: 85\n");
    assert_eq!(acq.audit_record_at(3), "Oct 9, 3:05:09.003: 10\n");
}
