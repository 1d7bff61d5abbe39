use std::sync::mpsc::channel;

use bldc_monitor::{dispatch, project, MotorStatus, PlotBuffer, PlotType};

fn sample(t: u64, angle: f32, velocity: f32, torque: f32) -> MotorStatus<f32> {
    MotorStatus { timestamp_us: t, angle, velocity, torque }
}

fn armed(p: PlotType) -> PlotBuffer<f32> {
    let mut b = PlotBuffer::new();
    b.select(p);
    b.toggle_capture();
    b
}

#[test]
fn new_buffer_plots_angle_disarmed_and_empty() {
    let b: PlotBuffer<f32> = PlotBuffer::new();
    assert_eq!(b.plot_type(), PlotType::Angle);
    assert!(!b.is_plotting());
    assert!(b.points().is_empty());
}

#[test]
fn projection_selects_each_reading() {
    let s = sample(1, 0.1, -0.3, 0.9);
    assert_eq!(project(&s, PlotType::Angle), 0.1);
    assert_eq!(project(&s, PlotType::Velocity), -0.3);
    assert_eq!(project(&s, PlotType::Torque), 0.9);
}

#[test]
fn torque_sample_gives_exactly_its_pair() {
    let mut b = armed(PlotType::Torque);
    b.ingest(&vec![sample(2_500_000, 0.1, -0.3, 0.9)]);
    assert_eq!(b.points(), &vec![(2_500_000u64, 0.9f32)]);
}

#[test]
fn armed_buffer_appends_in_arrival_order() {
    let mut b = armed(PlotType::Velocity);
    b.ingest(&vec![sample(1000, 1.0, 2.0, 3.0), sample(2000, 4.0, 5.0, 6.0)]);
    b.ingest(&vec![sample(3000, 7.0, 8.0, 9.0)]);
    assert_eq!(b.points(), &vec![(1000u64, 2.0f32), (2000, 5.0), (3000, 8.0)]);
}

#[test]
fn switching_reading_empties_the_buffer() {
    let mut b = armed(PlotType::Angle);
    b.ingest(&vec![sample(1000, 1.0, 2.0, 3.0), sample(2000, 4.0, 5.0, 6.0)]);
    assert_eq!(b.points().len(), 2);
    b.select(PlotType::Velocity);
    assert!(b.points().is_empty());
    assert_eq!(b.plot_type(), PlotType::Velocity);
    b.ingest(&vec![sample(3000, 7.0, 8.0, 9.0)]);
    assert_eq!(b.points(), &vec![(3000u64, 8.0f32)]);
}

#[test]
fn selecting_the_same_reading_keeps_the_buffer() {
    let mut b = armed(PlotType::Torque);
    b.ingest(&vec![sample(1000, 1.0, 2.0, 3.0)]);
    b.select(PlotType::Torque);
    assert_eq!(b.points(), &vec![(1000u64, 3.0f32)]);
}

#[test]
fn disarm_keeps_points_and_rearm_empties_them() {
    let mut b = armed(PlotType::Angle);
    b.ingest(&vec![sample(1000, 1.0, 2.0, 3.0), sample(2000, 4.0, 5.0, 6.0), sample(3000, 7.0, 8.0, 9.0)]);
    b.toggle_capture();
    assert!(!b.is_plotting());
    assert_eq!(b.points().len(), 3);
    b.toggle_capture();
    assert!(b.is_plotting());
    assert!(b.points().is_empty());
}

#[test]
fn disarmed_buffer_discards_drained_samples() {
    let (tx, rx) = channel::<MotorStatus<f32>>();
    for i in 0..100u64 {
        assert!(dispatch(&tx, sample(i * 1000, 1.0, 2.0, 3.0)).is_ok());
    }
    let mut b: PlotBuffer<f32> = PlotBuffer::new();
    let drained: Vec<MotorStatus<f32>> = rx.try_iter().collect();
    assert_eq!(drained.len(), 100);
    b.ingest(&drained);
    assert_eq!(b.points().len(), 0);
    assert!(rx.try_recv().is_err());
}

#[test]
fn draining_an_empty_channel_returns_at_once() {
    let (_tx, rx) = channel::<MotorStatus<f32>>();
    let mut b = armed(PlotType::Angle);
    let start = std::time::Instant::now();
    let drained: Vec<MotorStatus<f32>> = rx.try_iter().collect();
    b.ingest(&drained);
    assert!(start.elapsed() < std::time::Duration::from_millis(100));
    assert!(b.points().is_empty());
}

#[test]
fn captured_points_follow_stream_time_order() {
    let mut b = armed(PlotType::Angle);
    b.ingest(&vec![sample(10, 0.0, 0.0, 0.0), sample(20, 0.5, 0.0, 0.0)]);
    b.ingest(&vec![sample(30, 0.25, 0.0, 0.0)]);
    let times: Vec<u64> = b.points().iter().map(|p| p.0).collect();
    assert_eq!(times, vec![10, 20, 30]);
}
