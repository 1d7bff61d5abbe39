//! Core of a brushless-motor monitor: the telemetry plot buffer, the device
//! worker's per-tick decisions and the command surface.

mod channel;
mod command;
mod telemetry;
mod worker;

pub use channel::{ChannelClosed, dispatch};
pub use command::{MotorCommand, command_line, line_text};
pub use telemetry::{MotorStatus, PlotType, PlotBuffer, PlotView, point_times, points_of, project, projection, sample_times,
    strictly_increasing, lemma_disarmed_discards, lemma_ingest_keeps_time_order, lemma_rearm_clears,
    lemma_switch_clears};
pub use worker::{DEFAULT_PERIOD_US, TickPlan, Worker, lemma_timestamps_increase};
