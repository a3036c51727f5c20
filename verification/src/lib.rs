//! Energy and power measurement core for CPU, GPU and neural-engine telemetry.
//!
//! The crate turns windowed counter deltas of a telemetry provider into
//! normalized energy samples and session-level power statistics:
//!
//! * [`channel`] classifies the provider's group and channel names;
//! * [`units`] parses unit labels and normalizes counter readings;
//! * [`report`] holds one windowed delta and the single pass over its entries;
//! * [`sample`] sums the entries of a window into an [`EnergySample`];
//! * [`worker`] is the sampling worker: when it polls, when it stops, and
//!   what it queues for its session;
//! * [`sampler`] is the session: its history and the rule that at most one
//!   worker is active;
//! * [`profile`] derives a [`PowerProfile`] from a session's history.
//!
//! The crate itself never talks to the provider, sleeps, or starts a thread.
//! A driver does: it hands the worker each delta it has read and the session
//! the time and the outcome of opening the provider.

pub mod channel;
pub mod error;
pub mod profile;
pub mod report;
pub mod sample;
pub mod sampler;
pub mod text;
pub mod units;
pub mod worker;

pub use channel::{ComputeUnit, IOReportChannel, IOReportChannelGroup, IOReportChannelRequest};
pub use error::{IOReportError, SamplerError};
pub use profile::PowerProfile;
pub use report::{IOReportIterator, IOReportIteratorItem, IOReportSample, RawChannelEntry};
pub use sample::EnergySample;
pub use sampler::{Sampler, Session, SessionState, StartStopSampler};
pub use units::{read_wattage, EnergyUnit, Wattage};
pub use worker::{SampleManager, SampleWorker, WorkerAction, WorkerState};
