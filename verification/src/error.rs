//! Error conditions of the telemetry core.

use vstd::prelude::*;

verus! {

/// Failures of the telemetry report layer.
#[derive(Debug, Clone, PartialEq, Eq)]
pub enum IOReportError {
    /// The properties of the named registry entry could not be read.
    PropertyError(String),
    /// The requested channel groups yielded no channels.
    ChannelError,
    /// The provider refused to open a subscription.
    SubscriptionError,
    /// A unit label (or compute-unit name) outside the known set.
    InvalidEnergyUnit(String),
}

/// Mathematical value of an [`IOReportError`].
pub enum IOReportErrorView {
    PropertyError(Seq<char>),
    ChannelError,
    SubscriptionError,
    InvalidEnergyUnit(Seq<char>),
}

impl View for IOReportError {
    type V = IOReportErrorView;

    open spec fn view(&self) -> IOReportErrorView {
        match self {
            IOReportError::PropertyError(name) => IOReportErrorView::PropertyError(name@),
            IOReportError::ChannelError => IOReportErrorView::ChannelError,
            IOReportError::SubscriptionError => IOReportErrorView::SubscriptionError,
            IOReportError::InvalidEnergyUnit(label) => IOReportErrorView::InvalidEnergyUnit(label@),
        }
    }
}

impl IOReportErrorView {
    /// The human-readable message of the error.
    pub open spec fn message(self) -> Seq<char> {
        match self {
            IOReportErrorView::PropertyError(name) => "Failed to get properties for "@ + name,
            IOReportErrorView::ChannelError => "Failed to get channels"@,
            IOReportErrorView::SubscriptionError => "Failed to create subscription"@,
            IOReportErrorView::InvalidEnergyUnit(label) => "Invalid energy unit: "@ + label,
        }
    }
}

impl IOReportError {
    /// Renders the error as a message for people.
    pub fn message(&self) -> (text: String)
        ensures
            text@ == self@.message(),
    {
        match self {
            IOReportError::PropertyError(name) => {
                String::from_str("Failed to get properties for ").concat(name.as_str())
            },
            IOReportError::ChannelError => String::from_str("Failed to get channels"),
            IOReportError::SubscriptionError => String::from_str("Failed to create subscription"),
            IOReportError::InvalidEnergyUnit(label) => {
                String::from_str("Invalid energy unit: ").concat(label.as_str())
            },
        }
    }
}

/// Failures of a sampling session's state machine.
#[derive(Debug, Clone, Copy, PartialEq, Eq)]
pub enum SamplerError {
    /// A start was requested while a worker is active.
    AlreadyRunning,
    /// A stop was requested while no worker is active.
    NotRunning,
    /// The provider subscription could not be opened.
    ProviderUnavailable,
    /// The requested channel groups yielded nothing at subscription time.
    EmptyChannelCatalog,
}

impl IOReportErrorView {
    /// The session error that a failure to open the provider amounts to: a
    /// catalog without channels is reported as such, every other failure as
    /// an unavailable provider.
    pub open spec fn at_session_start(self) -> SamplerError {
        match self {
            IOReportErrorView::ChannelError => SamplerError::EmptyChannelCatalog,
            _ => SamplerError::ProviderUnavailable,
        }
    }
}

impl SamplerError {
    /// The session error that a failure to open the provider amounts to.
    pub fn from_report(cause: &IOReportError) -> (error: SamplerError)
        ensures
            error == cause@.at_session_start(),
    {
        match cause {
            IOReportError::ChannelError => SamplerError::EmptyChannelCatalog,
            _ => SamplerError::ProviderUnavailable,
        }
    }

    /// Renders the error as a message for people.
    pub fn message(&self) -> (text: &'static str)
        ensures
            text@ == match *self {
                SamplerError::AlreadyRunning => "Sampling is already in progress"@,
                SamplerError::NotRunning => "No sampling in progress"@,
                SamplerError::ProviderUnavailable => "Failed to create subscription"@,
                SamplerError::EmptyChannelCatalog => "Failed to get channels"@,
            },
    {
        match self {
            SamplerError::AlreadyRunning => "Sampling is already in progress",
            SamplerError::NotRunning => "No sampling in progress",
            SamplerError::ProviderUnavailable => "Failed to create subscription",
            SamplerError::EmptyChannelCatalog => "Failed to get channels",
        }
    }
}

} // verus!
