//! Classification of the provider's textual channel metadata.

use vstd::prelude::*;
use crate::error::{IOReportError, IOReportErrorView};
use crate::text::{is_prefix_of, starts_with, text_eq};

verus! {

/// Provider-defined category of a channel.
#[derive(Debug, Clone, PartialEq, Eq)]
pub enum IOReportChannelGroup {
    EnergyModel,
    CPUStats,
    GPUStats,
    SoCStats,
    /// A group that a caller names without it taking part in aggregation.
    Other(String),
    /// A group name that classification does not recognize.
    Unknown(String),
}

/// Mathematical value of an [`IOReportChannelGroup`].
pub enum ChannelGroupView {
    EnergyModel,
    CPUStats,
    GPUStats,
    SoCStats,
    Other(Seq<char>),
    Unknown(Seq<char>),
}

impl View for IOReportChannelGroup {
    type V = ChannelGroupView;

    open spec fn view(&self) -> ChannelGroupView {
        match self {
            IOReportChannelGroup::EnergyModel => ChannelGroupView::EnergyModel,
            IOReportChannelGroup::CPUStats => ChannelGroupView::CPUStats,
            IOReportChannelGroup::GPUStats => ChannelGroupView::GPUStats,
            IOReportChannelGroup::SoCStats => ChannelGroupView::SoCStats,
            IOReportChannelGroup::Other(name) => ChannelGroupView::Other(name@),
            IOReportChannelGroup::Unknown(name) => ChannelGroupView::Unknown(name@),
        }
    }
}

/// The group that a group name denotes; a name outside the known set is kept
/// in the `Unknown` arm.
pub open spec fn group_of_name(name: Seq<char>) -> ChannelGroupView {
    if name == "Energy Model"@ {
        ChannelGroupView::EnergyModel
    } else if name == "CPU Stats"@ {
        ChannelGroupView::CPUStats
    } else if name == "GPU Stats"@ {
        ChannelGroupView::GPUStats
    } else if name == "SoC Stats"@ {
        ChannelGroupView::SoCStats
    } else {
        ChannelGroupView::Unknown(name)
    }
}

impl vstd::std_specs::convert::FromSpecImpl<String> for IOReportChannelGroup {
    open spec fn obeys_from_spec() -> bool {
        true
    }

    open spec fn from_spec(name: String) -> IOReportChannelGroup {
        if name@ == "Energy Model"@ {
            IOReportChannelGroup::EnergyModel
        } else if name@ == "CPU Stats"@ {
            IOReportChannelGroup::CPUStats
        } else if name@ == "GPU Stats"@ {
            IOReportChannelGroup::GPUStats
        } else if name@ == "SoC Stats"@ {
            IOReportChannelGroup::SoCStats
        } else {
            IOReportChannelGroup::Unknown(name)
        }
    }
}

impl From<String> for IOReportChannelGroup {
    /// Classifies a group name. Never fails: an unrecognized name comes back
    /// as `Unknown` with the name inside.
    fn from(name: String) -> (group: IOReportChannelGroup)
        ensures
            group@ == group_of_name(name@),
    {
        if text_eq(name.as_str(), "Energy Model") {
            IOReportChannelGroup::EnergyModel
        } else if text_eq(name.as_str(), "CPU Stats") {
            IOReportChannelGroup::CPUStats
        } else if text_eq(name.as_str(), "GPU Stats") {
            IOReportChannelGroup::GPUStats
        } else if text_eq(name.as_str(), "SoC Stats") {
            IOReportChannelGroup::SoCStats
        } else {
            IOReportChannelGroup::Unknown(name)
        }
    }
}

/// Hardware component that an energy channel reports on.
#[derive(Debug, Clone, PartialEq, Eq)]
pub enum IOReportChannel {
    CPUEnergy,
    GPUEnergy,
    ANE,
    /// A channel name that classification does not recognize.
    Unknown(String),
}

/// Mathematical value of an [`IOReportChannel`].
pub enum ChannelView {
    CPUEnergy,
    GPUEnergy,
    ANE,
    Unknown(Seq<char>),
}

impl View for IOReportChannel {
    type V = ChannelView;

    open spec fn view(&self) -> ChannelView {
        match self {
            IOReportChannel::CPUEnergy => ChannelView::CPUEnergy,
            IOReportChannel::GPUEnergy => ChannelView::GPUEnergy,
            IOReportChannel::ANE => ChannelView::ANE,
            IOReportChannel::Unknown(name) => ChannelView::Unknown(name@),
        }
    }
}

/// Whether a channel name is one that classification recognizes.
pub open spec fn is_known_channel(name: Seq<char>) -> bool {
    name == "CPU Energy"@ || name == "GPU Energy"@ || is_prefix_of("ANE"@, name)
}

/// The channel that a channel name denotes. Every name that begins with
/// `ANE` is a neural-engine channel; a name outside the known set is kept in
/// the `Unknown` arm.
pub open spec fn channel_of_name(name: Seq<char>) -> ChannelView {
    if name == "CPU Energy"@ {
        ChannelView::CPUEnergy
    } else if name == "GPU Energy"@ {
        ChannelView::GPUEnergy
    } else if is_prefix_of("ANE"@, name) {
        ChannelView::ANE
    } else {
        ChannelView::Unknown(name)
    }
}

impl vstd::std_specs::convert::FromSpecImpl<String> for IOReportChannel {
    open spec fn obeys_from_spec() -> bool {
        true
    }

    open spec fn from_spec(name: String) -> IOReportChannel {
        if name@ == "CPU Energy"@ {
            IOReportChannel::CPUEnergy
        } else if name@ == "GPU Energy"@ {
            IOReportChannel::GPUEnergy
        } else if is_prefix_of("ANE"@, name@) {
            IOReportChannel::ANE
        } else {
            IOReportChannel::Unknown(name)
        }
    }
}

impl From<String> for IOReportChannel {
    /// Classifies a channel name. Never fails: an unrecognized name comes
    /// back as `Unknown` with the name inside.
    fn from(name: String) -> (channel: IOReportChannel)
        ensures
            channel@ == channel_of_name(name@),
    {
        if text_eq(name.as_str(), "CPU Energy") {
            IOReportChannel::CPUEnergy
        } else if text_eq(name.as_str(), "GPU Energy") {
            IOReportChannel::GPUEnergy
        } else if starts_with(name.as_str(), "ANE") {
            IOReportChannel::ANE
        } else {
            IOReportChannel::Unknown(name)
        }
    }
}

impl IOReportChannel {
    /// The display name of the channel; every unrecognized channel shows as
    /// `Unknown`.
    pub fn as_str(&self) -> (text: &str)
        ensures
            text@ == match self@ {
                ChannelView::CPUEnergy => "CPU Energy"@,
                ChannelView::GPUEnergy => "GPU Energy"@,
                ChannelView::ANE => "ANE"@,
                ChannelView::Unknown(_) => "Unknown"@,
            },
    {
        match self {
            IOReportChannel::CPUEnergy => "CPU Energy",
            IOReportChannel::GPUEnergy => "GPU Energy",
            IOReportChannel::ANE => "ANE",
            IOReportChannel::Unknown(_) => "Unknown",
        }
    }
}

/// A processing unit of the platform.
#[derive(Debug, Clone, Copy, PartialEq, Eq, Structural)]
pub enum ComputeUnit {
    CPU,
    GPU,
    ANE,
}

/// The compute unit that a name denotes, if it is one of `CPU`, `GPU`, `ANE`.
pub open spec fn compute_unit_of_name(name: Seq<char>) -> Option<ComputeUnit> {
    if name == "CPU"@ {
        Some(ComputeUnit::CPU)
    } else if name == "GPU"@ {
        Some(ComputeUnit::GPU)
    } else if name == "ANE"@ {
        Some(ComputeUnit::ANE)
    } else {
        None
    }
}

impl ComputeUnit {
    /// The name of the unit.
    pub fn as_str(&self) -> (text: &str)
        ensures
            text@ == match *self {
                ComputeUnit::CPU => "CPU"@,
                ComputeUnit::GPU => "GPU"@,
                ComputeUnit::ANE => "ANE"@,
            },
            compute_unit_of_name(text@) == Some(*self),
    {
        proof {
            reveal_strlit("CPU");
            reveal_strlit("GPU");
            reveal_strlit("ANE");
            assert("GPU"@[0] != "CPU"@[0]);
            assert("ANE"@[0] != "CPU"@[0]);
            assert("ANE"@[0] != "GPU"@[0]);
        }
        match self {
            ComputeUnit::CPU => "CPU",
            ComputeUnit::GPU => "GPU",
            ComputeUnit::ANE => "ANE",
        }
    }

    /// Parses the name of a unit. Exactly `CPU`, `GPU` and `ANE` are names;
    /// any other text is handed back inside `InvalidEnergyUnit`.
    pub fn try_from(value: &str) -> (parsed: Result<ComputeUnit, IOReportError>)
        ensures
            match compute_unit_of_name(value@) {
                Some(unit) => parsed == Ok::<ComputeUnit, IOReportError>(unit),
                None => parsed is Err && parsed->Err_0@ == IOReportErrorView::InvalidEnergyUnit(
                    value@,
                ),
            },
    {
        if text_eq(value, "CPU") {
            Ok(ComputeUnit::CPU)
        } else if text_eq(value, "GPU") {
            Ok(ComputeUnit::GPU)
        } else if text_eq(value, "ANE") {
            Ok(ComputeUnit::ANE)
        } else {
            Err(IOReportError::InvalidEnergyUnit(value.to_owned()))
        }
    }
}

/// A request for the channels of one group, optionally narrowed to a subgroup.
#[derive(Debug, Clone, PartialEq, Eq)]
pub struct IOReportChannelRequest {
    pub group: String,
    pub subgroup: Option<String>,
}

impl IOReportChannelRequest {
    /// A request for `group`, narrowed to `subgroup` where one is given.
    pub fn new(group: &str, subgroup: Option<&str>) -> (request: IOReportChannelRequest)
        ensures
            request.group@ == group@,
            match subgroup {
                Some(name) => request.subgroup is Some && request.subgroup->Some_0@ == name@,
                None => request.subgroup is None,
            },
    {
        let subgroup = match subgroup {
            Some(name) => Some(name.to_owned()),
            None => None,
        };
        IOReportChannelRequest { group: group.to_owned(), subgroup }
    }
}

} // verus!
