//! Energy accumulated per hardware component over one polling window.

use vstd::prelude::*;
use crate::channel::{ChannelGroupView, ChannelView, ComputeUnit, IOReportChannel, IOReportChannelGroup};
use crate::report::{IOReportIteratorItem, IOReportIteratorItemView, IOReportSample, RawChannelEntryView};
use crate::units::{floored_ms, unit_of_label, EnergyUnit};

verus! {

/// The component whose energy a channel reports, if the channel is a known
/// energy channel.
pub open spec fn component_of(channel: ChannelView) -> Option<ComputeUnit> {
    match channel {
        ChannelView::CPUEnergy => Some(ComputeUnit::CPU),
        ChannelView::GPUEnergy => Some(ComputeUnit::GPU),
        ChannelView::ANE => Some(ComputeUnit::ANE),
        ChannelView::Unknown(_) => None,
    }
}

impl IOReportIteratorItemView {
    /// What an entry adds to a window: a component and whole millijoules.
    /// Only entries of the energy-model group with a known channel and a
    /// known unit add anything.
    pub open spec fn contribution(self) -> Option<(ComputeUnit, nat)> {
        if self.group == ChannelGroupView::EnergyModel {
            match (component_of(self.channel), unit_of_label(self.unit)) {
                (Some(component), Some(unit)) => Some((component, unit.millijoules(self.value))),
                _ => None,
            }
        } else {
            None
        }
    }

    /// Millijoules that an entry adds to `component`.
    pub open spec fn energy_for(self, component: ComputeUnit) -> nat {
        match self.contribution() {
            Some((target, energy)) => if target == component {
                energy
            } else {
                0
            },
            None => 0,
        }
    }
}

/// Millijoules that the entries of a window add up to for `component`: each
/// entry is classified, and every matching entry counts.
pub open spec fn window_energy(entries: Seq<RawChannelEntryView>, component: ComputeUnit) -> nat
    decreases entries.len(),
{
    if entries.len() == 0 {
        0
    } else {
        window_energy(entries.drop_last(), component) + entries.last().classified().energy_for(
            component,
        )
    }
}

impl IOReportIteratorItem {
    /// What this entry adds to a window, if anything: the component and the
    /// energy in whole millijoules.
    pub fn energy(&self) -> (added: Option<(ComputeUnit, u128)>)
        ensures
            match self@.contribution() {
                Some((component, energy)) => added == Some((component, energy as u128)),
                None => added is None,
            },
            added is Some ==> added->Some_0.1 <= i64::MAX,
    {
        match self.group {
            IOReportChannelGroup::EnergyModel => {},
            _ => {
                return None;
            },
        }
        let component = match self.channel {
            IOReportChannel::CPUEnergy => ComputeUnit::CPU,
            IOReportChannel::GPUEnergy => ComputeUnit::GPU,
            IOReportChannel::ANE => ComputeUnit::ANE,
            IOReportChannel::Unknown(_) => {
                return None;
            },
        };
        match EnergyUnit::try_from(self.unit.as_str()) {
            Ok(unit) => Some((component, unit.to_millijoules(self.value))),
            Err(_) => None,
        }
    }
}

/// Energy drawn by each component during one polling window.
#[derive(Debug, Clone, Copy, PartialEq, Eq)]
pub struct EnergySample {
    cpu_energy: u128,
    gpu_energy: u128,
    ane_energy: u128,
    duration: u64,
}

/// Mathematical value of an [`EnergySample`]: millijoules per component and
/// the milliseconds that the window spans.
pub struct EnergySampleView {
    pub cpu_energy: nat,
    pub gpu_energy: nat,
    pub ane_energy: nat,
    pub duration: nat,
}

impl EnergySampleView {
    /// Millijoules that the sample holds for `component`.
    pub open spec fn energy(self, component: ComputeUnit) -> nat {
        match component {
            ComputeUnit::CPU => self.cpu_energy,
            ComputeUnit::GPU => self.gpu_energy,
            ComputeUnit::ANE => self.ane_energy,
        }
    }

    /// Whether the sample could be held by an `EnergySample`.
    pub open spec fn valid(self) -> bool {
        &&& self.cpu_energy <= u128::MAX
        &&& self.gpu_energy <= u128::MAX
        &&& self.ane_energy <= u128::MAX
        &&& 1 <= self.duration <= u64::MAX
    }
}

/// The sample that a window of `entries` spanning `duration` milliseconds
/// amounts to.
pub open spec fn sample_of_window(entries: Seq<RawChannelEntryView>, duration: nat) -> EnergySampleView {
    EnergySampleView {
        cpu_energy: window_energy(entries, ComputeUnit::CPU),
        gpu_energy: window_energy(entries, ComputeUnit::GPU),
        ane_energy: window_energy(entries, ComputeUnit::ANE),
        duration,
    }
}

impl View for EnergySample {
    type V = EnergySampleView;

    closed spec fn view(&self) -> EnergySampleView {
        EnergySampleView {
            cpu_energy: self.cpu_energy as nat,
            gpu_energy: self.gpu_energy as nat,
            ane_energy: self.ane_energy as nat,
            duration: self.duration as nat,
        }
    }
}

/// Whether every one of `samples` is valid.
pub open spec fn all_valid(samples: Seq<EnergySampleView>) -> bool {
    forall|i: int| 0 <= i < samples.len() ==> (#[trigger] samples[i]).valid()
}

/// The values of a run of samples, in order.
pub open spec fn sample_views(samples: Seq<EnergySample>) -> Seq<EnergySampleView> {
    Seq::new(samples.len(), |i: int| samples[i]@)
}

impl EnergySample {
    #[verifier::type_invariant]
    spec fn well_formed(&self) -> bool {
        self.duration >= 1
    }

    /// A sample with the given millijoules per component over `duration`
    /// milliseconds, floored at one.
    pub fn new(cpu_energy: u128, gpu_energy: u128, ane_energy: u128, duration: u64) -> (sample:
        EnergySample)
        ensures
            sample@ == (EnergySampleView {
                cpu_energy: cpu_energy as nat,
                gpu_energy: gpu_energy as nat,
                ane_energy: ane_energy as nat,
                duration: floored_ms(duration as int),
            }),
            sample@.valid(),
    {
        let duration: u64 = if duration < 1 {
            1
        } else {
            duration
        };
        EnergySample { cpu_energy, gpu_energy, ane_energy, duration }
    }

    /// Millijoules drawn by the CPU.
    pub fn cpu_energy(&self) -> (energy: u128)
        ensures
            energy == self@.cpu_energy,
    {
        self.cpu_energy
    }

    /// Millijoules drawn by the GPU.
    pub fn gpu_energy(&self) -> (energy: u128)
        ensures
            energy == self@.gpu_energy,
    {
        self.gpu_energy
    }

    /// Millijoules drawn by the neural engine.
    pub fn ane_energy(&self) -> (energy: u128)
        ensures
            energy == self@.ane_energy,
    {
        self.ane_energy
    }

    /// Millijoules drawn by `component`.
    pub fn energy(&self, component: ComputeUnit) -> (energy: u128)
        ensures
            energy == self@.energy(component),
    {
        match component {
            ComputeUnit::CPU => self.cpu_energy,
            ComputeUnit::GPU => self.gpu_energy,
            ComputeUnit::ANE => self.ane_energy,
        }
    }

    /// Milliseconds that the window spans; at least one.
    pub fn duration(&self) -> (millis: u64)
        ensures
            millis == self@.duration,
            millis >= 1,
            self@.valid(),
    {
        proof {
            use_type_invariant(self);
        }
        self.duration
    }

    /// Sums the entries that a delta has still to yield into one sample:
    /// every energy-model entry adds its millijoules to its component, every
    /// other entry is passed over. The sample spans what the delta spans.
    pub fn from_sample(sample: IOReportSample) -> (energy: EnergySample)
        ensures
            energy@ == sample_of_window(sample.spec_iterator().remaining(), sample.spec_duration()),
            energy@.valid(),
    {
        let duration = sample.duration();
        let mut pass = sample.into_iterator();
        let ghost all = pass.entries();
        let ghost start = pass.position() as int;
        let mut cpu: u128 = 0;
        let mut gpu: u128 = 0;
        let mut ane: u128 = 0;
        let total = pass.len();
        proof {
            assert(all.subrange(start, start) =~= Seq::<RawChannelEntryView>::empty());
        }
        loop
            invariant_except_break
                pass.entries() == all,
                total == all.len(),
                0 <= start <= pass.position() <= all.len(),
                cpu == window_energy(all.subrange(start, pass.position() as int), ComputeUnit::CPU),
                gpu == window_energy(all.subrange(start, pass.position() as int), ComputeUnit::GPU),
                ane == window_energy(all.subrange(start, pass.position() as int), ComputeUnit::ANE),
                cpu <= (pass.position() - start) * i64::MAX,
                gpu <= (pass.position() - start) * i64::MAX,
                ane <= (pass.position() - start) * i64::MAX,
            ensures
                cpu == window_energy(all.subrange(start, all.len() as int), ComputeUnit::CPU),
                gpu == window_energy(all.subrange(start, all.len() as int), ComputeUnit::GPU),
                ane == window_energy(all.subrange(start, all.len() as int), ComputeUnit::ANE),
            decreases all.len() - pass.position(),
        {
            let ghost before = pass.position() as int;
            let next = pass.next();
            match next {
                None => {
                    break ;
                },
                Some(item) => {
                    proof {
                        let seen = all.subrange(start, before + 1);
                        assert(seen.drop_last() =~= all.subrange(start, before));
                        assert(seen.last() == all[before]);
                        assert((before - start) * i64::MAX + i64::MAX == (before + 1 - start)
                            * i64::MAX) by (nonlinear_arith);
                        assert((before + 1 - start) * i64::MAX <= usize::MAX * i64::MAX)
                            by (nonlinear_arith)
                            requires
                                0 <= before + 1 - start <= usize::MAX,
                        ;
                    }
                    match item.energy() {
                        Some((ComputeUnit::CPU, added)) => {
                            cpu = cpu + added;
                        },
                        Some((ComputeUnit::GPU, added)) => {
                            gpu = gpu + added;
                        },
                        Some((ComputeUnit::ANE, added)) => {
                            ane = ane + added;
                        },
                        None => {},
                    }
                },
            }
        }
        EnergySample { cpu_energy: cpu, gpu_energy: gpu, ane_energy: ane, duration }
    }
}

/// The windows' entries count one by one: what two runs of entries add up to
/// together is the sum of what each adds up to.
pub proof fn lemma_window_energy_is_additive(
    first: Seq<RawChannelEntryView>,
    second: Seq<RawChannelEntryView>,
    component: ComputeUnit,
)
    ensures
        window_energy(first + second, component) == window_energy(first, component)
            + window_energy(second, component),
    decreases second.len(),
{
    if second.len() == 0 {
        assert(first + second =~= first);
    } else {
        assert((first + second).drop_last() =~= first + second.drop_last());
        assert((first + second).last() == second.last());
        lemma_window_energy_is_additive(first, second.drop_last(), component);
    }
}

/// An entry whose channel name is not recognized is tagged `Unknown` and adds
/// nothing to any component: wherever it stands among the entries of a
/// window, the window's totals are the same with and without it.
pub proof fn lemma_unknown_channel_adds_nothing(
    entries: Seq<RawChannelEntryView>,
    at: int,
    entry: RawChannelEntryView,
    component: ComputeUnit,
)
    requires
        0 <= at <= entries.len(),
        !crate::channel::is_known_channel(entry.channel_name),
    ensures
        entry.classified().channel == ChannelView::Unknown(entry.channel_name),
        entry.classified().energy_for(component) == 0,
        window_energy(entries.insert(at, entry), component) == window_energy(entries, component),
{
    let before = entries.subrange(0, at);
    let after = entries.subrange(at, entries.len() as int);
    let alone = Seq::<RawChannelEntryView>::empty().push(entry);
    assert(entries.insert(at, entry) =~= (before + alone) + after);
    assert(entries =~= before + after);
    assert(window_energy(alone, component) == 0) by {
        assert(alone.drop_last() =~= Seq::<RawChannelEntryView>::empty());
        assert(alone.last() == entry);
        assert(window_energy(alone.drop_last(), component) == 0);
    }
    lemma_window_energy_is_additive(before, alone, component);
    lemma_window_energy_is_additive(before + alone, after, component);
    lemma_window_energy_is_additive(before, after, component);
}

} // verus!
