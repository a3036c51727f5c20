//! Summary statistics of a session, derived from its samples.

use vstd::prelude::*;
use vstd::arithmetic::div_mod::{lemma_fundamental_div_mod, lemma_fundamental_div_mod_converse};
use crate::channel::ComputeUnit;
use crate::sample::{sample_views, EnergySample, EnergySampleView};
use crate::text::{decimal, push_decimal};

verus! {

/// `n / d` rounded to the nearest whole number, halves upwards.
pub open spec fn rounded_div(n: nat, d: nat) -> nat
    recommends
        d >= 1,
{
    (2 * n + d) / (2 * d)
}

impl EnergySampleView {
    /// Average power of `component` over the sample's window, in rounded
    /// milliwatts: millijoules divided by the seconds that the window spans.
    pub open spec fn power(self, component: ComputeUnit) -> nat {
        rounded_div(self.energy(component) * 1_000, self.duration)
    }
}

/// Millijoules that `component` drew over all of `history`.
pub open spec fn total_energy(history: Seq<EnergySampleView>, component: ComputeUnit) -> nat
    decreases history.len(),
{
    if history.len() == 0 {
        0
    } else {
        total_energy(history.drop_last(), component) + history.last().energy(component)
    }
}

/// Sum of the per-sample average powers of `component`, in milliwatts.
pub open spec fn power_sum(history: Seq<EnergySampleView>, component: ComputeUnit) -> nat
    decreases history.len(),
{
    if history.len() == 0 {
        0
    } else {
        power_sum(history.drop_last(), component) + history.last().power(component)
    }
}

/// Milliseconds that all windows of `history` span together.
pub open spec fn total_duration(history: Seq<EnergySampleView>) -> nat
    decreases history.len(),
{
    if history.len() == 0 {
        0
    } else {
        total_duration(history.drop_last()) + history.last().duration
    }
}

/// Mean of the per-sample average powers of `component`, in rounded
/// milliwatts; zero for an empty history. Each sample weighs the same,
/// however long its window is.
pub open spec fn average_power(history: Seq<EnergySampleView>, component: ComputeUnit) -> nat {
    if history.len() == 0 {
        0
    } else {
        rounded_div(power_sum(history, component), history.len())
    }
}

/// Mathematical value of a [`PowerProfile`]: energies in millijoules, powers
/// in milliwatts, the duration in milliseconds.
pub struct PowerProfileView {
    pub total_cpu_energy: nat,
    pub total_gpu_energy: nat,
    pub total_ane_energy: nat,
    pub total_cpu_power: nat,
    pub total_gpu_power: nat,
    pub total_ane_power: nat,
    pub total_energy: nat,
    pub total_power: nat,
    pub total_duration: nat,
}

impl PowerProfileView {
    /// The profile as text for people, one figure per line.
    pub open spec fn text(self) -> Seq<char> {
        "Total Energy: "@ + decimal(self.total_energy) + " mJ\nTotal Power: "@ + decimal(
            self.total_power,
        ) + " mW\nTotal Duration: "@ + decimal(self.total_duration) + " ms\nCPU Energy: "@
            + decimal(self.total_cpu_energy) + " mJ\nGPU Energy: "@ + decimal(
            self.total_gpu_energy,
        ) + " mJ\nANE Energy: "@ + decimal(self.total_ane_energy) + " mJ\nCPU Power: "@
            + decimal(self.total_cpu_power) + " mW\nGPU Power: "@ + decimal(self.total_gpu_power)
            + " mW\nANE Power: "@ + decimal(self.total_ane_power) + " mW"@
    }

    /// Whether every figure fits the machine type that holds it.
    pub open spec fn representable(self) -> bool {
        &&& self.total_cpu_energy <= u128::MAX
        &&& self.total_gpu_energy <= u128::MAX
        &&& self.total_ane_energy <= u128::MAX
        &&& self.total_cpu_power <= u64::MAX
        &&& self.total_gpu_power <= u64::MAX
        &&& self.total_ane_power <= u64::MAX
        &&& self.total_energy <= u128::MAX
        &&& self.total_power <= u64::MAX
        &&& self.total_duration <= u64::MAX
    }
}

/// The profile of a history: per component the energy summed and the mean of
/// the per-sample average powers, then the sums over the three components,
/// and the summed duration.
pub open spec fn profile_of(history: Seq<EnergySampleView>) -> PowerProfileView {
    PowerProfileView {
        total_cpu_energy: total_energy(history, ComputeUnit::CPU),
        total_gpu_energy: total_energy(history, ComputeUnit::GPU),
        total_ane_energy: total_energy(history, ComputeUnit::ANE),
        total_cpu_power: average_power(history, ComputeUnit::CPU),
        total_gpu_power: average_power(history, ComputeUnit::GPU),
        total_ane_power: average_power(history, ComputeUnit::ANE),
        total_energy: total_energy(history, ComputeUnit::CPU) + total_energy(
            history,
            ComputeUnit::GPU,
        ) + total_energy(history, ComputeUnit::ANE),
        total_power: average_power(history, ComputeUnit::CPU) + average_power(
            history,
            ComputeUnit::GPU,
        ) + average_power(history, ComputeUnit::ANE),
        total_duration: total_duration(history),
    }
}

/// Summary statistics of a session.
#[derive(Debug, Clone, Copy, PartialEq, Eq)]
pub struct PowerProfile {
    total_cpu_energy: u128,
    total_gpu_energy: u128,
    total_ane_energy: u128,
    total_cpu_power: u64,
    total_gpu_power: u64,
    total_ane_power: u64,
    total_energy: u128,
    total_power: u64,
    total_duration: u64,
}

impl View for PowerProfile {
    type V = PowerProfileView;

    closed spec fn view(&self) -> PowerProfileView {
        PowerProfileView {
            total_cpu_energy: self.total_cpu_energy as nat,
            total_gpu_energy: self.total_gpu_energy as nat,
            total_ane_energy: self.total_ane_energy as nat,
            total_cpu_power: self.total_cpu_power as nat,
            total_gpu_power: self.total_gpu_power as nat,
            total_ane_power: self.total_ane_power as nat,
            total_energy: self.total_energy as nat,
            total_power: self.total_power as nat,
            total_duration: self.total_duration as nat,
        }
    }
}

proof fn lemma_total_energy_prefix(history: Seq<EnergySampleView>, upto: int, component: ComputeUnit)
    requires
        0 <= upto <= history.len(),
    ensures
        total_energy(history.subrange(0, upto), component) <= total_energy(history, component),
    decreases history.len(),
{
    if upto == history.len() {
        assert(history.subrange(0, upto) =~= history);
    } else {
        assert(history.drop_last().subrange(0, upto) =~= history.subrange(0, upto));
        lemma_total_energy_prefix(history.drop_last(), upto, component);
    }
}

proof fn lemma_power_sum_prefix(history: Seq<EnergySampleView>, upto: int, component: ComputeUnit)
    requires
        0 <= upto <= history.len(),
    ensures
        power_sum(history.subrange(0, upto), component) <= power_sum(history, component),
    decreases history.len(),
{
    if upto == history.len() {
        assert(history.subrange(0, upto) =~= history);
    } else {
        assert(history.drop_last().subrange(0, upto) =~= history.subrange(0, upto));
        lemma_power_sum_prefix(history.drop_last(), upto, component);
    }
}

/// Rounding the quotient of `whole * d + rest` by `d`, scaled by a thousand,
/// leaves the whole part alone.
proof fn lemma_rounded_div_split(energy: nat, d: nat, whole: nat, rest: nat)
    requires
        d >= 1,
        rest < d,
        energy == whole * d + rest,
    ensures
        rounded_div(energy * 1_000, d) == whole * 1_000 + rounded_div(rest * 1_000, d),
        rounded_div(rest * 1_000, d) <= 1_000,
{
    let tail = 2 * (rest * 1_000) + d;
    let m = 2 * d;
    lemma_fundamental_div_mod(tail as int, m as int);
    let q = (tail as int) / (m as int);
    let r = (tail as int) % (m as int);
    assert(0 <= r < m);
    assert(2 * (energy * 1_000) + d == (whole * 1_000 + q) * m + r) by (nonlinear_arith)
        requires
            energy == whole * d + rest,
            tail == 2 * (rest * 1_000) + d,
            m == 2 * d,
            tail == m * q + r,
    ;
    lemma_fundamental_div_mod_converse(
        (2 * (energy * 1_000) + d) as int,
        m as int,
        whole * 1_000 + q,
        r,
    );
    assert(q <= 1_000) by (nonlinear_arith)
        requires
            tail == m * q + r,
            0 <= r,
            tail == 2 * (rest * 1_000) + d,
            m == 2 * d,
            rest < d,
            d >= 1,
    ;
}

/// A sum of powers beyond 128 bits has a mean beyond 64 bits, however many
/// samples a vector can hold.
proof fn lemma_mean_of_large_sum(sum: nat, count: nat)
    requires
        1 <= count <= usize::MAX,
        sum > u128::MAX,
    ensures
        rounded_div(sum, count) > u64::MAX,
{
    let m = (2 * count) as int;
    let x = (2 * sum + count) as int;
    lemma_fundamental_div_mod(x, m);
    let q = x / m;
    let r = x % m;
    assert(q > u64::MAX) by (nonlinear_arith)
        requires
            x == m * q + r,
            0 <= r < m,
            m == 2 * count,
            x == 2 * sum + count,
            1 <= count <= 0xffff_ffff_ffff_ffff,
            sum > 0xffff_ffff_ffff_ffff_ffff_ffff_ffff_ffff,
    ;
}

/// Average power of `component` over one sample, or `None` where it exceeds
/// 128 bits.
fn sample_power(sample: &EnergySample, component: ComputeUnit) -> (power: Option<u128>)
    ensures
        match power {
            Some(p) => p == sample@.power(component),
            None => sample@.power(component) > u128::MAX,
        },
{
    let energy = sample.energy(component);
    let d = sample.duration() as u128;
    let whole = energy / d;
    let rest = energy % d;
    let fraction = (2 * (rest * 1_000) + d) / (2 * d);
    proof {
        lemma_fundamental_div_mod(energy as int, d as int);
        assert(energy == whole * d + rest) by (nonlinear_arith)
            requires
                energy == d * whole + rest,
        ;
        lemma_rounded_div_split(energy as nat, d as nat, whole as nat, rest as nat);
    }
    if whole > (u128::MAX - fraction) / 1_000 {
        assert(whole * 1_000 + fraction > u128::MAX);
        None
    } else {
        assert(whole * 1_000 + fraction <= u128::MAX);
        Some(whole * 1_000 + fraction)
    }
}

/// Energy of `component` summed over `samples`, or `None` where the sum
/// exceeds 128 bits.
fn sum_energy(samples: &Vec<EnergySample>, component: ComputeUnit) -> (total: Option<u128>)
    ensures
        match total {
            Some(t) => t == total_energy(sample_views(samples@), component),
            None => total_energy(sample_views(samples@), component) > u128::MAX,
        },
{
    let ghost history = sample_views(samples@);
    let mut total: u128 = 0;
    let mut i: usize = 0;
    proof {
        assert(history.subrange(0, 0) =~= Seq::<EnergySampleView>::empty());
    }
    while i < samples.len()
        invariant
            history == sample_views(samples@),
            i <= samples.len(),
            total == total_energy(history.subrange(0, i as int), component),
        decreases samples.len() - i,
    {
        let energy = samples[i].energy(component);
        proof {
            let seen = history.subrange(0, i + 1);
            assert(seen.drop_last() =~= history.subrange(0, i as int));
            assert(seen.last() == samples@[i as int]@);
            lemma_total_energy_prefix(history, i + 1, component);
        }
        if total > u128::MAX - energy {
            return None;
        }
        total = total + energy;
        i += 1;
    }
    proof {
        assert(history.subrange(0, i as int) =~= history);
    }
    Some(total)
}

/// Per-sample average powers of `component` summed over `samples`, or `None`
/// where the sum exceeds 128 bits.
fn sum_power(samples: &Vec<EnergySample>, component: ComputeUnit) -> (total: Option<u128>)
    ensures
        match total {
            Some(t) => t == power_sum(sample_views(samples@), component),
            None => power_sum(sample_views(samples@), component) > u128::MAX,
        },
{
    let ghost history = sample_views(samples@);
    let mut total: u128 = 0;
    let mut i: usize = 0;
    proof {
        assert(history.subrange(0, 0) =~= Seq::<EnergySampleView>::empty());
    }
    while i < samples.len()
        invariant
            history == sample_views(samples@),
            i <= samples.len(),
            total == power_sum(history.subrange(0, i as int), component),
        decreases samples.len() - i,
    {
        let power = sample_power(&samples[i], component);
        proof {
            let seen = history.subrange(0, i + 1);
            assert(seen.drop_last() =~= history.subrange(0, i as int));
            assert(seen.last() == samples@[i as int]@);
            lemma_power_sum_prefix(history, i + 1, component);
        }
        match power {
            None => {
                return None;
            },
            Some(p) => {
                if total > u128::MAX - p {
                    return None;
                }
                total = total + p;
            },
        }
        i += 1;
    }
    proof {
        assert(history.subrange(0, i as int) =~= history);
    }
    Some(total)
}

/// Mean of the per-sample average powers of `component`, or `None` where it
/// exceeds 64 bits.
fn mean_power(samples: &Vec<EnergySample>, component: ComputeUnit) -> (mean: Option<u64>)
    ensures
        match mean {
            Some(m) => m == average_power(sample_views(samples@), component),
            None => average_power(sample_views(samples@), component) > u64::MAX,
        },
{
    let count = samples.len();
    if count == 0 {
        return Some(0);
    }
    match sum_power(samples, component) {
        None => {
            proof {
                lemma_mean_of_large_sum(
                    power_sum(sample_views(samples@), component),
                    count as nat,
                );
            }
            None
        },
        Some(sum) => {
            let n = count as u128;
            let whole = sum / n;
            let rest = sum % n;
            let fraction = (2 * rest + n) / (2 * n);
            proof {
                lemma_fundamental_div_mod(sum as int, n as int);
                lemma_mean_split(sum as nat, n as nat, whole as nat, rest as nat);
            }
            if whole > (u64::MAX as u128) - fraction {
                None
            } else {
                Some((whole + fraction) as u64)
            }
        },
    }
}

/// Rounding the quotient of `whole * d + rest` by `d` leaves the whole part
/// alone.
proof fn lemma_mean_split(sum: nat, d: nat, whole: nat, rest: nat)
    requires
        d >= 1,
        rest < d,
        sum == d * whole + rest,
    ensures
        rounded_div(sum, d) == whole + rounded_div(rest, d),
        rounded_div(rest, d) <= 1,
{
    let tail = 2 * rest + d;
    let m = 2 * d;
    lemma_fundamental_div_mod(tail as int, m as int);
    let q = (tail as int) / (m as int);
    let r = (tail as int) % (m as int);
    assert(2 * sum + d == (whole + q) * m + r) by (nonlinear_arith)
        requires
            sum == d * whole + rest,
            tail == 2 * rest + d,
            m == 2 * d,
            tail == m * q + r,
    ;
    lemma_fundamental_div_mod_converse((2 * sum + d) as int, m as int, whole + q, r);
    assert(q <= 1) by (nonlinear_arith)
        requires
            tail == m * q + r,
            0 <= r,
            tail == 2 * rest + d,
            m == 2 * d,
            rest < d,
            d >= 1,
    ;
}

/// Durations of `samples` summed; a vector cannot hold so many samples that
/// the sum would exceed 128 bits.
fn sum_duration(samples: &Vec<EnergySample>) -> (total: u128)
    ensures
        total == total_duration(sample_views(samples@)),
{
    let ghost history = sample_views(samples@);
    let mut total: u128 = 0;
    let mut i: usize = 0;
    proof {
        assert(history.subrange(0, 0) =~= Seq::<EnergySampleView>::empty());
    }
    while i < samples.len()
        invariant
            history == sample_views(samples@),
            i <= samples.len(),
            total == total_duration(history.subrange(0, i as int)),
            total <= i * u64::MAX,
        decreases samples.len() - i,
    {
        let duration = samples[i].duration();
        proof {
            let seen = history.subrange(0, i + 1);
            assert(seen.drop_last() =~= history.subrange(0, i as int));
            assert(seen.last() == samples@[i as int]@);
            assert(i * u64::MAX + u64::MAX == (i + 1) * u64::MAX) by (nonlinear_arith);
            assert((i + 1) * u64::MAX <= usize::MAX * u64::MAX) by (nonlinear_arith)
                requires
                    i + 1 <= usize::MAX,
            ;
        }
        total = total + duration as u128;
        i += 1;
    }
    proof {
        assert(history.subrange(0, i as int) =~= history);
    }
    total
}

impl Default for PowerProfile {
    /// The profile of an empty history: every figure is zero.
    fn default() -> (profile: PowerProfile)
        ensures
            profile@ == profile_of(Seq::empty()),
    {
        PowerProfile {
            total_cpu_energy: 0,
            total_gpu_energy: 0,
            total_ane_energy: 0,
            total_cpu_power: 0,
            total_gpu_power: 0,
            total_ane_power: 0,
            total_energy: 0,
            total_power: 0,
            total_duration: 0,
        }
    }
}

impl PowerProfile {
    /// Derives the profile of `samples`. The result is `None` exactly where
    /// one of the profile's figures does not fit its machine type.
    pub fn from_samples(samples: &Vec<EnergySample>) -> (profile: Option<PowerProfile>)
        ensures
            profile is Some <==> profile_of(sample_views(samples@)).representable(),
            profile is Some ==> profile->Some_0@ == profile_of(sample_views(samples@)),
    {
        let cpu_energy = match sum_energy(samples, ComputeUnit::CPU) {
            Some(total) => total,
            None => {
                return None;
            },
        };
        let gpu_energy = match sum_energy(samples, ComputeUnit::GPU) {
            Some(total) => total,
            None => {
                return None;
            },
        };
        let ane_energy = match sum_energy(samples, ComputeUnit::ANE) {
            Some(total) => total,
            None => {
                return None;
            },
        };
        if cpu_energy > u128::MAX - gpu_energy || cpu_energy + gpu_energy > u128::MAX - ane_energy {
            return None;
        }
        let cpu_power = match mean_power(samples, ComputeUnit::CPU) {
            Some(mean) => mean,
            None => {
                return None;
            },
        };
        let gpu_power = match mean_power(samples, ComputeUnit::GPU) {
            Some(mean) => mean,
            None => {
                return None;
            },
        };
        let ane_power = match mean_power(samples, ComputeUnit::ANE) {
            Some(mean) => mean,
            None => {
                return None;
            },
        };
        if cpu_power > u64::MAX - gpu_power || cpu_power + gpu_power > u64::MAX - ane_power {
            return None;
        }
        let duration = sum_duration(samples);
        if duration > u64::MAX as u128 {
            return None;
        }
        Some(
            PowerProfile {
                total_cpu_energy: cpu_energy,
                total_gpu_energy: gpu_energy,
                total_ane_energy: ane_energy,
                total_cpu_power: cpu_power,
                total_gpu_power: gpu_power,
                total_ane_power: ane_power,
                total_energy: cpu_energy + gpu_energy + ane_energy,
                total_power: cpu_power + gpu_power + ane_power,
                total_duration: duration as u64,
            },
        )
    }

    /// Renders the profile as text for people, one figure per line.
    pub fn to_string(&self) -> (text: String)
        ensures
            text@ == self@.text(),
    {
        let mut text = String::from_str("Total Energy: ");
        push_decimal(&mut text, self.total_energy);
        text.append(" mJ\nTotal Power: ");
        push_decimal(&mut text, self.total_power as u128);
        text.append(" mW\nTotal Duration: ");
        push_decimal(&mut text, self.total_duration as u128);
        text.append(" ms\nCPU Energy: ");
        push_decimal(&mut text, self.total_cpu_energy);
        text.append(" mJ\nGPU Energy: ");
        push_decimal(&mut text, self.total_gpu_energy);
        text.append(" mJ\nANE Energy: ");
        push_decimal(&mut text, self.total_ane_energy);
        text.append(" mJ\nCPU Power: ");
        push_decimal(&mut text, self.total_cpu_power as u128);
        text.append(" mW\nGPU Power: ");
        push_decimal(&mut text, self.total_gpu_power as u128);
        text.append(" mW\nANE Power: ");
        push_decimal(&mut text, self.total_ane_power as u128);
        text.append(" mW");
        text
    }

    /// Millijoules drawn by the CPU over the session.
    pub fn total_cpu_energy(&self) -> (energy: u128)
        ensures
            energy == self@.total_cpu_energy,
    {
        self.total_cpu_energy
    }

    /// Millijoules drawn by the GPU over the session.
    pub fn total_gpu_energy(&self) -> (energy: u128)
        ensures
            energy == self@.total_gpu_energy,
    {
        self.total_gpu_energy
    }

    /// Millijoules drawn by the neural engine over the session.
    pub fn total_ane_energy(&self) -> (energy: u128)
        ensures
            energy == self@.total_ane_energy,
    {
        self.total_ane_energy
    }

    /// Mean of the CPU's per-sample average powers, in milliwatts.
    pub fn total_cpu_power(&self) -> (power: u64)
        ensures
            power == self@.total_cpu_power,
    {
        self.total_cpu_power
    }

    /// Mean of the GPU's per-sample average powers, in milliwatts.
    pub fn total_gpu_power(&self) -> (power: u64)
        ensures
            power == self@.total_gpu_power,
    {
        self.total_gpu_power
    }

    /// Mean of the neural engine's per-sample average powers, in milliwatts.
    pub fn total_ane_power(&self) -> (power: u64)
        ensures
            power == self@.total_ane_power,
    {
        self.total_ane_power
    }

    /// Millijoules drawn by the three components together.
    pub fn total_energy(&self) -> (energy: u128)
        ensures
            energy == self@.total_energy,
    {
        self.total_energy
    }

    /// Sum of the three components' mean powers, in milliwatts.
    pub fn total_power(&self) -> (power: u64)
        ensures
            power == self@.total_power,
    {
        self.total_power
    }

    /// Milliseconds that the session's windows span together.
    pub fn total_duration(&self) -> (millis: u64)
        ensures
            millis == self@.total_duration,
    {
        self.total_duration
    }
}

} // verus!
