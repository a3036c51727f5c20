use wattkit::profile::PowerProfile;
use wattkit::sample::EnergySample;

fn profile(samples: &[EnergySample]) -> PowerProfile {
    PowerProfile::from_samples(&samples.to_vec()).unwrap()
}

#[test]
fn average_power_is_the_mean_of_the_per_sample_powers() {
    let p = profile(&[EnergySample::new(10, 0, 0, 1000), EnergySample::new(20, 0, 0, 2000)]);
    assert_eq!(p.total_cpu_energy(), 30);
    assert_eq!(p.total_cpu_power(), 10);
    assert_eq!(p.total_duration(), 3000);
}

#[test]
fn the_mean_of_means_differs_from_energy_over_time() {
    let samples = [EnergySample::new(10, 0, 0, 1000), EnergySample::new(90, 0, 0, 3000)];
    let p = profile(&samples);
    // per-sample powers are 10 mW and 30 mW
    assert_eq!(p.total_cpu_power(), 20);
    let weighted = (p.total_cpu_energy() as f64 / (p.total_duration() as f64 / 1000.0)).round();
    assert_eq!(weighted, 25.0);
    assert_ne!(p.total_cpu_power() as f64, weighted);
}

#[test]
fn the_profile_sums_components_and_durations() {
    let p = profile(&[
        EnergySample::new(100, 200, 300, 1000),
        EnergySample::new(50, 0, 30, 500),
        EnergySample::new(1, 2, 3, 250),
    ]);
    assert_eq!(p.total_cpu_energy(), 151);
    assert_eq!(p.total_gpu_energy(), 202);
    assert_eq!(p.total_ane_energy(), 333);
    assert_eq!(p.total_energy(), 686);
    // cpu: 100, 100, 4 -> 204 / 3 = 68
    assert_eq!(p.total_cpu_power(), 68);
    // gpu: 200, 0, 8 -> 208 / 3 = 69.33 -> 69
    assert_eq!(p.total_gpu_power(), 69);
    // ane: 300, 60, 12 -> 372 / 3 = 124
    assert_eq!(p.total_ane_power(), 124);
    assert_eq!(p.total_power(), 68 + 69 + 124);
    assert_eq!(p.total_duration(), 1750);
}

#[test]
fn the_default_profile_is_that_of_an_empty_history() {
    assert_eq!(PowerProfile::default(), profile(&[]));
}

#[test]
fn the_profile_of_an_empty_history_is_all_zero() {
    let p = profile(&[]);
    assert_eq!(p.total_cpu_energy(), 0);
    assert_eq!(p.total_gpu_energy(), 0);
    assert_eq!(p.total_ane_energy(), 0);
    assert_eq!(p.total_cpu_power(), 0);
    assert_eq!(p.total_gpu_power(), 0);
    assert_eq!(p.total_ane_power(), 0);
    assert_eq!(p.total_energy(), 0);
    assert_eq!(p.total_power(), 0);
    assert_eq!(p.total_duration(), 0);
}

#[test]
fn per_sample_power_rounds_to_the_nearest_milliwatt() {
    // 1 mJ over 3 ms is 333.33 mW
    assert_eq!(profile(&[EnergySample::new(1, 0, 0, 3)]).total_cpu_power(), 333);
    // 2 mJ over 3 ms is 666.67 mW
    assert_eq!(profile(&[EnergySample::new(2, 0, 0, 3)]).total_cpu_power(), 667);
    // 1 mJ over 2000 ms is 0.5 mW, and halves go up
    assert_eq!(profile(&[EnergySample::new(1, 0, 0, 2000)]).total_cpu_power(), 1);
    // 1 mJ over 2001 ms is just under 0.5 mW
    assert_eq!(profile(&[EnergySample::new(1, 0, 0, 2001)]).total_cpu_power(), 0);
    // 1 mJ over 16 ms is 62.5 mW
    assert_eq!(profile(&[EnergySample::new(1, 0, 0, 16)]).total_cpu_power(), 63);
}

#[test]
fn the_mean_rounds_to_the_nearest_milliwatt() {
    // per-sample powers 1 and 2: mean 1.5 -> 2
    let p = profile(&[EnergySample::new(1, 0, 0, 1000), EnergySample::new(2, 0, 0, 1000)]);
    assert_eq!(p.total_cpu_power(), 2);
    // per-sample powers 1, 1, 2: mean 1.33 -> 1
    let p = profile(&[
        EnergySample::new(1, 0, 0, 1000),
        EnergySample::new(1, 0, 0, 1000),
        EnergySample::new(2, 0, 0, 1000),
    ]);
    assert_eq!(p.total_cpu_power(), 1);
}

#[test]
fn a_single_sample_is_its_own_profile() {
    let p = profile(&[EnergySample::new(500, 250, 125, 500)]);
    assert_eq!(p.total_cpu_power(), 1000);
    assert_eq!(p.total_gpu_power(), 500);
    assert_eq!(p.total_ane_power(), 250);
    assert_eq!(p.total_power(), 1750);
    assert_eq!(p.total_energy(), 875);
    assert_eq!(p.total_duration(), 500);
}

#[test]
fn there_is_no_profile_where_an_energy_sum_exceeds_its_type() {
    let samples = vec![EnergySample::new(u128::MAX, 0, 0, u64::MAX), EnergySample::new(1, 0, 0, 1)];
    assert_eq!(PowerProfile::from_samples(&samples), None);
    let samples = vec![EnergySample::new(u128::MAX / 2 + 1, u128::MAX / 2 + 1, 0, u64::MAX)];
    assert_eq!(PowerProfile::from_samples(&samples), None);
}

#[test]
fn there_is_no_profile_where_a_power_exceeds_its_type() {
    // u64::MAX mJ in a millisecond is a thousand times u64::MAX mW
    let samples = vec![EnergySample::new(u64::MAX as u128, 0, 0, 1)];
    assert_eq!(PowerProfile::from_samples(&samples), None);
    let samples = vec![EnergySample::new(u128::MAX, 0, 0, 1)];
    assert_eq!(PowerProfile::from_samples(&samples), None);
    // each component fits, their sum does not
    let third = u64::MAX as u128 / 2 + 1;
    let samples = vec![EnergySample::new(third, third, 0, 1000)];
    assert_eq!(PowerProfile::from_samples(&samples), None);
}

#[test]
fn there_is_no_profile_where_the_duration_exceeds_its_type() {
    let samples = vec![EnergySample::new(0, 0, 0, u64::MAX), EnergySample::new(0, 0, 0, 1)];
    assert_eq!(PowerProfile::from_samples(&samples), None);
}

#[test]
fn the_largest_figures_that_fit_are_kept() {
    let p = profile(&[EnergySample::new(u64::MAX as u128, 0, 0, 1000)]);
    assert_eq!(p.total_cpu_power(), u64::MAX);
    assert_eq!(p.total_cpu_energy(), u64::MAX as u128);
    let most = u64::MAX as u128 * u64::MAX as u128 / 1_000;
    let p = profile(&[EnergySample::new(0, most, 0, u64::MAX)]);
    assert_eq!(p.total_gpu_energy(), most);
    assert_eq!(p.total_gpu_power(), u64::MAX);
    assert_eq!(p.total_duration(), u64::MAX);
    assert_eq!(PowerProfile::from_samples(&vec![EnergySample::new(0, most + u64::MAX as u128, 0, u64::MAX)]), None);
}

#[test]
fn a_profile_is_rendered_one_figure_per_line() {
    let p = profile(&[
        EnergySample::new(100, 200, 300, 1000),
        EnergySample::new(50, 0, 30, 500),
        EnergySample::new(1, 2, 3, 250),
    ]);
    assert_eq!(
        p.to_string(),
        "Total Energy: 686 mJ\nTotal Power: 261 mW\nTotal Duration: 1750 ms\n\
         CPU Energy: 151 mJ\nGPU Energy: 202 mJ\nANE Energy: 333 mJ\n\
         CPU Power: 68 mW\nGPU Power: 69 mW\nANE Power: 124 mW"
    );
    assert_eq!(
        PowerProfile::default().to_string(),
        "Total Energy: 0 mJ\nTotal Power: 0 mW\nTotal Duration: 0 ms\n\
         CPU Energy: 0 mJ\nGPU Energy: 0 mJ\nANE Energy: 0 mJ\n\
         CPU Power: 0 mW\nGPU Power: 0 mW\nANE Power: 0 mW"
    );
}
