use appopt::topo::{parse_max_freq, CpuTopology};

#[test]
fn test_cores_to_cpuset() {
    assert_eq!(CpuTopology::cores_to_cpuset(&[0, 1, 2, 3]), "0-3");
    assert_eq!(CpuTopology::cores_to_cpuset(&[4, 5, 6]), "4-6");
    assert_eq!(CpuTopology::cores_to_cpuset(&[7]), "7");
    assert_eq!(CpuTopology::cores_to_cpuset(&[0, 1, 4, 5, 7]), "0-1,4-5,7");
}

#[test]
fn cpuset_ignores_order_and_repeats() {
    assert_eq!(CpuTopology::cores_to_cpuset(&[7, 5, 4, 1, 0, 5, 7]), "0-1,4-5,7");
    assert_eq!(CpuTopology::cores_to_cpuset(&[]), "");
    assert_eq!(CpuTopology::cores_to_cpuset(&[10, 12, 11, 100]), "10-12,100");
    assert_eq!(CpuTopology::cores_to_cpuset(&[4294967295, 4294967294]), "4294967294-4294967295");
}

fn dimensity_9400() -> Vec<u32> {
    vec![2400000, 2400000, 2400000, 2400000, 3300000, 3300000, 3300000, 3730000]
}

#[test]
fn three_levels_prime_big_little() {
    let t = CpuTopology::from_max_freqs(&dimensity_9400());
    assert_eq!(t.prime, vec![7]);
    assert_eq!(t.big, vec![4, 5, 6]);
    assert_eq!(t.little, vec![0, 1, 2, 3]);
    assert_eq!(t.all, vec![0, 1, 2, 3, 4, 5, 6, 7]);
    assert_eq!(t.count, 8);
    assert_eq!(t.prime_cpuset(), "7");
    assert_eq!(t.big_cpuset(), "4-6");
    assert_eq!(t.little_cpuset(), "0-3");
    assert_eq!(t.big_and_prime_cpuset(), "4-7");
    assert_eq!(t.all_cpuset(), "0-7");
}

#[test]
fn four_levels_little_takes_the_rest_fastest_first() {
    let t = CpuTopology::from_max_freqs(&[1000, 2000, 1500, 3000, 1000, 2000]);
    assert_eq!(t.prime, vec![3]);
    assert_eq!(t.big, vec![1, 5]);
    assert_eq!(t.little, vec![2, 0, 4]);
    assert_eq!(t.little_cpuset(), "0,2,4");
}

#[test]
fn two_levels_big_little_no_prime() {
    let t = CpuTopology::from_max_freqs(&[1800, 1800, 1800, 1800, 2400, 2400, 2400, 2400]);
    assert!(t.prime.is_empty());
    assert_eq!(t.big, vec![4, 5, 6, 7]);
    assert_eq!(t.little, vec![0, 1, 2, 3]);
    // Without prime cores the last big core stands in.
    assert_eq!(t.prime_cpuset(), "7");
}

#[test]
fn one_level_all_big() {
    let t = CpuTopology::from_max_freqs(&[2000, 2000, 2000, 2000]);
    assert!(t.prime.is_empty());
    assert_eq!(t.big, vec![0, 1, 2, 3]);
    assert!(t.little.is_empty());
    assert_eq!(t.little_cpuset(), "0-3");
}

#[test]
fn unknown_frequencies_are_left_out() {
    let t = CpuTopology::from_max_freqs(&[0, 2000, 0, 2000]);
    assert_eq!(t.all, vec![1, 3]);
    assert_eq!(t.count, 2);
    assert_eq!(t.big, vec![1, 3]);
    let none = CpuTopology::from_max_freqs(&[0, 0]);
    assert!(none.all.is_empty() && none.big.is_empty() && none.prime.is_empty());
    assert_eq!(none.prime_cpuset(), "");
    assert_eq!(none.big_cpuset(), "");
}

#[test]
fn max_freq_parsing() {
    assert_eq!(parse_max_freq("3730000\n"), 3730000);
    assert_eq!(parse_max_freq("  +42 "), 42);
    assert_eq!(parse_max_freq("4294967295"), 4294967295);
    assert_eq!(parse_max_freq("4294967296"), 0);
    assert_eq!(parse_max_freq("-1"), 0);
    assert_eq!(parse_max_freq("12a"), 0);
    assert_eq!(parse_max_freq(""), 0);
    assert_eq!(parse_max_freq("+"), 0);
}
