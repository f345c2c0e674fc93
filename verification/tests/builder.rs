use gen_random_tree::builder::{plan_files, progress_percent, FilePlan};
use gen_random_tree::errors::TreeError;

#[test]
fn refuses_zero_target() {
    assert_eq!(plan_files(0).unwrap_err(), TreeError::SizeTooSmall);
}

#[test]
fn refuses_target_below_minimum() {
    assert_eq!(plan_files(99).unwrap_err(), TreeError::SizeTooSmall);
    assert!(plan_files(100).is_ok());
}

#[test]
fn minimal_target_takes_one_file() {
    // any single file is at least 50 MiB, far past a 100-byte target
    let plans = plan_files(100).unwrap();
    assert_eq!(plans.len(), 1);
    assert!(plans[0].size_mb >= 50 && plans[0].size_mb <= 200);
}

#[test]
fn one_gigabyte_plan_meets_target() {
    let target: u64 = 1073741824;
    let plans = plan_files(target).unwrap();
    let mut sum: u128 = 0;
    for plan in &plans {
        assert!(plan.dir_disc >= 1 && plan.dir_disc <= 1000);
        assert!(plan.file_disc >= 1 && plan.file_disc <= 1000);
        assert!(plan.size_mb >= 50 && plan.size_mb <= 200);
        assert_eq!(plan.size_bytes(), plan.size_mb * 1024 * 1024);
        // every proper prefix falls short of the target
        assert!(sum < target as u128);
        sum += plan.size_bytes() as u128;
    }
    assert!(sum >= target as u128);
    // 50..=200 MiB per file bounds the file count for a 1 GiB target
    assert!(plans.len() >= 5 && plans.len() <= 22);
}

#[test]
fn plan_names_use_the_fixed_patterns() {
    let plan = FilePlan {
        dir_disc: 7,
        file_disc: 42,
        size_mb: 50,
    };
    assert_eq!(plan.dir_name(), "dir_7");
    assert_eq!(plan.file_name(), "file_42.txt");
    assert_eq!(plan.size_bytes(), 52428800u64);
    let plan = FilePlan {
        dir_disc: 1000,
        file_disc: 1,
        size_mb: 200,
    };
    assert_eq!(plan.dir_name(), "dir_1000");
    assert_eq!(plan.file_name(), "file_1.txt");
    assert_eq!(plan.size_bytes(), 209715200u64);
}

#[test]
fn progress_is_rendered_with_two_decimals() {
    assert_eq!(progress_percent(0, 5), "0.00");
    assert_eq!(progress_percent(536870912, 1073741824), "50.00");
    assert_eq!(progress_percent(1073741824, 1073741824), "100.00");
    // truncated, not rounded
    assert_eq!(progress_percent(3, 7), "42.85");
    assert_eq!(progress_percent(214748364, 1073741824), "19.99");
}

#[test]
fn final_progress_reaches_one_hundred_percent() {
    let target: u64 = 1073741824;
    let plans = plan_files(target).unwrap();
    let total: u128 = plans.iter().map(|p| p.size_bytes() as u128).sum();
    let line = progress_percent(total, target);
    let whole: u128 = line[..line.len() - 3].parse().unwrap();
    assert!(whole >= 100);
}
