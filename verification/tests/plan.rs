use b2::error::Error;
use b2::plan::{UploadPlan, ABSOLUTE_MINIMUM_PART_SIZE, SPLIT_MARGIN};

#[test]
fn constants_are_those_of_the_service() {
    assert_eq!(ABSOLUTE_MINIMUM_PART_SIZE, 5_000_000);
    assert_eq!(SPLIT_MARGIN, 100);
}

#[test]
fn one_exact_chunk_is_split_in_two() {
    let plan = UploadPlan::derive(10_000_000, 10_000_000).unwrap();
    assert_eq!(plan.total_length, 10_000_000);
    assert_eq!(plan.chunk_size, 5_000_100);
    assert_eq!(plan.chunk_count, 1);
}

#[test]
fn one_chunk_with_a_remainder_is_kept() {
    let plan = UploadPlan::derive(10_000_000, 6_000_000).unwrap();
    assert_eq!(plan.chunk_size, 6_000_000);
    assert_eq!(plan.chunk_count, 1);
    assert_eq!(plan.offset(1), 6_000_000);
}

#[test]
fn recommended_size_larger_than_file_is_replaced() {
    let plan = UploadPlan::derive(12_000_000, 100_000_000).unwrap();
    assert_eq!(plan.chunk_size, 6_000_100);
    assert_eq!(plan.chunk_count, 1);
}

#[test]
fn minimum_part_size_wins_over_half_the_file() {
    let plan = UploadPlan::derive(7_000_000, 100_000_000).unwrap();
    assert_eq!(plan.chunk_size, 5_000_000);
    assert_eq!(plan.chunk_count, 1);
}

#[test]
fn file_below_the_minimum_cannot_be_planned() {
    let r = UploadPlan::derive(3_000_000, 5_000_000);
    assert!(matches!(r, Err(Error::InsufficientData)));
    let r = UploadPlan::derive(0, 1);
    assert!(matches!(r, Err(Error::InsufficientData)));
    let r = UploadPlan::derive(4_999_999, 5_000_000);
    assert!(matches!(r, Err(Error::InsufficientData)));
}

#[test]
fn many_chunks_follow_the_recommended_size() {
    let plan = UploadPlan::derive(100_000_000, 5_000_000).unwrap();
    assert_eq!(plan.chunk_size, 5_000_000);
    assert_eq!(plan.chunk_count, 20);
    assert_eq!(plan.offset(0), 0);
    assert_eq!(plan.offset(7), 35_000_000);
    assert_eq!(plan.offset(20), 100_000_000);
}

#[test]
fn two_exact_chunks_are_kept() {
    let plan = UploadPlan::derive(10_000_000, 5_000_000).unwrap();
    assert_eq!(plan.chunk_size, 5_000_000);
    assert_eq!(plan.chunk_count, 2);
}

#[test]
fn large_files_get_chunks_of_at_least_the_minimum() {
    let lengths: [u64; 5] = [10_000_000, 10_000_001, 123_456_789, 1 << 40, u64::MAX];
    let sizes: [u64; 5] = [5_000_000, 5_000_001, 10_000_000, 100_000_000, u64::MAX];
    for len in lengths {
        for size in sizes {
            let plan = UploadPlan::derive(len, size).unwrap();
            assert!(plan.chunk_size >= ABSOLUTE_MINIMUM_PART_SIZE);
            assert!(plan.chunk_count >= 1);
            assert_eq!(plan.chunk_count, len / plan.chunk_size);
        }
    }
}

#[test]
fn small_recommended_size_is_followed_as_it_is() {
    let plan = UploadPlan::derive(10_000_000, 1_000_000).unwrap();
    assert_eq!(plan.chunk_size, 1_000_000);
    assert_eq!(plan.chunk_count, 10);
}

#[test]
fn large_files_get_a_plan_whatever_is_recommended() {
    let lengths: [u64; 4] = [10_000_000, 10_000_001, 987_654_321, u64::MAX];
    let sizes: [u64; 6] = [1, 2, 999, 1_000_000, 4_999_999, u64::MAX];
    for len in lengths {
        for size in sizes {
            let plan = UploadPlan::derive(len, size).unwrap();
            assert!(plan.chunk_count >= 1);
            assert_eq!(plan.chunk_count, len / plan.chunk_size);
        }
    }
}
