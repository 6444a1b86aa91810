use buckets::bucketize::{Bucketize, BucketizeSingle};
use buckets::bucketizers::custom::CustomBucketizer;
use buckets::bucketizers::fw::FixedWidthBucketizer;
use buckets::bucketizers::linear::LinearBucketizer;
use buckets::bucketizers::quantile::QuantileBucketizer;
use buckets::bucketizers::range::RangeBucketizer;

#[test]
fn fixed_width_example() {
    let bucketizer = FixedWidthBucketizer::new(5i64, 0i64);
    assert_eq!(bucketizer.bucketize(&12), 2);
}

#[test]
fn fixed_width_grid_lands_in_consecutive_buckets() {
    let width: i64 = 5;
    let offset: i64 = 3;
    let bucketizer = FixedWidthBucketizer::new(width, offset);
    for k in 0..10i64 {
        assert_eq!(bucketizer.bucketize(&(offset + k * width)), k as usize);
    }
}

#[test]
fn fixed_width_boundary_opens_higher_bucket() {
    let bucketizer = FixedWidthBucketizer::new(5i64, 0i64);
    assert_eq!(bucketizer.bucketize(&4), 0);
    assert_eq!(bucketizer.bucketize(&5), 1);
    assert_eq!(bucketizer.bucketize(&9), 1);
    assert_eq!(bucketizer.bucketize(&10), 2);
}

#[test]
fn fixed_width_unsigned_elements() {
    let bucketizer = FixedWidthBucketizer::new(4u32, 2u32);
    assert_eq!(bucketizer.bucketize(&2), 0);
    assert_eq!(bucketizer.bucketize(&9), 1);
    assert_eq!(bucketizer.bucketize(&10), 2);
}

#[test]
fn linear_example() {
    let bucketizer = LinearBucketizer::new(0i64, 20i64, 4i64);
    assert_eq!(bucketizer.bucketize(&7), 1);
}

#[test]
fn linear_clamps_below_start_to_zero() {
    let bucketizer = LinearBucketizer::new(0i64, 20i64, 4i64);
    assert_eq!(bucketizer.bucketize(&-1), 0);
    assert_eq!(bucketizer.bucketize(&-1000), 0);
    assert_eq!(bucketizer.bucketize(&0), 0);
}

#[test]
fn linear_clamps_at_and_beyond_end_to_last_bucket() {
    let bucketizer = LinearBucketizer::new(0i64, 20i64, 4i64);
    assert_eq!(bucketizer.bucketize(&19), 3);
    assert_eq!(bucketizer.bucketize(&20), 3);
    assert_eq!(bucketizer.bucketize(&1000), 3);
}

#[test]
fn quantile_example() {
    let quantiles = vec![25i64, 50, 75];
    let bucketizer = QuantileBucketizer::new(quantiles, 3);
    assert_eq!(bucketizer.bucketize(&55), 2);
}

#[test]
fn quantile_value_on_cut_point_falls_after_it() {
    let quantiles = vec![25i64, 50, 75];
    let bucketizer = QuantileBucketizer::new(quantiles, 3);
    assert_eq!(bucketizer.bucketize(&50), 2);
    assert_eq!(bucketizer.bucketize(&25), 1);
}

#[test]
fn quantile_extremes() {
    let quantiles = vec![25i64, 50, 75];
    let bucketizer = QuantileBucketizer::new(quantiles, 3);
    assert_eq!(bucketizer.bucketize(&10), 0);
    assert_eq!(bucketizer.bucketize(&80), 3);
}

#[test]
fn quantile_reports_its_group_count() {
    let bucketizer = QuantileBucketizer::new(vec![25i64, 50, 75], 3);
    assert_eq!(bucketizer.get_n_quantiles(), 3);
}

#[test]
fn quantile_no_cut_points_means_single_bucket() {
    let bucketizer = QuantileBucketizer::new(Vec::<i64>::new(), 0);
    assert_eq!(bucketizer.bucketize(&42), 0);
}

#[test]
fn range_example() {
    let ranges = vec![(0i64, 5), (5, 10), (10, 20), (20, i64::MAX)];
    let bucketizer = RangeBucketizer::new(ranges);
    assert_eq!(bucketizer.bucketize(&7), 1);
}

#[test]
fn range_value_matching_no_interval_falls_back_to_last_bucket() {
    let ranges = vec![(0i64, 5), (5, 10), (10, 20), (20, i64::MAX)];
    let bucketizer = RangeBucketizer::new(ranges);
    assert_eq!(bucketizer.bucketize(&-3), 3);
}

#[test]
fn range_lower_bound_inclusive_upper_exclusive() {
    let ranges = vec![(0i64, 5), (5, 10)];
    let bucketizer = RangeBucketizer::new(ranges);
    assert_eq!(bucketizer.bucketize(&0), 0);
    assert_eq!(bucketizer.bucketize(&5), 1);
    assert_eq!(bucketizer.bucketize(&9), 1);
}

#[test]
fn custom_agrees_with_the_supplied_function() {
    let bucketizer_func = |value: i64| -> usize {
        if value < 5 {
            0
        } else if value < 10 {
            1
        } else if value < 20 {
            2
        } else {
            3
        }
    };
    let bucketizer = CustomBucketizer::new(bucketizer_func);
    for v in [-7i64, 0, 4, 5, 7, 9, 10, 19, 20, 100] {
        assert_eq!(bucketizer.bucketize(&v), bucketizer_func(v));
    }
}

#[test]
fn custom_example() {
    let bucketizer = CustomBucketizer::new(|value: i64| -> usize {
        if value < 5 {
            0
        } else if value < 10 {
            1
        } else {
            2
        }
    });
    assert_eq!(bucketizer.bucketize(&7), 1);
}

#[test]
fn bucketize_iter_maps_single_bucketization_in_order() {
    let bucketizer = FixedWidthBucketizer::new(5i64, 0i64);
    let data = vec![1i64, 6, 11, 25, -1];
    let out = bucketizer.bucketize_iter(&data);
    assert_eq!(out.len(), data.len());
    for (i, v) in data.iter().enumerate() {
        assert_eq!(out[i], bucketizer.bucketize(v));
    }
}

#[test]
fn bucketize_iter_on_empty_input_is_empty() {
    let bucketizer = QuantileBucketizer::new(vec![25i64, 50, 75], 3);
    let out = bucketizer.bucketize_iter(&Vec::new());
    assert!(out.is_empty());
}

#[test]
fn repeated_bucketize_calls_return_the_same_index() {
    let fw = FixedWidthBucketizer::new(5i64, 0i64);
    let linear = LinearBucketizer::new(0i64, 20i64, 4i64);
    let quantile = QuantileBucketizer::new(vec![25i64, 50, 75], 3);
    let range = RangeBucketizer::new(vec![(0i64, 5), (5, 10)]);
    for v in [-9i64, 0, 7, 12, 55, 200] {
        assert_eq!(fw.bucketize(&v), fw.bucketize(&v));
        assert_eq!(linear.bucketize(&v), linear.bucketize(&v));
        assert_eq!(quantile.bucketize(&v), quantile.bucketize(&v));
        assert_eq!(range.bucketize(&v), range.bucketize(&v));
    }
}
