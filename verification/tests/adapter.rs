use buckets::bucketize::BucketizeSingle;
use buckets::bucketizers::fw::FixedWidthBucketizer;
use buckets::into_buckets::IntoBuckets;
use buckets::into_usize::IntoUsize;

#[test]
fn adapter_bucketizes_one_element_per_pull() {
    let data = vec![1i64, 6, 11, 25];
    let bucketizer = FixedWidthBucketizer::new(5i64, 0i64);
    let mut bucketized = IntoBuckets::new(data, bucketizer);

    assert_eq!(bucketized.next(), Some(0));
    assert_eq!(bucketized.next(), Some(1));
    assert_eq!(bucketized.next(), Some(2));
    assert_eq!(bucketized.next(), Some(5));
    assert_eq!(bucketized.next(), None);
}

#[test]
fn adapter_collects_in_source_order() {
    let data = vec![1i64, 6, 11, 25];
    let bucketizer = FixedWidthBucketizer::new(5i64, 0i64);
    let mut bucketized = IntoBuckets::new(data.clone(), bucketizer);

    let mut binned_data: Vec<usize> = Vec::new();
    while let Some(index) = bucketized.next() {
        binned_data.push(index);
    }
    assert_eq!(binned_data, vec![0, 1, 2, 5]);

    let single = FixedWidthBucketizer::new(5i64, 0i64);
    for (i, v) in data.iter().enumerate() {
        assert_eq!(binned_data[i], single.bucketize(v));
    }
}

#[test]
fn adapter_stays_exhausted_once_exhausted() {
    let data = vec![3i64];
    let bucketizer = FixedWidthBucketizer::new(5i64, 0i64);
    let mut bucketized = IntoBuckets::new(data, bucketizer);

    assert_eq!(bucketized.next(), Some(0));
    assert_eq!(bucketized.next(), None);
    assert_eq!(bucketized.next(), None);
    assert_eq!(bucketized.next(), None);
}

#[test]
fn adapter_over_empty_source_is_born_exhausted() {
    let bucketizer = FixedWidthBucketizer::new(5i64, 0i64);
    let mut bucketized = IntoBuckets::new(Vec::<i64>::new(), bucketizer);
    assert_eq!(bucketized.next(), None);
    assert_eq!(bucketized.next(), None);
}

#[test]
fn into_usize_truncates() {
    assert_eq!(7i64.into_usize(), 7);
    assert_eq!(200u8.into_usize(), 200);
    assert_eq!(40_000u16.into_usize(), 40_000);
    assert_eq!(3_000_000_000u32.into_usize(), 3_000_000_000);
    assert_eq!(9i8.into_usize(), 9);
    assert_eq!(1_000i16.into_usize(), 1_000);
    assert_eq!(70_000i32.into_usize(), 70_000);
    assert_eq!(123_456_789_012i128.into_usize(), 123_456_789_012);
    assert_eq!(987_654_321u64.into_usize(), 987_654_321);
    assert_eq!(55u128.into_usize(), 55);
    assert_eq!((-1i64).into_usize(), usize::MAX);
}
