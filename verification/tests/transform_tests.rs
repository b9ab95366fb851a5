use vulkan_playground::transform::{check_sequential_scaled, scale_in_place, sequential_content};

#[test]
fn sequential_content_counts_up_from_zero() {
    let v = sequential_content(5);
    assert_eq!(v, vec![0, 1, 2, 3, 4]);
    assert_eq!(sequential_content(0), Vec::<u32>::new());
}

#[test]
fn round_trip_small_buffer_times_two() {
    let mut v = sequential_content(1024);
    scale_in_place(&mut v, 2);
    assert!(check_sequential_scaled(&v, 2));
    assert_eq!(v[0], 0);
    assert_eq!(v[1], 2);
    assert_eq!(v[1023], 2046);
}

#[test]
fn round_trip_small_buffer_times_twelve() {
    let mut v = sequential_content(1024);
    scale_in_place(&mut v, 12);
    assert!(check_sequential_scaled(&v, 12));
    assert_eq!(v[1023], 12276);
}

#[test]
fn round_trip_large_buffer_times_two() {
    let mut v = sequential_content(67_108_864);
    scale_in_place(&mut v, 2);
    assert!(check_sequential_scaled(&v, 2));
    assert_eq!(v[67_108_863], 134_217_726);
}

#[test]
fn round_trip_large_buffer_times_twelve() {
    let mut v = sequential_content(67_108_864);
    scale_in_place(&mut v, 12);
    assert!(check_sequential_scaled(&v, 12));
    assert_eq!(v[67_108_863], 805_306_356);
}

#[test]
fn check_rejects_a_buffer_off_by_one_element() {
    let mut v = sequential_content(1024);
    scale_in_place(&mut v, 2);
    v[512] += 1;
    assert!(!check_sequential_scaled(&v, 2));
}

#[test]
fn check_rejects_the_unscaled_buffer() {
    let v = sequential_content(1024);
    assert!(!check_sequential_scaled(&v, 2));
    assert!(check_sequential_scaled(&v, 1));
}

#[test]
fn empty_buffer_always_checks() {
    let v: Vec<u32> = Vec::new();
    assert!(check_sequential_scaled(&v, 7));
}
