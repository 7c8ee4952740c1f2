use raytracer::schedule::{sample_steps, workgroup_count, WORKGROUP_SIZE};

#[test]
fn workgroups_cover_the_axis_and_no_more() {
    assert_eq!(WORKGROUP_SIZE, 8);
    assert_eq!(workgroup_count(0), 0);
    assert_eq!(workgroup_count(1), 1);
    assert_eq!(workgroup_count(8), 1);
    assert_eq!(workgroup_count(9), 2);
    assert_eq!(workgroup_count(800), 100);
    assert_eq!(workgroup_count(801), 101);
    assert_eq!(workgroup_count(1920), 240);
    assert_eq!(workgroup_count(1080), 135);
}

#[test]
fn ladder_climbs_the_powers_of_two_below_the_target() {
    assert_eq!(sample_steps(8), vec![1, 2, 4, 8]);
    assert_eq!(sample_steps(16), vec![1, 2, 4, 8, 16]);
    assert_eq!(sample_steps(100), vec![1, 2, 4, 8, 100]);
}

#[test]
fn ladder_always_ends_on_the_target_itself() {
    assert_eq!(sample_steps(1), vec![1]);
    assert_eq!(sample_steps(2), vec![1, 2]);
    assert_eq!(sample_steps(3), vec![1, 2, 3]);
    assert_eq!(sample_steps(4), vec![1, 2, 4]);
    assert_eq!(sample_steps(5), vec![1, 2, 4, 5]);
    assert_eq!(sample_steps(7), vec![1, 2, 4, 7]);
}

#[test]
fn ladder_for_a_zero_target_renders_nothing() {
    assert!(sample_steps(0).is_empty());
}
