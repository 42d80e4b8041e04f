use raytracer::random::{random_f32_bits, random_i32, Rand_generator};

#[test]
fn first_draws_of_scene_seed() {
    let mut g = Rand_generator::new(7892365412305211419);
    assert_eq!(random_i32(&mut g), -415922357);
    assert_eq!(random_i32(&mut g), -1645237571);
    assert_eq!(random_i32(&mut g), -775891550);
    assert_eq!(random_i32(&mut g), 942986295);
}

#[test]
fn zero_seed_steps_by_increment_one() {
    let mut g = Rand_generator::new(0);
    assert_eq!(random_i32(&mut g), 0);
    assert_eq!(random_i32(&mut g), 0);
    assert_eq!(random_i32(&mut g), -457095288);
    let mut h = Rand_generator::new(1);
    assert_eq!(random_i32(&mut h), 0);
    assert_eq!(random_i32(&mut h), -457095288);
    assert_eq!(random_i32(&mut h), 932996374);
}

#[test]
fn same_seed_gives_same_sequence() {
    let mut a = Rand_generator::new(123456789);
    let mut b = Rand_generator::new(123456789);
    for _ in 0..100 {
        assert_eq!(random_i32(&mut a), random_i32(&mut b));
    }
}

#[test]
fn unit_interval_bits_exact() {
    let mut g = Rand_generator::new(7892365412305211419);
    assert_eq!(random_f32_bits(&mut g), 0x3fa5c39a);
    assert_eq!(random_f32_bits(&mut g), 0x3fded577);
    assert_eq!(random_f32_bits(&mut g), 0x3fd16ae0);
}

#[test]
fn unit_interval_bits_make_floats_in_one_to_two() {
    let mut g = Rand_generator::new(99);
    for _ in 0..1000 {
        let f = f32::from_bits(random_f32_bits(&mut g)) - 1.0;
        assert!(f >= 0.0 && f < 1.0);
    }
}

#[test]
fn pixel_generator_depends_on_seed_and_index() {
    let mut g = Rand_generator::for_pixel(42, 5);
    assert_eq!(random_i32(&mut g), 950741713);
    assert_eq!(random_i32(&mut g), 2069674440);
    assert_eq!(random_i32(&mut g), 2097529733);
    let mut h = Rand_generator::new(1663341875487337619);
    let mut k = Rand_generator::for_pixel(42, 5);
    for _ in 0..10 {
        assert_eq!(random_i32(&mut h), random_i32(&mut k));
    }
}

#[test]
fn neighbouring_pixels_draw_different_values() {
    let mut a = Rand_generator::for_pixel(7, 0);
    let mut b = Rand_generator::for_pixel(7, 1);
    assert_ne!(random_i32(&mut a), random_i32(&mut b));
}
