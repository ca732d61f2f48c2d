use clay_core::{Pack, Sphere};

#[test]
fn sphere_pack_round_trip() {
    let s = Sphere {
        pos_x: 0x3f80_0000,
        pos_y: 0x4000_0000,
        pos_z: 0x4040_0000,
        rad: 0x3f00_0000,
    };
    let mut bi = vec![0i32; Sphere::size_int()];
    let mut bf = vec![0u32; Sphere::size_float()];
    s.pack(&mut bi, &mut bf);
    let r = Sphere::unpack(&bi, &bf);
    assert_eq!(r, s);
}

#[test]
fn sphere_lane_sizes_are_fixed() {
    assert_eq!(Sphere::size_int(), 0);
    assert_eq!(Sphere::size_float(), 4);
}

#[test]
fn sphere_pack_is_positional_and_leaves_the_tail() {
    let s = Sphere { pos_x: 1, pos_y: 2, pos_z: 3, rad: 4 };
    let mut bi = vec![9i32; 2];
    let mut bf = vec![9u32; 6];
    s.pack(&mut bi, &mut bf);
    assert_eq!(bf, vec![1, 2, 3, 4, 9, 9]);
    assert_eq!(bi, vec![9, 9]);
    let r = Sphere::unpack(&bi, &bf);
    assert_eq!(r, s);
}
