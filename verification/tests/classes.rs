use clay_core::shape::bound::Bounded;
use clay_core::{
    BoundClass, Class, Filter, IdentityFilter, Instance, MaterialClass, ObjectClass, ShapeClass,
    Sphere,
};

#[test]
fn class_names_and_methods() {
    assert_eq!(ShapeClass::name(), "shape");
    assert_eq!(ShapeClass::methods(), vec!["hit".to_string()]);
    assert_eq!(BoundClass::name(), "bound");
    assert_eq!(BoundClass::methods(), vec!["bound".to_string()]);
    assert_eq!(MaterialClass::name(), "material");
    assert_eq!(MaterialClass::methods(), vec!["apply".to_string()]);
}

#[test]
fn object_class_joins_shape_and_material_methods() {
    assert_eq!(ObjectClass::name(), "object");
    assert_eq!(ObjectClass::methods(), vec!["hit".to_string(), "apply".to_string()]);
}

#[test]
fn sphere_is_an_instance_of_shape_and_bound() {
    assert_eq!(<Sphere as Instance<ShapeClass>>::inst_name(), "sphere");
    assert_eq!(<Sphere as Instance<BoundClass>>::inst_name(), "sphere");
}

#[test]
fn a_sphere_bounds_itself() {
    let s = Sphere { pos_x: 1, pos_y: 2, pos_z: 3, rad: 4 };
    let b: Option<Sphere> = s.bound();
    assert_eq!(b, Some(s));
}

#[test]
fn identity_filter_passes_lanes_through() {
    let f = IdentityFilter {};
    assert_eq!(IdentityFilter::name(), "identity_filter");
    assert_eq!(f.apply(0), 0);
    assert_eq!(f.apply(123_456_789), 123_456_789);
}
