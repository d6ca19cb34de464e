use frost_core::vectors::{render2, render3, render4};
use frost_core::{Vector2, Vector3, Vector4};

#[test]
fn new_keeps_the_components_in_order() {
    let v2 = Vector2::new(1, 2);
    assert_eq!((v2.x, v2.y), (1, 2));
    let v3 = Vector3::new("a", "b", "c");
    assert_eq!((v3.x, v3.y, v3.z), ("a", "b", "c"));
    let v4 = Vector4::new(1u8, 2, 3, 4);
    assert_eq!((v4.x, v4.y, v4.z, v4.w), (1, 2, 3, 4));
}

#[test]
fn vector3_addition_is_component_wise() {
    assert_eq!(Vector3::new(1, 2, 3) + Vector3::new(1, 1, 1), Vector3::new(2, 3, 4));
}

#[test]
fn vector2_scale_multiplies_every_component() {
    assert_eq!(Vector2::new(2, 3).scale(2), Vector2::new(4, 6));
}

#[test]
fn vector3_and_vector4_scale() {
    assert_eq!(Vector3::new(1i64, -2, 3).scale(-3), Vector3::new(-3, 6, -9));
    assert_eq!(Vector4::new(1u16, 2, 3, 4).scale(10), Vector4::new(10, 20, 30, 40));
    assert_eq!(Vector2::new(1.5f64, -2.0).scale(2.0), Vector2::new(3.0, -4.0));
}

#[test]
fn vector2_arithmetic() {
    let a = Vector2::new(12, 20);
    let b = Vector2::new(3, 5);
    assert_eq!(a + b, Vector2::new(15, 25));
    assert_eq!(a - b, Vector2::new(9, 15));
    assert_eq!(a * b, Vector2::new(36, 100));
    assert_eq!(a / b, Vector2::new(4, 4));
}

#[test]
fn vector3_arithmetic() {
    let a = Vector3::new(12, 20, -7);
    let b = Vector3::new(3, 5, 2);
    assert_eq!(a + b, Vector3::new(15, 25, -5));
    assert_eq!(a - b, Vector3::new(9, 15, -9));
    assert_eq!(a * b, Vector3::new(36, 100, -14));
    assert_eq!(a / b, Vector3::new(4, 4, -3));
}

#[test]
fn vector4_arithmetic() {
    let a = Vector4::new(1, 2, 3, 4);
    let b = Vector4::new(4, 3, 2, 1);
    assert_eq!(a + b, Vector4::new(5, 5, 5, 5));
    assert_eq!(a - b, Vector4::new(-3, -1, 1, 3));
    assert_eq!(a * a, Vector4::new(1, 4, 9, 16));
    assert_eq!(a / b, Vector4::new(0, 0, 1, 4));
}

#[test]
fn operands_may_differ_in_element_type() {
    let owned = Vector2::new(String::from("ab"), String::from("cd"));
    let borrowed = Vector2::new("x", "yz");
    let joined = owned + borrowed;
    assert_eq!(joined, Vector2::new(String::from("abx"), String::from("cdyz")));

    let one = 1;
    let two = 2;
    let three = 3;
    let by_reference = Vector3::new(&one, &two, &three);
    assert_eq!(Vector3::new(10, 20, 30) - by_reference, Vector3::new(9, 18, 27));
    assert_eq!(Vector3::new(10, 20, 30) * by_reference, Vector3::new(10, 40, 90));
    assert_eq!(Vector3::new(10, 20, 30) / by_reference, Vector3::new(10, 10, 10));
}

#[test]
fn floating_point_components() {
    let sum = Vector4::new(0.5f32, 1.0, 1.5, 2.0) + Vector4::new(0.5f32, 0.5, 0.5, 0.5);
    assert_eq!(sum, Vector4::new(1.0, 1.5, 2.0, 2.5));
    let quotient = Vector2::new(1.0f64, 9.0) / Vector2::new(4.0f64, 3.0);
    assert_eq!(quotient, Vector2::new(0.25, 3.0));
}

#[test]
fn vectors_of_copyable_elements_are_copied() {
    let v = Vector3::new(1, 2, 3);
    let doubled = v + v;
    assert_eq!(doubled, Vector3::new(2, 4, 6));
    assert_eq!(v, Vector3::new(1, 2, 3));
    let cloned = Vector2::new(String::from("a"), String::from("b")).clone();
    assert_eq!(cloned.x, "a");
}

#[test]
fn text_lists_every_component_in_order() {
    assert_eq!(Vector2::new(1, 2).to_string(), "[x: 1, y: 2]");
    assert_eq!(Vector3::new(-1, 0, 1).to_string(), "[x: -1, y: 0, z: 1]");
    assert_eq!(Vector4::new(1, 4, 9, 16).to_string(), "[x: 1, y: 4, z: 9, w: 16]");
    assert_eq!(Vector2::new(0.5, 2.25).to_string(), "[x: 0.5, y: 2.25]");
    assert_eq!(Vector2::new("a", "b").to_string(), "[x: a, y: b]");
}

#[test]
fn frames_take_any_rendering() {
    assert_eq!(render2("", ""), "[x: , y: ]");
    assert_eq!(render3("1", "2", "3"), "[x: 1, y: 2, z: 3]");
    assert_eq!(render4("a", "b", "c", "d"), "[x: a, y: b, z: c, w: d]");
}
