use solid_modeling::csg::{Difference2D, Difference3D, Intersection2D, Intersection3D, Union2D, Union3D};
use solid_modeling::evaluator::Evaluator2D;
use solid_modeling::primitives::Rectangle;
use solid_modeling::transform::{Translate2D, Translate3D};
use solid_modeling::{Vec2, Vec3};

#[test]
fn evaluator_starts_with_the_ten_unit_square() {
    let e = Evaluator2D::new(800, 600);
    assert_eq!(e.width(), 800);
    assert_eq!(e.height(), 600);
    assert_eq!(e.view_min, Vec2::new(-5.0, -5.0));
    assert_eq!(e.view_max, Vec2::new(5.0, 5.0));
}

#[test]
fn evaluator_with_a_view() {
    let e = Evaluator2D::with_view(10, 20, Vec2::new(-1.0, -2.0), Vec2::new(3.0, 4.0));
    assert_eq!((e.width(), e.height()), (10, 20));
    assert_eq!(e.view_min, Vec2::new(-1.0, -2.0));
    assert_eq!(e.view_max, Vec2::new(3.0, 4.0));
}

#[test]
fn set_view_keeps_the_size_and_resize_keeps_the_view() {
    let mut e = Evaluator2D::new(800, 600);
    e.set_view(Vec2::new(0.0, 0.0), Vec2::new(1.0, 2.0));
    assert_eq!((e.width(), e.height()), (800, 600));
    assert_eq!(e.view_min, Vec2::new(0.0, 0.0));
    assert_eq!(e.view_max, Vec2::new(1.0, 2.0));
    e.resize(1024, 768);
    assert_eq!((e.width(), e.height()), (1024, 768));
    assert_eq!(e.view_min, Vec2::new(0.0, 0.0));
    assert_eq!(e.view_max, Vec2::new(1.0, 2.0));
}

#[test]
fn csg_operations_hold_their_operands() {
    let u = Union2D::new(1u8, 2u16);
    assert_eq!((u.a, u.b), (1, 2));
    let i = Intersection2D::new("a", "b");
    assert_eq!((i.a, i.b), ("a", "b"));
    let d = Difference2D::new(3i32, -4i32);
    assert_eq!((d.a, d.b), (3, -4));
    let u3 = Union3D::new(5u8, 6u8);
    assert_eq!((u3.a, u3.b), (5, 6));
    let i3 = Intersection3D::new(true, false);
    assert_eq!((i3.a, i3.b), (true, false));
    let d3 = Difference3D::new('x', 'y');
    assert_eq!((d3.a, d3.b), ('x', 'y'));
}

#[test]
fn translations_hold_the_shape_and_offset() {
    let r = Rectangle { half_extents: Vec2::new(1.0, 0.5) };
    let t = Translate2D::new(r, Vec2::new(2.0, 3.0));
    assert_eq!(t.inner.half_extents, Vec2::new(1.0, 0.5));
    assert_eq!(t.offset, Vec2::new(2.0, 3.0));
    let t3 = Translate3D::new(7u8, Vec3::new(1.0, 2.0, 3.0));
    assert_eq!(t3.inner, 7);
    assert_eq!(t3.offset, Vec3::new(1.0, 2.0, 3.0));
}

#[test]
fn binary_images_are_white_inside() {
    let e = Evaluator2D::new(2, 2);
    let pixels = e.binary_image(&vec![true, false, false, true]);
    assert_eq!(
        pixels,
        vec![255, 255, 255, 255, 0, 0, 0, 255, 0, 0, 0, 255, 255, 255, 255, 255]
    );
}

#[test]
fn color_images_lay_pixels_out_row_by_row() {
    let e = Evaluator2D::new(3, 1);
    let pixels = e.color_image(&vec![(1, 2, 3, 4), (5, 6, 7, 8), (9, 10, 11, 12)]);
    assert_eq!(pixels, (1..=12).collect::<Vec<u8>>());
    assert_eq!(Evaluator2D::new(0, 5).color_image(&vec![]), Vec::<u8>::new());
}
