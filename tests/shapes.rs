use sphere_tracer::shapes::{
    is_pixel_in_circle, is_pixel_in_triangle, is_point_in_circle, is_point_in_triangle, Circle,
    ShapePoint, Triangle,
};
use sphere_tracer::screen::{pixel_to_device, DevicePoint};

#[test]
fn centre_pixel_is_in_both_shapes() {
    assert!(is_pixel_in_circle(256, 256, 512, 512));
    assert!(is_pixel_in_triangle(256, 256, 512, 512));
}

#[test]
fn corner_pixel_is_in_neither_shape() {
    assert!(!is_pixel_in_circle(0, 0, 512, 512));
    assert!(!is_pixel_in_triangle(0, 0, 512, 512));
}

#[test]
fn middle_row_of_ten_by_ten() {
    let circle: Vec<bool> = (0..10).map(|c| is_pixel_in_circle(5, c, 10, 10)).collect();
    let triangle: Vec<bool> = (0..10).map(|c| is_pixel_in_triangle(5, c, 10, 10)).collect();
    assert_eq!(
        circle,
        vec![false, false, false, false, true, true, true, false, false, false]
    );
    assert_eq!(
        triangle,
        vec![false, false, false, true, true, true, false, false, false, false]
    );
}

#[test]
fn triangle_off_centre_pixels() {
    assert!(is_pixel_in_triangle(2, 2, 10, 10));
    assert!(is_pixel_in_triangle(7, 3, 10, 10));
    assert!(!is_pixel_in_triangle(1, 1, 10, 10));
    assert!(!is_pixel_in_triangle(8, 8, 10, 10));
}

#[test]
fn circle_boundary_is_inside() {
    // x = 0.3 exactly, y = 0
    assert!(is_pixel_in_circle(10, 13, 20, 20));
    // x = 0.4
    assert!(!is_pixel_in_circle(10, 14, 20, 20));
}

#[test]
fn triangle_corner_is_inside() {
    // (-0.75, -0.75) is a corner
    assert!(is_pixel_in_triangle(1, 1, 8, 8));
    assert!(!is_pixel_in_triangle(0, 0, 8, 8));
}

#[test]
fn device_point_of_pixel() {
    let p = pixel_to_device(1, 3, 4, 8);
    assert_eq!(p, DevicePoint { x_num: -2, x_den: 8, y_num: -2, y_den: 4 });
}

#[test]
fn general_circle_and_triangle() {
    let circle = Circle { center: ShapePoint { x: 10, y: 0 }, radius: 5 };
    // (0.5, 0) is the centre, (0.75, 0) is on the rim, (0.8, 0) is out
    let at = |x_num: i64, x_den: i64| DevicePoint { x_num, x_den, y_num: 0, y_den: 1 };
    assert!(is_point_in_circle(circle, at(1, 2)));
    assert!(is_point_in_circle(circle, at(3, 4)));
    assert!(!is_point_in_circle(circle, at(4, 5)));

    let t = Triangle {
        p0: ShapePoint { x: 0, y: 20 },
        p1: ShapePoint { x: 20, y: 0 },
        p2: ShapePoint { x: 0, y: 0 },
    };
    let p = |x_num: i64, y_num: i64| DevicePoint { x_num, x_den: 10, y_num, y_den: 10 };
    assert!(is_point_in_triangle(t, p(2, 2)));
    assert!(is_point_in_triangle(t, p(5, 5)));
    assert!(!is_point_in_triangle(t, p(6, 6)));
    assert!(!is_point_in_triangle(t, p(-1, 2)));
}
