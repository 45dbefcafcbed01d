use rust_drone_follow::geometric_point::GeometricPoint;
use rust_drone_follow::point_converter::RasterPoint;
use rust_drone_follow::point_systems::centralized::Centralized;

#[test]
fn centralized_center_x_should_be_zero() {
    let sut = Centralized::new(640, 480);

    assert_eq!(sut.get_center().x, 0)
}

#[test]
fn centralized_center_y_should_be_zero() {
    let sut = Centralized::new(640, 480);

    assert_eq!(sut.get_center().y, 0)
}

#[test]
fn centralized_point_should_map_to_m320_240() {
    let sut = Centralized::new(640, 480);
    let point = RasterPoint::new(0, 0);
    let new_point = sut.from_image_coords(&point);

    assert!(new_point.x == -320 && new_point.y == 240)
}

#[test]
fn centralized_point_should_map_to_320_m240() {
    let sut = Centralized::new(640, 480);
    let point = RasterPoint::new(640, 480);
    let new_point = sut.from_image_coords(&point);

    assert!(new_point.x == 320 && new_point.y == -240)
}

#[test]
fn centralized_point_should_map_to_m320_m240() {
    let sut = Centralized::new(640, 480);
    let point = RasterPoint::new(0, 480);
    let new_point = sut.from_image_coords(&point);

    assert!(new_point.x == -320 && new_point.y == -240)
}

#[test]
fn centralized_point_should_map_to_320_240() {
    let sut = Centralized::new(640, 480);
    let point = RasterPoint::new(640, 0);
    let new_point = sut.from_image_coords(&point);

    assert!(new_point.x == 320 && new_point.y == 240)
}

#[test]
fn centralized_point_should_map_to_0_0() {
    let sut = Centralized::new(640, 480);
    let point = GeometricPoint::new(-320, 240);
    let new_point = sut.to_image_coords(&point);

    assert!(new_point.x == 0 && new_point.y == 0)
}

#[test]
fn centralized_point_should_map_to_640_480() {
    let sut = Centralized::new(640, 480);
    let point = GeometricPoint::new(320, -240);
    let new_point = sut.to_image_coords(&point);

    assert!(new_point.x == 640 && new_point.y == 480)
}

#[test]
fn centralized_point_should_map_to_0_480() {
    let sut = Centralized::new(640, 480);
    let point = GeometricPoint::new(-320, -240);
    let new_point = sut.to_image_coords(&point);

    assert!(new_point.x == 0 && new_point.y == 480)
}

#[test]
fn centralized_point_should_map_to_640_0() {
    let sut = Centralized::new(640, 480);
    let point = GeometricPoint::new(320, 240);
    let new_point = sut.to_image_coords(&point);

    assert!(new_point.x == 640 && new_point.y == 0)
}
