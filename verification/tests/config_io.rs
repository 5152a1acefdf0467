use arctic_drone_sim::config::{default_wind_field_dir, formation_names};
use arctic_drone_sim::io::{check_component_shape, IoError};

#[test]
fn default_wind_field_dir_points_at_mann_field() {
    assert_eq!(default_wind_field_dir(), "output/wind_fields/mann_anisotropic");
}

#[test]
fn formation_names_leader_first() {
    let names = formation_names(&vec!["left".to_string(), "right".to_string()]);
    assert_eq!(names, vec!["leader".to_string(), "left".to_string(), "right".to_string()]);
}

#[test]
fn formation_names_without_followers() {
    assert_eq!(formation_names(&Vec::new()), vec!["leader".to_string()]);
}

#[test]
fn matching_component_shape_is_accepted() {
    assert!(check_component_shape([11, 11, 50], [11, 11, 50]).is_ok());
}

#[test]
fn mismatched_component_shape_is_reported() {
    match check_component_shape([11, 11, 50], [11, 12, 50]) {
        Err(IoError::ShapeMismatch(found, reference)) => {
            assert_eq!(found, [11, 12, 50]);
            assert_eq!(reference, [11, 11, 50]);
        }
        _ => panic!("expected a shape mismatch"),
    }
}

#[test]
fn each_axis_is_compared() {
    assert!(check_component_shape([4, 5, 6], [5, 5, 6]).is_err());
    assert!(check_component_shape([4, 5, 6], [4, 6, 6]).is_err());
    assert!(check_component_shape([4, 5, 6], [4, 5, 7]).is_err());
}
