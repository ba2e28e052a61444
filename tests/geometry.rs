use gpu_life::quad::{quad_geometry, QuadCorner};
use gpu_life::schedule::{grid_size_for_window, workgroups};

#[test]
fn quad_has_four_corners_and_two_triangles() {
    let (corners, indices) = quad_geometry();
    assert_eq!(
        corners,
        vec![
            QuadCorner { x_sign: -1, y_sign: -1, u: 0, v: 1 },
            QuadCorner { x_sign: -1, y_sign: 1, u: 0, v: 0 },
            QuadCorner { x_sign: 1, y_sign: 1, u: 1, v: 0 },
            QuadCorner { x_sign: 1, y_sign: -1, u: 1, v: 1 },
        ]
    );
    assert_eq!(indices, vec![0, 2, 1, 0, 3, 2]);
}

#[test]
fn workgroups_cover_the_grid() {
    assert_eq!(workgroups(128, 256), (16, 32));
    assert_eq!(workgroups(8, 8), (1, 1));
    assert_eq!(workgroups(0, 64), (0, 8));
}

#[test]
fn window_size_rounds_down_to_groups() {
    assert_eq!(grid_size_for_window(256, 512, 2), (128, 256));
    assert_eq!(grid_size_for_window(301, 99, 2), (144, 48));
    assert_eq!(grid_size_for_window(15, 7, 1), (8, 0));
}
