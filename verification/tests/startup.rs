use shaderpad::geometry::{full_surface_triangle, ClipVertex};
use shaderpad::startup::{scale_mode, ScaleMode, StartupError, WINDOW_TITLE};

fn parsed(text: &str) -> Result<u64, String> {
    match text.parse::<f64>() {
        Ok(factor) => Ok(factor.to_bits()),
        Err(error) => Err(error.to_string()),
    }
}

#[test]
fn no_scale_factor_means_platform_default() {
    assert_eq!(scale_mode(None), Ok(ScaleMode::Default));
}

#[test]
fn parsed_scale_factor_is_locked() {
    assert_eq!(scale_mode(Some(parsed("1.5"))), Ok(ScaleMode::Locked(1.5f64.to_bits())));
    assert_eq!(scale_mode(Some(parsed("2"))), Ok(ScaleMode::Locked(2.0f64.to_bits())));
    match scale_mode(Some(parsed("0.75"))) {
        Ok(ScaleMode::Locked(bits)) => assert_eq!(f64::from_bits(bits), 0.75),
        other => panic!("{:?}", other),
    }
}

#[test]
fn unparsable_scale_factor_ends_startup() {
    let detail = "abc".parse::<f64>().unwrap_err().to_string();
    let mode = scale_mode(Some(parsed("abc")));
    assert_eq!(mode, Err(StartupError::InvalidScaleFactor(detail.clone())));
    let message = mode.unwrap_err().message();
    assert_eq!(message, format!("Invalid scaling factor: {}", detail));
}

#[test]
fn empty_scale_factor_is_unparsable_too() {
    assert!(matches!(scale_mode(Some(parsed(""))), Err(StartupError::InvalidScaleFactor(_))));
}

#[test]
fn message_of_a_failed_first_compile() {
    let error = StartupError::InitialCompile(String::from("0:3: unexpected '('"));
    assert_eq!(error.message(), "Initial shader compile failed: 0:3: unexpected '('");
}

#[test]
fn window_title() {
    assert_eq!(WINDOW_TITLE, "Shaderpad");
}

#[test]
fn triangle_overruns_the_clip_range_on_two_corners() {
    let shape = full_surface_triangle();
    assert_eq!(
        shape,
        vec![
            ClipVertex { x: -1, y: -1 },
            ClipVertex { x: 3, y: -1 },
            ClipVertex { x: -1, y: 3 },
        ]
    );
}

#[test]
fn triangle_holds_a_grid_of_points_of_the_clip_range() {
    let shape = full_surface_triangle();
    let edge = |p: &ClipVertex, q: &ClipVertex, x: f64, y: f64| {
        f64::from(q.x - p.x) * (y - f64::from(p.y)) - f64::from(q.y - p.y) * (x - f64::from(p.x))
    };
    for i in -8..=8 {
        for j in -8..=8 {
            let (x, y) = (f64::from(i) / 8.0, f64::from(j) / 8.0);
            assert!(edge(&shape[0], &shape[1], x, y) >= 0.0);
            assert!(edge(&shape[1], &shape[2], x, y) >= 0.0);
            assert!(edge(&shape[2], &shape[0], x, y) >= 0.0);
        }
    }
    assert!(edge(&shape[1], &shape[2], 1.0, 1.0) == 0.0);
    assert!(edge(&shape[1], &shape[2], 1.5, 1.0) < 0.0);
}

#[test]
fn triangle_holds_every_corner_of_the_clip_range() {
    let shape = full_surface_triangle();
    for (x, y) in [(-1, -1), (1, -1), (-1, 1), (1, 1), (0, 0)] {
        assert!(x >= shape[0].x && y >= shape[0].y);
        assert!(x + y <= shape[1].x + shape[1].y);
    }
}
