use sdf_quad::uniforms::{build_uniforms, Uniforms, DEFAULT_HEIGHT, DEFAULT_WIDTH};

#[test]
fn fallback_resolution_when_no_size() {
    let u = build_uniforms(None);
    assert_eq!(u, Uniforms { width: 1280, height: 800 });
    assert_eq!(u.width as f32, 1280.0);
    assert_eq!(u.height as f32, 800.0);
}

#[test]
fn reported_size_is_taken_as_is() {
    let u = build_uniforms(Some((640, 480)));
    assert_eq!(u, Uniforms { width: 640, height: 480 });
    assert_eq!(u.width as f32, 640.0);
    assert_eq!(u.height as f32, 480.0);
}

#[test]
fn defaults_are_the_fixed_constants() {
    assert_eq!(DEFAULT_WIDTH, 1280);
    assert_eq!(DEFAULT_HEIGHT, 800);
    let u = build_uniforms(Some((DEFAULT_WIDTH, DEFAULT_HEIGHT)));
    assert_eq!(u, build_uniforms(None));
}
