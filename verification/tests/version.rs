use zenver::Version;

#[test]
fn test_new_version() {
    let version = Version::new(1);
    assert_eq!(version.number(), 1);
}

#[test]
fn test_next_version() {
    let mut version = Version::new(1);
    version.next();
    assert_eq!(version.number(), 2);
}

#[test]
fn test_to_string() {
    let version = Version::new(123);
    assert_eq!(version.render(), "123");
}

#[test]
fn render_zero() {
    let version = Version::new(0);
    assert_eq!(version.render(), "0");
}

#[test]
fn render_one() {
    let version = Version::new(1);
    assert_eq!(version.render(), "1");
}

#[test]
fn increment_then_render() {
    let mut version = Version::new(1);
    version.next();
    assert_eq!(version.render(), "2");
}

#[test]
fn render_is_repeatable() {
    let version = Version::new(41);
    let first = version.render();
    let second = version.render();
    assert_eq!(first, second);
    assert_eq!(first, "41");
}

#[test]
fn repeated_increments_add_up() {
    let mut version = Version::new(5);
    version.next();
    version.next();
    version.next();
    assert_eq!(version.number(), 8);
    assert_eq!(version.render(), "8");
}

#[test]
fn render_keeps_interior_zeros() {
    let version = Version::new(1000);
    assert_eq!(version.render(), "1000");
}

#[test]
fn render_maximum_value() {
    let version = Version::new(u128::MAX);
    assert_eq!(version.render(), "340282366920938463463374607431768211455");
}

#[test]
fn increment_wraps_at_maximum() {
    let mut version = Version::new(u128::MAX);
    version.next();
    assert_eq!(version.number(), 0);
    assert_eq!(version.render(), "0");
}
