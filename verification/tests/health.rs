use wizardwars::health::Health;

#[test]
fn set_health_value() {
    let mut health = Health::new(100);

    assert_eq!(health.current(), 100);
    assert_eq!(health.maximum(), 100);

    health.set_to(50);
    assert_eq!(health.current(), 50);
    assert_eq!(health.maximum(), 100);

    health.set_to(150);
    assert_eq!(health.current(), 100);
    assert_eq!(health.maximum(), 100);

    health.set_to(0);
    assert_eq!(health.current(), 0);
    assert_eq!(health.maximum(), 100);
}

#[test]
fn change_health() {
    let mut health = Health::new(100);

    assert_eq!(health.current(), 100);
    assert_eq!(health.maximum(), 100);

    health.change_by(50);
    assert_eq!(health.current(), 100);
    assert_eq!(health.maximum(), 100);

    health.change_by(-50);
    assert_eq!(health.current(), 50);
    assert_eq!(health.maximum(), 100);

    health.change_by(10);
    assert_eq!(health.current(), 60);
    assert_eq!(health.maximum(), 100);

    health.change_by(-70);
    assert_eq!(health.current(), 0);
    assert_eq!(health.maximum(), 100);
}

#[test]
fn should_die() {
    let mut health = Health::new(10);
    assert!(!health.should_die());

    health.change_by(-10);
    assert!(health.should_die());
}

#[test]
fn set_maximum() {
    let mut health = Health::new(10);

    health.set_maximum(20);
    assert_eq!(health.current(), 10);
    assert_eq!(health.maximum(), 20);

    health.set_maximum(5);
    assert_eq!(health.current(), 5);
    assert_eq!(health.maximum(), 5);
}
