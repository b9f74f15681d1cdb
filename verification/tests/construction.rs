use bouncing_ball::ball::Ball;
use bouncing_ball::ball::DEFAULT_RADIUS;
use bouncing_ball::ball::DEFAULT_SPEED;
use bouncing_ball::ball::WINDOW_HEIGHT;
use bouncing_ball::ball::WINDOW_WIDTH;
use bouncing_ball::geometry::Boundary;
use bouncing_ball::geometry::Vec2;
use bouncing_ball::units::MAX_MAGNITUDE;
use bouncing_ball::units::TICKS_PER_SECOND;
use bouncing_ball::units::UNITS_PER_PIXEL;

const PX: i64 = 1_000_000;

fn window() -> Boundary {
    Boundary { width: 1366 * PX, height: 768 * PX }
}

#[test]
fn units_subdivide_pixels_and_seconds_alike() {
    assert_eq!(UNITS_PER_PIXEL, 1_000_000);
    assert_eq!(TICKS_PER_SECOND, 1_000_000);
    assert_eq!(MAX_MAGNITUDE, 1_000_000_000_000_000_000);
}

#[test]
fn default_constants_are_in_display_units() {
    assert_eq!(WINDOW_WIDTH, 1366);
    assert_eq!(WINDOW_HEIGHT, 768);
    assert_eq!(DEFAULT_RADIUS, 30);
    assert_eq!(DEFAULT_SPEED, 500);
}

#[test]
fn default_ball_sits_at_the_centre() {
    let ball = Ball::default();
    assert_eq!(ball.radius(), 30 * PX);
    assert_eq!(ball.position(), Vec2 { x: 683 * PX, y: 384 * PX });
    assert_eq!(ball.velocity(), Vec2 { x: 500, y: -500 });
    assert_eq!(ball.boundary(), window());
    assert!(ball.is_contained());
    assert!(ball.fits());
}

#[test]
fn default_ball_equals_the_one_made_from_its_parts() {
    let made = Ball::new(
        window(),
        30 * PX,
        Vec2 { x: 683 * PX, y: 384 * PX },
        Vec2 { x: 500, y: -500 },
    );
    assert_eq!(made, Some(Ball::default()));
}

#[test]
fn new_keeps_what_it_is_given() {
    let boundary = Boundary { width: 200, height: 100 };
    let ball = Ball::new(boundary, 7, Vec2 { x: 50, y: 60 }, Vec2 { x: -3, y: 4 }).unwrap();
    assert_eq!(ball.radius(), 7);
    assert_eq!(ball.position(), Vec2 { x: 50, y: 60 });
    assert_eq!(ball.velocity(), Vec2 { x: -3, y: 4 });
    assert_eq!(ball.boundary(), boundary);
    assert_eq!(ball.left(), 43);
    assert_eq!(ball.right(), 57);
    assert_eq!(ball.top(), 53);
    assert_eq!(ball.bottom(), 67);
}

#[test]
fn new_accepts_a_body_that_touches_all_four_walls() {
    let boundary = Boundary { width: 20, height: 20 };
    let ball = Ball::new(boundary, 10, Vec2 { x: 10, y: 10 }, Vec2 { x: 0, y: 0 }).unwrap();
    assert_eq!(ball.left(), 0);
    assert_eq!(ball.right(), 20);
    assert_eq!(ball.top(), 0);
    assert_eq!(ball.bottom(), 20);
    assert!(ball.is_contained());
    assert!(ball.fits());
}

#[test]
fn new_refuses_a_radius_that_is_not_positive() {
    let boundary = Boundary { width: 200, height: 100 };
    let zero = Vec2 { x: 0, y: 0 };
    assert_eq!(Ball::new(boundary, 0, Vec2 { x: 50, y: 50 }, zero), None);
    assert_eq!(Ball::new(boundary, -1, Vec2 { x: 50, y: 50 }, zero), None);
    assert_eq!(Ball::new(boundary, i64::MIN, Vec2 { x: 50, y: 50 }, zero), None);
}

#[test]
fn new_refuses_a_body_that_reaches_past_a_wall() {
    let boundary = Boundary { width: 200, height: 100 };
    let zero = Vec2 { x: 0, y: 0 };
    assert_eq!(Ball::new(boundary, 10, Vec2 { x: 9, y: 50 }, zero), None);
    assert_eq!(Ball::new(boundary, 10, Vec2 { x: 191, y: 50 }, zero), None);
    assert_eq!(Ball::new(boundary, 10, Vec2 { x: 50, y: 9 }, zero), None);
    assert_eq!(Ball::new(boundary, 10, Vec2 { x: 50, y: 91 }, zero), None);
    assert!(Ball::new(boundary, 10, Vec2 { x: 10, y: 50 }, zero).is_some());
    assert!(Ball::new(boundary, 10, Vec2 { x: 190, y: 50 }, zero).is_some());
    assert!(Ball::new(boundary, 10, Vec2 { x: 50, y: 10 }, zero).is_some());
    assert!(Ball::new(boundary, 10, Vec2 { x: 50, y: 90 }, zero).is_some());
}

#[test]
fn new_refuses_a_body_too_large_for_its_rectangle() {
    let boundary = Boundary { width: 10, height: 10 };
    assert_eq!(Ball::new(boundary, 6, Vec2 { x: 5, y: 5 }, Vec2 { x: 0, y: 0 }), None);
}

#[test]
fn new_refuses_sides_that_are_negative() {
    let zero = Vec2 { x: 0, y: 0 };
    assert_eq!(Ball::new(Boundary { width: -1, height: 100 }, 1, Vec2 { x: 1, y: 1 }, zero), None);
    assert_eq!(Ball::new(Boundary { width: 100, height: -1 }, 1, Vec2 { x: 1, y: 1 }, zero), None);
}

#[test]
fn new_refuses_numbers_beyond_the_storable_magnitude() {
    let centre = Vec2 { x: 50, y: 50 };
    let zero = Vec2 { x: 0, y: 0 };
    let boundary = Boundary { width: 100, height: 100 };
    assert_eq!(Ball::new(boundary, 10, centre, Vec2 { x: MAX_MAGNITUDE + 1, y: 0 }), None);
    assert_eq!(Ball::new(boundary, 10, centre, Vec2 { x: 0, y: -MAX_MAGNITUDE - 1 }), None);
    assert_eq!(Ball::new(boundary, 10, centre, Vec2 { x: i64::MIN, y: 0 }), None);
    assert_eq!(Ball::new(boundary, 10, centre, Vec2 { x: 0, y: i64::MAX }), None);
    assert_eq!(Ball::new(Boundary { width: MAX_MAGNITUDE + 1, height: 100 }, 10, centre, zero), None);
    assert_eq!(Ball::new(Boundary { width: 100, height: i64::MAX }, 10, centre, zero), None);
    assert_eq!(Ball::new(boundary, i64::MAX, centre, zero), None);
    assert_eq!(Ball::new(boundary, 10, Vec2 { x: i64::MAX, y: 50 }, zero), None);
    assert_eq!(Ball::new(boundary, 10, Vec2 { x: 50, y: i64::MIN }, zero), None);
}

#[test]
fn new_accepts_the_largest_storable_numbers() {
    let boundary = Boundary { width: MAX_MAGNITUDE, height: MAX_MAGNITUDE };
    let ball = Ball::new(
        boundary,
        MAX_MAGNITUDE / 2,
        Vec2 { x: MAX_MAGNITUDE / 2, y: MAX_MAGNITUDE / 2 },
        Vec2 { x: MAX_MAGNITUDE, y: -MAX_MAGNITUDE },
    )
    .unwrap();
    assert_eq!(ball.left(), 0);
    assert_eq!(ball.right(), MAX_MAGNITUDE);
    assert!(ball.is_contained());
}

#[test]
fn set_radius_takes_a_positive_radius() {
    let mut ball = Ball::default();
    assert!(ball.set_radius(PX));
    assert_eq!(ball.radius(), PX);
    assert!(ball.set_radius(100 * PX));
    assert_eq!(ball.radius(), 100 * PX);
    assert_eq!(ball.position(), Vec2 { x: 683 * PX, y: 384 * PX });
    assert_eq!(ball.velocity(), Vec2 { x: 500, y: -500 });
    assert_eq!(ball.boundary(), window());
    assert!(ball.set_radius(MAX_MAGNITUDE));
    assert_eq!(ball.radius(), MAX_MAGNITUDE);
}

#[test]
fn set_radius_refuses_what_is_not_a_radius() {
    let mut ball = Ball::default();
    assert!(!ball.set_radius(0));
    assert!(!ball.set_radius(-5));
    assert!(!ball.set_radius(MAX_MAGNITUDE + 1));
    assert!(!ball.set_radius(i64::MIN));
    assert_eq!(ball, Ball::default());
}

#[test]
fn set_radius_may_leave_the_body_past_a_wall() {
    let boundary = Boundary { width: 100, height: 100 };
    let mut ball = Ball::new(boundary, 5, Vec2 { x: 5, y: 50 }, Vec2 { x: 0, y: 0 }).unwrap();
    assert!(ball.is_contained());
    assert!(ball.set_radius(10));
    assert_eq!(ball.position(), Vec2 { x: 5, y: 50 });
    assert_eq!(ball.left(), -5);
    assert!(!ball.is_contained());
    assert!(ball.fits());
}

#[test]
fn fits_compares_the_diameter_with_both_sides() {
    let boundary = Boundary { width: 100, height: 40 };
    let mut ball = Ball::new(boundary, 20, Vec2 { x: 50, y: 20 }, Vec2 { x: 0, y: 0 }).unwrap();
    assert!(ball.fits());
    assert!(ball.set_radius(21));
    assert!(!ball.fits());
    assert!(ball.set_radius(50));
    assert!(!ball.fits());
    assert!(ball.set_radius(1));
    assert!(ball.fits());
}
