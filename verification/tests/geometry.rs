use pixel2d::color::Color;
use pixel2d::command::Command;
use pixel2d::debug::{check_error, GLError};
use pixel2d::pos::Pos;
use pixel2d::position::Position;
use pixel2d::rect::Rect;
use pixel2d::size::Size;
use pixel2d::vec2d::Vec2D;
use pixel2d::viewport::Viewport;

#[test]
fn color_constructors() {
    assert_eq!(Color::black(), Color(0, 0, 0, 255));
    assert_eq!(Color::white(), Color(255, 255, 255, 255));
    assert_eq!(Color::red(), Color(255, 0, 0, 255));
    assert_eq!(Color::green(), Color(0, 255, 0, 255));
    assert_eq!(Color::blue(), Color(0, 0, 255, 255));
    assert_eq!(Color::rgb(9, 8, 7), Color(9, 8, 7, 255));
    assert_eq!(Color::default(), Color::black());

    let c = Color(1, 2, 3, 4);
    assert_eq!((c.r(), c.g(), c.b(), c.a()), (1, 2, 3, 4));
}

#[test]
fn vector_accessors() {
    let v = Vec2D::new(10, -3);
    assert_eq!(v.into_inner(), (10, -3));
    assert_eq!(v.width(), 10);
    assert_eq!(v.height(), -3);
    assert_eq!(Vec2D::new(9, 5).half(), Vec2D::new(4, 2));
    // Halving rounds toward zero, also for negative components.
    assert_eq!(Vec2D::new(-9, -4).half(), Vec2D::new(-4, -2));

    assert_eq!(Pos(3, 4).as_size(), Size(3, 4));
    assert_eq!(Size(3, 4).as_pos(), Pos(3, 4));
    assert_eq!(Size(9, 5).half(), Size(4, 2));
}

#[test]
fn rect_accessors_and_intersections() {
    let r = Rect::new(Vec2D::new(2, 3), Vec2D::new(10, 20));

    assert_eq!(r.pos(), Vec2D::new(2, 3));
    assert_eq!(r.size(), Vec2D::new(10, 20));
    assert_eq!(r.left(), 2);
    assert_eq!(r.right(), 12);
    assert_eq!(r.bot(), 3);
    assert_eq!(r.top(), 23);
    assert_eq!(r.center(), Vec2D::new(7, 13));

    assert!(r.intersects_point(Vec2D::new(2, 3)));
    assert!(r.intersects_point(Vec2D::new(11, 22)));
    assert!(!r.intersects_point(Vec2D::new(12, 3)));
    assert!(!r.intersects_point(Vec2D::new(2, 23)));

    let other = Rect::new(Vec2D::new(11, 3), Vec2D::new(5, 5));
    assert!(r.intersects_rect(other));
    let far = Rect::new(Vec2D::new(30, 30), Vec2D::new(5, 5));
    assert!(!r.intersects_rect(far));
}

#[test]
fn anchored_placement() {
    let frame = Rect::new(Vec2D::new(0, 0), Vec2D::new(100, 100));
    let size = Vec2D::new(10, 20);

    assert_eq!(
        Position::Center.rect(frame, size),
        Rect { x: 45, y: 40, width: 10, height: 20 },
    );
    assert_eq!(
        Position::Left(4).rect(frame, size),
        Rect { x: 4, y: 40, width: 10, height: 20 },
    );
    assert_eq!(
        Position::Right(4).rect(frame, size),
        Rect { x: 86, y: 40, width: 10, height: 20 },
    );
    assert_eq!(
        Position::Bot(4).rect(frame, size),
        Rect { x: 45, y: 4, width: 10, height: 20 },
    );
    assert_eq!(
        Position::Top(4).rect(frame, size),
        Rect { x: 45, y: 76, width: 10, height: 20 },
    );
    assert_eq!(
        Position::LeftBot(1, 2).rect(frame, size),
        Rect { x: 1, y: 2, width: 10, height: 20 },
    );
    assert_eq!(
        Position::LeftTop(1, 2).rect(frame, size),
        Rect { x: 1, y: 78, width: 10, height: 20 },
    );
    assert_eq!(
        Position::RightBot(1, 2).rect(frame, size),
        Rect { x: 89, y: 2, width: 10, height: 20 },
    );
    assert_eq!(
        Position::RightTop(1, 2).rect(frame, size),
        Rect { x: 89, y: 78, width: 10, height: 20 },
    );
    assert_eq!(Position::default(), Position::Center);
}

#[test]
fn checked_placement_rejects_unrepresentable_boxes() {
    let frame = Rect::new(Vec2D::new(0, 0), Vec2D::new(100, 100));
    let size = Vec2D::new(10, 20);

    assert_eq!(
        Position::Center.checked_rect(frame, size),
        Some(Rect { x: 45, y: 40, width: 10, height: 20 }),
    );
    // A negative dimension is refused ...
    assert_eq!(Position::Center.checked_rect(frame, Vec2D::new(-1, 1)), None);
    // ... and so is a placement beyond the coordinate range.
    assert_eq!(Position::Right(i32::MIN).checked_rect(frame, size), None);
}

#[test]
fn viewport_skips_redundant_and_negative_sizes() {
    let mut q: Vec<Command> = Vec::new();
    let mut viewport = Viewport::new(Vec2D::new(10, 10), &mut q);

    assert_eq!(q, vec![Command::SetViewport { width: 10, height: 10 }]);

    // The same size again is a no-op.
    viewport.resize(Vec2D::new(10, 10), &mut q);
    assert_eq!(q.len(), 1);

    // A negative dimension is recorded but never forwarded.
    viewport.resize(Vec2D::new(-5, 10), &mut q);
    assert_eq!(q.len(), 1);
    assert_eq!(viewport.size(), Vec2D::new(-5, 10));

    viewport.resize(Vec2D::new(20, 10), &mut q);
    assert_eq!(q.len(), 2);
    assert_eq!(q[1], Command::SetViewport { width: 20, height: 10 });
}

#[test]
fn gl_error_codes_are_typed() {
    assert_eq!(check_error(0), Ok(()));
    assert_eq!(check_error(0x0500), Err(GLError::InvalidEnum));
    assert_eq!(check_error(0x0501), Err(GLError::InvalidValue));
    assert_eq!(check_error(0x0502), Err(GLError::InvalidOperation));
    assert_eq!(check_error(0x0503), Err(GLError::StackOverflow));
    assert_eq!(check_error(0x0504), Err(GLError::StackUnderflow));
    assert_eq!(check_error(0x0505), Err(GLError::OutOfMemory));
    assert_eq!(check_error(0x0506), Err(GLError::InvalidFramebufferOperation));
    assert_eq!(check_error(0x0507), Err(GLError::ContextLost));
}
