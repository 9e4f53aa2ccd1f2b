use vstd::prelude::*;

verus! {

/// Length units in one pixel: coordinates, sizes and speeds are whole
/// thousandths of a pixel.
pub const SCALE: i64 = 1000;

/// The size of a body, in length units.
#[derive(Clone, Copy, Debug, PartialEq, Eq, Structural)]
pub struct Size {
    pub width: i64,
    pub height: i64,
}

impl Size {
    pub fn new(width: i64, height: i64) -> (r: Size)
        ensures
            r.width == width,
            r.height == height,
    {
        Size { width, height }
    }

    /// The size of an image of whole pixels.
    pub fn from_pixels(width: i32, height: i32) -> (r: Size)
        ensures
            r.width == width * SCALE,
            r.height == height * SCALE,
    {
        Size { width: width as i64 * SCALE, height: height as i64 * SCALE }
    }
}

/// A point or a displacement in the plane; `y` grows downwards.
#[derive(Clone, Copy, Debug, PartialEq, Eq, Structural)]
pub struct Vec2 {
    pub x: i64,
    pub y: i64,
}

impl Vec2 {
    pub fn new(x: i64, y: i64) -> (r: Vec2)
        ensures
            r.x == x,
            r.y == y,
    {
        Vec2 { x, y }
    }

    pub fn zero() -> (r: Vec2)
        ensures
            r.x == 0,
            r.y == 0,
    {
        Vec2 { x: 0, y: 0 }
    }
}

/// An axis-aligned rectangle: top-left corner and size.
#[derive(Clone, Copy, Debug, PartialEq, Eq, Structural)]
pub struct Rect {
    pub x: i64,
    pub y: i64,
    pub width: i64,
    pub height: i64,
}

impl Rect {
    /// Whether the far edges of the rectangle are representable.
    pub open spec fn edges_fit(self) -> bool {
        i64::MIN <= self.x + self.width <= i64::MAX && i64::MIN <= self.y + self.height
            <= i64::MAX
    }

    /// The two rectangles share interior points (touching edges do not count).
    pub open spec fn overlaps(self, other: Rect) -> bool {
        &&& self.x < other.x + other.width
        &&& self.x + self.width > other.x
        &&& self.y < other.y + other.height
        &&& self.y + self.height > other.y
    }

    pub fn intersects(&self, other: &Rect) -> (r: bool)
        requires
            self.edges_fit(),
            other.edges_fit(),
        ensures
            r == self.overlaps(*other),
    {
        self.x < other.x + other.width && self.x + self.width > other.x && self.y < other.y
            + other.height && self.y + self.height > other.y
    }
}

/// A rectangular body: top-left position, velocity per tick, and a size that
/// the game never changes.
#[derive(Clone, Copy, Debug, PartialEq, Eq, Structural)]
pub struct Entity {
    pub position: Vec2,
    pub velocity: Vec2,
    pub width: i64,
    pub height: i64,
}

impl Entity {
    /// The horizontal coordinate of the centre.
    pub open spec fn centre_x(self) -> int {
        self.position.x + self.width / 2
    }

    /// The vertical coordinate of the centre.
    pub open spec fn centre_y(self) -> int {
        self.position.y + self.height / 2
    }

    /// The rectangle that the entity covers.
    pub open spec fn rect(self) -> Rect {
        Rect { x: self.position.x, y: self.position.y, width: self.width, height: self.height }
    }

    /// Size is non-negative and the far edges are representable.
    pub open spec fn fits(self) -> bool {
        self.width >= 0 && self.height >= 0 && self.rect().edges_fit()
    }

    /// An entity at rest.
    pub fn new(width: i64, height: i64, position: Vec2) -> (r: Entity)
        ensures
            r.width == width,
            r.height == height,
            r.position == position,
            r.velocity == Vec2::zero_spec(),
    {
        Entity::with_velocity(width, height, position, Vec2::zero())
    }

    pub fn with_velocity(width: i64, height: i64, position: Vec2, velocity: Vec2) -> (r: Entity)
        ensures
            r.width == width,
            r.height == height,
            r.position == position,
            r.velocity == velocity,
    {
        Entity { position, velocity, width, height }
    }

    pub fn width(&self) -> (r: i64)
        ensures
            r == self.width,
    {
        self.width
    }

    pub fn height(&self) -> (r: i64)
        ensures
            r == self.height,
    {
        self.height
    }

    pub fn centre(&self) -> (r: Vec2)
        requires
            self.fits(),
        ensures
            r.x == self.centre_x(),
            r.y == self.centre_y(),
    {
        Vec2 { x: self.position.x + self.width / 2, y: self.position.y + self.height / 2 }
    }

    pub fn bounds(&self) -> (r: Rect)
        ensures
            r == self.rect(),
    {
        Rect {
            x: self.position.x,
            y: self.position.y,
            width: self.width,
            height: self.height,
        }
    }
}

impl Vec2 {
    pub open spec fn zero_spec() -> Vec2 {
        Vec2 { x: 0, y: 0 }
    }
}

} // verus!
