//! The plain values the device drivers speak: screen points, touch state,
//! pointer snapshots, rectangular areas and pixel colors, with the exact
//! conversion from the wire color format to the backend's.
use vstd::prelude::*;

verus! {

/// A point on the screen.
#[derive(Clone, Copy, Debug, PartialEq, Eq, Structural)]
pub struct Point_type {
    pub X: i16,
    pub Y: i16,
}

impl Point_type {
    pub fn New(X: i16, Y: i16) -> (Result: Self)
        ensures
            Result == (Point_type { X, Y }),
    {
        Point_type { X, Y }
    }

    pub fn Get_x(&self) -> (Result: i16)
        ensures
            Result == self.X,
    {
        self.X
    }

    pub fn Get_y(&self) -> (Result: i16)
        ensures
            Result == self.Y,
    {
        self.Y
    }
}

/// Whether the pointer is pressed or released.
#[derive(Clone, Copy, Debug, PartialEq, Eq, Structural)]
pub enum Touch_type {
    Pressed,
    Released,
}

/// The last observed state of the pointer: its position and whether it is
/// pressed.
#[derive(Clone, Copy, Debug, PartialEq, Eq, Structural)]
pub struct Pointer_data_type {
    pub Point: Point_type,
    pub Touch: Touch_type,
}

impl Pointer_data_type {
    pub fn New(Point: Point_type, Touch: Touch_type) -> (Result: Self)
        ensures
            Result == (Pointer_data_type { Point, Touch }),
    {
        Pointer_data_type { Point, Touch }
    }

    pub fn Get_point(&self) -> (Result: Point_type)
        ensures
            Result == self.Point,
    {
        self.Point
    }

    pub fn Get_touch(&self) -> (Result: Touch_type)
        ensures
            Result == self.Touch,
    {
        self.Touch
    }

    pub fn Set_state(&mut self, Point: Point_type, Touch: Touch_type)
        ensures
            *final(self) == (Pointer_data_type { Point, Touch }),
    {
        self.Point = Point;
        self.Touch = Touch;
    }

    pub fn Set_point(&mut self, Point: Point_type)
        ensures
            *final(self) == (Pointer_data_type { Point, Touch: old(self).Touch }),
    {
        self.Point = Point;
    }

    pub fn Set_touch(&mut self, Touch: Touch_type)
        ensures
            *final(self) == (Pointer_data_type { Point: old(self).Point, Touch }),
    {
        self.Touch = Touch;
    }
}

/// A rectangular area of the screen, both corners included.
#[derive(Clone, Copy, Debug, PartialEq, Eq, Structural)]
pub struct Area_type {
    pub Point_1: Point_type,
    pub Point_2: Point_type,
}

impl Area_type {
    pub fn New(Point_1: Point_type, Point_2: Point_type) -> (Result: Self)
        ensures
            Result == (Area_type { Point_1, Point_2 }),
    {
        Area_type { Point_1, Point_2 }
    }

    pub fn Get_point_1(&self) -> (Result: Point_type)
        ensures
            Result == self.Point_1,
    {
        self.Point_1
    }

    pub fn Get_point_2(&self) -> (Result: Point_type)
        ensures
            Result == self.Point_2,
    {
        self.Point_2
    }

    /// How many columns the area spans.
    pub open spec fn Width_spec(self) -> int {
        self.Point_2.X - self.Point_1.X + 1
    }

    /// How many rows the area spans.
    pub open spec fn Height_spec(self) -> int {
        self.Point_2.Y - self.Point_1.Y + 1
    }

    /// Whether the corners are ordered, so width and height are positive.
    pub open spec fn Is_ordered(self) -> bool {
        self.Point_1.X <= self.Point_2.X && self.Point_1.Y <= self.Point_2.Y
    }
}

/// A pixel in the wire color format: 5 bits of red, 6 of green, 5 of
/// blue, red in the high bits.
#[derive(Clone, Copy, Debug, PartialEq, Eq, Structural)]
pub struct Color_RGB565_type(pub u16);

/// A pixel in the backend color format: one byte per channel.
#[derive(Clone, Copy, Debug, PartialEq, Eq, Structural)]
pub struct Color_ARGB8888_type {
    pub Alpha: u8,
    pub Red: u8,
    pub Green: u8,
    pub Blue: u8,
}

/// A five or six bit channel widened to a byte: shifted up, its high bits
/// repeated below so full intensity maps to 255.
pub open spec fn Expand_channel_spec(Value: int, Bits: int) -> int {
    if Bits == 5 {
        Value * 8 + Value / 4
    } else {
        Value * 4 + Value / 16
    }
}

/// What a wire pixel converts to: alpha full, each channel widened.
pub open spec fn Argb_of_spec(Color: Color_RGB565_type) -> Color_ARGB8888_type {
    Color_ARGB8888_type {
        Alpha: 255,
        Red: Expand_channel_spec((Color.0 as int / 2048) % 32, 5) as u8,
        Green: Expand_channel_spec((Color.0 as int / 32) % 64, 6) as u8,
        Blue: Expand_channel_spec(Color.0 as int % 32, 5) as u8,
    }
}

impl Color_ARGB8888_type {
    pub fn Get_red(&self) -> (Result: u8)
        ensures
            Result == self.Red,
    {
        self.Red
    }

    pub fn Get_green(&self) -> (Result: u8)
        ensures
            Result == self.Green,
    {
        self.Green
    }

    pub fn Get_blue(&self) -> (Result: u8)
        ensures
            Result == self.Blue,
    {
        self.Blue
    }

    /// Convert a wire pixel to the backend format.
    pub fn From_rgb565(Color: Color_RGB565_type) -> (Result: Self)
        ensures
            Result == Argb_of_spec(Color),
    {
        let Red_5: u16 = (Color.0 / 2048) % 32;
        let Green_6: u16 = (Color.0 / 32) % 64;
        let Blue_5: u16 = Color.0 % 32;
        Color_ARGB8888_type {
            Alpha: 255,
            Red: (Red_5 * 8 + Red_5 / 4) as u8,
            Green: (Green_6 * 4 + Green_6 / 16) as u8,
            Blue: (Blue_5 * 8 + Blue_5 / 4) as u8,
        }
    }
}

} // verus!
