//! The display device's records: the resolution record a read returns and
//! the region-update record a write carries, each an exact-size byte
//! layout, decoded and validated before anything is reinterpreted, and
//! the list of pixel draw operations an update unfolds to.
use vstd::prelude::*;

use crate::error::{Error_type, Result_type};
use crate::graphics::{Area_type, Argb_of_spec, Color_ARGB8888_type, Color_RGB565_type, Point_type};
use crate::types::{Position_type, Size_type};

verus! {

/// The low byte of a coordinate on the wire.
pub open spec fn Low_byte_spec(Value: i16) -> u8 {
    ((Value as u16) % 256) as u8
}

/// The high byte of a coordinate on the wire.
pub open spec fn High_byte_spec(Value: i16) -> u8 {
    ((Value as u16) / 256) as u8
}

/// The coordinate two wire bytes carry, low byte first.
pub open spec fn I16_of_bytes_spec(Low: u8, High: u8) -> i16 {
    ((Low + High * 256) as u16) as i16
}

/// The pixel value two wire bytes carry, low byte first.
pub open spec fn U16_of_bytes_spec(Low: u8, High: u8) -> u16 {
    (Low + High * 256) as u16
}

/// The low byte of a pixel value on the wire.
pub open spec fn Low_byte_u16_spec(Value: u16) -> u8 {
    (Value % 256) as u8
}

/// The high byte of a pixel value on the wire.
pub open spec fn High_byte_u16_spec(Value: u16) -> u8 {
    (Value / 256) as u8
}

/// Law: a coordinate survives the trip through its two wire bytes.
pub proof fn Lemma_i16_bytes_roundtrip(Value: i16)
    ensures
        I16_of_bytes_spec(Low_byte_spec(Value), High_byte_spec(Value)) == Value,
{
    let Unsigned = Value as u16;
    assert(Unsigned % 256 + (Unsigned / 256) * 256 == Unsigned) by (nonlinear_arith);
    assert((Value as u16) as i16 == Value) by (bit_vector);
}

/// Append a coordinate to a wire buffer, low byte first.
fn Push_i16_le(Buffer: &mut Vec<u8>, Value: i16)
    ensures
        final(Buffer)@ == old(Buffer)@.push(Low_byte_spec(Value)).push(High_byte_spec(Value)),
{
    let Unsigned = Value as u16;
    Buffer.push((Unsigned % 256) as u8);
    Buffer.push((Unsigned / 256) as u8);
}

/// Read the coordinate at `Offset` of a wire buffer, low byte first.
fn Read_i16_le(Buffer: &Vec<u8>, Offset: usize) -> (Result: i16)
    requires
        Offset + 1 < Buffer@.len(),
    ensures
        Result == I16_of_bytes_spec(Buffer@[Offset as int], Buffer@[Offset + 1]),
{
    let Length = Buffer.len();
    let Low = Buffer[Offset];
    let High = Buffer[Offset + 1];
    #[verifier::truncate] ((Low as u16 + High as u16 * 256) as i16)
}

/// What a read on the display device returns: its resolution.
#[derive(Clone, Copy, Debug, PartialEq, Eq, Structural)]
pub struct Screen_read_data_type {
    pub Resolution: Point_type,
}

impl Screen_read_data_type {
    pub fn New(Resolution: Point_type) -> (Result: Self)
        ensures
            Result == (Screen_read_data_type { Resolution }),
    {
        Screen_read_data_type { Resolution }
    }

    pub fn Get_resolution(&self) -> (Result: Point_type)
        ensures
            Result == self.Resolution,
    {
        self.Resolution
    }

    pub fn Set_resolution(&mut self, Resolution: Point_type)
        ensures
            *final(self) == (Screen_read_data_type { Resolution }),
    {
        self.Resolution = Resolution;
    }
}

/// The wire layout of the resolution record: both coordinates, low byte
/// first, four bytes in all.
pub open spec fn Screen_read_bytes_spec(Data: Screen_read_data_type) -> Seq<u8> {
    seq![
        Low_byte_spec(Data.Resolution.X),
        High_byte_spec(Data.Resolution.X),
        Low_byte_spec(Data.Resolution.Y),
        High_byte_spec(Data.Resolution.Y),
    ]
}

/// Encode the resolution record into a caller buffer, which must be
/// exactly the record's four bytes long.
pub fn Encode_screen_read_data(Data: &Screen_read_data_type, Buffer: &mut Vec<u8>) -> (Result:
    Result_type<Size_type>)
    ensures
        match Result {
            Ok(Size) => old(Buffer)@.len() == 4 && Size.0 == 4 && final(Buffer)@
                == Screen_read_bytes_spec(*Data),
            Err(Error) => Error == Error_type::Invalid_input && old(Buffer)@.len() != 4 && final(Buffer)@ == old(Buffer)@,
        },
{
    if Buffer.len() != 4 {
        return Err(Error_type::Invalid_input);
    }
    Buffer.clear();
    Push_i16_le(Buffer, Data.Resolution.X);
    Push_i16_le(Buffer, Data.Resolution.Y);
    proof {
        assert(Buffer@ =~= Screen_read_bytes_spec(*Data));
    }
    Ok(Size_type(4))
}

/// Decode a resolution record from a caller buffer, which must be exactly
/// the record's four bytes long.
pub fn Decode_screen_read_data(Buffer: &Vec<u8>) -> (Result: Result_type<Screen_read_data_type>)
    ensures
        match Result {
            Ok(Data) => {
                &&& Buffer@.len() == 4
                &&& Data.Resolution.X == I16_of_bytes_spec(Buffer@[0], Buffer@[1])
                &&& Data.Resolution.Y == I16_of_bytes_spec(Buffer@[2], Buffer@[3])
            },
            Err(Error) => Error == Error_type::Invalid_input && Buffer@.len() != 4,
        },
{
    if Buffer.len() != 4 {
        return Err(Error_type::Invalid_input);
    }
    let X = Read_i16_le(Buffer, 0);
    let Y = Read_i16_le(Buffer, 2);
    Ok(Screen_read_data_type { Resolution: Point_type { X, Y } })
}

/// Law: decoding the encoded resolution record gives the record back.
pub proof fn Lemma_screen_read_roundtrip(Data: Screen_read_data_type)
    ensures
        ({
            let Bytes = Screen_read_bytes_spec(Data);
            &&& I16_of_bytes_spec(Bytes[0], Bytes[1]) == Data.Resolution.X
            &&& I16_of_bytes_spec(Bytes[2], Bytes[3]) == Data.Resolution.Y
        }),
{
    Lemma_i16_bytes_roundtrip(Data.Resolution.X);
    Lemma_i16_bytes_roundtrip(Data.Resolution.Y);
}

/// What a write on the display device carries: a rectangular area and one
/// wire pixel for each of its cells, row by row.
#[derive(Debug, PartialEq, Eq)]
pub struct Screen_write_data_type {
    pub Area: Area_type,
    pub Buffer: Vec<Color_RGB565_type>,
}

impl Screen_write_data_type {
    /// How many pixels the declared area calls for.
    pub open spec fn Pixel_count_spec(self) -> int {
        self.Area.Width_spec() * self.Area.Height_spec()
    }

    /// Whether the record is coherent: ordered corners and exactly one
    /// pixel per cell of the area.
    pub open spec fn Is_valid_record(self) -> bool {
        self.Area.Is_ordered() && self.Buffer@.len() == self.Pixel_count_spec()
    }

    pub fn Get_area(&self) -> (Result: Area_type)
        ensures
            Result == self.Area,
    {
        self.Area
    }

    pub fn Get_buffer(&self) -> (Result: &Vec<Color_RGB565_type>)
        ensures
            Result@ == self.Buffer@,
    {
        &self.Buffer
    }
}

/// The number of wire bytes of a screen-update record for the given area:
/// the eight corner bytes, then two per pixel.
pub open spec fn Screen_write_length_spec(Area: Area_type) -> int {
    8 + 2 * (Area.Width_spec() * Area.Height_spec())
}

/// The area the first eight bytes of a screen-update record declare.
pub open spec fn Screen_write_area_spec(Bytes: Seq<u8>) -> Area_type {
    Area_type {
        Point_1: Point_type {
            X: I16_of_bytes_spec(Bytes[0], Bytes[1]),
            Y: I16_of_bytes_spec(Bytes[2], Bytes[3]),
        },
        Point_2: Point_type {
            X: I16_of_bytes_spec(Bytes[4], Bytes[5]),
            Y: I16_of_bytes_spec(Bytes[6], Bytes[7]),
        },
    }
}

/// Whether a wire buffer is a coherent screen-update record: at least the
/// corner bytes, ordered corners, and a pixel buffer whose length matches
/// the declared area exactly.
pub open spec fn Is_valid_screen_write_bytes(Bytes: Seq<u8>) -> bool {
    &&& Bytes.len() >= 8
    &&& Screen_write_area_spec(Bytes).Is_ordered()
    &&& Bytes.len() == Screen_write_length_spec(Screen_write_area_spec(Bytes))
}

/// Decode and validate a screen-update record: a buffer whose pixel count
/// does not match the declared area exactly is rejected, never truncated
/// or padded.
pub fn Decode_screen_write_data(Buffer: &Vec<u8>) -> (Result: Result_type<Screen_write_data_type>)
    ensures
        match Result {
            Ok(Data) => {
                &&& Is_valid_screen_write_bytes(Buffer@)
                &&& Data.Area == Screen_write_area_spec(Buffer@)
                &&& Data.Is_valid_record()
                &&& Data.Buffer@.len() == (Buffer@.len() - 8) / 2
                &&& forall|Index: int|
                    0 <= Index < Data.Buffer@.len() ==> (#[trigger] Data.Buffer@[Index]).0
                        == U16_of_bytes_spec(Buffer@[8 + 2 * Index], Buffer@[9 + 2 * Index])
            },
            Err(Error) => Error == Error_type::Invalid_input && !Is_valid_screen_write_bytes(
                Buffer@,
            ),
        },
{
    if Buffer.len() < 8 {
        return Err(Error_type::Invalid_input);
    }
    let Area = Area_type {
        Point_1: Point_type { X: Read_i16_le(Buffer, 0), Y: Read_i16_le(Buffer, 2) },
        Point_2: Point_type { X: Read_i16_le(Buffer, 4), Y: Read_i16_le(Buffer, 6) },
    };
    if Area.Point_2.X < Area.Point_1.X || Area.Point_2.Y < Area.Point_1.Y {
        return Err(Error_type::Invalid_input);
    }
    let Width: u64 = (Area.Point_2.X as i64 - Area.Point_1.X as i64 + 1) as u64;
    let Height: u64 = (Area.Point_2.Y as i64 - Area.Point_1.Y as i64 + 1) as u64;
    proof {
        assert(Width * Height <= 0x10000 * 0x10000) by (nonlinear_arith)
            requires
                0 <= Width <= 0x10000,
                0 <= Height <= 0x10000,
        ;
    }
    let Expected: u64 = 8 + 2 * (Width * Height);
    if (Buffer.len() as u64) != Expected {
        return Err(Error_type::Invalid_input);
    }
    let Count: usize = (Buffer.len() - 8) / 2;
    let mut Pixels: Vec<Color_RGB565_type> = Vec::new();
    let mut Index: usize = 0;
    while Index < Count
        invariant
            Index <= Count,
            8 + 2 * Count <= Buffer@.len(),
            Buffer@.len() <= usize::MAX,
            Pixels@.len() == Index,
            forall|Position: int|
                0 <= Position < Index ==> (#[trigger] Pixels@[Position]).0 == U16_of_bytes_spec(
                    Buffer@[8 + 2 * Position],
                    Buffer@[9 + 2 * Position],
                ),
        decreases Count - Index,
    {
        let Low = Buffer[8 + 2 * Index];
        let High = Buffer[9 + 2 * Index];
        Pixels.push(Color_RGB565_type(Low as u16 + High as u16 * 256));
        Index = Index + 1;
    }
    let Data = Screen_write_data_type { Area, Buffer: Pixels };
    proof {
        assert(Data.Pixel_count_spec() == Width * Height);
        assert(Data.Is_valid_record());
    }
    Ok(Data)
}

/// Encode a screen-update record onto the wire: the corner bytes, then
/// two bytes per pixel, row by row.
pub fn Encode_screen_write_data(Data: &Screen_write_data_type) -> (Result: Vec<u8>)
    ensures
        Result@.len() == 8 + 2 * Data.Buffer@.len(),
        Result@[0] == Low_byte_spec(Data.Area.Point_1.X),
        Result@[1] == High_byte_spec(Data.Area.Point_1.X),
        Result@[2] == Low_byte_spec(Data.Area.Point_1.Y),
        Result@[3] == High_byte_spec(Data.Area.Point_1.Y),
        Result@[4] == Low_byte_spec(Data.Area.Point_2.X),
        Result@[5] == High_byte_spec(Data.Area.Point_2.X),
        Result@[6] == Low_byte_spec(Data.Area.Point_2.Y),
        Result@[7] == High_byte_spec(Data.Area.Point_2.Y),
        forall|Index: int|
            0 <= Index < Data.Buffer@.len() ==> Result@[8 + 2 * Index] == Low_byte_u16_spec(
                (#[trigger] Data.Buffer@[Index]).0,
            ) && Result@[9 + 2 * Index] == High_byte_u16_spec(Data.Buffer@[Index].0),
{
    let mut Bytes: Vec<u8> = Vec::new();
    Push_i16_le(&mut Bytes, Data.Area.Point_1.X);
    Push_i16_le(&mut Bytes, Data.Area.Point_1.Y);
    Push_i16_le(&mut Bytes, Data.Area.Point_2.X);
    Push_i16_le(&mut Bytes, Data.Area.Point_2.Y);
    let Pixel_count = Data.Buffer.len();
    let mut Index: usize = 0;
    while Index < Pixel_count
        invariant
            Pixel_count == Data.Buffer@.len(),
            Index <= Data.Buffer@.len(),
            Bytes@.len() == 8 + 2 * Index,
            Data.Buffer@.len() <= usize::MAX,
            Bytes@[0] == Low_byte_spec(Data.Area.Point_1.X),
            Bytes@[1] == High_byte_spec(Data.Area.Point_1.X),
            Bytes@[2] == Low_byte_spec(Data.Area.Point_1.Y),
            Bytes@[3] == High_byte_spec(Data.Area.Point_1.Y),
            Bytes@[4] == Low_byte_spec(Data.Area.Point_2.X),
            Bytes@[5] == High_byte_spec(Data.Area.Point_2.X),
            Bytes@[6] == Low_byte_spec(Data.Area.Point_2.Y),
            Bytes@[7] == High_byte_spec(Data.Area.Point_2.Y),
            forall|Position: int|
                0 <= Position < Index ==> Bytes@[8 + 2 * Position] == Low_byte_u16_spec(
                    (#[trigger] Data.Buffer@[Position]).0,
                ) && Bytes@[9 + 2 * Position] == High_byte_u16_spec(Data.Buffer@[Position].0),
        decreases Data.Buffer@.len() - Index,
    {
        let Pixel = Data.Buffer[Index].0;
        Bytes.push((Pixel % 256) as u8);
        Bytes.push((Pixel / 256) as u8);
        Index = Index + 1;
    }
    Bytes
}

/// One pixel to draw on the backend: its screen position and its color in
/// the backend format.
#[derive(Clone, Copy, Debug, PartialEq, Eq, Structural)]
pub struct Draw_point_type {
    pub X: i16,
    pub Y: i16,
    pub Color: Color_ARGB8888_type,
}

/// The position of a cell of an area in its row-major pixel buffer.
pub open spec fn Pixel_index_spec(Width: int, Row: int, Col: int) -> int {
    Row * Width + Col
}

/// Unfold a coherent screen-update record into the pixels to draw: one
/// per cell of the area, row by row, each pixel converted from the wire
/// color format to the backend's.
pub fn Compute_draw_points(Data: &Screen_write_data_type) -> (Result: Vec<Draw_point_type>)
    requires
        Data.Is_valid_record(),
    ensures
        Result@.len() == Data.Buffer@.len(),
        forall|Row: int, Col: int|
            0 <= Row < Data.Area.Height_spec() && 0 <= Col < Data.Area.Width_spec()
                ==> Result@[#[trigger] Pixel_index_spec(Data.Area.Width_spec(), Row, Col)] == (
            Draw_point_type {
                X: (Data.Area.Point_1.X + Col) as i16,
                Y: (Data.Area.Point_1.Y + Row) as i16,
                Color: Argb_of_spec(
                    Data.Buffer@[Pixel_index_spec(Data.Area.Width_spec(), Row, Col)],
                ),
            }),
{
    let Width: usize = (Data.Area.Point_2.X as i64 - Data.Area.Point_1.X as i64 + 1) as usize;
    let Height: usize = (Data.Area.Point_2.Y as i64 - Data.Area.Point_1.Y as i64 + 1) as usize;
    let Ghost(Width_view) = Ghost(Data.Area.Width_spec());
    let Pixel_total = Data.Buffer.len();
    let mut Result: Vec<Draw_point_type> = Vec::new();
    let mut Index: usize = 0;
    let mut Row: usize = 0;
    while Row < Height
        invariant
            Data.Is_valid_record(),
            Width_view == Data.Area.Width_spec(),
            Width == Data.Area.Width_spec(),
            Height == Data.Area.Height_spec(),
            Row <= Height,
            Index == Pixel_index_spec(Width_view, Row as int, 0),
            Index == Result@.len(),
            Index <= Data.Buffer@.len(),
            Data.Buffer@.len() <= usize::MAX,
            forall|Row_p: int, Col_p: int|
                0 <= Row_p < Row && 0 <= Col_p < Width_view ==> Result@[#[trigger] Pixel_index_spec(
                    Width_view,
                    Row_p,
                    Col_p,
                )] == (Draw_point_type {
                    X: (Data.Area.Point_1.X + Col_p) as i16,
                    Y: (Data.Area.Point_1.Y + Row_p) as i16,
                    Color: Argb_of_spec(Data.Buffer@[Pixel_index_spec(Width_view, Row_p, Col_p)]),
                }),
        decreases Height - Row,
    {
        let mut Col: usize = 0;
        while Col < Width
            invariant
                Data.Is_valid_record(),
                Width_view == Data.Area.Width_spec(),
                Width == Data.Area.Width_spec(),
                Height == Data.Area.Height_spec(),
                Row < Height,
                Col <= Width,
                Index == Pixel_index_spec(Width_view, Row as int, Col as int),
                Index == Result@.len(),
                Index <= Data.Buffer@.len(),
                Data.Buffer@.len() <= usize::MAX,
                forall|Row_p: int, Col_p: int|
                    0 <= Row_p < Row && 0 <= Col_p < Width_view ==> Result@[
                        #[trigger] Pixel_index_spec(Width_view, Row_p, Col_p)
                    ] == (Draw_point_type {
                        X: (Data.Area.Point_1.X + Col_p) as i16,
                        Y: (Data.Area.Point_1.Y + Row_p) as i16,
                        Color: Argb_of_spec(
                            Data.Buffer@[Pixel_index_spec(Width_view, Row_p, Col_p)],
                        ),
                    }),
                forall|Col_p: int|
                    0 <= Col_p < Col ==> Result@[#[trigger] Pixel_index_spec(
                        Width_view,
                        Row as int,
                        Col_p,
                    )] == (Draw_point_type {
                        X: (Data.Area.Point_1.X + Col_p) as i16,
                        Y: (Data.Area.Point_1.Y + Row as int) as i16,
                        Color: Argb_of_spec(
                            Data.Buffer@[Pixel_index_spec(Width_view, Row as int, Col_p)],
                        ),
                    }),
            decreases Width - Col,
        {
            proof {
                assert(Pixel_index_spec(Width_view, Row as int, Col as int) < Data.Buffer@.len())
                    by (nonlinear_arith)
                    requires
                        0 <= Row < Data.Area.Height_spec(),
                        0 <= Col < Width_view,
                        Width_view == Data.Area.Width_spec(),
                        Data.Buffer@.len() == Width_view * Data.Area.Height_spec(),
                        Pixel_index_spec(Width_view, Row as int, Col as int) == Row * Width_view
                            + Col,
                ;
            }
            let Color = crate::graphics::Color_ARGB8888_type::From_rgb565(Data.Buffer[Index]);
            let Point = Draw_point_type {
                X: (Data.Area.Point_1.X as i32 + Col as i32) as i16,
                Y: (Data.Area.Point_1.Y as i32 + Row as i32) as i16,
                Color,
            };
            Result.push(Point);
            proof {
                assert forall|Row_p: int, Col_p: int|
                    0 <= Row_p < Row && 0 <= Col_p < Width_view implies Pixel_index_spec(
                    Width_view,
                    Row_p,
                    Col_p,
                ) < Pixel_index_spec(Width_view, Row as int, Col as int) by {
                    assert(Row_p * Width_view + Col_p < Row * Width_view + Col)
                        by (nonlinear_arith)
                        requires
                            0 <= Row_p < Row,
                            0 <= Col_p < Width_view,
                            0 <= Col,
                            0 < Width_view,
                    ;
                }
            }
            Index = Index + 1;
            Col = Col + 1;
        }
        Row = Row + 1;
        proof {
            assert(Pixel_index_spec(Width_view, Row as int, 0) == Pixel_index_spec(
                Width_view,
                Row - 1,
                Width_view,
            )) by (nonlinear_arith);
        }
    }
    proof {
        assert(Result@.len() == Data.Buffer@.len()) by (nonlinear_arith)
            requires
                Result@.len() == Pixel_index_spec(Width_view, Data.Area.Height_spec(), 0),
                Pixel_index_spec(Width_view, Data.Area.Height_spec(), 0) == Data.Area.Height_spec()
                    * Width_view,
                Data.Buffer@.len() == Width_view * Data.Area.Height_spec(),
        ;
    }
    Result
}

/// A seek on the display device: always refused, a framebuffer has no
/// addressable offset.
pub fn Screen_device_set_position(_Position: &Position_type) -> (Result: Result_type<Size_type>)
    ensures
        Result == Result_type::<Size_type>::Err(Error_type::Unsupported_operation),
{
    Err(Error_type::Unsupported_operation)
}

/// A flush on the display device: always succeeds, there is nothing to
/// flush.
pub fn Screen_device_flush() -> (Result: Result_type<()>)
    ensures
        Result == Result_type::<()>::Ok(()),
{
    Ok(())
}

/// Law: a screen-update buffer whose pixel count does not match the
/// width and height of its declared region is rejected with
/// `Invalid_input`, and only a coherent buffer ever decodes.
pub fn Law_screen_update_rejects_mismatch(Buffer: &Vec<u8>) -> (Result: Result_type<
    Screen_write_data_type,
>)
    ensures
        Result is Ok <==> Is_valid_screen_write_bytes(Buffer@),
        Result is Err ==> Result == Result_type::<Screen_write_data_type>::Err(
            Error_type::Invalid_input,
        ),
{
    Decode_screen_write_data(Buffer)
}

} // verus!
