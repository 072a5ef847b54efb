use xila_vfs::error::Error_type;
use xila_vfs::graphics::{
    Area_type, Color_ARGB8888_type, Color_RGB565_type, Point_type, Pointer_data_type, Touch_type,
};
use xila_vfs::pointer::{
    Apply_pointer_event, Decode_pointer_data, Pointer_device_read, Pointer_device_write,
    Pointer_event_type, Update_pointer_state,
};
use xila_vfs::screen::{
    Compute_draw_points, Decode_screen_read_data, Decode_screen_write_data,
    Encode_screen_read_data, Encode_screen_write_data, Screen_read_data_type,
    Screen_write_data_type,
};
use xila_vfs::types::{Position_type, Size_type};

#[test]
fn Screen_resolution_record_round_trips() {
    let Data = Screen_read_data_type::New(Point_type::New(800, 480));
    let mut Buffer: Vec<u8> = vec![0u8; 4];
    assert_eq!(
        Encode_screen_read_data(&Data, &mut Buffer),
        Ok(Size_type(4))
    );
    assert_eq!(Buffer, vec![0x20, 0x03, 0xE0, 0x01]);
    let Decoded = Decode_screen_read_data(&Buffer).unwrap();
    assert_eq!(Decoded, Data);
}

#[test]
fn Screen_resolution_record_rejects_wrong_size() {
    let Data = Screen_read_data_type::New(Point_type::New(640, 480));
    let mut Buffer: Vec<u8> = vec![0u8; 3];
    assert_eq!(
        Encode_screen_read_data(&Data, &mut Buffer),
        Err(Error_type::Invalid_input)
    );
    assert_eq!(
        Decode_screen_read_data(&vec![0u8; 5]),
        Err(Error_type::Invalid_input)
    );
}

#[test]
fn Screen_update_record_round_trips() {
    let Record = Screen_write_data_type {
        Area: Area_type::New(Point_type::New(1, 2), Point_type::New(2, 3)),
        Buffer: vec![
            Color_RGB565_type(0xF800),
            Color_RGB565_type(0x07E0),
            Color_RGB565_type(0x001F),
            Color_RGB565_type(0xFFFF),
        ],
    };
    let Bytes = Encode_screen_write_data(&Record);
    assert_eq!(Bytes.len(), 8 + 2 * 4);
    let Decoded = Decode_screen_write_data(&Bytes).unwrap();
    assert_eq!(Decoded.Area, Record.Area);
    assert_eq!(Decoded.Buffer, Record.Buffer);
}

#[test]
fn Screen_update_record_rejects_wrong_pixel_count() {
    let Record = Screen_write_data_type {
        Area: Area_type::New(Point_type::New(0, 0), Point_type::New(1, 1)),
        Buffer: vec![Color_RGB565_type(0); 4],
    };
    let mut Bytes = Encode_screen_write_data(&Record);
    Bytes.pop();
    Bytes.pop();
    assert_eq!(
        Decode_screen_write_data(&Bytes),
        Err(Error_type::Invalid_input)
    );
    assert_eq!(
        Decode_screen_write_data(&vec![0u8; 3]),
        Err(Error_type::Invalid_input)
    );
}

#[test]
fn Screen_update_record_rejects_unordered_corners() {
    let Record = Screen_write_data_type {
        Area: Area_type::New(Point_type::New(5, 0), Point_type::New(1, 1)),
        Buffer: vec![],
    };
    let Bytes = Encode_screen_write_data(&Record);
    assert_eq!(
        Decode_screen_write_data(&Bytes),
        Err(Error_type::Invalid_input)
    );
}

#[test]
fn Draw_points_cover_the_area_row_by_row() {
    let Record = Screen_write_data_type {
        Area: Area_type::New(Point_type::New(10, 20), Point_type::New(11, 21)),
        Buffer: vec![
            Color_RGB565_type(0xF800),
            Color_RGB565_type(0x07E0),
            Color_RGB565_type(0x001F),
            Color_RGB565_type(0x0000),
        ],
    };
    let Points = Compute_draw_points(&Record);
    assert_eq!(Points.len(), 4);
    assert_eq!(Points[0].X, 10);
    assert_eq!(Points[0].Y, 20);
    assert_eq!(Points[0].Color, Color_ARGB8888_type { Alpha: 255, Red: 255, Green: 0, Blue: 0 });
    assert_eq!(Points[1].X, 11);
    assert_eq!(Points[1].Y, 20);
    assert_eq!(Points[1].Color, Color_ARGB8888_type { Alpha: 255, Red: 0, Green: 255, Blue: 0 });
    assert_eq!(Points[2].X, 10);
    assert_eq!(Points[2].Y, 21);
    assert_eq!(Points[2].Color, Color_ARGB8888_type { Alpha: 255, Red: 0, Green: 0, Blue: 255 });
    assert_eq!(Points[3].X, 11);
    assert_eq!(Points[3].Y, 21);
    assert_eq!(Points[3].Color, Color_ARGB8888_type { Alpha: 255, Red: 0, Green: 0, Blue: 0 });
}

#[test]
fn Color_conversion_expands_channels() {
    let White = Color_ARGB8888_type::From_rgb565(Color_RGB565_type(0xFFFF));
    assert_eq!((White.Red, White.Green, White.Blue, White.Alpha), (255, 255, 255, 255));
    let Black = Color_ARGB8888_type::From_rgb565(Color_RGB565_type(0x0000));
    assert_eq!((Black.Red, Black.Green, Black.Blue), (0, 0, 0));
    let Dim = Color_ARGB8888_type::From_rgb565(Color_RGB565_type(0x0841));
    assert_eq!((Dim.Red, Dim.Green, Dim.Blue), (8, 8, 8));
}

#[test]
fn Pointer_record_round_trips() {
    let State = Pointer_data_type::New(Point_type::New(-3, 7), Touch_type::Pressed);
    let mut Buffer: Vec<u8> = vec![0u8; 5];
    assert_eq!(Pointer_device_read(&State, &mut Buffer), Ok(Size_type(5)));
    assert_eq!(Decode_pointer_data(&Buffer), Ok(State));
}

#[test]
fn Pointer_record_rejects_wrong_size_or_touch() {
    let State = Pointer_data_type::New(Point_type::New(0, 0), Touch_type::Released);
    let mut Buffer: Vec<u8> = vec![0u8; 4];
    assert_eq!(
        Pointer_device_read(&State, &mut Buffer),
        Err(Error_type::Invalid_input)
    );
    assert_eq!(
        Decode_pointer_data(&vec![0, 0, 0, 0, 9]),
        Err(Error_type::Invalid_input)
    );
}

#[test]
fn Pointer_writes_are_unsupported() {
    assert_eq!(
        Pointer_device_write(&vec![1u8, 2, 3]),
        Err(Error_type::Unsupported_operation)
    );
}

#[test]
fn Empty_event_queue_keeps_the_state() {
    let State = Pointer_data_type::New(Point_type::New(12, 34), Touch_type::Pressed);
    let (Next, Quit) = Update_pointer_state(1, State, &Vec::new());
    assert_eq!(Next, State);
    assert!(!Quit);
}

#[test]
fn Events_collapse_to_the_latest_state() {
    let State = Pointer_data_type::New(Point_type::New(0, 0), Touch_type::Released);
    let Events = vec![
        Pointer_event_type::Button_down { Window: 1, Left: true, X: 5, Y: 6 },
        Pointer_event_type::Motion { Window: 1, Left_pressed: true, X: 7, Y: 8 },
        Pointer_event_type::Button_up { Window: 1, Left: true },
    ];
    let (Next, Quit) = Update_pointer_state(1, State, &Events);
    assert_eq!(Next.Point, Point_type::New(7, 8));
    assert_eq!(Next.Touch, Touch_type::Released);
    assert!(!Quit);
}

#[test]
fn Foreign_window_and_button_events_are_ignored() {
    let State = Pointer_data_type::New(Point_type::New(1, 1), Touch_type::Released);
    let Wrong_window =
        Pointer_event_type::Button_down { Window: 2, Left: true, X: 9, Y: 9 };
    assert_eq!(Apply_pointer_event(1, State, &Wrong_window), State);
    let Wrong_button =
        Pointer_event_type::Button_down { Window: 1, Left: false, X: 9, Y: 9 };
    assert_eq!(Apply_pointer_event(1, State, &Wrong_button), State);
    let Unrelated = Pointer_event_type::Other;
    assert_eq!(Apply_pointer_event(1, State, &Unrelated), State);
}

#[test]
fn Quit_events_raise_the_flag() {
    let State = Pointer_data_type::New(Point_type::New(0, 0), Touch_type::Released);
    let Events = vec![
        Pointer_event_type::Motion { Window: 1, Left_pressed: true, X: 2, Y: 2 },
        Pointer_event_type::Quit,
    ];
    let (Next, Quit) = Update_pointer_state(1, State, &Events);
    assert_eq!(Next.Point, Point_type::New(2, 2));
    assert!(Quit);
}

#[test]
fn Devices_refuse_seeks_and_accept_flushes() {
    assert_eq!(
        xila_vfs::screen::Screen_device_set_position(&Position_type::Start(0)),
        Err(Error_type::Unsupported_operation)
    );
    assert_eq!(xila_vfs::screen::Screen_device_flush(), Ok(()));
    assert_eq!(
        xila_vfs::pointer::Pointer_device_set_position(&Position_type::Current(1)),
        Err(Error_type::Unsupported_operation)
    );
    assert_eq!(xila_vfs::pointer::Pointer_device_flush(), Ok(()));
}

#[test]
fn Law_screen_mismatch_is_refused() {
    let Record = Screen_write_data_type {
        Area: Area_type::New(Point_type::New(0, 0), Point_type::New(0, 0)),
        Buffer: vec![Color_RGB565_type(7)],
    };
    let Good = Encode_screen_write_data(&Record);
    assert!(xila_vfs::screen::Law_screen_update_rejects_mismatch(&Good).is_ok());
    let mut Short = Good.clone();
    Short.pop();
    assert_eq!(
        xila_vfs::screen::Law_screen_update_rejects_mismatch(&Short),
        Err(Error_type::Invalid_input)
    );
}

#[test]
fn Law_pointer_empty_queue_hands_back_the_state() {
    let State = Pointer_data_type::New(Point_type::New(9, -2), Touch_type::Pressed);
    let mut Buffer: Vec<u8> = vec![0u8; 5];
    assert_eq!(
        xila_vfs::pointer::Law_pointer_read_empty_queue(1, State, &mut Buffer),
        Ok(Size_type(5))
    );
    assert_eq!(Decode_pointer_data(&Buffer), Ok(State));
}
