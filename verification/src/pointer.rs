//! The pointer device's logic: hardware input events collapse into the
//! single latest pointer state, the quit event raises a fail-fast flag,
//! and a read hands the state out as an exact-size record.
use vstd::prelude::*;

use crate::error::{Error_type, Result_type};
use crate::graphics::{Point_type, Pointer_data_type, Touch_type};
use crate::screen::{I16_of_bytes_spec, Low_byte_spec, High_byte_spec};
use crate::types::{Position_type, Size_type};

verus! {

/// One hardware input event, as the backend's event pump reports it.
#[derive(Clone, Copy, Debug, PartialEq, Eq, Structural)]
pub enum Pointer_event_type {
    /// The process was asked to terminate.
    Quit,
    /// A button was pressed at a position in a window.
    Button_down { Window: u32, Left: bool, X: i16, Y: i16 },
    /// A button was released in a window.
    Button_up { Window: u32, Left: bool },
    /// The pointer moved in a window, with the left button held or not.
    Motion { Window: u32, Left_pressed: bool, X: i16, Y: i16 },
    /// Any other event; the pointer ignores it.
    Other,
}

/// What one event makes of the pointer state: only left-button events of
/// the device's own window count; everything else leaves the state as it
/// was.
pub open spec fn Apply_event_spec(
    Window: u32,
    State: Pointer_data_type,
    Event: Pointer_event_type,
) -> Pointer_data_type {
    match Event {
        Pointer_event_type::Button_down { Window: Event_window, Left, X, Y } => {
            if Event_window == Window && Left {
                Pointer_data_type { Point: Point_type { X, Y }, Touch: Touch_type::Pressed }
            } else {
                State
            }
        },
        Pointer_event_type::Button_up { Window: Event_window, Left } => {
            if Event_window == Window && Left {
                Pointer_data_type { Point: State.Point, Touch: Touch_type::Released }
            } else {
                State
            }
        },
        Pointer_event_type::Motion { Window: Event_window, Left_pressed, X, Y } => {
            if Event_window == Window && Left_pressed {
                Pointer_data_type { Point: Point_type { X, Y }, Touch: State.Touch }
            } else {
                State
            }
        },
        _ => State,
    }
}

/// What a whole queue of events makes of the pointer state, oldest first.
pub open spec fn Fold_events_spec(
    Window: u32,
    State: Pointer_data_type,
    Events: Seq<Pointer_event_type>,
) -> Pointer_data_type
    decreases Events.len(),
{
    if Events.len() == 0 {
        State
    } else {
        Fold_events_spec(Window, Apply_event_spec(Window, State, Events[0]), Events.skip(1))
    }
}

/// Whether the queue asks the process to terminate.
pub open spec fn Any_quit_spec(Events: Seq<Pointer_event_type>) -> bool {
    exists|Index: int| 0 <= Index < Events.len() && Events[Index] is Quit
}

/// Law: folding one more event is applying it to the folded state.
pub proof fn Lemma_fold_events_snoc(
    Window: u32,
    State: Pointer_data_type,
    Events: Seq<Pointer_event_type>,
    Event: Pointer_event_type,
)
    ensures
        Fold_events_spec(Window, State, Events.push(Event)) == Apply_event_spec(
            Window,
            Fold_events_spec(Window, State, Events),
            Event,
        ),
    decreases Events.len(),
{
    reveal_with_fuel(Fold_events_spec, 3);
    if Events.len() == 0 {
        assert(Events.push(Event)[0] == Event);
        assert(Events.push(Event).skip(1) =~= Seq::<Pointer_event_type>::empty());
    } else {
        assert(Events.push(Event)[0] == Events[0]);
        assert(Events.push(Event).skip(1) =~= Events.skip(1).push(Event));
        Lemma_fold_events_snoc(
            Window,
            Apply_event_spec(Window, State, Events[0]),
            Events.skip(1),
            Event,
        );
    }
}

/// Law: an empty queue leaves the pointer state exactly as it was.
pub proof fn Lemma_empty_queue_keeps_state(Window: u32, State: Pointer_data_type)
    ensures
        Fold_events_spec(Window, State, Seq::<Pointer_event_type>::empty()) == State,
        !Any_quit_spec(Seq::<Pointer_event_type>::empty()),
{
}

/// Apply one event to the pointer state.
pub fn Apply_pointer_event(
    Window: u32,
    State: Pointer_data_type,
    Event: &Pointer_event_type,
) -> (Result: Pointer_data_type)
    ensures
        Result == Apply_event_spec(Window, State, *Event),
{
    match *Event {
        Pointer_event_type::Button_down { Window: Event_window, Left, X, Y } => {
            if Event_window == Window && Left {
                Pointer_data_type { Point: Point_type { X, Y }, Touch: Touch_type::Pressed }
            } else {
                State
            }
        },
        Pointer_event_type::Button_up { Window: Event_window, Left } => {
            if Event_window == Window && Left {
                Pointer_data_type { Point: State.Point, Touch: Touch_type::Released }
            } else {
                State
            }
        },
        Pointer_event_type::Motion { Window: Event_window, Left_pressed, X, Y } => {
            if Event_window == Window && Left_pressed {
                Pointer_data_type { Point: Point_type { X, Y }, Touch: State.Touch }
            } else {
                State
            }
        },
        _ => State,
    }
}

/// Drain a queue of events into the latest pointer state, and say whether
/// a quit event was seen: the caller must then terminate the process, by
/// the device's fail-fast policy, rather than report an error.
pub fn Update_pointer_state(
    Window: u32,
    State: Pointer_data_type,
    Events: &Vec<Pointer_event_type>,
) -> (Result: (Pointer_data_type, bool))
    ensures
        Result.0 == Fold_events_spec(Window, State, Events@),
        Result.1 == Any_quit_spec(Events@),
{
    let mut Current = State;
    let mut Quit = false;
    let mut Index: usize = 0;
    while Index < Events.len()
        invariant
            Index <= Events@.len(),
            Current == Fold_events_spec(Window, State, Events@.take(Index as int)),
            Quit == Any_quit_spec(Events@.take(Index as int)),
        decreases Events@.len() - Index,
    {
        let Ghost(Seen) = Ghost(Events@.take(Index as int));
        let Event = &Events[Index];
        Current = Apply_pointer_event(Window, Current, Event);
        let Is_quit = match Event {
            Pointer_event_type::Quit => true,
            _ => false,
        };
        Quit = Quit || Is_quit;
        Index = Index + 1;
        proof {
            assert(Events@.take(Index as int) =~= Seen.push(Events@[Index - 1]));
            Lemma_fold_events_snoc(Window, State, Seen, Events@[Index - 1]);
            if Quit {
                if Any_quit_spec(Seen) {
                    let Position = choose|Position: int|
                        0 <= Position < Seen.len() && Seen[Position] is Quit;
                    assert(Events@.take(Index as int)[Position] is Quit);
                } else {
                    assert(Events@.take(Index as int)[Index - 1] is Quit);
                }
            } else {
                assert forall|Position: int|
                    0 <= Position < Index implies !(Events@.take(Index as int)[Position]
                    is Quit) by {
                    if Position < Index - 1 {
                        assert(!(Seen[Position] is Quit));
                    }
                }
            }
        }
    }
    proof {
        assert(Events@.take(Events@.len() as int) =~= Events@);
    }
    (Current, Quit)
}

/// The wire layout of the pointer record: both coordinates, low byte
/// first, then one byte of touch state, one for pressed and zero for
/// released; five bytes in all.
pub open spec fn Pointer_data_bytes_spec(State: Pointer_data_type) -> Seq<u8> {
    seq![
        Low_byte_spec(State.Point.X),
        High_byte_spec(State.Point.X),
        Low_byte_spec(State.Point.Y),
        High_byte_spec(State.Point.Y),
        if State.Touch is Pressed {
            1u8
        } else {
            0u8
        },
    ]
}

/// A read on the pointer device: the last observed state, encoded into a
/// caller buffer that must be exactly the record's five bytes long.
pub fn Pointer_device_read(State: &Pointer_data_type, Buffer: &mut Vec<u8>) -> (Result: Result_type<
    Size_type,
>)
    ensures
        match Result {
            Ok(Size) => old(Buffer)@.len() == 5 && Size.0 == 5 && final(Buffer)@
                == Pointer_data_bytes_spec(*State),
            Err(Error) => Error == Error_type::Invalid_input && old(Buffer)@.len() != 5 && final(Buffer)@ == old(Buffer)@,
        },
{
    if Buffer.len() != 5 {
        return Err(Error_type::Invalid_input);
    }
    Buffer.clear();
    let X = State.Point.X as u16;
    Buffer.push((X % 256) as u8);
    Buffer.push((X / 256) as u8);
    let Y = State.Point.Y as u16;
    Buffer.push((Y % 256) as u8);
    Buffer.push((Y / 256) as u8);
    let Touch: u8 = match State.Touch {
        Touch_type::Pressed => 1,
        Touch_type::Released => 0,
    };
    Buffer.push(Touch);
    proof {
        assert(Buffer@ =~= Pointer_data_bytes_spec(*State));
    }
    Ok(Size_type(5))
}

/// Decode a pointer record from a caller buffer: exactly five bytes, the
/// touch byte one or zero.
pub fn Decode_pointer_data(Buffer: &Vec<u8>) -> (Result: Result_type<Pointer_data_type>)
    ensures
        match Result {
            Ok(State) => {
                &&& Buffer@.len() == 5
                &&& (Buffer@[4] == 1 || Buffer@[4] == 0)
                &&& State.Point.X == I16_of_bytes_spec(Buffer@[0], Buffer@[1])
                &&& State.Point.Y == I16_of_bytes_spec(Buffer@[2], Buffer@[3])
                &&& State.Touch == (if Buffer@[4] == 1 {
                    Touch_type::Pressed
                } else {
                    Touch_type::Released
                })
            },
            Err(Error) => Error == Error_type::Invalid_input && (Buffer@.len() != 5 || (Buffer@[4]
                != 1 && Buffer@[4] != 0)),
        },
{
    if Buffer.len() != 5 {
        return Err(Error_type::Invalid_input);
    }
    let Touch = match Buffer[4] {
        1u8 => Touch_type::Pressed,
        0u8 => Touch_type::Released,
        _ => {
            return Err(Error_type::Invalid_input);
        },
    };
    let X = #[verifier::truncate] ((Buffer[0] as u16 + Buffer[1] as u16 * 256) as i16);
    let Y = #[verifier::truncate] ((Buffer[2] as u16 + Buffer[3] as u16 * 256) as i16);
    Ok(Pointer_data_type { Point: Point_type { X, Y }, Touch })
}

/// Law: the pointer record survives the trip through its five wire bytes.
pub proof fn Lemma_pointer_data_roundtrip(State: Pointer_data_type)
    ensures
        ({
            let Bytes = Pointer_data_bytes_spec(State);
            &&& I16_of_bytes_spec(Bytes[0], Bytes[1]) == State.Point.X
            &&& I16_of_bytes_spec(Bytes[2], Bytes[3]) == State.Point.Y
            &&& (if Bytes[4] == 1 {
                Touch_type::Pressed
            } else {
                Touch_type::Released
            }) == State.Touch
        }),
{
    crate::screen::Lemma_i16_bytes_roundtrip(State.Point.X);
    crate::screen::Lemma_i16_bytes_roundtrip(State.Point.Y);
}

/// A write on the pointer device: always refused, the device is an input.
pub fn Pointer_device_write(_Buffer: &Vec<u8>) -> (Result: Result_type<Size_type>)
    ensures
        Result == Result_type::<Size_type>::Err(Error_type::Unsupported_operation),
{
    Err(Error_type::Unsupported_operation)
}

/// A seek on the pointer device: always refused, it has no addressable
/// offset.
pub fn Pointer_device_set_position(_Position: &Position_type) -> (Result: Result_type<Size_type>)
    ensures
        Result == Result_type::<Size_type>::Err(Error_type::Unsupported_operation),
{
    Err(Error_type::Unsupported_operation)
}

/// A flush on the pointer device: always succeeds, there is nothing to
/// flush.
pub fn Pointer_device_flush() -> (Result: Result_type<()>)
    ensures
        Result == Result_type::<()>::Ok(()),
{
    Ok(())
}

/// Law: a read with no new events returns the previously observed state
/// unchanged — the state folded over an empty queue is the state itself,
/// and the record handed out encodes exactly it.
pub fn Law_pointer_read_empty_queue(
    Window: u32,
    State: Pointer_data_type,
    Buffer: &mut Vec<u8>,
) -> (Result: Result_type<Size_type>)
    requires
        old(Buffer)@.len() == 5,
    ensures
        Result == Result_type::<Size_type>::Ok(Size_type(5)),
        final(Buffer)@ == Pointer_data_bytes_spec(State),
{
    let Events: Vec<Pointer_event_type> = Vec::new();
    let (Latest, Quit) = Update_pointer_state(Window, State, &Events);
    proof {
        Lemma_empty_queue_keeps_state(Window, State);
        assert(Latest == State);
    }
    Pointer_device_read(&Latest, Buffer)
}

} // verus!
