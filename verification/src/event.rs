//! The events that a window reports, and the interface through which a host
//! receives them.
use crate::device::{KeyCode, KeyState, MouseButton, MouseState};
use crate::geometry::{PhysicalPosition, PhysicalSize, ScreenPosition};
use crate::ime::{CandidateList, Composition};
use crate::raw_input::{Device, DeviceChangeState, InputData};
use crate::window::Window;
use vstd::prelude::*;

verus! {

/// One event of a window.
pub enum Event {
    /// The window needs redrawing.
    Draw,
    /// The window has been activated.
    Activated,
    /// The window has been inactivated.
    Inactivated,
    /// The window has been closed.
    Closed,
    /// The window has been moved.
    Moved(ScreenPosition),
    /// The window is resizing.
    Resizing(PhysicalSize<u32>),
    /// The window has been resized.
    Resized(PhysicalSize<u32>),
    /// The window's DPI has been changed.
    DpiChanged,
    /// A mouse button has been pressed or released on the window.
    MouseInput { button: MouseButton, state: KeyState, mouse_state: MouseState },
    /// The cursor has been moved on the window.
    CursorMoved(MouseState),
    /// The cursor has entered the window.
    CursorEntered(MouseState),
    /// The cursor has left the window.
    CursorLeaved(MouseState),
    /// A keyboard key has been pressed or released.
    KeyInput { key_code: KeyCode, state: KeyState, prev_pressed: bool },
    /// A character has been typed.
    CharInput(char),
    /// The IME starts composition.
    ImeStartComposition,
    /// The IME composition status has been changed.
    ImeComposition { composition: Composition, candidate_list: Option<CandidateList> },
    /// The IME ends composition.
    ImeEndComposition(Option<String>),
    /// Files have been dropped on the window.
    DropFiles { paths: Vec<String>, position: PhysicalPosition<i32> },
    /// Raw data has been input.
    RawInput(InputData),
    /// A device has arrived or has been removed.
    RawInputDeviceChange { device: Device, state: DeviceChangeState },
}

/// Trait that must implements for handling events.
pub trait EventHandler {
    /// This is called when there are no events.
    fn idle(&mut self) {
    }

    /// This is called before a event.
    fn pre_processing(&mut self) {
    }

    /// This is called after a event.
    fn post_processing(&mut self) {
    }

    /// This is called when the window needs redrawing.
    fn draw(&mut self, window: &Window) {
    }

    /// This is called when the window has been activated.
    fn activated(&mut self, window: &Window) {
    }

    /// This is called when the window has been inactivated.
    fn inactivated(&mut self, window: &Window) {
    }

    /// This is called when the window has been closed.
    fn closed(&mut self, window: &Window) {
    }

    /// This is called when the window has been moved.
    fn moved(&mut self, window: &Window, position: ScreenPosition) {
    }

    /// This is called when the window is resizing.
    fn resizing(&mut self, window: &Window, size: PhysicalSize<u32>) {
    }

    /// This is called when the window has been resized.
    fn resized(&mut self, window: &Window, size: PhysicalSize<u32>) {
    }

    /// This is called when the window's DPI has been changed.
    fn dpi_changed(&mut self, window: &Window) {
    }

    /// This is called when the mouse button has been pressed and released on the window.
    fn mouse_input(
        &mut self,
        window: &Window,
        button: MouseButton,
        state: KeyState,
        mouse_state: &MouseState,
    ) {
    }

    /// This is called when the cursor has been moved on the window.
    fn cursor_moved(&mut self, window: &Window, mouse_state: &MouseState) {
    }

    /// This is called when the cursor has been entered the window.
    fn cursor_entered(&mut self, window: &Window, mouse_state: &MouseState) {
    }

    /// This is called when the cursor has been leaved the window.
    fn cursor_leaved(&mut self, window: &Window, mouse_state: &MouseState) {
    }

    /// This is called when the keyboard key has been pressed and released.
    fn key_input(
        &mut self,
        window: &Window,
        key_code: KeyCode,
        state: KeyState,
        prev_pressed: bool,
    ) {
    }

    /// This is called when the keyboard key has been inputed the character.
    fn char_input(&mut self, window: &Window, c: char) {
    }

    /// This is called when the IME starts composition.
    fn ime_start_composition(&mut self, window: &Window) {
    }

    /// This is called when the IME composition status has been changed.
    fn ime_composition(
        &mut self,
        window: &Window,
        composition: &Composition,
        candidate_list: Option<&CandidateList>,
    ) {
    }

    /// This is called when the IME ends composition.
    fn ime_end_composition(&mut self, window: &Window, result_string: Option<&str>) {
    }

    /// This is called when files have been dropped on the window.
    fn drop_files(
        &mut self,
        window: &Window,
        paths: &Vec<String>,
        position: PhysicalPosition<i32>,
    ) {
    }

    /// This is called when raw data has been inputed.
    fn raw_input(&mut self, window: &Window, data: &InputData) {
    }

    /// This is called when a device state has been changead.
    fn raw_input_device_change(
        &mut self,
        window: &Window,
        device: &Device,
        state: DeviceChangeState,
    ) {
    }
}

/// Hands one event of a window to a handler: one call of the method that
/// stands for the event, with the window and with what the event carries.
pub fn deliver<H: EventHandler>(handler: &mut H, window: &Window, event: &Event)
    ensures
        exists|r: &mut H|
            mut_ref_current(r) == *old(handler) && mut_ref_future(r) == *final(handler)
                && #[trigger] received(r, window, event),
{
    let ghost before = *handler;
    match event {
        Event::Draw => {
            handler.draw(window);
            proof {
                let r = choose|r: &mut H|
                    mut_ref_current(r) == before && mut_ref_future(r) == *handler
                        && #[trigger] call_ensures(H::draw, (r, window), ());
                assert(received(r, window, event));
            }
        },
        Event::Activated => {
            handler.activated(window);
            proof {
                let r = choose|r: &mut H|
                    mut_ref_current(r) == before && mut_ref_future(r) == *handler
                        && #[trigger] call_ensures(H::activated, (r, window), ());
                assert(received(r, window, event));
            }
        },
        Event::Inactivated => {
            handler.inactivated(window);
            proof {
                let r = choose|r: &mut H|
                    mut_ref_current(r) == before && mut_ref_future(r) == *handler
                        && #[trigger] call_ensures(H::inactivated, (r, window), ());
                assert(received(r, window, event));
            }
        },
        Event::Closed => {
            handler.closed(window);
            proof {
                let r = choose|r: &mut H|
                    mut_ref_current(r) == before && mut_ref_future(r) == *handler
                        && #[trigger] call_ensures(H::closed, (r, window), ());
                assert(received(r, window, event));
            }
        },
        Event::Moved(position) => {
            handler.moved(window, *position);
            proof {
                let r = choose|r: &mut H|
                    mut_ref_current(r) == before && mut_ref_future(r) == *handler
                        && #[trigger] call_ensures(H::moved, (r, window, *position), ());
                assert(received(r, window, event));
            }
        },
        Event::Resizing(size) => {
            handler.resizing(window, *size);
            proof {
                let r = choose|r: &mut H|
                    mut_ref_current(r) == before && mut_ref_future(r) == *handler
                        && #[trigger] call_ensures(H::resizing, (r, window, *size), ());
                assert(received(r, window, event));
            }
        },
        Event::Resized(size) => {
            handler.resized(window, *size);
            proof {
                let r = choose|r: &mut H|
                    mut_ref_current(r) == before && mut_ref_future(r) == *handler
                        && #[trigger] call_ensures(H::resized, (r, window, *size), ());
                assert(received(r, window, event));
            }
        },
        Event::DpiChanged => {
            handler.dpi_changed(window);
            proof {
                let r = choose|r: &mut H|
                    mut_ref_current(r) == before && mut_ref_future(r) == *handler
                        && #[trigger] call_ensures(H::dpi_changed, (r, window), ());
                assert(received(r, window, event));
            }
        },
        Event::MouseInput { button, state, mouse_state } => {
            handler.mouse_input(window, *button, *state, mouse_state);
            proof {
                let r = choose|r: &mut H|
                    mut_ref_current(r) == before && mut_ref_future(r) == *handler
                        && #[trigger] call_ensures(
                            H::mouse_input,
                            (r, window, *button, *state, mouse_state),
                            (),
                        );
                assert(received(r, window, event));
            }
        },
        Event::CursorMoved(mouse_state) => {
            handler.cursor_moved(window, mouse_state);
            proof {
                let r = choose|r: &mut H|
                    mut_ref_current(r) == before && mut_ref_future(r) == *handler
                        && #[trigger] call_ensures(H::cursor_moved, (r, window, mouse_state), ());
                assert(received(r, window, event));
            }
        },
        Event::CursorEntered(mouse_state) => {
            handler.cursor_entered(window, mouse_state);
            proof {
                let r = choose|r: &mut H|
                    mut_ref_current(r) == before && mut_ref_future(r) == *handler
                        && #[trigger] call_ensures(H::cursor_entered, (r, window, mouse_state), ());
                assert(received(r, window, event));
            }
        },
        Event::CursorLeaved(mouse_state) => {
            handler.cursor_leaved(window, mouse_state);
            proof {
                let r = choose|r: &mut H|
                    mut_ref_current(r) == before && mut_ref_future(r) == *handler
                        && #[trigger] call_ensures(H::cursor_leaved, (r, window, mouse_state), ());
                assert(received(r, window, event));
            }
        },
        Event::KeyInput { key_code, state, prev_pressed } => {
            handler.key_input(window, *key_code, *state, *prev_pressed);
            proof {
                let r = choose|r: &mut H|
                    mut_ref_current(r) == before && mut_ref_future(r) == *handler
                        && #[trigger] call_ensures(
                            H::key_input,
                            (r, window, *key_code, *state, *prev_pressed),
                            (),
                        );
                assert(received(r, window, event));
            }
        },
        Event::CharInput(c) => {
            handler.char_input(window, *c);
            proof {
                let r = choose|r: &mut H|
                    mut_ref_current(r) == before && mut_ref_future(r) == *handler
                        && #[trigger] call_ensures(H::char_input, (r, window, *c), ());
                assert(received(r, window, event));
            }
        },
        Event::ImeStartComposition => {
            handler.ime_start_composition(window);
            proof {
                let r = choose|r: &mut H|
                    mut_ref_current(r) == before && mut_ref_future(r) == *handler
                        && #[trigger] call_ensures(H::ime_start_composition, (r, window), ());
                assert(received(r, window, event));
            }
        },
        Event::ImeComposition { composition, candidate_list } => {
            let list = candidate_list.as_ref();
            handler.ime_composition(window, composition, list);
            proof {
                let r = choose|r: &mut H|
                    mut_ref_current(r) == before && mut_ref_future(r) == *handler
                        && #[trigger] call_ensures(
                            H::ime_composition,
                            (r, window, composition, list),
                            (),
                        );
                assert(received(r, window, event));
            }
        },
        Event::ImeEndComposition(result) => {
            match result {
                Some(s) => {
                    let text = s.as_str();
                    handler.ime_end_composition(window, Some(text));
                    proof {
                        let r = choose|r: &mut H|
                            mut_ref_current(r) == before && mut_ref_future(r) == *handler
                                && #[trigger] call_ensures(
                                    H::ime_end_composition,
                                    (r, window, Some(text)),
                                    (),
                                );
                        assert(received(r, window, event));
                    }
                },
                None => {
                    handler.ime_end_composition(window, None);
                    proof {
                        let r = choose|r: &mut H|
                            mut_ref_current(r) == before && mut_ref_future(r) == *handler
                                && #[trigger] call_ensures(
                                    H::ime_end_composition,
                                    (r, window, None::<&str>),
                                    (),
                                );
                        assert(received(r, window, event));
                    }
                },
            }
        },
        Event::DropFiles { paths, position } => {
            handler.drop_files(window, paths, *position);
            proof {
                let r = choose|r: &mut H|
                    mut_ref_current(r) == before && mut_ref_future(r) == *handler
                        && #[trigger] call_ensures(
                            H::drop_files,
                            (r, window, paths, *position),
                            (),
                        );
                assert(received(r, window, event));
            }
        },
        Event::RawInput(data) => {
            handler.raw_input(window, data);
            proof {
                let r = choose|r: &mut H|
                    mut_ref_current(r) == before && mut_ref_future(r) == *handler
                        && #[trigger] call_ensures(H::raw_input, (r, window, data), ());
                assert(received(r, window, event));
            }
        },
        Event::RawInputDeviceChange { device, state } => {
            handler.raw_input_device_change(window, device, *state);
            proof {
                let r = choose|r: &mut H|
                    mut_ref_current(r) == before && mut_ref_future(r) == *handler
                        && #[trigger] call_ensures(
                            H::raw_input_device_change,
                            (r, window, device, *state),
                            (),
                        );
                assert(received(r, window, event));
            }
        },
    }
}

/// The candidate list of an event as it is handed to the handler.
pub open spec fn as_borrowed(list: &Option<CandidateList>) -> Option<&CandidateList> {
    match list {
        Some(l) => Some(l),
        None => None,
    }
}

/// The handler behind a mutable reference is called, once, by the method
/// that stands for an event, with the window and with what the event
/// carries: the reference and those arguments are among the calls that the
/// method answers. The value behind the reference when it is made is the
/// handler before the call, the value when it ends the handler after it.
pub open spec fn received<H: EventHandler>(r: &mut H, window: &Window, event: &Event) -> bool {
    match *event {
        Event::Draw => call_ensures(H::draw, (r, window), ()),
        Event::Activated => call_ensures(H::activated, (r, window), ()),
        Event::Inactivated => call_ensures(H::inactivated, (r, window), ()),
        Event::Closed => call_ensures(H::closed, (r, window), ()),
        Event::Moved(position) => call_ensures(H::moved, (r, window, position), ()),
        Event::Resizing(size) => call_ensures(H::resizing, (r, window, size), ()),
        Event::Resized(size) => call_ensures(H::resized, (r, window, size), ()),
        Event::DpiChanged => call_ensures(H::dpi_changed, (r, window), ()),
        Event::MouseInput { button, state, mouse_state } => call_ensures(
            H::mouse_input,
            (r, window, button, state, &mouse_state),
            (),
        ),
        Event::CursorMoved(mouse_state) => call_ensures(
            H::cursor_moved,
            (r, window, &mouse_state),
            (),
        ),
        Event::CursorEntered(mouse_state) => call_ensures(
            H::cursor_entered,
            (r, window, &mouse_state),
            (),
        ),
        Event::CursorLeaved(mouse_state) => call_ensures(
            H::cursor_leaved,
            (r, window, &mouse_state),
            (),
        ),
        Event::KeyInput { key_code, state, prev_pressed } => call_ensures(
            H::key_input,
            (r, window, key_code, state, prev_pressed),
            (),
        ),
        Event::CharInput(c) => call_ensures(H::char_input, (r, window, c), ()),
        Event::ImeStartComposition => call_ensures(H::ime_start_composition, (r, window), ()),
        Event::ImeComposition { composition, candidate_list } => call_ensures(
            H::ime_composition,
            (r, window, &composition, as_borrowed(&candidate_list)),
            (),
        ),
        Event::ImeEndComposition(result) => match result {
            Some(s) => exists|text: &str|
                text@ == s@ && #[trigger] call_ensures(
                    H::ime_end_composition,
                    (r, window, Some(text)),
                    (),
                ),
            None => call_ensures(H::ime_end_composition, (r, window, None::<&str>), ()),
        },
        Event::DropFiles { paths, position } => call_ensures(
            H::drop_files,
            (r, window, &paths, position),
            (),
        ),
        Event::RawInput(data) => call_ensures(H::raw_input, (r, window, &data), ()),
        Event::RawInputDeviceChange { device, state } => call_ensures(
            H::raw_input_device_change,
            (r, window, &device, state),
            (),
        ),
    }
}

} // verus!
