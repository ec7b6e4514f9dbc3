use pick_list::event::Event;
use pick_list::geometry::{Point, Rectangle, Size};
use pick_list::layout::{Layout, Node};
use pick_list::mouse;
use pick_list::renderer::Renderer;
use pick_list::widget::{PickList, State};

struct Backend;

impl Renderer for Backend {
    const DEFAULT_PADDING: u16 = 5;
    const DEFAULT_SIZE: u16 = 20;
    type Font = u8;
    type Style = u8;
    type MenuStyle = u16;
    type Output = String;

    fn measure(&self, content: &str, size: u16, _font: u8, _bounds: Size) -> (u32, u32) {
        (content.len() as u32 * size as u32, size as u32)
    }

    fn menu_style(style: &u8) -> u16 {
        *style as u16 + 1000
    }

    fn draw(
        &mut self,
        _bounds: Rectangle,
        _cursor_position: Point,
        selected: Option<String>,
        _padding: u16,
        _text_size: u16,
        _font: u8,
        _style: &u8,
    ) -> String {
        selected.unwrap_or(String::new())
    }
}

#[derive(Debug, PartialEq)]
enum Message {
    Picked(&'static str),
}

fn sizes() -> Vec<&'static str> {
    vec!["Small", "Medium", "Large"]
}

fn press() -> Event {
    Event::Mouse(mouse::Event::ButtonPressed(mouse::Button::Left))
}

fn place() -> Layout {
    Layout::new(Point::new(10, 10), &Node::new(Size::new(100, 30)))
}

#[test]
fn default_state_is_closed_and_empty() {
    let mut state: State<&'static str> = State::default();
    let list = PickList::<_, Backend, _>::new(&mut state, sizes(), None, Message::Picked);
    assert_eq!(*list.is_open, false);
    assert_eq!(*list.hovered_option, None);
    assert_eq!(*list.pending_selection, None);
    assert_eq!(list.menu.scroll_offset, 0);
}

#[test]
fn press_inside_opens_and_highlights_the_selected_value() {
    let mut state: State<&'static str> = State::default();
    let mut messages: Vec<Message> = Vec::new();
    let mut list =
        PickList::<_, Backend, _>::new(&mut state, sizes(), Some("Medium"), Message::Picked);
    list.on_event(press(), place(), Point::new(50, 20), &mut messages);
    assert_eq!(*list.is_open, true);
    assert_eq!(*list.hovered_option, Some(1));
    assert!(messages.is_empty());
}

#[test]
fn press_on_the_edge_of_the_bounds_opens() {
    let mut state: State<&'static str> = State::default();
    let mut messages: Vec<Message> = Vec::new();
    let mut list =
        PickList::<_, Backend, _>::new(&mut state, sizes(), Some("Small"), Message::Picked);
    list.on_event(press(), place(), Point::new(110, 40), &mut messages);
    assert_eq!(*list.is_open, true);
    assert_eq!(*list.hovered_option, Some(0));
}

#[test]
fn opening_highlights_the_first_of_two_equal_options() {
    let mut state: State<&'static str> = State::default();
    let mut messages: Vec<Message> = Vec::new();
    let mut list = PickList::<_, Backend, _>::new(
        &mut state,
        vec!["a", "b", "b"],
        Some("b"),
        Message::Picked,
    );
    list.on_event(press(), place(), Point::new(50, 20), &mut messages);
    assert_eq!(*list.hovered_option, Some(1));
}

#[test]
fn opening_without_a_selection_highlights_nothing() {
    let mut state: State<&'static str> = State::default();
    let mut messages: Vec<Message> = Vec::new();
    let mut list = PickList::<_, Backend, _>::new(&mut state, sizes(), None, Message::Picked);
    *list.hovered_option = Some(2);
    list.on_event(press(), place(), Point::new(50, 20), &mut messages);
    assert_eq!(*list.is_open, true);
    assert_eq!(*list.hovered_option, None);
}

#[test]
fn opening_with_a_selection_that_is_no_option_highlights_nothing() {
    let mut state: State<&'static str> = State::default();
    let mut messages: Vec<Message> = Vec::new();
    let mut list =
        PickList::<_, Backend, _>::new(&mut state, sizes(), Some("Huge"), Message::Picked);
    *list.hovered_option = Some(2);
    list.on_event(press(), place(), Point::new(50, 20), &mut messages);
    assert_eq!(*list.is_open, true);
    assert_eq!(*list.hovered_option, None);
}

#[test]
fn opening_an_empty_list_highlights_nothing() {
    let mut state: State<&'static str> = State::default();
    let mut messages: Vec<Message> = Vec::new();
    let mut list =
        PickList::<_, Backend, _>::new(&mut state, Vec::new(), Some("Small"), Message::Picked);
    list.on_event(press(), place(), Point::new(50, 20), &mut messages);
    assert_eq!(*list.is_open, true);
    assert_eq!(*list.hovered_option, None);
    assert!(messages.is_empty());
}

#[test]
fn press_outside_a_closed_list_changes_nothing() {
    let mut state: State<&'static str> = State::default();
    let mut messages: Vec<Message> = Vec::new();
    let mut list =
        PickList::<_, Backend, _>::new(&mut state, sizes(), Some("Medium"), Message::Picked);
    *list.hovered_option = Some(2);
    list.menu.scroll_offset = 7;
    list.on_event(press(), place(), Point::new(111, 20), &mut messages);
    assert_eq!(*list.is_open, false);
    assert_eq!(*list.hovered_option, Some(2));
    assert_eq!(list.menu.scroll_offset, 7);
    assert_eq!(*list.pending_selection, None);
    assert!(messages.is_empty());
}

#[test]
fn press_off_screen_closes_an_open_list() {
    let mut state: State<&'static str> = State::default();
    let mut messages: Vec<Message> = Vec::new();
    let mut list =
        PickList::<_, Backend, _>::new(&mut state, sizes(), Some("Medium"), Message::Picked);
    *list.is_open = true;
    *list.hovered_option = Some(1);
    list.on_event(press(), place(), Point::new(-1, -1), &mut messages);
    assert_eq!(*list.is_open, false);
    assert_eq!(*list.hovered_option, Some(1));
    assert!(messages.is_empty());
}

#[test]
fn press_on_screen_leaves_an_open_list_open() {
    let mut state: State<&'static str> = State::default();
    let mut messages: Vec<Message> = Vec::new();
    let mut list =
        PickList::<_, Backend, _>::new(&mut state, sizes(), Some("Medium"), Message::Picked);
    *list.is_open = true;
    *list.hovered_option = Some(2);
    list.on_event(press(), place(), Point::new(500, 500), &mut messages);
    assert_eq!(*list.is_open, true);
    assert_eq!(*list.hovered_option, Some(2));
    assert!(messages.is_empty());
}

#[test]
fn other_input_is_ignored() {
    let mut state: State<&'static str> = State::default();
    let mut messages: Vec<Message> = Vec::new();
    let mut list =
        PickList::<_, Backend, _>::new(&mut state, sizes(), Some("Medium"), Message::Picked);
    let inside = Point::new(50, 20);
    list.on_event(
        Event::Mouse(mouse::Event::ButtonPressed(mouse::Button::Right)),
        place(),
        inside,
        &mut messages,
    );
    list.on_event(
        Event::Mouse(mouse::Event::ButtonReleased(mouse::Button::Left)),
        place(),
        inside,
        &mut messages,
    );
    list.on_event(
        Event::Mouse(mouse::Event::CursorMoved { x: 50, y: 20 }),
        place(),
        inside,
        &mut messages,
    );
    list.on_event(Event::Keyboard { key_code: 13, pressed: true }, place(), inside, &mut messages);
    assert_eq!(*list.is_open, false);
    assert_eq!(*list.hovered_option, None);
    assert!(messages.is_empty());
}

#[test]
fn pending_selection_is_committed_once() {
    let mut state: State<&'static str> = State::default();
    let mut messages: Vec<Message> = Vec::new();
    let mut list =
        PickList::<_, Backend, _>::new(&mut state, sizes(), Some("Medium"), Message::Picked);
    *list.is_open = true;
    *list.pending_selection = Some("Small");
    list.on_event(
        Event::Keyboard { key_code: 13, pressed: false },
        place(),
        Point::new(0, 0),
        &mut messages,
    );
    assert_eq!(messages, vec![Message::Picked("Small")]);
    assert_eq!(*list.is_open, false);
    assert_eq!(*list.pending_selection, None);
    list.on_event(
        Event::Keyboard { key_code: 13, pressed: false },
        place(),
        Point::new(0, 0),
        &mut messages,
    );
    assert_eq!(messages, vec![Message::Picked("Small")]);
}

#[test]
fn pending_selection_wins_over_a_press_that_opens() {
    let mut state: State<&'static str> = State::default();
    let mut messages: Vec<Message> = vec![Message::Picked("Earlier")];
    let mut list =
        PickList::<_, Backend, _>::new(&mut state, sizes(), Some("Large"), Message::Picked);
    *list.pending_selection = Some("Small");
    list.on_event(press(), place(), Point::new(50, 20), &mut messages);
    assert_eq!(*list.is_open, false);
    assert_eq!(*list.hovered_option, Some(2));
    assert_eq!(*list.pending_selection, None);
    assert_eq!(messages, vec![Message::Picked("Earlier"), Message::Picked("Small")]);
}

#[test]
fn state_outlives_the_pick_list() {
    let mut state: State<&'static str> = State::default();
    let mut messages: Vec<Message> = Vec::new();
    {
        let mut list =
            PickList::<_, Backend, _>::new(&mut state, sizes(), Some("Large"), Message::Picked);
        list.on_event(press(), place(), Point::new(50, 20), &mut messages);
    }
    let list = PickList::<_, Backend, _>::new(&mut state, sizes(), Some("Large"), Message::Picked);
    assert_eq!(*list.is_open, true);
    assert_eq!(*list.hovered_option, Some(2));
}

#[test]
fn scenario_open_dismiss_and_commit() {
    let mut state: State<&'static str> = State::default();
    let mut messages: Vec<Message> = Vec::new();
    let mut list =
        PickList::<_, Backend, _>::new(&mut state, sizes(), Some("Medium"), Message::Picked);

    list.on_event(press(), place(), Point::new(50, 20), &mut messages);
    assert_eq!(*list.is_open, true);
    assert_eq!(*list.hovered_option, Some(1));

    list.on_event(press(), place(), Point::new(-1, -1), &mut messages);
    assert_eq!(*list.is_open, false);
    assert!(messages.is_empty());

    list.on_event(press(), place(), Point::new(50, 20), &mut messages);
    match list.overlay(place()) {
        Some(menu) => {
            *menu.pending_selection = Some("Large");
        }
        None => panic!("an open pick list has a menu"),
    }
    list.on_event(
        Event::Mouse(mouse::Event::CursorMoved { x: 3, y: 4 }),
        place(),
        Point::new(3, 4),
        &mut messages,
    );
    assert_eq!(messages, vec![Message::Picked("Large")]);
    assert_eq!(*list.is_open, false);
    assert_eq!(*list.pending_selection, None);
}
