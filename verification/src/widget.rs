//! The pick list and what it remembers between frames.
use std::fmt::Display;
use vstd::prelude::*;
use vstd::string::to_string_from_display_ensures;
use crate::event::Event;
use crate::geometry::{clip, clip_to, Point, Rectangle, Size};
use crate::hasher::{
    lemma_texts_writes_push, length_writes, texts_writes, write_length, write_text, Hasher,
};
use crate::layout::{Layout, Limits, Node};
use crate::length::Length;
use crate::menu;
use crate::menu::Menu;
use crate::renderer::{is_default, measures, measures_each, Renderer};
use crate::sizing::{fit, fitted_size};

verus! {

/// What a pick list remembers between frames.
///
/// The application keeps one `State` for each pick list that it shows and
/// lends it to the [`PickList`] that it builds for a frame.
#[derive(Debug, Clone)]
pub struct State<T> {
    menu: menu::State,
    is_open: bool,
    hovered_option: Option<usize>,
    pending_selection: Option<T>,
}

impl<T> State<T> {
    /// What the menu remembers.
    pub closed spec fn menu(&self) -> menu::State {
        self.menu
    }

    /// Whether the menu is shown.
    pub closed spec fn is_open(&self) -> bool {
        self.is_open
    }

    /// The index of the option that is highlighted in the menu, if one is.
    pub closed spec fn hovered_option(&self) -> Option<usize> {
        self.hovered_option
    }

    /// The mailbox between the menu and the pick list: the value that was
    /// chosen in the menu and that the pick list has not yet told the
    /// application of.
    pub closed spec fn pending_selection(&self) -> Option<T> {
        self.pending_selection
    }
}

impl<T> Default for State<T> {
    /// The state of a pick list that is closed, with nothing highlighted and
    /// nothing chosen.
    fn default() -> (state: Self)
        ensures
            state.menu().scroll_offset == 0,
            !state.is_open(),
            state.hovered_option() == None::<usize>,
            state.pending_selection() == None::<T>,
    {
        State {
            menu: menu::State::default(),
            is_open: false,
            hovered_option: None,
            pending_selection: None,
        }
    }
}

/// A control to pick one value out of `options`, for one frame.
///
/// The first four fields are borrowed from a [`State`] for as long as the
/// pick list lives; whatever is to outlast the frame is written there. The
/// others are the configuration of the frame.
#[verifier::reject_recursive_types(T)]
#[verifier::reject_recursive_types(R)]
#[verifier::reject_recursive_types(F)]
pub struct PickList<'a, T, R: Renderer, F> {
    pub menu: &'a mut menu::State,
    pub is_open: &'a mut bool,
    pub hovered_option: &'a mut Option<usize>,
    pub pending_selection: &'a mut Option<T>,
    /// Makes the message that tells the application of a chosen value.
    pub on_selected: F,
    pub options: Vec<T>,
    /// The value that is shown. It need not be one of the options.
    pub selected: Option<T>,
    pub width: Length,
    pub padding: u16,
    /// The text size; `None` stands for that of the renderer.
    pub text_size: Option<u16>,
    pub font: R::Font,
    pub style: R::Style,
}

/// Whether `labels` holds, option by option, a string that the option may be
/// shown as.
pub open spec fn labelled<T: Display>(options: Seq<T>, labels: Seq<String>) -> bool {
    &&& labels.len() == options.len()
    &&& forall|i: int|
        0 <= i < options.len() ==> to_string_from_display_ensures::<T>(
            &options[i],
            #[trigger] labels[i],
        )
}

/// The texts of `labels`.
pub open spec fn texts(labels: Seq<String>) -> Seq<Seq<char>> {
    labels.map_values(|label: String| label@)
}

/// Whether `label` is a string that `selected` may be shown as, and is
/// missing where `selected` is.
pub open spec fn labels_selected<T: Display>(selected: Option<T>, label: Option<String>) -> bool {
    match selected {
        Some(value) => label matches Some(text) && to_string_from_display_ensures::<T>(
            &value,
            text,
        ),
        None => label is None,
    }
}

/// What a pick list writes into a hasher: with the width policy `Shrink` the
/// labels of its options, in their order, and with any other the width policy
/// itself.
pub open spec fn layout_writes(width: Length, labels: Seq<Seq<char>>) -> Seq<Seq<u8>> {
    match width {
        Length::Shrink => texts_writes(labels),
        _ => length_writes(width),
    }
}

/// Whether `a == b` may evaluate to `outcome`.
pub open spec fn compares<T: PartialEq>(a: &T, b: &T, outcome: bool) -> bool {
    call_ensures(T::eq, (a, b), outcome)
}

/// Whether `found` is what a search of `options` from the front for a value
/// equal to `selected` gives: the index of the first option that compared
/// equal, after all those before it compared unequal, and nothing where every
/// option compared unequal or where there is nothing to search for.
pub open spec fn finds<T: PartialEq>(options: Seq<T>, selected: Option<T>, found: Option<usize>) -> bool {
    match selected {
        None => found is None,
        Some(value) => match found {
            Some(index) => {
                &&& index < options.len()
                &&& compares(&options[index as int], &value, true)
                &&& forall|j: int| 0 <= j < index ==> compares(&#[trigger] options[j], &value, false)
            },
            None => forall|j: int|
                0 <= j < options.len() ==> compares(&#[trigger] options[j], &value, false),
        },
    }
}

/// Whether `event` opens a pick list: it is a press of the primary button
/// inside the bounds of a pick list that is closed.
pub open spec fn opens(is_open: bool, event: Event, bounds: Rectangle, cursor_position: Point) -> bool {
    event.is_primary_press() && !is_open && bounds.contains(cursor_position)
}

/// Whether the menu is shown after `event`, as far as the event decides it.
///
/// Only a press of the primary button counts. It opens a closed pick list
/// where it falls inside the bounds. It closes an open one where it comes
/// with a cursor that lies off the screen, which is how the menu says that
/// the press fell outside of it.
pub open spec fn shown_after(is_open: bool, event: Event, bounds: Rectangle, cursor_position: Point) -> bool {
    if !event.is_primary_press() {
        is_open
    } else if is_open {
        !cursor_position.is_off_screen()
    } else {
        bounds.contains(cursor_position)
    }
}

/// Searches `options` from the front for a value equal to `selected`.
pub fn position<T: PartialEq>(options: &[T], selected: &Option<T>) -> (found: Option<usize>)
    ensures
        finds(options@, *selected, found),
{
    match selected {
        None => None,
        Some(value) => {
            let mut i: usize = 0;
            while i < options.len()
                invariant
                    i <= options@.len(),
                    *selected == Some(*value),
                    forall|j: int| 0 <= j < i ==> compares(&#[trigger] options@[j], value, false),
                decreases options@.len() - i,
            {
                if options[i] == *value {
                    return Some(i);
                }
                i += 1;
            }
            None
        },
    }
}

impl<'a, T: Display + PartialEq, Message, R: Renderer, F: Fn(T) -> Message> PickList<'a, T, R, F> {
    /// The text size that the pick list is shown at.
    pub open spec fn spec_effective_text_size(&self) -> u16 {
        match self.text_size {
            Some(size) => size,
            None => R::DEFAULT_SIZE,
        }
    }

    /// What a hasher that was written `written` holds after the pick list has
    /// written itself into it, where `labels` are the labels of the options.
    pub open spec fn spec_hash_layout(&self, written: Seq<Seq<u8>>, labels: Seq<Seq<char>>) -> Seq<
        Seq<u8>,
    > {
        written + layout_writes(self.width, labels)
    }

    /// A pick list on `state` that offers `options`, shows `selected` and
    /// tells the application of a chosen value through `on_selected`.
    ///
    /// It shrinks to its content, has the padding and the text size of the
    /// renderer, and a font and a style as `Default` gives them.
    pub fn new(state: &'a mut State<T>, options: Vec<T>, selected: Option<T>, on_selected: F) -> (list:
        Self)
        ensures
            *list.menu == old(state).menu(),
            *list.is_open == old(state).is_open(),
            *list.hovered_option == old(state).hovered_option(),
            *list.pending_selection == old(state).pending_selection(),
            final(state).menu() == *final(list.menu),
            final(state).is_open() == *final(list.is_open),
            final(state).hovered_option() == *final(list.hovered_option),
            final(state).pending_selection() == *final(list.pending_selection),
            list.on_selected == on_selected,
            list.options == options,
            list.selected == selected,
            list.width == Length::Shrink,
            list.padding == R::DEFAULT_PADDING,
            list.text_size == None::<u16>,
            is_default(list.font),
            is_default(list.style),
    {
        let State { menu, is_open, hovered_option, pending_selection } = state;
        PickList {
            menu,
            is_open,
            hovered_option,
            pending_selection,
            on_selected,
            options,
            selected,
            width: Length::Shrink,
            padding: R::DEFAULT_PADDING,
            text_size: None,
            font: Default::default(),
            style: Default::default(),
        }
    }

    /// Sets the width policy.
    pub fn width(self, width: Length) -> (list: Self)
        ensures
            list == (Self { width, ..self }),
    {
        Self { width, ..self }
    }

    /// Sets the padding.
    pub fn padding(self, padding: u16) -> (list: Self)
        ensures
            list == (Self { padding, ..self }),
    {
        Self { padding, ..self }
    }

    /// Sets the text size.
    pub fn text_size(self, size: u16) -> (list: Self)
        ensures
            list == (Self { text_size: Some(size), ..self }),
    {
        Self { text_size: Some(size), ..self }
    }

    /// Sets the font.
    pub fn font(self, font: R::Font) -> (list: Self)
        ensures
            list == (Self { font, ..self }),
    {
        Self { font, ..self }
    }

    /// Sets the style to what `style` converts into.
    pub fn style<S: Into<R::Style>>(self, style: S) -> (list: Self)
        ensures
            call_ensures(S::into, (style,), list.style),
            list == (Self { style: list.style, ..self }),
    {
        Self { style: style.into(), ..self }
    }

    #[verifier::when_used_as_spec(spec_effective_text_size)]
    pub fn effective_text_size(&self) -> (size: u16)
        ensures
            size == self.spec_effective_text_size(),
    {
        match self.text_size {
            Some(size) => size,
            None => R::DEFAULT_SIZE,
        }
    }

    /// Sizes the pick list within `limits`.
    ///
    /// A shrinking pick list has every option shown as a string and every
    /// such label measured by `renderer`, at the effective text size, in the
    /// default font and with no bound on the room, so that it is wide enough
    /// for whichever option is selected next. With any other width policy
    /// nothing is measured. The size then follows from the measured widths as
    /// [`fitted_size`] says.
    pub fn layout(&self, renderer: &R, limits: &Limits) -> (node: Node)
        ensures
            match self.width {
                Length::Shrink => exists|labels: Seq<String>, font: R::Font, widths: Seq<u32>|
                    {
                        &&& labelled(self.options@, labels)
                        &&& is_default(font)
                        &&& measures_each(
                            renderer,
                            texts(labels),
                            self.spec_effective_text_size(),
                            font,
                            widths,
                        )
                        &&& node.size == fitted_size(
                            Length::Shrink,
                            self.padding,
                            self.spec_effective_text_size(),
                            *limits,
                            widths,
                        )
                    },
                _ => node.size == fitted_size(
                    self.width,
                    self.padding,
                    self.spec_effective_text_size(),
                    *limits,
                    Seq::empty(),
                ),
            },
    {
        let text_size = self.effective_text_size();
        match self.width {
            Length::Shrink => {
                let font = R::Font::default();
                let mut widths: Vec<u32> = Vec::new();
                let ghost mut labels: Seq<String> = Seq::empty();
                let mut i: usize = 0;
                while i < self.options.len()
                    invariant
                        i <= self.options@.len(),
                        labelled(self.options@.take(i as int), labels),
                        measures_each(renderer, texts(labels), text_size, font, widths@),
                    decreases self.options@.len() - i,
                {
                    let label = self.options[i].to_string();
                    let content = label.as_str();
                    let (width, height) = renderer.measure(
                        content,
                        text_size,
                        font,
                        Size::unbounded(),
                    );
                    proof {
                        assert(call_ensures(
                            R::measure,
                            (renderer, content, text_size, font, Size::spec_unbounded()),
                            (width, height),
                        ));
                        assert(measures(renderer, label@, text_size, font, width));
                        labels = labels.push(label);
                    }
                    widths.push(width);
                    i += 1;
                }
                proof {
                    assert(self.options@.take(i as int) == self.options@);
                }
                fit(Length::Shrink, self.padding, text_size, limits, widths.as_slice())
            },
            _ => {
                let widths: [u32; 0] = [];
                fit(self.width, self.padding, text_size, limits, widths.as_slice())
            },
        }
    }
    /// Writes into `state` what the size of the pick list depends on; see
    /// [`layout_writes`]. With the width policy `Shrink` every option is shown
    /// as a string for it; with any other, none is.
    pub fn hash_layout(&self, state: &mut Hasher)
        ensures
            match self.width {
                Length::Shrink => exists|labels: Seq<String>|
                    {
                        &&& labelled(self.options@, labels)
                        &&& final(state)@ == self.spec_hash_layout(old(state)@, texts(labels))
                    },
                _ => final(state)@ == self.spec_hash_layout(old(state)@, Seq::empty()),
            },
    {
        match self.width {
            Length::Shrink => {
                let ghost mut labels: Seq<String> = Seq::empty();
                let mut i: usize = 0;
                while i < self.options.len()
                    invariant
                        i <= self.options@.len(),
                        labelled(self.options@.take(i as int), labels),
                        state@ == old(state)@ + texts_writes(texts(labels)),
                    decreases self.options@.len() - i,
                {
                    let label = self.options[i].to_string();
                    write_text(state, label.as_str());
                    proof {
                        lemma_texts_writes_push(texts(labels), label@);
                        assert(texts(labels.push(label)) == texts(labels).push(label@));
                        labels = labels.push(label);
                    }
                    i += 1;
                }
                proof {
                    assert(self.options@.take(i as int) == self.options@);
                }
            },
            _ => {
                write_length(state, self.width);
            },
        }
    }

    /// Handles `event`, which came while the cursor was at `cursor_position`
    /// and the pick list where `layout` says.
    ///
    /// The event first opens or closes the pick list as [`shown_after`] says;
    /// where it opens it, the highlight is set to the first option that is
    /// equal to the selected value, if there is one. Then, whatever the event
    /// was, the mailbox is emptied: a value found there is handed to
    /// `on_selected`, the message that this gives is pushed onto `messages`,
    /// and the pick list is closed, even if the event had just opened it.
    pub fn on_event(
        &mut self,
        event: Event,
        layout: Layout,
        cursor_position: Point,
        messages: &mut Vec<Message>,
    )
        requires
            *old(self).pending_selection matches Some(value) ==> call_requires(
                old(self).on_selected,
                (value,),
            ),
        ensures
            // The pick list borrows what it borrowed and is configured as it was.
            *final(final(self).menu) == *final(old(self).menu),
            *final(final(self).is_open) == *final(old(self).is_open),
            *final(final(self).hovered_option) == *final(old(self).hovered_option),
            *final(final(self).pending_selection) == *final(old(self).pending_selection),
            final(self).on_selected == old(self).on_selected,
            final(self).options == old(self).options,
            final(self).selected == old(self).selected,
            final(self).width == old(self).width,
            final(self).padding == old(self).padding,
            final(self).text_size == old(self).text_size,
            final(self).font == old(self).font,
            final(self).style == old(self).style,
            // What the menu remembers is left alone.
            *final(self).menu == *old(self).menu,
            // The mailbox is left empty.
            *final(self).pending_selection == None::<T>,
            // A pending selection closes the pick list; without one the event decides.
            *final(self).is_open == (*old(self).pending_selection is None && shown_after(
                *old(self).is_open,
                event,
                layout.bounds(),
                cursor_position,
            )),
            // The highlight moves where the event opens the pick list, and only there.
            if opens(*old(self).is_open, event, layout.bounds(), cursor_position) {
                finds(old(self).options@, old(self).selected, *final(self).hovered_option)
            } else {
                *final(self).hovered_option == *old(self).hovered_option
            },
            // A pending selection gives one message, made by `on_selected`; nothing
            // else gives any.
            match *old(self).pending_selection {
                Some(value) => {
                    &&& final(messages)@.len() == old(messages)@.len() + 1
                    &&& final(messages)@.drop_last() == old(messages)@
                    &&& call_ensures(old(self).on_selected, (value,), final(messages)@.last())
                },
                None => final(messages)@ == old(messages)@,
            },
            // No event gives more than one message.
            final(messages)@.len() <= old(messages)@.len() + 1,
            // A press outside of a closed pick list leaves it closed and leaves the
            // highlight alone; with an empty mailbox it changes nothing at all.
            event.is_primary_press() && !*old(self).is_open && !layout.bounds().contains(
                cursor_position,
            ) ==> {
                &&& !*final(self).is_open
                &&& *final(self).hovered_option == *old(self).hovered_option
                &&& *final(self).menu == *old(self).menu
                &&& *old(self).pending_selection is None ==> {
                    &&& *final(self).pending_selection == *old(self).pending_selection
                    &&& final(messages)@ == old(messages)@
                }
            },
    {
        if event.is_primary_press() {
            if *self.is_open {
                *self.is_open = !cursor_position.is_off_screen();
            } else if layout.bounds().contains(cursor_position) {
                *self.is_open = true;
                *self.hovered_option = position(self.options.as_slice(), &self.selected);
            }
        }
        if let Some(value) = self.pending_selection.take() {
            let message = (self.on_selected)(value);
            messages.push(message);
            *self.is_open = false;
        }
    }

    /// Has `renderer` draw the pick list where `layout` says.
    ///
    /// The renderer is handed the bounds, the cursor, the selected value shown
    /// as a string (nothing where none is selected), the padding, the
    /// effective text size, the font and the style. What it returns is
    /// returned.
    pub fn draw(&self, renderer: &mut R, layout: Layout, cursor_position: Point) -> (output:
        R::Output)
        ensures
            exists|label: Option<String>, drawing: &mut R|
                {
                    &&& labels_selected(self.selected, label)
                    &&& *drawing == *old(renderer)
                    &&& *final(drawing) == *final(renderer)
                    &&& #[trigger] call_ensures(
                        R::draw,
                        (
                            drawing,
                            layout.bounds(),
                            cursor_position,
                            label,
                            self.padding,
                            self.spec_effective_text_size(),
                            self.font,
                            &self.style,
                        ),
                        output,
                    )
                },
    {
        let label = match &self.selected {
            Some(value) => Some(value.to_string()),
            None => None,
        };
        renderer.draw(
            layout.bounds(),
            cursor_position,
            label,
            self.padding,
            self.effective_text_size(),
            self.font,
            &self.style,
        )
    }

    /// The menu of the pick list, if the pick list is open.
    ///
    /// The menu is as wide as the pick list and opens under it. It has the
    /// padding, the text size and the font of the pick list, and the style that
    /// the renderer derives from that of the pick list. It borrows what the
    /// menu remembers, the highlight and the mailbox: what it leaves there is
    /// what the pick list holds afterwards. A closed pick list has no menu,
    /// and asking for it changes nothing.
    pub fn overlay(&mut self, layout: Layout) -> (overlay: Option<Menu<'_, T, R>>)
        ensures
            // The pick list borrows what it borrowed and is configured as it was.
            *final(final(self).menu) == *final(old(self).menu),
            *final(final(self).is_open) == *final(old(self).is_open),
            *final(final(self).hovered_option) == *final(old(self).hovered_option),
            *final(final(self).pending_selection) == *final(old(self).pending_selection),
            final(self).on_selected == old(self).on_selected,
            final(self).options == old(self).options,
            final(self).selected == old(self).selected,
            final(self).width == old(self).width,
            final(self).padding == old(self).padding,
            final(self).text_size == old(self).text_size,
            final(self).font == old(self).font,
            final(self).style == old(self).style,
            // Whether the menu is shown is not for the menu to say.
            *final(self).is_open == *old(self).is_open,
            match overlay {
                Some(menu) => {
                    &&& *old(self).is_open
                    &&& *menu.state == *old(self).menu
                    &&& *menu.hovered_option == *old(self).hovered_option
                    &&& *menu.pending_selection == *old(self).pending_selection
                    &&& *final(self).menu == *final(menu.state)
                    &&& *final(self).hovered_option == *final(menu.hovered_option)
                    &&& *final(self).pending_selection == *final(menu.pending_selection)
                    &&& menu.options@ == old(self).options@
                    &&& menu.position == layout.bounds().position()
                    &&& menu.target_height == layout.bounds().height
                    &&& menu.width == clip(layout.bounds().width)
                    &&& menu.padding == old(self).padding
                    &&& menu.text_size == old(self).text_size
                    &&& menu.font == old(self).font
                    &&& call_ensures(R::menu_style, (&old(self).style,), menu.style)
                },
                None => {
                    &&& !*old(self).is_open
                    &&& *final(self).menu == *old(self).menu
                    &&& *final(self).hovered_option == *old(self).hovered_option
                    &&& *final(self).pending_selection == *old(self).pending_selection
                },
            },
    {
        if *self.is_open {
            let bounds = layout.bounds();
            Some(
                Menu {
                    state: &mut *self.menu,
                    options: self.options.as_slice(),
                    hovered_option: &mut *self.hovered_option,
                    pending_selection: &mut *self.pending_selection,
                    position: layout.position(),
                    target_height: bounds.height,
                    width: clip_to(bounds.width),
                    padding: self.padding,
                    text_size: self.text_size,
                    font: self.font,
                    style: R::menu_style(&self.style),
                },
            )
        } else {
            None
        }
    }
}

} // verus!
