//! A spoken menu: a title, a list of items, and a cursor on one of them.
//!
//! The menu decides; it neither reads keys nor speaks. The host hands it what
//! was pressed, and the menu answers with the next thing for the host to do:
//! speak a line, call the action of an item, or end the frame.
use vstd::prelude::*;
use vstd::string::*;

use crate::text::append_decimal;

verus! {

/// A line for the speech engine.
pub struct Utterance {
    /// What to say.
    pub text: String,
    /// Whether to cut off what is being said.
    pub interrupt: bool,
}

/// An [`Utterance`] by its characters.
pub struct Spoken {
    pub text: Seq<char>,
    pub interrupt: bool,
}

impl View for Utterance {
    type V = Spoken;

    open spec fn view(&self) -> Spoken {
        Spoken { text: self.text@, interrupt: self.interrupt }
    }
}

/// What an item says when the cursor comes to it: its text, its place in the
/// menu counted from 1, and the number of items.
pub open spec fn item_line(text: Seq<char>, pos: nat, len: nat) -> Seq<char> {
    text + ". "@ + crate::text::decimal(pos) + " of "@ + crate::text::decimal(len)
}

/// What a menu says when it opens: its title and the number of its items.
/// Two items or more are "items"; one or none is "item" and a blank.
pub open spec fn title_line(title: Seq<char>, len: nat) -> Seq<char> {
    title + " Menu. "@ + crate::text::decimal(len) + " item"@ + if len > 1 {
        "s"@
    } else {
        " "@
    }
}

/// One entry of a menu. `A` is whatever the host calls when the item is
/// activated; the menu keeps it and never looks at it.
pub struct MenuItem<A> {
    text: String,
    activate_callback: Option<A>,
}

impl<A> MenuItem<A> {
    /// The text of the item.
    pub closed spec fn text(&self) -> Seq<char> {
        self.text@
    }

    /// The action of the item, if it has one.
    pub closed spec fn callback(&self) -> Option<A> {
        self.activate_callback
    }

    /// An item without an action.
    pub fn new(text: &str) -> (item: Self)
        ensures
            item.text() == text@,
            item.callback() is None,
    {
        MenuItem { text: text.to_owned(), activate_callback: None }
    }

    /// The same item with `activate_callback` as its action.
    pub fn on_activate(self, activate_callback: A) -> (item: Self)
        ensures
            item.text() == self.text(),
            item.callback() == Some(activate_callback),
    {
        MenuItem { text: self.text, activate_callback: Some(activate_callback) }
    }

    /// What to say when the cursor comes to this item, the `pos`-th of `len`.
    /// It cuts off what is being said.
    pub fn speak(&self, pos: usize, len: usize) -> (utterance: Utterance)
        ensures
            utterance@ == (Spoken {
                text: item_line(self.text(), pos as nat, len as nat),
                interrupt: true,
            }),
    {
        let mut text = self.text.clone();
        text.append(". ");
        append_decimal(&mut text, pos);
        text.append(" of ");
        append_decimal(&mut text, len);
        Utterance { text, interrupt: true }
    }

    /// The text of the item.
    pub fn label(&self) -> (text: &String)
        ensures
            text@ == self.text(),
    {
        &self.text
    }

    /// The action of the item, if it has one.
    pub fn action(&self) -> (action: Option<&A>)
        ensures
            action == match self.callback() {
                Some(callback) => Some(&callback),
                None => None,
            },
    {
        self.activate_callback.as_ref()
    }
}

/// Collects the parts of a [`Menu`].
pub struct MenuBuilder<MCtx, A> {
    title: String,
    items: Vec<MenuItem<A>>,
    menu_context: MCtx,
}

impl<MCtx, A> MenuBuilder<MCtx, A> {
    /// The title so far.
    pub closed spec fn title(&self) -> Seq<char> {
        self.title@
    }

    /// The items so far, first first.
    pub closed spec fn items(&self) -> Seq<MenuItem<A>> {
        self.items@
    }

    /// The value that the menu will keep for the actions of its items.
    pub closed spec fn context(&self) -> MCtx {
        self.menu_context
    }

    /// A builder for a menu without items.
    pub fn new(title: &str, menu_context: MCtx) -> (builder: Self)
        ensures
            builder.title() == title@,
            builder.items() == Seq::<MenuItem<A>>::empty(),
            builder.context() == menu_context,
    {
        MenuBuilder { title: title.to_owned(), items: Vec::new(), menu_context }
    }

    /// The menu of what was collected, with the cursor on no item.
    pub fn build(self) -> (menu: Menu<MCtx, A>)
        ensures
            menu.title() == self.title(),
            menu.items() == self.items(),
            menu.context() == self.context(),
            menu.selected() is None,
            menu.well_formed(),
    {
        Menu {
            title: self.title,
            items: self.items,
            menu_context: self.menu_context,
            selected: None,
        }
    }

    /// The same builder with `item` as its last item.
    pub fn item(self, item: MenuItem<A>) -> (builder: Self)
        ensures
            builder.title() == self.title(),
            builder.items() == self.items().push(item),
            builder.context() == self.context(),
    {
        let mut builder = self;
        builder.items.push(item);
        builder
    }
}

/// What the host saw of the keyboard and the window since the last frame.
#[derive(Clone, Copy)]
pub struct MenuInput {
    /// The window was asked to close.
    pub close_requested: bool,
    /// Escape went down.
    pub escape: bool,
    /// Down went down, or repeats while held.
    pub down: bool,
    /// Up went down, or repeats while held.
    pub up: bool,
    /// Return went down.
    pub enter: bool,
}

/// How far a menu has come in a frame. A frame looks at the focus and the
/// keys that close the menu, then at Down, then at Up, then at Return.
#[derive(Clone, Copy)]
pub enum MenuStage {
    Focus,
    Down,
    Up,
    Activate,
}

/// The next thing for the host to do in a frame.
pub enum MenuStep {
    /// End the frame; the stack stays as it is.
    Stay,
    /// End the frame and pop this many states: the menu closes.
    Pop(usize),
    /// Speak `utterance`. If that works, move the cursor to `index` with
    /// [`Menu::select`] and go on at `then`; if not, end the frame with the
    /// error.
    Announce { index: usize, utterance: Utterance, then: MenuStage },
    /// End the frame with what the action of the item at `index` returns.
    Activate { index: usize },
}

/// A [`MenuStep`] with its utterance by its characters.
pub enum MenuStepView {
    Stay,
    Pop(usize),
    Announce { index: usize, utterance: Spoken, then: MenuStage },
    Activate { index: usize },
}

impl View for MenuStep {
    type V = MenuStepView;

    open spec fn view(&self) -> MenuStepView {
        match self {
            MenuStep::Stay => MenuStepView::Stay,
            MenuStep::Pop(count) => MenuStepView::Pop(*count),
            MenuStep::Announce { index, utterance, then } => MenuStepView::Announce {
                index: *index,
                utterance: utterance@,
                then: *then,
            },
            MenuStep::Activate { index } => MenuStepView::Activate { index: *index },
        }
    }
}

/// A menu: a title, items, the cursor, and a value of the host's that the
/// actions of the items work on. The cursor is on no item or on one of the
/// items.
pub struct Menu<MCtx, A> {
    title: String,
    items: Vec<MenuItem<A>>,
    menu_context: MCtx,
    selected: Option<usize>,
}

impl<MCtx, A> Menu<MCtx, A> {
    /// The title.
    pub closed spec fn title(&self) -> Seq<char> {
        self.title@
    }

    /// The items, first first.
    pub closed spec fn items(&self) -> Seq<MenuItem<A>> {
        self.items@
    }

    /// The value that the actions of the items work on.
    pub closed spec fn context(&self) -> MCtx {
        self.menu_context
    }

    /// The index of the item that the cursor is on, if it is on one.
    pub closed spec fn selected(&self) -> Option<usize> {
        self.selected
    }

    /// The cursor is on no item or on one of the items. Every menu that
    /// [`MenuBuilder::build`] makes is so, and every method keeps it so.
    pub open spec fn well_formed(&self) -> bool {
        self.selected() matches Some(index) ==> index < self.items().len()
    }

    /// Where Down takes the cursor: to the item after it, from the last item
    /// to the first, and from no item to the first.
    pub open spec fn next(&self) -> int {
        match self.selected() {
            Some(index) => (index + 1) % (self.items().len() as int),
            None => 0,
        }
    }

    /// Where Up takes the cursor: to the item before it, from the first item
    /// to the last, and from no item to the last.
    pub open spec fn previous(&self) -> int {
        match self.selected() {
            Some(index) => (index + self.items().len() - 1) % (self.items().len() as int),
            None => self.items().len() - 1,
        }
    }

    /// What is said when the cursor comes to the item at `index`.
    pub open spec fn announcement(&self, index: int) -> Spoken {
        Spoken {
            text: item_line(
                self.items()[index].text(),
                (index + 1) as nat,
                self.items().len(),
            ),
            interrupt: true,
        }
    }

    /// The item to activate: the one under the cursor, if it has an action.
    pub open spec fn activates(&self) -> Option<usize> {
        match self.selected() {
            Some(index) => if self.items()[index as int].callback() is Some {
                Some(index)
            } else {
                None
            },
            None => None,
        }
    }

    /// Whether the rest of the frame, from `stage` on, moves the cursor.
    pub open spec fn navigates(stage: MenuStage, input: MenuInput, depth: usize) -> bool {
        match stage {
            MenuStage::Focus => depth == 0 && !input.close_requested && !input.escape && (
            input.down || input.up),
            MenuStage::Down => input.down || input.up,
            MenuStage::Up => input.up,
            MenuStage::Activate => false,
        }
    }

    /// What a frame does at Return: it activates the item under the cursor,
    /// if Return went down and the item has an action.
    pub open spec fn at_activate(&self, input: MenuInput) -> MenuStepView {
        if input.enter {
            match self.activates() {
                Some(index) => MenuStepView::Activate { index },
                None => MenuStepView::Stay,
            }
        } else {
            MenuStepView::Stay
        }
    }

    /// What a frame does from Up on: Up moves the cursor to the item before
    /// it, with an announcement of that item.
    pub open spec fn at_up(&self, input: MenuInput) -> MenuStepView {
        if input.up {
            MenuStepView::Announce {
                index: self.previous() as usize,
                utterance: self.announcement(self.previous()),
                then: MenuStage::Activate,
            }
        } else {
            self.at_activate(input)
        }
    }

    /// What a frame does from Down on: Down moves the cursor to the item
    /// after it, with an announcement of that item.
    pub open spec fn at_down(&self, input: MenuInput) -> MenuStepView {
        if input.down {
            MenuStepView::Announce {
                index: self.next() as usize,
                utterance: self.announcement(self.next()),
                then: MenuStage::Up,
            }
        } else {
            self.at_up(input)
        }
    }

    /// What a frame does from its start: a menu that is not topmost does
    /// nothing, and a request to close the window, or Escape, closes the
    /// menu.
    pub open spec fn at_focus(&self, input: MenuInput, depth: usize) -> MenuStepView {
        if depth != 0 {
            MenuStepView::Stay
        } else if input.close_requested || input.escape {
            MenuStepView::Pop(1)
        } else {
            self.at_down(input)
        }
    }

    /// The next thing to do in a frame that has come to `stage`.
    pub open spec fn step(&self, stage: MenuStage, input: MenuInput, depth: usize) -> MenuStepView {
        match stage {
            MenuStage::Focus => self.at_focus(input, depth),
            MenuStage::Down => self.at_down(input),
            MenuStage::Up => self.at_up(input),
            MenuStage::Activate => self.at_activate(input),
        }
    }

    /// How many items the menu has.
    pub fn len(&self) -> (len: usize)
        ensures
            len == self.items().len(),
    {
        self.items.len()
    }

    /// The index of the item that the cursor is on, if it is on one.
    pub fn cursor(&self) -> (cursor: Option<usize>)
        ensures
            cursor == self.selected(),
    {
        self.selected
    }

    /// The item at `index`, if there is one.
    pub fn entry(&self, index: usize) -> (entry: Option<&MenuItem<A>>)
        ensures
            index < self.items().len() ==> entry == Some(&self.items()[index as int]),
            index >= self.items().len() ==> entry is None,
    {
        if index < self.items.len() {
            Some(&self.items[index])
        } else {
            None
        }
    }

    /// What to say when the menu enters the stack: its title and the number
    /// of its items. It cuts off what is being said.
    pub fn on_push(&self) -> (utterance: Utterance)
        ensures
            utterance@ == (Spoken {
                text: title_line(self.title(), self.items().len()),
                interrupt: true,
            }),
    {
        let count = self.items.len();
        let mut text = self.title.clone();
        text.append(" Menu. ");
        append_decimal(&mut text, count);
        text.append(" item");
        if count > 1 {
            text.append("s");
        } else {
            text.append(" ");
        }
        Utterance { text, interrupt: true }
    }

    /// The index of the item that Down moves the cursor to.
    pub fn next_item(&self) -> (index: usize)
        requires
            self.well_formed(),
            self.items().len() > 0,
        ensures
            index == self.next(),
            index < self.items().len(),
    {
        let len = self.items.len();
        match self.selected {
            Some(current) => {
                if current + 1 == len {
                    assert((current + 1) % (len as int) == 0) by (nonlinear_arith)
                        requires
                            current + 1 == len,
                    ;
                    0
                } else {
                    assert((current + 1) % (len as int) == current + 1) by (nonlinear_arith)
                        requires
                            0 <= current + 1 < len,
                    ;
                    current + 1
                }
            },
            None => 0,
        }
    }

    /// The index of the item that Up moves the cursor to.
    pub fn previous_item(&self) -> (index: usize)
        requires
            self.well_formed(),
            self.items().len() > 0,
        ensures
            index == self.previous(),
            index < self.items().len(),
    {
        let len = self.items.len();
        match self.selected {
            Some(current) => {
                if current == 0 {
                    assert((0 + len - 1) % (len as int) == len - 1) by (nonlinear_arith)
                        requires
                            len > 0,
                    ;
                    len - 1
                } else {
                    assert((current + len - 1) % (len as int) == current - 1) by (nonlinear_arith)
                        requires
                            0 < current < len,
                    ;
                    current - 1
                }
            },
            None => len - 1,
        }
    }

    /// The index of the item to activate: the one under the cursor, if it
    /// has an action.
    pub fn activate_item(&self) -> (index: Option<usize>)
        requires
            self.well_formed(),
        ensures
            index == self.activates(),
            index matches Some(i) ==> i < self.items().len()
                && self.items()[i as int].callback() is Some,
    {
        match self.selected {
            Some(current) => {
                if self.items[current].action().is_some() {
                    Some(current)
                } else {
                    None
                }
            },
            None => None,
        }
    }

    /// Moves the cursor to the item at `index`.
    pub fn select(&mut self, index: usize)
        requires
            index < old(self).items().len(),
        ensures
            final(self).well_formed(),
            final(self).selected() == Some(index),
            final(self).title() == old(self).title(),
            final(self).items() == old(self).items(),
            final(self).context() == old(self).context(),
    {
        self.selected = Some(index);
    }

    /// Whether the rest of a frame, from `stage` on, moves the cursor.
    pub fn moves_cursor(stage: MenuStage, input: &MenuInput, depth: usize) -> (moves: bool)
        ensures
            moves == Self::navigates(stage, *input, depth),
    {
        match stage {
            MenuStage::Focus => depth == 0 && !input.close_requested && !input.escape && (input.down
                || input.up),
            MenuStage::Down => input.down || input.up,
            MenuStage::Up => input.up,
            MenuStage::Activate => false,
        }
    }

    /// The item at `index` and the value that its action works on, both to
    /// be changed by the action. The cursor stays where it is.
    pub fn parts_mut(&mut self, index: usize) -> (parts: (&mut MenuItem<A>, &mut MCtx))
        requires
            old(self).well_formed(),
            index < old(self).items().len(),
        ensures
            final(self).well_formed(),
            *parts.0 == old(self).items()[index as int],
            *parts.1 == old(self).context(),
            final(self).items() == old(self).items().update(index as int, *final(parts.0)),
            final(self).context() == *final(parts.1),
            final(self).title() == old(self).title(),
            final(self).selected() == old(self).selected(),
    {
        (&mut self.items[index], &mut self.menu_context)
    }

    /// The next thing for the host to do in a frame that has come to
    /// `stage`; a frame starts at [`MenuStage::Focus`]. `depth` is the number
    /// of states above the menu. A menu without items has no item to move
    /// the cursor to: the caller sees to it that there is one before the
    /// frame moves the cursor.
    pub fn on_update(&self, stage: MenuStage, input: &MenuInput, depth: usize) -> (step: MenuStep)
        requires
            self.well_formed(),
            Self::navigates(stage, *input, depth) ==> self.items().len() > 0,
        ensures
            step@ == self.step(stage, *input, depth),
    {
        match stage {
            MenuStage::Focus => self.from_focus(input, depth),
            MenuStage::Down => self.from_down(input),
            MenuStage::Up => self.from_up(input),
            MenuStage::Activate => self.from_activate(input),
        }
    }

    fn from_focus(&self, input: &MenuInput, depth: usize) -> (step: MenuStep)
        requires
            self.well_formed(),
            Self::navigates(MenuStage::Focus, *input, depth) ==> self.items().len() > 0,
        ensures
            step@ == self.at_focus(*input, depth),
    {
        if depth != 0 {
            MenuStep::Stay
        } else if input.close_requested || input.escape {
            MenuStep::Pop(1)
        } else {
            self.from_down(input)
        }
    }

    fn from_down(&self, input: &MenuInput) -> (step: MenuStep)
        requires
            self.well_formed(),
            input.down || input.up ==> self.items().len() > 0,
        ensures
            step@ == self.at_down(*input),
    {
        if input.down {
            let len = self.items.len();
            let index = self.next_item();
            let utterance = self.items[index].speak(index + 1, len);
            MenuStep::Announce { index, utterance, then: MenuStage::Up }
        } else {
            self.from_up(input)
        }
    }

    fn from_up(&self, input: &MenuInput) -> (step: MenuStep)
        requires
            self.well_formed(),
            input.up ==> self.items().len() > 0,
        ensures
            step@ == self.at_up(*input),
    {
        if input.up {
            let len = self.items.len();
            let index = self.previous_item();
            let utterance = self.items[index].speak(index + 1, len);
            MenuStep::Announce { index, utterance, then: MenuStage::Activate }
        } else {
            self.from_activate(input)
        }
    }

    fn from_activate(&self, input: &MenuInput) -> (step: MenuStep)
        requires
            self.well_formed(),
        ensures
            step@ == self.at_activate(*input),
    {
        if input.enter {
            match self.activate_item() {
                Some(index) => MenuStep::Activate { index },
                None => MenuStep::Stay,
            }
        } else {
            MenuStep::Stay
        }
    }
}

} // verus!
