//! The navigation state machine: which menu is shown, and what a typed line,
//! a probe result or a listing does to it.
//!
//! The caller drives it: it hands each event to [`step`], carries out the
//! action that comes back (run a command, read a line, exit), and turns the
//! outcome into the next event.

use vstd::prelude::*;

use crate::command::TransferDirection;
use crate::input::{
    first_digit, leading_digit, lemma_number_at_least_leading_digit, number_of, number_up_to,
};
use crate::listing::{lines_of, lossy_text, parse_listing};

verus! {

/// Where the interactive session stands.
pub enum Menu {
    /// Waiting for the startup check that a device answers.
    Probing,
    /// Asking which way to copy.
    Direction,
    /// Waiting for the listing of the directory that files are copied from.
    Fetching(TransferDirection),
    /// Asking which file of the listing to copy.
    FileSelect { direction: TransferDirection, files: Vec<String> },
    /// Asking to confirm the copy of `file`, with the listing kept for a
    /// return to the file menu.
    Confirm { direction: TransferDirection, files: Vec<String>, file: String },
    /// The session is over.
    Finished,
}

/// What the caller hands to the state machine.
pub enum Event {
    /// The startup check ran; whether it succeeded.
    Probed(bool),
    /// The user typed a line (trimmed).
    Line(String),
    /// The listing command wrote this standard output.
    Listed(Vec<u8>),
}

/// What the caller is to do next.
#[derive(PartialEq, Eq, Debug)]
pub enum Action {
    /// Clear the screen and show the current menu.
    Show,
    /// Clear the screen, say once that the input was invalid, and show the
    /// current menu again.
    Retry,
    /// Run the listing command for this direction and hand back its output.
    Fetch(TransferDirection),
    /// Run the copy of `file` in this direction, report it, then show the
    /// current menu.
    Transfer { direction: TransferDirection, file: String },
    /// Clear the screen and exit with status 0.
    Quit,
    /// Say that no device is connected and exit with status 1.
    NoDevice,
    /// The event does not belong to the current menu; nothing to do.
    Ignore,
}

/// The model of a [`Menu`].
pub enum MenuView {
    Probing,
    Direction,
    Fetching(TransferDirection),
    FileSelect { direction: TransferDirection, files: Seq<Seq<char>> },
    Confirm { direction: TransferDirection, files: Seq<Seq<char>>, file: Seq<char> },
    Finished,
}

/// The model of an [`Event`].
pub enum EventView {
    Probed(bool),
    Line(Seq<char>),
    Listed(Seq<u8>),
}

/// The model of an [`Action`].
pub enum ActionView {
    Show,
    Retry,
    Fetch(TransferDirection),
    Transfer { direction: TransferDirection, file: Seq<char> },
    Quit,
    NoDevice,
    Ignore,
}

impl View for Menu {
    type V = MenuView;

    open spec fn view(&self) -> MenuView {
        match self {
            Menu::Probing => MenuView::Probing,
            Menu::Direction => MenuView::Direction,
            Menu::Fetching(d) => MenuView::Fetching(*d),
            Menu::FileSelect { direction, files } => MenuView::FileSelect {
                direction: *direction,
                files: files.deep_view(),
            },
            Menu::Confirm { direction, files, file } => MenuView::Confirm {
                direction: *direction,
                files: files.deep_view(),
                file: file@,
            },
            Menu::Finished => MenuView::Finished,
        }
    }
}

impl View for Event {
    type V = EventView;

    open spec fn view(&self) -> EventView {
        match self {
            Event::Probed(ok) => EventView::Probed(*ok),
            Event::Line(line) => EventView::Line(line@),
            Event::Listed(out) => EventView::Listed(out@),
        }
    }
}

impl View for Action {
    type V = ActionView;

    open spec fn view(&self) -> ActionView {
        match self {
            Action::Show => ActionView::Show,
            Action::Retry => ActionView::Retry,
            Action::Fetch(d) => ActionView::Fetch(*d),
            Action::Transfer { direction, file } => ActionView::Transfer {
                direction: *direction,
                file: file@,
            },
            Action::Quit => ActionView::Quit,
            Action::NoDevice => ActionView::NoDevice,
            Action::Ignore => ActionView::Ignore,
        }
    }
}

/// The entry of the first menu that chooses `direction`.
pub open spec fn selector(direction: TransferDirection) -> nat {
    match direction {
        TransferDirection::PhoneToPc => 1,
        TransferDirection::PcToPhone => 2,
    }
}

/// What one event does: the next menu and the caller's next action.
pub open spec fn transition(menu: MenuView, event: EventView) -> (MenuView, ActionView) {
    match (menu, event) {
        (MenuView::Probing, EventView::Probed(ok)) => {
            if ok {
                (MenuView::Direction, ActionView::Show)
            } else {
                (MenuView::Finished, ActionView::NoDevice)
            }
        },
        (MenuView::Direction, EventView::Line(line)) => {
            if leading_digit(line) == Some(0nat) {
                (MenuView::Finished, ActionView::Quit)
            } else if leading_digit(line) == Some(1nat) {
                (
                    MenuView::Fetching(TransferDirection::PhoneToPc),
                    ActionView::Fetch(TransferDirection::PhoneToPc),
                )
            } else if leading_digit(line) == Some(2nat) {
                (
                    MenuView::Fetching(TransferDirection::PcToPhone),
                    ActionView::Fetch(TransferDirection::PcToPhone),
                )
            } else {
                (menu, ActionView::Retry)
            }
        },
        (MenuView::Fetching(direction), EventView::Listed(out)) => (
            MenuView::FileSelect { direction, files: lines_of(lossy_text(out)) },
            ActionView::Show,
        ),
        (MenuView::FileSelect { direction, files }, EventView::Line(line)) => {
            if number_of(line) == Some(0nat) {
                (MenuView::Direction, ActionView::Show)
            } else if number_of(line) is Some && number_of(line)->0 <= files.len() {
                (
                    MenuView::Confirm {
                        direction,
                        files,
                        file: files[number_of(line)->0 - 1],
                    },
                    ActionView::Show,
                )
            } else {
                (menu, ActionView::Retry)
            }
        },
        (MenuView::Confirm { direction, files, file }, EventView::Line(line)) => {
            if leading_digit(line) == Some(1nat) {
                (MenuView::Direction, ActionView::Transfer { direction, file })
            } else if leading_digit(line) == Some(2nat) {
                (MenuView::FileSelect { direction, files }, ActionView::Show)
            } else {
                (menu, ActionView::Retry)
            }
        },
        _ => (menu, ActionView::Ignore),
    }
}

/// The menu that a session starts in.
pub fn start() -> (r: Menu)
    ensures
        r@ == MenuView::Probing,
{
    Menu::Probing
}

/// Applies one event to the menu.
pub fn step(menu: Menu, event: Event) -> (r: (Menu, Action))
    ensures
        (r.0@, r.1@) == transition(menu@, event@),
{
    match menu {
        Menu::Probing => match event {
            Event::Probed(ok) => {
                if ok {
                    (Menu::Direction, Action::Show)
                } else {
                    (Menu::Finished, Action::NoDevice)
                }
            },
            _ => (Menu::Probing, Action::Ignore),
        },
        Menu::Direction => match event {
            Event::Line(line) => match first_digit(line.as_str()) {
                Some(0) => (Menu::Finished, Action::Quit),
                Some(1) => (
                    Menu::Fetching(TransferDirection::PhoneToPc),
                    Action::Fetch(TransferDirection::PhoneToPc),
                ),
                Some(2) => (
                    Menu::Fetching(TransferDirection::PcToPhone),
                    Action::Fetch(TransferDirection::PcToPhone),
                ),
                _ => (Menu::Direction, Action::Retry),
            },
            _ => (Menu::Direction, Action::Ignore),
        },
        Menu::Fetching(direction) => match event {
            Event::Listed(out) => {
                let files = parse_listing(out.as_slice());
                (Menu::FileSelect { direction, files }, Action::Show)
            },
            _ => (Menu::Fetching(direction), Action::Ignore),
        },
        Menu::FileSelect { direction, files } => match event {
            Event::Line(line) => match number_up_to(line.as_str(), files.len()) {
                Some(0) => (Menu::Direction, Action::Show),
                Some(n) => {
                    let file = files[n - 1].clone();
                    assert(file@ == files.deep_view()[n - 1]);
                    (Menu::Confirm { direction, files, file }, Action::Show)
                },
                None => (Menu::FileSelect { direction, files }, Action::Retry),
            },
            _ => (Menu::FileSelect { direction, files }, Action::Ignore),
        },
        Menu::Confirm { direction, files, file } => match event {
            Event::Line(line) => match first_digit(line.as_str()) {
                Some(1) => (Menu::Direction, Action::Transfer { direction, file }),
                Some(2) => (Menu::FileSelect { direction, files }, Action::Show),
                _ => (Menu::Confirm { direction, files, file }, Action::Retry),
            },
            _ => (Menu::Confirm { direction, files, file }, Action::Ignore),
        },
        Menu::Finished => (Menu::Finished, Action::Ignore),
    }
}

/// Whether `line` starts with a digit that the menu offers: 0 to 2 in the
/// first menu, 0 to the number of files in the file menu, 1 or 2 in the
/// confirmation.
pub open spec fn starts_with_selector(menu: MenuView, line: Seq<char>) -> bool {
    match menu {
        MenuView::Direction => leading_digit(line) matches Some(d) && d <= 2,
        MenuView::FileSelect { files, .. } => leading_digit(line) matches Some(d) && d
            <= files.len(),
        MenuView::Confirm { .. } => leading_digit(line) matches Some(d) && 1 <= d <= 2,
        _ => false,
    }
}

/// At any of the three menus, a line that does not start with one of the
/// menu's selector digits keeps the menu exactly as it was and asks for one
/// retry, and nothing else.
pub proof fn lemma_invalid_line_keeps_menu(menu: MenuView, line: Seq<char>)
    requires
        menu is Direction || menu is FileSelect || menu is Confirm,
        !starts_with_selector(menu, line),
    ensures
        transition(menu, EventView::Line(line)) == (menu, ActionView::Retry),
{
    if menu is FileSelect && number_of(line) is Some {
        lemma_number_at_least_leading_digit(line);
    }
}

/// At the file menu, a line that is not a number from 0 to the number of
/// files keeps the file menu, listing included, and asks for a retry.
pub proof fn lemma_out_of_range_keeps_file_menu(
    direction: TransferDirection,
    files: Seq<Seq<char>>,
    line: Seq<char>,
)
    requires
        !(number_of(line) matches Some(n) && n <= files.len()),
    ensures
        transition(MenuView::FileSelect { direction, files }, EventView::Line(line)) == (
            MenuView::FileSelect { direction, files },
            ActionView::Retry,
        ),
{
}

/// Going back from the file menu and choosing the same direction again
/// fetches the listing anew, and the file menu then shows the new listing
/// whatever the old one held.
pub proof fn lemma_back_then_same_direction_refetches(
    direction: TransferDirection,
    files: Seq<Seq<char>>,
    back: Seq<char>,
    again: Seq<char>,
    out: Seq<u8>,
)
    requires
        number_of(back) == Some(0nat),
        leading_digit(again) == Some(selector(direction)),
    ensures
        ({
            let (m1, a1) = transition(
                MenuView::FileSelect { direction, files },
                EventView::Line(back),
            );
            let (m2, a2) = transition(m1, EventView::Line(again));
            &&& m1 == MenuView::Direction
            &&& a1 == ActionView::Show
            &&& m2 == MenuView::Fetching(direction)
            &&& a2 == ActionView::Fetch(direction)
            &&& transition(m2, EventView::Listed(out)) == (
                MenuView::FileSelect { direction, files: lines_of(lossy_text(out)) },
                ActionView::Show,
            )
        }),
{
}

/// Picking a file and then declining the copy returns to the file menu with
/// the same listing, in the same order, and fetches nothing.
pub proof fn lemma_decline_keeps_listing(
    direction: TransferDirection,
    files: Seq<Seq<char>>,
    pick: Seq<char>,
    decline: Seq<char>,
)
    requires
        number_of(pick) matches Some(n) && 1 <= n <= files.len(),
        leading_digit(decline) == Some(2nat),
    ensures
        ({
            let (m1, a1) = transition(
                MenuView::FileSelect { direction, files },
                EventView::Line(pick),
            );
            &&& m1 is Confirm
            &&& a1 == ActionView::Show
            &&& transition(m1, EventView::Line(decline)) == (
                MenuView::FileSelect { direction, files },
                ActionView::Show,
            )
        }),
{
}

} // verus!
