//! The pages of the program and what each keeps between key presses.

use vstd::prelude::*;

pub mod editable_list;
pub mod home;
pub mod settings;
pub mod stats;

verus! {

/// The page on show, with its state.
#[derive(Debug)]
pub enum Page {
    Home(home::State),
    /// The history page; empty while no history could be loaded.
    Stats(Option<stats::State>),
    Settings(settings::State),
}

/// The page on show, as plain values.
pub enum PageView {
    Home(home::StateView),
    Stats(Option<stats::State>),
    Settings(editable_list::ListView<Seq<char>>),
}

impl View for Page {
    type V = PageView;

    open spec fn view(&self) -> PageView {
        match *self {
            Page::Home(state) => PageView::Home(state@),
            Page::Stats(state) => PageView::Stats(state),
            Page::Settings(list) => PageView::Settings(list@),
        }
    }
}

impl Default for Page {
    /// The home page, showing today's entries.
    fn default() -> (page: Page)
        ensures
            page == Page::Home(home::State::Viewing),
            page@ == PageView::Home(home::StateView::Viewing),
    {
        Page::Home(home::State::Viewing)
    }
}

/// The colours that the eight categories are drawn in.
#[derive(Clone, Copy, Debug, PartialEq, Eq, Structural)]
pub enum Color {
    Reset,
    Blue,
    Cyan,
    Green,
    Magenta,
    Red,
    Yellow,
    LightBlue,
    LightCyan,
}

/// The colour of category `i`; `Reset` for a number that names none.
pub fn number_to_color(i: u8) -> (color: Color)
    ensures
        color == match i {
            1 => Color::Blue,
            2 => Color::Cyan,
            3 => Color::Green,
            4 => Color::Magenta,
            5 => Color::Red,
            6 => Color::Yellow,
            7 => Color::LightBlue,
            8 => Color::LightCyan,
            _ => Color::Reset,
        },
{
    match i {
        1 => Color::Blue,
        2 => Color::Cyan,
        3 => Color::Green,
        4 => Color::Magenta,
        5 => Color::Red,
        6 => Color::Yellow,
        7 => Color::LightBlue,
        8 => Color::LightCyan,
        _ => Color::Reset,
    }
}

} // verus!
