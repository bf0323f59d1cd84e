//! The terminal dialogue that collects both heights when no operation was named.

use vstd::prelude::*;
use crate::cli::CalcArgs;
use crate::units::InputUnit;

verus! {

/// Where the dialogue stands: which height is asked for next, and what is already known.
#[derive(Debug, PartialEq, Eq)]
pub enum Session<T> {
    /// Waiting for the radar antenna height, in metres.
    Radar,
    /// Waiting for the target height, in feet.
    Target { radar: T },
}

/// What the terminal does after one line of input.
#[derive(Debug, PartialEq, Eq)]
pub enum Turn<T> {
    /// The line was accepted: ask the question of the new state.
    Ask(Session<T>),
    /// The line was no number: say so and ask the same question again.
    Retry(Session<T>),
    /// Both heights are in: run the calculation.
    Done(CalcArgs<T>),
}

impl<T> Session<T> {
    /// The dialogue opens with the question for the radar height.
    pub fn start() -> (session: Self)
        ensures
            session == Session::<T>::Radar,
    {
        Session::Radar
    }

    /// Takes one line of input, already read as a number (`Some`) or found to be none (`None`).
    ///
    /// A line that is no number changes nothing, however often it happens. The first number
    /// is the radar height in metres, the second the target height in feet.
    pub fn enter(self, entry: Option<T>) -> (turn: Turn<T>)
        ensures
            entry is None ==> turn == Turn::Retry(self),
            entry matches Some(height) ==> match self {
                Session::Radar => turn == Turn::Ask(Session::Target { radar: height }),
                Session::Target { radar } => turn == Turn::Done(
                    CalcArgs { hr: radar, hru: InputUnit::M, ht: height, htu: InputUnit::Ft },
                ),
            },
    {
        match entry {
            None => Turn::Retry(self),
            Some(height) => match self {
                Session::Radar => Turn::Ask(Session::Target { radar: height }),
                Session::Target { radar } => Turn::Done(
                    CalcArgs { hr: radar, hru: InputUnit::M, ht: height, htu: InputUnit::Ft },
                ),
            },
        }
    }
}

} // verus!
