//! What a command line asks for, and whether it says enough to be run.

use vstd::prelude::*;
use crate::units::InputUnit;

verus! {

/// Everything a single range calculation needs.
#[derive(Debug, PartialEq, Eq)]
pub struct CalcArgs<T> {
    /// Height of the radar antenna above ground level.
    pub hr: T,
    /// Unit of the radar height.
    pub hru: InputUnit,
    /// Height of the target above ground level.
    pub ht: T,
    /// Unit of the target height.
    pub htu: InputUnit,
}

/// Everything a detection-range curve needs.
#[derive(Debug, PartialEq, Eq)]
pub struct GraphArgs<T> {
    /// Height of the radar antenna above ground level.
    pub hr: T,
    /// Unit of the radar height.
    pub hru: InputUnit,
}

/// An operation with all of its arguments.
#[derive(Debug, PartialEq, Eq)]
pub enum Commands<T> {
    /// One range calculation.
    Calc(CalcArgs<T>),
    /// One detection-range curve.
    Graph(GraphArgs<T>),
}

/// An operation as typed, where any flag may have been left out.
#[derive(Debug, PartialEq, Eq)]
pub enum Request<T> {
    /// A range calculation was asked for.
    Calc { hr: Option<T>, hru: Option<InputUnit>, ht: Option<T>, htu: Option<InputUnit> },
    /// A detection-range curve was asked for.
    Graph { hr: Option<T>, hru: Option<InputUnit> },
}

/// A parsed command line: the operation named on it, if any.
#[derive(Debug, PartialEq, Eq)]
pub struct Cli<T> {
    /// The operation, or `None` where the program was started without one.
    pub command: Option<Request<T>>,
}

/// How the program goes on after reading its command line.
#[derive(Debug, PartialEq, Eq)]
pub enum Mode<T> {
    /// Ask for the heights at the terminal.
    Interactive,
    /// Run the operation that was asked for.
    Run(Commands<T>),
}

/// Why a command line cannot be run.
#[derive(Clone, Copy, Debug, PartialEq, Eq, Structural)]
pub enum UsageError {
    /// An operation was named without one of the values it needs.
    MissingArgument,
}

impl UsageError {
    /// Exit status of a process that stops on this error; never the status of success, 0.
    pub fn exit_status(self) -> (status: i32)
        ensures
            status == 2,
    {
        2
    }
}

impl<T> Commands<T> {
    /// The command written back as the flags that ask for it.
    pub open spec fn flags(self) -> Request<T> {
        match self {
            Commands::Calc(args) => Request::Calc {
                hr: Some(args.hr),
                hru: Some(args.hru),
                ht: Some(args.ht),
                htu: Some(args.htu),
            },
            Commands::Graph(args) => Request::Graph { hr: Some(args.hr), hru: Some(args.hru) },
        }
    }
}

impl<T> Request<T> {
    /// No flag of the operation is missing.
    pub open spec fn is_complete(self) -> bool {
        match self {
            Request::Calc { hr, hru, ht, htu } => hr is Some && hru is Some && ht is Some && htu is Some,
            Request::Graph { hr, hru } => hr is Some && hru is Some,
        }
    }

    /// Turns the flags into a command, or reports that one of them is missing.
    pub fn complete(self) -> (res: Result<Commands<T>, UsageError>)
        ensures
            res is Ok <==> self.is_complete(),
            res matches Ok(command) ==> command.flags() == self,
            res matches Err(e) ==> e == UsageError::MissingArgument,
    {
        match self {
            Request::Calc { hr: Some(hr), hru: Some(hru), ht: Some(ht), htu: Some(htu) } => {
                Ok(Commands::Calc(CalcArgs { hr, hru, ht, htu }))
            },
            Request::Graph { hr: Some(hr), hru: Some(hru) } => Ok(Commands::Graph(GraphArgs { hr, hru })),
            _ => Err(UsageError::MissingArgument),
        }
    }
}

impl<T> Cli<T> {
    /// Decides what to do: with no operation named, fall back to the terminal dialogue; with
    /// one named, run it if it is complete and refuse the command line if it is not.
    pub fn mode(self) -> (res: Result<Mode<T>, UsageError>)
        ensures
            self.command is None ==> res == Ok::<Mode<T>, UsageError>(Mode::Interactive),
            self.command matches Some(request) ==> {
                &&& res is Ok <==> request.is_complete()
                &&& res matches Ok(mode) ==> mode matches Mode::Run(command) && command.flags() == request
                &&& res matches Err(e) ==> e == UsageError::MissingArgument
            },
    {
        match self.command {
            None => Ok(Mode::Interactive),
            Some(request) => match request.complete() {
                Ok(command) => Ok(Mode::Run(command)),
                Err(e) => Err(e),
            },
        }
    }
}

} // verus!
