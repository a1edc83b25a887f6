//! Process signals and sort orders of the process table.
use vstd::prelude::*;

verus! {

/// Column by which the process table is sorted.
#[derive(Debug, Clone, Copy, PartialEq, Eq, Structural)]
pub enum SortOrder {
    Pid,
    Cpu,
    Memory,
    Name,
    User,
}

/// Signals that can be sent to a process.
#[derive(Debug, Clone, Copy, PartialEq, Eq, Structural)]
pub enum ProcessSignal {
    Term,
    Kill,
    Int,
    Hup,
    Quit,
    Stop,
    Cont,
    Usr1,
    Usr2,
}

impl ProcessSignal {
    /// Short name with the signal number.
    pub fn name(&self) -> (r: &'static str)
        ensures
            r@ == match *self {
                ProcessSignal::Term => "TERM (15)"@,
                ProcessSignal::Kill => "KILL (9)"@,
                ProcessSignal::Int => "INT (2)"@,
                ProcessSignal::Hup => "HUP (1)"@,
                ProcessSignal::Quit => "QUIT (3)"@,
                ProcessSignal::Stop => "STOP (19)"@,
                ProcessSignal::Cont => "CONT (18)"@,
                ProcessSignal::Usr1 => "USR1 (10)"@,
                ProcessSignal::Usr2 => "USR2 (12)"@,
            },
    {
        match self {
            ProcessSignal::Term => "TERM (15)",
            ProcessSignal::Kill => "KILL (9)",
            ProcessSignal::Int => "INT (2)",
            ProcessSignal::Hup => "HUP (1)",
            ProcessSignal::Quit => "QUIT (3)",
            ProcessSignal::Stop => "STOP (19)",
            ProcessSignal::Cont => "CONT (18)",
            ProcessSignal::Usr1 => "USR1 (10)",
            ProcessSignal::Usr2 => "USR2 (12)",
        }
    }

    /// What the signal does.
    pub fn description(&self) -> (r: &'static str)
        ensures
            r@ == match *self {
                ProcessSignal::Term => "Graceful termination"@,
                ProcessSignal::Kill => "Force kill (cannot be ignored)"@,
                ProcessSignal::Int => "Interrupt from keyboard (Ctrl+C)"@,
                ProcessSignal::Hup => "Hangup detected on controlling terminal"@,
                ProcessSignal::Quit => "Quit from keyboard"@,
                ProcessSignal::Stop => "Stop process (cannot be ignored)"@,
                ProcessSignal::Cont => "Continue if stopped"@,
                ProcessSignal::Usr1 => "User-defined signal 1"@,
                ProcessSignal::Usr2 => "User-defined signal 2"@,
            },
    {
        match self {
            ProcessSignal::Term => "Graceful termination",
            ProcessSignal::Kill => "Force kill (cannot be ignored)",
            ProcessSignal::Int => "Interrupt from keyboard (Ctrl+C)",
            ProcessSignal::Hup => "Hangup detected on controlling terminal",
            ProcessSignal::Quit => "Quit from keyboard",
            ProcessSignal::Stop => "Stop process (cannot be ignored)",
            ProcessSignal::Cont => "Continue if stopped",
            ProcessSignal::Usr1 => "User-defined signal 1",
            ProcessSignal::Usr2 => "User-defined signal 2",
        }
    }

    /// Every signal, in menu order.
    pub fn all_signals() -> (r: Vec<ProcessSignal>)
        ensures
            r@ == seq![
                ProcessSignal::Term,
                ProcessSignal::Kill,
                ProcessSignal::Int,
                ProcessSignal::Hup,
                ProcessSignal::Quit,
                ProcessSignal::Stop,
                ProcessSignal::Cont,
                ProcessSignal::Usr1,
                ProcessSignal::Usr2,
            ],
    {
        vec![
            ProcessSignal::Term,
            ProcessSignal::Kill,
            ProcessSignal::Int,
            ProcessSignal::Hup,
            ProcessSignal::Quit,
            ProcessSignal::Stop,
            ProcessSignal::Cont,
            ProcessSignal::Usr1,
            ProcessSignal::Usr2,
        ]
    }
}

/// The signal that a kill request sends: `Kill` when forced, else `Term`.
pub fn kill_signal(force: bool) -> (r: ProcessSignal)
    ensures
        r == if force { ProcessSignal::Kill } else { ProcessSignal::Term },
{
    if force {
        ProcessSignal::Kill
    } else {
        ProcessSignal::Term
    }
}

/// The sort state after the user picks `order`: picking the current column
/// again flips the direction, another column sorts by it ascending.
pub fn next_sort(current: SortOrder, reverse: bool, order: SortOrder) -> (r: (SortOrder, bool))
    ensures
        current == order ==> r == (current, !reverse),
        current != order ==> r == (order, false),
{
    if current == order {
        (current, !reverse)
    } else {
        (order, false)
    }
}

} // verus!
