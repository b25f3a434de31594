//! Observations: what a computation reports, and the log that keeps them.

use vstd::prelude::*;

verus! {

/// The operations a calculator can compute. The set is closed.
#[derive(Clone, Copy, Debug, PartialEq, Eq, Structural)]
pub enum Operation {
    Addition,
    Subtraction,
    Multiplication,
    Division,
}

/// One observation of a computation: the operands as they stood in the
/// record, the operation, and its result.
///
/// An absent result is an ordinary outcome. It says that the operation ran
/// and that no signed 64-bit number is its answer.
#[derive(Clone, Copy, Debug, PartialEq, Eq)]
pub struct CalculatorEvent {
    pub x: i64,
    pub y: i64,
    pub result: Option<i64>,
    pub op: Operation,
}

/// An append-only sequence of observations, oldest first.
///
/// Nothing removes or rewrites an entry, so a log read after a run of
/// operations holds exactly what they emitted, in order.
#[derive(Debug)]
pub struct EventLog {
    events: Vec<CalculatorEvent>,
}

impl View for EventLog {
    type V = Seq<CalculatorEvent>;

    closed spec fn view(&self) -> Seq<CalculatorEvent> {
        self.events@
    }
}

impl EventLog {
    /// A log with nothing in it.
    pub fn new() -> (log: EventLog)
        ensures
            log@ == Seq::<CalculatorEvent>::empty(),
    {
        EventLog { events: Vec::new() }
    }

    /// Appends one observation and leaves the earlier ones as they were.
    pub fn emit(&mut self, x: i64, y: i64, result: Option<i64>, op: Operation)
        ensures
            final(self)@ == old(self)@.push((CalculatorEvent { x, y, result, op })),
    {
        self.events.push(CalculatorEvent { x, y, result, op });
    }

    /// How many observations the log holds.
    pub fn len(&self) -> (n: usize)
        ensures
            n == self@.len(),
    {
        self.events.len()
    }

    /// The observation at position `index`, counted from the oldest, if the
    /// log is that long.
    pub fn get(&self, index: usize) -> (event: Option<CalculatorEvent>)
        ensures
            event == if index < self@.len() {
                Some(self@[index as int])
            } else {
                None
            },
    {
        if index < self.events.len() {
            Some(self.events[index])
        } else {
            None
        }
    }

    /// All observations, oldest first.
    pub fn events(&self) -> (all: &[CalculatorEvent])
        ensures
            all@ == self@,
    {
        self.events.as_slice()
    }
}

} // verus!
