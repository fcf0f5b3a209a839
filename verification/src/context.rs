//! The spans that one thread is inside of, innermost last.

use vstd::prelude::*;

verus! {

/// The innermost of the entered spans, if there is one.
pub open spec fn innermost(entered: Seq<u64>) -> Option<u64> {
    if entered.len() == 0 {
        None
    } else {
        Some(entered.last())
    }
}

/// Tracks the spans that a thread has entered and not yet exited. Each thread
/// (or each task, where several share a thread) owns one and passes it to the
/// subscriber with every call.
#[derive(Debug)]
pub struct CurrentSpan {
    entered: Vec<u64>,
}

impl View for CurrentSpan {
    type V = Seq<u64>;

    closed spec fn view(&self) -> Seq<u64> {
        self.entered@
    }
}

impl CurrentSpan {
    /// A context in which no span is entered.
    pub fn new() -> (context: CurrentSpan)
        ensures
            context@ == Seq::<u64>::empty(),
    {
        CurrentSpan { entered: Vec::new() }
    }

    /// The span in which the thread is executing, or `None` if it is not
    /// inside of a span.
    pub fn id(&self) -> (id: Option<u64>)
        ensures
            id == innermost(self@),
    {
        let depth = self.entered.len();
        if depth == 0 {
            None
        } else {
            Some(self.entered[depth - 1])
        }
    }

    /// Records that the thread has entered the span `span`.
    pub fn enter(&mut self, span: u64)
        ensures
            final(self)@ == old(self)@.push(span),
    {
        self.entered.push(span);
    }

    /// Records that the thread has exited the span it entered last. Without
    /// an entered span nothing changes.
    pub fn exit(&mut self)
        ensures
            final(self)@ == if old(self)@.len() == 0 {
                old(self)@
            } else {
                old(self)@.drop_last()
            },
    {
        let _ = self.entered.pop();
    }
}

} // verus!
