use vstd::prelude::*;

verus! {

/// What one resumption of a cooperative producer handed back.
pub enum Resumed<Y> {
    /// The producer suspended with a value.
    Yielded(Y),
    /// The producer returned; it must not be resumed again.
    Complete,
}

/// State of a finite, single-pass, forward-only sequence read from a
/// cooperative producer.
///
/// The driver asks `is_valid` before each resumption, resumes the producer
/// only while it holds, and hands what came back to `advance`, which gives the
/// next item of the sequence. Once the producer has returned, the sequence has
/// ended for good: it is not restartable.
pub struct Coro {
    valid: bool,
}

impl Coro {
    /// The sequence may still produce items: the producer has not returned.
    pub closed spec fn live(&self) -> bool {
        self.valid
    }

    /// A sequence over a producer that has not been resumed yet.
    pub fn new() -> (r: Coro)
        ensures
            r.live(),
    {
        Coro { valid: true }
    }

    /// Whether the producer may be resumed again.
    pub fn is_valid(&self) -> (r: bool)
        ensures
            r == self.live(),
    {
        self.valid
    }

    /// The next item of the sequence, given what resuming the producer
    /// handed back.
    ///
    /// A yielded value is passed on while the sequence is live. A completed
    /// producer ends the sequence, and an ended sequence stays ended and gives
    /// no item, whatever is handed to it.
    pub fn advance<Y>(&mut self, resumed: Resumed<Y>) -> (r: Option<Y>)
        ensures
            old(self).live() && resumed is Yielded ==> r == Some(resumed->Yielded_0)
                && final(self).live(),
            !old(self).live() || resumed is Complete ==> r is None && !final(self).live(),
    {
        if !self.valid {
            return None;
        }
        match resumed {
            Resumed::Yielded(y) => Some(y),
            Resumed::Complete => {
                self.valid = false;
                None
            },
        }
    }
}

} // verus!
