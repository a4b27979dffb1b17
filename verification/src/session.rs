use vstd::prelude::*;
use crate::digest::ContentDigest;

verus! {

/// The attempt a search publication session is currently running, if any.
#[derive(Debug)]
pub struct ActiveAttemptSlot {
    attempt: Option<ContentDigest>,
}

impl View for ActiveAttemptSlot {
    /// The identifier of the running attempt, if any.
    type V = Option<Seq<char>>;

    closed spec fn view(&self) -> Option<Seq<char>> {
        match self.attempt {
            Some(a) => Some(a@),
            None => None,
        }
    }
}

impl ActiveAttemptSlot {
    /// A session starts with no running attempt.
    pub fn new() -> (r: Self)
        ensures
            r@ is None,
    {
        ActiveAttemptSlot { attempt: None }
    }

    /// The running attempt, if any.
    pub fn active(&self) -> (r: Option<&ContentDigest>)
        ensures
            match r {
                Some(a) => self@ == Some(a@),
                None => self@ is None,
            },
    {
        self.attempt.as_ref()
    }

    /// Records the attempt the session now runs.
    pub fn set(&mut self, attempt: ContentDigest)
        ensures
            final(self)@ == Some(attempt@),
    {
        self.attempt = Some(attempt);
    }

    /// Forgets the running attempt if it is `attempt`; another running
    /// attempt stays recorded.
    pub fn clear_if(&mut self, attempt: &ContentDigest)
        ensures
            old(self)@ == Some(attempt@) ==> final(self)@ is None,
            old(self)@ != Some(attempt@) ==> final(self)@ == old(self)@,
    {
        let matches = match &self.attempt {
            Some(a) => a.same_as(attempt),
            None => false,
        };
        if matches {
            self.attempt = None;
        }
    }
}

} // verus!
