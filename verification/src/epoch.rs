use vstd::prelude::*;

verus! {

/// Number of an accounting period. Epochs only ever grow.
#[derive(Debug, Clone, Copy, PartialEq, Eq, Structural)]
pub struct Epoch(pub u16);

impl View for Epoch {
    type V = int;

    open spec fn view(&self) -> int {
        self.0 as int
    }
}

impl Epoch {
    /// The epoch before this one; epoch 0 has none.
    pub open spec fn previous(self) -> Option<Epoch> {
        if self.0 == 0 {
            None
        } else {
            Some(Epoch((self.0 - 1) as u16))
        }
    }

    /// The counter itself.
    pub fn count(&self) -> (n: u16)
        ensures
            n == self.0,
    {
        self.0
    }

    /// The epoch that follows this one.
    pub fn next_epoch(&self) -> (next: Epoch)
        requires
            self.0 < u16::MAX,
        ensures
            next@ == self@ + 1,
            next.previous() == Some(*self),
    {
        Epoch(self.0 + 1)
    }

    /// The epoch before this one; epoch 0 has none.
    pub fn previous_epoch(&self) -> (prev: Option<Epoch>)
        ensures
            prev == self.previous(),
    {
        match self.0.checked_sub(1) {
            Some(n) => Some(Epoch(n)),
            None => None,
        }
    }

    /// Advances this epoch by one, in place.
    pub fn update_epoch(&mut self)
        requires
            old(self).0 < u16::MAX,
        ensures
            final(self)@ == old(self)@ + 1,
    {
        self.0 = self.0 + 1;
    }
}

} // verus!
