use vstd::prelude::*;

verus! {

/// Identifier for a physical input: a keyboard key, a mouse button, or a
/// controller button. The engine never interprets the codes; it only compares
/// buttons for equality.
#[derive(Clone, Copy, Debug, Eq, Hash, PartialEq, Structural)]
pub enum Button {
    /// A keyboard key, by key code.
    Keyboard(u32),
    /// A mouse button, by button code.
    Mouse(u32),
    /// A controller button, by controller id and button code.
    Controller(i32, u8),
}

/// A three-element tuple of `Option<Button>`: the bindings of one action. For
/// simplicity, at most 3 buttons can be bound to each action. Slots may be
/// sparse after manual edits; every operation works regardless of sparsity.
#[derive(Clone, Copy, Debug, Eq, Hash, PartialEq, Structural)]
pub struct ButtonTuple(pub Option<Button>, pub Option<Button>, pub Option<Button>);

impl ButtonTuple {
    /// True exactly when some slot holds `button`.
    pub open spec fn has(self, button: Button) -> bool {
        self.0 == Some(button) || self.1 == Some(button) || self.2 == Some(button)
    }

    /// True exactly when some slot is free.
    pub open spec fn has_free_slot(self) -> bool {
        self.0 is None || self.1 is None || self.2 is None
    }

    /// The tuple after inserting `button` into the first free slot, from left
    /// to right; the tuple itself when every slot is occupied.
    pub open spec fn inserted(self, button: Button) -> ButtonTuple {
        if self.0 is None {
            ButtonTuple(Some(button), self.1, self.2)
        } else if self.1 is None {
            ButtonTuple(self.0, Some(button), self.2)
        } else if self.2 is None {
            ButtonTuple(self.0, self.1, Some(button))
        } else {
            self
        }
    }

    /// How many slots are occupied (0 to 3).
    pub open spec fn count_set(self) -> int {
        (if self.0 is Some { 1int } else { 0 }) + (if self.1 is Some { 1int } else { 0 }) + (
        if self.2 is Some {
            1int
        } else {
            0
        })
    }

    /// Creates a new tuple with no buttons in it.
    pub fn new() -> (t: ButtonTuple)
        ensures
            t == ButtonTuple(None::<Button>, None::<Button>, None::<Button>),
    {
        ButtonTuple(None, None, None)
    }

    /// Check if the button is in the tuple.
    pub fn contains(&self, button: Button) -> (r: bool)
        ensures
            r == self.has(button),
    {
        let in0 = match self.0 {
            Some(b) => b == button,
            None => false,
        };
        let in1 = match self.1 {
            Some(b) => b == button,
            None => false,
        };
        let in2 = match self.2 {
            Some(b) => b == button,
            None => false,
        };
        in0 || in1 || in2
    }

    /// Insert a button into the first free slot, searching from left to
    /// right, and return true. If every slot is occupied, return false and
    /// leave the tuple unchanged.
    pub fn insert_inplace(&mut self, button: Button) -> (r: bool)
        ensures
            r == old(self).has_free_slot(),
            *final(self) == old(self).inserted(button),
    {
        if self.0.is_none() {
            self.0 = Some(button);
            true
        } else if self.1.is_none() {
            self.1 = Some(button);
            true
        } else if self.2.is_none() {
            self.2 = Some(button);
            true
        } else {
            false
        }
    }

    /// The maximum number of buttons which a tuple can contain.
    pub fn max_buttons(&self) -> (r: usize)
        ensures
            r == 3,
    {
        3
    }

    /// The number of slots which are not `None`.
    pub fn num_buttons_set(&self) -> (r: usize)
        ensures
            r == self.count_set(),
    {
        let mut n: usize = 0;
        if self.0.is_some() {
            n = n + 1;
        }
        if self.1.is_some() {
            n = n + 1;
        }
        if self.2.is_some() {
            n = n + 1;
        }
        n
    }

    /// An iterator over the three slot values, in fixed index order.
    pub fn iter(&self) -> (it: ButtonTupleIter)
        ensures
            it.tuple == *self,
            it.position == 0,
    {
        ButtonTupleIter { tuple: *self, position: 0 }
    }
}

/// Inserting into a full tuple returns false and leaves every slot unchanged.
pub proof fn lemma_insert_on_full_is_noop(t: ButtonTuple, button: Button)
    requires
        t.0 is Some,
        t.1 is Some,
        t.2 is Some,
    ensures
        !t.has_free_slot(),
        t.inserted(button) == t,
{
}

/// A successful insert raises the number of occupied slots by exactly one; a
/// failed insert leaves it unchanged.
pub proof fn lemma_insert_count(t: ButtonTuple, button: Button)
    ensures
        t.has_free_slot() ==> t.inserted(button).count_set() == t.count_set() + 1,
        !t.has_free_slot() ==> t.inserted(button).count_set() == t.count_set(),
{
}

/// A walk over the three slots of a [`ButtonTuple`], in fixed index order.
/// Walking twice over the same tuple yields identical results.
#[derive(Clone, Copy, Debug)]
pub struct ButtonTupleIter {
    /// The tuple being walked.
    pub tuple: ButtonTuple,
    /// The index of the next slot to yield.
    pub position: usize,
}

impl ButtonTupleIter {
    /// The slot at the current position, advancing the position by one;
    /// `None` once all three slots have been yielded.
    pub fn next(&mut self) -> (r: Option<Option<Button>>)
        ensures
            final(self).tuple == old(self).tuple,
            final(self).position == if old(self).position < 4 {
                old(self).position + 1
            } else {
                old(self).position as int
            },
            r == if old(self).position == 0 {
                Some(old(self).tuple.0)
            } else if old(self).position == 1 {
                Some(old(self).tuple.1)
            } else if old(self).position == 2 {
                Some(old(self).tuple.2)
            } else {
                None::<Option<Button>>
            },
    {
        let i = self.position;
        if i < 4 {
            self.position = i + 1;
        }
        match i {
            0 => Some(self.tuple.0),
            1 => Some(self.tuple.1),
            2 => Some(self.tuple.2),
            _ => None,
        }
    }

    /// The number of slots left to yield.
    pub fn len(&self) -> (r: usize)
        ensures
            r == if self.position < 3 {
                3 - self.position
            } else {
                0int
            },
    {
        if self.position < 3 {
            3 - self.position
        } else {
            0
        }
    }
}

} // verus!
