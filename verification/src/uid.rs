//! Identifiers and the generator that issues them.

use crate::text::{decimal, push_decimal};
use vstd::prelude::*;

verus! {

/// An identifier: a positive integer that a [`Generator`] has issued.
#[derive(Clone, Copy, Debug, PartialEq, Eq, Structural, Hash)]
pub struct Uid(u32);

impl View for Uid {
    type V = nat;

    closed spec fn view(&self) -> nat {
        self.0 as nat
    }
}

impl Uid {
    #[verifier::type_invariant]
    spec fn positive(self) -> bool {
        self.0 >= 1
    }

    /// The identifier as a number.
    pub fn raw(self) -> (r: u32)
        ensures
            r as nat == self@,
            r >= 1,
    {
        proof {
            use_type_invariant(&self);
        }
        self.0
    }

    /// The identifier as text: its number in decimal, between double quotes.
    pub open spec fn text(self) -> Seq<char> {
        seq!['"'] + decimal(self@) + seq!['"']
    }

    /// The identifier as text.
    pub fn to_text(self) -> (text: String)
        ensures
            text@ == self.text(),
    {
        let mut text = String::new();
        text.push('"');
        push_decimal(&mut text, self.0);
        text.push('"');
        text
    }
}

/// Issues identifiers in increasing order, each of them once.
pub struct Generator {
    counter: u32,
}

impl Generator {
    #[verifier::type_invariant]
    spec fn positive(self) -> bool {
        self.counter >= 1
    }

    /// The identifier that the next call of [`Generator::new_uid`] returns.
    pub closed spec fn next(&self) -> nat {
        self.counter as nat
    }

    /// How many identifiers the generator can still issue.
    pub open spec fn spare(&self) -> nat {
        (u32::MAX - self.next()) as nat
    }

    /// How many identifiers the generator can still issue.
    pub fn remaining(&self) -> (r: u32)
        ensures
            r as nat == self.spare(),
            self.next() >= 1,
            self.next() <= u32::MAX,
    {
        proof {
            use_type_invariant(self);
        }
        u32::MAX - self.counter
    }

    /// Issues a fresh identifier.
    ///
    /// The generator must have one left: with none to spare the sequence
    /// cannot go on.
    pub fn new_uid(&mut self) -> (uid: Uid)
        requires
            old(self).spare() >= 1,
        ensures
            uid@ == old(self).next(),
            uid@ >= 1,
            final(self).next() == old(self).next() + 1,
    {
        proof {
            use_type_invariant(&*self);
        }
        let counter: u32 = self.counter;
        self.counter = counter + 1;
        Uid(counter)
    }
}

impl Default for Generator {
    /// The generator that has issued nothing yet: its first identifier is 1.
    fn default() -> (g: Self)
        ensures
            g.next() == 1,
    {
        Self { counter: 1 }
    }
}

} // verus!
