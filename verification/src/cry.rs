//! The three cries the bot answers a mention with.

use crate::chance::draw;
use vstd::prelude::*;

verus! {

/// One of the bot's three cries.
#[derive(Clone, Copy, Debug, PartialEq, Eq, Structural)]
pub enum Cry {
    Plain,
    Repeated,
    Shouted,
}

/// The text of each cry.
pub open spec fn cry_text(cry: Cry) -> Seq<char> {
    match cry {
        Cry::Plain => "Squirtle!"@,
        Cry::Repeated => "Squirtle squirtle squirtle"@,
        Cry::Shouted => "SQUIRTLE SQUIRTLE!"@,
    }
}

/// The cries a draw is made from: each of the three, once.
pub open spec fn all_cries() -> Seq<Cry> {
    seq![Cry::Plain, Cry::Repeated, Cry::Shouted]
}

impl Cry {
    /// The text of this cry.
    pub fn text(self) -> (text: &'static str)
        ensures
            text@ == cry_text(self),
    {
        match self {
            Cry::Plain => "Squirtle!",
            Cry::Repeated => "Squirtle squirtle squirtle",
            Cry::Shouted => "SQUIRTLE SQUIRTLE!",
        }
    }

    /// The three cries, in a fixed order.
    pub fn all() -> (cries: Vec<Cry>)
        ensures
            cries@ == all_cries(),
    {
        let mut cries: Vec<Cry> = Vec::new();
        cries.push(Cry::Plain);
        cries.push(Cry::Repeated);
        cries.push(Cry::Shouted);
        assert(cries@ =~= all_cries());
        cries
    }

    /// A cry drawn at random from the three; every call draws anew.
    pub fn pick() -> (cry: Cry)
        ensures
            all_cries().contains(cry),
    {
        let cries = Cry::all();
        let picked = draw(cries.as_slice());
        *picked.unwrap()
    }
}

} // verus!
