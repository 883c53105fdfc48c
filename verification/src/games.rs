//! Game identifiers and the registry of games the queue can install.

use vstd::prelude::*;

verus! {

/// Discriminator identifying which supported game a task or updater belongs to.
#[derive(Debug, Clone, Copy, PartialEq, Eq, Structural)]
pub enum GameVariant {
    Genshin,
    Honkai,
    StarRail,
    PGR,
}

impl GameVariant {
    /// True of the variants that have a registered updater factory, i.e. the
    /// games a download task can actually be created for.
    pub open spec fn spec_is_supported(self) -> bool {
        self is Genshin
    }

    /// Whether this variant has a registered updater factory.
    pub fn is_supported(&self) -> (r: bool)
        ensures
            r == self.spec_is_supported(),
    {
        match self {
            GameVariant::Genshin => true,
            _ => false,
        }
    }

    /// Display title of the game.
    pub fn get_title(&self) -> (r: String)
        ensures
            self is Genshin ==> r@ == "Genshin Impact"@,
            self is Honkai ==> r@ == "Honkai Impact 3rd"@,
            self is StarRail ==> r@ == "Honkai: Star Rail"@,
            self is PGR ==> r@ == "Punishing: Gray Raven"@,
    {
        match self {
            GameVariant::Genshin => String::from_str("Genshin Impact"),
            GameVariant::Honkai => String::from_str("Honkai Impact 3rd"),
            GameVariant::StarRail => String::from_str("Honkai: Star Rail"),
            GameVariant::PGR => String::from_str("Punishing: Gray Raven"),
        }
    }

    /// Every variant, in a fixed order.
    pub fn list() -> (r: Vec<GameVariant>)
        ensures
            r@ == seq![
                GameVariant::Genshin,
                GameVariant::Honkai,
                GameVariant::StarRail,
                GameVariant::PGR,
            ],
    {
        let mut v: Vec<GameVariant> = Vec::new();
        v.push(GameVariant::Genshin);
        v.push(GameVariant::Honkai);
        v.push(GameVariant::StarRail);
        v.push(GameVariant::PGR);
        proof {
            assert(v@ =~= seq![
                GameVariant::Genshin,
                GameVariant::Honkai,
                GameVariant::StarRail,
                GameVariant::PGR,
            ]);
        }
        v
    }
}

} // verus!
