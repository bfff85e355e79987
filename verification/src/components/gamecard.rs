//! The card that stands for a game in the menu.

use vstd::prelude::*;
use crate::games::Game;
use crate::session::GameId;

verus! {

/// The width and height of a thumbnail.
pub const THUMBNAIL_SIZE: u16 = 11;

/// `THUMBNAIL_SIZE` plus the size of the borders.
pub const GAMECARD_SIZE: u16 = THUMBNAIL_SIZE + 2;

/// A game in the menu: its number, its name, its picture, and whether the
/// cursor is on it.
#[derive(Debug)]
pub struct GameCard {
    id: GameId,
    name: String,
    thumbnail: String,
    selected: bool,
}

impl GameCard {
    /// The number of the game.
    pub closed spec fn game(&self) -> GameId {
        self.id
    }

    /// Whether the cursor is on the card.
    pub closed spec fn selected(&self) -> bool {
        self.selected
    }

    /// The title of the card.
    pub closed spec fn title(&self) -> Seq<char> {
        self.name@
    }

    /// The picture on the card.
    pub closed spec fn picture(&self) -> Seq<char> {
        self.thumbnail@
    }

    /// Puts the cursor on the card or takes it off; nothing else changes.
    pub fn set_selected(&mut self, selected: bool)
        ensures
            final(self).selected() == selected,
            final(self).game() == old(self).game(),
            final(self).title() == old(self).title(),
            final(self).picture() == old(self).picture(),
    {
        self.selected = selected;
    }

    /// The card of the game `value`, kept under `id`: it carries the name and
    /// the picture of the game, and the cursor is off it.
    pub fn from_game_with_id<G: Game + ?Sized>(value: &G, id: GameId) -> (card: GameCard)
        ensures
            card.game() == id,
            card.title() == value.title(),
            card.picture() == value.picture(),
            !card.selected(),
    {
        GameCard { id, name: value.name(), thumbnail: value.thumbnail(), selected: false }
    }

    /// The number of the game.
    pub fn id(&self) -> (id: GameId)
        ensures
            id == self.game(),
    {
        self.id
    }

    /// Whether the cursor is on the card.
    pub fn is_selected(&self) -> (selected: bool)
        ensures
            selected == self.selected(),
    {
        self.selected
    }

    /// The title of the card.
    pub fn name(&self) -> (name: &str)
        ensures
            name@ == self.title(),
    {
        self.name.as_str()
    }

    /// The picture on the card.
    pub fn thumbnail(&self) -> (thumbnail: &str)
        ensures
            thumbnail@ == self.picture(),
    {
        self.thumbnail.as_str()
    }
}

} // verus!
