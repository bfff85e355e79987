//! The menu of games: a row of cards with a cursor on one of them.

use vstd::prelude::*;
use crate::action::Action;
use crate::components::gamecard::{GameCard, GAMECARD_SIZE};

verus! {

/// The gap between two cards of the grid.
pub const GRID_SPACING: u16 = 1;

/// The cards of the menu and the place of the cursor.
#[derive(Debug)]
pub struct GameMenu {
    game_cards: Vec<GameCard>,
    selected_game: usize,
}

impl GameMenu {
    /// The cards, in the order in which they are shown.
    pub closed spec fn cards(&self) -> Seq<GameCard> {
        self.game_cards@
    }

    /// The place of the cursor among the cards.
    pub closed spec fn cursor(&self) -> int {
        self.selected_game as int
    }

    /// The cursor is on a card, or the menu is empty and the cursor at 0.
    pub open spec fn well_formed(&self) -> bool {
        0 <= self.cursor() && (self.cursor() < self.cards().len() || self.cursor() == 0)
    }

    /// The menu of `game_cards`, with the cursor on the first.
    pub fn new(game_cards: Vec<GameCard>) -> (menu: GameMenu)
        ensures
            menu.well_formed(),
            menu.cards() == game_cards@,
            menu.cursor() == 0,
    {
        GameMenu { game_cards, selected_game: 0 }
    }

    /// Moves the cursor one card to the left, from the first card to the last.
    pub fn previous_game(&mut self)
        requires
            old(self).well_formed(),
            old(self).cards().len() > 0,
        ensures
            final(self).well_formed(),
            final(self).cards() == old(self).cards(),
            final(self).cursor() == (if old(self).cursor() == 0 {
                old(self).cards().len() - 1
            } else {
                old(self).cursor() - 1
            }),
    {
        if self.selected_game == 0 {
            self.selected_game = self.game_cards.len() - 1;
        } else {
            self.selected_game -= 1;
        }
    }

    /// Moves the cursor one card to the right, from the last card to the first.
    pub fn next_game(&mut self)
        requires
            old(self).well_formed(),
            old(self).cards().len() > 0,
        ensures
            final(self).well_formed(),
            final(self).cards() == old(self).cards(),
            final(self).cursor() == (old(self).cursor() + 1) % (old(self).cards().len() as int),
    {
        assert(self.selected_game < self.game_cards.len());
        self.selected_game = (self.selected_game + 1) % self.game_cards.len();
    }

    /// The request to open the game that the cursor is on.
    pub fn open_game(&self) -> (action: Action)
        requires
            self.well_formed(),
            self.cards().len() > 0,
        ensures
            action == Action::OpenGame(self.cards()[self.cursor()].game()),
    {
        Action::OpenGame(self.game_cards[self.selected_game].id())
    }

    /// Marks the card under the cursor as selected and every other card as
    /// not.
    pub fn mark_selected(&mut self)
        requires
            old(self).well_formed(),
        ensures
            final(self).well_formed(),
            final(self).cursor() == old(self).cursor(),
            final(self).cards().len() == old(self).cards().len(),
            forall|i: int|
                0 <= i < final(self).cards().len() ==> {
                    &&& (#[trigger] final(self).cards()[i]).selected() == (i == old(
                        self,
                    ).cursor())
                    &&& final(self).cards()[i].game() == old(self).cards()[i].game()
                    &&& final(self).cards()[i].title() == old(self).cards()[i].title()
                    &&& final(self).cards()[i].picture() == old(self).cards()[i].picture()
                },
    {
        let mut i: usize = 0;
        while i < self.game_cards.len()
            invariant
                i <= self.game_cards.len(),
                self.selected_game == old(self).selected_game,
                self.game_cards.len() == old(self).game_cards.len(),
                forall|j: int|
                    0 <= j < i ==> (#[trigger] self.game_cards[j]).selected() == (j
                        == self.selected_game),
                forall|j: int|
                    0 <= j < self.game_cards.len() ==> {
                        &&& (#[trigger] self.game_cards[j]).game() == old(self).game_cards[j].game()
                        &&& self.game_cards[j].title() == old(self).game_cards[j].title()
                        &&& self.game_cards[j].picture() == old(self).game_cards[j].picture()
                    },
            decreases self.game_cards.len() - i,
        {
            let chosen = i == self.selected_game;
            self.game_cards[i].set_selected(chosen);
            i += 1;
        }
    }

    /// The cards, for drawing.
    pub fn game_cards(&self) -> (cards: &Vec<GameCard>)
        ensures
            cards@ == self.cards(),
    {
        &self.game_cards
    }

    /// The place of the cursor among the cards.
    pub fn selected_game(&self) -> (cursor: usize)
        ensures
            cursor == self.cursor(),
    {
        self.selected_game
    }
}

/// How many columns and rows of cards a grid of the given width takes for
/// `cards` cards: as many columns as fit side by side, each with its gap, and
/// as many rows as the cards then fill.
pub fn grid_shape(width: u16, cards: usize) -> (shape: (usize, usize))
    requires
        width >= GAMECARD_SIZE + GRID_SPACING,
        cards > 0,
    ensures
        shape.0 == width / ((GAMECARD_SIZE + GRID_SPACING) as u16),
        shape.1 == (cards - 1) / (shape.0 as int) + 1,
{
    let cell: u16 = GAMECARD_SIZE + GRID_SPACING;
    assert(cell == 14);
    let column_count = (width / cell) as usize;
    assert(column_count >= 1);
    let row_count = ((cards - 1) / column_count) + 1;
    (column_count, row_count)
}

} // verus!
