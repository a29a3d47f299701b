//! The session: a campaign, the state of play and the dice, advanced one
//! choice at a time.

use crate::campaign::Campaign;
use crate::campaign::CampaignModel;
use crate::campaign::GameState;
use crate::campaign::GameStateModel;
use crate::campaign::NodeType;
use crate::campaign::NodeView;
use crate::campaign::NodeViewModel;
use crate::dice::DiceRoller;
use crate::rules::Character;
use crate::rules::CharacterModel;
use vstd::prelude::*;

verus! {

/// The state in which a session opens: at the campaign's start node, with no
/// encounter and no log.
pub open spec fn opening_state(campaign: CampaignModel, hero: CharacterModel) -> GameStateModel {
    GameStateModel {
        character: hero,
        current_node_id: campaign.start_node_id,
        encounter: None,
        last_log: None,
    }
}

/// A session of one player in one campaign.
pub struct Engine {
    pub campaign: Campaign,
    pub state: GameState,
    pub dice: DiceRoller,
}

impl Engine {
    /// Whether the session can take a choice: the current node is one of the
    /// campaign's and, if it is a combat node, a round can be fought.
    pub open spec fn ready(self) -> bool {
        self.campaign@.accepts(self.state@)
    }

    /// Whether this is a session just opened for a campaign and a character,
    /// with dice seeded by `seed`.
    pub open spec fn opens(self, campaign: CampaignModel, hero: CharacterModel, seed: u64) -> bool {
        &&& self.campaign@ == campaign
        &&& self.state@ == opening_state(campaign, hero)
        &&& self.dice == DiceRoller::seeded(seed)
    }

    /// Whether this is the session `before` after the choice `choice_id`.
    pub open spec fn follows(self, before: Engine, choice_id: Seq<char>) -> bool {
        &&& self.campaign == before.campaign
        &&& (self.state@, self.dice) == before.campaign@.step(
            before.state@,
            choice_id,
            before.dice,
        )
    }

    /// What the session shows.
    pub open spec fn shown(self) -> NodeViewModel {
        self.campaign@.view_of(self.state@)
    }

    /// Opens a session.
    pub fn new(campaign: Campaign, character: Character, seed: u64) -> (engine: Self)
        ensures
            engine.campaign == campaign,
            engine.opens(campaign@, character@, seed),
            campaign@.has_node(campaign@.start_node_id) ==> engine.ready(),
    {
        let start_id = campaign.start_node_id.clone();
        Engine {
            campaign,
            state: GameState {
                character,
                current_node_id: start_id,
                encounter: None,
                last_log: None,
            },
            dice: DiceRoller::new(seed),
        }
    }

    /// Whether the session can take a choice.
    pub fn is_ready(&self) -> (r: bool)
        ensures
            r == self.ready(),
    {
        let node = match self.campaign.find_node(self.state.current_node_id.as_str()) {
            Some(node) => node,
            None => {
                return false;
            },
        };
        if node.kind != NodeType::Combat || self.state.character.current_hp <= 0 {
            return true;
        }
        match &self.state.encounter {
            Some(encounter) => encounter.dice_sound(),
            None => true,
        }
    }

    /// What the player is shown now. Nothing changes.
    pub fn current_view(&self) -> (view: NodeView)
        requires
            self.campaign@.has_node(self.state@.current_node_id),
        ensures
            view@ == self.shown(),
    {
        self.campaign.view_node(&self.state)
    }

    /// Advances the session by one choice.
    pub fn make_choice(&mut self, choice_id: &str)
        requires
            old(self).ready(),
        ensures
            final(self).follows(*old(self), choice_id@),
            old(self).state@.dice_sound() ==> final(self).state@.dice_sound(),
            old(self).campaign@.well_formed() && old(self).state@.dice_sound()
                ==> final(self).ready(),
    {
        self.campaign.apply_choice(choice_id, &mut self.state, &mut self.dice);
    }
}

} // verus!
