//! The campaign graph: nodes, choices, skill checks and encounters, the
//! session's state, and the view that a player is shown.

use crate::battle::combat_step;
use crate::combat::Encounter;
use crate::combat::EncounterModel;
use crate::dice::DiceRoller;
use crate::laws::lemma_step_stays_in_graph;
use crate::narrative::narrative_step;
use crate::narrative::with_log;
use crate::rules::Character;
use crate::rules::CharacterModel;
use crate::search::first_index;
use crate::search::is_first;
use crate::search::lemma_first_index;
use crate::search::none_is;
use crate::text::opt_text;
use crate::text::texts;
use vstd::pervasive::unreached;
use vstd::prelude::*;
use vstd::string::StringExecFns;

verus! {

/// The kind of a node.
#[derive(Clone, Copy, Debug, PartialEq, Eq, Structural)]
pub enum NodeType {
    Narrative,
    Combat,
    End,
}

/// An ability roll against a difficulty class, which decides where a choice
/// leads.
#[derive(Clone, Debug)]
pub struct SkillCheck {
    pub ability: String,
    pub dc: i32,
    pub success_next: Option<String>,
    pub failure_next: Option<String>,
    pub description: Option<String>,
}

/// What a skill check says.
pub struct SkillCheckModel {
    pub ability: Seq<char>,
    pub dc: int,
    pub success_next: Option<Seq<char>>,
    pub failure_next: Option<Seq<char>>,
    pub description: Option<Seq<char>>,
}

impl View for SkillCheck {
    type V = SkillCheckModel;

    open spec fn view(&self) -> SkillCheckModel {
        SkillCheckModel {
            ability: self.ability@,
            dc: self.dc as int,
            success_next: opt_text(self.success_next),
            failure_next: opt_text(self.failure_next),
            description: opt_text(self.description),
        }
    }
}

/// An action that the player can pick at a node.
#[derive(Clone, Debug)]
pub struct Choice {
    pub id: String,
    pub label: String,
    pub next: Option<String>,
    pub skill_check: Option<SkillCheck>,
}

/// What a choice says.
pub struct ChoiceModel {
    pub id: Seq<char>,
    pub label: Seq<char>,
    pub next: Option<Seq<char>>,
    pub skill_check: Option<SkillCheckModel>,
}

impl View for Choice {
    type V = ChoiceModel;

    open spec fn view(&self) -> ChoiceModel {
        ChoiceModel {
            id: self.id@,
            label: self.label@,
            next: opt_text(self.next),
            skill_check: match self.skill_check {
                Some(check) => Some(check@),
                None => None,
            },
        }
    }
}

/// What each choice says, in order.
pub open spec fn choice_models(choices: Seq<Choice>) -> Seq<ChoiceModel> {
    choices.map_values(|c: Choice| c@)
}

/// A number of monsters of one template.
#[derive(Clone, Debug)]
pub struct MonsterSpec {
    pub reference: String,
    pub count: u8,
}

/// What a monster entry says.
pub struct MonsterSpecModel {
    pub reference: Seq<char>,
    pub count: nat,
}

impl View for MonsterSpec {
    type V = MonsterSpecModel;

    open spec fn view(&self) -> MonsterSpecModel {
        MonsterSpecModel { reference: self.reference@, count: self.count as nat }
    }
}

/// The monsters that a combat node sets against the hero.
#[derive(Clone, Debug)]
pub struct EncounterSpec {
    pub monsters: Vec<MonsterSpec>,
}

/// What a combat node's list of monsters says.
pub struct EncounterSpecModel {
    pub monsters: Seq<MonsterSpecModel>,
}

impl View for EncounterSpec {
    type V = EncounterSpecModel;

    open spec fn view(&self) -> EncounterSpecModel {
        EncounterSpecModel { monsters: self.monsters@.map_values(|m: MonsterSpec| m@) }
    }
}

/// One addressable point of a campaign.
#[derive(Clone, Debug)]
pub struct Node {
    pub id: String,
    pub kind: NodeType,
    pub title: Option<String>,
    pub text: Vec<String>,
    pub choices: Vec<Choice>,
    pub encounter: Option<EncounterSpec>,
    pub on_victory: Option<String>,
    pub on_defeat: Option<String>,
}

/// What a node says.
pub struct NodeModel {
    pub id: Seq<char>,
    pub kind: NodeType,
    pub title: Option<Seq<char>>,
    pub text: Seq<Seq<char>>,
    pub choices: Seq<ChoiceModel>,
    pub encounter: Option<EncounterSpecModel>,
    pub on_victory: Option<Seq<char>>,
    pub on_defeat: Option<Seq<char>>,
}

impl View for Node {
    type V = NodeModel;

    open spec fn view(&self) -> NodeModel {
        NodeModel {
            id: self.id@,
            kind: self.kind,
            title: opt_text(self.title),
            text: texts(self.text@),
            choices: choice_models(self.choices@),
            encounter: match self.encounter {
                Some(spec) => Some(spec@),
                None => None,
            },
            on_victory: opt_text(self.on_victory),
            on_defeat: opt_text(self.on_defeat),
        }
    }
}

/// The test for a choice with a given id.
pub open spec fn choice_with_id(id: Seq<char>) -> spec_fn(ChoiceModel) -> bool {
    |c: ChoiceModel| c.id == id
}

impl NodeModel {
    /// The first choice of the node with the given id, if it has one.
    pub open spec fn choice(self, id: Seq<char>) -> Option<ChoiceModel> {
        match first_index(self.choices, choice_with_id(id)) {
            Some(i) => Some(self.choices[i]),
            None => None,
        }
    }
}

/// The one mutable state of a session.
#[derive(Clone, Debug)]
pub struct GameState {
    pub character: Character,
    pub current_node_id: String,
    pub encounter: Option<Encounter>,
    pub last_log: Option<String>,
}

/// What a session's state holds.
pub struct GameStateModel {
    pub character: CharacterModel,
    pub current_node_id: Seq<char>,
    pub encounter: Option<EncounterModel>,
    pub last_log: Option<Seq<char>>,
}

impl View for GameState {
    type V = GameStateModel;

    open spec fn view(&self) -> GameStateModel {
        GameStateModel {
            character: self.character@,
            current_node_id: self.current_node_id@,
            encounter: match self.encounter {
                Some(encounter) => Some(encounter@),
                None => None,
            },
            last_log: opt_text(self.last_log),
        }
    }
}

/// A choice as the player is shown it.
#[derive(Clone, Debug)]
pub struct ChoiceView {
    pub id: String,
    pub label: String,
}

/// What a shown choice says.
pub struct ChoiceViewModel {
    pub id: Seq<char>,
    pub label: Seq<char>,
}

impl View for ChoiceView {
    type V = ChoiceViewModel;

    open spec fn view(&self) -> ChoiceViewModel {
        ChoiceViewModel { id: self.id@, label: self.label@ }
    }
}

/// The lines of the character sheet that the player is shown.
#[derive(Clone, Debug)]
pub struct CharacterSummary {
    pub name: String,
    pub level: u8,
    pub current_hp: i32,
    pub max_hp: i32,
}

/// What a character summary says.
pub struct CharacterSummaryModel {
    pub name: Seq<char>,
    pub level: int,
    pub current_hp: int,
    pub max_hp: int,
}

impl View for CharacterSummary {
    type V = CharacterSummaryModel;

    open spec fn view(&self) -> CharacterSummaryModel {
        CharacterSummaryModel {
            name: self.name@,
            level: self.level as int,
            current_hp: self.current_hp as int,
            max_hp: self.max_hp as int,
        }
    }
}

/// What the player is shown of the current node.
#[derive(Clone, Debug)]
pub struct NodeView {
    pub title: Option<String>,
    pub text: Vec<String>,
    pub choices: Vec<ChoiceView>,
    pub character_summary: CharacterSummary,
    pub log: Option<String>,
}

/// What a node view says.
pub struct NodeViewModel {
    pub title: Option<Seq<char>>,
    pub text: Seq<Seq<char>>,
    pub choices: Seq<ChoiceViewModel>,
    pub character_summary: CharacterSummaryModel,
    pub log: Option<Seq<char>>,
}

impl View for NodeView {
    type V = NodeViewModel;

    open spec fn view(&self) -> NodeViewModel {
        NodeViewModel {
            title: opt_text(self.title),
            text: texts(self.text@),
            choices: self.choices@.map_values(|c: ChoiceView| c@),
            character_summary: self.character_summary@,
            log: opt_text(self.log),
        }
    }
}

/// A campaign: a graph of nodes and the id of the node where it starts.
#[derive(Clone, Debug)]
pub struct Campaign {
    pub id: String,
    pub title: String,
    pub start_node_id: String,
    pub nodes: Vec<Node>,
}

/// What a campaign says.
pub struct CampaignModel {
    pub id: Seq<char>,
    pub title: Seq<char>,
    pub start_node_id: Seq<char>,
    pub nodes: Seq<NodeModel>,
}

impl View for Campaign {
    type V = CampaignModel;

    open spec fn view(&self) -> CampaignModel {
        CampaignModel {
            id: self.id@,
            title: self.title@,
            start_node_id: self.start_node_id@,
            nodes: self.nodes@.map_values(|n: Node| n@),
        }
    }
}

/// The test for a node with a given id.
pub open spec fn node_with_id(id: Seq<char>) -> spec_fn(NodeModel) -> bool {
    |n: NodeModel| n.id == id
}

/// A choice as it is shown: its id and its label.
pub open spec fn shown_choice(choice: ChoiceModel) -> ChoiceViewModel {
    ChoiceViewModel { id: choice.id, label: choice.label }
}

/// The paragraphs shown: the node's own text and, when the last action left
/// a log that is not empty, an empty line and the log after it.
pub open spec fn shown_text(text: Seq<Seq<char>>, log: Option<Seq<char>>) -> Seq<Seq<char>> {
    match log {
        Some(l) => if l.len() > 0 {
            text.push(Seq::empty()).push(l)
        } else {
            text
        },
        None => text,
    }
}

impl CampaignModel {
    /// The place of the first node with the given id, if there is one.
    pub open spec fn node_index(self, id: Seq<char>) -> Option<int> {
        first_index(self.nodes, node_with_id(id))
    }

    /// Whether the campaign has a node with the given id.
    pub open spec fn has_node(self, id: Seq<char>) -> bool {
        self.node_index(id) is Some
    }

    /// The first node with the given id.
    pub open spec fn node(self, id: Seq<char>) -> NodeModel
        recommends
            self.has_node(id),
    {
        self.nodes[self.node_index(id)->0]
    }

    /// What the player is shown in a given state: the current node's title
    /// and text with the last log after it, its choices unless the node is an
    /// ending, the character's summary, and the last log.
    pub open spec fn view_of(self, state: GameStateModel) -> NodeViewModel
        recommends
            self.has_node(state.current_node_id),
    {
        let node = self.node(state.current_node_id);
        NodeViewModel {
            title: node.title,
            text: shown_text(node.text, state.last_log),
            choices: if node.kind == NodeType::End {
                Seq::empty()
            } else {
                node.choices.map_values(|c: ChoiceModel| shown_choice(c))
            },
            character_summary: CharacterSummaryModel {
                name: state.character.name,
                level: state.character.level,
                current_hp: state.character.current_hp,
                max_hp: state.character.max_hp,
            },
            log: state.last_log,
        }
    }

    /// Whether a target, if one is set, is a node of the campaign.
    pub open spec fn resolves(self, target: Option<Seq<char>>) -> bool {
        match target {
            Some(id) => self.has_node(id),
            None => true,
        }
    }

    /// Whether every target of a choice is a node of the campaign.
    pub open spec fn choice_resolves(self, choice: ChoiceModel) -> bool {
        &&& self.resolves(choice.next)
        &&& match choice.skill_check {
            Some(check) => self.resolves(check.success_next) && self.resolves(check.failure_next),
            None => true,
        }
    }

    /// Whether every target of a node and of its choices is a node of the
    /// campaign.
    pub open spec fn node_resolves(self, node: NodeModel) -> bool {
        &&& self.resolves(node.on_victory)
        &&& self.resolves(node.on_defeat)
        &&& forall|i: int|
            0 <= i < node.choices.len() ==> self.choice_resolves(#[trigger] node.choices[i])
    }

    /// Whether the graph is whole: the start node exists, and so does every
    /// node that a choice, a skill check or the outcome of a fight leads to.
    pub open spec fn well_formed(self) -> bool {
        &&& self.has_node(self.start_node_id)
        &&& forall|i: int| 0 <= i < self.nodes.len() ==> self.node_resolves(#[trigger] self.nodes[i])
    }

    /// Whether a choice can be applied in a given state: the current node is
    /// one of the campaign's and, if it is a combat node, a round can be
    /// fought.
    pub open spec fn accepts(self, state: GameStateModel) -> bool {
        &&& self.has_node(state.current_node_id)
        &&& self.node(state.current_node_id).kind == NodeType::Combat ==> state.can_fight()
    }

    /// A choice applied in a given state: the state and the dice afterwards.
    pub open spec fn step(self, state: GameStateModel, choice_id: Seq<char>, dice: DiceRoller) -> (
        GameStateModel,
        DiceRoller,
    )
        recommends
            self.has_node(state.current_node_id),
    {
        let node = self.node(state.current_node_id);
        match node.kind {
            NodeType::Narrative => narrative_step(node, state, choice_id, dice),
            NodeType::Combat => combat_step(node, state, choice_id, dice),
            NodeType::End => (with_log(state, "The adventure is over."@), dice),
        }
    }
}

/// A copy of an optional string.
fn copy_opt(s: &Option<String>) -> (r: Option<String>)
    ensures
        r == *s,
{
    match s {
        Some(t) => Some(t.clone()),
        None => None,
    }
}

impl Node {
    /// The first choice of the node with the given id; `None` if it has none.
    pub fn find_choice(&self, id: &str) -> (r: Option<&Choice>)
        ensures
            match r {
                Some(c) => self@.choice(id@) == Some(c@),
                None => self@.choice(id@) is None,
            },
    {
        // Ids are compared as owned strings, one copy of the key for the search.
        let key = id.to_owned();
        let mut i: usize = 0;
        while i < self.choices.len()
            invariant
                i <= self.choices.len(),
                key@ == id@,
                forall|j: int| 0 <= j < i ==> (#[trigger] self@.choices[j]).id != id@,
            decreases self.choices.len() - i,
        {
            if self.choices[i].id == key {
                proof {
                    assert(is_first(self@.choices, choice_with_id(id@), i as int));
                    lemma_first_index(self@.choices, choice_with_id(id@));
                }
                return Some(&self.choices[i]);
            }
            i += 1;
        }
        proof {
            assert(none_is(self@.choices, choice_with_id(id@)));
            lemma_first_index(self@.choices, choice_with_id(id@));
        }
        None
    }
}

impl Campaign {
    /// The first node with the given id; `None` if the campaign has none.
    pub fn find_node(&self, id: &str) -> (r: Option<&Node>)
        ensures
            match r {
                Some(node) => self@.has_node(id@) && node@ == self@.node(id@),
                None => !self@.has_node(id@),
            },
    {
        // Ids are compared as owned strings, one copy of the key for the search.
        let key = id.to_owned();
        let mut i: usize = 0;
        while i < self.nodes.len()
            invariant
                i <= self.nodes.len(),
                key@ == id@,
                forall|j: int| 0 <= j < i ==> (#[trigger] self@.nodes[j]).id != id@,
            decreases self.nodes.len() - i,
        {
            if self.nodes[i].id == key {
                proof {
                    assert(is_first(self@.nodes, node_with_id(id@), i as int));
                    lemma_first_index(self@.nodes, node_with_id(id@));
                }
                return Some(&self.nodes[i]);
            }
            i += 1;
        }
        proof {
            assert(none_is(self@.nodes, node_with_id(id@)));
            lemma_first_index(self@.nodes, node_with_id(id@));
        }
        None
    }

    /// Whether a target, if one is set, is a node of the campaign.
    pub fn resolves(&self, target: &Option<String>) -> (r: bool)
        ensures
            r == self@.resolves(opt_text(*target)),
    {
        match target {
            Some(id) => self.find_node(id.as_str()).is_some(),
            None => true,
        }
    }

    /// Whether every target of a choice is a node of the campaign.
    pub fn choice_resolves(&self, choice: &Choice) -> (r: bool)
        ensures
            r == self@.choice_resolves(choice@),
    {
        if !self.resolves(&choice.next) {
            return false;
        }
        match &choice.skill_check {
            Some(check) => self.resolves(&check.success_next) && self.resolves(
                &check.failure_next,
            ),
            None => true,
        }
    }

    /// Whether every target of a node and of its choices is a node of the
    /// campaign.
    pub fn node_resolves(&self, node: &Node) -> (r: bool)
        ensures
            r == self@.node_resolves(node@),
    {
        if !self.resolves(&node.on_victory) || !self.resolves(&node.on_defeat) {
            return false;
        }
        let mut i: usize = 0;
        while i < node.choices.len()
            invariant
                i <= node.choices.len(),
                self@.resolves(node@.on_victory),
                self@.resolves(node@.on_defeat),
                forall|j: int| 0 <= j < i ==> self@.choice_resolves(#[trigger] node@.choices[j]),
            decreases node.choices.len() - i,
        {
            if !self.choice_resolves(&node.choices[i]) {
                assert(!self@.choice_resolves(node@.choices[i as int]));
                return false;
            }
            i += 1;
        }
        true
    }

    /// Whether the graph is whole: the start node exists, and so does every
    /// node that a choice, a skill check or the outcome of a fight leads to.
    pub fn is_well_formed(&self) -> (r: bool)
        ensures
            r == self@.well_formed(),
    {
        if self.find_node(self.start_node_id.as_str()).is_none() {
            return false;
        }
        let mut i: usize = 0;
        while i < self.nodes.len()
            invariant
                i <= self.nodes.len(),
                self@.has_node(self@.start_node_id),
                forall|j: int| 0 <= j < i ==> self@.node_resolves(#[trigger] self@.nodes[j]),
            decreases self.nodes.len() - i,
        {
            if !self.node_resolves(&self.nodes[i]) {
                assert(!self@.node_resolves(self@.nodes[i as int]));
                return false;
            }
            i += 1;
        }
        true
    }

    /// What the player is shown in the given state. The state's current node
    /// must be one of the campaign's.
    pub fn view_node(&self, state: &GameState) -> (view: NodeView)
        requires
            self@.has_node(state@.current_node_id),
        ensures
            view@ == self@.view_of(state@),
    {
        let node = match self.find_node(state.current_node_id.as_str()) {
            Some(node) => node,
            None => unreached(),
        };
        let mut choices: Vec<ChoiceView> = Vec::new();
        if node.kind != NodeType::End {
            let mut i: usize = 0;
            while i < node.choices.len()
                invariant
                    i <= node.choices.len(),
                    choices@.len() == i,
                    forall|j: int|
                        0 <= j < i ==> (#[trigger] choices@[j])@ == shown_choice(node@.choices[j]),
                decreases node.choices.len() - i,
            {
                let choice = &node.choices[i];
                choices.push(ChoiceView { id: choice.id.clone(), label: choice.label.clone() });
                i += 1;
            }
        }
        let summary = CharacterSummary {
            name: state.character.name.clone(),
            level: state.character.level,
            current_hp: state.character.current_hp,
            max_hp: state.character.max_hp,
        };
        let mut text: Vec<String> = Vec::new();
        let mut k: usize = 0;
        while k < node.text.len()
            invariant
                k <= node.text.len(),
                text@.len() == k,
                forall|j: int| 0 <= j < k ==> (#[trigger] text@[j])@ == node.text@[j]@,
            decreases node.text.len() - k,
        {
            text.push(node.text[k].clone());
            k += 1;
        }
        assert(texts(text@) =~= node@.text);
        match &state.last_log {
            Some(log) => {
                if !log.as_str().is_empty() {
                    text.push(String::new());
                    text.push(log.clone());
                    assert(texts(text@) =~= node@.text.push(Seq::empty()).push(log@));
                }
            },
            None => {},
        }
        let view = NodeView {
            title: copy_opt(&node.title),
            text,
            choices,
            character_summary: summary,
            log: copy_opt(&state.last_log),
        };
        assert(view@.choices =~= self@.view_of(state@).choices);
        view
    }

    /// Applies a choice to the session. What happens depends on the kind of
    /// the current node alone: an ending only reports that the adventure is
    /// over, whatever was chosen. The current node must be one of the
    /// campaign's and, if it is a combat node, a round must be possible.
    pub fn apply_choice(&self, choice_id: &str, state: &mut GameState, dice: &mut DiceRoller)
        requires
            self@.accepts(old(state)@),
        ensures
            (final(state)@, *final(dice)) == self@.step(old(state)@, choice_id@, *old(dice)),
            old(state)@.dice_sound() ==> final(state)@.dice_sound(),
            self@.well_formed() ==> self@.has_node(final(state)@.current_node_id),
    {
        proof {
            if self@.well_formed() {
                lemma_step_stays_in_graph(self@, state@, choice_id@, *dice);
            }
        }
        let node = match self.find_node(state.current_node_id.as_str()) {
            Some(node) => node,
            None => unreached(),
        };
        match node.kind {
            NodeType::Narrative => self.apply_narrative_choice(node, choice_id, state, dice),
            NodeType::Combat => self.apply_combat_choice(node, choice_id, state, dice),
            NodeType::End => {
                state.last_log = Some(String::from_str("The adventure is over."));
            },
        }
    }
}

} // verus!
