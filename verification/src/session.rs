//! A session handle for callers that cannot promise anything: every call
//! says what went wrong instead of asking for it not to happen.

use crate::campaign::Campaign;
use crate::campaign::NodeView;
use crate::engine::Engine;
use crate::rules::Character;
use vstd::prelude::*;
use vstd::string::StringExecFns;

verus! {

/// Why a call on a session did nothing.
#[derive(Clone, Copy, Debug, PartialEq, Eq, Structural)]
pub enum SessionError {
    /// No engine was set up yet.
    NotInitialized,
    /// The session is at a node that the campaign does not have, or holds a
    /// monster whose damage dice cannot be thrown.
    BrokenContent,
}

impl SessionError {
    /// The text of the error.
    pub open spec fn text(self) -> Seq<char> {
        match self {
            SessionError::NotInitialized => "Engine not initialized"@,
            SessionError::BrokenContent => "Broken content graph"@,
        }
    }

    /// The text of the error.
    pub fn message(&self) -> (r: String)
        ensures
            r@ == self.text(),
    {
        match self {
            SessionError::NotInitialized => String::from_str("Engine not initialized"),
            SessionError::BrokenContent => String::from_str("Broken content graph"),
        }
    }
}

/// A place for one engine, empty until one is set up.
pub struct Session {
    pub engine: Option<Engine>,
}

impl Session {
    /// A session without an engine.
    pub fn new() -> (session: Self)
        ensures
            session.engine is None,
    {
        Session { engine: None }
    }

    /// Sets up an engine for a campaign and a character, in place of any
    /// that was there.
    pub fn init_engine_internal(&mut self, campaign: Campaign, character: Character, seed: u64)
        ensures
            final(self).engine matches Some(engine) && engine.campaign == campaign && engine.opens(
                campaign@,
                character@,
                seed,
            ),
    {
        self.engine = Some(Engine::new(campaign, character, seed));
    }

    /// What the player is shown now. Nothing changes.
    pub fn current_view_internal(&self) -> (r: Result<NodeView, SessionError>)
        ensures
            match self.engine {
                None => r == Err::<NodeView, SessionError>(SessionError::NotInitialized),
                Some(engine) => if engine.campaign@.has_node(engine.state@.current_node_id) {
                    r matches Ok(view) && view@ == engine.shown()
                } else {
                    r == Err::<NodeView, SessionError>(SessionError::BrokenContent)
                },
            },
    {
        match &self.engine {
            None => Err(SessionError::NotInitialized),
            Some(engine) => {
                if engine.campaign.find_node(engine.state.current_node_id.as_str()).is_some() {
                    Ok(engine.current_view())
                } else {
                    Err(SessionError::BrokenContent)
                }
            },
        }
    }

    /// Advances the session by one choice, if it can take one; otherwise the
    /// session is left as it was.
    pub fn choose_internal(&mut self, choice_id: &str) -> (r: Result<(), SessionError>)
        ensures
            match old(self).engine {
                None => r == Err::<(), SessionError>(SessionError::NotInitialized) && *final(self)
                    == *old(self),
                Some(before) => if before.ready() {
                    &&& r is Ok
                    &&& final(self).engine matches Some(after) && after.follows(before, choice_id@)
                } else {
                    r == Err::<(), SessionError>(SessionError::BrokenContent) && *final(self)
                        == *old(self)
                },
            },
    {
        match &mut self.engine {
            None => Err(SessionError::NotInitialized),
            Some(engine) => {
                if engine.is_ready() {
                    engine.make_choice(choice_id);
                    Ok(())
                } else {
                    Err(SessionError::BrokenContent)
                }
            },
        }
    }
}

} // verus!
