//! Shared game state threaded through the gameflow: the actor directory
//! and a few flags the surrounding host reads.

use vstd::prelude::*;

use crate::npc::{NPCData, Npc, NpcKind};

verus! {

#[derive(Debug, Clone, Copy, PartialEq, Eq, Structural)]
pub enum GameStatus {
    QuestInProgress,
    QuestComplete,
    AllQuestsComplete,
}

/// Context object handed to every segment hook. Dispatch is single-threaded
/// and only the actor-transition segment ever moves the actor pointer.
#[derive(Debug, Clone)]
pub struct GameManager {
    pub npc_data: NPCData,
    pub npc: NpcKind,
    pub status: GameStatus,
    /// Whether the host currently lets the player use the crafting UI.
    /// The flow itself asks for changes through the effect batch; the host
    /// mirrors them here.
    pub can_use_ui: bool,
}

/// The mathematical state of a [`GameManager`].
pub struct GameView {
    pub npcs: Seq<Npc>,
    pub current_npc: int,
    pub npc: NpcKind,
    pub status: GameStatus,
    pub can_use_ui: bool,
}

impl View for GameManager {
    type V = GameView;

    open spec fn view(&self) -> GameView {
        GameView {
            npcs: self.npc_data.npcs@,
            current_npc: self.npc_data.current_npc as int,
            npc: self.npc,
            status: self.status,
            can_use_ui: self.can_use_ui,
        }
    }
}

impl GameView {
    /// Whether some actor is on stage.
    pub open spec fn has_current(self) -> bool {
        0 <= self.current_npc < self.npcs.len()
    }

    /// The state after bringing the next actor on stage.
    pub open spec fn advanced_npc(self) -> GameView {
        if self.has_current() {
            GameView { current_npc: self.current_npc + 1, ..self }
        } else {
            self
        }
    }
}

impl Default for GameManager {
    fn default() -> (r: GameManager)
        ensures
            r@.npcs.len() == 0,
            r@.current_npc == 0,
            r@.npc == NpcKind::Squee,
            r@.status == GameStatus::QuestComplete,
            !r@.can_use_ui,
    {
        GameManager {
            npc_data: NPCData::default(),
            npc: NpcKind::Squee,
            status: GameStatus::QuestComplete,
            can_use_ui: false,
        }
    }
}

} // verus!
