//! Quest records: which element a chapter asks for, what it rewards, and
//! which station it unlocks.

use vstd::prelude::*;

use crate::element::Element;
use crate::npc::NpcKind;

verus! {

#[derive(Debug, Clone, Copy, PartialEq, Eq, Structural)]
pub enum CraftingTable {
    Furnace,
    Mixer,
    Slicer,
}

/// One chapter's goal: craft `result`; completing it may grant rewards and
/// unlock a crafting table.
#[derive(Debug)]
pub struct Quest {
    pub result: Element,
    pub rewards: Option<Vec<Element>>,
    pub crafting_table: Option<CraftingTable>,
    pub npc: NpcKind,
}

impl Quest {
    pub fn new(
        result: Element,
        rewards: Option<Vec<Element>>,
        crafting_table: Option<CraftingTable>,
        npc: NpcKind,
    ) -> (q: Quest)
        ensures
            q.result == result,
            q.rewards == rewards,
            q.crafting_table == crafting_table,
            q.npc == npc,
    {
        Quest { result, rewards, crafting_table, npc }
    }
}

/// The tutorial chapter's quest line, in story order.
pub fn setup_quests() -> (qs: Vec<Quest>)
    ensures
        qs@.len() == 3,
        qs@[0].result.id@ == "glacier_ice"@,
        qs@[0].crafting_table == Some(CraftingTable::Slicer),
        qs@[1].result.id@ == "shaved_ice"@,
        qs@[1].crafting_table == Some(CraftingTable::Mixer),
        qs@[1].rewards matches Some(rw) && rw@.len() == 1 && rw@[0].id@ == "legend_dairy"@,
        qs@[2].result.id@ == "utter_ice_cream"@,
        qs@[2].crafting_table is None,
        forall|i: int| 0 <= i < 3 ==> (#[trigger] qs@[i]).npc == NpcKind::Squee,
{
    let mut qs: Vec<Quest> = Vec::new();
    qs.push(Quest::new(Element::glacier_ice(), None, Some(CraftingTable::Slicer), NpcKind::Squee));
    let mut reward: Vec<Element> = Vec::new();
    reward.push(Element::legend_dairy());
    qs.push(
        Quest::new(Element::shaved_ice(), Some(reward), Some(CraftingTable::Mixer), NpcKind::Squee),
    );
    qs.push(Quest::new(Element::utter_ice_cream(), None, None, NpcKind::Squee));
    qs
}

} // verus!
