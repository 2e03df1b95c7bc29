//! Inventory-book state, crafting slots, and the station crafting checks.

use vstd::prelude::*;

use crate::element::Element;
use crate::registry::{find_furnace, find_mixer, find_slicer, Registry};

verus! {

/// The three crafting stations.
#[allow(non_camel_case_types)]
#[derive(Debug, Clone, Copy, PartialEq, Eq, Structural)]
pub enum CraftType {
    SLICER,
    MIXER,
    FURNACE,
}

/// Whether some element of `s` carries the id `id`.
pub open spec fn contains_id(s: Seq<Element>, id: Seq<char>) -> bool {
    exists|i: int| 0 <= i < s.len() && (#[trigger] s[i]).id@ == id
}

/// How many element-book pages a collection of `n` elements fills beyond
/// the first, at twelve elements per page.
pub open spec fn pages_for(n: int) -> int {
    (n - n % 12) / 12
}

/// The player's discovered-element book and page cursor.
#[derive(Debug)]
pub struct UiData {
    /// The element the player is dragging, if any.
    pub currently_dragging: Option<Element>,
    /// The slot the pointer was last over; `u32::MAX` when over none.
    pub last_slot_hovered: u32,
    pub known_elements: Vec<Element>,
    pub amount_of_slots_indices: u32,
    pub number_of_pages: u32,
    pub current_page: u32,
}

impl UiData {
    pub fn can_move_up(&self) -> (r: bool)
        ensures
            r == (self.current_page != 0),
    {
        self.current_page != 0
    }

    pub fn can_move_down(&self) -> (r: bool)
        ensures
            r == (self.current_page != self.number_of_pages),
    {
        self.current_page != self.number_of_pages
    }

    /// Whether an element with this element's id is already known.
    pub fn knows(&self, element: &Element) -> (r: bool)
        ensures
            r == contains_id(self.known_elements@, element.id@),
    {
        let ghost s = self.known_elements@;
        let mut j: usize = 0;
        while j < self.known_elements.len()
            invariant
                j <= s.len(),
                self.known_elements@ == s,
                forall|i: int| 0 <= i < j ==> (#[trigger] s[i]).id@ != element.id@,
            decreases s.len() - j,
        {
            if self.known_elements[j] == *element {
                return true;
            }
            j = j + 1;
        }
        false
    }

    /// Record a newly discovered element: appended once, never twice, and
    /// the page count follows the book's size.
    pub fn add_element(&mut self, element: Element)
        requires
            old(self).known_elements@.len() < u32::MAX,
        ensures
            contains_id(old(self).known_elements@, element.id@) ==> *final(self) == *old(self),
            !contains_id(old(self).known_elements@, element.id@) ==> ({
                &&& *final(self) == (UiData {
                    known_elements: final(self).known_elements,
                    number_of_pages: final(self).number_of_pages,
                    ..*old(self)
                })
                &&& final(self).known_elements@ == old(self).known_elements@.push(element)
                &&& final(self).number_of_pages == pages_for(old(self).known_elements@.len() + 1 as int)
            }),
    {
        if !self.knows(&element) {
            self.unsafe_add(element);
        }
    }

    /// Append an element to the book without the duplicate check.
    pub fn unsafe_add(&mut self, element: Element)
        requires
            old(self).known_elements@.len() < u32::MAX,
        ensures
            *final(self) == (UiData {
                known_elements: final(self).known_elements,
                number_of_pages: final(self).number_of_pages,
                ..*old(self)
            }),
            final(self).known_elements@ == old(self).known_elements@.push(element),
            final(self).number_of_pages == pages_for(old(self).known_elements@.len() + 1 as int),
    {
        self.known_elements.push(element);
        let element_amount = self.known_elements.len();
        self.number_of_pages = ((element_amount - (element_amount % 12)) / 12) as u32;
    }

    pub fn number_of_pages(&self) -> (r: u32)
        ensures
            r == self.number_of_pages,
    {
        self.number_of_pages
    }

    pub fn known_elements(&self) -> (r: &Vec<Element>)
        ensures
            r == &self.known_elements,
    {
        &self.known_elements
    }
}

impl Default for UiData {
    fn default() -> (r: UiData)
        ensures
            r.currently_dragging is None,
            r.last_slot_hovered == u32::MAX,
            r.known_elements@.len() == 0,
            r.amount_of_slots_indices == 0,
            r.number_of_pages == 0,
            r.current_page == 0,
    {
        UiData {
            currently_dragging: None,
            last_slot_hovered: u32::MAX,
            known_elements: Vec::new(),
            amount_of_slots_indices: 0,
            number_of_pages: 0,
            current_page: 0,
        }
    }
}

//==================================================================================================
//                          Slot
//==================================================================================================

/// One inventory or station slot: its index and the element it holds.
#[derive(Debug)]
pub struct Slot {
    pub element: Option<Element>,
    pub index: u32,
    pub can_change: bool,
}

impl Slot {
    pub fn with_index(index: u32) -> (s: Slot)
        ensures
            s.element is None,
            s.index == index,
            !s.can_change,
    {
        Slot { index, ..Slot::default() }
    }

    pub fn with_index_changable(index: u32) -> (s: Slot)
        ensures
            s.element is None,
            s.index == index,
            s.can_change,
    {
        Slot { index, can_change: true, ..Slot::default() }
    }
}

impl Default for Slot {
    fn default() -> (s: Slot)
        ensures
            s.element is None,
            s.index == 0,
            !s.can_change,
    {
        Slot { index: 0, element: None, can_change: false }
    }
}

/// The element shown in the book slot with index `index` while the book is
/// open on page `page`: the twelve slots window the known elements.
pub open spec fn page_slot_element(known: Seq<Element>, page: int, index: int) -> Option<Element> {
    let at = index + page * 12;
    if 0 <= at < known.len() {
        Some(known[at])
    } else {
        None
    }
}

/// Refill every book slot from the page the book is open on; slots past
/// the known elements are emptied.
pub fn refresh_slots(slots: &mut Vec<Slot>, ui_manager: &UiData)
    ensures
        final(slots)@.len() == old(slots)@.len(),
        forall|i: int|
            0 <= i < old(slots)@.len() ==> (#[trigger] final(slots)@[i]) == (Slot {
                element: page_slot_element(
                    ui_manager.known_elements@,
                    ui_manager.current_page as int,
                    old(slots)@[i].index as int,
                ),
                ..old(slots)@[i]
            }),
{
    let ghost orig = slots@;
    let mut i: usize = 0;
    while i < slots.len()
        invariant
            i <= orig.len(),
            slots@.len() == orig.len(),
            forall|j: int|
                0 <= j < i ==> (#[trigger] slots@[j]) == (Slot {
                    element: page_slot_element(
                        ui_manager.known_elements@,
                        ui_manager.current_page as int,
                        orig[j].index as int,
                    ),
                    ..orig[j]
                }),
            forall|j: int| i <= j < orig.len() ==> (#[trigger] slots@[j]) == orig[j],
        decreases orig.len() - i,
    {
        let index = slots[i].index as u64 + (ui_manager.current_page as u64) * 12;
        let element = if index < ui_manager.known_elements.len() as u64 {
            Some(ui_manager.known_elements[index as usize].clone())
        } else {
            None
        };
        let s = Slot { element, index: slots[i].index, can_change: slots[i].can_change };
        slots.set(i, s);
        i = i + 1;
    }
}

//==================================================================================================
//                          Station crafting checks
//==================================================================================================

/// What one crafting attempt produced, for the host to announce.
#[derive(Debug)]
pub enum CraftOutcome {
    /// A new element: granted and recorded in the book.
    Crafted(Element),
    /// The recipe exists but its result is already known.
    Repeated(CraftType),
    /// No recipe matches what was in the slots.
    Failed(CraftType),
}

/// One mixer pass: with both slots filled, consume them and resolve the
/// unordered pair against the registry. A craft of something new records
/// it in the book.
pub fn check_for_mixer_craft(
    slot_1: &mut Slot,
    slot_2: &mut Slot,
    registry: &Registry,
    ui_data: &mut UiData,
) -> (r: Option<CraftOutcome>)
    requires
        old(ui_data).known_elements@.len() < u32::MAX,
    ensures
        (old(slot_1).element is None || old(slot_2).element is None) ==> ({
            &&& r is None
            &&& *final(slot_1) == *old(slot_1)
            &&& *final(slot_2) == *old(slot_2)
            &&& *final(ui_data) == *old(ui_data)
        }),
        old(slot_1).element matches Some(e1) ==> old(slot_2).element matches Some(e2) ==> ({
            &&& *final(slot_1) == (Slot { element: None, ..*old(slot_1) })
            &&& *final(slot_2) == (Slot { element: None, ..*old(slot_2) })
            &&& (match find_mixer(registry.mixer_recipe_registry@, e1.id@, e2.id@) {
                Some(rec) => {
                    if contains_id(old(ui_data).known_elements@, rec.result.id@) {
                        &&& r matches Some(o) && o matches CraftOutcome::Repeated(t) && t
                            == CraftType::MIXER
                        &&& *final(ui_data) == *old(ui_data)
                    } else {
                        &&& r matches Some(o) && o matches CraftOutcome::Crafted(res) && res
                            == rec.result
                        &&& final(ui_data).known_elements@ == old(ui_data).known_elements@.push(
                            rec.result,
                        )
                    }
                },
                None => {
                    &&& r matches Some(o) && o matches CraftOutcome::Failed(t) && t
                        == CraftType::MIXER
                    &&& *final(ui_data) == *old(ui_data)
                },
            })
        }),
{
    if slot_1.element.is_some() && slot_2.element.is_some() {
        let element_1 = slot_1.element.as_ref().unwrap().clone();
        let element_2 = slot_2.element.as_ref().unwrap().clone();
        slot_1.element = None;
        slot_2.element = None;
        let outcome = match registry.find_mixer_recipe(&element_1, &element_2) {
            Some(recipe) => {
                let result = recipe.result.clone();
                if !ui_data.knows(&result) {
                    ui_data.add_element(result.clone());
                    CraftOutcome::Crafted(result)
                } else {
                    CraftOutcome::Repeated(CraftType::MIXER)
                }
            },
            None => CraftOutcome::Failed(CraftType::MIXER),
        };
        Some(outcome)
    } else {
        None
    }
}

/// One furnace pass: with fuel and object present, consume them and
/// resolve the ordered pair against the registry.
pub fn check_for_furnace_craft(
    fuel_slot: &mut Slot,
    object_slot: &mut Slot,
    registry: &Registry,
    ui_data: &mut UiData,
) -> (r: Option<CraftOutcome>)
    requires
        old(ui_data).known_elements@.len() < u32::MAX,
    ensures
        (old(fuel_slot).element is None || old(object_slot).element is None) ==> ({
            &&& r is None
            &&& *final(fuel_slot) == *old(fuel_slot)
            &&& *final(object_slot) == *old(object_slot)
            &&& *final(ui_data) == *old(ui_data)
        }),
        old(fuel_slot).element matches Some(fuel) ==> old(object_slot).element matches Some(obj)
            ==> ({
            &&& *final(fuel_slot) == (Slot { element: None, ..*old(fuel_slot) })
            &&& *final(object_slot) == (Slot { element: None, ..*old(object_slot) })
            &&& (match find_furnace(registry.furnace_recipe_registry@, fuel.id@, obj.id@) {
                Some(rec) => {
                    if contains_id(old(ui_data).known_elements@, rec.result.id@) {
                        &&& r matches Some(o) && o matches CraftOutcome::Repeated(t) && t
                            == CraftType::FURNACE
                        &&& *final(ui_data) == *old(ui_data)
                    } else {
                        &&& r matches Some(o) && o matches CraftOutcome::Crafted(res) && res
                            == rec.result
                        &&& final(ui_data).known_elements@ == old(ui_data).known_elements@.push(
                            rec.result,
                        )
                    }
                },
                None => {
                    &&& r matches Some(o) && o matches CraftOutcome::Failed(t) && t
                        == CraftType::FURNACE
                    &&& *final(ui_data) == *old(ui_data)
                },
            })
        }),
{
    if fuel_slot.element.is_some() && object_slot.element.is_some() {
        let element_1 = fuel_slot.element.as_ref().unwrap().clone();
        let element_2 = object_slot.element.as_ref().unwrap().clone();
        fuel_slot.element = None;
        object_slot.element = None;
        let outcome = match registry.find_furnace_recipe(&element_1, &element_2) {
            Some(recipe) => {
                let result = recipe.result.clone();
                if !ui_data.knows(&result) {
                    ui_data.add_element(result.clone());
                    CraftOutcome::Crafted(result)
                } else {
                    CraftOutcome::Repeated(CraftType::FURNACE)
                }
            },
            None => CraftOutcome::Failed(CraftType::FURNACE),
        };
        Some(outcome)
    } else {
        None
    }
}

/// One slicer pass: with the board filled, consume it and resolve the
/// object against the registry.
pub fn check_for_slicer_craft(slot: &mut Slot, registry: &Registry, ui_data: &mut UiData) -> (r:
    Option<CraftOutcome>)
    requires
        old(ui_data).known_elements@.len() < u32::MAX,
    ensures
        old(slot).element is None ==> ({
            &&& r is None
            &&& *final(slot) == *old(slot)
            &&& *final(ui_data) == *old(ui_data)
        }),
        old(slot).element matches Some(obj) ==> ({
            &&& *final(slot) == (Slot { element: None, ..*old(slot) })
            &&& (match find_slicer(registry.slicer_recipe_registry@, obj.id@) {
                Some(rec) => {
                    if contains_id(old(ui_data).known_elements@, rec.result.id@) {
                        &&& r matches Some(o) && o matches CraftOutcome::Repeated(t) && t
                            == CraftType::SLICER
                        &&& *final(ui_data) == *old(ui_data)
                    } else {
                        &&& r matches Some(o) && o matches CraftOutcome::Crafted(res) && res
                            == rec.result
                        &&& final(ui_data).known_elements@ == old(ui_data).known_elements@.push(
                            rec.result,
                        )
                    }
                },
                None => {
                    &&& r matches Some(o) && o matches CraftOutcome::Failed(t) && t
                        == CraftType::SLICER
                    &&& *final(ui_data) == *old(ui_data)
                },
            })
        }),
{
    if slot.element.is_some() {
        let element = slot.element.as_ref().unwrap().clone();
        slot.element = None;
        let outcome = match registry.find_slicer_recipe(&element) {
            Some(recipe) => {
                let result = recipe.result.clone();
                if !ui_data.knows(&result) {
                    ui_data.add_element(result.clone());
                    CraftOutcome::Crafted(result)
                } else {
                    CraftOutcome::Repeated(CraftType::SLICER)
                }
            },
            None => CraftOutcome::Failed(CraftType::SLICER),
        };
        Some(outcome)
    } else {
        None
    }
}

} // verus!
