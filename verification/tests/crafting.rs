use fantastical_kitchen::element::Element;
use fantastical_kitchen::furnace::FurnaceRecipe;
use fantastical_kitchen::game::GameManager;
use fantastical_kitchen::gameflow::EventCaller;
use fantastical_kitchen::mixer::{get_result, MixerRecipe};
use fantastical_kitchen::npc::{Npc, NpcKind};
use fantastical_kitchen::quest::setup_quests;
use fantastical_kitchen::registry::{MixerRecipeIden, Registry};
use fantastical_kitchen::segment::{CraftingSegment, Segment};
use fantastical_kitchen::slicer::SlicerRecipe;
use fantastical_kitchen::npc::standard_npcs;
use fantastical_kitchen::ui::{
    check_for_furnace_craft, check_for_mixer_craft, check_for_slicer_craft, refresh_slots,
    CraftOutcome, CraftType, Slot, UiData,
};

fn elem(id: &str) -> Element {
    Element::new(id, id, "")
}

fn game_with_one_npc() -> GameManager {
    let mut game = GameManager::default();
    game.npc_data.npcs.push(Npc {
        kind: NpcKind::Squee,
        name: "Squee".to_string(),
        sprite_path: "sprites/squee.png".to_string(),
        talking_index: 0,
    });
    game
}

#[test]
fn element_identity_is_the_id() {
    let a = Element::new("Yeti Water", "yeti_water", "water");
    let b = Element::new("Other Name", "yeti_water", "other text");
    let c = Element::new("Yeti Water", "glacier_ice", "water");
    assert!(a == b);
    assert!(a != c);
    assert_eq!(a.sprite_file_path(), "sprites/yeti_water.png");
}

#[test]
fn recipe_ids_join_the_element_ids() {
    let m = MixerRecipe::new(elem("a"), elem("b"), elem("c"));
    assert_eq!(m.id(), "a_b_c");
    let f = FurnaceRecipe::new(elem("fuel"), elem("obj"), elem("res"));
    assert_eq!(f.id(), "fuel_obj");
    let s = SlicerRecipe::new(elem("obj"), elem("res"));
    assert_eq!(s.id(), "obj_res");
}

#[test]
fn mixer_iden_is_unordered() {
    assert!(MixerRecipeIden::new("a", "b") == MixerRecipeIden::new("b", "a"));
    assert!(MixerRecipeIden::new("a", "b") == MixerRecipeIden::new("a", "b"));
    assert!(MixerRecipeIden::new("a", "b") != MixerRecipeIden::new("a", "c"));
}

#[test]
fn registry_holds_the_recipe_book() {
    let registry = Registry::default();
    assert_eq!(registry.mixer_recipe_registry.len(), 13);
    assert_eq!(registry.furnace_recipe_registry.len(), 7);
    assert_eq!(registry.slicer_recipe_registry.len(), 8);
}

#[test]
fn mixer_lookup_ignores_order() {
    let registry = Registry::default();
    let a = get_result(&elem("shaved_ice"), &elem("legend_dairy"), &registry);
    assert_eq!(a.unwrap().id, "utter_ice_cream");
    let b = get_result(&elem("legend_dairy"), &elem("shaved_ice"), &registry);
    assert_eq!(b.unwrap().id, "utter_ice_cream");
    assert!(get_result(&elem("legend_dairy"), &elem("legend_dairy"), &registry).is_none());
}

#[test]
fn furnace_lookup_is_ordered() {
    let registry = Registry::default();
    let ok = registry.find_furnace_recipe(&elem("frost_dragon_scale"), &elem("yeti_water"));
    assert_eq!(ok.unwrap().result.id, "glacier_ice");
    // fuel and object are not interchangeable
    assert!(registry
        .find_furnace_recipe(&elem("yeti_water"), &elem("frost_dragon_scale"))
        .is_none());
    let boiled = registry.find_furnace_recipe(&elem("magma_pepper"), &elem("yeti_water"));
    assert_eq!(boiled.unwrap().result.id, "boiling_water");
}

#[test]
fn slicer_lookup_by_object() {
    let registry = Registry::default();
    let ok = registry.find_slicer_recipe(&elem("glacier_ice"));
    assert_eq!(ok.unwrap().result.id, "shaved_ice");
    assert!(registry.find_slicer_recipe(&elem("salad")).is_none());
}

#[test]
fn mixer_craft_outcomes() {
    let registry = Registry::default();
    let mut ui = UiData::default();

    // nothing happens until both slots are filled
    let mut s1 = Slot::with_index_changable(0);
    let mut s2 = Slot::with_index_changable(1);
    s1.element = Some(elem("shaved_ice"));
    assert!(check_for_mixer_craft(&mut s1, &mut s2, &registry, &mut ui).is_none());
    assert!(s1.element.is_some());

    // a successful craft empties the slots and records the discovery
    s2.element = Some(elem("legend_dairy"));
    match check_for_mixer_craft(&mut s1, &mut s2, &registry, &mut ui) {
        Some(CraftOutcome::Crafted(e)) => assert_eq!(e.id, "utter_ice_cream"),
        other => panic!("expected a craft, got {:?}", other),
    }
    assert!(s1.element.is_none() && s2.element.is_none());
    assert_eq!(ui.known_elements().len(), 1);

    // crafting the same thing again is reported as repeated
    s1.element = Some(elem("legend_dairy"));
    s2.element = Some(elem("shaved_ice"));
    match check_for_mixer_craft(&mut s1, &mut s2, &registry, &mut ui) {
        Some(CraftOutcome::Repeated(t)) => assert_eq!(t, CraftType::MIXER),
        other => panic!("expected a repeat, got {:?}", other),
    }
    assert_eq!(ui.known_elements().len(), 1);

    // an unknown pair fails and consumes the ingredients
    s1.element = Some(elem("salad"));
    s2.element = Some(elem("ramen"));
    match check_for_mixer_craft(&mut s1, &mut s2, &registry, &mut ui) {
        Some(CraftOutcome::Failed(t)) => assert_eq!(t, CraftType::MIXER),
        other => panic!("expected a failure, got {:?}", other),
    }
    assert!(s1.element.is_none() && s2.element.is_none());
}

#[test]
fn furnace_and_slicer_craft_outcomes() {
    let registry = Registry::default();
    let mut ui = UiData::default();

    let mut fuel = Slot::with_index_changable(0);
    let mut object = Slot::with_index_changable(1);
    fuel.element = Some(elem("frost_dragon_scale"));
    object.element = Some(elem("yeti_water"));
    match check_for_furnace_craft(&mut fuel, &mut object, &registry, &mut ui) {
        Some(CraftOutcome::Crafted(e)) => assert_eq!(e.id, "glacier_ice"),
        other => panic!("expected a craft, got {:?}", other),
    }

    let mut board = Slot::with_index_changable(2);
    board.element = Some(elem("glacier_ice"));
    match check_for_slicer_craft(&mut board, &registry, &mut ui) {
        Some(CraftOutcome::Crafted(e)) => assert_eq!(e.id, "shaved_ice"),
        other => panic!("expected a craft, got {:?}", other),
    }
    board.element = Some(elem("yeti_water"));
    match check_for_slicer_craft(&mut board, &registry, &mut ui) {
        Some(CraftOutcome::Failed(t)) => assert_eq!(t, CraftType::SLICER),
        other => panic!("expected a failure, got {:?}", other),
    }
    assert_eq!(ui.known_elements().len(), 2);
}

#[test]
fn crafting_challenge_craft_based() {
    // the goal element crafted at any station completes the challenge
    let mut seg = Segment::Crafting(
        CraftingSegment::new(elem("ice_cream"), true).with_hint("try crafting"),
    );
    let mut game = game_with_one_npc();
    let mut caller = EventCaller::default();
    seg.on_item_crafted(&mut game, &mut caller, &elem("water"));
    assert!(!seg.is_complete());
    // "water" has no registered comment, so nothing is said either
    assert!(caller.say_event.is_none());
    seg.on_item_crafted(&mut game, &mut caller, &elem("ice_cream"));
    assert!(seg.is_complete());
}

#[test]
fn crafting_challenge_handoff_based() {
    // with advance_on_craft off, crafting the goal is not enough: it has
    // to be handed to the actor
    let mut seg = Segment::Crafting(
        CraftingSegment::new(elem("ice_cream"), false).with_hint("bring it over"),
    );
    let mut game = game_with_one_npc();
    let mut caller = EventCaller::default();
    seg.on_item_crafted(&mut game, &mut caller, &elem("ice_cream"));
    assert!(!seg.is_complete());
    seg.on_npc_drop(&mut game, &mut caller, &elem("ice_cream"));
    assert!(seg.is_complete());
}

#[test]
fn comment_and_completion_are_independent() {
    let mut seg = Segment::Crafting(
        CraftingSegment::new(elem("salad"), true)
            .with_hint("hint")
            .with_comment(&elem("salad"), "there it is"),
    );
    let mut game = game_with_one_npc();
    let mut caller = EventCaller::default();
    seg.on_item_crafted(&mut game, &mut caller, &elem("salad"));
    // the same event both comments and completes
    assert_eq!(caller.say_event.unwrap().text, "there it is");
    assert!(seg.is_complete());
}

#[test]
fn hint_cycling_wraps() {
    let mut seg = Segment::Crafting(
        CraftingSegment::new(elem("salad"), true)
            .with_hint("one")
            .with_hint("two")
            .with_hint("three"),
    );
    let mut game = game_with_one_npc();
    let expected = ["one", "two", "three", "one", "two"];
    for want in expected.iter() {
        let mut caller = EventCaller::default();
        seg.on_npc_click(&mut game, &mut caller);
        assert_eq!(&caller.say_event.unwrap().text, want);
    }
}

#[test]
fn element_book_deduplicates_and_pages() {
    let mut ui = UiData::default();
    assert!(!ui.can_move_up());
    assert!(!ui.can_move_down());
    for i in 0..11 {
        ui.add_element(Element::new("E", &format!("e{}", i), ""));
    }
    assert_eq!(ui.known_elements().len(), 11);
    assert_eq!(ui.number_of_pages(), 0);
    // a duplicate id is not recorded twice
    ui.add_element(Element::new("Again", "e3", "same id"));
    assert_eq!(ui.known_elements().len(), 11);
    // the twelfth element fills the first page
    ui.add_element(Element::new("E", "e11", ""));
    assert_eq!(ui.known_elements().len(), 12);
    assert_eq!(ui.number_of_pages(), 1);
    assert!(ui.can_move_down());
    ui.current_page = 1;
    assert!(ui.can_move_up());
    assert!(!ui.can_move_down());
}

#[test]
fn slots_window_the_open_page() {
    let mut ui = UiData::default();
    for i in 0..14 {
        ui.add_element(Element::new("E", &format!("e{}", i), ""));
    }
    let mut slots: Vec<Slot> = (0..12).map(Slot::with_index).collect();

    refresh_slots(&mut slots, &ui);
    assert_eq!(slots[0].element.as_ref().unwrap().id, "e0");
    assert_eq!(slots[11].element.as_ref().unwrap().id, "e11");

    ui.current_page = 1;
    refresh_slots(&mut slots, &ui);
    assert_eq!(slots[0].element.as_ref().unwrap().id, "e12");
    assert_eq!(slots[1].element.as_ref().unwrap().id, "e13");
    // the page runs past the known elements: those slots are emptied
    assert!(slots[2].element.is_none());
    assert!(slots[11].element.is_none());
}

#[test]
fn the_story_cast_in_order() {
    let cast = standard_npcs();
    assert_eq!(cast.len(), 5);
    assert_eq!(cast[0].name, "Squee the Thumbless");
    assert_eq!(cast[1].kind, NpcKind::Conrad);
    assert_eq!(cast[2].name, "Pumpkinhead");
    assert_eq!(cast[4].kind, NpcKind::Gordon);
}

#[test]
fn quest_line_of_the_tutorial() {
    let quests = setup_quests();
    assert_eq!(quests.len(), 3);
    assert_eq!(quests[0].result.id, "glacier_ice");
    assert_eq!(quests[1].result.id, "shaved_ice");
    assert_eq!(quests[1].rewards.as_ref().unwrap()[0].id, "legend_dairy");
    assert_eq!(quests[2].result.id, "utter_ice_cream");
}
