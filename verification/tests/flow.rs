use fantastical_kitchen::element::Element;
use fantastical_kitchen::game::GameManager;
use fantastical_kitchen::gameflow::{EventCaller, Gameflow, TickInput};
use fantastical_kitchen::npc::{Npc, NpcKind};
use fantastical_kitchen::segment::{
    CraftingSegment, GiveElementSegment, LoadToolSegment, MusicChangeSegment, NpcDialogueSegment,
    Segment, StartBossFightSegment, ToggleBossTimerSegment, TransitionSegment, WinGameSegment,
};
use fantastical_kitchen::audio::MusicTrack;
use fantastical_kitchen::ui::CraftType;

fn npc(kind: NpcKind, name: &str) -> Npc {
    Npc {
        kind,
        name: name.to_string(),
        sprite_path: format!("sprites/{}.png", name),
        talking_index: 0,
    }
}

fn game_with_cast(n: usize) -> GameManager {
    let mut game = GameManager::default();
    let kinds = [
        NpcKind::Squee,
        NpcKind::Conrad,
        NpcKind::Pumkinhead,
        NpcKind::Conrad,
        NpcKind::Gordon,
    ];
    for i in 0..n {
        game.npc_data.npcs.push(npc(kinds[i % kinds.len()], "npc"));
    }
    game
}

fn clicks(n: usize) -> TickInput {
    TickInput {
        npc_clicks: n,
        crafted: Vec::new(),
        dropped: Vec::new(),
    }
}

#[test]
fn terminal_tick_is_noop() {
    let mut g = Gameflow {
        segments: Vec::new(),
        current: 0,
        last: None,
    };
    let mut game = game_with_cast(1);
    for _ in 0..3 {
        let out = g.tick(&mut game, &TickInput::none());
        assert!(out.say_event.is_none());
        assert!(out.insert_element_event.is_none());
        assert!(out.load_tool_event.is_none());
        assert!(!out.setup_boss_event);
        assert!(!out.toggle_timer_event);
        assert!(!out.win_game_event);
        assert!(out.music_change_event.is_none());
        assert!(out.ui_interaction_event.is_none());
        assert_eq!(g.current, 0);
    }
}

#[test]
fn enter_fires_once_and_cursor_is_monotonic() {
    let mut g = Gameflow {
        segments: Vec::new(),
        current: 0,
        last: None,
    };
    g.add_segment(Segment::Dialogue(
        NpcDialogueSegment::new().with_line("a").with_line("b"),
    ));
    let mut game = game_with_cast(1);

    // first tick: the entry hook pops "a"
    let out = g.tick(&mut game, &TickInput::none());
    assert_eq!(out.say_event.as_ref().unwrap().text, "a");
    assert_eq!(g.current, 0);

    // second tick, no input: the entry hook must not fire again
    let out = g.tick(&mut game, &TickInput::none());
    assert!(out.say_event.is_none());
    assert_eq!(g.current, 0);

    // a click pops "b"; the queue is empty and consumed, so the segment
    // completes and the cursor advances by exactly one
    let out = g.tick(&mut game, &clicks(1));
    assert_eq!(out.say_event.as_ref().unwrap().text, "b");
    assert_eq!(g.current, 1);

    // terminal from now on
    let out = g.tick(&mut game, &clicks(1));
    assert!(out.say_event.is_none());
    assert_eq!(g.current, 1);
}

#[test]
fn dialogue_exhaustion() {
    let mut seg = NpcDialogueSegment::new().with_line("a").with_line("b");
    let game = game_with_cast(1);
    let mut caller = EventCaller::default();
    seg.do_next_phrase(&game, &mut caller);

    let mut seg = Segment::Dialogue(seg);
    let mut game = game_with_cast(1);
    let mut caller = EventCaller::default();
    seg.on_npc_click(&mut game, &mut caller);
    assert_eq!(caller.say_event.as_ref().unwrap().text, "b");
    let mut caller = EventCaller::default();
    seg.on_npc_click(&mut game, &mut caller);
    assert!(seg.is_complete());
    // no further lines remain to request
    assert!(caller.say_event.is_none());
}

#[test]
fn give_element_with_line_waits_for_click() {
    let mut seg = Segment::GiveElement(
        GiveElementSegment::new(Element::new("Yeti Water", "yeti_water", "")).with_line("here"),
    );
    let mut game = game_with_cast(1);
    let mut caller = EventCaller::default();
    assert!(!seg.is_complete());
    seg.on_segment_start(&mut game, &mut caller);
    assert_eq!(caller.insert_element_event.as_ref().unwrap().id, "yeti_water");
    assert_eq!(caller.say_event.as_ref().unwrap().text, "here");
    assert!(!seg.is_complete());
    let mut caller = EventCaller::default();
    seg.on_npc_click(&mut game, &mut caller);
    assert!(seg.is_complete());
}

#[test]
fn give_element_without_line_completes_immediately() {
    let mut seg =
        Segment::GiveElement(GiveElementSegment::new(Element::new("Yeti Water", "yeti_water", "")));
    let mut game = game_with_cast(1);
    let mut caller = EventCaller::default();
    seg.on_segment_start(&mut game, &mut caller);
    assert!(caller.insert_element_event.is_some());
    assert!(caller.say_event.is_none());
    assert!(seg.is_complete());
}

#[test]
fn load_tool_requests_station() {
    let mut seg = Segment::LoadTool(LoadToolSegment::new(CraftType::FURNACE));
    let mut game = game_with_cast(1);
    let mut caller = EventCaller::default();
    seg.on_segment_start(&mut game, &mut caller);
    assert_eq!(caller.load_tool_event, Some(CraftType::FURNACE));
    assert!(seg.is_complete());
}

#[test]
fn transition_actor_swap_timing() {
    let seg = TransitionSegment::new(vec!["out".to_string()], vec!["in".to_string()]);
    let mut seg = Segment::Transition(seg);
    let mut game = game_with_cast(2);
    assert_eq!(game.npc_data.current_npc, 0);

    // entry shows the first outgoing line; the actor must not swap yet
    let mut caller = EventCaller::default();
    seg.on_segment_start(&mut game, &mut caller);
    assert_eq!(caller.say_event.as_ref().unwrap().text, "out");
    assert_eq!(game.npc_data.current_npc, 0);
    assert!(!seg.is_complete());

    // the next acknowledgement swaps the actor, exactly between the last
    // outgoing and the first incoming line
    let mut caller = EventCaller::default();
    seg.on_npc_click(&mut game, &mut caller);
    assert_eq!(caller.say_event.as_ref().unwrap().text, "in");
    assert_eq!(game.npc_data.current_npc, 1);
    assert!(seg.is_complete());

    // over-clicking is a guarded no-op: the actor never moves again
    let mut caller = EventCaller::default();
    seg.on_npc_click(&mut game, &mut caller);
    assert!(caller.say_event.is_none());
    assert_eq!(game.npc_data.current_npc, 1);
}

#[test]
fn one_shot_segments_fire_and_complete() {
    let mut game = game_with_cast(1);

    let mut seg = Segment::MusicChange(MusicChangeSegment::change_too(MusicTrack::Boss));
    assert!(!seg.is_complete());
    let mut caller = EventCaller::default();
    seg.on_segment_start(&mut game, &mut caller);
    assert_eq!(caller.music_change_event, Some(MusicTrack::Boss));
    assert!(seg.is_complete());

    let mut seg = Segment::StartBossFight(StartBossFightSegment::default());
    let mut caller = EventCaller::default();
    seg.on_segment_start(&mut game, &mut caller);
    assert!(caller.setup_boss_event);
    assert!(seg.is_complete());

    let mut seg = Segment::ToggleBossTimer(ToggleBossTimerSegment::default());
    let mut caller = EventCaller::default();
    seg.on_segment_start(&mut game, &mut caller);
    assert!(caller.toggle_timer_event);
    assert!(seg.is_complete());

    let mut seg = Segment::WinGame(WinGameSegment::default());
    let mut caller = EventCaller::default();
    seg.on_segment_start(&mut game, &mut caller);
    assert!(caller.win_game_event);
    assert!(seg.is_complete());
}

#[test]
fn crafting_segment_toggles_ui_interaction() {
    let mut seg = Segment::Crafting(
        CraftingSegment::new(Element::new("Salad", "salad", ""), true).with_hint("h"),
    );
    let mut game = game_with_cast(1);
    let mut caller = EventCaller::default();
    seg.on_segment_start(&mut game, &mut caller);
    assert_eq!(caller.ui_interaction_event, Some(true));
    let mut caller = EventCaller::default();
    seg.on_segment_end(&mut game, &mut caller);
    assert_eq!(caller.ui_interaction_event, Some(false));
}

#[test]
fn full_script_plays_through_to_the_win() {
    let mut g = Gameflow::default();
    assert_eq!(g.segments.len(), 43);
    assert_eq!(g.current, 0);
    let mut game = game_with_cast(5);

    // every tick: one click, plus every chapter goal both crafted and
    // handed over, so each segment can finish whatever it waits for
    let goals = [
        "glacier_ice",
        "shaved_ice",
        "utter_ice_cream",
        "ice_cream_sandwich",
        "salad",
        "cut_sandwich",
        "ramen",
    ];
    let mut won = false;
    let mut previous: usize = 0;
    for _ in 0..500 {
        let input = TickInput {
            npc_clicks: 1,
            crafted: goals.iter().map(|id| Element::new(id, id, "")).collect::<Vec<Element>>(),
            dropped: goals.iter().map(|id| Element::new(id, id, "")).collect::<Vec<Element>>(),
        };
        let out = g.tick(&mut game, &input);
        assert!(g.current >= previous && g.current <= previous + 1);
        previous = g.current;
        if out.win_game_event {
            won = true;
        }
    }
    assert!(won);
    assert_eq!(g.current, 43);
    // the story handed the stage over four times
    assert_eq!(game.npc_data.current_npc, 4);
}
