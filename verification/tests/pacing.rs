use fantastical_kitchen::gameflow::EventCaller;
use fantastical_kitchen::npc::{NPCData, Npc, NpcKind, Say, CHAR_MILLIS};

fn squee() -> Npc {
    Npc {
        kind: NpcKind::Squee,
        name: "Squee the Thumbless".to_string(),
        sprite_path: "sprites/squee.png".to_string(),
        talking_index: 0,
    }
}

#[test]
fn char_weights() {
    // ordinary 1x, space 1.5x, comma 3x, sentence enders 6x the base time
    assert_eq!(Say::char_duration('H'), CHAR_MILLIS);
    assert_eq!(Say::char_duration('i'), 40);
    assert_eq!(Say::char_duration(' '), 60);
    assert_eq!(Say::char_duration(','), 120);
    assert_eq!(Say::char_duration('.'), 240);
    assert_eq!(Say::char_duration('!'), 240);
    assert_eq!(Say::char_duration('?'), 240);
}

#[test]
fn duration_of_hi() {
    // "Hi." = (1 + 1 + 6) x base time
    let say = Say::new("Hi.");
    assert_eq!(say.duration_millis, 8 * CHAR_MILLIS);
    assert_eq!(say.duration_millis, 320);
    assert_eq!(say.i, 0);
    assert_eq!(say.text, "Hi.");
}

#[test]
fn duration_sums_all_characters() {
    assert_eq!(Say::line_duration(""), 0);
    // 'a' + ' ' + 'b' + ','
    assert_eq!(Say::line_duration("a b,"), 40 + 60 + 40 + 120);
    assert_eq!(Say::line_duration("Who are you?"), 9 * 40 + 2 * 60 + 240);
}

#[test]
fn reveal_index_follows_the_clock() {
    let say = Say::new("Hi.");
    // the first character appears immediately and lasts 40 ms
    assert_eq!(say.compute_i(0), 1);
    assert_eq!(say.compute_i(39), 1);
    assert_eq!(say.compute_i(40), 2);
    assert_eq!(say.compute_i(79), 2);
    assert_eq!(say.compute_i(80), 3);
    // past the end the whole line stays revealed
    assert_eq!(say.compute_i(100_000), 3);
    assert_eq!(Say::new("").compute_i(0), 0);
}

#[test]
fn say_skips_without_current_actor() {
    let empty_cast = NPCData::default();
    let mut caller = EventCaller::default();
    empty_cast.say(&mut caller, "hello".to_string());
    assert!(caller.say_event.is_none());

    let mut cast = NPCData::default();
    cast.npcs.push(squee());
    let mut caller = EventCaller::default();
    cast.say(&mut caller, "hello".to_string());
    let say = caller.say_event.unwrap();
    assert_eq!(say.text, "hello");
    assert_eq!(say.duration_millis, 5 * 40);
}

#[test]
fn actor_pointer_moves_forward_and_stops_at_the_end() {
    let mut cast = NPCData::default();
    cast.npcs.push(squee());
    cast.npcs.push(squee());
    assert_eq!(cast.get_current_npc().unwrap().kind, NpcKind::Squee);
    cast.spawn_next_npc();
    assert_eq!(cast.current_npc, 1);
    cast.spawn_next_npc();
    assert_eq!(cast.current_npc, 2);
    assert!(cast.get_current_npc().is_none());
    // past the cast the pointer stays put instead of running away
    cast.spawn_next_npc();
    assert_eq!(cast.current_npc, 2);
}

#[test]
fn talk_frame_alternates() {
    let mut npc = squee();
    assert_eq!(npc.talk_frame(), 1);
    assert_eq!(npc.talk_frame(), 0);
    assert_eq!(npc.talk_frame(), 1);
    assert_eq!(npc.talking_index, 3);
}

#[test]
fn drained_batch_is_empty_until_refilled() {
    let mut cast = NPCData::default();
    cast.npcs.push(squee());
    let mut caller = EventCaller::default();
    cast.say(&mut caller, "once".to_string());
    caller.setup_boss_event = true;

    let drained = caller.drain();
    assert_eq!(drained.say_event.unwrap().text, "once");
    assert!(drained.setup_boss_event);

    // the following drain returns an empty batch until new requests arrive
    let empty = caller.drain();
    assert!(empty.say_event.is_none());
    assert!(!empty.setup_boss_event);
    assert!(empty.insert_element_event.is_none());
    assert!(empty.load_tool_event.is_none());
    assert!(!empty.toggle_timer_event);
    assert!(!empty.win_game_event);
    assert!(empty.music_change_event.is_none());
    assert!(empty.ui_interaction_event.is_none());

    cast.say(&mut caller, "again".to_string());
    assert_eq!(caller.drain().say_event.unwrap().text, "again");
}
