//! The segments: the closed set of narrative behavior units that make up
//! the gameflow script. Each variant owns its own progress state, reacts
//! to at most a couple of player events, and writes outward requests into
//! the per-tick effect batch.
//!
//! Every hook is specified against a mathematical transition function on
//! the segment's view, so the controller's dispatch pass composes exactly.

use std::collections::VecDeque;
use vstd::prelude::*;

use crate::audio::{MusicTrack, SayEvent};
use crate::element::Element;
use crate::game::{GameManager, GameView};
use crate::gameflow::EventCaller;
use crate::npc::clamped_duration_millis;
use crate::ui::CraftType;

verus! {

/// Largest phrase-list length the transition segment accepts; keeps its
/// `i32` cursors safely clear of overflow.
pub const MAX_TRANSITION_PHRASES: usize = 0x1000_0000;

/// The batch after attributing `text` to the current actor: a display-line
/// request sized by the pacing rule, or the batch unchanged when nobody is
/// on stage.
pub open spec fn say_to(g: GameView, c: EventCaller, text: String) -> EventCaller {
    if g.has_current() {
        EventCaller {
            say_event: Some(
                SayEvent { text: text, duration_millis: clamped_duration_millis(text@) },
            ),
            ..c
        }
    } else {
        c
    }
}

//==================================================================================================
//                  Segment views
//==================================================================================================

pub struct DialogueView {
    pub phrases: Seq<String>,
    pub consumed: bool,
    pub ready_to_advance: bool,
}

pub struct CraftingView {
    pub goal: Element,
    pub hints: Seq<String>,
    pub comments: Seq<(Element, String)>,
    pub is_thing_crafted: bool,
    pub current_hint: int,
    pub continue_on_craft: bool,
}

pub struct GiveView {
    pub element: Element,
    pub optional_dialog: Option<String>,
    pub can_continue: bool,
}

pub struct LoadToolView {
    pub craft_type: CraftType,
    pub optional_dialog: Option<String>,
    pub can_continue: bool,
}

pub struct TransitionView {
    pub leaving_phrases: Seq<String>,
    pub entering_phrases: Seq<String>,
    pub leaving_index: int,
    pub entering_index: int,
}

pub struct MusicView {
    pub target_track: MusicTrack,
    pub music_changed: bool,
}

pub struct OneShotView {
    pub done: bool,
}

pub enum SegmentView {
    Dialogue(DialogueView),
    Crafting(CraftingView),
    GiveElement(GiveView),
    LoadTool(LoadToolView),
    Transition(TransitionView),
    MusicChange(MusicView),
    StartBossFight(OneShotView),
    ToggleBossTimer(OneShotView),
    WinGame(OneShotView),
}

impl DialogueView {
    /// Pop the front phrase (if any) and request its display.
    pub open spec fn next_phrase_step(self, g: GameView, c: EventCaller) -> (DialogueView, EventCaller) {
        if self.phrases.len() > 0 {
            (
                DialogueView { phrases: self.phrases.drop_first(), consumed: true, ..self },
                say_to(g, c, self.phrases[0]),
            )
        } else {
            (self, c)
        }
    }

    /// Done once every line was shown and at least one line was consumed
    /// (or a click acknowledged an already-empty queue), so the segment
    /// never completes before displaying anything.
    pub open spec fn complete(self) -> bool {
        (self.phrases.len() == 0 && self.consumed) || self.ready_to_advance
    }
}

impl CraftingView {
    /// The hint shown next: hints cycle, wrapping to the first after the
    /// last.
    pub open spec fn hint_index(self) -> int {
        if self.current_hint >= self.hints.len() {
            0
        } else {
            self.current_hint
        }
    }

    pub open spec fn cycle_hint_step(self, g: GameView, c: EventCaller) -> (CraftingView, EventCaller) {
        (
            CraftingView { current_hint: self.hint_index() + 1, ..self },
            say_to(g, c, self.hints[self.hint_index()]),
        )
    }

    /// The flavor comment registered for the element with id `id`, if any;
    /// a later registration for the same element wins.
    pub open spec fn comment_for(comments: Seq<(Element, String)>, id: Seq<char>) -> Option<String>
        decreases comments.len(),
    {
        if comments.len() == 0 {
            None
        } else if comments.last().0.id@ == id {
            Some(comments.last().1)
        } else {
            Self::comment_for(comments.drop_last(), id)
        }
    }

    /// Reaction to a crafted element: completion (when goal-by-craft) and
    /// the flavor comment are independent, so one element may trigger both.
    pub open spec fn crafted_step(self, g: GameView, c: EventCaller, e: Element) -> (CraftingView, EventCaller) {
        let v2 = CraftingView {
            is_thing_crafted: self.is_thing_crafted || (self.continue_on_craft && e.id@
                == self.goal.id@),
            ..self
        };
        let c2 = match Self::comment_for(self.comments, e.id@) {
            Some(comment) => say_to(g, c, comment),
            None => c,
        };
        (v2, c2)
    }

    /// Reaction to an element handed to the actor: completes only the
    /// handoff-based challenge.
    pub open spec fn dropped_step(self, e: Element) -> CraftingView {
        CraftingView {
            is_thing_crafted: self.is_thing_crafted || (!self.continue_on_craft && e.id@
                == self.goal.id@),
            ..self
        }
    }

    pub open spec fn complete(self) -> bool {
        self.is_thing_crafted
    }

    pub open spec fn wf(self) -> bool {
        self.hints.len() >= 1 && 0 <= self.current_hint <= self.hints.len()
    }
}

impl GiveView {
    pub open spec fn complete(self) -> bool {
        self.optional_dialog is None || self.can_continue
    }
}

impl LoadToolView {
    pub open spec fn complete(self) -> bool {
        self.optional_dialog is None || self.can_continue
    }
}

impl TransitionView {
    pub open spec fn is_old_done(self) -> bool {
        self.leaving_index >= self.leaving_phrases.len() - 1
    }

    pub open spec fn is_new_done(self) -> bool {
        self.entering_index >= self.entering_phrases.len() - 1
    }

    pub open spec fn complete(self) -> bool {
        self.is_old_done() && self.is_new_done()
    }

    pub open spec fn wf(self) -> bool {
        &&& self.leaving_phrases.len() <= MAX_TRANSITION_PHRASES
        &&& self.entering_phrases.len() <= MAX_TRANSITION_PHRASES
        &&& -1 <= self.leaving_index <= self.leaving_phrases.len()
        &&& -1 <= self.entering_index <= self.entering_phrases.len()
    }

    /// One acknowledgement of the handoff: a no-op once the incoming actor
    /// has finished; otherwise the actor pointer moves exactly at the
    /// boundary between the last outgoing and the first incoming line, and
    /// then whichever side is still talking shows its next line.
    pub open spec fn advance_step(self, g: GameView, c: EventCaller) -> (TransitionView, GameView, EventCaller) {
        if self.is_new_done() {
            (self, g, c)
        } else {
            let g2 = if self.is_old_done() && self.entering_index == -1 {
                g.advanced_npc()
            } else {
                g
            };
            if self.is_old_done() {
                (
                    TransitionView { entering_index: self.entering_index + 1, ..self },
                    g2,
                    say_to(g2, c, self.entering_phrases[self.entering_index + 1]),
                )
            } else {
                (
                    TransitionView { leaving_index: self.leaving_index + 1, ..self },
                    g2,
                    say_to(g2, c, self.leaving_phrases[self.leaving_index + 1]),
                )
            }
        }
    }
}

impl SegmentView {
    pub open spec fn complete(self) -> bool {
        match self {
            SegmentView::Dialogue(v) => v.complete(),
            SegmentView::Crafting(v) => v.complete(),
            SegmentView::GiveElement(v) => v.complete(),
            SegmentView::LoadTool(v) => v.complete(),
            SegmentView::Transition(v) => v.complete(),
            SegmentView::MusicChange(v) => v.music_changed,
            SegmentView::StartBossFight(v) => v.done,
            SegmentView::ToggleBossTimer(v) => v.done,
            SegmentView::WinGame(v) => v.done,
        }
    }

    /// Well-formedness that content construction establishes and every
    /// hook preserves: a crafting challenge has at least one hint, and a
    /// transition's cursors stay in range.
    pub open spec fn wf(self) -> bool {
        match self {
            SegmentView::Crafting(v) => v.wf(),
            SegmentView::Transition(v) => v.wf(),
            _ => true,
        }
    }
}

//==================================================================================================
//                  The dispatch-state transition functions
//==================================================================================================

/// Everything one dispatch step may read or write: the active segment,
/// the shared game state, and the effect batch being filled.
pub struct DispatchState {
    pub seg: SegmentView,
    pub game: GameView,
    pub caller: EventCaller,
}

/// Entry hook: fired once, on the first tick a segment is current.
pub open spec fn start_step(st: DispatchState) -> DispatchState {
    match st.seg {
        SegmentView::Dialogue(v) => {
            let (v2, c2) = v.next_phrase_step(st.game, st.caller);
            DispatchState { seg: SegmentView::Dialogue(v2), caller: c2, ..st }
        },
        SegmentView::Crafting(v) => {
            let (v2, c2) = v.cycle_hint_step(st.game, st.caller);
            DispatchState {
                seg: SegmentView::Crafting(v2),
                caller: EventCaller { ui_interaction_event: Some(true), ..c2 },
                ..st
            }
        },
        SegmentView::GiveElement(v) => {
            let c2 = EventCaller { insert_element_event: Some(v.element), ..st.caller };
            let c3 = match v.optional_dialog {
                Some(d) => say_to(st.game, c2, d),
                None => c2,
            };
            DispatchState { caller: c3, ..st }
        },
        SegmentView::LoadTool(v) => {
            let c2 = EventCaller { load_tool_event: Some(v.craft_type), ..st.caller };
            let c3 = match v.optional_dialog {
                Some(d) => say_to(st.game, c2, d),
                None => c2,
            };
            DispatchState { caller: c3, ..st }
        },
        SegmentView::Transition(v) => {
            let (v2, g2, c2) = v.advance_step(st.game, st.caller);
            DispatchState { seg: SegmentView::Transition(v2), game: g2, caller: c2 }
        },
        SegmentView::MusicChange(v) => DispatchState {
            seg: SegmentView::MusicChange(MusicView { music_changed: true, ..v }),
            caller: EventCaller { music_change_event: Some(v.target_track), ..st.caller },
            ..st
        },
        SegmentView::StartBossFight(_) => DispatchState {
            seg: SegmentView::StartBossFight(OneShotView { done: true }),
            caller: EventCaller { setup_boss_event: true, ..st.caller },
            ..st
        },
        SegmentView::ToggleBossTimer(_) => DispatchState {
            seg: SegmentView::ToggleBossTimer(OneShotView { done: true }),
            caller: EventCaller { toggle_timer_event: true, ..st.caller },
            ..st
        },
        SegmentView::WinGame(_) => DispatchState {
            seg: SegmentView::WinGame(OneShotView { done: true }),
            caller: EventCaller { win_game_event: true, ..st.caller },
            ..st
        },
    }
}

/// One actor-clicked event routed to the active segment.
pub open spec fn click_step(st: DispatchState) -> DispatchState {
    match st.seg {
        SegmentView::Dialogue(v) => {
            if v.phrases.len() == 0 {
                DispatchState {
                    seg: SegmentView::Dialogue(DialogueView { ready_to_advance: true, ..v }),
                    ..st
                }
            } else {
                let (v2, c2) = v.next_phrase_step(st.game, st.caller);
                DispatchState { seg: SegmentView::Dialogue(v2), caller: c2, ..st }
            }
        },
        SegmentView::Crafting(v) => {
            let (v2, c2) = v.cycle_hint_step(st.game, st.caller);
            DispatchState { seg: SegmentView::Crafting(v2), caller: c2, ..st }
        },
        SegmentView::GiveElement(v) => DispatchState {
            seg: SegmentView::GiveElement(GiveView { can_continue: true, ..v }),
            ..st
        },
        SegmentView::LoadTool(v) => DispatchState {
            seg: SegmentView::LoadTool(LoadToolView { can_continue: true, ..v }),
            ..st
        },
        SegmentView::Transition(v) => {
            let (v2, g2, c2) = v.advance_step(st.game, st.caller);
            DispatchState { seg: SegmentView::Transition(v2), game: g2, caller: c2 }
        },
        _ => st,
    }
}

/// One element-crafted event routed to the active segment. Only the
/// crafting challenge reacts; all other segments ignore it.
pub open spec fn crafted_step(st: DispatchState, e: Element) -> DispatchState {
    match st.seg {
        SegmentView::Crafting(v) => {
            let (v2, c2) = v.crafted_step(st.game, st.caller, e);
            DispatchState { seg: SegmentView::Crafting(v2), caller: c2, ..st }
        },
        _ => st,
    }
}

/// One element-given-to-actor event routed to the active segment.
pub open spec fn dropped_step(st: DispatchState, e: Element) -> DispatchState {
    match st.seg {
        SegmentView::Crafting(v) => DispatchState {
            seg: SegmentView::Crafting(v.dropped_step(e)),
            ..st
        },
        _ => st,
    }
}

/// Exit hook: fired once, on the tick the segment is found complete.
pub open spec fn end_step(st: DispatchState) -> DispatchState {
    match st.seg {
        SegmentView::Crafting(_) => DispatchState {
            caller: EventCaller { ui_interaction_event: Some(false), ..st.caller },
            ..st
        },
        _ => st,
    }
}

//==================================================================================================
//                  Dialogue segment
//==================================================================================================

/// A finite queue of narration lines, popped one per acknowledgement.
#[derive(Debug)]
pub struct NpcDialogueSegment {
    pub phrases: VecDeque<String>,
    pub consumed: bool,
    pub ready_to_advance: bool,
}

impl View for NpcDialogueSegment {
    type V = DialogueView;

    open spec fn view(&self) -> DialogueView {
        DialogueView {
            phrases: self.phrases@,
            consumed: self.consumed,
            ready_to_advance: self.ready_to_advance,
        }
    }
}

impl NpcDialogueSegment {
    pub fn new() -> (s: NpcDialogueSegment)
        ensures
            s@.phrases.len() == 0,
            !s@.consumed,
            !s@.ready_to_advance,
    {
        NpcDialogueSegment { phrases: VecDeque::new(), consumed: false, ready_to_advance: false }
    }

    pub fn with_line(self, line: &str) -> (s: NpcDialogueSegment)
        ensures
            s@.phrases.len() == self@.phrases.len() + 1,
            s@.phrases.drop_last() == self@.phrases,
            s@.phrases.last()@ == line@,
            s@.consumed == self@.consumed,
            s@.ready_to_advance == self@.ready_to_advance,
    {
        let mut s = self;
        s.phrases.push_back(String::from_str(line));
        s
    }

    pub fn do_next_phrase(&mut self, game: &GameManager, event_caller: &mut EventCaller)
        ensures
            (final(self)@, *final(event_caller)) == old(self)@.next_phrase_step(
                game@,
                *old(event_caller),
            ),
    {
        let line = self.phrases.pop_front();
        if let Some(line) = line {
            self.consumed = true;
            game.npc_data.say(event_caller, line);
        }
    }

    pub fn is_complete(&self) -> (r: bool)
        ensures
            r == self@.complete(),
    {
        (self.phrases.len() == 0 && self.consumed) || self.ready_to_advance
    }
}

//==================================================================================================
//                  Crafting challenge segment
//==================================================================================================

/// A goal-directed puzzle: waits for a specific element to be crafted
/// (`continue_on_craft`) or handed to the actor (otherwise), cycles
/// through hints on clicks, and comments on noteworthy crafts.
#[derive(Debug)]
pub struct CraftingSegment {
    pub goal: Element,
    pub hints: Vec<String>,
    pub comments: Vec<(Element, String)>,
    pub is_thing_crafted: bool,
    pub current_hint: usize,
    pub continue_on_craft: bool,
}

impl View for CraftingSegment {
    type V = CraftingView;

    open spec fn view(&self) -> CraftingView {
        CraftingView {
            goal: self.goal,
            hints: self.hints@,
            comments: self.comments@,
            is_thing_crafted: self.is_thing_crafted,
            current_hint: self.current_hint as int,
            continue_on_craft: self.continue_on_craft,
        }
    }
}

impl CraftingSegment {
    /// A challenge starts with no hints; at least one `with_hint` call must
    /// follow before the segment may enter the flow.
    pub fn new(element: Element, continue_on_craft: bool) -> (s: CraftingSegment)
        ensures
            s@.goal == element,
            s@.hints.len() == 0,
            s@.comments.len() == 0,
            !s@.is_thing_crafted,
            s@.current_hint == 0,
            s@.continue_on_craft == continue_on_craft,
    {
        CraftingSegment {
            goal: element,
            hints: Vec::new(),
            comments: Vec::new(),
            is_thing_crafted: false,
            current_hint: 0,
            continue_on_craft,
        }
    }

    pub fn with_hint(self, hint: &str) -> (s: CraftingSegment)
        ensures
            s@.hints.len() == self@.hints.len() + 1,
            s@.hints.drop_last() == self@.hints,
            s@.hints.last()@ == hint@,
            s@ == (CraftingView { hints: s@.hints, ..self@ }),
    {
        let mut s = self;
        s.hints.push(String::from_str(hint));
        s
    }

    pub fn with_comment(self, element: &Element, comment: &str) -> (s: CraftingSegment)
        ensures
            s@.comments.len() == self@.comments.len() + 1,
            s@.comments.drop_last() == self@.comments,
            s@.comments.last().0 == *element,
            s@.comments.last().1@ == comment@,
            s@ == (CraftingView { comments: s@.comments, ..self@ }),
    {
        let mut s = self;
        s.comments.push((element.clone(), String::from_str(comment)));
        s
    }

    /// Show the next hint, wrapping past the last back to the first.
    pub fn cycle_hint(&mut self, game: &GameManager, event_caller: &mut EventCaller)
        requires
            old(self)@.wf(),
        ensures
            final(self)@.wf(),
            (final(self)@, *final(event_caller)) == old(self)@.cycle_hint_step(
                game@,
                *old(event_caller),
            ),
    {
        if self.current_hint >= self.hints.len() {
            self.current_hint = 0;
        }
        let text = self.hints[self.current_hint].clone();
        game.npc_data.say(event_caller, text);
        self.current_hint = self.current_hint + 1;
    }

    pub fn on_item_crafted(
        &mut self,
        game: &GameManager,
        event_caller: &mut EventCaller,
        element: &Element,
    )
        ensures
            (final(self)@, *final(event_caller)) == old(self)@.crafted_step(
                game@,
                *old(event_caller),
                *element,
            ),
    {
        if self.continue_on_craft {
            if *element == self.goal {
                self.is_thing_crafted = true;
            }
        }
        let ghost all = self.comments@;
        let mut found: Option<usize> = None;
        let mut j: usize = 0;
        while j < self.comments.len()
            invariant
                self.comments@ == all,
                j <= all.len(),
                (match found {
                    Some(k) => 0 <= k < j && CraftingView::comment_for(all.take(j as int), element.id@)
                        == Some(all[k as int].1),
                    None => CraftingView::comment_for(all.take(j as int), element.id@) is None,
                }),
            decreases all.len() - j,
        {
            proof {
                assert(all.take(j + 1).drop_last() =~= all.take(j as int));
                assert(all.take(j + 1).last() == all[j as int]);
            }
            if self.comments[j].0 == *element {
                found = Some(j);
            }
            j = j + 1;
        }
        proof {
            assert(all.take(all.len() as int) =~= all);
        }
        if let Some(k) = found {
            let comment = self.comments[k].1.clone();
            game.npc_data.say(event_caller, comment);
        }
    }

    pub fn on_npc_drop(&mut self, element: &Element)
        ensures
            final(self)@ == old(self)@.dropped_step(*element),
    {
        if !self.continue_on_craft {
            if *element == self.goal {
                self.is_thing_crafted = true;
            }
        }
    }

    pub fn is_complete(&self) -> (r: bool)
        ensures
            r == self@.complete(),
    {
        self.is_thing_crafted
    }
}

//==================================================================================================
//                  Give-element segment
//==================================================================================================

/// Grants one element on entry; with a line attached, the line must be
/// acknowledged by a click before the flow moves on.
#[derive(Debug)]
pub struct GiveElementSegment {
    pub element: Element,
    pub optional_dialog: Option<String>,
    pub can_continue: bool,
}

impl View for GiveElementSegment {
    type V = GiveView;

    open spec fn view(&self) -> GiveView {
        GiveView {
            element: self.element,
            optional_dialog: self.optional_dialog,
            can_continue: self.can_continue,
        }
    }
}

impl GiveElementSegment {
    pub fn new(element: Element) -> (s: GiveElementSegment)
        ensures
            s@.element == element,
            s@.optional_dialog is None,
            !s@.can_continue,
    {
        GiveElementSegment { element, optional_dialog: None, can_continue: false }
    }

    pub fn with_line(self, line: &str) -> (s: GiveElementSegment)
        ensures
            s@.element == self@.element,
            s@.optional_dialog matches Some(d) && d@ == line@,
            s@.can_continue == self@.can_continue,
    {
        let mut s = self;
        s.optional_dialog = Some(String::from_str(line));
        s
    }

    pub fn is_complete(&self) -> (r: bool)
        ensures
            r == self@.complete(),
    {
        self.optional_dialog.is_none() || self.can_continue
    }
}

//==================================================================================================
//                  Load-tool segment
//==================================================================================================

/// Unlocks one crafting station on entry; with a line attached, the line
/// must be acknowledged by a click before the flow moves on.
#[derive(Debug)]
pub struct LoadToolSegment {
    pub craft_type: CraftType,
    pub optional_dialog: Option<String>,
    pub can_continue: bool,
}

impl View for LoadToolSegment {
    type V = LoadToolView;

    open spec fn view(&self) -> LoadToolView {
        LoadToolView {
            craft_type: self.craft_type,
            optional_dialog: self.optional_dialog,
            can_continue: self.can_continue,
        }
    }
}

impl LoadToolSegment {
    pub fn new(craft_type: CraftType) -> (s: LoadToolSegment)
        ensures
            s@.craft_type == craft_type,
            s@.optional_dialog is None,
            !s@.can_continue,
    {
        LoadToolSegment { craft_type, optional_dialog: None, can_continue: false }
    }

    pub fn with_line(self, line: &str) -> (s: LoadToolSegment)
        ensures
            s@.craft_type == self@.craft_type,
            s@.optional_dialog matches Some(d) && d@ == line@,
            s@.can_continue == self@.can_continue,
    {
        let mut s = self;
        s.optional_dialog = Some(String::from_str(line));
        s
    }

    pub fn is_complete(&self) -> (r: bool)
        ensures
            r == self@.complete(),
    {
        self.optional_dialog.is_none() || self.can_continue
    }
}

//==================================================================================================
//                  Actor transition segment
//==================================================================================================

/// The two-phase handoff between consecutive chapters' speaking actors:
/// exhaust the outgoing actor's lines, switch the active actor, then
/// exhaust the incoming actor's lines. Both cursors start before their
/// first line, at -1.
#[derive(Debug)]
pub struct TransitionSegment {
    pub leaving_phrases: Vec<String>,
    pub entering_phrases: Vec<String>,
    pub leaving_index: i32,
    pub entering_index: i32,
}

impl View for TransitionSegment {
    type V = TransitionView;

    open spec fn view(&self) -> TransitionView {
        TransitionView {
            leaving_phrases: self.leaving_phrases@,
            entering_phrases: self.entering_phrases@,
            leaving_index: self.leaving_index as int,
            entering_index: self.entering_index as int,
        }
    }
}

impl TransitionSegment {
    pub fn new(leaving_phrases: Vec<String>, entering_phrases: Vec<String>) -> (s: TransitionSegment)
        requires
            leaving_phrases@.len() <= MAX_TRANSITION_PHRASES,
            entering_phrases@.len() <= MAX_TRANSITION_PHRASES,
        ensures
            s@.leaving_phrases == leaving_phrases@,
            s@.entering_phrases == entering_phrases@,
            s@.leaving_index == -1,
            s@.entering_index == -1,
            s@.wf(),
    {
        TransitionSegment { leaving_phrases, entering_phrases, leaving_index: -1, entering_index: -1 }
    }

    pub fn is_old_npc_done(&self) -> (r: bool)
        requires
            self@.wf(),
        ensures
            r == self@.is_old_done(),
    {
        self.leaving_index >= (self.leaving_phrases.len() as i32) - 1
    }

    pub fn is_new_npc_done(&self) -> (r: bool)
        requires
            self@.wf(),
        ensures
            r == self@.is_new_done(),
    {
        self.entering_index >= (self.entering_phrases.len() as i32) - 1
    }

    /// Bump whichever cursor is still talking and hand back its line; past
    /// both lists, a placeholder line is returned.
    pub fn get_next_phrase(&mut self) -> (r: String)
        requires
            old(self)@.wf(),
        ensures
            final(self)@.leaving_phrases == old(self)@.leaving_phrases,
            final(self)@.entering_phrases == old(self)@.entering_phrases,
            old(self)@.is_old_done() ==> {
                &&& final(self)@.entering_index == old(self)@.entering_index + 1
                &&& final(self)@.leaving_index == old(self)@.leaving_index
                &&& (if final(self)@.entering_index < old(self)@.entering_phrases.len() {
                    r == old(self)@.entering_phrases[final(self)@.entering_index]
                } else {
                    r@ == "Index Out of bounds"@
                })
            },
            !old(self)@.is_old_done() ==> {
                &&& final(self)@.leaving_index == old(self)@.leaving_index + 1
                &&& final(self)@.entering_index == old(self)@.entering_index
                &&& r == old(self)@.leaving_phrases[final(self)@.leaving_index]
            },
    {
        if self.is_old_npc_done() {
            self.entering_index = self.entering_index + 1;
            let i = self.entering_index as usize;
            if i < self.entering_phrases.len() {
                self.entering_phrases[i].clone()
            } else {
                String::from_str("Index Out of bounds")
            }
        } else {
            self.leaving_index = self.leaving_index + 1;
            let i = self.leaving_index as usize;
            self.leaving_phrases[i].clone()
        }
    }

    /// Both hooks of this segment run the same acknowledgement step.
    pub fn do_transition(&mut self, game: &mut GameManager, event_caller: &mut EventCaller)
        requires
            old(self)@.wf(),
        ensures
            final(self)@.wf(),
            (final(self)@, final(game)@, *final(event_caller)) == old(self)@.advance_step(
                old(game)@,
                *old(event_caller),
            ),
    {
        if self.is_new_npc_done() {
            return ;
        }
        if self.is_old_npc_done() && self.entering_index == -1 {
            game.npc_data.spawn_next_npc();
        }
        let phrase = self.get_next_phrase();
        game.npc_data.say(event_caller, phrase);
    }

    pub fn is_complete(&self) -> (r: bool)
        requires
            self@.wf(),
        ensures
            r == self@.complete(),
    {
        self.is_old_npc_done() && self.is_new_npc_done()
    }
}

//==================================================================================================
//                  One-shot segments
//==================================================================================================

/// Switches the ambient track on entry and completes immediately.
#[derive(Debug)]
pub struct MusicChangeSegment {
    pub target_track: MusicTrack,
    pub music_changed: bool,
}

impl View for MusicChangeSegment {
    type V = MusicView;

    open spec fn view(&self) -> MusicView {
        MusicView { target_track: self.target_track, music_changed: self.music_changed }
    }
}

impl MusicChangeSegment {
    pub fn change_too(track: MusicTrack) -> (s: MusicChangeSegment)
        ensures
            s@.target_track == track,
            !s@.music_changed,
    {
        MusicChangeSegment { target_track: track, music_changed: false }
    }
}

/// Sets up the final-challenge subgame on entry and completes immediately.
#[derive(Debug)]
pub struct StartBossFightSegment {
    pub done: bool,
}

impl View for StartBossFightSegment {
    type V = OneShotView;

    open spec fn view(&self) -> OneShotView {
        OneShotView { done: self.done }
    }
}

impl Default for StartBossFightSegment {
    fn default() -> (s: StartBossFightSegment)
        ensures
            !s@.done,
    {
        StartBossFightSegment { done: false }
    }
}

/// Toggles the subgame countdown timer on entry and completes immediately.
#[derive(Debug)]
pub struct ToggleBossTimerSegment {
    pub done: bool,
}

impl View for ToggleBossTimerSegment {
    type V = OneShotView;

    open spec fn view(&self) -> OneShotView {
        OneShotView { done: self.done }
    }
}

impl Default for ToggleBossTimerSegment {
    fn default() -> (s: ToggleBossTimerSegment)
        ensures
            !s@.done,
    {
        ToggleBossTimerSegment { done: false }
    }
}

/// Declares the game won on entry and completes immediately.
#[derive(Debug)]
pub struct WinGameSegment {
    pub done: bool,
}

impl View for WinGameSegment {
    type V = OneShotView;

    open spec fn view(&self) -> OneShotView {
        OneShotView { done: self.done }
    }
}

impl Default for WinGameSegment {
    fn default() -> (s: WinGameSegment)
        ensures
            !s@.done,
    {
        WinGameSegment { done: false }
    }
}

//==================================================================================================
//                  The closed segment union
//==================================================================================================

/// One unit of narrative behavior in the ordered flow. The set of variants
/// is closed: dispatch is a total match, and variants implement only the
/// hooks meaningful to them (the rest are no-ops).
#[derive(Debug)]
pub enum Segment {
    Dialogue(NpcDialogueSegment),
    Crafting(CraftingSegment),
    GiveElement(GiveElementSegment),
    LoadTool(LoadToolSegment),
    Transition(TransitionSegment),
    MusicChange(MusicChangeSegment),
    StartBossFight(StartBossFightSegment),
    ToggleBossTimer(ToggleBossTimerSegment),
    WinGame(WinGameSegment),
}

impl View for Segment {
    type V = SegmentView;

    open spec fn view(&self) -> SegmentView {
        match self {
            Segment::Dialogue(s) => SegmentView::Dialogue(s@),
            Segment::Crafting(s) => SegmentView::Crafting(s@),
            Segment::GiveElement(s) => SegmentView::GiveElement(s@),
            Segment::LoadTool(s) => SegmentView::LoadTool(s@),
            Segment::Transition(s) => SegmentView::Transition(s@),
            Segment::MusicChange(s) => SegmentView::MusicChange(s@),
            Segment::StartBossFight(s) => SegmentView::StartBossFight(s@),
            Segment::ToggleBossTimer(s) => SegmentView::ToggleBossTimer(s@),
            Segment::WinGame(s) => SegmentView::WinGame(s@),
        }
    }
}

impl Segment {
    /// Pure completion query; safe to call on every tick.
    pub fn is_complete(&self) -> (r: bool)
        requires
            self@.wf(),
        ensures
            r == self@.complete(),
    {
        match self {
            Segment::Dialogue(s) => s.is_complete(),
            Segment::Crafting(s) => s.is_complete(),
            Segment::GiveElement(s) => s.is_complete(),
            Segment::LoadTool(s) => s.is_complete(),
            Segment::Transition(s) => s.is_complete(),
            Segment::MusicChange(s) => s.music_changed,
            Segment::StartBossFight(s) => s.done,
            Segment::ToggleBossTimer(s) => s.done,
            Segment::WinGame(s) => s.done,
        }
    }

    /// Entry hook; the controller fires it exactly once per activation.
    pub fn on_segment_start(&mut self, game: &mut GameManager, event_caller: &mut EventCaller)
        requires
            old(self)@.wf(),
        ensures
            final(self)@.wf(),
            (DispatchState { seg: final(self)@, game: final(game)@, caller: *final(event_caller) })
                == start_step(
                DispatchState { seg: old(self)@, game: old(game)@, caller: *old(event_caller) },
            ),
    {
        match self {
            Segment::Dialogue(s) => s.do_next_phrase(game, event_caller),
            Segment::Crafting(s) => {
                s.cycle_hint(game, event_caller);
                event_caller.ui_interaction_event = Some(true);
            },
            Segment::GiveElement(s) => {
                event_caller.insert_element_event = Some(s.element.clone());
                if let Some(d) = &s.optional_dialog {
                    game.npc_data.say(event_caller, d.clone());
                }
            },
            Segment::LoadTool(s) => {
                event_caller.load_tool_event = Some(s.craft_type);
                if let Some(d) = &s.optional_dialog {
                    game.npc_data.say(event_caller, d.clone());
                }
            },
            Segment::Transition(s) => s.do_transition(game, event_caller),
            Segment::MusicChange(s) => {
                event_caller.music_change_event = Some(s.target_track);
                s.music_changed = true;
            },
            Segment::StartBossFight(s) => {
                event_caller.setup_boss_event = true;
                s.done = true;
            },
            Segment::ToggleBossTimer(s) => {
                event_caller.toggle_timer_event = true;
                s.done = true;
            },
            Segment::WinGame(s) => {
                event_caller.win_game_event = true;
                s.done = true;
            },
        }
    }

    /// One actor-clicked input event while this segment is active.
    pub fn on_npc_click(&mut self, game: &mut GameManager, event_caller: &mut EventCaller)
        requires
            old(self)@.wf(),
        ensures
            final(self)@.wf(),
            (DispatchState { seg: final(self)@, game: final(game)@, caller: *final(event_caller) })
                == click_step(
                DispatchState { seg: old(self)@, game: old(game)@, caller: *old(event_caller) },
            ),
    {
        match self {
            Segment::Dialogue(s) => {
                if s.phrases.len() == 0 {
                    s.ready_to_advance = true;
                } else {
                    s.do_next_phrase(game, event_caller);
                }
            },
            Segment::Crafting(s) => s.cycle_hint(game, event_caller),
            Segment::GiveElement(s) => {
                s.can_continue = true;
            },
            Segment::LoadTool(s) => {
                s.can_continue = true;
            },
            Segment::Transition(s) => s.do_transition(game, event_caller),
            _ => {},
        }
    }

    /// One element-crafted input event while this segment is active.
    pub fn on_item_crafted(
        &mut self,
        game: &mut GameManager,
        event_caller: &mut EventCaller,
        element: &Element,
    )
        requires
            old(self)@.wf(),
        ensures
            final(self)@.wf(),
            (DispatchState { seg: final(self)@, game: final(game)@, caller: *final(event_caller) })
                == crafted_step(
                DispatchState { seg: old(self)@, game: old(game)@, caller: *old(event_caller) },
                *element,
            ),
    {
        match self {
            Segment::Crafting(s) => s.on_item_crafted(game, event_caller, element),
            _ => {},
        }
    }

    /// One element-given-to-actor input event while this segment is active.
    pub fn on_npc_drop(
        &mut self,
        game: &mut GameManager,
        event_caller: &mut EventCaller,
        element: &Element,
    )
        requires
            old(self)@.wf(),
        ensures
            final(self)@.wf(),
            (DispatchState { seg: final(self)@, game: final(game)@, caller: *final(event_caller) })
                == dropped_step(
                DispatchState { seg: old(self)@, game: old(game)@, caller: *old(event_caller) },
                *element,
            ),
    {
        match self {
            Segment::Crafting(s) => s.on_npc_drop(element),
            _ => {},
        }
    }

    /// Exit hook; the controller fires it exactly once, on the tick the
    /// segment is found complete.
    pub fn on_segment_end(&mut self, game: &mut GameManager, event_caller: &mut EventCaller)
        requires
            old(self)@.wf(),
        ensures
            final(self)@.wf(),
            (DispatchState { seg: final(self)@, game: final(game)@, caller: *final(event_caller) })
                == end_step(
                DispatchState { seg: old(self)@, game: old(game)@, caller: *old(event_caller) },
            ),
    {
        match self {
            Segment::Crafting(_) => {
                event_caller.ui_interaction_event = Some(false);
            },
            _ => {},
        }
    }
}

} // verus!
