//! The gameflow controller: owns the ordered script of segments, advances
//! the cursor as segments complete, dispatches input events to the active
//! segment once per tick, and hands back the per-tick effect batch.

use vstd::prelude::*;

use crate::audio::{MusicTrack, SayEvent};
use crate::element::Element;
use crate::game::GameManager;
use crate::segment::{
    click_step, crafted_step, dropped_step, end_step, start_step, CraftingSegment, DispatchState,
    GiveElementSegment, LoadToolSegment, MusicChangeSegment, NpcDialogueSegment, Segment,
    SegmentView, StartBossFightSegment, ToggleBossTimerSegment, TransitionSegment, WinGameSegment,
};
use crate::ui::CraftType;

verus! {

/// Per-tick accumulator of outward effect requests: one optional slot per
/// effect kind, filled during dispatch and drained at tick end. The last
/// write to a slot within a tick wins. No effect touches the engine while
/// a segment runs; the surrounding host translates a drained batch into
/// real calls.
pub struct EventCaller {
    /// Display a spoken line for a computed duration.
    pub say_event: Option<SayEvent>,
    /// Grant an element to the player's inventory.
    pub insert_element_event: Option<Element>,
    /// Unlock (load) a crafting station.
    pub load_tool_event: Option<CraftType>,
    /// Set up the final-challenge subgame.
    pub setup_boss_event: bool,
    /// Toggle the subgame countdown timer.
    pub toggle_timer_event: bool,
    /// Declare the game won.
    pub win_game_event: bool,
    /// Switch the ambient music track.
    pub music_change_event: Option<MusicTrack>,
    /// Enable or disable crafting UI interaction.
    pub ui_interaction_event: Option<bool>,
}

impl EventCaller {
    /// The batch with every slot unset.
    pub open spec fn empty() -> EventCaller {
        EventCaller {
            say_event: None,
            insert_element_event: None,
            load_tool_event: None,
            setup_boss_event: false,
            toggle_timer_event: false,
            win_game_event: false,
            music_change_event: None,
            ui_interaction_event: None,
        }
    }

    pub open spec fn is_empty(self) -> bool {
        self == EventCaller::empty()
    }

    /// Hand the accumulated requests out and leave the batch empty, so a
    /// later dispatch pass never observes an earlier pass's contents.
    pub fn drain(&mut self) -> (r: EventCaller)
        ensures
            r == *old(self),
            final(self).is_empty(),
    {
        let mut r = EventCaller::default();
        core::mem::swap(self, &mut r);
        r
    }
}

impl Default for EventCaller {
    fn default() -> (r: EventCaller)
        ensures
            r.is_empty(),
    {
        EventCaller {
            say_event: None,
            insert_element_event: None,
            load_tool_event: None,
            setup_boss_event: false,
            toggle_timer_event: false,
            win_game_event: false,
            music_change_event: None,
            ui_interaction_event: None,
        }
    }
}

//==================================================================================================
//                  The per-tick input batch
//==================================================================================================

/// The input events the host collected during one frame. Events of one
/// kind are dispatched in arrival order; across kinds the dispatch order
/// is fixed: clicks, then crafted elements, then handed-over elements.
pub struct TickInput {
    pub npc_clicks: usize,
    pub crafted: Vec<Element>,
    pub dropped: Vec<Element>,
}

impl TickInput {
    /// A frame in which the player did nothing.
    pub fn none() -> (r: TickInput)
        ensures
            r.npc_clicks == 0,
            r.crafted@.len() == 0,
            r.dropped@.len() == 0,
    {
        TickInput { npc_clicks: 0, crafted: Vec::new(), dropped: Vec::new() }
    }
}

//==================================================================================================
//                  The dispatch pass, as a mathematical fold
//==================================================================================================

/// `n` actor-clicked events dispatched in order.
pub open spec fn clicks_fold(st: DispatchState, n: nat) -> DispatchState
    decreases n,
{
    if n == 0 {
        st
    } else {
        click_step(clicks_fold(st, (n - 1) as nat))
    }
}

/// The element-crafted events dispatched in arrival order.
pub open spec fn crafted_fold(st: DispatchState, evs: Seq<Element>) -> DispatchState
    decreases evs.len(),
{
    if evs.len() == 0 {
        st
    } else {
        crafted_step(crafted_fold(st, evs.drop_last()), evs.last())
    }
}

/// The element-given-to-actor events dispatched in arrival order.
pub open spec fn dropped_fold(st: DispatchState, evs: Seq<Element>) -> DispatchState
    decreases evs.len(),
{
    if evs.len() == 0 {
        st
    } else {
        dropped_step(dropped_fold(st, evs.drop_last()), evs.last())
    }
}

/// One full dispatch pass over the active segment: the edge-triggered
/// entry hook, then every input event of the tick, in the fixed order.
pub open spec fn dispatch_steps(
    st: DispatchState,
    entered: bool,
    clicks: nat,
    crafted: Seq<Element>,
    dropped: Seq<Element>,
) -> DispatchState {
    let st1 = if entered {
        start_step(st)
    } else {
        st
    };
    dropped_fold(crafted_fold(clicks_fold(st1, clicks), crafted), dropped)
}

//==================================================================================================
//                  Cursor discipline
//==================================================================================================

/// What one tick may do to the cursor of a flow with `len` segments:
/// the index never decreases, grows by at most one, grows only while a
/// segment is active, and the tick records the index it served.
pub open spec fn cursor_step(
    len: int,
    cur1: int,
    last1: Option<int>,
    cur2: int,
    last2: Option<int>,
) -> bool {
    &&& cur1 <= cur2 <= cur1 + 1
    &&& last2 == Some(cur1)
    &&& (cur2 == cur1 + 1 ==> cur1 < len)
}

/// A tick fires the active segment's entry hook exactly when the segment
/// it is about to serve differs from the last one initialized.
pub open spec fn enters(len: int, cur: int, last: Option<int>) -> bool {
    cur < len && last != Some(cur)
}

//==================================================================================================
//                  The flow controller
//==================================================================================================

/// The gameflow: a fixed, ordered script of segments, the cursor to the
/// active one, and the last-initialized marker that edge-triggers entry
/// hooks.
pub struct Gameflow {
    pub segments: Vec<Segment>,
    pub current: usize,
    pub last: Option<usize>,
}

impl Gameflow {
    /// Every segment of the script is well-formed.
    pub open spec fn wf(self) -> bool {
        forall|i: int|
            0 <= i < self.segments@.len() ==> (#[trigger] self.segments@[i])@.wf()
    }

    /// The cursor state, with the marker as a mathematical option.
    pub open spec fn last_view(self) -> Option<int> {
        match self.last {
            Some(l) => Some(l as int),
            None => None,
        }
    }

    /// The flow is past its last segment: every further tick is a no-op.
    pub open spec fn is_terminal(self) -> bool {
        self.current >= self.segments@.len()
    }

    /// Append one segment to the script. Scripts are fixed once ticking
    /// starts; segments are only added at construction time.
    pub fn add_segment(&mut self, segment: Segment)
        requires
            segment@.wf(),
            old(self).segments@.len() < usize::MAX,
        ensures
            final(self).segments@ == old(self).segments@.push(segment),
            final(self).current == old(self).current,
            final(self).last == old(self).last,
            old(self).wf() ==> final(self).wf(),
    {
        self.segments.push(segment);
    }

    /// Move the cursor one segment forward.
    pub fn advance(&mut self)
        requires
            old(self).current < usize::MAX,
        ensures
            final(self).current == old(self).current + 1,
            final(self).segments == old(self).segments,
            final(self).last == old(self).last,
    {
        self.current = self.current + 1;
    }

    /// The single per-tick entry point. One pass: fire the entry hook if
    /// this is the first tick the active segment is current, route every
    /// input event of the tick to it, run the exit hook and advance the
    /// cursor once it reports complete, and hand back the effect batch
    /// accumulated along the way. Past the last segment, ticking is a
    /// harmless no-op with an empty batch.
    pub fn tick(&mut self, game: &mut GameManager, input: &TickInput) -> (out: EventCaller)
        requires
            old(self).wf(),
        ensures
            final(self).wf(),
            final(self).segments@.len() == old(self).segments@.len(),
            cursor_step(
                old(self).segments@.len() as int,
                old(self).current as int,
                old(self).last_view(),
                final(self).current as int,
                final(self).last_view(),
            ),
            old(self).is_terminal() ==> ({
                &&& final(self).segments@ == old(self).segments@
                &&& final(self).current == old(self).current
                &&& *final(game) == *old(game)
                &&& out.is_empty()
            }),
            !old(self).is_terminal() ==> ({
                let cur = old(self).current as int;
                let entered = enters(
                    old(self).segments@.len() as int,
                    cur,
                    old(self).last_view(),
                );
                let st = dispatch_steps(
                    DispatchState {
                        seg: old(self).segments@[cur]@,
                        game: old(game)@,
                        caller: EventCaller::empty(),
                    },
                    entered,
                    input.npc_clicks as nat,
                    input.crafted@,
                    input.dropped@,
                );
                let stf = if st.seg.complete() {
                    end_step(st)
                } else {
                    st
                };
                &&& final(self).segments@[cur]@ == stf.seg
                &&& (forall|j: int|
                    0 <= j < old(self).segments@.len() && j != cur ==> final(self).segments@[j]
                        == (#[trigger] old(self).segments@[j]))
                &&& final(game)@ == stf.game
                &&& out == stf.caller
                &&& final(self).current == (if st.seg.complete() {
                    cur + 1
                } else {
                    cur
                })
            }),
    {
        let mut event_caller = EventCaller::default();
        let mut should_init = false;
        let is_same = match self.last {
            Some(l) => l == self.current,
            None => false,
        };
        if !is_same {
            self.last = Some(self.current);
            should_init = true;
        }
        let i = self.current;
        if i < self.segments.len() {
            let ghost old_segments = self.segments@;
            let mut seg = self.segments.remove(i);
            let ghost st0 = DispatchState { seg: seg@, game: game@, caller: event_caller };
            if should_init {
                seg.on_segment_start(game, &mut event_caller);
            }
            let ghost st1 = if should_init {
                start_step(st0)
            } else {
                st0
            };
            let mut k: usize = 0;
            while k < input.npc_clicks
                invariant
                    k <= input.npc_clicks,
                    seg@.wf(),
                    (DispatchState { seg: seg@, game: game@, caller: event_caller })
                        == clicks_fold(st1, k as nat),
                decreases input.npc_clicks - k,
            {
                seg.on_npc_click(game, &mut event_caller);
                k = k + 1;
            }
            let ghost st2 = clicks_fold(st1, input.npc_clicks as nat);
            let mut j: usize = 0;
            while j < input.crafted.len()
                invariant
                    j <= input.crafted@.len(),
                    seg@.wf(),
                    (DispatchState { seg: seg@, game: game@, caller: event_caller })
                        == crafted_fold(st2, input.crafted@.take(j as int)),
                decreases input.crafted@.len() - j,
            {
                proof {
                    assert(input.crafted@.take(j + 1).drop_last() =~= input.crafted@.take(j as int));
                    assert(input.crafted@.take(j + 1).last() == input.crafted@[j as int]);
                }
                seg.on_item_crafted(game, &mut event_caller, &input.crafted[j]);
                j = j + 1;
            }
            proof {
                assert(input.crafted@.take(input.crafted@.len() as int) =~= input.crafted@);
            }
            let ghost st3 = crafted_fold(st2, input.crafted@);
            let mut m: usize = 0;
            while m < input.dropped.len()
                invariant
                    m <= input.dropped@.len(),
                    seg@.wf(),
                    (DispatchState { seg: seg@, game: game@, caller: event_caller })
                        == dropped_fold(st3, input.dropped@.take(m as int)),
                decreases input.dropped@.len() - m,
            {
                proof {
                    assert(input.dropped@.take(m + 1).drop_last() =~= input.dropped@.take(m as int));
                    assert(input.dropped@.take(m + 1).last() == input.dropped@[m as int]);
                }
                seg.on_npc_drop(game, &mut event_caller, &input.dropped[m]);
                m = m + 1;
            }
            proof {
                assert(input.dropped@.take(input.dropped@.len() as int) =~= input.dropped@);
            }
            if seg.is_complete() {
                seg.on_segment_end(game, &mut event_caller);
                self.segments.insert(i, seg);
                self.advance();
            } else {
                self.segments.insert(i, seg);
            }
            proof {
                assert(self.segments@ =~= old_segments.update(i as int, self.segments@[i as int]));
            }
        }
        event_caller
    }
}

impl Default for Gameflow {
    /// The authored story script, in order: the tutorial chapter, the
    /// knight's two visits, the farmer's visit, and the final challenge.
    fn default() -> (r: Gameflow)
        ensures
            r.wf(),
            r.current == 0,
            r.last is None,
            r.segments@.len() == 43,
            // the authored content ends with the win declaration
            r.segments@[42]@ matches SegmentView::WinGame(v) && !v.done,
    {
        let mut g = Gameflow { segments: Vec::new(), current: 0, last: None };

        // Chapter 1: Squee teaches the basics.
        g.add_segment(
            Segment::Dialogue(
                NpcDialogueSegment::new().with_line(
                    "Barkeep! Over here! Click on me to talk to me!",
                ).with_line("Hey! Who are you? You arent the usual chef! Where is Gyome?").with_line(
                    "Oh, my boss Gordon will not be pleased, not pleased at all!",
                ).with_line(
                    "Good thing I came by to check first, he would have sauteed you with dung fruit!",
                ).with_line("Do you even know how to cook? It doesnt look like it...").with_line(
                    "Ill teach you how, just so gordon doesnt go ballistic.",
                ).with_line("Lets try to make something simple.. something like ice cream!"),
            ),
        );
        g.add_segment(Segment::GiveElement(GiveElementSegment::new(Element::yeti_water())));
        g.add_segment(
            Segment::GiveElement(
                GiveElementSegment::new(Element::frozen_dragon_scale()).with_line(
                    "Take these. Youll need them.",
                ),
            ),
        );
        g.add_segment(
            Segment::Dialogue(
                NpcDialogueSegment::new().with_line(
                    "To see what an item is, you can mouse over it. Right clicking will show its page in the fantastical cook book.",
                ).with_line("If you ever forget a recipe, I would check there.").with_line(
                    "Lets see, first thing you need for ice cream is, well, ice.",
                ),
            ),
        );
        g.add_segment(Segment::LoadTool(LoadToolSegment::new(CraftType::FURNACE)));
        g.add_segment(
            Segment::Crafting(
                CraftingSegment::new(Element::glacier_ice(), true).with_hint(
                    "Go ahead and try to make ice! If you click on me I will give hints.",
                ).with_hint(
                    "You can drag items around and put them into the tools in the middle.",
                ).with_hint(
                    "Youll want to use the furnace for this. If you put something cold in the bottom slot, the item on top will freeze!",
                ),
            ),
        );
        g.add_segment(
            Segment::Dialogue(
                NpcDialogueSegment::new().with_line(
                    "Wow you did it. Maybe you will taste His Wrath. That is his specialty dish.",
                ).with_line(
                    "Now we need to shave that ice into smaller pieces. You have a knife dont you?",
                ),
            ),
        );
        g.add_segment(
            Segment::LoadTool(
                LoadToolSegment::new(CraftType::SLICER).with_line("Oh, its over there."),
            ),
        );
        g.add_segment(
            Segment::Crafting(
                CraftingSegment::new(Element::shaved_ice(), true).with_hint(
                    "Alright, go a head and make some shaved ice.",
                ).with_hint("You shouldnt need a hint for this one.").with_hint("Really?").with_hint(
                    "Fine. Put the ice on the cutting board.",
                ),
            ),
        );
        g.add_segment(
            Segment::Dialogue(
                NpcDialogueSegment::new().with_line(
                    "Cool. now the last step, you need to mix the shaved ice with some cream.",
                ),
            ),
        );
        g.add_segment(
            Segment::GiveElement(
                GiveElementSegment::new(Element::legend_dairy()).with_line("Here is the cream."),
            ),
        );
        g.add_segment(
            Segment::LoadTool(
                LoadToolSegment::new(CraftType::MIXER).with_line("And here is the mixer."),
            ),
        );
        g.add_segment(
            Segment::Crafting(
                CraftingSegment::new(Element::utter_ice_cream(), false).with_hint(
                    "Now make that ice cream.",
                ).with_hint("It takes two ingredients.").with_hint(
                    "You also need to use the mixing bowl.",
                ).with_hint("Put the shaved ice and legend dairy into the mixing bowl.").with_comment(
                    &Element::utter_ice_cream(),
                    "Nice. Now give that to me!",
                ),
            ),
        );
        g.add_segment(
            Segment::Dialogue(
                NpcDialogueSegment::new().with_line(
                    "You did it. Now that you kinda know how to cook, hopefully you can make gordon something that he likes.",
                ).with_line(
                    "If he doesnt, boy I am done for. The last guy that was in my shoes got cooked into a real nice roast.",
                ).with_line("Honestly, not a bad way to go.").with_line(
                    "Anyways, I have to go and check the other places Gordon is going to today. But before I go, Im going to give you some ingredients that you may need.",
                ),
            ),
        );
        g.add_segment(
            Segment::GiveElement(
                GiveElementSegment::new(Element::magma_pepper()).with_line(
                    "Take this to heat your dishes.",
                ),
            ),
        );
        g.add_segment(
            Segment::GiveElement(
                GiveElementSegment::new(Element::fantasy_flour()).with_line(
                    "And this because every kitchen needs some.",
                ),
            ),
        );
        g.add_segment(
            Segment::Dialogue(
                NpcDialogueSegment::new().with_line(
                    "Now I gotta run! If I dont I might not make it.",
                ),
            ),
        );
        let mut leaving: Vec<String> = Vec::new();
        leaving.push(String::from_str("Good luck... you will need it..."));
        leaving.push(
            String::from_str(
                "And remember that book of yours, you can never know too much about the ingredients you cook with.",
            ),
        );
        let mut entering: Vec<String> = Vec::new();
        entering.push(
            String::from_str(
                "Hello! My name is Sir Connrad and I am in desperate need of adventuring food.",
            ),
        );
        g.add_segment(Segment::Transition(TransitionSegment::new(leaving, entering)));

        // Chapter 2: Sir Conrad wants a sandwich.
        g.add_segment(
            Segment::Dialogue(
                NpcDialogueSegment::new().with_line(
                    "Ho there barkeep! I am in dire need of provisioning",
                ).with_line(
                    "As a knight of this realm, I must see to my duties outside of the city.",
                ).with_line(
                    "And my duties today take me to the Dunes of Teveldia, to hunt the witches that lives there.",
                ).with_line(
                    "But to do this quest I must travel. Teveldia is far, far away ..",
                ).with_line("... one whole hour away ... ").with_line(
                    "And because of that, Ill need some food that I can bring with me on my journey!",
                ).with_line(
                    "Now, what better to hunt sand witches with than sandwiches!",
                ).with_line("That is what I am here for! One of your best sandwiches!"),
            ),
        );
        g.add_segment(
            Segment::Crafting(
                CraftingSegment::new(Element::ice_cream_sandwich(), false).with_hint(
                    "So please make me a sandwich of some sort!",
                ).with_hint(
                    "My favorite part of any sandwich is the bread. Good bread is necessary for a good sandwich.",
                ).with_hint("Ill take any type of sandwich, really!").with_comment(
                    &Element::elven_bread(),
                    "Yes! Any good sandwich needs some bread!",
                ).with_comment(
                    &Element::bread_dough(),
                    "A step in the right direction! You could be a knight yourself with intuition like that!",
                ).with_comment(
                    &Element::ice_cream_sandwich(),
                    "That is what I require! Hand it over at once!",
                ),
            ),
        );
        g.add_segment(
            Segment::Dialogue(
                NpcDialogueSegment::new().with_line(
                    "Ah yes! A sandwich! Thank you good fellow, I will eat be hearty knowing that your skill in cook craft is paramount!",
                ),
            ),
        );
        g.add_segment(
            Segment::GiveElement(
                GiveElementSegment::new(Element::griffon_egg()).with_line(
                    "As payment, please accept this egg. It will lend you aid in these trying times.",
                ),
            ),
        );
        let mut leaving: Vec<String> = Vec::new();
        leaving.push(String::from_str("Huzuh! I am off, for glory!"));
        let mut entering: Vec<String> = Vec::new();
        entering.push(String::from_str("... Hi, I would like some food ..."));
        g.add_segment(Segment::Transition(TransitionSegment::new(leaving, entering)));

        // Chapter 3: Wilbur the pig farmer wants a salad.
        g.add_segment(
            Segment::Dialogue(
                NpcDialogueSegment::new().with_line(
                    "... I took my time coming to order ... that last guy was loud ... ",
                ).with_line(
                    "... My name is Wilbur, but everybody calls me pumpkin head. I am a pig farmer from around here ... ",
                ).with_line("... please dont ask about the pumpkin, itll make me shy ... "),
            ),
        );
        g.add_segment(
            Segment::GiveElement(
                GiveElementSegment::new(Element::siren_seaweed()).with_line(
                    "... I would like a salad with this seaweed ... ",
                ),
            ),
        );
        g.add_segment(
            Segment::Dialogue(
                NpcDialogueSegment::new().with_line(
                    "... I would also like it with some toppings ... ",
                ).with_line("... something creamy and something crunchy ... "),
            ),
        );
        g.add_segment(
            Segment::Crafting(
                CraftingSegment::new(Element::salad(), false).with_hint(
                    "... Could you please make me one now? ...",
                ).with_hint("... a salad with a creamy and crunchy topping ...").with_hint(
                    "... I want those crunchy things ... crawdads ... cruonans ... ahh, something like that ...",
                ).with_hint(
                    "... could you please hurry? I need to get back to the RANCH ...",
                ).with_hint("... I like the toppings mixed together ...").with_comment(
                    &Element::mayo(),
                    "... that seems creamy, but to solid for a salad ...",
                ).with_comment(
                    &Element::elven_toast(),
                    "... that smells good, but that wont fit on my salad ...",
                ).with_comment(
                    &Element::diced_croutons(),
                    "... those would add the most perfect crunch to my salad ...",
                ).with_comment(
                    &Element::ranch(),
                    "... that seems yummy ... perfect for my salad ...",
                ).with_comment(
                    &Element::salad(),
                    "... oh wow that looks so good ... can I please have it?",
                ),
            ),
        );
        g.add_segment(
            Segment::Dialogue(
                NpcDialogueSegment::new().with_line(
                    "... thanks ... this salad looks really good ... ",
                ).with_line(
                    "... I am going to go home now ... I have been in public for far too long ...",
                ),
            ),
        );
        g.add_segment(
            Segment::GiveElement(
                GiveElementSegment::new(Element::raw_pork()).with_line(
                    "... here is something from my pig farm as payment ...",
                ),
            ),
        );
        let mut leaving: Vec<String> = Vec::new();
        leaving.push(String::from_str("... enjoy yourself ..."));
        let mut entering: Vec<String> = Vec::new();
        entering.push(String::from_str("Huzuh! I am back from the fray!"));
        g.add_segment(Segment::Transition(TransitionSegment::new(leaving, entering)));

        // Chapter 4: Sir Conrad returns for something meatier.
        g.add_segment(
            Segment::Dialogue(
                NpcDialogueSegment::new().with_line(
                    "Though it is earlier than expected, I am back none the less!",
                ).with_line(
                    "You see, the last sandwich you gave me started to melt as soon as I left the city gates.",
                ).with_line(
                    "These provisions must stay solid until I make it to the dunes. This was a problem you see.",
                ).with_line(
                    "But this problem was no match for the valiant Sir Conrad! I turn problems into mincemeat!",
                ).with_line(
                    "My solution being thus ... eat the sandwich given prier and come back for another, more substantial morsel.",
                ).with_line(
                    "So my request is as follows ... I would like another sandwich. This one I want to be more meaty.",
                ).with_line(
                    "Specifically I would like a breakfast sandwich with a spicy spread.",
                ),
            ),
        );
        g.add_segment(
            Segment::Crafting(
                CraftingSegment::new(Element::cut_sandwich(), false).with_hint(
                    "I am in need of a breakfast sandwich with a little bit of heat.",
                ).with_hint("Mhhmm. That cut of pork looks mighty delicious!").with_comment(
                    &Element::pepper_flakes(),
                    "Yes not the whole pepper, just a bit of it. However, I still think those flakes are going to be hard to sallow...",
                ).with_comment(
                    &Element::scrambled_egg(),
                    "What a good filling for a breakfast sandwich! I think it is missing a protein though.",
                ).with_comment(
                    &Element::raw_bacon(),
                    "Now that looks intriguing! Sliced pork? How novel.",
                ).with_comment(
                    &Element::bacon(),
                    "Listen to that sizzle, music to my ears and ambrosia for my nose!",
                ).with_comment(
                    &Element::sandwich_fillings(),
                    "The perfect mix of filling fillings I have ever seen.",
                ).with_comment(
                    &Element::spicy_spread(),
                    "That will be the perfect amount of heat! Put it on the sandwich!",
                ).with_comment(
                    &Element::spicy_toast(),
                    "Now all that needs is the filling!",
                ).with_comment(
                    &Element::sandwich(),
                    "That is a legendary sandwich, but you need to do one more thing to make it perfect...",
                ),
            ),
        );
        g.add_segment(
            Segment::Dialogue(
                NpcDialogueSegment::new().with_line(
                    "There it is! The breakfast sandwich I have been dreaming of!",
                ).with_line(
                    "Thank you fine citizen, for without your help my quest would be a wash.",
                ).with_line("Take head of your skill, for you deserve the recognition!"),
            ),
        );
        let mut leaving: Vec<String> = Vec::new();
        leaving.push(String::from_str("Huzuh and good morrow my fiend of food. Huzuh!"));
        let mut entering: Vec<String> = Vec::new();
        entering.push(
            String::from_str("So, you are the one that will be cooking for me tonight?"),
        );
        g.add_segment(Segment::Transition(TransitionSegment::new(leaving, entering)));

        // The finale: Gordon orders his ramen.
        g.add_segment(Segment::MusicChange(MusicChangeSegment::change_too(MusicTrack::Boss)));
        g.add_segment(
            Segment::Dialogue(
                NpcDialogueSegment::new().with_line(
                    "I was expecting gyome but I guess I cant expect for a perfect meal every night.",
                ).with_line(
                    "Well, If I said that you were my first disappointment of the night I would be lying.",
                ).with_line(
                    "On the way here I saw a pedestrian eating Weef Bellington with ketchup. KETCHUP!!",
                ).with_line(
                    "That is a sin worse than war, murder, and out of taste clothing. I can tell based on your wardrobe that you are a sinner.",
                ).with_line(
                    "Where is your menu? Or is the only you serve here bad service and the black plague.",
                ).with_line(
                    "Disgusting. I hope that your food comes cooked and not BLOODY RAW!",
                ).with_line(
                    "Hmph. Now, I think I have berated you enough to work up an appetite. I will order my food now.",
                ).with_line(
                    "I want you to make your best ramen. A true mark of any great chef is to incorporate foreign dished into your repertoire.",
                ).with_line(
                    "I will see your skill by eating a dish that is uncommon. Also there is a twist.",
                ),
            ),
        );
        g.add_segment(Segment::StartBossFight(StartBossFightSegment::default()));
        g.add_segment(
            Segment::Dialogue(
                NpcDialogueSegment::new().with_line(
                    "I will time you. You have 10 minutes to complete the dish.",
                ).with_line(
                    "This ramen must be made with eight ingredients only. I will give you a description of what I want now.",
                ).with_line("Listen close, because I wont repeat myself.").with_line(
                    "Seriously, I WONT repeat myself.",
                ).with_line(
                    "I want a spicy ramen with a delicious broth and traditionally cooked meat.",
                ).with_line(
                    "The noodles better be made from scratch, I will be able to tell. Garnish with a green and a hearty ingredient.",
                ).with_line(
                    "Once bowled, I want it to be served with utensils and an ice cube to cool it down.",
                ).with_line("Do you understand? Good. Your time starts..."),
            ),
        );
        g.add_segment(Segment::ToggleBossTimer(ToggleBossTimerSegment::default()));
        g.add_segment(Segment::Dialogue(NpcDialogueSegment::new().with_line("NOW!!!!")));
        g.add_segment(
            Segment::Crafting(
                CraftingSegment::new(Element::ramen(), true).with_hint(
                    "Make the ramen! What what are you waiting for?",
                ).with_hint("I told you I wouldn't repeat myself.").with_comment(
                    &Element::pork_broth(),
                    "Wow. Good use of your ingredients.",
                ).with_comment(
                    &Element::bone_chopstick(),
                    "I see what you are doing there. Very smart.",
                ).with_comment(
                    &Element::bone_chopsticks(),
                    "Perfect. I can eat with those.",
                ).with_comment(
                    &Element::dried_seaweed(),
                    "Yes, that will do nicely.",
                ).with_comment(
                    &Element::chashu(),
                    "Perfectly cooked and cut. A man class after all.",
                ).with_comment(&Element::noodle_dough(), "Ah, interesting.").with_comment(
                    &Element::ramen_noodles(),
                    "That is a nice cut of noodles.",
                ).with_comment(&Element::boiling_water(), "Interesting...").with_comment(
                    &Element::hard_boiled_egg(),
                    "Perfect addition to my ramen.",
                ),
            ),
        );
        g.add_segment(
            Segment::Dialogue(
                NpcDialogueSegment::new().with_line(
                    "Wow... this... is... actually good.",
                ).with_line(
                    "I dont say that often, but this ramen is actually very good.",
                ).with_line("Full credits. This is a good dish. Well done!"),
            ),
        );
        g.add_segment(Segment::WinGame(WinGameSegment::default()));

        g
    }
}

//==================================================================================================
//                  Laws of the cursor
//==================================================================================================

/// Monotonic advancement: along any run of consecutive tick cursor states,
/// the current index never decreases and grows by at most one per tick.
pub proof fn lemma_monotonic_advancement(
    len: int,
    trace: Seq<(int, Option<int>)>,
    i: int,
    j: int,
)
    requires
        forall|t: int|
            0 <= t < trace.len() - 1 ==> cursor_step(
                len,
                (#[trigger] trace[t]).0,
                trace[t].1,
                trace[t + 1].0,
                trace[t + 1].1,
            ),
        0 <= i <= j < trace.len(),
    ensures
        trace[i].0 <= trace[j].0 <= trace[i].0 + (j - i),
    decreases j - i,
{
    if i < j {
        lemma_monotonic_advancement(len, trace, i, j - 1);
    }
}

/// While the cursor sits still on segment `seg`, the last-initialized
/// marker keeps pointing at it.
proof fn lemma_marker_stays(len: int, trace: Seq<(int, Option<int>)>, seg: int, a: int, b: int)
    requires
        forall|t: int|
            0 <= t < trace.len() - 1 ==> cursor_step(
                len,
                (#[trigger] trace[t]).0,
                trace[t].1,
                trace[t + 1].0,
                trace[t + 1].1,
            ),
        0 <= a <= b < trace.len(),
        trace[a].1 == Some(seg),
        forall|s: int| a <= s <= b ==> (#[trigger] trace[s]).0 == seg,
    ensures
        trace[b].1 == Some(seg),
    decreases b - a,
{
    if a < b {
        lemma_marker_stays(len, trace, seg, a, b - 1);
    }
}

/// The other half of single entry: the first tick that finds segment `seg`
/// current does fire its entry hook, provided the run started with no
/// segment initialized (as a freshly constructed flow does).
pub proof fn lemma_first_tick_enters(
    len: int,
    trace: Seq<(int, Option<int>)>,
    seg: int,
    t: int,
)
    requires
        forall|s: int|
            0 <= s < trace.len() - 1 ==> cursor_step(
                len,
                (#[trigger] trace[s]).0,
                trace[s].1,
                trace[s + 1].0,
                trace[s + 1].1,
            ),
        0 <= t < trace.len() - 1,
        trace[0].1 is None,
        trace[t].0 == seg,
        seg < len,
        forall|s: int| 0 <= s < t ==> (#[trigger] trace[s]).0 != seg,
    ensures
        enters(len, trace[t].0, trace[t].1),
{
    if t > 0 {
        assert(cursor_step(len, trace[t - 1].0, trace[t - 1].1, trace[t].0, trace[t].1));
    }
}

/// Single entry: a tick `t` fires the entry hook of the segment it serves
/// exactly when `enters` holds of its starting state. Once some tick has
/// entered segment `seg`, no later tick enters it again: `on_segment_start`
/// runs at most once per segment over the whole run.
pub proof fn lemma_single_on_enter(
    len: int,
    trace: Seq<(int, Option<int>)>,
    seg: int,
    t1: int,
    t2: int,
)
    requires
        forall|t: int|
            0 <= t < trace.len() - 1 ==> cursor_step(
                len,
                (#[trigger] trace[t]).0,
                trace[t].1,
                trace[t + 1].0,
                trace[t + 1].1,
            ),
        0 <= t1 < t2 < trace.len() - 1,
        trace[t1].0 == seg,
        trace[t2].0 == seg,
        enters(len, trace[t1].0, trace[t1].1),
    ensures
        !enters(len, trace[t2].0, trace[t2].1),
{
    assert(trace[t1 + 1].1 == Some(seg));
    assert forall|s: int| t1 + 1 <= s <= t2 implies (#[trigger] trace[s]).0 == seg by {
        lemma_monotonic_advancement(len, trace, t1, s);
        lemma_monotonic_advancement(len, trace, s, t2);
        assert(trace[t1].0 <= trace[s].0);
        assert(trace[s].0 <= trace[t2].0);
        assert(trace[t1 + 1].0 <= trace[s].0) by {
            lemma_monotonic_advancement(len, trace, t1 + 1, s);
        }
        if trace[s].0 != seg {
            assert(trace[s].0 > seg || trace[s].0 < seg);
        }
    }
    lemma_marker_stays(len, trace, seg, t1 + 1, t2);
}

} // verus!
