//! Narrative characters (actors), the forward-only "current actor" pointer,
//! and the pacing rule that assigns every spoken line a display duration.

use vstd::prelude::*;
use vstd::std_specs::iter::IteratorSpec;

use crate::audio::SayEvent;
use crate::gameflow::EventCaller;

verus! {

broadcast use vstd::string::axiom_spec_iter, vstd::string::next_postcondition;

/// The cast of the story, in order of appearance.
#[derive(Debug, Clone, Copy, PartialEq, Eq, Structural)]
pub enum NpcKind {
    Squee,
    Conrad,
    Pumkinhead,
    Gordon,
}

/// A narrative character: display data plus the talking-animation counter.
#[derive(Debug, Clone)]
pub struct Npc {
    pub kind: NpcKind,
    pub name: String,
    pub sprite_path: String,
    pub talking_index: usize,
}

impl Npc {
    /// Advance the talking animation and return which of the two talking
    /// frames to show.
    pub fn talk_frame(&mut self) -> (i: usize)
        requires
            old(self).talking_index < usize::MAX,
        ensures
            final(self).talking_index == old(self).talking_index + 1,
            final(self).kind == old(self).kind,
            final(self).name == old(self).name,
            final(self).sprite_path == old(self).sprite_path,
            i == final(self).talking_index % 2,
    {
        self.talking_index = self.talking_index + 1;
        let i: usize = self.talking_index % 2;
        i
    }
}

//==================================================================================================
//                  Line pacing
//==================================================================================================

/// Milliseconds of display time per ordinary character.
pub const CHAR_MILLIS: u64 = 40;

/// Display time of one character, in milliseconds: ordinary characters get
/// one base unit, a space one and a half, a comma three, and a sentence
/// ender six.
pub open spec fn char_duration_millis(c: char) -> nat {
    if c == ' ' {
        60
    } else if c == ',' {
        120
    } else if c == '.' || c == '!' || c == '?' {
        240
    } else {
        40
    }
}

/// Display time of a whole line: the sum of its characters' times.
pub open spec fn line_duration_millis(s: Seq<char>) -> nat
    decreases s.len(),
{
    if s.len() == 0 {
        0
    } else {
        char_duration_millis(s[0]) + line_duration_millis(s.drop_first())
    }
}

/// The line duration as carried at runtime: clamped into `u64`.
pub open spec fn clamped_duration_millis(s: Seq<char>) -> u64 {
    if line_duration_millis(s) <= u64::MAX {
        line_duration_millis(s) as u64
    } else {
        u64::MAX
    }
}

/// Appending one character adds exactly that character's time.
pub proof fn lemma_duration_push(s: Seq<char>, c: char)
    ensures
        line_duration_millis(s.push(c)) == line_duration_millis(s) + char_duration_millis(c),
    decreases s.len(),
{
    assert(s.push(c).len() == s.len() + 1);
    assert(line_duration_millis(s.push(c)) == char_duration_millis(s.push(c)[0])
        + line_duration_millis(s.push(c).drop_first()));
    if s.len() == 0 {
        assert(s.push(c)[0] == c);
        assert(s.push(c).drop_first() =~= Seq::<char>::empty());
        assert(line_duration_millis(Seq::<char>::empty()) == 0);
    } else {
        assert(s.push(c)[0] == s[0]);
        assert(s.push(c).drop_first() =~= s.drop_first().push(c));
        lemma_duration_push(s.drop_first(), c);
        assert(line_duration_millis(s) == char_duration_millis(s[0]) + line_duration_millis(
            s.drop_first(),
        ));
    }
}

/// How many characters of a line are revealed after `elapsed` milliseconds:
/// characters are revealed one by one, each after its own display time, and
/// the reveal index stops growing at the line's length.
pub open spec fn revealed_index(s: Seq<char>, elapsed: int) -> nat
    decreases s.len(),
{
    if s.len() == 0 {
        0
    } else if char_duration_millis(s[0]) > elapsed {
        1
    } else {
        1 + revealed_index(s.drop_first(), elapsed - char_duration_millis(s[0]))
    }
}

pub proof fn lemma_revealed_index_le_len(s: Seq<char>, elapsed: int)
    ensures
        revealed_index(s, elapsed) <= s.len(),
    decreases s.len(),
{
    if s.len() > 0 && char_duration_millis(s[0]) <= elapsed {
        lemma_revealed_index_le_len(s.drop_first(), elapsed - char_duration_millis(s[0]));
    }
}

/// A line being spoken: the text, how many characters are revealed so far,
/// and the full display duration computed by the pacing rule.
#[derive(Debug, Clone)]
pub struct Say {
    pub text: String,
    pub i: usize,
    pub duration_millis: u64,
}

impl Say {
    /// Display time of one character, in milliseconds.
    pub fn char_duration(c: char) -> (d: u64)
        ensures
            d == char_duration_millis(c),
    {
        match c {
            ' ' => 60,
            ',' => 120,
            '.' | '!' | '?' => 240,
            _ => 40,
        }
    }

    /// Total display time of a line, in milliseconds, clamped into `u64`.
    pub fn line_duration(text: &str) -> (d: u64)
        ensures
            d == clamped_duration_millis(text@),
    {
        let ghost s = text@;
        let ghost mut done: Seq<char> = Seq::empty();
        let mut total: u64 = 0;
        let mut it = text.chars();
        proof {
            assert(done + it.remaining() =~= s);
        }
        loop
            invariant
                done + it.remaining() =~= s,
                total == clamped_duration_millis(done),
                it.decrease() is Some,
            ensures
                total == clamped_duration_millis(s),
            decreases it.decrease()->0,
        {
            let ghost rem = it.remaining();
            match it.next() {
                Some(c) => {
                    let d = Say::char_duration(c);
                    proof {
                        lemma_duration_push(done, c);
                        done = done.push(c);
                        assert(done + it.remaining() =~= s);
                    }
                    if d > u64::MAX - total {
                        total = u64::MAX;
                    } else {
                        total = total + d;
                    }
                },
                None => {
                    proof {
                        assert(done =~= s);
                    }
                    break ;
                },
            }
        }
        total
    }

    /// Start saying `text` from its beginning.
    pub fn new(text: &str) -> (s: Say)
        ensures
            s.text@ == text@,
            s.i == 0,
            s.duration_millis == clamped_duration_millis(text@),
    {
        let duration_millis = Say::line_duration(text);
        Say { text: String::from_str(text), i: 0, duration_millis }
    }

    /// How many characters should be revealed `elapsed_millis` after this
    /// line started.
    pub fn compute_i(&self, elapsed_millis: u64) -> (i: usize)
        requires
            self.text@.len() < usize::MAX,
        ensures
            i == revealed_index(self.text@, elapsed_millis as int),
    {
        let ghost s = self.text@;
        let mut count: u128 = 0;
        let mut new_i: usize = 0;
        let mut it = self.text.as_str().chars();
        proof {
            assert(it.remaining() =~= s.skip(0));
        }
        loop
            invariant_except_break
                count <= elapsed_millis,
                revealed_index(s, elapsed_millis as int) == new_i + revealed_index(
                    it.remaining(),
                    elapsed_millis - count,
                ),
            invariant
                self.text@ == s,
                s.len() < usize::MAX,
                new_i + it.remaining().len() <= s.len(),
                it.remaining() =~= s.skip(new_i as int),
                it.decrease() is Some,
            ensures
                new_i == revealed_index(s, elapsed_millis as int),
            decreases it.decrease()->0,
        {
            let ghost rem = it.remaining();
            let ghost old_count = count;
            let ghost old_i = new_i as int;
            match it.next() {
                Some(c) => {
                    let d = Say::char_duration(c);
                    proof {
                        assert(rem[0] == c);
                        assert(it.remaining() =~= s.skip(old_i + 1));
                        assert(revealed_index(rem, elapsed_millis - old_count) == (if char_duration_millis(c) > elapsed_millis - old_count {
                            1
                        } else {
                            1 + revealed_index(
                                rem.drop_first(),
                                elapsed_millis - old_count - char_duration_millis(c),
                            )
                        }));
                    }
                    count = count + d as u128;
                    new_i = new_i + 1;
                    if count > elapsed_millis as u128 {
                        proof {
                            assert(revealed_index(rem, elapsed_millis - old_count) == 1);
                            assert(new_i == revealed_index(s, elapsed_millis as int));
                        }
                        break ;
                    }
                    proof {
                        assert(rem.drop_first() =~= it.remaining());
                    }
                },
                None => {
                    proof {
                        assert(rem.len() == 0);
                        assert(revealed_index(rem, elapsed_millis - old_count) == 0);
                    }
                    break ;
                },
            }
        }
        new_i
    }
}

//==================================================================================================
//                  The actor directory
//==================================================================================================

/// The ordered cast and the forward-only pointer to the actor currently
/// on stage. Only the actor-transition segment moves the pointer.
#[derive(Debug, Clone)]
pub struct NPCData {
    pub npcs: Vec<Npc>,
    pub current_npc: usize,
}

impl NPCData {
    /// Whether some actor is currently on stage.
    pub open spec fn has_current(self) -> bool {
        self.current_npc < self.npcs@.len()
    }

    pub fn get_current_npc(&self) -> (r: Option<&Npc>)
        ensures
            match r {
                Some(npc) => self.has_current() && *npc == self.npcs@[self.current_npc as int],
                None => !self.has_current(),
            },
    {
        if self.current_npc < self.npcs.len() {
            Some(&self.npcs[self.current_npc])
        } else {
            None
        }
    }

    /// Attribute `message` to the current actor by requesting a display-line
    /// effect sized by the pacing rule. With nobody on stage the line is
    /// skipped: a missing collaborator must not fault the tick loop.
    pub fn say(&self, event_caller: &mut EventCaller, message: String)
        ensures
            self.has_current() ==> *final(event_caller) == (EventCaller {
                say_event: Some(
                    SayEvent {
                        text: message,
                        duration_millis: clamped_duration_millis(message@),
                    },
                ),
                ..*old(event_caller)
            }),
            !self.has_current() ==> *final(event_caller) == *old(event_caller),
    {
        if self.current_npc < self.npcs.len() {
            let duration_millis = Say::line_duration(message.as_str());
            event_caller.say_event = Some(SayEvent { text: message, duration_millis });
        }
    }

    /// Bring the next actor on stage. The pointer never runs past the end
    /// of the cast and never moves backwards.
    pub fn spawn_next_npc(&mut self)
        ensures
            final(self).npcs == old(self).npcs,
            final(self).current_npc == (if old(self).has_current() {
                old(self).current_npc + 1
            } else {
                old(self).current_npc as int
            }),
    {
        if self.current_npc < self.npcs.len() {
            self.current_npc = self.current_npc + 1;
        }
    }
}

/// The story's cast, in order of appearance: the tavern goblin, the knight
/// (who visits twice), the pig farmer, and the demanding food critic.
pub fn standard_npcs() -> (cast: Vec<Npc>)
    ensures
        cast@.len() == 5,
        cast@[0].kind == NpcKind::Squee,
        cast@[1].kind == NpcKind::Conrad,
        cast@[2].kind == NpcKind::Pumkinhead,
        cast@[3].kind == NpcKind::Conrad,
        cast@[4].kind == NpcKind::Gordon,
        forall|i: int| 0 <= i < 5 ==> (#[trigger] cast@[i]).talking_index == 0,
{
    let mut cast: Vec<Npc> = Vec::new();
    cast.push(
        Npc {
            kind: NpcKind::Squee,
            name: String::from_str("Squee the Thumbless"),
            sprite_path: String::from_str("sprites/squee.png"),
            talking_index: 0,
        },
    );
    cast.push(
        Npc {
            kind: NpcKind::Conrad,
            name: String::from_str("Sir Conrad"),
            sprite_path: String::from_str("sprites/sir_conrad.png"),
            talking_index: 0,
        },
    );
    cast.push(
        Npc {
            kind: NpcKind::Pumkinhead,
            name: String::from_str("Pumpkinhead"),
            sprite_path: String::from_str("sprites/pumpkinhead.png"),
            talking_index: 0,
        },
    );
    cast.push(
        Npc {
            kind: NpcKind::Conrad,
            name: String::from_str("Sir Conrad"),
            sprite_path: String::from_str("sprites/sir_conrad.png"),
            talking_index: 0,
        },
    );
    cast.push(
        Npc {
            kind: NpcKind::Gordon,
            name: String::from_str("Gordon"),
            sprite_path: String::from_str("sprites/gordon.png"),
            talking_index: 0,
        },
    );
    cast
}

impl Default for NPCData {
    fn default() -> (r: NPCData)
        ensures
            r.npcs@.len() == 0,
            r.current_npc == 0,
    {
        NPCData { npcs: Vec::new(), current_npc: 0 }
    }
}

} // verus!
