//! The recipe registry: the lookup tables behind the three crafting
//! stations, keyed by element ids (unordered for the mixer).

use vstd::prelude::*;

use crate::element::Element;
use crate::furnace::FurnaceRecipe;
use crate::mixer::MixerRecipe;
use crate::slicer::SlicerRecipe;

verus! {

//==================================================================================================
//                          Mixer Recipe Identifier
//==================================================================================================

/// A mixer lookup key: an unordered pair of element ids.
#[derive(Debug)]
pub struct MixerRecipeIden {
    pub item_a: String,
    pub item_b: String,
}

impl MixerRecipeIden {
    pub fn new(item_a: &str, item_b: &str) -> (r: MixerRecipeIden)
        ensures
            r.item_a@ == item_a@,
            r.item_b@ == item_b@,
    {
        MixerRecipeIden { item_a: String::from_str(item_a), item_b: String::from_str(item_b) }
    }
}

impl PartialEq for MixerRecipeIden {
    /// Two keys are equal when they hold the same ids in either order.
    fn eq(&self, other: &MixerRecipeIden) -> (r: bool) {
        let case_a = self.item_a == other.item_a && self.item_b == other.item_b;
        let case_b = self.item_a == other.item_b && self.item_b == other.item_a;
        case_a || case_b
    }
}

impl vstd::std_specs::cmp::PartialEqSpecImpl for MixerRecipeIden {
    open spec fn obeys_eq_spec() -> bool {
        true
    }

    open spec fn eq_spec(&self, other: &MixerRecipeIden) -> bool {
        ||| (self.item_a@ == other.item_a@ && self.item_b@ == other.item_b@)
        ||| (self.item_a@ == other.item_b@ && self.item_b@ == other.item_a@)
    }
}

//==================================================================================================
//                          Furnace Recipe Identifier
//==================================================================================================

/// A furnace lookup key: fuel and object, in that order.
#[derive(Debug)]
pub struct FurnaceRecipeIden {
    pub fuel: Element,
    pub object: Element,
}

impl FurnaceRecipeIden {
    pub fn new(fuel: Element, object: Element) -> (r: FurnaceRecipeIden)
        ensures
            r.fuel == fuel,
            r.object == object,
    {
        FurnaceRecipeIden { fuel, object }
    }
}

impl PartialEq for FurnaceRecipeIden {
    fn eq(&self, other: &FurnaceRecipeIden) -> (r: bool) {
        self.fuel == other.fuel && self.object == other.object
    }
}

impl vstd::std_specs::cmp::PartialEqSpecImpl for FurnaceRecipeIden {
    open spec fn obeys_eq_spec() -> bool {
        true
    }

    open spec fn eq_spec(&self, other: &FurnaceRecipeIden) -> bool {
        self.fuel.id@ == other.fuel.id@ && self.object.id@ == other.object.id@
    }
}

//==================================================================================================
//                          Lookup semantics
//==================================================================================================

/// Whether a mixer recipe matches the unordered pair of ids `(a, b)`.
pub open spec fn mixer_matches(r: MixerRecipe, a: Seq<char>, b: Seq<char>) -> bool {
    ||| (r.first.id@ == a && r.second.id@ == b)
    ||| (r.first.id@ == b && r.second.id@ == a)
}

/// The first mixer recipe matching the unordered pair `(a, b)`.
pub open spec fn find_mixer(rs: Seq<MixerRecipe>, a: Seq<char>, b: Seq<char>) -> Option<MixerRecipe>
    decreases rs.len(),
{
    if rs.len() == 0 {
        None
    } else if mixer_matches(rs[0], a, b) {
        Some(rs[0])
    } else {
        find_mixer(rs.drop_first(), a, b)
    }
}

/// The first furnace recipe for `fuel` below and `object` above.
pub open spec fn find_furnace(rs: Seq<FurnaceRecipe>, fuel: Seq<char>, object: Seq<char>) -> Option<
    FurnaceRecipe,
>
    decreases rs.len(),
{
    if rs.len() == 0 {
        None
    } else if rs[0].fuel.id@ == fuel && rs[0].object.id@ == object {
        Some(rs[0])
    } else {
        find_furnace(rs.drop_first(), fuel, object)
    }
}

/// The first slicer recipe for `object`.
pub open spec fn find_slicer(rs: Seq<SlicerRecipe>, object: Seq<char>) -> Option<SlicerRecipe>
    decreases rs.len(),
{
    if rs.len() == 0 {
        None
    } else if rs[0].object.id@ == object {
        Some(rs[0])
    } else {
        find_slicer(rs.drop_first(), object)
    }
}

//==================================================================================================
//                          Registry
//==================================================================================================

/// The three stations' recipe tables.
#[derive(Debug)]
pub struct Registry {
    pub mixer_recipe_registry: Vec<MixerRecipe>,
    pub furnace_recipe_registry: Vec<FurnaceRecipe>,
    pub slicer_recipe_registry: Vec<SlicerRecipe>,
}

impl Registry {
    /// Look a mixer craft up: the two ingredients match in either order.
    pub fn find_mixer_recipe(&self, a: &Element, b: &Element) -> (r: Option<&MixerRecipe>)
        ensures
            match r {
                Some(rec) => find_mixer(self.mixer_recipe_registry@, a.id@, b.id@) == Some(*rec),
                None => find_mixer(self.mixer_recipe_registry@, a.id@, b.id@) is None,
            },
    {
        let key = MixerRecipeIden::new(a.id.as_str(), b.id.as_str());
        let ghost rs = self.mixer_recipe_registry@;
        proof {
            assert(rs.skip(0) =~= rs);
        }
        let mut j: usize = 0;
        while j < self.mixer_recipe_registry.len()
            invariant
                j <= rs.len(),
                self.mixer_recipe_registry@ == rs,
                key.item_a@ == a.id@,
                key.item_b@ == b.id@,
                find_mixer(rs, a.id@, b.id@) == find_mixer(rs.skip(j as int), a.id@, b.id@),
            decreases rs.len() - j,
        {
            let rec = &self.mixer_recipe_registry[j];
            let rec_key = MixerRecipeIden::new(rec.first.id.as_str(), rec.second.id.as_str());
            proof {
                assert(rs.skip(j as int)[0] == rs[j as int]);
                assert(rs.skip(j as int).drop_first() =~= rs.skip(j + 1));
            }
            if key == rec_key {
                return Some(rec);
            }
            j = j + 1;
        }
        proof {
            assert(rs.skip(rs.len() as int) =~= Seq::<MixerRecipe>::empty());
        }
        None
    }

    /// Look a furnace craft up: fuel below, object above, in that order.
    pub fn find_furnace_recipe(&self, fuel: &Element, object: &Element) -> (r: Option<
        &FurnaceRecipe,
    >)
        ensures
            match r {
                Some(rec) => find_furnace(self.furnace_recipe_registry@, fuel.id@, object.id@)
                    == Some(*rec),
                None => find_furnace(self.furnace_recipe_registry@, fuel.id@, object.id@) is None,
            },
    {
        let ghost rs = self.furnace_recipe_registry@;
        proof {
            assert(rs.skip(0) =~= rs);
        }
        let mut j: usize = 0;
        while j < self.furnace_recipe_registry.len()
            invariant
                j <= rs.len(),
                self.furnace_recipe_registry@ == rs,
                find_furnace(rs, fuel.id@, object.id@) == find_furnace(
                    rs.skip(j as int),
                    fuel.id@,
                    object.id@,
                ),
            decreases rs.len() - j,
        {
            let rec = &self.furnace_recipe_registry[j];
            proof {
                assert(rs.skip(j as int)[0] == rs[j as int]);
                assert(rs.skip(j as int).drop_first() =~= rs.skip(j + 1));
            }
            if rec.fuel == *fuel && rec.object == *object {
                return Some(rec);
            }
            j = j + 1;
        }
        proof {
            assert(rs.skip(rs.len() as int) =~= Seq::<FurnaceRecipe>::empty());
        }
        None
    }

    /// Look a slicer craft up by the object on the board.
    pub fn find_slicer_recipe(&self, object: &Element) -> (r: Option<&SlicerRecipe>)
        ensures
            match r {
                Some(rec) => find_slicer(self.slicer_recipe_registry@, object.id@) == Some(*rec),
                None => find_slicer(self.slicer_recipe_registry@, object.id@) is None,
            },
    {
        let ghost rs = self.slicer_recipe_registry@;
        proof {
            assert(rs.skip(0) =~= rs);
        }
        let mut j: usize = 0;
        while j < self.slicer_recipe_registry.len()
            invariant
                j <= rs.len(),
                self.slicer_recipe_registry@ == rs,
                find_slicer(rs, object.id@) == find_slicer(rs.skip(j as int), object.id@),
            decreases rs.len() - j,
        {
            let rec = &self.slicer_recipe_registry[j];
            proof {
                assert(rs.skip(j as int)[0] == rs[j as int]);
                assert(rs.skip(j as int).drop_first() =~= rs.skip(j + 1));
            }
            if rec.object == *object {
                return Some(rec);
            }
            j = j + 1;
        }
        proof {
            assert(rs.skip(rs.len() as int) =~= Seq::<SlicerRecipe>::empty());
        }
        None
    }
}

/// Position `i` of a mixer table holds the recipe `a + b -> res`.
pub open spec fn mixer_entry(rs: Seq<MixerRecipe>, i: int, a: Seq<char>, b: Seq<char>, res: Seq<
    char,
>) -> bool {
    rs[i].first.id@ == a && rs[i].second.id@ == b && rs[i].result.id@ == res
}

/// Position `i` of a furnace table holds the recipe `fuel / obj -> res`.
pub open spec fn furnace_entry(rs: Seq<FurnaceRecipe>, i: int, fuel: Seq<char>, obj: Seq<char>, res: Seq<
    char,
>) -> bool {
    rs[i].fuel.id@ == fuel && rs[i].object.id@ == obj && rs[i].result.id@ == res
}

/// Position `i` of a slicer table holds the recipe `obj -> res`.
pub open spec fn slicer_entry(rs: Seq<SlicerRecipe>, i: int, obj: Seq<char>, res: Seq<char>) -> bool {
    rs[i].object.id@ == obj && rs[i].result.id@ == res
}

impl Default for Registry {
    /// The game's full recipe book.
    fn default() -> (r: Registry)
        ensures
            r.mixer_recipe_registry@.len() == 13,
            mixer_entry(r.mixer_recipe_registry@, 0, "shaved_ice"@, "legend_dairy"@, "utter_ice_cream"@),
            mixer_entry(r.mixer_recipe_registry@, 1, "fantasy_flour"@, "yeti_water"@, "bread_dough"@),
            mixer_entry(r.mixer_recipe_registry@, 2, "elven_bread"@, "utter_ice_cream"@, "ice_cream_sandwich"@),
            mixer_entry(r.mixer_recipe_registry@, 3, "griffon_egg"@, "griffon_egg"@, "mayo"@),
            mixer_entry(r.mixer_recipe_registry@, 4, "mayo"@, "legend_dairy"@, "ranch"@),
            mixer_entry(r.mixer_recipe_registry@, 5, "diced_croutons"@, "ranch"@, "salad_topping"@),
            mixer_entry(r.mixer_recipe_registry@, 6, "siren_seaweed"@, "salad_topping"@, "salad"@),
            mixer_entry(r.mixer_recipe_registry@, 7, "mayo"@, "pepper_flakes"@, "spicy_spread"@),
            mixer_entry(r.mixer_recipe_registry@, 8, "spicy_spread"@, "elven_toast"@, "spicy_toast"@),
            mixer_entry(r.mixer_recipe_registry@, 9, "sandwich_filling"@, "spicy_toast"@, "sandwich"@),
            mixer_entry(r.mixer_recipe_registry@, 10, "raw_pork"@, "boiling_water"@, "cooked_pork"@),
            mixer_entry(r.mixer_recipe_registry@, 11, "scrambled_egg"@, "bacon"@, "sandwich_filling"@),
            mixer_entry(r.mixer_recipe_registry@, 12, "griffon_egg"@, "boiling_water"@, "hard_boiled_egg"@),
            r.furnace_recipe_registry@.len() == 7,
            furnace_entry(r.furnace_recipe_registry@, 0, "frost_dragon_scale"@, "yeti_water"@, "glacier_ice"@),
            furnace_entry(r.furnace_recipe_registry@, 1, "magma_pepper"@, "bread_dough"@, "elven_bread"@),
            furnace_entry(r.furnace_recipe_registry@, 2, "magma_pepper"@, "elven_bread"@, "elven_toast"@),
            furnace_entry(r.furnace_recipe_registry@, 3, "magma_pepper"@, "griffon_egg"@, "scrambled_egg"@),
            furnace_entry(r.furnace_recipe_registry@, 4, "magma_pepper"@, "raw_bacon"@, "bacon"@),
            furnace_entry(r.furnace_recipe_registry@, 5, "magma_pepper"@, "siren_seaweed"@, "dired_seaweed"@),
            furnace_entry(r.furnace_recipe_registry@, 6, "magma_pepper"@, "yeti_water"@, "boiling_water"@),
            r.slicer_recipe_registry@.len() == 8,
            slicer_entry(r.slicer_recipe_registry@, 0, "glacier_ice"@, "shaved_ice"@),
            slicer_entry(r.slicer_recipe_registry@, 1, "magma_pepper"@, "pepper_flakes"@),
            slicer_entry(r.slicer_recipe_registry@, 2, "elven_toast"@, "diced_croutons"@),
            slicer_entry(r.slicer_recipe_registry@, 3, "sandwich"@, "cut_sandwich"@),
            slicer_entry(r.slicer_recipe_registry@, 4, "bone"@, "bone_chopstick"@),
            slicer_entry(r.slicer_recipe_registry@, 5, "raw_pork"@, "raw_bacon"@),
            slicer_entry(r.slicer_recipe_registry@, 6, "cooked_pork"@, "chashu"@),
            slicer_entry(r.slicer_recipe_registry@, 7, "noodle_dough"@, "ramen_noodles"@),
    {
        let mut mixer: Vec<MixerRecipe> = Vec::new();
        mixer.push(MixerRecipe::new(Element::shaved_ice(), Element::legend_dairy(), Element::utter_ice_cream()));
        mixer.push(MixerRecipe::new(Element::fantasy_flour(), Element::yeti_water(), Element::bread_dough()));
        mixer.push(MixerRecipe::new(Element::elven_bread(), Element::utter_ice_cream(), Element::ice_cream_sandwich()));
        mixer.push(MixerRecipe::new(Element::griffon_egg(), Element::griffon_egg(), Element::mayo()));
        mixer.push(MixerRecipe::new(Element::mayo(), Element::legend_dairy(), Element::ranch()));
        mixer.push(MixerRecipe::new(Element::diced_croutons(), Element::ranch(), Element::salad_topping()));
        mixer.push(MixerRecipe::new(Element::siren_seaweed(), Element::salad_topping(), Element::salad()));
        mixer.push(MixerRecipe::new(Element::mayo(), Element::pepper_flakes(), Element::spicy_spread()));
        mixer.push(MixerRecipe::new(Element::spicy_spread(), Element::elven_toast(), Element::spicy_toast()));
        mixer.push(MixerRecipe::new(Element::sandwich_fillings(), Element::spicy_toast(), Element::sandwich()));
        mixer.push(MixerRecipe::new(Element::raw_pork(), Element::boiling_water(), Element::cooked_pork()));
        mixer.push(MixerRecipe::new(Element::scrambled_egg(), Element::bacon(), Element::sandwich_fillings()));
        mixer.push(MixerRecipe::new(Element::griffon_egg(), Element::boiling_water(), Element::hard_boiled_egg()));
        let mut furnace: Vec<FurnaceRecipe> = Vec::new();
        furnace.push(FurnaceRecipe::new(Element::frozen_dragon_scale(), Element::yeti_water(), Element::glacier_ice()));
        furnace.push(FurnaceRecipe::new(Element::magma_pepper(), Element::bread_dough(), Element::elven_bread()));
        furnace.push(FurnaceRecipe::new(Element::magma_pepper(), Element::elven_bread(), Element::elven_toast()));
        furnace.push(FurnaceRecipe::new(Element::magma_pepper(), Element::griffon_egg(), Element::scrambled_egg()));
        furnace.push(FurnaceRecipe::new(Element::magma_pepper(), Element::raw_bacon(), Element::bacon()));
        furnace.push(FurnaceRecipe::new(Element::magma_pepper(), Element::siren_seaweed(), Element::dried_seaweed()));
        furnace.push(FurnaceRecipe::new(Element::magma_pepper(), Element::yeti_water(), Element::boiling_water()));
        let mut slicer: Vec<SlicerRecipe> = Vec::new();
        slicer.push(SlicerRecipe::new(Element::glacier_ice(), Element::shaved_ice()));
        slicer.push(SlicerRecipe::new(Element::magma_pepper(), Element::pepper_flakes()));
        slicer.push(SlicerRecipe::new(Element::elven_toast(), Element::diced_croutons()));
        slicer.push(SlicerRecipe::new(Element::sandwich(), Element::cut_sandwich()));
        slicer.push(SlicerRecipe::new(Element::bone(), Element::bone_chopstick()));
        slicer.push(SlicerRecipe::new(Element::raw_pork(), Element::raw_bacon()));
        slicer.push(SlicerRecipe::new(Element::cooked_pork(), Element::chashu()));
        slicer.push(SlicerRecipe::new(Element::noodle_dough(), Element::ramen_noodles()));
        Registry {
            mixer_recipe_registry: mixer,
            furnace_recipe_registry: furnace,
            slicer_recipe_registry: slicer,
        }
    }
}

} // verus!
