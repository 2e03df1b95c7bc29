//! Crafting ingredients and products ("elements"), identified by a stable
//! string id. Name and description are presentation data; equality is by id.

use vstd::prelude::*;

verus! {

/// An immutable crafting ingredient or product. Two elements are the same
/// element exactly when their ids agree; `name` and `desc` are display text.
#[derive(Debug)]
pub struct Element {
    pub name: String,
    pub id: String,
    pub desc: String,
}

impl Element {
    pub fn new(name: &str, id: &str, desc: &str) -> (e: Element)
        ensures
            e.name@ == name@,
            e.id@ == id@,
            e.desc@ == desc@,
    {
        Element { name: String::from_str(name), id: String::from_str(id), desc: String::from_str(desc) }
    }

    /// Path of the sprite asset for this element: `sprites/<id>.png`.
    pub fn sprite_file_path(&self) -> (p: String)
        ensures
            p@ == "sprites/"@ + self.id@ + ".png"@,
    {
        let mut p = String::from_str("sprites/");
        p.append(self.id.as_str());
        p.append(".png");
        p
    }
}

/// The element catalog: every ingredient and product the story uses, as
/// constructors keyed by their stable ids.
impl Element {
    pub fn frozen_dragon_scale() -> (e: Element)
        ensures
            e.id@ == "frost_dragon_scale"@,
    {
        Element::new("Frost Scale", "frost_dragon_scale", "A scale from a dragon that is cold to the touch. It will freeze you if you arent careful.")
    }

    pub fn yeti_water() -> (e: Element)
        ensures
            e.id@ == "yeti_water"@,
    {
        Element::new("Yeti Water", "yeti_water", "A hydrating liquid with a strange stench. You think this is just normal water, but something is off... ")
    }

    pub fn glacier_ice() -> (e: Element)
        ensures
            e.id@ == "glacier_ice"@,
    {
        Element::new("Glacier Ice", "glacier_ice", "Your tongue is drawn to the frosty surface...")
    }

    pub fn legend_dairy() -> (e: Element)
        ensures
            e.id@ == "legend_dairy"@,
    {
        Element::new("Legend Dairy", "legend_dairy", "Utterly Delicious. Legend speaks of the cow from which this heavenly cream comes from")
    }

    pub fn shaved_ice() -> (e: Element)
        ensures
            e.id@ == "shaved_ice"@,
    {
        Element::new("Shaved Ice", "shaved_ice", "The most clean shaven ice youve ever seen. To bad you cant shave yourself like that.")
    }

    pub fn utter_ice_cream() -> (e: Element)
        ensures
            e.id@ == "utter_ice_cream"@,
    {
        Element::new("Utter Ice Cream", "utter_ice_cream", "Utterly delicious ice cream that comes in a cute little cone! No, I dont know where I found the cone.")
    }

    pub fn fantasy_flour() -> (e: Element)
        ensures
            e.id@ == "fantasy_flour"@,
    {
        Element::new("Fantasy Flour", "fantasy_flour", "Flour, but fantasy flavored. Pun intended. This can be used to make everything from bread to pasta.")
    }

    pub fn magma_pepper() -> (e: Element)
        ensures
            e.id@ == "magma_pepper"@,
    {
        Element::new("Magma Pepper", "magma_pepper", "Really, really, REALLY hot. These are grown on the rim of an active volcano. Used for dragon kibble.")
    }

    pub fn bread_dough() -> (e: Element)
        ensures
            e.id@ == "bread_dough"@,
    {
        Element::new("Bread Dough", "bread_dough", "Bread dough that is slightly sticky. You dont know how it rose so fast, best not think about it to hard.")
    }

    pub fn elven_bread() -> (e: Element)
        ensures
            e.id@ == "elven_bread"@,
    {
        Element::new("Elven Bread", "elven_bread", "Bread that is cooked in the traditional elven way. With a pepper as heat. Tastes good!")
    }

    pub fn pepper_flakes() -> (e: Element)
        ensures
            e.id@ == "pepper_flakes"@,
    {
        Element::new("Pepper Flakes", "pepper_flakes", "Hot flakes that sizzle when you touch them. This will make any dish spicy.")
    }

    pub fn ice_cream_sandwich() -> (e: Element)
        ensures
            e.id@ == "ice_cream_sandwich"@,
    {
        Element::new("Ice Cream Sandwich", "ice_cream_sandwich", "Though normal bread isnt typically used, is it fairly yummy.")
    }

    pub fn elven_toast() -> (e: Element)
        ensures
            e.id@ == "elven_toast"@,
    {
        Element::new("Elven Toast", "elven_toast", "Finest toast with the confines of this tavern. Its crazy how many things are just better when cooked.")
    }

    pub fn griffon_egg() -> (e: Element)
        ensures
            e.id@ == "griffon_egg"@,
    {
        Element::new("Griffon Egg", "griffon_egg", "An egg as big as your head! Serves 5. Taken from a griffons nest not to long ago.")
    }

    pub fn siren_seaweed() -> (e: Element)
        ensures
            e.id@ == "siren_seaweed"@,
    {
        Element::new("Siren Seaweed", "siren_seaweed", "The name is misleading, this isnt seaweed harvested from sirens. No, just around where they are. Cant help but like em!")
    }

    pub fn diced_croutons() -> (e: Element)
        ensures
            e.id@ == "diced_croutons"@,
    {
        Element::new("Diced Croutons", "diced_croutons", "Youre on a roll! After these croutons youll be in para-dice.")
    }

    pub fn ranch() -> (e: Element)
        ensures
            e.id@ == "ranch"@,
    {
        Element::new("Ranch", "ranch", "Ranch ironically made off of a ranch. Creamy and delicious, why not smother it of everything?")
    }

    pub fn mayo() -> (e: Element)
        ensures
            e.id@ == "mayo"@,
    {
        Element::new("Mayo", "mayo", "A creamy spread made by whipping two eggs together. A classic addition for sammys!")
    }

    pub fn salad_topping() -> (e: Element)
        ensures
            e.id@ == "salad_topping"@,
    {
        Element::new("Salad Topping", "salad_topping", "A mixture of the croutons and the ranch. If only you had something to put this on...")
    }

    pub fn salad() -> (e: Element)
        ensures
            e.id@ == "salad"@,
    {
        Element::new("Salad", "salad", "A (sorta) healthy and tasty meal! Wilbur is sure to love this.")
    }

    pub fn scrambled_egg() -> (e: Element)
        ensures
            e.id@ == "scrambled_egg"@,
    {
        Element::new("Scrambled Egg", "scrambled_egg", "Nice and fluffy egg, cooked an scrambled to perfect. Perfect for a hearty breakfast sandwich.")
    }

    pub fn raw_pork() -> (e: Element)
        ensures
            e.id@ == "raw_pork"@,
    {
        Element::new("Raw Pork", "raw_pork", "Meat straight from the pig! Did you know that english is one of the only languages that has different words for an animal and the meat it produces?")
    }

    pub fn raw_bacon() -> (e: Element)
        ensures
            e.id@ == "raw_bacon"@,
    {
        Element::new("Raw Bacon", "raw_bacon", "It's bacon! Of course we had to put it in the game, its bacon! Gotta cook it first though.")
    }

    pub fn bacon() -> (e: Element)
        ensures
            e.id@ == "bacon"@,
    {
        Element::new("Bacon", "bacon", "You baked some bacon! Yummy and greasy sweet meat that is such a treat.")
    }

    pub fn spicy_spread() -> (e: Element)
        ensures
            e.id@ == "spicy_spread"@,
    {
        Element::new("Spicy Spread", "spicy_spread", "This is a nice spread made from mayo and pepper flakes, adds a pleasant kick to whatever you spread it on.")
    }

    pub fn spicy_toast() -> (e: Element)
        ensures
            e.id@ == "spicy_toast"@,
    {
        Element::new("Spicy Toast", "spicy_toast", "Toast with a spicy spread on it. You could probably eat this on your own and be happy, but you should add more...")
    }

    pub fn sandwich_fillings() -> (e: Element)
        ensures
            e.id@ == "sandwich_filling"@,
    {
        Element::new("Sandwich Fillings", "sandwich_filling", "A mixture of egg and bacon that is by itself a hearty meal, however it could use something else...")
    }

    pub fn sandwich() -> (e: Element)
        ensures
            e.id@ == "sandwich"@,
    {
        Element::new("Sandwich", "sandwich", "The culmination of your work for Sir. Conrad, however I think there maybe one more step before we can truly call it a sandwich.")
    }

    pub fn cut_sandwich() -> (e: Element)
        ensures
            e.id@ == "cut_sandwich"@,
    {
        Element::new("Cut Sandwich", "cut_sandwich", "This is it! A beautiful sandwich ready to be eaton! Make sure Sir Conrad gets some.")
    }

    pub fn boiling_water() -> (e: Element)
        ensures
            e.id@ == "boiling_water"@,
    {
        Element::new("Boiling Water", "boiling_water", "Alright now your cooking! Some")
    }

    pub fn bone() -> (e: Element)
        ensures
            e.id@ == "bone"@,
    {
        Element::new("Bone", "bone", "A bone you got while boiling the pork to make the broth. Wonder what you can do with this?")
    }

    pub fn bone_chopstick() -> (e: Element)
        ensures
            e.id@ == "bone_chopstick"@,
    {
        Element::new("Bone Chopstick", "bone_chopstick", "Perfect for eating ramen with! Although it is missing a pair.")
    }

    pub fn bone_chopsticks() -> (e: Element)
        ensures
            e.id@ == "bone_chopsticks"@,
    {
        Element::new("Bone Chopsticks", "bone_chopsticks", "Now that they are paired up, It is read to use to eat something!")
    }

    pub fn pork_broth() -> (e: Element)
        ensures
            e.id@ == "pork_broth"@,
    {
        Element::new("Pork Broth", "pork_broth", "The water turned into broth after boiling that pork. Now you have a delicious base for a soup of some kind.")
    }

    pub fn dried_seaweed() -> (e: Element)
        ensures
            e.id@ == "dired_seaweed"@,
    {
        Element::new("Dried Seaweed", "dired_seaweed", "The smell isn't great, but the flavor is great! Used in eastern style recipes.")
    }

    pub fn hard_boiled_egg() -> (e: Element)
        ensures
            e.id@ == "hard_boiled_egg"@,
    {
        Element::new("Hard Boiled Egg", "hard_boiled_egg", "An egg that has been boiled. Amazing topping for any dish. Well not any dish but you get it.")
    }

    pub fn noodle_dough() -> (e: Element)
        ensures
            e.id@ == "noodle_dough"@,
    {
        Element::new("Noodle Dough", "noodle_dough", "Dough for making noodles! I wonder what to next...")
    }

    pub fn ramen_noodles() -> (e: Element)
        ensures
            e.id@ == "ramen_noodles"@,
    {
        Element::new("Ramen Noodles", "ramen_noodles", "Noodle perfectly made for the ultimate soup : Ramen. Just the right size and shape, this should make any ramen fan happy.")
    }

    pub fn cooked_pork() -> (e: Element)
        ensures
            e.id@ == "cooked_pork"@,
    {
        Element::new("Cooked Pork", "cooked_pork", "Smells so good! This meat is probably the most tasty thing you have cooked so far.")
    }

    pub fn chashu() -> (e: Element)
        ensures
            e.id@ == "chashu"@,
    {
        Element::new("Chashu", "chashu", "Boiled and cut pork made in the traditional style. This meat is perfectly fatty and sweet for a stew of some sort.")
    }

    pub fn ramen() -> (e: Element)
        ensures
            e.id@ == "ramen"@,
    {
        Element::new("Ramen", "ramen", "A spicy ramen with a delicious broth and traditionally cooked meat, served with utensils and an ice cube to cool it down.")
    }
}

impl Clone for Element {
    fn clone(&self) -> (e: Element)
        ensures
            e == *self,
    {
        Element { name: self.name.clone(), id: self.id.clone(), desc: self.desc.clone() }
    }
}

impl PartialEq for Element {
    /// Elements are compared by id alone.
    fn eq(&self, other: &Element) -> (r: bool) {
        self.id == other.id
    }
}

impl vstd::std_specs::cmp::PartialEqSpecImpl for Element {
    open spec fn obeys_eq_spec() -> bool {
        true
    }

    open spec fn eq_spec(&self, other: &Element) -> bool {
        self.id@ == other.id@
    }
}

} // verus!
