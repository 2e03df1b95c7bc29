//! Mixer recipes: two ingredients, in either order, combine into a result.

use vstd::prelude::*;

use crate::element::Element;
use crate::registry::{find_mixer, Registry};

verus! {

/// A mixer recipe. The order of `first` and `second` does not matter when
/// the recipe is looked up.
#[derive(Debug)]
pub struct MixerRecipe {
    pub first: Element,
    pub second: Element,
    pub result: Element,
}

impl MixerRecipe {
    pub fn new(first: Element, second: Element, result: Element) -> (r: MixerRecipe)
        ensures
            r.first == first,
            r.second == second,
            r.result == result,
    {
        MixerRecipe { first, second, result }
    }

    /// Stable identifier of the recipe: the three element ids joined by `_`.
    pub fn id(&self) -> (r: String)
        ensures
            r@ == self.first.id@ + "_"@ + self.second.id@ + "_"@ + self.result.id@,
    {
        let mut id = self.first.id.clone();
        id.append("_");
        id.append(self.second.id.as_str());
        id.append("_");
        id.append(self.result.id.as_str());
        id
    }
}

impl Clone for MixerRecipe {
    fn clone(&self) -> (r: MixerRecipe)
        ensures
            r == *self,
    {
        MixerRecipe {
            first: self.first.clone(),
            second: self.second.clone(),
            result: self.result.clone(),
        }
    }
}

/// What mixing two elements yields: the result of the first registered
/// recipe matching the unordered pair, if any.
pub fn get_result(element_a: &Element, element_b: &Element, registry: &Registry) -> (r: Option<
    Element,
>)
    ensures
        match find_mixer(registry.mixer_recipe_registry@, element_a.id@, element_b.id@) {
            Some(rec) => r matches Some(res) && res == rec.result,
            None => r is None,
        },
{
    match registry.find_mixer_recipe(element_a, element_b) {
        Some(rec) => Some(rec.result.clone()),
        None => None,
    }
}

} // verus!
