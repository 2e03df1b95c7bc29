//! Furnace recipes: a fuel below and an object above yield a result.

use vstd::prelude::*;

use crate::element::Element;

verus! {

/// A furnace recipe; unlike the mixer, fuel and object are not
/// interchangeable.
#[derive(Debug)]
pub struct FurnaceRecipe {
    pub fuel: Element,
    pub object: Element,
    pub result: Element,
}

impl FurnaceRecipe {
    pub fn new(fuel: Element, object: Element, result: Element) -> (r: FurnaceRecipe)
        ensures
            r.fuel == fuel,
            r.object == object,
            r.result == result,
    {
        FurnaceRecipe { fuel, object, result }
    }

    /// Stable identifier of the recipe: the fuel and object ids joined by
    /// `_`.
    pub fn id(&self) -> (r: String)
        ensures
            r@ == self.fuel.id@ + "_"@ + self.object.id@,
    {
        let mut id = self.fuel.id.clone();
        id.append("_");
        id.append(self.object.id.as_str());
        id
    }
}

impl Clone for FurnaceRecipe {
    fn clone(&self) -> (r: FurnaceRecipe)
        ensures
            r == *self,
    {
        FurnaceRecipe {
            fuel: self.fuel.clone(),
            object: self.object.clone(),
            result: self.result.clone(),
        }
    }
}

} // verus!
