//! Slicer recipes: one object on the cutting board yields a result.

use vstd::prelude::*;

use crate::element::Element;

verus! {

#[derive(Debug)]
pub struct SlicerRecipe {
    pub object: Element,
    pub result: Element,
}

impl SlicerRecipe {
    pub fn new(object: Element, result: Element) -> (r: SlicerRecipe)
        ensures
            r.object == object,
            r.result == result,
    {
        SlicerRecipe { object, result }
    }

    /// Stable identifier of the recipe: the object and result ids joined
    /// by `_`.
    pub fn id(&self) -> (r: String)
        ensures
            r@ == self.object.id@ + "_"@ + self.result.id@,
    {
        let mut id = self.object.id.clone();
        id.append("_");
        id.append(self.result.id.as_str());
        id
    }
}

impl Clone for SlicerRecipe {
    fn clone(&self) -> (r: SlicerRecipe)
        ensures
            r == *self,
    {
        SlicerRecipe { object: self.object.clone(), result: self.result.clone() }
    }
}

} // verus!
