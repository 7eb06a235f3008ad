use vstd::prelude::*;

use crate::animal::Animal;

verus! {

/// Lets any animal speak, whatever its kind.
pub fn interact(animal: &dyn Animal) -> (line: String)
    ensures
        line@ == animal.spoken(),
{
    animal.speak()
}

/// The lines that a sequence of animals says, one per animal, in order.
pub open spec fn chorus(animals: Seq<&dyn Animal>) -> Seq<Seq<char>> {
    animals.map_values(|a: &dyn Animal| a.spoken())
}

/// Lets every animal of the collection speak, in the collection's order.
pub fn speak_all(animals: &Vec<&dyn Animal>) -> (lines: Vec<String>)
    ensures
        lines@.len() == animals@.len(),
        forall|i: int| 0 <= i < lines@.len() ==> #[trigger] lines@[i]@ == chorus(animals@)[i],
{
    let mut lines: Vec<String> = Vec::new();
    let mut i: usize = 0;
    while i < animals.len()
        invariant
            i <= animals@.len(),
            lines@.len() == i,
            forall|j: int| 0 <= j < i ==> #[trigger] lines@[j]@ == animals@[j].spoken(),
        decreases animals@.len() - i,
    {
        let line = animals[i].speak();
        lines.push(line);
        i = i + 1;
    }
    lines
}

} // verus!
