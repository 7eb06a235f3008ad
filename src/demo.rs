use vstd::prelude::*;

use crate::animal::{bark, meow, Animal, Cat, Dog};
use crate::dispatch::{interact, speak_all};

verus! {

/// The line that opens the pass over the whole collection.
pub open spec fn roll_call_header() -> Seq<char> {
    "--- All animals ---"@
}

/// The lines of the demonstration: a dog and a cat each speak through the
/// dispatcher, then a blank line and a header, then both speak again from
/// one collection, dog first.
pub fn demo_lines(dog_name: &str, cat_name: &str) -> (lines: Vec<String>)
    ensures
        lines@.len() == 6,
        lines@[0]@ == dog_name@ + bark(),
        lines@[1]@ == cat_name@ + meow(),
        lines@[2]@ == Seq::<char>::empty(),
        lines@[3]@ == roll_call_header(),
        lines@[4]@ == dog_name@ + bark(),
        lines@[5]@ == cat_name@ + meow(),
{
    let dog = Dog::new(dog_name);
    let cat = Cat::new(cat_name);
    let mut lines: Vec<String> = Vec::new();
    lines.push(interact(&dog));
    lines.push(interact(&cat));
    lines.push(String::new());
    lines.push(String::from_str("--- All animals ---"));
    let animals: Vec<&dyn Animal> = vec![&dog, &cat];
    let mut chorus = speak_all(&animals);
    lines.append(&mut chorus);
    lines
}

} // verus!
