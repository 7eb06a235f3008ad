use vstd::prelude::*;

use crate::animal::{bark, meow, Animal, Cat, Dog};
use crate::dispatch::chorus;

verus! {

/// A dog and a cat never say the same line, whatever their names: the
/// dispatcher, which returns each animal's own line, therefore never hands
/// one kind's line to the other.
pub proof fn lemma_kinds_speak_apart(dog: &Dog, cat: &Cat)
    ensures
        dog.spoken() != cat.spoken(),
{
    let d = dog.spoken();
    let c = cat.spoken();
    assert(d[d.len() - 1] == '!');
    assert(c[c.len() - 1] == '~');
}

/// Appending animals to a collection appends their lines, in the same order,
/// after the lines of the animals already there.
pub proof fn lemma_chorus_keeps_order(first: Seq<&dyn Animal>, then: Seq<&dyn Animal>)
    ensures
        chorus(first + then) == chorus(first) + chorus(then),
{
    assert(chorus(first + then) =~= chorus(first) + chorus(then));
}

/// A name followed by a fixed ending determines the name.
proof fn lemma_ending_determines_name(a: Seq<char>, b: Seq<char>, ending: Seq<char>)
    ensures
        (a + ending == b + ending) <==> (a == b),
{
    if a + ending == b + ending {
        assert((a + ending).subrange(0, a.len() as int) =~= a);
        assert((b + ending).subrange(0, b.len() as int) =~= b);
    }
}

/// What a dog says depends on its own name alone: two dogs say the same
/// line exactly when they have the same name.
pub proof fn lemma_dog_speaks_for_itself(dog: &Dog, other: &Dog)
    ensures
        dog.spoken() == dog.name@ + bark(),
        (dog.spoken() == other.spoken()) <==> (dog.name@ == other.name@),
{
    lemma_ending_determines_name(dog.name@, other.name@, bark());
}

/// What a cat says depends on its own name alone: two cats say the same
/// line exactly when they have the same name.
pub proof fn lemma_cat_speaks_for_itself(cat: &Cat, other: &Cat)
    ensures
        cat.spoken() == cat.name@ + meow(),
        (cat.spoken() == other.spoken()) <==> (cat.name@ == other.name@),
{
    lemma_ending_determines_name(cat.name@, other.name@, meow());
}

/// Two lines that one animal said are the same line.
pub proof fn lemma_speech_repeats(animal: &dyn Animal, first: Seq<char>, second: Seq<char>)
    requires
        first == animal.spoken(),
        second == animal.spoken(),
    ensures
        first == second,
{
}

} // verus!
