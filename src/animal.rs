use vstd::prelude::*;

verus! {

/// The capability shared by every animal: saying one line.
pub trait Animal {
    /// The line this animal says, as a sequence of characters.
    spec fn spoken(&self) -> Seq<char>;

    /// Returns the line this animal says.
    fn speak(&self) -> (line: String)
        ensures
            line@ == self.spoken(),
    ;
}

/// What a dog says after its name.
pub open spec fn bark() -> Seq<char> {
    seq![':', ' ', 'W', 'o', 'o', 'f', '!']
}

/// What a cat says after its name.
pub open spec fn meow() -> Seq<char> {
    seq![':', ' ', 'M', 'e', 'o', 'w', '~']
}

/// A dog, known by its name.
pub struct Dog {
    pub name: String,
}

impl Dog {
    /// Makes a dog with the given name.
    pub fn new(name: &str) -> (dog: Dog)
        ensures
            dog.name@ == name@,
    {
        Dog { name: name.to_owned() }
    }
}

impl Animal for Dog {
    open spec fn spoken(&self) -> Seq<char> {
        self.name@ + bark()
    }

    fn speak(&self) -> (line: String) {
        let line = self.name.clone().concat(": Woof!");
        proof {
            reveal_strlit(": Woof!");
            assert(": Woof!"@ =~= bark());
        }
        line
    }
}

/// A cat, known by its name.
pub struct Cat {
    pub name: String,
}

impl Cat {
    /// Makes a cat with the given name.
    pub fn new(name: &str) -> (cat: Cat)
        ensures
            cat.name@ == name@,
    {
        Cat { name: name.to_owned() }
    }
}

impl Animal for Cat {
    open spec fn spoken(&self) -> Seq<char> {
        self.name@ + meow()
    }

    fn speak(&self) -> (line: String) {
        let line = self.name.clone().concat(": Meow~");
        proof {
            reveal_strlit(": Meow~");
            assert(": Meow~"@ =~= meow());
        }
        line
    }
}

} // verus!
