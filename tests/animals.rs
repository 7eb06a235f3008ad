use dyn_trait_example::animal::{Animal, Cat, Dog};
use dyn_trait_example::demo::demo_lines;
use dyn_trait_example::dispatch::{interact, speak_all};

#[test]
fn dog_and_cat_speak_in_their_own_voice() {
    let dog = Dog::new("Baduki");
    let cat = Cat::new("Nabi");
    assert_eq!(dog.speak(), "Baduki: Woof!");
    assert_eq!(cat.speak(), "Nabi: Meow~");
}

#[test]
fn dispatcher_reaches_each_kind() {
    let dog = Dog::new("Rex");
    let cat = Cat::new("Rex");
    let from_dog = interact(&dog);
    let from_cat = interact(&cat);
    assert_eq!(from_dog, "Rex: Woof!");
    assert_eq!(from_cat, "Rex: Meow~");
    assert_ne!(from_dog, from_cat);
}

#[test]
fn demo_prints_both_phases() {
    let lines = demo_lines("Baduki", "Nabi");
    let expected = vec![
        "Baduki: Woof!",
        "Nabi: Meow~",
        "",
        "--- All animals ---",
        "Baduki: Woof!",
        "Nabi: Meow~",
    ];
    assert_eq!(lines, expected);
}

#[test]
fn collection_keeps_insertion_order() {
    let first = Cat::new("Nabi");
    let second = Dog::new("Baduki");
    let third = Cat::new("Mimi");
    let animals: Vec<&dyn Animal> = vec![&first, &second, &third];
    let lines = speak_all(&animals);
    assert_eq!(lines, vec!["Nabi: Meow~", "Baduki: Woof!", "Mimi: Meow~"]);
}

#[test]
fn empty_collection_says_nothing() {
    let animals: Vec<&dyn Animal> = Vec::new();
    assert!(speak_all(&animals).is_empty());
}

#[test]
fn same_kind_different_names_stay_apart() {
    let one = Dog::new("Baduki");
    let two = Dog::new("Happy");
    assert_eq!(interact(&one), "Baduki: Woof!");
    assert_eq!(interact(&two), "Happy: Woof!");
    assert_eq!(one.name, "Baduki");
    assert_eq!(two.name, "Happy");
    let three = Cat::new("Nabi");
    let four = Cat::new("Luna");
    assert_eq!(interact(&three), "Nabi: Meow~");
    assert_eq!(interact(&four), "Luna: Meow~");
}

#[test]
fn speaking_twice_gives_the_same_line() {
    let dog = Dog::new("Baduki");
    let cat = Cat::new("Nabi");
    assert_eq!(interact(&dog), interact(&dog));
    assert_eq!(cat.speak(), cat.speak());
    assert_eq!(dog.name, "Baduki");
}

#[test]
fn empty_name_keeps_the_ending() {
    assert_eq!(Dog::new("").speak(), ": Woof!");
    assert_eq!(Cat::new("").speak(), ": Meow~");
}

#[test]
fn names_are_kept_as_given() {
    let dog = Dog::new("바둑이");
    let cat = Cat::new("나비");
    assert_eq!(dog.name, "바둑이");
    assert_eq!(interact(&dog), "바둑이: Woof!");
    assert_eq!(interact(&cat), "나비: Meow~");
}
