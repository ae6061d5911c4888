use pyzalea::controls::{walk_direction, WalkDirection};
use pyzalea::fighter::FighterAction;

#[test]
fn one_intent_gives_its_direction() {
    assert_eq!(walk_direction(true, false, false, false), WalkDirection::Forward);
    assert_eq!(walk_direction(false, true, false, false), WalkDirection::Backward);
    assert_eq!(walk_direction(false, false, true, false), WalkDirection::Left);
    assert_eq!(walk_direction(false, false, false, true), WalkDirection::Right);
}

#[test]
fn two_intents_across_give_the_diagonal() {
    assert_eq!(walk_direction(true, false, true, false), WalkDirection::ForwardLeft);
    assert_eq!(walk_direction(true, false, false, true), WalkDirection::ForwardRight);
    assert_eq!(walk_direction(false, true, true, false), WalkDirection::BackwardLeft);
    assert_eq!(walk_direction(false, true, false, true), WalkDirection::BackwardRight);
}

#[test]
fn every_other_combination_gives_no_walk() {
    assert_eq!(walk_direction(false, false, false, false), WalkDirection::Halt);
    assert_eq!(walk_direction(true, true, false, false), WalkDirection::Halt);
    assert_eq!(walk_direction(false, false, true, true), WalkDirection::Halt);
    assert_eq!(walk_direction(true, true, true, false), WalkDirection::Halt);
    assert_eq!(walk_direction(true, true, false, true), WalkDirection::Halt);
    assert_eq!(walk_direction(true, false, true, true), WalkDirection::Halt);
    assert_eq!(walk_direction(false, true, true, true), WalkDirection::Halt);
    assert_eq!(walk_direction(true, true, true, true), WalkDirection::Halt);
}

#[test]
fn an_action_has_the_walk_direction_of_its_intents() {
    let mut a = FighterAction::new();
    assert_eq!(a.walk_direction(), WalkDirection::Halt);
    a.backward = true;
    a.right = true;
    a.jump = true;
    a.attack = true;
    assert_eq!(a.walk_direction(), WalkDirection::BackwardRight);
    a.left = true;
    assert_eq!(a.walk_direction(), WalkDirection::Halt);
}
