use lib::step::Step;

#[test]
fn new_step_is_empty_and_not_final() {
    let s = Step::new(3);
    assert_eq!(s.step_number, 3);
    assert!(s.thought.is_empty());
    assert!(s.actions.is_empty());
    assert!(s.observations.is_empty());
    assert!(!s.is_final);
}

#[test]
fn step_builders_fill_their_field_only() {
    let s = Step::new(1)
        .with_thought("Thought: add".to_string())
        .add_action("calculate({})".to_string())
        .add_observation("45".to_string())
        .add_action("get_temperature({})".to_string())
        .add_observation("71".to_string());
    assert_eq!(s.step_number, 1);
    assert_eq!(s.thought, "Thought: add");
    assert_eq!(s.actions, vec!["calculate({})".to_string(), "get_temperature({})".to_string()]);
    assert_eq!(s.observations, vec!["45".to_string(), "71".to_string()]);
    assert!(!s.is_final);
    let f = s.mark_final();
    assert!(f.is_final);
    assert_eq!(f.actions.len(), 2);
}

#[test]
fn with_thought_replaces_the_thought() {
    let s = Step::new(2).with_thought("a".to_string()).with_thought("b".to_string());
    assert_eq!(s.thought, "b");
}
