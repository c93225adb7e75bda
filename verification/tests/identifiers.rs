use sb3_builder::block::{show, when_flag_clicked};
use sb3_builder::{Constant, Generator, Project, Variable};

#[test]
fn generator_starts_at_one_and_counts_up() {
    let mut generator = Generator::default();
    assert_eq!(generator.remaining(), u32::MAX - 1);
    let first = generator.new_uid();
    let second = generator.new_uid();
    let third = generator.new_uid();
    assert_eq!(first.raw(), 1);
    assert_eq!(second.raw(), 2);
    assert_eq!(third.raw(), 3);
    assert_eq!(generator.remaining(), u32::MAX - 4);
}

#[test]
fn identifiers_compare_by_their_number() {
    let mut generator = Generator::default();
    let a = generator.new_uid();
    let b = generator.new_uid();
    assert_ne!(a, b);
    assert_eq!(a, a);
    let copy = a;
    assert_eq!(copy.raw(), a.raw());
}

#[test]
fn targets_of_one_project_share_the_generator() {
    let mut project = Project::default();
    let mut stage = project.stage();
    stage.start_script(when_flag_clicked());
    let mut cat = project.add_sprite("Cat".to_owned());
    cat.start_script(when_flag_clicked());
    cat.put(show());
    let mut stage = project.stage();
    stage.add_variable(Variable { name: "x".to_owned(), value: Constant::String(String::new()) });
    stage.put(show());
    let json = project.encode();
    assert!(json.contains(
        "{\"name\":\"Stage\",\"isStage\":true,\"currentCostume\":0,\"costumes\":[],\"sounds\":[],\"variables\":{\"v4\":[\"x\",\"\"]},\"lists\":{},\"blocks\":{\"b1\":{\"opcode\":\"event_whenflagclicked\",\"parent\":null,\"next\":null,\"topLevel\":true},\"b5\":{\"opcode\":\"looks_show\",\"parent\":null,\"next\":null,\"topLevel\":true}},\"comments\":{}}"
    ));
    assert!(json.contains(
        "{\"name\":\"Cat\",\"isStage\":false,\"currentCostume\":0,\"costumes\":[],\"sounds\":[],\"variables\":{},\"lists\":{},\"blocks\":{\"b2\":{\"opcode\":\"event_whenflagclicked\",\"parent\":null,\"next\":\"b3\",\"topLevel\":true},\"b3\":{\"opcode\":\"looks_show\",\"parent\":\"b2\",\"next\":null,\"topLevel\":false}},\"comments\":{}}"
    ));
}

#[test]
fn a_handle_that_is_taken_again_starts_at_the_top_level() {
    let mut project = Project::default();
    let mut stage = project.stage();
    stage.start_script(when_flag_clicked());
    stage.put(show());
    let mut again = project.stage();
    again.put(show());
    let json = project.encode();
    assert!(json.contains(
        "\"b3\":{\"opcode\":\"looks_show\",\"parent\":null,\"next\":null,\"topLevel\":true}"
    ));
}

#[test]
fn an_identifier_is_written_as_a_quoted_number() {
    let mut generator = Generator::default();
    assert_eq!(generator.new_uid().to_text(), "\"1\"");
    for _ in 0..10 {
        generator.new_uid();
    }
    assert_eq!(generator.new_uid().to_text(), "\"12\"");
}

#[test]
fn identifiers_of_many_digits_are_written_in_full() {
    let mut project = Project::default();
    let mut stage = project.stage();
    for _ in 0..1234 {
        stage.add_comment(String::new());
    }
    stage.put(show());
    assert!(project.encode().contains("\"b1235\":{\"opcode\":\"looks_show\""));
}

#[test]
fn a_handle_tells_how_many_identifiers_are_left() {
    let mut project = Project::default();
    let mut stage = project.stage();
    assert_eq!(stage.spare(), u32::MAX - 1);
    stage.start_script(when_flag_clicked());
    stage.put(show());
    stage.add_comment("two blocks so far".to_owned());
    assert_eq!(stage.spare(), u32::MAX - 4);
    let sprite = project.add_sprite("Cat".to_owned());
    assert_eq!(sprite.spare(), u32::MAX - 4);
}
