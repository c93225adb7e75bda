use sb3_builder::block::{
    append, change_variable, say, set_variable, stop_all, stop_this_script, when_cloned,
    when_flag_clicked, when_key_pressed, when_received,
};
use sb3_builder::entity::Comment;
use sb3_builder::{Constant, List, Number, Operand, Project, Variable};

fn text(s: &str) -> Operand {
    Operand::from(s.to_owned())
}

fn number(n: f64) -> Number {
    Number::new(n.to_bits(), format!("{n}")).unwrap()
}

/// What stands between `"blocks":{` and `},"comments"` in the first target.
fn blocks_of(json: &str) -> String {
    let start = json.find("\"blocks\":{").unwrap() + "\"blocks\":{".len();
    let end = json.find("},\"comments\"").unwrap();
    json[start..end].to_owned()
}

#[test]
fn empty_project_has_only_the_stage() {
    let project = Project::default();
    assert_eq!(
        project.encode(),
        "{\"meta\":{\"semver\":\"3.0.0\"},\"targets\":[{\"name\":\"Stage\",\"isStage\":true,\"currentCostume\":0,\"costumes\":[],\"sounds\":[],\"variables\":{},\"lists\":{},\"blocks\":{},\"comments\":{}}]}"
    );
}

#[test]
fn script_with_one_statement() {
    let mut project = Project::default();
    let mut stage = project.stage();
    stage.start_script(when_flag_clicked());
    stage.put(say(text("hi")));
    assert_eq!(
        project.encode(),
        "{\"meta\":{\"semver\":\"3.0.0\"},\"targets\":[{\"name\":\"Stage\",\"isStage\":true,\"currentCostume\":0,\"costumes\":[],\"sounds\":[],\"variables\":{},\"lists\":{},\"blocks\":{\"b1\":{\"opcode\":\"event_whenflagclicked\",\"parent\":null,\"next\":\"b2\",\"topLevel\":true},\"b2\":{\"opcode\":\"looks_say\",\"parent\":\"b1\",\"next\":null,\"topLevel\":false,\"inputs\":{\"MESSAGE\":[1,[10,\"hi\"]]}}},\"comments\":{}}]}"
    );
}

#[test]
fn encoding_twice_gives_the_same_text() {
    let mut project = Project::default();
    let mut stage = project.stage();
    let score = stage.add_variable(Variable {
        name: "score".to_owned(),
        value: Constant::Number(number(0.0)),
    });
    stage.start_script(when_flag_clicked());
    stage.put(change_variable(score, Operand::from(number(1.0))));
    let first = project.encode();
    let second = project.encode();
    assert_eq!(first, second);
    assert_eq!(first.as_bytes(), second.as_bytes());
}

#[test]
fn sprites_follow_the_stage() {
    let mut project = Project::default();
    project.add_sprite("Cat".to_owned());
    project.add_sprite("Dog".to_owned());
    assert_eq!(
        project.encode(),
        "{\"meta\":{\"semver\":\"3.0.0\"},\"targets\":[{\"name\":\"Stage\",\"isStage\":true,\"currentCostume\":0,\"costumes\":[],\"sounds\":[],\"variables\":{},\"lists\":{},\"blocks\":{},\"comments\":{}},{\"name\":\"Cat\",\"isStage\":false,\"currentCostume\":0,\"costumes\":[],\"sounds\":[],\"variables\":{},\"lists\":{},\"blocks\":{},\"comments\":{}},{\"name\":\"Dog\",\"isStage\":false,\"currentCostume\":0,\"costumes\":[],\"sounds\":[],\"variables\":{},\"lists\":{},\"blocks\":{},\"comments\":{}}]}"
    );
}

#[test]
fn strings_are_escaped_for_json() {
    let mut project = Project::default();
    let mut stage = project.stage();
    stage.put(say(text("a\"b\\c\nd\re\tf\u{8}g\u{c}h\u{1}i\u{1f}j/é'")));
    assert_eq!(
        blocks_of(&project.encode()),
        "\"b1\":{\"opcode\":\"looks_say\",\"parent\":null,\"next\":null,\"topLevel\":true,\"inputs\":{\"MESSAGE\":[1,[10,\"a\\\"b\\\\c\\nd\\re\\tf\\bg\\fh\\u0001i\\u001fj/é'\"]]}}"
    );
}

#[test]
fn names_are_escaped_for_json() {
    let mut project = Project::default();
    let mut sprite = project.add_sprite("a \"cat\"".to_owned());
    sprite.add_comment("line\nbreak".to_owned());
    let json = project.encode();
    assert!(json.contains("{\"name\":\"a \\\"cat\\\"\",\"isStage\":false,"));
    assert!(json.contains(
        "\"comments\":{\"c1\":{\"text\":\"line\\nbreak\",\"blockId\":null,\"minimized\":false,\"x\":null,\"y\":null,\"width\":0,\"height\":0}}"
    ));
}

#[test]
fn two_variables_of_one_name_are_two_entries() {
    let mut project = Project::default();
    let mut stage = project.stage();
    let first = stage.add_variable(Variable {
        name: "x".to_owned(),
        value: Constant::Number(number(1.0)),
    });
    let second = stage.add_variable(Variable {
        name: "x".to_owned(),
        value: Constant::String("one".to_owned()),
    });
    stage.put(say(Operand::from(first)));
    stage.put(say(Operand::from(second)));
    let json = project.encode();
    assert!(json.contains("\"variables\":{\"v1\":[\"x\",1],\"v2\":[\"x\",\"one\"]},"));
    assert!(json.contains("\"inputs\":{\"MESSAGE\":[2,[12,\"x\",\"v1\"]]}"));
    assert!(json.contains("\"inputs\":{\"MESSAGE\":[2,[12,\"x\",\"v2\"]]}"));
}

#[test]
fn variable_fields_name_the_key_of_the_variable() {
    let mut project = Project::default();
    let mut stage = project.stage();
    let score = stage.add_variable(Variable {
        name: "score".to_owned(),
        value: Constant::Number(number(0.0)),
    });
    stage.put(set_variable(score, text("7")));
    assert_eq!(
        blocks_of(&project.encode()),
        "\"b2\":{\"opcode\":\"data_setvariableto\",\"parent\":null,\"next\":null,\"topLevel\":true,\"inputs\":{\"VALUE\":[1,[10,\"7\"]]},\"fields\":{\"VARIABLE\":[\"score\",\"v1\"]}}"
    );
}

#[test]
fn lists_are_encoded_with_their_items() {
    let mut project = Project::default();
    let mut stage = project.stage();
    let empty = stage.add_list(List { name: "none".to_owned(), items: Vec::new() });
    let items = stage.add_list(List {
        name: "some".to_owned(),
        items: vec![
            Constant::Number(number(1.0)),
            Constant::String("two".to_owned()),
            Constant::Number(number(-3.5)),
        ],
    });
    stage.put(append(empty, Operand::from(items)));
    let json = project.encode();
    assert!(json.contains("\"lists\":{\"l1\":[\"none\", []],\"l2\":[\"some\", [1,\"two\",-3.5]]},"));
    assert_eq!(
        blocks_of(&json),
        "\"b3\":{\"opcode\":\"data_addtolist\",\"parent\":null,\"next\":null,\"topLevel\":true,\"inputs\":{\"ITEM\":[2,[13,\"some\",\"l2\"]]},\"fields\":{\"LIST\":[\"none\",\"l1\"]}}"
    );
}

#[test]
fn hats_carry_their_fields() {
    let mut project = Project::default();
    let mut stage = project.stage();
    stage.start_script(when_key_pressed("space".to_owned()));
    stage.start_script(when_received("go".to_owned()));
    stage.start_script(when_cloned());
    assert_eq!(
        blocks_of(&project.encode()),
        "\"b1\":{\"opcode\":\"event_whenkeypressed\",\"parent\":null,\"next\":null,\"topLevel\":true,\"fields\":{\"KEY_OPTION\":[\"space\",null]}},\"b2\":{\"opcode\":\"event_whenbroadcastreceived\",\"parent\":null,\"next\":null,\"topLevel\":true,\"fields\":{\"BROADCAST_OPTION\":[\"go\",null]}},\"b3\":{\"opcode\":\"control_start_as_clone\",\"parent\":null,\"next\":null,\"topLevel\":true}"
    );
}

#[test]
fn stop_blocks_carry_fixed_fields() {
    let mut project = Project::default();
    let mut stage = project.stage();
    stage.put(stop_all());
    stage.put(stop_this_script());
    assert_eq!(
        blocks_of(&project.encode()),
        "\"b1\":{\"opcode\":\"control_stop\",\"parent\":null,\"next\":\"b2\",\"topLevel\":true,\"fields\":{\"STOP_OPTION\":[\"all\",null]}},\"b2\":{\"opcode\":\"control_stop\",\"parent\":\"b1\",\"next\":null,\"topLevel\":false,\"fields\":{\"STOP_OPTION\":[\"this script\",null]}}"
    );
}

#[test]
fn clone_menu_is_the_one_block_with_a_shadow_flag() {
    let mut project = Project::default();
    let mut sprite = project.add_sprite("Cat".to_owned());
    sprite.start_script(when_flag_clicked());
    sprite.clone_self();
    let json = project.encode();
    assert!(json.contains(
        "\"b2\":{\"opcode\":\"control_create_clone_of_menu\",\"parent\":\"b3\",\"next\":null,\"topLevel\":false,\"fields\":{\"CLONE_OPTION\":[\"_myself_\",null]},\"shadow\":true}"
    ));
    assert!(json.contains(
        "\"b3\":{\"opcode\":\"control_create_clone_of\",\"parent\":\"b1\",\"next\":null,\"topLevel\":false,\"inputs\":{\"CLONE_OPTION\":[1,\"b2\"]}}"
    ));
    assert_eq!(json.matches("\"shadow\":true").count(), 1);
}

#[test]
fn mathop_carries_the_operator() {
    let mut project = Project::default();
    let mut stage = project.stage();
    let root = stage.mathop("sqrt", Operand::from(number(16.0)));
    stage.put(say(root));
    assert_eq!(
        blocks_of(&project.encode()),
        "\"b1\":{\"opcode\":\"operator_mathop\",\"parent\":\"b2\",\"next\":null,\"topLevel\":false,\"inputs\":{\"NUM\":[1,[4,16]]},\"fields\":{\"OPERATOR\":[\"sqrt\",null]}},\"b2\":{\"opcode\":\"looks_say\",\"parent\":null,\"next\":null,\"topLevel\":true,\"inputs\":{\"MESSAGE\":[2,\"b1\"]}}"
    );
}

#[test]
fn a_comment_is_bound_to_no_block() {
    let comment = Comment { text: "why \"this\" works".to_owned() };
    let mut text = String::from("x");
    comment.serialize(&mut text);
    assert_eq!(
        text,
        "x{\"text\":\"why \\\"this\\\" works\",\"blockId\":null,\"minimized\":false,\"x\":null,\"y\":null,\"width\":0,\"height\":0}"
    );
}

#[test]
fn constants_variables_and_lists_are_written_as_arrays() {
    let mut text = String::new();
    Constant::String("a\\b".to_owned()).serialize(&mut text);
    text.push(' ');
    Constant::Number(number(12.0)).serialize(&mut text);
    text.push(' ');
    Variable { name: "v".to_owned(), value: Constant::Number(number(-0.5)) }.serialize(&mut text);
    text.push(' ');
    List { name: "l".to_owned(), items: vec![Constant::String(String::new())] }
        .serialize(&mut text);
    assert_eq!(text, "\"a\\\\b\" 12 [\"v\",-0.5] [\"l\", [\"\"]]");
}
