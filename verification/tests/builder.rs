use sb3_builder::block::{
    go_to_xy, hide_sprite, move_steps, pen_down, say, show, stamp, wait, when_flag_clicked,
};
use sb3_builder::{Constant, List, Number, Operand, Project, Variable};

fn text(s: &str) -> Operand {
    Operand::from(s.to_owned())
}

fn num(n: f64) -> Operand {
    Operand::from(Number::new(n.to_bits(), format!("{n}")).unwrap())
}

fn blocks_of(json: &str) -> String {
    let start = json.find("\"blocks\":{").unwrap() + "\"blocks\":{".len();
    let end = json.find("},\"comments\"").unwrap();
    json[start..end].to_owned()
}

#[test]
fn placed_blocks_follow_one_another_in_call_order() {
    let mut project = Project::default();
    let mut stage = project.stage();
    stage.start_script(when_flag_clicked());
    stage.put(show());
    stage.put(pen_down());
    stage.put(stamp());
    assert_eq!(
        blocks_of(&project.encode()),
        "\"b1\":{\"opcode\":\"event_whenflagclicked\",\"parent\":null,\"next\":\"b2\",\"topLevel\":true},\"b2\":{\"opcode\":\"looks_show\",\"parent\":\"b1\",\"next\":\"b3\",\"topLevel\":false},\"b3\":{\"opcode\":\"pen_penDown\",\"parent\":\"b2\",\"next\":\"b4\",\"topLevel\":false},\"b4\":{\"opcode\":\"pen_stamp\",\"parent\":\"b3\",\"next\":null,\"topLevel\":false}"
    );
}

#[test]
fn operands_between_statements_leave_the_script_in_call_order() {
    let mut project = Project::default();
    let mut stage = project.stage();
    stage.start_script(when_flag_clicked());
    let sum = stage.add(num(1.0), num(2.0));
    stage.put(say(sum));
    let x = stage.x_position();
    stage.put(move_steps(x));
    assert_eq!(
        blocks_of(&project.encode()),
        "\"b1\":{\"opcode\":\"event_whenflagclicked\",\"parent\":null,\"next\":\"b3\",\"topLevel\":true},\"b2\":{\"opcode\":\"operator_add\",\"parent\":\"b3\",\"next\":null,\"topLevel\":false,\"inputs\":{\"NUM1\":[1,[4,1]],\"NUM2\":[1,[4,2]]}},\"b3\":{\"opcode\":\"looks_say\",\"parent\":\"b1\",\"next\":\"b5\",\"topLevel\":false,\"inputs\":{\"MESSAGE\":[2,\"b2\"]}},\"b4\":{\"opcode\":\"motion_xposition\",\"parent\":\"b5\",\"next\":null,\"topLevel\":false},\"b5\":{\"opcode\":\"motion_movesteps\",\"parent\":\"b3\",\"next\":null,\"topLevel\":false,\"inputs\":{\"STEPS\":[2,\"b4\"]}}"
    );
}

#[test]
fn a_block_without_a_script_stands_at_the_top_level() {
    let mut project = Project::default();
    let mut stage = project.stage();
    stage.put(show());
    stage.put(hide_sprite());
    assert_eq!(
        blocks_of(&project.encode()),
        "\"b1\":{\"opcode\":\"looks_show\",\"parent\":null,\"next\":\"b2\",\"topLevel\":true},\"b2\":{\"opcode\":\"looks_hide\",\"parent\":\"b1\",\"next\":null,\"topLevel\":false}"
    );
}

#[test]
fn every_parent_holds_its_child() {
    let mut project = Project::default();
    let mut stage = project.stage();
    stage.start_script(when_flag_clicked());
    let x = stage.mouse_x();
    let y = stage.mouse_y();
    let near = stage.lt(x, y);
    let not_near = stage.not(near);
    let after = stage.if_(not_near);
    stage.put(go_to_xy(num(0.0), num(0.0)));
    stage.insert_at(after);
    stage.put(show());
    assert_eq!(
        blocks_of(&project.encode()),
        "\"b1\":{\"opcode\":\"event_whenflagclicked\",\"parent\":null,\"next\":\"b6\",\"topLevel\":true},\"b2\":{\"opcode\":\"sensing_mousex\",\"parent\":\"b4\",\"next\":null,\"topLevel\":false},\"b3\":{\"opcode\":\"sensing_mousey\",\"parent\":\"b4\",\"next\":null,\"topLevel\":false},\"b4\":{\"opcode\":\"operator_lt\",\"parent\":\"b5\",\"next\":null,\"topLevel\":false,\"inputs\":{\"OPERAND1\":[2,\"b2\"],\"OPERAND2\":[2,\"b3\"]}},\"b5\":{\"opcode\":\"operator_not\",\"parent\":\"b6\",\"next\":null,\"topLevel\":false,\"inputs\":{\"OPERAND\":[2,\"b4\"]}},\"b6\":{\"opcode\":\"control_if\",\"parent\":\"b1\",\"next\":\"b8\",\"topLevel\":false,\"inputs\":{\"CONDITION\":[2,\"b5\"],\"SUBSTACK\":[2,\"b7\"]}},\"b7\":{\"opcode\":\"motion_gotoxy\",\"parent\":\"b6\",\"next\":null,\"topLevel\":false,\"inputs\":{\"X\":[1,[4,0]],\"Y\":[1,[4,0]]}},\"b8\":{\"opcode\":\"looks_show\",\"parent\":\"b6\",\"next\":null,\"topLevel\":false}"
    );
}

#[test]
fn if_else_has_one_block_in_each_branch() {
    let mut project = Project::default();
    let mut stage = project.stage();
    stage.start_script(when_flag_clicked());
    let condition = stage.eq(text("a"), text("b"));
    let [then, otherwise] = stage.if_else(condition);
    stage.insert_at(then);
    stage.put(show());
    stage.insert_at(otherwise);
    stage.put(hide_sprite());
    let json = project.encode();
    assert_eq!(
        blocks_of(&json),
        "\"b1\":{\"opcode\":\"event_whenflagclicked\",\"parent\":null,\"next\":\"b3\",\"topLevel\":true},\"b2\":{\"opcode\":\"operator_equals\",\"parent\":\"b3\",\"next\":null,\"topLevel\":false,\"inputs\":{\"OPERAND1\":[1,[10,\"a\"]],\"OPERAND2\":[1,[10,\"b\"]]}},\"b3\":{\"opcode\":\"control_if_else\",\"parent\":\"b1\",\"next\":null,\"topLevel\":false,\"inputs\":{\"CONDITION\":[2,\"b2\"],\"SUBSTACK\":[2,\"b4\"],\"SUBSTACK2\":[2,\"b5\"]}},\"b4\":{\"opcode\":\"looks_show\",\"parent\":\"b3\",\"next\":null,\"topLevel\":false},\"b5\":{\"opcode\":\"looks_hide\",\"parent\":\"b3\",\"next\":null,\"topLevel\":false}"
    );
    assert_eq!(json.matches("\"opcode\":\"control_if_else\"").count(), 1);
}

#[test]
fn if_else_leaves_the_insertion_point_behind_the_block() {
    let mut project = Project::default();
    let mut stage = project.stage();
    stage.start_script(when_flag_clicked());
    let condition = stage.gt(num(2.0), num(1.0));
    let [then, otherwise] = stage.if_else(condition);
    stage.put(stamp());
    let after = stage.insert_at(then);
    stage.put(show());
    stage.insert_at(otherwise);
    stage.put(hide_sprite());
    stage.insert_at(after);
    stage.put(pen_down());
    let json = blocks_of(&project.encode());
    assert!(json.contains(
        "\"b3\":{\"opcode\":\"control_if_else\",\"parent\":\"b1\",\"next\":\"b4\",\"topLevel\":false,\"inputs\":{\"CONDITION\":[2,\"b2\"],\"SUBSTACK\":[2,\"b5\"],\"SUBSTACK2\":[2,\"b6\"]}}"
    ));
    assert!(json.contains(
        "\"b4\":{\"opcode\":\"pen_stamp\",\"parent\":\"b3\",\"next\":\"b7\",\"topLevel\":false}"
    ));
    assert!(json.contains(
        "\"b7\":{\"opcode\":\"pen_penDown\",\"parent\":\"b4\",\"next\":null,\"topLevel\":false}"
    ));
}

#[test]
fn forever_holds_its_body_and_has_no_next() {
    let mut project = Project::default();
    let mut stage = project.stage();
    stage.start_script(when_flag_clicked());
    stage.forever();
    stage.put(show());
    assert_eq!(
        blocks_of(&project.encode()),
        "\"b1\":{\"opcode\":\"event_whenflagclicked\",\"parent\":null,\"next\":\"b2\",\"topLevel\":true},\"b2\":{\"opcode\":\"control_forever\",\"parent\":\"b1\",\"next\":null,\"topLevel\":false,\"inputs\":{\"SUBSTACK\":[2,\"b3\"]}},\"b3\":{\"opcode\":\"looks_show\",\"parent\":\"b2\",\"next\":null,\"topLevel\":false}"
    );
}

#[test]
fn repeat_returns_the_point_behind_it() {
    let mut project = Project::default();
    let mut stage = project.stage();
    stage.start_script(when_flag_clicked());
    let after = stage.repeat(num(10.0));
    stage.put(move_steps(num(5.0)));
    stage.put(wait(num(0.5)));
    let inside = stage.insert_at(after);
    stage.put(show());
    drop(inside);
    assert_eq!(
        blocks_of(&project.encode()),
        "\"b1\":{\"opcode\":\"event_whenflagclicked\",\"parent\":null,\"next\":\"b2\",\"topLevel\":true},\"b2\":{\"opcode\":\"control_repeat\",\"parent\":\"b1\",\"next\":\"b5\",\"topLevel\":false,\"inputs\":{\"TIMES\":[1,[4,10]],\"SUBSTACK\":[2,\"b3\"]}},\"b3\":{\"opcode\":\"motion_movesteps\",\"parent\":\"b2\",\"next\":\"b4\",\"topLevel\":false,\"inputs\":{\"STEPS\":[1,[4,5]]}},\"b4\":{\"opcode\":\"control_wait\",\"parent\":\"b3\",\"next\":null,\"topLevel\":false,\"inputs\":{\"DURATION\":[1,[4,0.5]]}},\"b5\":{\"opcode\":\"looks_show\",\"parent\":\"b2\",\"next\":null,\"topLevel\":false}"
    );
}

#[test]
fn loops_with_a_condition_nest_their_body() {
    let mut project = Project::default();
    let mut stage = project.stage();
    let a = stage.timer();
    let b = stage.gt(a, num(3.0));
    let after_while = stage.while_(b);
    let c = stage.answer();
    let d = stage.contains(c, text("y"));
    let after_until = stage.repeat_until(d);
    stage.put(stamp());
    drop(after_while);
    drop(after_until);
    assert_eq!(
        blocks_of(&project.encode()),
        "\"b1\":{\"opcode\":\"sensing_timer\",\"parent\":\"b2\",\"next\":null,\"topLevel\":false},\"b2\":{\"opcode\":\"operator_gt\",\"parent\":\"b3\",\"next\":null,\"topLevel\":false,\"inputs\":{\"OPERAND1\":[2,\"b1\"],\"OPERAND2\":[1,[4,3]]}},\"b3\":{\"opcode\":\"control_while\",\"parent\":null,\"next\":null,\"topLevel\":true,\"inputs\":{\"CONDITION\":[2,\"b2\"],\"SUBSTACK\":[2,\"b6\"]}},\"b4\":{\"opcode\":\"sensing_answer\",\"parent\":\"b5\",\"next\":null,\"topLevel\":false},\"b5\":{\"opcode\":\"operator_contains\",\"parent\":\"b6\",\"next\":null,\"topLevel\":false,\"inputs\":{\"STRING1\":[2,\"b4\"],\"STRING2\":[1,[10,\"y\"]]}},\"b6\":{\"opcode\":\"control_repeat_until\",\"parent\":\"b3\",\"next\":null,\"topLevel\":false,\"inputs\":{\"CONDITION\":[2,\"b5\"],\"SUBSTACK\":[2,\"b7\"]}},\"b7\":{\"opcode\":\"pen_stamp\",\"parent\":\"b6\",\"next\":null,\"topLevel\":false}"
    );
}

#[test]
fn for_each_names_its_counter() {
    let mut project = Project::default();
    let mut stage = project.stage();
    let i = stage.add_variable(Variable {
        name: "i".to_owned(),
        value: Constant::String(String::new()),
    });
    let after = stage.for_(i, num(3.0));
    drop(after);
    assert_eq!(
        blocks_of(&project.encode()),
        "\"b2\":{\"opcode\":\"control_for_each\",\"parent\":null,\"next\":null,\"topLevel\":true,\"inputs\":{\"VALUE\":[1,[4,3]]},\"fields\":{\"VARIABLE\":[\"i\",\"v1\"]}}"
    );
}

#[test]
fn list_operands_carry_the_list() {
    let mut project = Project::default();
    let mut stage = project.stage();
    let list = stage.add_list(List { name: "l".to_owned(), items: Vec::new() });
    let item = stage.item_of_list(list.clone(), num(1.0));
    let index = stage.item_num_of_list(list.clone(), item);
    let has = stage.list_contains_item(list.clone(), index);
    let length = stage.length_of_list(list);
    let both = stage.and(has, length);
    stage.put(say(both));
    assert_eq!(
        blocks_of(&project.encode()),
        "\"b2\":{\"opcode\":\"data_itemoflist\",\"parent\":\"b3\",\"next\":null,\"topLevel\":false,\"inputs\":{\"INDEX\":[1,[4,1]]},\"fields\":{\"LIST\":[\"l\",\"l1\"]}},\"b3\":{\"opcode\":\"data_itemnumoflist\",\"parent\":\"b4\",\"next\":null,\"topLevel\":false,\"inputs\":{\"ITEM\":[2,\"b2\"]},\"fields\":{\"LIST\":[\"l\",\"l1\"]}},\"b4\":{\"opcode\":\"data_listcontainsitem\",\"parent\":\"b6\",\"next\":null,\"topLevel\":false,\"inputs\":{\"ITEM\":[2,\"b3\"]},\"fields\":{\"LIST\":[\"l\",\"l1\"]}},\"b5\":{\"opcode\":\"data_lengthoflist\",\"parent\":\"b6\",\"next\":null,\"topLevel\":false,\"fields\":{\"LIST\":[\"l\",\"l1\"]}},\"b6\":{\"opcode\":\"operator_and\",\"parent\":\"b7\",\"next\":null,\"topLevel\":false,\"inputs\":{\"OPERAND1\":[2,\"b4\"],\"OPERAND2\":[2,\"b5\"]}},\"b7\":{\"opcode\":\"looks_say\",\"parent\":null,\"next\":null,\"topLevel\":true,\"inputs\":{\"MESSAGE\":[2,\"b6\"]}}"
    );
}

#[test]
fn insert_at_hands_back_the_point_it_replaces() {
    let mut project = Project::default();
    let mut stage = project.stage();
    stage.start_script(when_flag_clicked());
    let after = stage.if_(text("true"));
    let inside = stage.insert_at(after);
    stage.put(show());
    stage.insert_at(inside);
    stage.put(stamp());
    assert_eq!(
        blocks_of(&project.encode()),
        "\"b1\":{\"opcode\":\"event_whenflagclicked\",\"parent\":null,\"next\":\"b2\",\"topLevel\":true},\"b2\":{\"opcode\":\"control_if\",\"parent\":\"b1\",\"next\":\"b3\",\"topLevel\":false,\"inputs\":{\"CONDITION\":[1,[10,\"true\"]],\"SUBSTACK\":[2,\"b4\"]}},\"b3\":{\"opcode\":\"looks_show\",\"parent\":\"b2\",\"next\":null,\"topLevel\":false},\"b4\":{\"opcode\":\"pen_stamp\",\"parent\":\"b2\",\"next\":null,\"topLevel\":false}"
    );
}
