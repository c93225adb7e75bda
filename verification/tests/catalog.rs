use sb3_builder::block::{
    append, ask, broadcast_and_wait, change_variable, change_x, change_y, delete_all_of_list,
    delete_of_list, erase_all, go_to_back_layer, go_to_front_layer, go_to_xy, hide_sprite,
    insert_at_list, move_steps, pen_down, pen_up, replace, reset_timer, say, say_for_seconds,
    set_costume, set_pen_color, set_pen_size, set_size, set_variable, set_x, set_y, show, stamp,
    wait, Stacking,
};
use sb3_builder::{Constant, List, ListRef, Operand, Project, Target, Variable, VariableRef};

fn text(s: &str) -> Operand {
    Operand::from(s.to_owned())
}

/// What stands between `"blocks":{` and `},"comments"` in the first target.
fn blocks_of(json: &str) -> String {
    let start = json.find("\"blocks\":{").unwrap() + "\"blocks\":{".len();
    let end = json.find("},\"comments\"").unwrap();
    json[start..end].to_owned()
}

/// The members `inputs` and `fields` of a block, as far as it has them.
fn members(inputs: &str, fields: &str) -> String {
    let mut text = String::new();
    if !inputs.is_empty() {
        text.push_str(&format!(",\"inputs\":{{{inputs}}}"));
    }
    if !fields.is_empty() {
        text.push_str(&format!(",\"fields\":{{{fields}}}"));
    }
    text
}

fn placed(block: Stacking, opcode: &str, inputs: &str) {
    let mut project = Project::default();
    let mut stage = project.stage();
    stage.put(block);
    assert_eq!(
        blocks_of(&project.encode()),
        format!(
            "\"b1\":{{\"opcode\":\"{opcode}\",\"parent\":null,\"next\":null,\"topLevel\":true{}}}",
            members(inputs, "")
        )
    );
}

fn placed_with_list(block: fn(ListRef) -> Stacking, opcode: &str, inputs: &str) {
    let mut project = Project::default();
    let mut stage = project.stage();
    let list = stage.add_list(List { name: "things".to_owned(), items: Vec::new() });
    stage.put(block(list));
    assert_eq!(
        blocks_of(&project.encode()),
        format!(
            "\"b2\":{{\"opcode\":\"{opcode}\",\"parent\":null,\"next\":null,\"topLevel\":true{}}}",
            members(inputs, "\"LIST\":[\"things\",\"l1\"]")
        )
    );
}

fn placed_with_variable(block: fn(VariableRef) -> Stacking, opcode: &str, inputs: &str) {
    let mut project = Project::default();
    let mut stage = project.stage();
    let variable = stage.add_variable(Variable {
        name: "score".to_owned(),
        value: Constant::String(String::new()),
    });
    stage.put(block(variable));
    assert_eq!(
        blocks_of(&project.encode()),
        format!(
            "\"b2\":{{\"opcode\":\"{opcode}\",\"parent\":null,\"next\":null,\"topLevel\":true{}}}",
            members(inputs, "\"VARIABLE\":[\"score\",\"v1\"]")
        )
    );
}

fn reported(operand: fn(&mut Target<'_>) -> Operand, opcode: &str, inputs: &str) {
    let mut project = Project::default();
    let mut stage = project.stage();
    operand(&mut stage);
    assert_eq!(
        blocks_of(&project.encode()),
        format!(
            "\"b1\":{{\"opcode\":\"{opcode}\",\"parent\":null,\"next\":null,\"topLevel\":true{}}}",
            members(inputs, "")
        )
    );
}

fn reported_with_list(
    operand: fn(&mut Target<'_>, ListRef) -> Operand,
    opcode: &str,
    inputs: &str,
) {
    let mut project = Project::default();
    let mut stage = project.stage();
    let list = stage.add_list(List { name: "things".to_owned(), items: Vec::new() });
    operand(&mut stage, list);
    assert_eq!(
        blocks_of(&project.encode()),
        format!(
            "\"b2\":{{\"opcode\":\"{opcode}\",\"parent\":null,\"next\":null,\"topLevel\":true{}}}",
            members(inputs, "\"LIST\":[\"things\",\"l1\"]")
        )
    );
}

#[test]
fn statements_carry_their_opcode_and_inputs() {
    placed(ask(text("p")), "sensing_askandwait", "\"QUESTION\":[1,[10,\"p\"]]");
    placed(
        broadcast_and_wait(text("p")),
        "event_broadcastandwait",
        "\"BROADCAST_INPUT\":[1,[10,\"p\"]]",
    );
    placed(change_x(text("p")), "motion_changexby", "\"DX\":[1,[10,\"p\"]]");
    placed(change_y(text("p")), "motion_changeyby", "\"DY\":[1,[10,\"p\"]]");
    placed(erase_all(), "pen_clear", "");
    placed(go_to_back_layer(), "looks_gotofrontback", "\"FRONT_BACK\":[1,[10,\"back\"]]");
    placed(go_to_front_layer(), "looks_gotofrontback", "\"FRONT_BACK\":[1,[10,\"front\"]]");
    placed(
        go_to_xy(text("p"), text("q")),
        "motion_gotoxy",
        "\"X\":[1,[10,\"p\"]],\"Y\":[1,[10,\"q\"]]",
    );
    placed(hide_sprite(), "looks_hide", "");
    placed(move_steps(text("p")), "motion_movesteps", "\"STEPS\":[1,[10,\"p\"]]");
    placed(pen_down(), "pen_penDown", "");
    placed(pen_up(), "pen_penUp", "");
    placed(reset_timer(), "sensing_resettimer", "");
    placed(say(text("p")), "looks_say", "\"MESSAGE\":[1,[10,\"p\"]]");
    placed(
        say_for_seconds(text("p"), text("q")),
        "looks_say",
        "\"SECS\":[1,[10,\"p\"]],\"MESSAGE\":[1,[10,\"q\"]]",
    );
    placed(set_costume(text("p")), "looks_switchcostumeto", "\"COSTUME\":[1,[10,\"p\"]]");
    placed(set_pen_color(text("p")), "pen_setPenColorTo", "\"COLOR\":[1,[10,\"p\"]]");
    placed(set_pen_size(text("p")), "pen_setPenSizeTo", "\"SIZE\":[1,[10,\"p\"]]");
    placed(set_size(text("p")), "looks_setsizeto", "\"SIZE\":[1,[10,\"p\"]]");
    placed(set_x(text("p")), "motion_setx", "\"X\":[1,[10,\"p\"]]");
    placed(set_y(text("p")), "motion_sety", "\"Y\":[1,[10,\"p\"]]");
    placed(show(), "looks_show", "");
    placed(stamp(), "pen_stamp", "");
    placed(wait(text("p")), "control_wait", "\"DURATION\":[1,[10,\"p\"]]");
}

#[test]
fn statements_on_a_list_name_the_list() {
    placed_with_list(|list| append(list, text("p")), "data_addtolist", "\"ITEM\":[1,[10,\"p\"]]");
    placed_with_list(|list| delete_all_of_list(list), "data_deletealloflist", "");
    placed_with_list(
        |list| delete_of_list(list, text("p")),
        "data_deleteoflist",
        "\"INDEX\":[1,[10,\"p\"]]",
    );
    placed_with_list(
        |list| insert_at_list(list, text("p"), text("q")),
        "data_insertatlist",
        "\"ITEM\":[1,[10,\"p\"]],\"INDEX\":[1,[10,\"q\"]]",
    );
    placed_with_list(
        |list| replace(list, text("p"), text("q")),
        "data_replaceitemoflist",
        "\"INDEX\":[1,[10,\"p\"]],\"ITEM\":[1,[10,\"q\"]]",
    );
}

#[test]
fn statements_on_a_variable_name_the_variable() {
    placed_with_variable(
        |variable| change_variable(variable, text("p")),
        "data_changevariableby",
        "\"VALUE\":[1,[10,\"p\"]]",
    );
    placed_with_variable(
        |variable| set_variable(variable, text("p")),
        "data_setvariableto",
        "\"VALUE\":[1,[10,\"p\"]]",
    );
}

#[test]
fn operands_carry_their_opcode_and_inputs() {
    reported(
        |stage| stage.add(text("p"), text("q")),
        "operator_add",
        "\"NUM1\":[1,[10,\"p\"]],\"NUM2\":[1,[10,\"q\"]]",
    );
    reported(
        |stage| stage.sub(text("p"), text("q")),
        "operator_subtract",
        "\"NUM1\":[1,[10,\"p\"]],\"NUM2\":[1,[10,\"q\"]]",
    );
    reported(
        |stage| stage.mul(text("p"), text("q")),
        "operator_multiply",
        "\"NUM1\":[1,[10,\"p\"]],\"NUM2\":[1,[10,\"q\"]]",
    );
    reported(
        |stage| stage.div(text("p"), text("q")),
        "operator_divide",
        "\"NUM1\":[1,[10,\"p\"]],\"NUM2\":[1,[10,\"q\"]]",
    );
    reported(
        |stage| stage.modulo(text("p"), text("q")),
        "operator_mod",
        "\"NUM1\":[1,[10,\"p\"]],\"NUM2\":[1,[10,\"q\"]]",
    );
    reported(
        |stage| stage.lt(text("p"), text("q")),
        "operator_lt",
        "\"OPERAND1\":[1,[10,\"p\"]],\"OPERAND2\":[1,[10,\"q\"]]",
    );
    reported(
        |stage| stage.eq(text("p"), text("q")),
        "operator_equals",
        "\"OPERAND1\":[1,[10,\"p\"]],\"OPERAND2\":[1,[10,\"q\"]]",
    );
    reported(
        |stage| stage.gt(text("p"), text("q")),
        "operator_gt",
        "\"OPERAND1\":[1,[10,\"p\"]],\"OPERAND2\":[1,[10,\"q\"]]",
    );
    reported(|stage| stage.not(text("p")), "operator_not", "\"OPERAND\":[1,[10,\"p\"]]");
    reported(
        |stage| stage.and(text("p"), text("q")),
        "operator_and",
        "\"OPERAND1\":[1,[10,\"p\"]],\"OPERAND2\":[1,[10,\"q\"]]",
    );
    reported(
        |stage| stage.or(text("p"), text("q")),
        "operator_or",
        "\"OPERAND1\":[1,[10,\"p\"]],\"OPERAND2\":[1,[10,\"q\"]]",
    );
    reported(|stage| stage.x_position(), "motion_xposition", "");
    reported(|stage| stage.y_position(), "motion_yposition", "");
    reported(|stage| stage.timer(), "sensing_timer", "");
    reported(|stage| stage.answer(), "sensing_answer", "");
    reported(|stage| stage.length(text("p")), "operator_length", "\"STRING\":[1,[10,\"p\"]]");
    reported(
        |stage| stage.letter_of(text("p"), text("q")),
        "operator_letter_of",
        "\"STRING\":[1,[10,\"p\"]],\"LETTER\":[1,[10,\"q\"]]",
    );
    reported(
        |stage| stage.contains(text("p"), text("q")),
        "operator_contains",
        "\"STRING1\":[1,[10,\"p\"]],\"STRING2\":[1,[10,\"q\"]]",
    );
    reported(
        |stage| stage.join(text("p"), text("q")),
        "operator_join",
        "\"STRING1\":[1,[10,\"p\"]],\"STRING2\":[1,[10,\"q\"]]",
    );
    reported(|stage| stage.mouse_x(), "sensing_mousex", "");
    reported(|stage| stage.mouse_y(), "sensing_mousey", "");
    reported(
        |stage| stage.key_is_pressed(text("p")),
        "sensing_keypressed",
        "\"KEY_OPTION\":[1,[10,\"p\"]]",
    );
    reported(
        |stage| stage.random(text("p"), text("q")),
        "operator_random",
        "\"FROM\":[1,[10,\"p\"]],\"TO\":[1,[10,\"q\"]]",
    );
}

#[test]
fn operands_on_a_list_name_the_list() {
    reported_with_list(
        |stage, list| stage.item_of_list(list, text("p")),
        "data_itemoflist",
        "\"INDEX\":[1,[10,\"p\"]]",
    );
    reported_with_list(
        |stage, list| stage.item_num_of_list(list, text("p")),
        "data_itemnumoflist",
        "\"ITEM\":[1,[10,\"p\"]]",
    );
    reported_with_list(|stage, list| stage.length_of_list(list), "data_lengthoflist", "");
    reported_with_list(
        |stage, list| stage.list_contains_item(list, text("p")),
        "data_listcontainsitem",
        "\"ITEM\":[1,[10,\"p\"]]",
    );
}
