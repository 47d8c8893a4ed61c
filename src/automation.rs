use vstd::prelude::*;

use crate::wire::{
    fields_view, items_view, keys_of, lemma_array_view, lemma_object_view, Json, WireValue,
};

verus! {

/// Ledger buttons.
#[derive(Debug, Clone, Copy, PartialEq, Eq, Structural)]
pub enum Button {
    /// The left button.
    Left,
    /// The right button.
    Right,
}

/// Condition for Speculos automation rules.
#[derive(Debug, Clone, PartialEq, Eq)]
pub struct AutomationCondition {
    /// Name of the variable to be tested.
    pub varname: String,
    /// The value the variable must hold.
    pub value: bool,
}

/// Speculos automation actions.
#[derive(Debug, Clone, PartialEq, Eq)]
pub enum AutomationAction {
    /// Press or release a button.
    Button {
        /// The button whose pressed status is to be updated.
        button: Button,
        /// The pressed status to change to.
        pressed: bool,
    },
    /// Touch or release the screen.
    Finger {
        /// The X coordinate whose touched status is to be updated.
        x: u32,
        /// The Y coordinate whose touched status is to be updated.
        y: u32,
        /// The touched status to change to.
        touched: bool,
    },
    /// Set a variable to a boolean value.
    Setbool {
        /// Name of the variable to be updated.
        varname: String,
        /// The new variable value.
        value: bool,
    },
    /// Exit speculos.
    Exit,
}

/// Speculos automation rule.
///
/// Each of the four matchers constrains the rule only when it is present.
#[derive(Debug, Clone, PartialEq, Eq)]
pub struct AutomationRule {
    /// Exact text match.
    pub text: Option<String>,
    /// Regex text match.
    pub regexp: Option<String>,
    /// X coordinate match.
    pub x: Option<u32>,
    /// Y coordinate match.
    pub y: Option<u32>,
    /// Conditions for this rule to be activated.
    pub conditions: Vec<AutomationCondition>,
    /// Actions to perform when this rule is applied.
    pub actions: Vec<AutomationAction>,
}

/// The number the emulator uses for each button.
pub open spec fn button_code(button: Button) -> nat {
    match button {
        Button::Left => 1,
        Button::Right => 2,
    }
}

/// A condition on the wire: the pair `[varname, value]`.
pub open spec fn condition_json(c: AutomationCondition) -> Json {
    Json::Array(seq![Json::Str(c.varname@), Json::Bool(c.value)])
}

/// An action on the wire: its tag, then its fields in a fixed order.
pub open spec fn action_json(a: AutomationAction) -> Json {
    match a {
        AutomationAction::Button { button, pressed } => Json::Array(
            seq![Json::Str("button"@), Json::Int(button_code(button)), Json::Bool(pressed)],
        ),
        AutomationAction::Finger { x, y, touched } => Json::Array(
            seq![Json::Str("finger"@), Json::Int(x as nat), Json::Int(y as nat), Json::Bool(touched)],
        ),
        AutomationAction::Setbool { varname, value } => Json::Array(
            seq![Json::Str("setbool"@), Json::Str(varname@), Json::Bool(value)],
        ),
        AutomationAction::Exit => Json::Array(seq![Json::Str("exit"@)]),
    }
}

/// A field holding a string, written only when the value is present.
pub open spec fn str_field(key: Seq<char>, value: Option<String>) -> Seq<(Seq<char>, Json)> {
    match value {
        Some(s) => seq![(key, Json::Str(s@))],
        None => seq![],
    }
}

/// A field holding an integer, written only when the value is present.
pub open spec fn int_field(key: Seq<char>, value: Option<u32>) -> Seq<(Seq<char>, Json)> {
    match value {
        Some(n) => seq![(key, Json::Int(n as nat))],
        None => seq![],
    }
}

/// The matcher fields of a rule that are present, in the order text, regexp, x, y.
pub open spec fn matcher_fields(rule: AutomationRule) -> Seq<(Seq<char>, Json)> {
    str_field("text"@, rule.text) + str_field("regexp"@, rule.regexp) + int_field("x"@, rule.x)
        + int_field("y"@, rule.y)
}

/// All fields of a rule on the wire.
pub open spec fn rule_fields(rule: AutomationRule) -> Seq<(Seq<char>, Json)> {
    matcher_fields(rule) + seq![
        ("conditions"@, Json::Array(rule.conditions@.map_values(|c| condition_json(c)))),
        ("actions"@, Json::Array(rule.actions@.map_values(|a| action_json(a)))),
    ]
}

/// A rule on the wire: an object of its present matchers, its conditions and its actions.
pub open spec fn rule_json(rule: AutomationRule) -> Json {
    Json::Object(rule_fields(rule))
}

/// The body of the automation endpoint: `{"version": 1, "rules": [...]}`.
pub open spec fn automation_request_json(rules: Seq<AutomationRule>) -> Json {
    Json::Object(
        seq![
            ("version"@, Json::Int(1)),
            ("rules"@, Json::Array(rules.map_values(|r| rule_json(r)))),
        ],
    )
}

/// Encodes a condition as the pair `[varname, value]`.
pub fn encode_condition(c: &AutomationCondition) -> (r: WireValue)
    ensures
        r@ == condition_json(*c),
{
    let r = WireValue::Array(vec![WireValue::Str(c.varname.clone()), WireValue::Bool(c.value)]);
    proof {
        lemma_array_view(r);
        assert(items_view(r->Array_0@) =~= seq![Json::Str(c.varname@), Json::Bool(c.value)]);
    }
    r
}

/// Encodes an action as its tag followed by its fields.
pub fn encode_action(a: &AutomationAction) -> (r: WireValue)
    ensures
        r@ == action_json(*a),
{
    let items = match a {
        AutomationAction::Button { button, pressed } => {
            let code: u64 = match button {
                Button::Left => 1,
                Button::Right => 2,
            };
            vec![WireValue::Str("button".to_owned()), WireValue::Int(code), WireValue::Bool(*pressed)]
        },
        AutomationAction::Finger { x, y, touched } => vec![
            WireValue::Str("finger".to_owned()),
            WireValue::Int(*x as u64),
            WireValue::Int(*y as u64),
            WireValue::Bool(*touched),
        ],
        AutomationAction::Setbool { varname, value } => vec![
            WireValue::Str("setbool".to_owned()),
            WireValue::Str(varname.clone()),
            WireValue::Bool(*value),
        ],
        AutomationAction::Exit => vec![WireValue::Str("exit".to_owned())],
    };
    let r = WireValue::Array(items);
    proof {
        lemma_array_view(r);
        assert(items_view(r->Array_0@) =~= action_json(*a)->Array_0);
    }
    r
}

/// Encodes each condition in turn.
fn encode_conditions(conditions: &Vec<AutomationCondition>) -> (r: Vec<WireValue>)
    ensures
        items_view(r@) == conditions@.map_values(|c| condition_json(c)),
{
    let mut r: Vec<WireValue> = Vec::new();
    let mut i: usize = 0;
    while i < conditions.len()
        invariant
            i <= conditions@.len(),
            r@.len() == i,
            forall|j: int| 0 <= j < i ==> (#[trigger] r@[j])@ == condition_json(conditions@[j]),
        decreases conditions@.len() - i,
    {
        r.push(encode_condition(&conditions[i]));
        i += 1;
    }
    assert(items_view(r@) =~= conditions@.map_values(|c| condition_json(c)));
    r
}

/// Encodes each action in turn.
fn encode_actions(actions: &Vec<AutomationAction>) -> (r: Vec<WireValue>)
    ensures
        items_view(r@) == actions@.map_values(|a| action_json(a)),
{
    let mut r: Vec<WireValue> = Vec::new();
    let mut i: usize = 0;
    while i < actions.len()
        invariant
            i <= actions@.len(),
            r@.len() == i,
            forall|j: int| 0 <= j < i ==> (#[trigger] r@[j])@ == action_json(actions@[j]),
        decreases actions@.len() - i,
    {
        r.push(encode_action(&actions[i]));
        i += 1;
    }
    assert(items_view(r@) =~= actions@.map_values(|a| action_json(a)));
    r
}

/// Encodes a rule as an object: its present matchers, then its conditions and actions.
pub fn encode_rule(rule: &AutomationRule) -> (r: WireValue)
    ensures
        r@ == rule_json(*rule),
{
    let mut fields: Vec<(String, WireValue)> = Vec::new();
    if let Some(text) = &rule.text {
        fields.push(("text".to_owned(), WireValue::Str(text.clone())));
    }
    assert(fields_view(fields@) =~= str_field("text"@, rule.text));
    if let Some(regexp) = &rule.regexp {
        fields.push(("regexp".to_owned(), WireValue::Str(regexp.clone())));
    }
    assert(fields_view(fields@) =~= str_field("text"@, rule.text) + str_field(
        "regexp"@,
        rule.regexp,
    ));
    if let Some(x) = rule.x {
        fields.push(("x".to_owned(), WireValue::Int(x as u64)));
    }
    assert(fields_view(fields@) =~= str_field("text"@, rule.text) + str_field(
        "regexp"@,
        rule.regexp,
    ) + int_field("x"@, rule.x));
    if let Some(y) = rule.y {
        fields.push(("y".to_owned(), WireValue::Int(y as u64)));
    }
    assert(fields_view(fields@) =~= matcher_fields(*rule));
    let conditions = WireValue::Array(encode_conditions(&rule.conditions));
    proof {
        lemma_array_view(conditions);
    }
    fields.push(("conditions".to_owned(), conditions));
    let actions = WireValue::Array(encode_actions(&rule.actions));
    proof {
        lemma_array_view(actions);
    }
    fields.push(("actions".to_owned(), actions));
    let r = WireValue::Object(fields);
    proof {
        lemma_object_view(r);
        assert(fields_view(r->Object_0@) =~= rule_fields(*rule));
    }
    r
}

/// Encodes the body of an automation request, protocol version 1, with the given rules.
pub fn encode_automation_request(rules: &[AutomationRule]) -> (r: WireValue)
    ensures
        r@ == automation_request_json(rules@),
{
    let mut items: Vec<WireValue> = Vec::new();
    let mut i: usize = 0;
    while i < rules.len()
        invariant
            i <= rules@.len(),
            items@.len() == i,
            forall|j: int| 0 <= j < i ==> (#[trigger] items@[j])@ == rule_json(rules@[j]),
        decreases rules@.len() - i,
    {
        items.push(encode_rule(&rules[i]));
        i += 1;
    }
    let list = WireValue::Array(items);
    proof {
        lemma_array_view(list);
        assert(items_view(list->Array_0@) =~= rules@.map_values(|r| rule_json(r)));
    }
    let r = WireValue::Object(
        vec![("version".to_owned(), WireValue::Int(1)), ("rules".to_owned(), list)],
    );
    proof {
        lemma_object_view(r);
        assert(fields_view(r->Object_0@) =~= automation_request_json(rules@)->Object_0);
    }
    r
}

/// A rule whose four matchers are all absent is written with no matcher key at all: its
/// object has exactly the keys `conditions` and `actions`, in that order.
pub proof fn lemma_absent_matchers_omitted(rule: AutomationRule)
    requires
        rule.text is None,
        rule.regexp is None,
        rule.x is None,
        rule.y is None,
    ensures
        keys_of(rule_fields(rule)) == seq!["conditions"@, "actions"@],
{
    assert(matcher_fields(rule) =~= seq![]);
    assert(keys_of(rule_fields(rule)) =~= seq!["conditions"@, "actions"@]);
}

/// Each matcher key appears in a rule's object exactly when that matcher is present, and
/// the `conditions` and `actions` keys always appear.
pub proof fn lemma_matcher_keys(rule: AutomationRule)
    ensures
        keys_of(rule_fields(rule)).contains("text"@) <==> rule.text is Some,
        keys_of(rule_fields(rule)).contains("regexp"@) <==> rule.regexp is Some,
        keys_of(rule_fields(rule)).contains("x"@) <==> rule.x is Some,
        keys_of(rule_fields(rule)).contains("y"@) <==> rule.y is Some,
        keys_of(rule_fields(rule)).contains("conditions"@),
        keys_of(rule_fields(rule)).contains("actions"@),
{
    reveal_strlit("text");
    reveal_strlit("regexp");
    reveal_strlit("x");
    reveal_strlit("y");
    reveal_strlit("conditions");
    reveal_strlit("actions");
    let text_keys: Seq<Seq<char>> = if rule.text is Some { seq!["text"@] } else { seq![] };
    let regexp_keys: Seq<Seq<char>> = if rule.regexp is Some { seq!["regexp"@] } else { seq![] };
    let x_keys: Seq<Seq<char>> = if rule.x is Some { seq!["x"@] } else { seq![] };
    let y_keys: Seq<Seq<char>> = if rule.y is Some { seq!["y"@] } else { seq![] };
    let keys = text_keys + regexp_keys + x_keys + y_keys + seq!["conditions"@, "actions"@];
    assert(keys_of(rule_fields(rule)) =~= keys);
    let all = seq!["text"@, "regexp"@, "x"@, "y"@, "conditions"@, "actions"@];
    assert forall|i: int, j: int| 0 <= i < j < 6 implies all[i] != all[j] by {
        assert(all[i].len() != all[j].len() || all[i][0] != all[j][0]);
    }
    if rule.text is Some {
        assert(keys[0] == "text"@);
    }
    if rule.regexp is Some {
        assert(keys[text_keys.len() as int] == "regexp"@);
    }
    if rule.x is Some {
        assert(keys[(text_keys.len() + regexp_keys.len()) as int] == "x"@);
    }
    if rule.y is Some {
        assert(keys[(text_keys.len() + regexp_keys.len() + x_keys.len()) as int] == "y"@);
    }
    assert(keys[keys.len() - 2] == "conditions"@);
    assert(keys[keys.len() - 1] == "actions"@);
    assert forall|i: int| 0 <= i < keys.len() implies (#[trigger] keys[i] == "text"@ ==> rule.text is Some)
        && (keys[i] == "regexp"@ ==> rule.regexp is Some) && (keys[i] == "x"@ ==> rule.x is Some) && (
    keys[i] == "y"@ ==> rule.y is Some) by {
        assert(all.contains(keys[i]));
    }
}

/// The tag that opens an action's array on the wire.
pub open spec fn action_tag(a: AutomationAction) -> Seq<char> {
    match a {
        AutomationAction::Button { .. } => "button"@,
        AutomationAction::Finger { .. } => "finger"@,
        AutomationAction::Setbool { .. } => "setbool"@,
        AutomationAction::Exit => "exit"@,
    }
}

/// The number of elements of an action's array on the wire, its tag included.
pub open spec fn action_arity(a: AutomationAction) -> nat {
    match a {
        AutomationAction::Button { .. } => 3,
        AutomationAction::Finger { .. } => 4,
        AutomationAction::Setbool { .. } => 3,
        AutomationAction::Exit => 1,
    }
}

/// Every action is written as an array, never an object: its tag first, and exactly as
/// many elements as its variant has fields, plus one.
pub proof fn lemma_action_shape(a: AutomationAction)
    ensures
        action_json(a) is Array,
        action_json(a)->Array_0.len() == action_arity(a),
        action_json(a)->Array_0[0] == Json::Str(action_tag(a)),
{
}

/// Every condition is written as the two-element array `[varname, value]`, never an object.
pub proof fn lemma_condition_shape(c: AutomationCondition)
    ensures
        condition_json(c) is Array,
        condition_json(c)->Array_0.len() == 2,
        condition_json(c)->Array_0[0] == Json::Str(c.varname@),
        condition_json(c)->Array_0[1] == Json::Bool(c.value),
{
}

} // verus!
