use speculos_client::{
    encode_action, encode_automation_request, encode_condition, encode_rule, AutomationAction,
    AutomationCondition, AutomationRule, Button, WireValue,
};

fn s(text: &str) -> WireValue {
    WireValue::Str(text.to_string())
}

fn keys(value: &WireValue) -> Vec<String> {
    match value {
        WireValue::Object(fields) => fields.iter().map(|f| f.0.clone()).collect(),
        other => panic!("not an object: {:?}", other),
    }
}

fn bare_rule() -> AutomationRule {
    AutomationRule {
        text: None,
        regexp: None,
        x: None,
        y: None,
        conditions: vec![],
        actions: vec![],
    }
}

#[test]
fn button_actions_use_emulator_codes() {
    let left = AutomationAction::Button { button: Button::Left, pressed: true };
    let right = AutomationAction::Button { button: Button::Right, pressed: false };
    assert_eq!(
        encode_action(&left),
        WireValue::Array(vec![s("button"), WireValue::Int(1), WireValue::Bool(true)])
    );
    assert_eq!(
        encode_action(&right),
        WireValue::Array(vec![s("button"), WireValue::Int(2), WireValue::Bool(false)])
    );
}

#[test]
fn finger_action_fields_in_order() {
    let a = AutomationAction::Finger { x: 10, y: 300, touched: true };
    assert_eq!(
        encode_action(&a),
        WireValue::Array(vec![
            s("finger"),
            WireValue::Int(10),
            WireValue::Int(300),
            WireValue::Bool(true)
        ])
    );
}

#[test]
fn setbool_action_fields_in_order() {
    let a = AutomationAction::Setbool { varname: "seen".to_string(), value: false };
    assert_eq!(
        encode_action(&a),
        WireValue::Array(vec![s("setbool"), s("seen"), WireValue::Bool(false)])
    );
}

#[test]
fn exit_action_has_only_its_tag() {
    assert_eq!(encode_action(&AutomationAction::Exit), WireValue::Array(vec![s("exit")]));
}

#[test]
fn condition_is_a_pair() {
    let c = AutomationCondition { varname: "foo".to_string(), value: true };
    assert_eq!(encode_condition(&c), WireValue::Array(vec![s("foo"), WireValue::Bool(true)]));
}

#[test]
fn absent_matchers_are_omitted() {
    let encoded = encode_rule(&bare_rule());
    assert_eq!(keys(&encoded), vec!["conditions".to_string(), "actions".to_string()]);
    assert_eq!(
        encoded,
        WireValue::Object(vec![
            ("conditions".to_string(), WireValue::Array(vec![])),
            ("actions".to_string(), WireValue::Array(vec![])),
        ])
    );
}

#[test]
fn present_matchers_are_written_in_order() {
    let rule = AutomationRule {
        text: Some("Approve".to_string()),
        regexp: Some("^Sign.*".to_string()),
        x: Some(64),
        y: Some(32),
        conditions: vec![AutomationCondition { varname: "done".to_string(), value: false }],
        actions: vec![
            AutomationAction::Button { button: Button::Right, pressed: true },
            AutomationAction::Button { button: Button::Right, pressed: false },
            AutomationAction::Setbool { varname: "done".to_string(), value: true },
        ],
    };
    assert_eq!(
        encode_rule(&rule),
        WireValue::Object(vec![
            ("text".to_string(), s("Approve")),
            ("regexp".to_string(), s("^Sign.*")),
            ("x".to_string(), WireValue::Int(64)),
            ("y".to_string(), WireValue::Int(32)),
            (
                "conditions".to_string(),
                WireValue::Array(vec![WireValue::Array(vec![s("done"), WireValue::Bool(false)])])
            ),
            (
                "actions".to_string(),
                WireValue::Array(vec![
                    WireValue::Array(vec![s("button"), WireValue::Int(2), WireValue::Bool(true)]),
                    WireValue::Array(vec![s("button"), WireValue::Int(2), WireValue::Bool(false)]),
                    WireValue::Array(vec![s("setbool"), s("done"), WireValue::Bool(true)]),
                ])
            ),
        ])
    );
}

#[test]
fn only_some_matchers_present() {
    let rule = AutomationRule { y: Some(0), ..bare_rule() };
    assert_eq!(keys(&encode_rule(&rule)), vec!["y", "conditions", "actions"]);
    let rule = AutomationRule { regexp: Some("x".to_string()), ..bare_rule() };
    assert_eq!(keys(&encode_rule(&rule)), vec!["regexp", "conditions", "actions"]);
}

#[test]
fn automation_request_has_version_one() {
    let rules = vec![AutomationRule { actions: vec![AutomationAction::Exit], ..bare_rule() }];
    assert_eq!(
        encode_automation_request(&rules),
        WireValue::Object(vec![
            ("version".to_string(), WireValue::Int(1)),
            (
                "rules".to_string(),
                WireValue::Array(vec![WireValue::Object(vec![
                    ("conditions".to_string(), WireValue::Array(vec![])),
                    ("actions".to_string(), WireValue::Array(vec![WireValue::Array(vec![s("exit")])])),
                ])])
            ),
        ])
    );
    assert_eq!(
        encode_automation_request(&[]),
        WireValue::Object(vec![
            ("version".to_string(), WireValue::Int(1)),
            ("rules".to_string(), WireValue::Array(vec![])),
        ])
    );
}
