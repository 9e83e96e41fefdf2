use channel_protocol::channel_protocol::{
    build, find_repeat, BuildError, Protocol, ProtocolMessage, ProtocolMessageFnArg,
};

fn arg(ident: &str, ty: &str) -> ProtocolMessageFnArg {
    ProtocolMessageFnArg { ident: ident.to_string(), ty: ty.to_string() }
}

fn message(ident: &str, args: Vec<ProtocolMessageFnArg>, output: Option<&str>) -> ProtocolMessage {
    ProtocolMessage { ident: ident.to_string(), args, output: output.map(|ty| ty.to_string()) }
}

fn protocol(messages: Vec<ProtocolMessage>) -> Protocol {
    Protocol { vis: "pub".to_string(), ident: "Counter".to_string(), messages }
}

fn names(list: &[&str]) -> Vec<String> {
    list.iter().map(|name| name.to_string()).collect()
}

#[test]
fn find_repeat_on_empty_list() {
    assert_eq!(find_repeat(&names(&[])), None);
}

#[test]
fn find_repeat_on_distinct_names() {
    assert_eq!(find_repeat(&names(&["a", "b", "c"])), None);
}

#[test]
fn find_repeat_names_the_first_occurrence() {
    assert_eq!(find_repeat(&names(&["a", "b", "a", "a"])), Some((0, 2)));
}

#[test]
fn find_repeat_names_the_earliest_repeat() {
    assert_eq!(find_repeat(&names(&["a", "b", "c", "b", "a"])), Some((1, 3)));
}

#[test]
fn find_repeat_compares_whole_names() {
    assert_eq!(find_repeat(&names(&["ab", "a", "b", "abc"])), None);
}

#[test]
fn validate_accepts_distinct_operations() {
    let counter = protocol(vec![
        message("get", vec![], Some("i32")),
        message("inc", vec![arg("i", "i32")], None),
        message("reset", vec![], None),
    ]);
    assert_eq!(counter.validate(), Ok(()));
}

#[test]
fn validate_accepts_a_protocol_without_operations() {
    assert_eq!(protocol(vec![]).validate(), Ok(()));
}

#[test]
fn validate_accepts_equal_parameter_names_in_different_operations() {
    let counter = protocol(vec![
        message("inc", vec![arg("i", "i32")], None),
        message("dec", vec![arg("i", "i32")], None),
    ]);
    assert_eq!(counter.validate(), Ok(()));
}

#[test]
fn validate_rejects_operations_with_equal_names() {
    let counter =
        protocol(vec![message("get", vec![], Some("i32")), message("get", vec![], None)]);
    assert_eq!(counter.validate(), Err(BuildError::VariantCollision { first: 0, second: 1 }));
}

#[test]
fn validate_rejects_names_that_collide_after_conversion() {
    let counter = protocol(vec![
        message("reset", vec![], None),
        message("get_value", vec![], Some("i32")),
        message("inc", vec![arg("i", "i32")], None),
        message("getValue", vec![], Some("i32")),
    ]);
    assert_eq!(counter.validate(), Err(BuildError::VariantCollision { first: 1, second: 3 }));
}

#[test]
fn validate_rejects_duplicate_parameters() {
    let counter = protocol(vec![
        message("get", vec![], Some("i32")),
        message("inc_and_mul", vec![arg("add", "i32"), arg("mul", "i32"), arg("add", "i64")], None),
    ]);
    assert_eq!(
        counter.validate(),
        Err(BuildError::DuplicateParameter { message: 1, first: 0, second: 2 })
    );
}

#[test]
fn validate_names_the_first_operation_with_duplicate_parameters() {
    let counter = protocol(vec![
        message("a", vec![arg("x", "u8"), arg("y", "u8")], None),
        message("b", vec![arg("y", "u8"), arg("y", "u8")], None),
        message("c", vec![arg("x", "u8"), arg("x", "u8")], None),
    ]);
    assert_eq!(
        counter.validate(),
        Err(BuildError::DuplicateParameter { message: 1, first: 0, second: 1 })
    );
}

#[test]
fn validate_reports_a_collision_before_a_duplicate_parameter() {
    let counter = protocol(vec![
        message("a", vec![arg("x", "u8"), arg("x", "u8")], None),
        message("b", vec![], None),
        message("a", vec![], None),
    ]);
    assert_eq!(counter.validate(), Err(BuildError::VariantCollision { first: 0, second: 2 }));
}

#[test]
fn build_returns_the_fault_of_validate() {
    let counter =
        protocol(vec![message("set_it", vec![], None), message("setIt", vec![], None)]);
    assert_eq!(build(&counter).err(), Some(BuildError::VariantCollision { first: 0, second: 1 }));
    let other = protocol(vec![message("set", vec![arg("v", "u8"), arg("v", "u8")], None)]);
    assert_eq!(
        build(&other).err(),
        Some(BuildError::DuplicateParameter { message: 0, first: 0, second: 1 })
    );
}

#[test]
fn build_succeeds_on_a_well_formed_protocol() {
    let counter = protocol(vec![
        message("get", vec![], Some("i32")),
        message("inc", vec![arg("i", "i32")], None),
    ]);
    assert!(build(&counter).is_ok());
}
