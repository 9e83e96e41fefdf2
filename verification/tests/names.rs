use channel_protocol::channel_protocol::{Protocol, ProtocolMessage, ProtocolMessageFnArg};
use channel_protocol::enum_message::debug_format_text;
use channel_protocol::render::message::{struct_ident_of, MessageSignatureKind};

fn arg(ident: &str, ty: &str) -> ProtocolMessageFnArg {
    ProtocolMessageFnArg { ident: ident.to_string(), ty: ty.to_string() }
}

fn message(ident: &str, args: Vec<ProtocolMessageFnArg>, output: Option<&str>) -> ProtocolMessage {
    ProtocolMessage { ident: ident.to_string(), args, output: output.map(|ty| ty.to_string()) }
}

#[test]
fn signature_kind_without_parameters_or_return() {
    assert_eq!(message("reset", vec![], None).signature_kind(), MessageSignatureKind::Neither);
}

#[test]
fn signature_kind_with_return_only() {
    assert_eq!(
        message("get", vec![], Some("i32")).signature_kind(),
        MessageSignatureKind::OnlyReturn
    );
}

#[test]
fn signature_kind_with_parameters_only() {
    assert_eq!(
        message("inc", vec![arg("i", "i32")], None).signature_kind(),
        MessageSignatureKind::OnlyParam
    );
}

#[test]
fn signature_kind_with_parameters_and_return() {
    assert_eq!(
        message("get_and_inc", vec![arg("i", "i32")], Some("i32")).signature_kind(),
        MessageSignatureKind::ParamReturn
    );
}

#[test]
fn signature_kind_ignores_names_and_types() {
    let one = message("a", vec![arg("x", "u8"), arg("y", "String")], Some("Vec<u8>"));
    let other = message("zzz", vec![arg("k", "()")], Some("bool"));
    assert_eq!(one.signature_kind(), other.signature_kind());
}

#[test]
fn pascal_case_ident_of_snake_case_name() {
    assert_eq!(message("get_and_inc", vec![], None).pascal_case_ident(), "GetAndInc");
}

#[test]
fn pascal_case_ident_of_single_word() {
    assert_eq!(message("reset", vec![], None).pascal_case_ident(), "Reset");
}

#[test]
fn pascal_case_ident_keeps_digits() {
    assert_eq!(message("reached_10", vec![], None).pascal_case_ident(), "Reached10");
    assert_eq!(message("multiple_of_5", vec![], None).pascal_case_ident(), "MultipleOf5");
}

#[test]
fn pascal_case_ident_of_camel_case_name() {
    assert_eq!(message("isWindowOpen", vec![], None).pascal_case_ident(), "IsWindowOpen");
}

#[test]
fn pascal_case_ident_is_the_same_on_every_call() {
    let operation = message("inc_and_mul", vec![], None);
    assert_eq!(operation.pascal_case_ident(), operation.pascal_case_ident());
}

#[test]
fn struct_ident_follows_the_variant_ident() {
    assert_eq!(
        message("inc_and_mul", vec![arg("add", "i32")], None).struct_ident(),
        "IncAndMulParamMessage"
    );
}

#[test]
fn struct_ident_of_appends_param_message() {
    assert_eq!(struct_ident_of("Inc"), "IncParamMessage");
    assert_eq!(struct_ident_of(""), "ParamMessage");
}

#[test]
fn message_enum_ident_appends_message_to_the_name() {
    let protocol = Protocol {
        vis: String::new(),
        ident: "CounterInputProtocol".to_string(),
        messages: vec![],
    };
    assert_eq!(protocol.message_enum_ident(), "CounterInputProtocolMessage");
}

#[test]
fn message_enum_ident_keeps_the_case_of_the_name() {
    let protocol =
        Protocol { vis: String::new(), ident: "HTTPServer".to_string(), messages: vec![] };
    assert_eq!(protocol.message_enum_ident(), "HTTPServerMessage");
}

#[test]
fn debug_format_without_parameters() {
    assert_eq!(debug_format_text(0, false), "\"{}()\"");
    assert_eq!(debug_format_text(0, true), "\"{}() {}\"");
}

#[test]
fn debug_format_with_one_parameter() {
    assert_eq!(debug_format_text(1, false), "\"{}({:?})\"");
    assert_eq!(debug_format_text(1, true), "\"{}({:?}) {}\"");
}

#[test]
fn debug_format_with_several_parameters() {
    assert_eq!(debug_format_text(2, false), "\"{}({:?}, {:?})\"");
    assert_eq!(debug_format_text(3, true), "\"{}({:?}, {:?}, {:?}) {}\"");
}

#[test]
fn variant_idents_follow_declaration_order() {
    let protocol = Protocol {
        vis: String::new(),
        ident: "Counter".to_string(),
        messages: vec![
            message("get", vec![], Some("i32")),
            message("inc", vec![arg("i", "i32")], None),
            message("reset", vec![], None),
        ],
    };
    assert_eq!(protocol.variant_idents(), vec!["Get", "Inc", "Reset"]);
}

#[test]
fn arg_names_follow_declaration_order() {
    let operation = message("resize", vec![arg("width", "u32"), arg("height", "u32")], None);
    assert_eq!(operation.arg_names(), vec!["width", "height"]);
}
