use channel_protocol::channel_protocol::{build, Protocol, ProtocolMessage, ProtocolMessageFnArg};
use channel_protocol::tokens::{Delimiter, Spacing, Token, TokenStream, TokenTree};
use channel_protocol::{client, enum_message, handler};
use std::str::FromStr;

fn arg(ident: &str, ty: &str) -> ProtocolMessageFnArg {
    ProtocolMessageFnArg { ident: ident.to_string(), ty: ty.to_string() }
}

fn message(ident: &str, args: Vec<ProtocolMessageFnArg>, output: Option<&str>) -> ProtocolMessage {
    ProtocolMessage { ident: ident.to_string(), args, output: output.map(|ty| ty.to_string()) }
}

fn counter() -> Protocol {
    Protocol {
        vis: String::new(),
        ident: "Counter".to_string(),
        messages: vec![
            message("get", vec![], Some("i32")),
            message("inc", vec![arg("i", "i32")], None),
            message("reset", vec![], None),
        ],
    }
}

fn reset() -> ProtocolMessage {
    message("reset", vec![], None)
}

fn get() -> ProtocolMessage {
    message("get", vec![], Some("i32"))
}

fn resize() -> ProtocolMessage {
    message("resize", vec![arg("width", "u32"), arg("height", "u32")], None)
}

fn inc_and_mul() -> ProtocolMessage {
    message("inc_and_mul", vec![arg("add", "i32"), arg("mul", "i32")], Some("Vec<i32>"))
}

fn delimiter(delimiter: Delimiter) -> proc_macro2::Delimiter {
    match delimiter {
        Delimiter::Parenthesis => proc_macro2::Delimiter::Parenthesis,
        Delimiter::Brace => proc_macro2::Delimiter::Brace,
        Delimiter::Bracket => proc_macro2::Delimiter::Bracket,
    }
}

fn to_stream(trees: &[TokenTree]) -> proc_macro2::TokenStream {
    let mut stream = proc_macro2::TokenStream::new();
    for tree in trees {
        match tree {
            TokenTree::Ident(name) => {
                let ident = proc_macro2::Ident::new(name, proc_macro2::Span::call_site());
                stream.extend([proc_macro2::TokenTree::from(ident)]);
            }
            TokenTree::Punct(ch, spacing) => {
                let spacing = match spacing {
                    Spacing::Alone => proc_macro2::Spacing::Alone,
                    Spacing::Joint => proc_macro2::Spacing::Joint,
                };
                let punct = proc_macro2::Punct::new(*ch, spacing);
                stream.extend([proc_macro2::TokenTree::from(punct)]);
            }
            TokenTree::Literal(text) => {
                let literal = proc_macro2::Literal::from_str(text).unwrap();
                stream.extend([proc_macro2::TokenTree::from(literal)]);
            }
            TokenTree::Fragment(text) => {
                stream.extend(proc_macro2::TokenStream::from_str(text).unwrap());
            }
            TokenTree::Group(kind, inner) => {
                let group = proc_macro2::Group::new(delimiter(*kind), to_stream(inner));
                stream.extend([proc_macro2::TokenTree::from(group)]);
            }
        }
    }
    stream
}

fn render(stream: &TokenStream) -> String {
    to_stream(stream.trees()).to_string()
}

fn source(text: &str) -> String {
    proc_macro2::TokenStream::from_str(text).unwrap().to_string()
}

const COUNTER_MESSAGE_TYPE: &str = r#"
    #[derive(Debug)]
    struct IncParamMessage { i: i32 }
    enum CounterMessage {
        Get(oneshot::Sender<i32>),
        Inc(IncParamMessage,),
        Reset
    }
    impl std::fmt::Debug for CounterMessage {
        fn fmt(&self, f: &mut std::fmt::Formatter< '_ >) -> std::fmt::Result {
            match self {
                CounterMessage::Get(_) =>
                    write!(f, "{}() {}", stringify!(get), stringify!(-> i32)),
                CounterMessage::Inc(IncParamMessage { i }) => {
                    write!(f, "{}({:?})", stringify!(inc), i)
                },
                CounterMessage::Reset => write!(f, "{}()", stringify!(reset)),
            }
        }
    }
"#;

const COUNTER_CLIENT: &str = r#"
    #[derive(Clone)]
    struct CounterClient(std::sync::mpsc::Sender<CounterMessage>);
    impl CounterClient {
        fn new() -> (Self, std::sync::mpsc::Receiver<CounterMessage>) {
            let (sender, receiver) = std::sync::mpsc::channel();
            (Self(sender), receiver)
        }
        pub fn get(&self) -> i32 {
            let (tx, rx) = oneshot::channel();
            let message = CounterMessage::Get(tx);
            self.0.send(message).unwrap();
            rx.recv().unwrap()
        }
        pub fn inc(&self, i: i32) {
            let message = CounterMessage::Inc(IncParamMessage { i, });
            self.0.send(message).unwrap();
        }
        pub fn reset(&self) {
            let message = CounterMessage::Reset;
            self.0.send(message).unwrap();
        }
    }
"#;

const COUNTER_HANDLER: &str = r#"
    trait HandleCounter<S = ()> {
        fn get(&mut self, state: S) -> i32;
        fn inc(&mut self, state: S, i: i32);
        fn reset(&mut self, state: S);
        fn dispatch(&mut self, message: CounterMessage, state: S) {
            match message {
                CounterMessage::Get(tx) => {
                    let ret = self.get(state);
                    tx.send(ret).unwrap();
                }
                CounterMessage::Inc(IncParamMessage { i }) => {
                    self.inc(state, i);
                }
                CounterMessage::Reset => {
                    self.reset(state);
                }
            }
        }
    }
"#;

#[test]
fn counter_message_type() {
    assert_eq!(render(&enum_message::build(&counter())), source(COUNTER_MESSAGE_TYPE));
}

#[test]
fn counter_client() {
    assert_eq!(render(&client::build(&counter())), source(COUNTER_CLIENT));
}

#[test]
fn counter_handler() {
    assert_eq!(render(&handler::build(&counter())), source(COUNTER_HANDLER));
}

#[test]
fn counter_artifacts_are_message_type_then_client_then_handler() {
    let all = format!("{}{}{}", COUNTER_MESSAGE_TYPE, COUNTER_CLIENT, COUNTER_HANDLER);
    assert_eq!(render(&build(&counter()).unwrap()), source(&all));
}

#[test]
fn compiling_twice_gives_the_same_tokens() {
    assert_eq!(build(&counter()), build(&counter()));
    assert_eq!(build(&counter()).unwrap().tokens(), build(&counter()).unwrap().tokens());
}

#[test]
fn visibility_stands_before_every_item_that_takes_one() {
    let mut protocol = counter();
    protocol.vis = "pub(crate)".to_string();
    protocol.messages.truncate(0);
    assert_eq!(
        render(&enum_message::message_enum_definition(&protocol)),
        source("pub(crate) enum CounterMessage {}")
    );
    assert_eq!(
        render(&handler::build(&protocol)),
        source(
            "pub(crate) trait HandleCounter<S = ()> {
                fn dispatch(&mut self, message: CounterMessage, state: S) { match message {} }
            }"
        )
    );
    assert_eq!(
        render(&client::build(&protocol)),
        source(
            "#[derive(Clone)]
            pub(crate) struct CounterClient(std::sync::mpsc::Sender<CounterMessage>);
            impl CounterClient {
                fn new() -> (Self, std::sync::mpsc::Receiver<CounterMessage>) {
                    let (sender, receiver) = std::sync::mpsc::channel();
                    (Self(sender), receiver)
                }
            }"
        )
    );
}

#[test]
fn protocol_without_operations_has_one_empty_enum() {
    let mut protocol = counter();
    protocol.messages.truncate(0);
    assert_eq!(
        render(&enum_message::build(&protocol)),
        source(
            "enum CounterMessage {}
            impl std::fmt::Debug for CounterMessage {
                fn fmt(&self, f: &mut std::fmt::Formatter< '_ >) -> std::fmt::Result {
                    match self {}
                }
            }"
        )
    );
}

#[test]
fn declaration_of_an_operation() {
    assert_eq!(render(&reset().to_tokens()), source("fn reset();"));
    assert_eq!(render(&get().to_tokens()), source("fn get() -> i32;"));
    assert_eq!(render(&resize().to_tokens()), source("fn resize(width: u32, height: u32);"));
    assert_eq!(
        render(&inc_and_mul().to_tokens()),
        source("fn inc_and_mul(add: i32, mul: i32) -> Vec<i32> ;")
    );
}

#[test]
fn declaration_of_a_parameter() {
    assert_eq!(render(&arg("title", "String").to_tokens()), source("title: String"));
    assert_eq!(
        render(&enum_message::arg_to_field(&arg("key", "Option<(u8, [u8; 4])>"))),
        source("key: Option<(u8, [u8; 4])>")
    );
}

#[test]
fn variant_without_parameters_or_return_carries_nothing() {
    assert_eq!(render(&enum_message::message_variant(&reset(), "Reset")), source("Reset"));
}

#[test]
fn variant_with_return_only_carries_the_reply_sender() {
    assert_eq!(
        render(&enum_message::message_variant(&get(), "Get")),
        source("Get(oneshot::Sender<i32>)")
    );
}

#[test]
fn variant_with_parameters_only_carries_the_parameter_struct() {
    assert_eq!(
        render(&enum_message::message_variant(&resize(), "Resize")),
        source("Resize(ResizeParamMessage,)")
    );
}

#[test]
fn variant_with_parameters_and_return_carries_both() {
    assert_eq!(
        render(&enum_message::message_variant(&inc_and_mul(), "IncAndMul")),
        source("IncAndMul(IncAndMulParamMessage, oneshot::Sender<Vec<i32> >)")
    );
}

#[test]
fn parameter_struct_exists_only_with_parameters() {
    assert_eq!(enum_message::message_struct_definition(&reset(), "Reset").len(), 0);
    assert_eq!(enum_message::message_struct_definition(&get(), "Get").len(), 0);
    assert_eq!(
        render(&enum_message::message_struct_definition(&resize(), "Resize")),
        source("#[derive(Debug)] struct ResizeParamMessage { width: u32, height: u32 }")
    );
    assert_eq!(
        render(&enum_message::message_struct_definition(&inc_and_mul(), "IncAndMul")),
        source("#[derive(Debug)] struct IncAndMulParamMessage { add: i32, mul: i32 }")
    );
}

#[test]
fn client_function_without_parameters_or_return() {
    assert_eq!(
        render(&client::message_to_fn("WinitMessage", &reset(), "Reset")),
        source(
            "pub fn reset(&self) {
                let message = WinitMessage::Reset;
                self.0.send(message).unwrap();
            }"
        )
    );
}

#[test]
fn client_function_with_return_only() {
    assert_eq!(
        render(&client::message_to_fn("WinitMessage", &get(), "Get")),
        source(
            "pub fn get(&self) -> i32 {
                let (tx, rx) = oneshot::channel();
                let message = WinitMessage::Get(tx);
                self.0.send(message).unwrap();
                rx.recv().unwrap()
            }"
        )
    );
}

#[test]
fn client_function_with_parameters_only() {
    assert_eq!(
        render(&client::message_to_fn("WinitMessage", &resize(), "Resize")),
        source(
            "pub fn resize(&self, width: u32, height: u32) {
                let message = WinitMessage::Resize(ResizeParamMessage { width, height, });
                self.0.send(message).unwrap();
            }"
        )
    );
}

#[test]
fn client_function_with_parameters_and_return() {
    assert_eq!(
        render(&client::message_to_fn("WinitMessage", &inc_and_mul(), "IncAndMul")),
        source(
            "pub fn inc_and_mul(&self, add: i32, mul: i32) -> Vec<i32> {
                let (tx, rx) = oneshot::channel();
                let message = WinitMessage::IncAndMul(IncAndMulParamMessage { add, mul, }, tx);
                self.0.send(message).unwrap();
                rx.recv().unwrap()
            }"
        )
    );
}

#[test]
fn client_function_sends_once_and_waits_only_for_a_reply() {
    let sends = |operation: &ProtocolMessage| {
        let body = client::client_body("M", operation, "V").tokens();
        let send = client::send_statement_tokens().tokens();
        let recv = client::await_reply_tokens().tokens();
        let count = |part: &Vec<Token>| body.windows(part.len()).filter(|w| w == part).count();
        (count(&send), count(&recv))
    };
    assert_eq!(sends(&reset()), (1, 0));
    assert_eq!(sends(&resize()), (1, 0));
    assert_eq!(sends(&get()), (1, 1));
    assert_eq!(sends(&inc_and_mul()), (1, 1));
}

#[test]
fn client_function_ends_with_the_send_or_with_the_reply() {
    let send = client::send_statement_tokens().tokens();
    let recv = client::await_reply_tokens().tokens();
    assert!(client::client_body("M", &resize(), "V").tokens().ends_with(&send));
    let body = client::client_body("M", &get(), "V").tokens();
    assert!(body.ends_with(&recv));
    assert!(body[..body.len() - recv.len()].ends_with(&send));
}

#[test]
fn handler_method_takes_the_state_before_the_parameters() {
    assert_eq!(
        render(&handler::handle_protocol_message(&reset())),
        source("fn reset(&mut self, state: S);")
    );
    assert_eq!(
        render(&handler::handle_protocol_message(&get())),
        source("fn get(&mut self, state: S) -> i32;")
    );
    assert_eq!(
        render(&handler::handle_protocol_message(&resize())),
        source("fn resize(&mut self, state: S, width: u32, height: u32);")
    );
    assert_eq!(
        render(&handler::handle_protocol_message(&inc_and_mul())),
        source("fn inc_and_mul(&mut self, state: S, add: i32, mul: i32) -> Vec<i32> ;")
    );
}

#[test]
fn dispatch_arm_without_parameters_or_return() {
    assert_eq!(
        render(&handler::dispatch_message("WinitMessage", &reset(), "Reset")),
        source("WinitMessage::Reset => { self.reset(state); }")
    );
}

#[test]
fn dispatch_arm_with_return_only() {
    assert_eq!(
        render(&handler::dispatch_message("WinitMessage", &get(), "Get")),
        source("WinitMessage::Get(tx) => { let ret = self.get(state); tx.send(ret).unwrap(); }")
    );
}

#[test]
fn dispatch_arm_with_parameters_only() {
    assert_eq!(
        render(&handler::dispatch_message("WinitMessage", &resize(), "Resize")),
        source(
            "WinitMessage::Resize(ResizeParamMessage { width, height }) => {
                self.resize(state, width, height);
            }"
        )
    );
}

#[test]
fn dispatch_arm_with_parameters_and_return() {
    assert_eq!(
        render(&handler::dispatch_message("WinitMessage", &inc_and_mul(), "IncAndMul")),
        source(
            "WinitMessage::IncAndMul(IncAndMulParamMessage { add, mul }, tx) => {
                let ret = self.inc_and_mul(state, add, mul);
                tx.send(ret).unwrap();
            }"
        )
    );
}

#[test]
fn dispatch_arm_replies_after_the_handler_call() {
    let body = handler::dispatch_body(&get()).tokens();
    let call = handler::handler_call(&get()).tokens();
    let reply = handler::reply_statement_tokens().tokens();
    let position = |part: &Vec<Token>| body.windows(part.len()).position(|w| w == part).unwrap();
    assert!(position(&call) + call.len() <= position(&reply));
    let silent = handler::dispatch_body(&resize()).tokens();
    assert_eq!(silent.windows(reply.len()).filter(|w| *w == reply).count(), 0);
}

#[test]
fn debug_arm_without_parameters_or_return() {
    assert_eq!(
        render(&enum_message::message_match_arm_debug_impl("WinitMessage", &reset(), "Reset")),
        source(r#"WinitMessage::Reset => write!(f, "{}()", stringify!(reset)),"#)
    );
}

#[test]
fn debug_arm_with_return_only() {
    assert_eq!(
        render(&enum_message::message_match_arm_debug_impl("WinitMessage", &get(), "Get")),
        source(
            r#"WinitMessage::Get(_) => write!(f, "{}() {}", stringify!(get), stringify!(-> i32)),"#
        )
    );
}

#[test]
fn debug_arm_with_parameters_only() {
    assert_eq!(
        render(&enum_message::message_match_arm_debug_impl("WinitMessage", &resize(), "Resize")),
        source(
            r#"WinitMessage::Resize(ResizeParamMessage { width, height }) => {
                write!(f, "{}({:?}, {:?})", stringify!(resize), width, height)
            },"#
        )
    );
}

#[test]
fn debug_arm_with_parameters_and_return() {
    assert_eq!(
        render(&enum_message::message_match_arm_debug_impl(
            "WinitMessage",
            &inc_and_mul(),
            "IncAndMul"
        )),
        source(
            r#"WinitMessage::IncAndMul(IncAndMulParamMessage { add, mul }, _) => {
                write!(
                    f,
                    "{}({:?}, {:?}) {}",
                    stringify!(inc_and_mul),
                    add,
                    mul,
                    stringify!(-> Vec<i32>)
                )
            },"#
        )
    );
}

#[test]
fn order_of_operations_is_kept_in_every_artifact() {
    let protocol = Protocol {
        vis: "pub".to_string(),
        ident: "Winit".to_string(),
        messages: vec![resize(), get(), reset(), inc_and_mul()],
    };
    let names = ["resize", "get", "reset", "inc_and_mul"];
    let variants = ["Resize", "Get", "Reset", "IncAndMul"];
    let positions = |tokens: &Vec<Token>, wanted: &[&str], after: &[Token]| -> Vec<usize> {
        wanted
            .iter()
            .map(|name| {
                let mut pattern = after.to_vec();
                pattern.push(Token::Ident(name.to_string()));
                tokens.windows(pattern.len()).position(|w| w == pattern.as_slice()).unwrap()
            })
            .collect()
    };
    let increasing = |found: Vec<usize>| found.windows(2).all(|pair| pair[0] < pair[1]);
    let keyword = |word: &str| Token::Ident(word.to_string());

    let enum_tokens = enum_message::message_enum_definition(&protocol).tokens();
    assert!(increasing(positions(&enum_tokens, &variants, &[])));
    let handler_tokens = handler::build(&protocol).tokens();
    assert!(increasing(positions(&handler_tokens, &names, &[keyword("fn")])));
    let client_tokens = client::build(&protocol).tokens();
    assert!(increasing(positions(&client_tokens, &names, &[keyword("pub"), keyword("fn")])));
    let path = [
        keyword("WinitMessage"),
        Token::Punct(':', Spacing::Joint),
        Token::Punct(':', Spacing::Alone),
    ];
    let dispatch_tokens = handler::dispatch_method(&protocol).tokens();
    assert!(increasing(positions(&dispatch_tokens, &variants, &path)));
    let debug_tokens = enum_message::message_debug_impl(&protocol).tokens();
    assert!(increasing(positions(&debug_tokens, &variants, &path)));
}

#[test]
fn order_of_parameters_is_kept_in_fields_and_arguments() {
    let operation = message(
        "create_window",
        vec![arg("title", "String"), arg("width", "u32"), arg("height", "u32")],
        None,
    );
    assert_eq!(
        render(&enum_message::message_struct_definition(&operation, "CreateWindow")),
        source(
            "#[derive(Debug)]
            struct CreateWindowParamMessage { title: String, width: u32, height: u32 }"
        )
    );
    assert_eq!(
        render(&client::struct_literal(&operation, "CreateWindow")),
        source("CreateWindowParamMessage { title, width, height, }")
    );
    assert_eq!(
        render(&handler::handler_call(&operation)),
        source("self.create_window(state, title, width, height)")
    );
}

#[test]
fn all_artifacts_use_the_same_identifiers() {
    let tokens = build(&Protocol {
        vis: String::new(),
        ident: "Winit".to_string(),
        messages: vec![message("set_title", vec![arg("title", "String")], Some("bool"))],
    })
    .unwrap()
    .tokens();
    let count = |name: &str| {
        tokens.iter().filter(|token| **token == Token::Ident(name.to_string())).count()
    };
    assert_eq!(count("SetTitle"), 4);
    assert_eq!(count("SetTitleParamMessage"), 5);
    assert_eq!(count("WinitMessage"), 8);
    assert_eq!(count("WinitClient"), 2);
    assert_eq!(count("HandleWinit"), 1);
}

#[test]
fn emitted_tokens_are_well_nested() {
    let tokens = build(&counter()).unwrap().tokens();
    let mut open: Vec<Delimiter> = Vec::new();
    for token in &tokens {
        match token {
            Token::Open(delimiter) => open.push(*delimiter),
            Token::Close(delimiter) => assert_eq!(open.pop(), Some(*delimiter)),
            _ => {}
        }
    }
    assert!(open.is_empty());
}

fn word(name: &str) -> TokenStream {
    TokenStream::new().ident(name)
}

#[test]
fn enum_of_given_variants() {
    assert_eq!(
        render(&enum_message::enum_definition_from("pub", "M", vec![word("A"), word("B")])),
        source("pub enum M { A, B }")
    );
    assert_eq!(render(&enum_message::enum_definition_from("", "M", vec![])), source("enum M {}"));
}

#[test]
fn debug_impl_of_given_arms() {
    let arm = |name: &str| word(name).fat_arrow().ident("x").punct(',');
    assert_eq!(
        render(&enum_message::debug_impl_from("M", vec![arm("a"), arm("b")])),
        source(
            "impl std::fmt::Debug for M {
                fn fmt(&self, f: &mut std::fmt::Formatter< '_ >) -> std::fmt::Result {
                    match self { a => x, b => x, }
                }
            }"
        )
    );
}

#[test]
fn dispatch_method_of_given_arms() {
    let arm = |name: &str| {
        word(name).fat_arrow().group(channel_protocol::tokens::Delimiter::Brace, TokenStream::new())
    };
    assert_eq!(
        render(&handler::dispatch_method_from("M", vec![arm("a"), arm("b")])),
        source("fn dispatch(&mut self, message: M, state: S) { match message { a => {} b => {} } }")
    );
}

#[test]
fn handler_trait_of_given_methods() {
    let method = |name: &str| word("fn").ident(name).punct(';');
    assert_eq!(
        render(&handler::handle_trait_from(
            "pub",
            "HandleM",
            vec![method("a"), method("b")],
            word("fn").ident("dispatch").punct(';'),
        )),
        source("pub trait HandleM<S = ()> { fn a; fn b; fn dispatch; }")
    );
}

#[test]
fn client_of_given_functions() {
    assert_eq!(
        render(&client::client_from("pub", "MClient", "M", word("functions"))),
        source(
            "#[derive(Clone)]
            pub struct MClient(std::sync::mpsc::Sender<M>);
            impl MClient {
                fn new() -> (Self, std::sync::mpsc::Receiver<M>) {
                    let (sender, receiver) = std::sync::mpsc::channel();
                    (Self(sender), receiver)
                }
                functions
            }"
        )
    );
}

#[test]
fn crate_entry_compiles_like_build() {
    assert_eq!(channel_protocol::channel_protocol(&counter()), build(&counter()));
    let mut twice = counter();
    twice.messages.push(get());
    assert_eq!(channel_protocol::channel_protocol(&twice), build(&twice));
    assert!(build(&twice).is_err());
}
