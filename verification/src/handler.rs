//! The handler trait: one method per operation, and the dispatch method that
//! routes a received message to the method of its operation.
use crate::channel_protocol::{
    output_tokens, Protocol, ProtocolMessage, ProtocolMessageView, ProtocolView,
};
use crate::render::message::{
    param_struct_ident, struct_ident_of, struct_pattern, struct_pattern_tokens, variant_path,
    variant_path_tokens, MessageSignatureKind,
};
use crate::tokens::{
    concat_all, fat_arrow, fragment, group, ident, punct, punctuated, stream_views, Delimiter,
    TokenStream, TokenView,
};
use vstd::prelude::*;
use vstd::string::StringExecFns;

verus! {

/// The receiver of every handler method: `&mut self`.
pub open spec fn receiver() -> Seq<TokenView> {
    punct('&') + ident("mut"@) + ident("self"@)
}

/// The state parameter of every handler method: `state: S`.
pub open spec fn state_param() -> Seq<TokenView> {
    ident("state"@) + punct(':') + ident("S"@)
}

/// The statement that sends the handler's result to the caller:
/// `tx.send(ret).unwrap();`.
pub open spec fn reply_statement() -> Seq<TokenView> {
    ident("tx"@) + punct('.') + ident("send"@) + group(Delimiter::Parenthesis, ident("ret"@))
        + punct('.') + ident("unwrap"@) + group(Delimiter::Parenthesis, Seq::empty()) + punct(';')
}

/// The dispatch method that routes a message of the enum `enum_ident`
/// through `arms`:
/// `fn dispatch(&mut self, message: Enum, state: S) { match message { arms } }`.
pub open spec fn dispatch_method_of(enum_ident: Seq<char>, arms: Seq<Seq<TokenView>>) -> Seq<
    TokenView,
> {
    ident("fn"@) + ident("dispatch"@) + group(
        Delimiter::Parenthesis,
        punctuated(
            seq![
                receiver(),
                ident("message"@) + punct(':') + ident(enum_ident),
                state_param(),
            ],
        ),
    ) + group(
        Delimiter::Brace,
        ident("match"@) + ident("message"@) + group(Delimiter::Brace, concat_all(arms)),
    )
}

/// The handler trait with the methods `methods` and the dispatch method
/// `dispatch`: `vis trait Ident<S = ()> { methods dispatch }`. The state
/// type `S` is of the implementor's choice and is the unit type by default.
pub open spec fn handler_trait_of(
    vis: Seq<char>,
    handler_ident: Seq<char>,
    methods: Seq<Seq<TokenView>>,
    dispatch: Seq<TokenView>,
) -> Seq<TokenView> {
    fragment(vis) + ident("trait"@) + ident(handler_ident) + punct('<') + ident("S"@) + punct('=')
        + group(Delimiter::Parenthesis, Seq::empty()) + punct('>') + group(
        Delimiter::Brace,
        concat_all(methods) + dispatch,
    )
}

impl ProtocolView {
    /// The identifier of the handler trait: `Handle` followed by the
    /// protocol's name.
    pub open spec fn handler_ident(self) -> Seq<char> {
        "Handle"@ + self.ident
    }

    /// The handler methods, in declaration order.
    pub open spec fn handler_methods(self) -> Seq<Seq<TokenView>> {
        self.messages.map_values(|message: ProtocolMessageView| message.handler_method())
    }

    /// The arms of the dispatch method, in declaration order.
    pub open spec fn dispatch_arms(self) -> Seq<Seq<TokenView>> {
        self.messages.map_values(
            |message: ProtocolMessageView|
                message.dispatch_arm(self.message_enum_ident(), message.pascal_case_ident()),
        )
    }

    /// The dispatch method: one arm per operation.
    pub open spec fn dispatch_method(self) -> Seq<TokenView> {
        dispatch_method_of(self.message_enum_ident(), self.dispatch_arms())
    }

    /// The handler trait: one method per operation, then the dispatch
    /// method.
    pub open spec fn handler_trait(self) -> Seq<TokenView> {
        handler_trait_of(
            self.vis,
            self.handler_ident(),
            self.handler_methods(),
            self.dispatch_method(),
        )
    }
}

impl ProtocolMessageView {
    /// The handler method of this operation:
    /// `fn ident(&mut self, state: S, args) -> output;`.
    pub open spec fn handler_method(self) -> Seq<TokenView> {
        ident("fn"@) + ident(self.ident) + group(
            Delimiter::Parenthesis,
            punctuated(seq![receiver(), state_param()] + self.arg_declarations()),
        ) + output_tokens(self.output) + punct(';')
    }

    /// The call of this operation's handler method with the state and the
    /// fields of the message: `self.ident(state, args)`.
    pub open spec fn handler_call(self) -> Seq<TokenView> {
        ident("self"@) + punct('.') + ident(self.ident) + group(
            Delimiter::Parenthesis,
            punctuated(seq![ident("state"@)] + self.arg_idents()),
        )
    }

    /// The pattern that matches this operation's variant and binds what it
    /// carries: its fields, and `tx` for the reply sender.
    pub open spec fn dispatch_pattern(self, enum_ident: Seq<char>, variant_ident: Seq<char>) -> Seq<
        TokenView,
    > {
        let fields = struct_pattern(param_struct_ident(variant_ident), self.arg_idents());
        variant_path(enum_ident, variant_ident) + match self.signature_kind() {
            MessageSignatureKind::Neither => Seq::empty(),
            MessageSignatureKind::OnlyReturn => group(Delimiter::Parenthesis, ident("tx"@)),
            MessageSignatureKind::OnlyParam => group(Delimiter::Parenthesis, fields),
            MessageSignatureKind::ParamReturn => group(
                Delimiter::Parenthesis,
                fields + punct(',') + ident("tx"@),
            ),
        }
    }

    /// The body of this operation's arm. It calls the handler method once;
    /// where the operation returns a value, it binds the result and, after
    /// the call, sends it through the reply sender.
    pub open spec fn dispatch_body(self) -> Seq<TokenView> {
        if self.signature_kind().has_return() {
            group(
                Delimiter::Brace,
                ident("let"@) + ident("ret"@) + punct('=') + self.handler_call() + punct(';')
                    + reply_statement(),
            )
        } else {
            group(Delimiter::Brace, self.handler_call() + punct(';'))
        }
    }

    /// The arm of the dispatch method for this operation:
    /// `pattern => body`.
    pub open spec fn dispatch_arm(self, enum_ident: Seq<char>, variant_ident: Seq<char>) -> Seq<
        TokenView,
    > {
        self.dispatch_pattern(enum_ident, variant_ident) + fat_arrow() + self.dispatch_body()
    }
}

/// The receiver of every handler method.
pub fn receiver_tokens() -> (out: TokenStream)
    ensures
        out@ == receiver(),
{
    TokenStream::new().punct('&').ident("mut").ident("self")
}

/// The state parameter of every handler method.
pub fn state_param_tokens() -> (out: TokenStream)
    ensures
        out@ == state_param(),
{
    TokenStream::new().ident("state").punct(':').ident("S")
}

/// The statement that sends the handler's result to the caller.
pub fn reply_statement_tokens() -> (out: TokenStream)
    ensures
        out@ == reply_statement(),
{
    TokenStream::new().ident("tx").punct('.').ident("send").group(
        Delimiter::Parenthesis,
        TokenStream::new().ident("ret"),
    ).punct('.').ident("unwrap").group(Delimiter::Parenthesis, TokenStream::new()).punct(';')
}

/// The call of the handler method of `message`.
pub fn handler_call(message: &ProtocolMessage) -> (out: TokenStream)
    ensures
        out@ == message@.handler_call(),
{
    let mut arguments: Vec<TokenStream> = Vec::new();
    arguments.push(TokenStream::new().ident("state"));
    let mut fields = message.arg_idents();
    arguments.append(&mut fields);
    assert(stream_views(arguments@) =~= seq![ident("state"@)] + message@.arg_idents());
    TokenStream::new().ident("self").punct('.').ident(message.ident.as_str()).group(
        Delimiter::Parenthesis,
        TokenStream::punctuated(arguments),
    )
}

/// The pattern of the dispatch arm of `message`, whose variant is
/// `variant_ident` of the enum `enum_message_ident`.
pub fn dispatch_pattern(
    enum_message_ident: &str,
    message: &ProtocolMessage,
    variant_ident: &str,
) -> (out: TokenStream)
    ensures
        out@ == message@.dispatch_pattern(enum_message_ident@, variant_ident@),
{
    let path = variant_path_tokens(enum_message_ident, variant_ident);
    match message.signature_kind() {
        MessageSignatureKind::Neither => {
            assert(path@ + Seq::<TokenView>::empty() =~= path@);
            path
        },
        MessageSignatureKind::OnlyReturn => path.group(
            Delimiter::Parenthesis,
            TokenStream::new().ident("tx"),
        ),
        MessageSignatureKind::OnlyParam => {
            let message_struct_ident = struct_ident_of(variant_ident);
            let fields = struct_pattern_tokens(message_struct_ident.as_str(), message.arg_idents());
            path.group(Delimiter::Parenthesis, fields)
        },
        MessageSignatureKind::ParamReturn => {
            let message_struct_ident = struct_ident_of(variant_ident);
            let fields = struct_pattern_tokens(message_struct_ident.as_str(), message.arg_idents());
            path.group(Delimiter::Parenthesis, fields.punct(',').ident("tx"))
        },
    }
}

/// The body of the dispatch arm of `message`.
pub fn dispatch_body(message: &ProtocolMessage) -> (out: TokenStream)
    ensures
        out@ == message@.dispatch_body(),
{
    match message.signature_kind() {
        MessageSignatureKind::Neither | MessageSignatureKind::OnlyParam => TokenStream::new().group(
            Delimiter::Brace,
            handler_call(message).punct(';'),
        ),
        MessageSignatureKind::OnlyReturn | MessageSignatureKind::ParamReturn => {
            TokenStream::new().group(
                Delimiter::Brace,
                TokenStream::new().ident("let").ident("ret").punct('=').append(
                    handler_call(message),
                ).punct(';').append(reply_statement_tokens()),
            )
        },
    }
}

/// The arm of the dispatch method for `message`, whose variant is
/// `variant_ident` of the enum `enum_message_ident`.
pub fn dispatch_message(
    enum_message_ident: &str,
    message: &ProtocolMessage,
    variant_ident: &str,
) -> (out: TokenStream)
    ensures
        out@ == message@.dispatch_arm(enum_message_ident@, variant_ident@),
{
    dispatch_pattern(enum_message_ident, message, variant_ident).fat_arrow().append(
        dispatch_body(message),
    )
}

/// The handler method of `message`.
pub fn handle_protocol_message(message: &ProtocolMessage) -> (out: TokenStream)
    ensures
        out@ == message@.handler_method(),
{
    let mut params: Vec<TokenStream> = Vec::new();
    params.push(receiver_tokens());
    params.push(state_param_tokens());
    let mut declared = message.arg_declarations();
    params.append(&mut declared);
    assert(stream_views(params@) =~= seq![receiver(), state_param()]
        + message@.arg_declarations());
    TokenStream::new().ident("fn").ident(message.ident.as_str()).group(
        Delimiter::Parenthesis,
        TokenStream::punctuated(params),
    ).append(message.output_tokens()).punct(';')
}

/// The dispatch method that routes a message of the enum
/// `enum_message_ident` through `arms`.
pub fn dispatch_method_from(enum_message_ident: &str, arms: Vec<TokenStream>) -> (out: TokenStream)
    ensures
        out@ == dispatch_method_of(enum_message_ident@, stream_views(arms@)),
{
    let mut params: Vec<TokenStream> = Vec::new();
    params.push(receiver_tokens());
    params.push(TokenStream::new().ident("message").punct(':').ident(enum_message_ident));
    params.push(state_param_tokens());
    assert(stream_views(params@) =~= seq![
        receiver(),
        ident("message"@) + punct(':') + ident(enum_message_ident@),
        state_param(),
    ]);
    TokenStream::new().ident("fn").ident("dispatch").group(
        Delimiter::Parenthesis,
        TokenStream::punctuated(params),
    ).group(
        Delimiter::Brace,
        TokenStream::new().ident("match").ident("message").group(
            Delimiter::Brace,
            TokenStream::concat_all(arms),
        ),
    )
}

/// The handler trait `handler_ident` with the methods `methods` and the
/// dispatch method `dispatch`.
pub fn handle_trait_from(
    vis: &str,
    handler_ident: &str,
    methods: Vec<TokenStream>,
    dispatch: TokenStream,
) -> (out: TokenStream)
    ensures
        out@ == handler_trait_of(vis@, handler_ident@, stream_views(methods@), dispatch@),
{
    TokenStream::new().fragment(vis).ident("trait").ident(handler_ident).punct('<').ident(
        "S",
    ).punct('=').group(Delimiter::Parenthesis, TokenStream::new()).punct('>').group(
        Delimiter::Brace,
        TokenStream::concat_all(methods).append(dispatch),
    )
}

/// The dispatch method of `protocol`: one arm per operation, in declaration
/// order.
pub fn dispatch_method(protocol: &Protocol) -> (out: TokenStream)
    ensures
        out@ == protocol@.dispatch_method(),
{
    let enum_message_ident = protocol.message_enum_ident();
    let mut arms: Vec<TokenStream> = Vec::new();
    let mut i: usize = 0;
    while i < protocol.messages.len()
        invariant
            i <= protocol.messages.len(),
            arms.len() == i,
            enum_message_ident@ == protocol@.message_enum_ident(),
            forall|j: int|
                0 <= j < i ==> (#[trigger] arms[j])@ == protocol.messages[j]@.dispatch_arm(
                    protocol@.message_enum_ident(),
                    protocol.messages[j]@.pascal_case_ident(),
                ),
        decreases protocol.messages.len() - i,
    {
        let message = &protocol.messages[i];
        let variant_ident = message.pascal_case_ident();
        arms.push(dispatch_message(enum_message_ident.as_str(), message, variant_ident.as_str()));
        i += 1;
    }
    assert(stream_views(arms@) =~= protocol@.dispatch_arms());
    dispatch_method_from(enum_message_ident.as_str(), arms)
}

/// The handler trait of `protocol`: one method per operation, in declaration
/// order, then the dispatch method.
pub fn handle_trait(protocol: &Protocol) -> (out: TokenStream)
    ensures
        out@ == protocol@.handler_trait(),
{
    let handler_ident = String::from_str("Handle").concat(protocol.ident.as_str());
    let mut methods: Vec<TokenStream> = Vec::new();
    let mut i: usize = 0;
    while i < protocol.messages.len()
        invariant
            i <= protocol.messages.len(),
            methods.len() == i,
            forall|j: int|
                0 <= j < i ==> (#[trigger] methods[j])@ == protocol.messages[j]@.handler_method(),
        decreases protocol.messages.len() - i,
    {
        methods.push(handle_protocol_message(&protocol.messages[i]));
        i += 1;
    }
    assert(stream_views(methods@) =~= protocol@.handler_methods());
    handle_trait_from(
        protocol.vis.as_str(),
        handler_ident.as_str(),
        methods,
        dispatch_method(protocol),
    )
}

/// The items emitted for the receiving side of `protocol`: the handler trait.
pub fn build(protocol: &Protocol) -> (out: TokenStream)
    ensures
        out@ == protocol@.handler_trait(),
{
    handle_trait(protocol)
}

} // verus!
