//! The client: a handle on the sending half of the channel, with one
//! function per operation that sends the operation's message and, where the
//! operation returns a value, waits for the reply.
use crate::channel_protocol::{
    output_tokens, Protocol, ProtocolMessage, ProtocolMessageView, ProtocolView,
};
use crate::enum_message::{derive_attribute, derive_attribute_tokens};
use crate::render::message::{
    param_struct_ident, struct_ident_of, variant_path, variant_path_tokens, MessageSignatureKind,
};
use crate::tokens::{
    arrow, concat_all, fragment, group, ident, literal, path_sep, punct, punctuated, stream_views,
    terminated, Delimiter, TokenStream, TokenView,
};
use vstd::prelude::*;
use vstd::string::StringExecFns;

verus! {

/// An item of `std::sync::mpsc`: `std::sync::mpsc::name`.
pub open spec fn std_mpsc(name: Seq<char>) -> Seq<TokenView> {
    ident("std"@) + path_sep() + ident("sync"@) + path_sep() + ident("mpsc"@) + path_sep() + ident(
        name,
    )
}

/// The statement that makes the channel for one reply:
/// `let (tx, rx) = oneshot::channel();`.
pub open spec fn reply_channel_statement() -> Seq<TokenView> {
    ident("let"@) + group(Delimiter::Parenthesis, ident("tx"@) + punct(',') + ident("rx"@))
        + punct('=') + ident("oneshot"@) + path_sep() + ident("channel"@) + group(
        Delimiter::Parenthesis,
        Seq::empty(),
    ) + punct(';')
}

/// The statement that sends the message; it does not return where the
/// receiving half of the channel is gone: `self.0.send(message).unwrap();`.
pub open spec fn send_statement() -> Seq<TokenView> {
    ident("self"@) + punct('.') + literal("0"@) + punct('.') + ident("send"@) + group(
        Delimiter::Parenthesis,
        ident("message"@),
    ) + punct('.') + ident("unwrap"@) + group(Delimiter::Parenthesis, Seq::empty()) + punct(';')
}

/// The expression that waits for the reply and yields it:
/// `rx.recv().unwrap()`.
pub open spec fn await_reply() -> Seq<TokenView> {
    ident("rx"@) + punct('.') + ident("recv"@) + group(Delimiter::Parenthesis, Seq::empty())
        + punct('.') + ident("unwrap"@) + group(Delimiter::Parenthesis, Seq::empty())
}

/// The constructor of the client, which makes the channel and returns the
/// client with the receiving half:
/// `fn new() -> (Self, std::sync::mpsc::Receiver<Enum>) { .. }`.
pub open spec fn client_constructor(enum_ident: Seq<char>) -> Seq<TokenView> {
    ident("fn"@) + ident("new"@) + group(Delimiter::Parenthesis, Seq::empty()) + arrow() + group(
        Delimiter::Parenthesis,
        ident("Self"@) + punct(',') + std_mpsc("Receiver"@) + punct('<') + ident(enum_ident)
            + punct('>'),
    ) + group(
        Delimiter::Brace,
        ident("let"@) + group(
            Delimiter::Parenthesis,
            ident("sender"@) + punct(',') + ident("receiver"@),
        ) + punct('=') + std_mpsc("channel"@) + group(Delimiter::Parenthesis, Seq::empty())
            + punct(';') + group(
            Delimiter::Parenthesis,
            ident("Self"@) + group(Delimiter::Parenthesis, ident("sender"@)) + punct(',')
                + ident("receiver"@),
        ),
    )
}

/// The client struct, which wraps the sending half of the channel and can be
/// cloned: `#[derive(Clone)] vis struct Ident(std::sync::mpsc::Sender<Enum>);`.
pub open spec fn client_struct(
    vis: Seq<char>,
    client_ident: Seq<char>,
    enum_ident: Seq<char>,
) -> Seq<TokenView> {
    derive_attribute("Clone"@) + fragment(vis) + ident("struct"@) + ident(client_ident) + group(
        Delimiter::Parenthesis,
        std_mpsc("Sender"@) + punct('<') + ident(enum_ident) + punct('>'),
    ) + punct(';')
}

/// Everything emitted for the client `client_ident` of the enum
/// `enum_ident`: the struct, and its impl with the constructor and the
/// functions `functions`.
pub open spec fn client_of(
    vis: Seq<char>,
    client_ident: Seq<char>,
    enum_ident: Seq<char>,
    functions: Seq<TokenView>,
) -> Seq<TokenView> {
    client_struct(vis, client_ident, enum_ident) + ident("impl"@) + ident(client_ident) + group(
        Delimiter::Brace,
        client_constructor(enum_ident) + functions,
    )
}

impl ProtocolMessageView {
    /// The expression that builds the parameter struct from the function's
    /// arguments: `Ident { a, b, }`.
    pub open spec fn struct_literal(self, variant_ident: Seq<char>) -> Seq<TokenView> {
        ident(param_struct_ident(variant_ident)) + group(
            Delimiter::Brace,
            terminated(self.arg_idents()),
        )
    }

    /// The statement that builds this operation's message:
    /// `let message = Enum::Variant(payload);`, where the payload holds the
    /// parameter struct, the reply sender `tx`, both, or nothing.
    pub open spec fn message_statement(
        self,
        enum_ident: Seq<char>,
        variant_ident: Seq<char>,
    ) -> Seq<TokenView> {
        ident("let"@) + ident("message"@) + punct('=') + variant_path(enum_ident, variant_ident)
            + match self.signature_kind() {
            MessageSignatureKind::Neither => Seq::empty(),
            MessageSignatureKind::OnlyReturn => group(Delimiter::Parenthesis, ident("tx"@)),
            MessageSignatureKind::OnlyParam => group(
                Delimiter::Parenthesis,
                self.struct_literal(variant_ident),
            ),
            MessageSignatureKind::ParamReturn => group(
                Delimiter::Parenthesis,
                self.struct_literal(variant_ident) + punct(',') + ident("tx"@),
            ),
        } + punct(';')
    }

    /// The body of this operation's client function. It builds one message
    /// and sends it once. Where the operation returns a value, it first makes
    /// the reply channel and, after sending, waits for the reply; else it
    /// ends with the send.
    pub open spec fn client_body(self, enum_ident: Seq<char>, variant_ident: Seq<char>) -> Seq<
        TokenView,
    > {
        if self.signature_kind().has_return() {
            reply_channel_statement() + self.message_statement(enum_ident, variant_ident)
                + send_statement() + await_reply()
        } else {
            self.message_statement(enum_ident, variant_ident) + send_statement()
        }
    }

    /// This operation's client function:
    /// `pub fn ident(&self, args) -> output { body }`.
    pub open spec fn client_fn(self, enum_ident: Seq<char>, variant_ident: Seq<char>) -> Seq<
        TokenView,
    > {
        ident("pub"@) + ident("fn"@) + ident(self.ident) + group(
            Delimiter::Parenthesis,
            punctuated(seq![punct('&') + ident("self"@)] + self.arg_declarations()),
        ) + output_tokens(self.output) + group(
            Delimiter::Brace,
            self.client_body(enum_ident, variant_ident),
        )
    }
}

impl ProtocolView {
    /// The identifier of the client struct: the protocol's name followed by
    /// `Client`.
    pub open spec fn client_ident(self) -> Seq<char> {
        self.ident + "Client"@
    }

    /// The client functions, in declaration order.
    pub open spec fn client_fns(self) -> Seq<Seq<TokenView>> {
        self.messages.map_values(
            |message: ProtocolMessageView|
                message.client_fn(self.message_enum_ident(), message.pascal_case_ident()),
        )
    }

    /// Everything emitted for the client: the struct, and its impl with the
    /// constructor and one function per operation.
    pub open spec fn client(self) -> Seq<TokenView> {
        client_of(
            self.vis,
            self.client_ident(),
            self.message_enum_ident(),
            concat_all(self.client_fns()),
        )
    }
}

/// An item of `std::sync::mpsc`, after `stream`.
pub fn std_mpsc_tokens(stream: TokenStream, name: &str) -> (out: TokenStream)
    ensures
        out@ == stream@ + std_mpsc(name@),
{
    stream.append(
        TokenStream::new().ident("std").path_sep().ident("sync").path_sep().ident(
            "mpsc",
        ).path_sep().ident(name),
    )
}

/// The statement that makes the channel for one reply.
pub fn reply_channel_statement_tokens() -> (out: TokenStream)
    ensures
        out@ == reply_channel_statement(),
{
    TokenStream::new().ident("let").group(
        Delimiter::Parenthesis,
        TokenStream::new().ident("tx").punct(',').ident("rx"),
    ).punct('=').ident("oneshot").path_sep().ident("channel").group(
        Delimiter::Parenthesis,
        TokenStream::new(),
    ).punct(';')
}

/// The statement that sends the message.
pub fn send_statement_tokens() -> (out: TokenStream)
    ensures
        out@ == send_statement(),
{
    TokenStream::new().ident("self").punct('.').literal("0").punct('.').ident("send").group(
        Delimiter::Parenthesis,
        TokenStream::new().ident("message"),
    ).punct('.').ident("unwrap").group(Delimiter::Parenthesis, TokenStream::new()).punct(';')
}

/// The expression that waits for the reply and yields it.
pub fn await_reply_tokens() -> (out: TokenStream)
    ensures
        out@ == await_reply(),
{
    TokenStream::new().ident("rx").punct('.').ident("recv").group(
        Delimiter::Parenthesis,
        TokenStream::new(),
    ).punct('.').ident("unwrap").group(Delimiter::Parenthesis, TokenStream::new())
}

/// The expression that builds the parameter struct of `message` from the
/// function's arguments.
pub fn struct_literal(message: &ProtocolMessage, variant_ident: &str) -> (out: TokenStream)
    ensures
        out@ == message@.struct_literal(variant_ident@),
{
    let message_struct_name = struct_ident_of(variant_ident);
    let fields = message.arg_idents();
    TokenStream::new().ident(message_struct_name.as_str()).group(
        Delimiter::Brace,
        TokenStream::terminated(fields),
    )
}

/// The statement that builds the message of `message`, whose variant is
/// `variant_ident` of the enum `enum_message_name`.
pub fn message_statement(
    enum_message_name: &str,
    message: &ProtocolMessage,
    variant_ident: &str,
) -> (out: TokenStream)
    ensures
        out@ == message@.message_statement(enum_message_name@, variant_ident@),
{
    let binding = TokenStream::new().ident("let").ident("message").punct('=').append(
        variant_path_tokens(enum_message_name, variant_ident),
    );
    match message.signature_kind() {
        MessageSignatureKind::Neither => {
            assert(binding@ + Seq::<TokenView>::empty() =~= binding@);
            binding.punct(';')
        },
        MessageSignatureKind::OnlyReturn => binding.group(
            Delimiter::Parenthesis,
            TokenStream::new().ident("tx"),
        ).punct(';'),
        MessageSignatureKind::OnlyParam => binding.group(
            Delimiter::Parenthesis,
            struct_literal(message, variant_ident),
        ).punct(';'),
        MessageSignatureKind::ParamReturn => binding.group(
            Delimiter::Parenthesis,
            struct_literal(message, variant_ident).punct(',').ident("tx"),
        ).punct(';'),
    }
}

/// The body of the client function of `message`.
pub fn client_body(
    enum_message_name: &str,
    message: &ProtocolMessage,
    variant_ident: &str,
) -> (out: TokenStream)
    ensures
        out@ == message@.client_body(enum_message_name@, variant_ident@),
{
    match message.signature_kind() {
        MessageSignatureKind::Neither | MessageSignatureKind::OnlyParam => {
            let statement = message_statement(enum_message_name, message, variant_ident);
            statement.append(send_statement_tokens())
        },
        MessageSignatureKind::OnlyReturn | MessageSignatureKind::ParamReturn => {
            reply_channel_statement_tokens().append(
                message_statement(enum_message_name, message, variant_ident),
            ).append(send_statement_tokens()).append(await_reply_tokens())
        },
    }
}

/// The client function of `message`, whose variant is `variant_ident` of the
/// enum `enum_message_name`.
pub fn message_to_fn(
    enum_message_name: &str,
    message: &ProtocolMessage,
    variant_ident: &str,
) -> (out: TokenStream)
    ensures
        out@ == message@.client_fn(enum_message_name@, variant_ident@),
{
    let mut params: Vec<TokenStream> = Vec::new();
    params.push(TokenStream::new().punct('&').ident("self"));
    let mut declared = message.arg_declarations();
    params.append(&mut declared);
    assert(stream_views(params@) =~= seq![punct('&') + ident("self"@)]
        + message@.arg_declarations());
    TokenStream::new().ident("pub").ident("fn").ident(message.ident.as_str()).group(
        Delimiter::Parenthesis,
        TokenStream::punctuated(params),
    ).append(message.output_tokens()).group(
        Delimiter::Brace,
        client_body(enum_message_name, message, variant_ident),
    )
}

/// The client functions of `messages`, in order, for the enum
/// `enum_message_name`.
pub fn functions(enum_message_name: &str, messages: &Vec<ProtocolMessage>) -> (out: TokenStream)
    ensures
        out@ == concat_all(
            messages@.map_values(
                |message: ProtocolMessage|
                    message@.client_fn(enum_message_name@, message@.pascal_case_ident()),
            ),
        ),
{
    let mut parts: Vec<TokenStream> = Vec::new();
    let mut i: usize = 0;
    while i < messages.len()
        invariant
            i <= messages.len(),
            parts.len() == i,
            forall|j: int|
                0 <= j < i ==> (#[trigger] parts[j])@ == messages[j]@.client_fn(
                    enum_message_name@,
                    messages[j]@.pascal_case_ident(),
                ),
        decreases messages.len() - i,
    {
        let message = &messages[i];
        let variant_ident = message.pascal_case_ident();
        parts.push(message_to_fn(enum_message_name, message, variant_ident.as_str()));
        i += 1;
    }
    assert(stream_views(parts@) =~= messages@.map_values(
        |message: ProtocolMessage|
            message@.client_fn(enum_message_name@, message@.pascal_case_ident()),
    ));
    TokenStream::concat_all(parts)
}

/// The constructor of the client of the enum `message_enum_ident`.
pub fn constructor(message_enum_ident: &str) -> (out: TokenStream)
    ensures
        out@ == client_constructor(message_enum_ident@),
{
    let receiver = std_mpsc_tokens(TokenStream::new().ident("Self").punct(','), "Receiver").punct(
        '<',
    ).ident(message_enum_ident).punct('>');
    let channel = std_mpsc_tokens(
        TokenStream::new().ident("let").group(
            Delimiter::Parenthesis,
            TokenStream::new().ident("sender").punct(',').ident("receiver"),
        ).punct('='),
        "channel",
    ).group(Delimiter::Parenthesis, TokenStream::new()).punct(';');
    let body = channel.group(
        Delimiter::Parenthesis,
        TokenStream::new().ident("Self").group(
            Delimiter::Parenthesis,
            TokenStream::new().ident("sender"),
        ).punct(',').ident("receiver"),
    );
    TokenStream::new().ident("fn").ident("new").group(
        Delimiter::Parenthesis,
        TokenStream::new(),
    ).arrow().group(Delimiter::Parenthesis, receiver).group(Delimiter::Brace, body)
}

/// Everything emitted for the client `client_ident` of the enum
/// `message_enum_ident`: the struct, and its impl with the constructor and
/// the functions `functions`.
pub fn client_from(
    vis: &str,
    client_ident: &str,
    message_enum_ident: &str,
    functions: TokenStream,
) -> (out: TokenStream)
    ensures
        out@ == client_of(vis@, client_ident@, message_enum_ident@, functions@),
{
    let sender = std_mpsc_tokens(TokenStream::new(), "Sender").punct('<').ident(
        message_enum_ident,
    ).punct('>');
    assert(sender@ =~= std_mpsc("Sender"@) + punct('<') + ident(message_enum_ident@) + punct('>'));
    derive_attribute_tokens("Clone").fragment(vis).ident("struct").ident(client_ident).group(
        Delimiter::Parenthesis,
        sender,
    ).punct(';').ident("impl").ident(client_ident).group(
        Delimiter::Brace,
        constructor(message_enum_ident).append(functions),
    )
}

/// Everything emitted for the client of `protocol`: the struct, and its impl
/// with the constructor and one function per operation, in declaration
/// order.
pub fn build(protocol: &Protocol) -> (out: TokenStream)
    ensures
        out@ == protocol@.client(),
{
    let client_struct_name = protocol.ident.clone().concat("Client");
    let message_enum_ident = protocol.message_enum_ident();
    let functions = functions(message_enum_ident.as_str(), &protocol.messages);
    assert(protocol.messages@.map_values(
        |message: ProtocolMessage|
            message@.client_fn(message_enum_ident@, message@.pascal_case_ident()),
    ) =~= protocol@.client_fns());
    client_from(
        protocol.vis.as_str(),
        client_struct_name.as_str(),
        message_enum_ident.as_str(),
        functions,
    )
}

} // verus!
