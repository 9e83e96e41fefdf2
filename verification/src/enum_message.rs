//! The message type: a parameter struct for every operation that takes
//! parameters, the message enum with one variant per operation, and the
//! enum's `Debug` impl.
use crate::channel_protocol::{
    output_tokens, Protocol, ProtocolMessage, ProtocolMessageFnArg, ProtocolMessageView,
    ProtocolView,
};
use crate::render::message::{
    param_struct_ident, struct_ident_of, struct_pattern, struct_pattern_tokens, variant_path,
    variant_path_tokens, MessageSignatureKind,
};
use crate::tokens::{
    arrow, concat_all, fat_arrow, fragment, group, ident, lifetime, literal, path_sep, punct,
    punctuated, stream_views, Delimiter, TokenStream, TokenView,
};
use vstd::prelude::*;
use vstd::string::StringExecFns;

verus! {

/// An item of `std::fmt`: `std::fmt::name`.
pub open spec fn std_fmt(name: Seq<char>) -> Seq<TokenView> {
    ident("std"@) + path_sep() + ident("fmt"@) + path_sep() + ident(name)
}

/// The attribute `#[derive(name)]`.
pub open spec fn derive_attribute(name: Seq<char>) -> Seq<TokenView> {
    punct('#') + group(
        Delimiter::Bracket,
        ident("derive"@) + group(Delimiter::Parenthesis, ident(name)),
    )
}

/// The type of the sender that carries the reply of an operation that
/// returns `ty`: `oneshot::Sender<ty>`.
pub open spec fn reply_sender(ty: Seq<char>) -> Seq<TokenView> {
    ident("oneshot"@) + path_sep() + ident("Sender"@) + punct('<') + fragment(ty) + punct('>')
}

/// The call `stringify!(tokens)`.
pub open spec fn stringify_call(tokens: Seq<TokenView>) -> Seq<TokenView> {
    ident("stringify"@) + punct('!') + group(Delimiter::Parenthesis, tokens)
}

/// `count` placeholders `{:?}` with `, ` between them.
pub open spec fn placeholders(count: nat) -> Seq<char>
    decreases count,
{
    if count == 0 {
        Seq::empty()
    } else if count == 1 {
        "{:?}"@
    } else {
        placeholders((count - 1) as nat) + ", "@ + "{:?}"@
    }
}

/// The source text of the format string that prints an operation with
/// `count` parameters: the name, the parameter values in parentheses, and the
/// return type where there is one.
pub open spec fn debug_format(count: nat, has_return: bool) -> Seq<char> {
    "\"{}("@ + placeholders(count) + if has_return {
        ") {}\""@
    } else {
        ")\""@
    }
}

/// The enum `enum_ident` with the variants `variants`:
/// `vis enum Ident { variants }`.
pub open spec fn enum_definition_of(
    vis: Seq<char>,
    enum_ident: Seq<char>,
    variants: Seq<Seq<TokenView>>,
) -> Seq<TokenView> {
    fragment(vis) + ident("enum"@) + ident(enum_ident) + group(
        Delimiter::Brace,
        punctuated(variants),
    )
}

/// The `Debug` impl of the enum `enum_ident` with the arms `arms`:
/// `impl std::fmt::Debug for Ident { fn fmt(..) -> .. { match self { arms } } }`.
pub open spec fn debug_impl_of(enum_ident: Seq<char>, arms: Seq<Seq<TokenView>>) -> Seq<
    TokenView,
> {
    ident("impl"@) + std_fmt("Debug"@) + ident("for"@) + ident(enum_ident) + group(
        Delimiter::Brace,
        ident("fn"@) + ident("fmt"@) + group(
            Delimiter::Parenthesis,
            punct('&') + ident("self"@) + punct(',') + ident("f"@) + punct(':') + punct('&')
                + ident("mut"@) + std_fmt("Formatter"@) + punct('<') + lifetime("_"@) + punct(
                '>',
            ),
        ) + arrow() + std_fmt("Result"@) + group(
            Delimiter::Brace,
            ident("match"@) + ident("self"@) + group(Delimiter::Brace, concat_all(arms)),
        ),
    )
}

impl ProtocolMessageView {
    /// The definition of this operation's parameter struct:
    /// `#[derive(Debug)] struct Ident { fields }` with the parameters as
    /// fields, in order; nothing where the operation takes no parameters.
    pub open spec fn struct_definition(self, variant_ident: Seq<char>) -> Seq<TokenView> {
        if self.args.len() == 0 {
            Seq::empty()
        } else {
            derive_attribute("Debug"@) + ident("struct"@) + ident(param_struct_ident(variant_ident))
                + group(Delimiter::Brace, punctuated(self.arg_declarations()))
        }
    }

    /// This operation's variant of the message enum. It carries the parameter
    /// struct where the operation takes parameters, and the reply sender
    /// where it returns a value.
    pub open spec fn variant(self, variant_ident: Seq<char>) -> Seq<TokenView> {
        ident(variant_ident) + match self.output {
            None => if self.args.len() == 0 {
                Seq::empty()
            } else {
                group(
                    Delimiter::Parenthesis,
                    ident(param_struct_ident(variant_ident)) + punct(','),
                )
            },
            Some(ty) => if self.args.len() == 0 {
                group(Delimiter::Parenthesis, reply_sender(ty))
            } else {
                group(
                    Delimiter::Parenthesis,
                    ident(param_struct_ident(variant_ident)) + punct(',') + reply_sender(ty),
                )
            },
        }
    }

    /// The pattern of this operation's arm in the `Debug` impl: it binds the
    /// fields of the parameter struct and ignores the reply sender.
    pub open spec fn debug_pattern(self, enum_ident: Seq<char>, variant_ident: Seq<char>) -> Seq<
        TokenView,
    > {
        let fields = struct_pattern(param_struct_ident(variant_ident), self.arg_idents());
        variant_path(enum_ident, variant_ident) + match self.signature_kind() {
            MessageSignatureKind::Neither => Seq::empty(),
            MessageSignatureKind::OnlyReturn => group(Delimiter::Parenthesis, ident("_"@)),
            MessageSignatureKind::OnlyParam => group(Delimiter::Parenthesis, fields),
            MessageSignatureKind::ParamReturn => group(
                Delimiter::Parenthesis,
                fields + punct(',') + ident("_"@),
            ),
        }
    }

    /// The arguments of `write!` in this operation's arm: the formatter, the
    /// format string, the operation's name, the fields and, where the
    /// operation returns a value, its return type.
    pub open spec fn debug_arguments(self) -> Seq<Seq<TokenView>> {
        seq![
            ident("f"@),
            literal(debug_format(self.args.len(), self.output is Some)),
            stringify_call(ident(self.ident)),
        ] + self.arg_idents() + if self.output is Some {
            seq![stringify_call(output_tokens(self.output))]
        } else {
            Seq::empty()
        }
    }

    /// The call `write!(arguments)` of this operation's arm.
    pub open spec fn debug_write(self) -> Seq<TokenView> {
        ident("write"@) + punct('!') + group(
            Delimiter::Parenthesis,
            punctuated(self.debug_arguments()),
        )
    }

    /// This operation's arm in the `Debug` impl: `pattern => write!(..),`,
    /// the call in braces where the operation takes parameters.
    pub open spec fn debug_arm(self, enum_ident: Seq<char>, variant_ident: Seq<char>) -> Seq<
        TokenView,
    > {
        self.debug_pattern(enum_ident, variant_ident) + fat_arrow() + if self.args.len() == 0 {
            self.debug_write()
        } else {
            group(Delimiter::Brace, self.debug_write())
        } + punct(',')
    }
}

impl ProtocolView {
    /// The parameter struct definitions, in declaration order.
    pub open spec fn struct_definitions(self) -> Seq<Seq<TokenView>> {
        self.messages.map_values(
            |message: ProtocolMessageView| message.struct_definition(message.pascal_case_ident()),
        )
    }

    /// The variants of the message enum, in declaration order.
    pub open spec fn variants(self) -> Seq<Seq<TokenView>> {
        self.messages.map_values(
            |message: ProtocolMessageView| message.variant(message.pascal_case_ident()),
        )
    }

    /// The arms of the `Debug` impl, in declaration order.
    pub open spec fn debug_arms(self) -> Seq<Seq<TokenView>> {
        self.messages.map_values(
            |message: ProtocolMessageView|
                message.debug_arm(self.message_enum_ident(), message.pascal_case_ident()),
        )
    }

    /// The message enum: one variant per operation.
    pub open spec fn enum_definition(self) -> Seq<TokenView> {
        enum_definition_of(self.vis, self.message_enum_ident(), self.variants())
    }

    /// The `Debug` impl of the message enum: one arm per operation.
    pub open spec fn debug_impl(self) -> Seq<TokenView> {
        debug_impl_of(self.message_enum_ident(), self.debug_arms())
    }

    /// Everything emitted for the message type: the parameter structs, the
    /// enum, and its `Debug` impl.
    pub open spec fn message_type(self) -> Seq<TokenView> {
        concat_all(self.struct_definitions()) + self.enum_definition() + self.debug_impl()
    }
}

/// An item of `std::fmt`, after `stream`.
pub fn std_fmt_tokens(stream: TokenStream, name: &str) -> (out: TokenStream)
    ensures
        out@ == stream@ + std_fmt(name@),
{
    stream.append(TokenStream::new().ident("std").path_sep().ident("fmt").path_sep().ident(name))
}

/// The attribute `#[derive(name)]`.
pub fn derive_attribute_tokens(name: &str) -> (out: TokenStream)
    ensures
        out@ == derive_attribute(name@),
{
    TokenStream::new().punct('#').group(
        Delimiter::Bracket,
        TokenStream::new().ident("derive").group(
            Delimiter::Parenthesis,
            TokenStream::new().ident(name),
        ),
    )
}

/// The type of the sender that carries the reply of an operation that
/// returns `ty`.
pub fn reply_sender_tokens(ty: &str) -> (out: TokenStream)
    ensures
        out@ == reply_sender(ty@),
{
    TokenStream::new().ident("oneshot").path_sep().ident("Sender").punct('<').fragment(ty).punct(
        '>',
    )
}

/// The call `stringify!(tokens)`.
pub fn stringify_call_tokens(tokens: TokenStream) -> (out: TokenStream)
    ensures
        out@ == stringify_call(tokens@),
{
    TokenStream::new().ident("stringify").punct('!').group(Delimiter::Parenthesis, tokens)
}

/// The source text of the format string that prints an operation with
/// `count` parameters.
pub fn debug_format_text(count: usize, has_return: bool) -> (out: String)
    ensures
        out@ == debug_format(count as nat, has_return),
{
    let mut text = String::from_str("\"{}(");
    let mut i: usize = 0;
    while i < count
        invariant
            i <= count,
            text@ == "\"{}("@ + placeholders(i as nat),
        decreases count - i,
    {
        if i > 0 {
            text.append(", ");
        }
        text.append("{:?}");
        i += 1;
        assert(text@ =~= "\"{}("@ + placeholders(i as nat));
    }
    if has_return {
        text.append(") {}\"");
    } else {
        text.append(")\"");
    }
    text
}

/// The field of a parameter struct that holds `arg`: `ident: ty`.
pub fn arg_to_field(arg: &ProtocolMessageFnArg) -> (out: TokenStream)
    ensures
        out@ == arg@.to_tokens(),
{
    arg.to_tokens()
}

/// The definition of the parameter struct of `message`, whose variant is
/// `variant_ident`; nothing where the operation takes no parameters.
pub fn message_struct_definition(message: &ProtocolMessage, variant_ident: &str) -> (out:
    TokenStream)
    ensures
        out@ == message@.struct_definition(variant_ident@),
{
    if message.args.len() == 0 {
        return TokenStream::new();
    }
    let struct_name = struct_ident_of(variant_ident);
    let mut fields: Vec<TokenStream> = Vec::new();
    let mut i: usize = 0;
    while i < message.args.len()
        invariant
            i <= message.args.len(),
            fields.len() == i,
            forall|j: int| 0 <= j < i ==> (#[trigger] fields[j])@ == message.args[j]@.to_tokens(),
        decreases message.args.len() - i,
    {
        fields.push(arg_to_field(&message.args[i]));
        i += 1;
    }
    assert(stream_views(fields@) =~= message@.arg_declarations());
    derive_attribute_tokens("Debug").ident("struct").ident(struct_name.as_str()).group(
        Delimiter::Brace,
        TokenStream::punctuated(fields),
    )
}

/// The variant of `message` in the message enum, named `variant_ident`.
pub fn message_variant(message: &ProtocolMessage, variant_ident: &str) -> (out: TokenStream)
    ensures
        out@ == message@.variant(variant_ident@),
{
    let name = TokenStream::new().ident(variant_ident);
    match &message.output {
        None => {
            if message.args.len() == 0 {
                assert(name@ + Seq::<TokenView>::empty() =~= name@);
                name
            } else {
                let struct_name = struct_ident_of(variant_ident);
                name.group(
                    Delimiter::Parenthesis,
                    TokenStream::new().ident(struct_name.as_str()).punct(','),
                )
            }
        },
        Some(ty) => {
            if message.args.len() == 0 {
                name.group(Delimiter::Parenthesis, reply_sender_tokens(ty.as_str()))
            } else {
                let struct_name = struct_ident_of(variant_ident);
                name.group(
                    Delimiter::Parenthesis,
                    TokenStream::new().ident(struct_name.as_str()).punct(',').append(
                        reply_sender_tokens(ty.as_str()),
                    ),
                )
            }
        },
    }
}

/// The pattern of the arm of `message` in the `Debug` impl.
pub fn debug_pattern(enum_ident: &str, message: &ProtocolMessage, variant_ident: &str) -> (out:
    TokenStream)
    ensures
        out@ == message@.debug_pattern(enum_ident@, variant_ident@),
{
    let path = variant_path_tokens(enum_ident, variant_ident);
    match message.signature_kind() {
        MessageSignatureKind::Neither => {
            assert(path@ + Seq::<TokenView>::empty() =~= path@);
            path
        },
        MessageSignatureKind::OnlyReturn => path.group(
            Delimiter::Parenthesis,
            TokenStream::new().ident("_"),
        ),
        MessageSignatureKind::OnlyParam => {
            let struct_param = struct_ident_of(variant_ident);
            let fields = struct_pattern_tokens(struct_param.as_str(), message.arg_idents());
            path.group(Delimiter::Parenthesis, fields)
        },
        MessageSignatureKind::ParamReturn => {
            let struct_param = struct_ident_of(variant_ident);
            let fields = struct_pattern_tokens(struct_param.as_str(), message.arg_idents());
            path.group(Delimiter::Parenthesis, fields.punct(',').ident("_"))
        },
    }
}

/// The call `write!(..)` of the arm of `message` in the `Debug` impl.
pub fn debug_write(message: &ProtocolMessage) -> (out: TokenStream)
    ensures
        out@ == message@.debug_write(),
{
    let format_str = debug_format_text(message.args.len(), message.output.is_some());
    let mut arguments: Vec<TokenStream> = Vec::new();
    arguments.push(TokenStream::new().ident("f"));
    arguments.push(TokenStream::new().literal(format_str.as_str()));
    arguments.push(stringify_call_tokens(TokenStream::new().ident(message.ident.as_str())));
    let mut arg_names = message.arg_idents();
    arguments.append(&mut arg_names);
    if message.output.is_some() {
        arguments.push(stringify_call_tokens(message.output_tokens()));
    }
    assert(stream_views(arguments@) =~= message@.debug_arguments());
    TokenStream::new().ident("write").punct('!').group(
        Delimiter::Parenthesis,
        TokenStream::punctuated(arguments),
    )
}

/// The arm of `message` in the `Debug` impl of the enum `enum_ident`, where
/// the variant of `message` is `variant_ident`.
pub fn message_match_arm_debug_impl(
    enum_ident: &str,
    message: &ProtocolMessage,
    variant_ident: &str,
) -> (out: TokenStream)
    ensures
        out@ == message@.debug_arm(enum_ident@, variant_ident@),
{
    let pattern = debug_pattern(enum_ident, message, variant_ident).fat_arrow();
    if message.args.len() == 0 {
        pattern.append(debug_write(message)).punct(',')
    } else {
        pattern.group(Delimiter::Brace, debug_write(message)).punct(',')
    }
}

/// The `Debug` impl of the enum `enum_ident` with the arms `arms`.
pub fn debug_impl_from(enum_ident: &str, arms: Vec<TokenStream>) -> (out: TokenStream)
    ensures
        out@ == debug_impl_of(enum_ident@, stream_views(arms@)),
{
    let formatter = std_fmt_tokens(
        TokenStream::new().punct('&').ident("self").punct(',').ident("f").punct(':').punct(
            '&',
        ).ident("mut"),
        "Formatter",
    ).punct('<').lifetime("_").punct('>');
    let signature = TokenStream::new().ident("fn").ident("fmt").group(
        Delimiter::Parenthesis,
        formatter,
    ).arrow();
    let method = std_fmt_tokens(signature, "Result").group(
        Delimiter::Brace,
        TokenStream::new().ident("match").ident("self").group(
            Delimiter::Brace,
            TokenStream::concat_all(arms),
        ),
    );
    std_fmt_tokens(TokenStream::new().ident("impl"), "Debug").ident("for").ident(enum_ident).group(
        Delimiter::Brace,
        method,
    )
}

/// The enum `enum_ident` with the variants `variants`.
pub fn enum_definition_from(vis: &str, enum_ident: &str, variants: Vec<TokenStream>) -> (out:
    TokenStream)
    ensures
        out@ == enum_definition_of(vis@, enum_ident@, stream_views(variants@)),
{
    TokenStream::new().fragment(vis).ident("enum").ident(enum_ident).group(
        Delimiter::Brace,
        TokenStream::punctuated(variants),
    )
}

/// The `Debug` impl of the message enum of `protocol`: one arm per
/// operation, in declaration order.
pub fn message_debug_impl(protocol: &Protocol) -> (out: TokenStream)
    ensures
        out@ == protocol@.debug_impl(),
{
    let message_enum_ident = protocol.message_enum_ident();
    let mut match_arms: Vec<TokenStream> = Vec::new();
    let mut i: usize = 0;
    while i < protocol.messages.len()
        invariant
            i <= protocol.messages.len(),
            match_arms.len() == i,
            message_enum_ident@ == protocol@.message_enum_ident(),
            forall|j: int|
                0 <= j < i ==> (#[trigger] match_arms[j])@ == protocol.messages[j]@.debug_arm(
                    protocol@.message_enum_ident(),
                    protocol.messages[j]@.pascal_case_ident(),
                ),
        decreases protocol.messages.len() - i,
    {
        let message = &protocol.messages[i];
        let variant_ident = message.pascal_case_ident();
        match_arms.push(
            message_match_arm_debug_impl(
                message_enum_ident.as_str(),
                message,
                variant_ident.as_str(),
            ),
        );
        i += 1;
    }
    assert(stream_views(match_arms@) =~= protocol@.debug_arms());
    debug_impl_from(message_enum_ident.as_str(), match_arms)
}

/// The message enum of `protocol`: one variant per operation, in
/// declaration order.
pub fn message_enum_definition(protocol: &Protocol) -> (out: TokenStream)
    ensures
        out@ == protocol@.enum_definition(),
{
    let mut variants: Vec<TokenStream> = Vec::new();
    let mut i: usize = 0;
    while i < protocol.messages.len()
        invariant
            i <= protocol.messages.len(),
            variants.len() == i,
            forall|j: int|
                0 <= j < i ==> (#[trigger] variants[j])@ == protocol.messages[j]@.variant(
                    protocol.messages[j]@.pascal_case_ident(),
                ),
        decreases protocol.messages.len() - i,
    {
        let message = &protocol.messages[i];
        let variant_name = message.pascal_case_ident();
        variants.push(message_variant(message, variant_name.as_str()));
        i += 1;
    }
    assert(stream_views(variants@) =~= protocol@.variants());
    let message_enum_name = protocol.message_enum_ident();
    enum_definition_from(protocol.vis.as_str(), message_enum_name.as_str(), variants)
}

/// Everything emitted for the message type of `protocol`: the parameter
/// structs in declaration order, the enum, and its `Debug` impl.
pub fn build(protocol: &Protocol) -> (out: TokenStream)
    ensures
        out@ == protocol@.message_type(),
{
    let mut message_structs: Vec<TokenStream> = Vec::new();
    let mut i: usize = 0;
    while i < protocol.messages.len()
        invariant
            i <= protocol.messages.len(),
            message_structs.len() == i,
            forall|j: int|
                0 <= j < i ==> (#[trigger] message_structs[j])@
                    == protocol.messages[j]@.struct_definition(
                    protocol.messages[j]@.pascal_case_ident(),
                ),
        decreases protocol.messages.len() - i,
    {
        let message = &protocol.messages[i];
        let variant_ident = message.pascal_case_ident();
        message_structs.push(message_struct_definition(message, variant_ident.as_str()));
        i += 1;
    }
    assert(stream_views(message_structs@) =~= protocol@.struct_definitions());
    TokenStream::concat_all(message_structs).append(message_enum_definition(protocol)).append(
        message_debug_impl(protocol),
    )
}

} // verus!
