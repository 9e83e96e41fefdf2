//! What an operation's signature decides: the shape of its message and the
//! identifiers of its variant and of its parameter struct.
use crate::casing::{pascal_case, pascal_case_of};
use crate::channel_protocol::{ProtocolMessage, ProtocolMessageView};
use crate::tokens::{
    group, ident, path_sep, punctuated, stream_views, Delimiter, TokenStream, TokenView,
};
use vstd::prelude::*;
use vstd::string::StringExecFns;

verus! {

/// The four shapes of an operation's signature.
#[derive(Clone, Copy, PartialEq, Eq, Debug, Structural)]
pub enum MessageSignatureKind {
    /// Neither parameters nor a return value: the variant carries nothing.
    Neither,
    /// No parameters, a return value: the variant carries the reply sender.
    OnlyReturn,
    /// Parameters, no return value: the variant carries the parameter struct.
    OnlyParam,
    /// Parameters and a return value: the variant carries the parameter
    /// struct and the reply sender.
    ParamReturn,
}

/// The kind of a signature that has parameters or not, and returns a value or
/// not.
pub open spec fn signature_kind_of(has_params: bool, has_return: bool) -> MessageSignatureKind {
    if has_params {
        if has_return {
            MessageSignatureKind::ParamReturn
        } else {
            MessageSignatureKind::OnlyParam
        }
    } else {
        if has_return {
            MessageSignatureKind::OnlyReturn
        } else {
            MessageSignatureKind::Neither
        }
    }
}

impl MessageSignatureKind {
    /// The message carries a parameter struct.
    pub open spec fn has_params(self) -> bool {
        self == MessageSignatureKind::OnlyParam || self == MessageSignatureKind::ParamReturn
    }

    /// The message carries a reply sender.
    pub open spec fn has_return(self) -> bool {
        self == MessageSignatureKind::OnlyReturn || self == MessageSignatureKind::ParamReturn
    }
}

/// The identifier of the parameter struct of the operation whose variant is
/// named `variant_ident`.
pub open spec fn param_struct_ident(variant_ident: Seq<char>) -> Seq<char> {
    variant_ident + "ParamMessage"@
}

impl ProtocolMessageView {
    /// The kind of this operation's signature.
    pub open spec fn signature_kind(self) -> MessageSignatureKind {
        signature_kind_of(self.args.len() > 0, self.output is Some)
    }

    /// The identifier of this operation's variant in the message enum.
    pub open spec fn pascal_case_ident(self) -> Seq<char> {
        pascal_case_of(self.ident)
    }

    /// The identifier of this operation's parameter struct.
    pub open spec fn struct_ident(self) -> Seq<char> {
        param_struct_ident(self.pascal_case_ident())
    }
}

/// The identifier of the parameter struct that goes with the variant
/// `variant_ident`: the variant's identifier followed by `ParamMessage`.
pub fn struct_ident_of(variant_ident: &str) -> (out: String)
    ensures
        out@ == param_struct_ident(variant_ident@),
{
    variant_ident.to_owned().concat("ParamMessage")
}

impl ProtocolMessage {
    /// The identifier of the operation's parameter struct.
    pub fn struct_ident(&self) -> (out: String)
        ensures
            out@ == self@.struct_ident(),
    {
        let variant_ident = self.pascal_case_ident();
        struct_ident_of(variant_ident.as_str())
    }

    /// The identifier of the operation's variant in the message enum: the
    /// operation's name in Pascal case.
    pub fn pascal_case_ident(&self) -> (out: String)
        ensures
            out@ == self@.pascal_case_ident(),
    {
        pascal_case(self.ident.as_str())
    }

    /// The kind of the operation's signature.
    pub fn signature_kind(&self) -> (kind: MessageSignatureKind)
        ensures
            kind == self@.signature_kind(),
    {
        match (self.args.len() > 0, self.output.is_some()) {
            (false, false) => MessageSignatureKind::Neither,
            (false, true) => MessageSignatureKind::OnlyReturn,
            (true, false) => MessageSignatureKind::OnlyParam,
            (true, true) => MessageSignatureKind::ParamReturn,
        }
    }
}

/// The path of a variant: `enum_ident::variant_ident`.
pub open spec fn variant_path(enum_ident: Seq<char>, variant_ident: Seq<char>) -> Seq<TokenView> {
    ident(enum_ident) + path_sep() + ident(variant_ident)
}

/// The pattern that takes a parameter struct apart into its fields:
/// `struct_ident { a, b }`.
pub open spec fn struct_pattern(struct_ident: Seq<char>, fields: Seq<Seq<TokenView>>) -> Seq<
    TokenView,
> {
    ident(struct_ident) + group(Delimiter::Brace, punctuated(fields))
}

/// The path of a variant.
pub fn variant_path_tokens(enum_ident: &str, variant_ident: &str) -> (out: TokenStream)
    ensures
        out@ == variant_path(enum_ident@, variant_ident@),
{
    TokenStream::new().ident(enum_ident).path_sep().ident(variant_ident)
}

/// The pattern that takes a parameter struct apart into its fields.
pub fn struct_pattern_tokens(struct_ident: &str, fields: Vec<TokenStream>) -> (out: TokenStream)
    ensures
        out@ == struct_pattern(struct_ident@, stream_views(fields@)),
{
    TokenStream::new().ident(struct_ident).group(Delimiter::Brace, TokenStream::punctuated(fields))
}

} // verus!
