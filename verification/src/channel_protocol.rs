//! The declaration of a protocol, and its compilation.
use crate::tokens::{
    arrow, fragment, group, ident, punct, punctuated, stream_views, well_nested, Delimiter,
    TokenStream, TokenView,
};
use crate::{client, enum_message, handler};
use vstd::prelude::*;

verus! {

/// One parameter of an operation: `ident: ty`.
#[derive(Clone, PartialEq, Eq, Debug)]
pub struct ProtocolMessageFnArg {
    /// The parameter's name.
    pub ident: String,
    /// The source text of the parameter's type.
    pub ty: String,
}

/// One operation of a protocol: `fn ident(args) -> output;`.
#[derive(Clone, PartialEq, Eq, Debug)]
pub struct ProtocolMessage {
    /// The operation's name.
    pub ident: String,
    /// The parameters, in declaration order.
    pub args: Vec<ProtocolMessageFnArg>,
    /// The source text of the return type, where the operation returns a
    /// value.
    pub output: Option<String>,
}

/// A protocol: `vis trait ident { messages }`.
#[derive(Clone, PartialEq, Eq, Debug)]
pub struct Protocol {
    /// The source text of the visibility of the emitted items; empty for
    /// private items.
    pub vis: String,
    /// The protocol's name.
    pub ident: String,
    /// The operations, in declaration order.
    pub messages: Vec<ProtocolMessage>,
}

/// The mathematical value of a [`ProtocolMessageFnArg`].
pub struct ProtocolMessageFnArgView {
    pub ident: Seq<char>,
    pub ty: Seq<char>,
}

/// The mathematical value of a [`ProtocolMessage`].
pub struct ProtocolMessageView {
    pub ident: Seq<char>,
    pub args: Seq<ProtocolMessageFnArgView>,
    pub output: Option<Seq<char>>,
}

/// The mathematical value of a [`Protocol`].
pub struct ProtocolView {
    pub vis: Seq<char>,
    pub ident: Seq<char>,
    pub messages: Seq<ProtocolMessageView>,
}

impl View for ProtocolMessageFnArg {
    type V = ProtocolMessageFnArgView;

    open spec fn view(&self) -> ProtocolMessageFnArgView {
        ProtocolMessageFnArgView { ident: self.ident@, ty: self.ty@ }
    }
}

impl View for ProtocolMessage {
    type V = ProtocolMessageView;

    open spec fn view(&self) -> ProtocolMessageView {
        ProtocolMessageView {
            ident: self.ident@,
            args: self.args@.map_values(|arg: ProtocolMessageFnArg| arg@),
            output: match self.output {
                Some(ty) => Some(ty@),
                None => None,
            },
        }
    }
}

impl View for Protocol {
    type V = ProtocolView;

    open spec fn view(&self) -> ProtocolView {
        ProtocolView {
            vis: self.vis@,
            ident: self.ident@,
            messages: self.messages@.map_values(|message: ProtocolMessage| message@),
        }
    }
}

/// The tokens of a return type: nothing where no value is returned, else
/// `-> ty`.
pub open spec fn output_tokens(output: Option<Seq<char>>) -> Seq<TokenView> {
    match output {
        None => Seq::empty(),
        Some(ty) => arrow() + fragment(ty),
    }
}

impl ProtocolMessageFnArgView {
    /// The parameter as it is declared: `ident: ty`.
    pub open spec fn to_tokens(self) -> Seq<TokenView> {
        ident(self.ident) + punct(':') + fragment(self.ty)
    }
}

impl ProtocolMessageView {
    /// The declarations of the parameters, in order.
    pub open spec fn arg_declarations(self) -> Seq<Seq<TokenView>> {
        self.args.map_values(|arg: ProtocolMessageFnArgView| arg.to_tokens())
    }

    /// The names of the parameters, in order.
    pub open spec fn arg_idents(self) -> Seq<Seq<TokenView>> {
        self.args.map_values(|arg: ProtocolMessageFnArgView| ident(arg.ident))
    }

    /// The parameter list: the declarations with commas between them.
    pub open spec fn args_tokens(self) -> Seq<TokenView> {
        punctuated(self.arg_declarations())
    }

    /// The operation as it is declared: `fn ident(args) -> output;`.
    pub open spec fn to_tokens(self) -> Seq<TokenView> {
        ident("fn"@) + ident(self.ident) + group(Delimiter::Parenthesis, self.args_tokens())
            + output_tokens(self.output) + punct(';')
    }
}

impl ProtocolMessageFnArg {
    /// The parameter as it is declared.
    pub fn to_tokens(&self) -> (out: TokenStream)
        ensures
            out@ == self@.to_tokens(),
    {
        TokenStream::new().ident(self.ident.as_str()).punct(':').fragment(self.ty.as_str())
    }
}

impl ProtocolMessage {
    /// The declarations of the parameters, in order.
    pub fn arg_declarations(&self) -> (out: Vec<TokenStream>)
        ensures
            stream_views(out@) == self@.arg_declarations(),
    {
        let mut out: Vec<TokenStream> = Vec::new();
        let mut i: usize = 0;
        while i < self.args.len()
            invariant
                i <= self.args.len(),
                out.len() == i,
                forall|j: int| 0 <= j < i ==> (#[trigger] out[j])@ == self.args[j]@.to_tokens(),
            decreases self.args.len() - i,
        {
            out.push(self.args[i].to_tokens());
            i += 1;
        }
        assert(stream_views(out@) =~= self@.arg_declarations());
        out
    }

    /// The names of the parameters, in order.
    pub fn arg_idents(&self) -> (out: Vec<TokenStream>)
        ensures
            stream_views(out@) == self@.arg_idents(),
    {
        let mut out: Vec<TokenStream> = Vec::new();
        let mut i: usize = 0;
        while i < self.args.len()
            invariant
                i <= self.args.len(),
                out.len() == i,
                forall|j: int| 0 <= j < i ==> (#[trigger] out[j])@ == ident(self.args[j].ident@),
            decreases self.args.len() - i,
        {
            out.push(TokenStream::new().ident(self.args[i].ident.as_str()));
            i += 1;
        }
        assert(stream_views(out@) =~= self@.arg_idents());
        out
    }

    /// The parameter list.
    pub fn args_tokens(&self) -> (out: TokenStream)
        ensures
            out@ == self@.args_tokens(),
    {
        TokenStream::punctuated(self.arg_declarations())
    }

    /// The tokens of the return type.
    pub fn output_tokens(&self) -> (out: TokenStream)
        ensures
            out@ == output_tokens(self@.output),
    {
        match &self.output {
            None => TokenStream::new(),
            Some(ty) => TokenStream::new().arrow().fragment(ty.as_str()),
        }
    }

    /// The operation as it is declared.
    pub fn to_tokens(&self) -> (out: TokenStream)
        ensures
            out@ == self@.to_tokens(),
    {
        TokenStream::new().ident("fn").ident(self.ident.as_str()).group(
            Delimiter::Parenthesis,
            self.args_tokens(),
        ).append(self.output_tokens()).punct(';')
    }
}

/// Why a protocol cannot be compiled.
#[derive(Clone, Copy, PartialEq, Eq, Debug, Structural)]
pub enum BuildError {
    /// The operations at the indices `first` and `second` get the same
    /// variant identifier.
    VariantCollision { first: usize, second: usize },
    /// The parameters at the indices `first` and `second` of the operation at
    /// the index `message` have the same name.
    DuplicateParameter { message: usize, first: usize, second: usize },
}

/// No name occurs twice in `names`.
pub open spec fn distinct(names: Seq<Seq<char>>) -> bool {
    forall|i: int, j: int| 0 <= i < j < names.len() ==> names[i] != names[j]
}

/// `second` is the first index of `names` whose name occurred before, and
/// `first` is the index where that name occurred first.
pub open spec fn first_repeat(names: Seq<Seq<char>>, first: int, second: int) -> bool {
    &&& 0 <= first < second < names.len()
    &&& names[first] == names[second]
    &&& distinct(names.take(second))
    &&& forall|k: int| 0 <= k < first ==> names[k] != names[second]
}

/// The values of a sequence of strings, in order.
pub open spec fn string_views(strings: Seq<String>) -> Seq<Seq<char>> {
    strings.map_values(|string: String| string@)
}

impl ProtocolMessageView {
    /// The names of the parameters, in order.
    pub open spec fn arg_names(self) -> Seq<Seq<char>> {
        self.args.map_values(|arg: ProtocolMessageFnArgView| arg.ident)
    }
}

impl ProtocolView {
    /// The variant identifiers of the operations, in declaration order.
    pub open spec fn variant_idents(self) -> Seq<Seq<char>> {
        self.messages.map_values(|message: ProtocolMessageView| message.pascal_case_ident())
    }

    /// The protocol can be compiled: no two operations get the same variant
    /// identifier, and no operation has two parameters of the same name.
    pub open spec fn well_formed(self) -> bool {
        &&& distinct(self.variant_idents())
        &&& forall|k: int|
            0 <= k < self.messages.len() ==> distinct(#[trigger] self.messages[k].arg_names())
    }

    /// `error` is the first fault of the protocol. A collision of variant
    /// identifiers comes before any duplicate parameter, and a duplicate
    /// parameter of an earlier operation before one of a later operation.
    pub open spec fn violation(self, error: BuildError) -> bool {
        match error {
            BuildError::VariantCollision { first, second } => first_repeat(
                self.variant_idents(),
                first as int,
                second as int,
            ),
            BuildError::DuplicateParameter { message, first, second } => {
                &&& distinct(self.variant_idents())
                &&& message < self.messages.len()
                &&& forall|k: int|
                    0 <= k < message ==> distinct(#[trigger] self.messages[k].arg_names())
                &&& first_repeat(
                    self.messages[message as int].arg_names(),
                    first as int,
                    second as int,
                )
            },
        }
    }

    /// Everything emitted for the protocol: the message type, the client,
    /// and the handler trait, in this order.
    pub open spec fn artifacts(self) -> Seq<TokenView> {
        self.message_type() + self.client() + self.handler_trait()
    }

    /// `result` is what compiling the protocol gives: the artifacts of a well
    /// formed protocol, else the first fault.
    pub open spec fn compiles_to(self, result: Result<Seq<TokenView>, BuildError>) -> bool {
        match result {
            Ok(tokens) => self.well_formed() && tokens == self.artifacts(),
            Err(error) => self.violation(error),
        }
    }
}

/// A sequence of names has at most one first repeat.
pub proof fn lemma_first_repeat_unique(
    names: Seq<Seq<char>>,
    first: int,
    second: int,
    other_first: int,
    other_second: int,
)
    requires
        first_repeat(names, first, second),
        first_repeat(names, other_first, other_second),
    ensures
        first == other_first,
        second == other_second,
{
    if second < other_second {
        assert(names.take(other_second)[first] == names.take(other_second)[second]);
    }
    if other_second < second {
        assert(names.take(second)[other_first] == names.take(second)[other_second]);
    }
}

/// A protocol has at most one first fault, and a well formed protocol has
/// none.
pub proof fn lemma_violation_unique(protocol: ProtocolView, error: BuildError, other: BuildError)
    requires
        protocol.violation(error),
        protocol.violation(other),
    ensures
        error == other,
        !protocol.well_formed(),
{
    match (error, other) {
        (
            BuildError::VariantCollision { first, second },
            BuildError::VariantCollision { first: other_first, second: other_second },
        ) => {
            lemma_first_repeat_unique(
                protocol.variant_idents(),
                first as int,
                second as int,
                other_first as int,
                other_second as int,
            );
        },
        (
            BuildError::DuplicateParameter { message, first, second },
            BuildError::DuplicateParameter {
                message: other_message,
                first: other_first,
                second: other_second,
            },
        ) => {
            let names = protocol.messages[message as int].arg_names();
            let other_names = protocol.messages[other_message as int].arg_names();
            if message < other_message {
                assert(distinct(names));
            }
            if other_message < message {
                assert(distinct(other_names));
            }
            lemma_first_repeat_unique(
                names,
                first as int,
                second as int,
                other_first as int,
                other_second as int,
            );
            assert(!distinct(names));
        },
        _ => {},
    }
}

/// The first name of `names` that occurred before, with the index of its
/// first occurrence; `None` where no name occurs twice.
pub fn find_repeat(names: &Vec<String>) -> (found: Option<(usize, usize)>)
    ensures
        match found {
            None => distinct(string_views(names@)),
            Some((first, second)) => first_repeat(
                string_views(names@),
                first as int,
                second as int,
            ),
        },
{
    let ghost views = string_views(names@);
    let mut second: usize = 0;
    while second < names.len()
        invariant
            second <= names.len(),
            views == string_views(names@),
            distinct(views.take(second as int)),
        decreases names.len() - second,
    {
        let mut first: usize = 0;
        while first < second
            invariant
                first <= second < names.len(),
                views == string_views(names@),
                distinct(views.take(second as int)),
                forall|k: int| 0 <= k < first ==> views[k] != views[second as int],
            decreases second - first,
        {
            if names[first] == names[second] {
                return Some((first, second));
            }
            first += 1;
        }
        second += 1;
    }
    assert(views.take(names.len() as int) =~= views);
    None
}

impl ProtocolMessage {
    /// The names of the parameters, in order.
    pub fn arg_names(&self) -> (out: Vec<String>)
        ensures
            string_views(out@) == self@.arg_names(),
    {
        let mut out: Vec<String> = Vec::new();
        let mut i: usize = 0;
        while i < self.args.len()
            invariant
                i <= self.args.len(),
                out.len() == i,
                forall|j: int| 0 <= j < i ==> (#[trigger] out[j])@ == self.args[j].ident@,
            decreases self.args.len() - i,
        {
            out.push(self.args[i].ident.clone());
            i += 1;
        }
        assert(string_views(out@) =~= self@.arg_names());
        out
    }
}

impl Protocol {
    /// The variant identifiers of the operations, in declaration order.
    pub fn variant_idents(&self) -> (out: Vec<String>)
        ensures
            string_views(out@) == self@.variant_idents(),
    {
        let mut out: Vec<String> = Vec::new();
        let mut i: usize = 0;
        while i < self.messages.len()
            invariant
                i <= self.messages.len(),
                out.len() == i,
                forall|j: int|
                    0 <= j < i ==> (#[trigger] out[j])@ == self.messages[j]@.pascal_case_ident(),
            decreases self.messages.len() - i,
        {
            out.push(self.messages[i].pascal_case_ident());
            i += 1;
        }
        assert(string_views(out@) =~= self@.variant_idents());
        out
    }

    /// Checks that the protocol can be compiled, and names its first fault
    /// where it cannot.
    pub fn validate(&self) -> (checked: Result<(), BuildError>)
        ensures
            checked is Ok <==> self@.well_formed(),
            checked matches Err(error) ==> self@.violation(error),
    {
        proof {
            assert forall|error: BuildError| self@.violation(error) implies !self@.well_formed(
            ) by {
                lemma_violation_unique(self@, error, error);
            }
        }
        let idents = self.variant_idents();
        match find_repeat(&idents) {
            Some((first, second)) => {
                return Err(BuildError::VariantCollision { first, second });
            },
            None => {},
        }
        let mut message: usize = 0;
        while message < self.messages.len()
            invariant
                message <= self.messages.len(),
                distinct(self@.variant_idents()),
                forall|k: int|
                    0 <= k < message ==> distinct(#[trigger] self@.messages[k].arg_names()),
            decreases self.messages.len() - message,
        {
            let names = self.messages[message].arg_names();
            assert(self@.messages[message as int] == self.messages[message as int]@);
            match find_repeat(&names) {
                Some((first, second)) => {
                    return Err(BuildError::DuplicateParameter { message, first, second });
                },
                None => {},
            }
            message += 1;
        }
        Ok(())
    }
}

/// The value of what [`build`] returns.
pub open spec fn result_view(result: Result<TokenStream, BuildError>) -> Result<
    Seq<TokenView>,
    BuildError,
> {
    match result {
        Ok(tokens) => Ok(tokens@),
        Err(error) => Err(error),
    }
}

/// Compiles `protocol`. A well formed protocol, and no other, gives its
/// artifacts: the message type, the client and the handler trait, as one well
/// nested stream. Any other protocol gives its first fault.
pub fn build(protocol: &Protocol) -> (result: Result<TokenStream, BuildError>)
    ensures
        result is Ok <==> protocol@.well_formed(),
        protocol@.compiles_to(result_view(result)),
        result matches Ok(tokens) ==> well_nested(tokens@),
{
    match protocol.validate() {
        Err(error) => Err(error),
        Ok(_) => {
            let message_enum = enum_message::build(protocol);
            let client = client::build(protocol);
            let handler = handler::build(protocol);
            let tokens = message_enum.append(client).append(handler);
            proof {
                tokens.lemma_well_nested();
            }
            Ok(tokens)
        },
    }
}

} // verus!
