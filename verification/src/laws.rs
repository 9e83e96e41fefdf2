//! What holds of every compilation: one protocol has one result, every
//! emitted list keeps the order of the declaration, and the three artifacts
//! name the same variant and the same parameter struct for an operation.
use crate::channel_protocol::{
    lemma_violation_unique, BuildError, ProtocolMessageView, ProtocolView,
};
use crate::render::message::{param_struct_ident, variant_path};
use crate::tokens::{
    concat_all, ident, in_order, lemma_concat_all_in_order, lemma_punctuated_in_order,
    lemma_terminated_in_order, punctuated, stands_at, terminated, TokenView,
};
use vstd::prelude::*;

verus! {

/// Compiling is deterministic: whatever two compilations of one protocol
/// give, tokens or a fault, they give the same.
pub proof fn lemma_compile_deterministic(
    protocol: ProtocolView,
    result: Result<Seq<TokenView>, BuildError>,
    other: Result<Seq<TokenView>, BuildError>,
)
    requires
        protocol.compiles_to(result),
        protocol.compiles_to(other),
    ensures
        result == other,
{
    match (result, other) {
        (Err(error), Err(other_error)) => {
            lemma_violation_unique(protocol, error, other_error);
        },
        (Err(error), Ok(_)) => {
            lemma_violation_unique(protocol, error, error);
        },
        (Ok(_), Err(error)) => {
            lemma_violation_unique(protocol, error, error);
        },
        (Ok(_), Ok(_)) => {},
    }
}

/// The order of the declaration is kept in every artifact. For two operations
/// of a protocol, the earlier one comes first among the variants of the
/// message enum, among the methods of the handler trait and among the
/// functions of the client; so it does among the parameter structs, the arms
/// of the dispatch method and the arms of the `Debug` impl. Each list has one
/// entry per operation, and each entry is the one derived from the operation
/// of its index.
pub proof fn lemma_operation_order_preserved(protocol: ProtocolView, i: int, j: int)
    requires
        0 <= i < j < protocol.messages.len(),
    ensures
        in_order(punctuated(protocol.variants()), protocol.variants(), 1, i, j),
        in_order(concat_all(protocol.handler_methods()), protocol.handler_methods(), 0, i, j),
        in_order(concat_all(protocol.client_fns()), protocol.client_fns(), 0, i, j),
        in_order(
            concat_all(protocol.struct_definitions()),
            protocol.struct_definitions(),
            0,
            i,
            j,
        ),
        in_order(concat_all(protocol.dispatch_arms()), protocol.dispatch_arms(), 0, i, j),
        in_order(concat_all(protocol.debug_arms()), protocol.debug_arms(), 0, i, j),
        protocol.variants().len() == protocol.messages.len(),
        protocol.handler_methods().len() == protocol.messages.len(),
        protocol.client_fns().len() == protocol.messages.len(),
        protocol.struct_definitions().len() == protocol.messages.len(),
        protocol.dispatch_arms().len() == protocol.messages.len(),
        protocol.debug_arms().len() == protocol.messages.len(),
        forall|k: int|
            0 <= k < protocol.messages.len() ==> {
                let message = #[trigger] protocol.messages[k];
                let variant_ident = message.pascal_case_ident();
                let enum_ident = protocol.message_enum_ident();
                &&& protocol.variants()[k] == message.variant(variant_ident)
                &&& protocol.handler_methods()[k] == message.handler_method()
                &&& protocol.client_fns()[k] == message.client_fn(enum_ident, variant_ident)
                &&& protocol.struct_definitions()[k] == message.struct_definition(variant_ident)
                &&& protocol.dispatch_arms()[k] == message.dispatch_arm(enum_ident, variant_ident)
                &&& protocol.debug_arms()[k] == message.debug_arm(enum_ident, variant_ident)
            },
{
    lemma_punctuated_in_order(protocol.variants(), i, j);
    lemma_concat_all_in_order(protocol.handler_methods(), i, j);
    lemma_concat_all_in_order(protocol.client_fns(), i, j);
    lemma_concat_all_in_order(protocol.struct_definitions(), i, j);
    lemma_concat_all_in_order(protocol.dispatch_arms(), i, j);
    lemma_concat_all_in_order(protocol.debug_arms(), i, j);
}

/// The order of the parameters is kept. For two parameters of an operation,
/// the earlier one comes first among the declared parameters, which are the
/// fields of the parameter struct and the parameters of the client function
/// and of the handler method, and among the names that fill the struct and
/// that are passed to the handler method.
pub proof fn lemma_parameter_order_preserved(message: ProtocolMessageView, i: int, j: int)
    requires
        0 <= i < j < message.args.len(),
    ensures
        in_order(punctuated(message.arg_declarations()), message.arg_declarations(), 1, i, j),
        in_order(punctuated(message.arg_idents()), message.arg_idents(), 1, i, j),
        in_order(terminated(message.arg_idents()), message.arg_idents(), 1, i, j),
        forall|k: int|
            0 <= k < message.args.len() ==> {
                let arg = #[trigger] message.args[k];
                &&& message.arg_declarations()[k] == arg.to_tokens()
                &&& message.arg_idents()[k] == ident(arg.ident)
            },
{
    lemma_punctuated_in_order(message.arg_declarations(), i, j);
    lemma_punctuated_in_order(message.arg_idents(), i, j);
    lemma_terminated_in_order(message.arg_idents(), i, j);
}

/// The artifacts agree on the variant of an operation: the message enum
/// declares the variant under the identifier by which the client function
/// builds it and the dispatch method and the `Debug` impl match it.
pub proof fn lemma_artifacts_agree_on_variant(
    message: ProtocolMessageView,
    enum_ident: Seq<char>,
    variant_ident: Seq<char>,
)
    ensures
        stands_at(message.variant(variant_ident), ident(variant_ident), 0),
        stands_at(
            message.message_statement(enum_ident, variant_ident),
            variant_path(enum_ident, variant_ident),
            3,
        ),
        stands_at(
            message.dispatch_pattern(enum_ident, variant_ident),
            variant_path(enum_ident, variant_ident),
            0,
        ),
        stands_at(
            message.debug_pattern(enum_ident, variant_ident),
            variant_path(enum_ident, variant_ident),
            0,
        ),
        stands_at(variant_path(enum_ident, variant_ident), ident(variant_ident), 3),
{
    let path = variant_path(enum_ident, variant_ident);
    assert(message.variant(variant_ident).subrange(0, 1) =~= ident(variant_ident));
    assert(message.message_statement(enum_ident, variant_ident).subrange(3, 7) =~= path);
    assert(message.dispatch_pattern(enum_ident, variant_ident).subrange(0, 4) =~= path);
    assert(message.debug_pattern(enum_ident, variant_ident).subrange(0, 4) =~= path);
    assert(path.subrange(3, 4) =~= ident(variant_ident));
}

/// The artifacts agree on the parameter struct of an operation that takes
/// parameters: the struct is defined under the identifier that the variant
/// carries, that the client function fills and that the dispatch method and
/// the `Debug` impl take apart.
pub proof fn lemma_artifacts_agree_on_param_struct(
    message: ProtocolMessageView,
    enum_ident: Seq<char>,
    variant_ident: Seq<char>,
)
    requires
        message.args.len() > 0,
    ensures
        stands_at(
            message.struct_definition(variant_ident),
            ident(param_struct_ident(variant_ident)),
            8,
        ),
        stands_at(message.variant(variant_ident), ident(param_struct_ident(variant_ident)), 2),
        stands_at(
            message.struct_literal(variant_ident),
            ident(param_struct_ident(variant_ident)),
            0,
        ),
        stands_at(
            message.dispatch_pattern(enum_ident, variant_ident),
            ident(param_struct_ident(variant_ident)),
            5,
        ),
        stands_at(
            message.debug_pattern(enum_ident, variant_ident),
            ident(param_struct_ident(variant_ident)),
            5,
        ),
{
    let name = ident(param_struct_ident(variant_ident));
    assert(message.struct_definition(variant_ident).subrange(8, 9) =~= name);
    assert(message.variant(variant_ident).subrange(2, 3) =~= name);
    assert(message.struct_literal(variant_ident).subrange(0, 1) =~= name);
    assert(message.dispatch_pattern(enum_ident, variant_ident).subrange(5, 6) =~= name);
    assert(message.debug_pattern(enum_ident, variant_ident).subrange(5, 6) =~= name);
}

} // verus!
