//! The JSON-RPC method collections of `jsonrpsee`, seen through the set of
//! method names that each holds.
use vstd::prelude::*;

use crate::error::ServerError;

verus! {

#[verifier::external_type_specification]
#[verifier::external_body]
#[verifier::reject_recursive_types(Context)]
pub struct ExRpcModule<Context>(jsonrpsee::RpcModule<Context>);

#[verifier::external_type_specification]
#[verifier::external_body]
pub struct ExMethods(jsonrpsee::core::server::rpc_module::Methods);

#[verifier::external_type_specification]
#[verifier::external_body]
pub struct ExJsonValue(serde_json::Value);

/// The names of the methods registered on a unit-context RPC module.
pub uninterp spec fn module_method_names(m: jsonrpsee::RpcModule<()>) -> Set<Seq<char>>;

/// The names of the methods held by a method collection.
pub uninterp spec fn collection_method_names(
    m: jsonrpsee::core::server::rpc_module::Methods,
) -> Set<Seq<char>>;

/// For each method of a unit-context module whose callback returns one fixed
/// JSON value, that value. (The server may still turn a response over its
/// size limit into an error.)
pub uninterp spec fn module_constant_answers(
    m: jsonrpsee::RpcModule<()>,
) -> Map<Seq<char>, serde_json::Value>;

/// What merging `other` into a module whose names are `current` gives:
/// the union of both, or `None` when some name is in both.
pub open spec fn merged_names(current: Set<Seq<char>>, other: Set<Seq<char>>) -> Option<Set<Seq<char>>> {
    if current.disjoint(other) {
        Some(current.union(other))
    } else {
        None
    }
}

/// `RpcModule::new(())`: a module with the unit context and no methods.
#[verifier::external_body]
pub(crate) fn new_unit_module() -> (m: jsonrpsee::RpcModule<()>)
    ensures
        module_method_names(m) == Set::<Seq<char>>::empty(),
{
    jsonrpsee::RpcModule::new(())
}

/// `<Methods as From<RpcModule<Context>>>::from`: the methods of a module
/// without its context. The module's contents are not modelled for an
/// arbitrary context, so nothing is stated of the names that come out.
pub assume_specification<Context>[ <jsonrpsee::core::server::rpc_module::Methods as From<
    jsonrpsee::RpcModule<Context>,
>>::from ](module: jsonrpsee::RpcModule<Context>) -> jsonrpsee::core::server::rpc_module::Methods;

/// `Methods::merge` (through `RpcModule`'s `DerefMut`): when no name of
/// `other` is registered yet, every method of `other` is added; otherwise the
/// module keeps its names and the error names a method present in both. The
/// already-registered check is the only way `merge` fails; any other error
/// would come out as `RpcServer`, which is not stated.
#[verifier::external_body]
pub(crate) fn merge_methods(
    m: &mut jsonrpsee::RpcModule<()>,
    other: jsonrpsee::core::server::rpc_module::Methods,
) -> (r: Result<(), ServerError>)
    ensures
        r is Ok <==> module_method_names(*old(m)).disjoint(collection_method_names(other)),
        r is Ok ==> module_method_names(*final(m)) == module_method_names(*old(m)).union(
            collection_method_names(other),
        ),
        r matches Err(e) ==> {
            &&& e matches ServerError::MethodAlreadyRegistered(n)
            &&& module_method_names(*old(m)).contains(n@)
            &&& collection_method_names(other).contains(n@)
            &&& module_method_names(*final(m)) == module_method_names(*old(m))
        },
{
    match m.merge(other) {
        Ok(()) => Ok(()),
        Err(jsonrpsee::core::Error::MethodAlreadyRegistered(n)) => Err(
            ServerError::MethodAlreadyRegistered(n),
        ),
        Err(e) => Err(ServerError::RpcServer(e.to_string())),
    }
}

/// `RpcModule::register_method` with a callback that returns a copy of
/// `response`: the name is added unless it is registered already, in which
/// case the module keeps its names. That check is the only way
/// `register_method` fails.
#[verifier::external_body]
pub(crate) fn register_constant_method(
    m: &mut jsonrpsee::RpcModule<()>,
    name: &'static str,
    response: serde_json::Value,
) -> (r: Result<(), ServerError>)
    ensures
        r is Ok <==> !module_method_names(*old(m)).contains(name@),
        r is Ok ==> module_method_names(*final(m)) == module_method_names(*old(m)).insert(name@),
        r is Ok ==> module_constant_answers(*final(m)).contains_key(name@),
        r is Ok ==> module_constant_answers(*final(m))[name@] == response,
        r matches Err(e) ==> {
            &&& e matches ServerError::MethodAlreadyRegistered(n)
            &&& n@ == name@
            &&& module_method_names(*final(m)) == module_method_names(*old(m))
        },
{
    match m.register_method(name, move |_, _| Ok(response.clone())) {
        Ok(_) => Ok(()),
        Err(jsonrpsee::core::Error::MethodAlreadyRegistered(n)) => Err(
            ServerError::MethodAlreadyRegistered(n),
        ),
        Err(e) => Err(ServerError::RpcServer(e.to_string())),
    }
}

/// `RpcModule::clone`: a module that shares the same methods.
#[verifier::external_body]
pub(crate) fn clone_module(m: &jsonrpsee::RpcModule<()>) -> (c: jsonrpsee::RpcModule<()>)
    ensures
        module_method_names(c) == module_method_names(*m),
{
    m.clone()
}

/// `Methods::method_names` collected into owned strings: each registered name
/// once, in the order in which the module's hash map is walked.
#[verifier::external_body]
pub(crate) fn method_name_list(m: &jsonrpsee::RpcModule<()>) -> (v: Vec<String>)
    ensures
        v@.map_values(|s: String| s@).to_set() == module_method_names(*m),
        v@.map_values(|s: String| s@).no_duplicates(),
{
    m.method_names().map(|n| n.to_string()).collect()
}

} // verus!
