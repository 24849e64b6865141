//! The builder of the Sui JSON-RPC server: which RPC methods it serves, what
//! it documents, and the plan of the router it answers requests with.
use vstd::prelude::*;

use crate::cors::{cors_config, cors_match, origins_parse, CorsConfig};
use crate::error::ServerError;
use crate::methods::{
    clone_module, collection_method_names, module_constant_answers, merge_methods, merged_names, method_name_list,
    module_method_names, new_unit_module, register_constant_method,
};
use crate::routing::{
    disable_routing_flag, opt_view, routes_for, routes_match, routing_disabled, Route, ServerType,
};
use crate::rpc_doc::{is_sui_rpc_doc, sui_rpc_doc, MethodRoute, RpcDoc, RpcDocModule};

verus! {

/// Largest request body, in bytes, that the server accepts.
pub const MAX_REQUEST_SIZE: u32 = 2 << 30;

#[verifier::external_type_specification]
#[verifier::external_body]
pub struct ExRegistry(prometheus::Registry);

/// `Registry::clone`: the derived clone copies the `Arc` that holds the
/// registry's collectors, so the clone is a handle on the same registry.
#[verifier::external_body]
fn clone_registry(r: &prometheus::Registry) -> (c: prometheus::Registry)
    ensures
        c == *r,
{
    r.clone()
}

/// The name under which the server describes itself.
pub open spec fn discover_method_name() -> Seq<char> {
    "rpc.discover"@
}

/// A group of RPC methods that can be served, together with its documentation.
pub trait SuiRpcModule where Self: Sized {
    /// The methods of the group, with the group itself as their context.
    fn rpc(self) -> jsonrpsee::RpcModule<Self>;

    /// The documentation of the group's methods.
    fn rpc_doc_module() -> RpcDocModule;
}

/// Collects the RPC modules and their documentation from which the server is built.
pub struct JsonRpcServerBuilder {
    module: jsonrpsee::RpcModule<()>,
    rpc_doc: RpcDoc,
    registry: prometheus::Registry,
}

/// The environment settings that shape the router.
#[derive(Debug, Clone)]
pub struct RouterEnv {
    /// `DISABLE_BACKWARD_COMPATIBILITY`, when set to a string.
    pub disable_backward_compatibility: Option<String>,
    /// `ACCESS_CONTROL_ALLOW_ORIGIN`, when set to a string.
    pub access_control_allow_origin: Option<String>,
}

/// Everything the router of the server is made of.
pub struct RouterPlan {
    /// The RPC methods served, the self-description included.
    pub module: jsonrpsee::RpcModule<()>,
    /// The names of the methods served, each once.
    pub method_names: Vec<String>,
    /// The routing table of the API document, for the backward-compatible
    /// method routing.
    pub method_routing: Vec<MethodRoute>,
    /// Whether the backward-compatible method routing is switched off.
    pub disable_routing: bool,
    /// The cross-origin policy.
    pub cors: CorsConfig,
    /// The HTTP routes, in order.
    pub routes: Vec<Route>,
}

/// The names served after registering the collections named `first` and
/// then `second` on a module serving `current`, or `None` when either
/// registration fails.
pub open spec fn registered_in_turn(
    current: Set<Seq<char>>,
    first: Set<Seq<char>>,
    second: Set<Seq<char>>,
) -> Option<Set<Seq<char>>> {
    match merged_names(current, first) {
        Some(after_first) => merged_names(after_first, second),
        None => None,
    }
}

/// The order in which method collections are registered does not matter:
/// both orders fail alike or serve the same methods.
pub proof fn lemma_registration_order_irrelevant(
    current: Set<Seq<char>>,
    a: Set<Seq<char>>,
    b: Set<Seq<char>>,
)
    ensures
        registered_in_turn(current, a, b) == registered_in_turn(current, b, a),
{
    let ok = current.disjoint(a) && current.disjoint(b) && a.disjoint(b);
    if ok {
        assert(current.union(a).disjoint(b));
        assert(current.union(b).disjoint(a));
        assert(current.union(a).union(b) =~= current.union(b).union(a));
    } else {
        if current.disjoint(a) && current.union(a).disjoint(b) {
            assert(current.disjoint(b));
            assert(a.disjoint(b)) by {
                assert forall|n: Seq<char>| a.contains(n) implies !b.contains(n) by {
                    assert(current.union(a).contains(n));
                }
            }
        }
        if current.disjoint(b) && current.union(b).disjoint(a) {
            assert(current.disjoint(a));
            assert(a.disjoint(b)) by {
                assert forall|n: Seq<char>| a.contains(n) implies !b.contains(n) by {
                    assert(current.union(b).contains(n) ==> !a.contains(n));
                }
            }
        }
    }
}

/// A collection that holds at least one method cannot be registered twice:
/// once it is in, registering it again fails.
pub proof fn lemma_registering_twice_fails(current: Set<Seq<char>>, other: Set<Seq<char>>, name: Seq<char>)
    requires
        other.contains(name),
    ensures
        registered_in_turn(current, other, other) is None,
{
    if let Some(after) = merged_names(current, other) {
        assert(after.contains(name));
    }
}

impl JsonRpcServerBuilder {
    /// The names of the methods registered so far.
    pub closed spec fn registered(&self) -> Set<Seq<char>> {
        module_method_names(self.module)
    }

    /// The metrics registry the builder holds.
    pub closed spec fn metrics_registry(&self) -> prometheus::Registry {
        self.registry
    }

    /// The document of the API so far.
    pub closed spec fn doc(&self) -> RpcDoc {
        self.rpc_doc
    }

    /// A builder with no methods yet and the API document of the given version.
    pub fn new(version: &str, prometheus_registry: &prometheus::Registry) -> (b: Self)
        ensures
            b.registered() == Set::<Seq<char>>::empty(),
            is_sui_rpc_doc(b.doc(), version@),
            b.metrics_registry() == *prometheus_registry,
    {
        JsonRpcServerBuilder {
            module: new_unit_module(),
            rpc_doc: sui_rpc_doc(version),
            registry: clone_registry(prometheus_registry),
        }
    }

    /// The document of the API so far.
    pub fn rpc_doc(&self) -> (d: &RpcDoc)
        ensures
            *d == self.doc(),
    {
        &self.rpc_doc
    }

    /// The metrics registry the server reports to.
    pub fn registry(&self) -> (r: &prometheus::Registry)
        ensures
            *r == self.metrics_registry(),
    {
        &self.registry
    }

    /// Adds a module's documentation, then its methods. The documentation is
    /// added whatever happens to the methods; these are all added when none
    /// of their names is taken yet, and none is added otherwise.
    pub fn register_methods(
        &mut self,
        doc_module: RpcDocModule,
        methods: jsonrpsee::core::server::rpc_module::Methods,
    ) -> (r: Result<(), ServerError>)
        ensures
            final(self).doc().info == old(self).doc().info,
            final(self).doc().modules@ == old(self).doc().modules@.push(doc_module),
            r is Ok <==> merged_names(old(self).registered(), collection_method_names(methods)) is Some,
            r is Ok ==> Some(final(self).registered()) == merged_names(
                old(self).registered(),
                collection_method_names(methods),
            ),
            r matches Err(e) ==> {
                &&& e matches ServerError::MethodAlreadyRegistered(n)
                &&& old(self).registered().contains(n@)
                &&& collection_method_names(methods).contains(n@)
                &&& final(self).registered() == old(self).registered()
            },
    {
        self.rpc_doc.add_module(doc_module);
        merge_methods(&mut self.module, methods)
    }

    /// Adds a module of RPC methods and its documentation: the documentation
    /// that `T::rpc_doc_module` gives is appended whatever happens, then the
    /// methods of `module.rpc()` are all added when none of their names is
    /// taken yet, and none is added otherwise (see `register_methods`).
    pub fn register_module<T: SuiRpcModule>(&mut self, module: T) -> (r: Result<(), ServerError>)
        ensures
            final(self).doc().info == old(self).doc().info,
            final(self).doc().modules@.len() == old(self).doc().modules@.len() + 1,
            final(self).doc().modules@.drop_last() == old(self).doc().modules@,
            call_ensures(T::rpc_doc_module, (), final(self).doc().modules@.last()),
            exists|rpc: jsonrpsee::RpcModule<T>, methods: jsonrpsee::core::server::rpc_module::Methods|
                {
                    &&& call_ensures(T::rpc, (module,), rpc)
                    &&& call_ensures(
                        <jsonrpsee::core::server::rpc_module::Methods as From<
                            jsonrpsee::RpcModule<T>,
                        >>::from,
                        (rpc,),
                        methods,
                    )
                    &&& (r is Ok <==> old(self).registered().disjoint(
                        collection_method_names(methods),
                    ))
                    &&& (r is Ok ==> final(self).registered() == old(self).registered().union(
                        collection_method_names(methods),
                    ))
                    &&& (r matches Err(e) ==> {
                        &&& e matches ServerError::MethodAlreadyRegistered(n)
                        &&& old(self).registered().contains(n@)
                        &&& collection_method_names(methods).contains(n@)
                        &&& final(self).registered() == old(self).registered()
                    })
                },
    {
        let ghost given = module;
        let doc_module = T::rpc_doc_module();
        let rpc = module.rpc();
        let ghost rpc_given = rpc;
        let methods = jsonrpsee::core::server::rpc_module::Methods::from(rpc);
        let ghost methods_given = methods;
        let r = self.register_methods(doc_module, methods);
        proof {
            assert(self.doc().modules@.drop_last() =~= old(self).doc().modules@);
            assert(call_ensures(T::rpc, (given,), rpc_given));
            assert(call_ensures(
                <jsonrpsee::core::server::rpc_module::Methods as From<
                    jsonrpsee::RpcModule<T>,
                >>::from,
                (rpc_given,),
                methods_given,
            ));
        }
        r
    }

    /// Plans the router of the server: the registered methods plus the
    /// self-description `rpc.discover`, whose callback returns
    /// `discover_doc`, the JSON form of this builder's document (the library's
    /// types carry no serializer: the caller turns `rpc_doc()` into JSON); the
    /// document's routing table and the setting that switches it off; the
    /// CORS policy; and the routes of the chosen transport. The plan is a
    /// snapshot: the builder itself is left as it was. Fails when
    /// `rpc.discover` is registered already, and otherwise when the
    /// allowed-origin setting is not a list of valid header values.
    pub fn to_router(
        &self,
        server_type: Option<ServerType>,
        env: &RouterEnv,
        discover_doc: serde_json::Value,
    ) -> (r: Result<RouterPlan, ServerError>)
        ensures
            r is Ok <==> !self.registered().contains(discover_method_name()) && origins_parse(
                opt_view(env.access_control_allow_origin),
            ),
            r matches Err(e) ==> if self.registered().contains(discover_method_name()) {
                e matches ServerError::MethodAlreadyRegistered(n) && n@ == discover_method_name()
            } else {
                e == ServerError::InvalidHeaderValue
            },
            r matches Ok(plan) ==> {
                &&& module_method_names(plan.module) == self.registered().insert(
                    discover_method_name(),
                )
                &&& plan.method_names@.map_values(|s: String| s@).to_set() == self.registered().insert(
                    discover_method_name(),
                )
                &&& plan.method_names@.map_values(|s: String| s@).no_duplicates()
                &&& module_constant_answers(plan.module).contains_key(discover_method_name())
                &&& module_constant_answers(plan.module)[discover_method_name()] == discover_doc
                &&& plan.method_routing@ == self.doc().routing_table()
                &&& plan.disable_routing == routing_disabled(
                    opt_view(env.disable_backward_compatibility),
                )
                &&& cors_match(plan.cors, opt_view(env.access_control_allow_origin))
                &&& routes_match(plan.routes@, server_type)
            },
    {
        let method_routing = self.rpc_doc.method_routing();
        let disable_routing = disable_routing_flag(&env.disable_backward_compatibility);
        let mut module = clone_module(&self.module);
        register_constant_method(&mut module, "rpc.discover", discover_doc)?;
        let method_names = method_name_list(&module);
        let cors = cors_config(&env.access_control_allow_origin)?;
        let routes = routes_for(server_type);
        Ok(RouterPlan { module, method_names, method_routing, disable_routing, cors, routes })
    }
}

} // verus!
