//! The OpenRPC document that the server publishes about itself.
use vstd::prelude::*;
use vstd::string::StringExecFns;

verus! {

/// The `info` part of the document: who publishes the API and under which
/// licence.
#[derive(Debug, Clone)]
pub struct RpcDocInfo {
    pub version: String,
    pub title: String,
    pub description: String,
    pub contact_name: String,
    pub contact_url: String,
    pub contact_email: String,
    pub license_name: String,
    pub license_url: String,
}

/// Where calls of a method go for clients that target an older API: to the
/// method `route_to`, for client API versions from `min` up to `max` (given as
/// text; an absent bound leaves that side open).
#[derive(Debug, Clone)]
pub struct MethodRouting {
    pub min: Option<String>,
    pub max: Option<String>,
    pub route_to: String,
}

/// One entry of a routing table: how calls of `method` are rerouted.
#[derive(Debug, Clone)]
pub struct MethodRoute {
    pub method: String,
    pub routing: MethodRouting,
}

/// The documentation of one RPC module: the names of the methods it
/// documents and the routing of its methods for older clients.
#[derive(Debug, Clone)]
pub struct RpcDocModule {
    pub methods: Vec<String>,
    pub method_routing: Vec<MethodRoute>,
}

/// An OpenRPC document: its `info` and the documentation of each module
/// added to it, in the order of addition.
#[derive(Debug, Clone)]
pub struct RpcDoc {
    pub info: RpcDocInfo,
    pub modules: Vec<RpcDocModule>,
}

/// A document without modules has an empty routing table.
pub proof fn lemma_routing_table_empty(doc: RpcDoc)
    requires
        doc.modules@.len() == 0,
    ensures
        doc.routing_table() == Seq::<MethodRoute>::empty(),
{
    assert(doc.modules@.map_values(|m: RpcDocModule| m.method_routing@) =~= Seq::<Seq<MethodRoute>>::empty());
}

/// Adding a module appends its routing entries, unchanged and in order, to
/// the routing table.
pub proof fn lemma_routing_table_add_module(before: RpcDoc, after: RpcDoc, module: RpcDocModule)
    requires
        after.modules@ == before.modules@.push(module),
    ensures
        after.routing_table() == before.routing_table() + module.method_routing@,
{
    assert(after.modules@.map_values(|m: RpcDocModule| m.method_routing@) =~= before.modules@.map_values(
        |m: RpcDocModule| m.method_routing@,
    ).push(module.method_routing@));
    before.modules@.map_values(|m: RpcDocModule| m.method_routing@).lemma_flatten_push(
        module.method_routing@,
    );
}

/// `doc` is the document of the Sui JSON-RPC API in version `version`, with no
/// module documented yet.
pub open spec fn is_sui_rpc_doc(doc: RpcDoc, version: Seq<char>) -> bool {
    &&& doc.info.version@ == version
    &&& doc.info.title@ == "Sui JSON-RPC"@
    &&& doc.info.description@
        == "Sui JSON-RPC API for interaction with Sui Full node. Make RPC calls using https://fullnode.NETWORK.sui.io:443, where NETWORK is the network you want to use (testnet, devnet, mainnet). By default, local networks use port 9000."@
    &&& doc.info.contact_name@ == "Mysten Labs"@
    &&& doc.info.contact_url@ == "https://mystenlabs.com"@
    &&& doc.info.contact_email@ == "build@mystenlabs.com"@
    &&& doc.info.license_name@ == "Apache-2.0"@
    &&& doc.info.license_url@ == "https://raw.githubusercontent.com/MystenLabs/sui/main/LICENSE"@
    &&& doc.modules@.len() == 0
}

/// The OpenRPC document of the Sui JSON-RPC API in the given version.
pub fn sui_rpc_doc(version: &str) -> (doc: RpcDoc)
    ensures
        is_sui_rpc_doc(doc, version@),
{
    RpcDoc {
        info: RpcDocInfo {
            version: String::from_str(version),
            title: String::from_str("Sui JSON-RPC"),
            description: String::from_str(
                "Sui JSON-RPC API for interaction with Sui Full node. Make RPC calls using https://fullnode.NETWORK.sui.io:443, where NETWORK is the network you want to use (testnet, devnet, mainnet). By default, local networks use port 9000.",
            ),
            contact_name: String::from_str("Mysten Labs"),
            contact_url: String::from_str("https://mystenlabs.com"),
            contact_email: String::from_str("build@mystenlabs.com"),
            license_name: String::from_str("Apache-2.0"),
            license_url: String::from_str(
                "https://raw.githubusercontent.com/MystenLabs/sui/main/LICENSE",
            ),
        },
        modules: Vec::new(),
    }
}

fn copy_text(t: &Option<String>) -> (c: Option<String>)
    ensures
        c == *t,
{
    match t {
        Some(s) => Some(s.clone()),
        None => None,
    }
}

fn copy_route(r: &MethodRoute) -> (c: MethodRoute)
    ensures
        c == *r,
{
    MethodRoute {
        method: r.method.clone(),
        routing: MethodRouting {
            min: copy_text(&r.routing.min),
            max: copy_text(&r.routing.max),
            route_to: r.routing.route_to.clone(),
        },
    }
}

impl RpcDoc {
    /// The routing table of the document: the routing entries of each module,
    /// in the order the modules were added.
    pub open spec fn routing_table(self) -> Seq<MethodRoute> {
        self.modules@.map_values(|m: RpcDocModule| m.method_routing@).flatten()
    }

    /// A copy of the routing table of the document.
    pub fn method_routing(&self) -> (table: Vec<MethodRoute>)
        ensures
            table@ == self.routing_table(),
            table@ == self.modules@.map_values(|m: RpcDocModule| m.method_routing@).flatten(),
    {
        broadcast use Seq::lemma_flatten_push;

        let mut table: Vec<MethodRoute> = Vec::new();
        let mut i: usize = 0;
        proof {
            assert(self.modules@.subrange(0, 0).map_values(|m: RpcDocModule| m.method_routing@)
                =~= Seq::<Seq<MethodRoute>>::empty());
        }
        while i < self.modules.len()
            invariant
                i <= self.modules@.len(),
                table@ == self.modules@.subrange(0, i as int).map_values(
                    |m: RpcDocModule| m.method_routing@,
                ).flatten(),
            decreases self.modules@.len() - i,
        {
            let module = &self.modules[i];
            let ghost before = table@;
            let mut j: usize = 0;
            while j < module.method_routing.len()
                invariant
                    j <= module.method_routing@.len(),
                    table@ == before + module.method_routing@.subrange(0, j as int),
                decreases module.method_routing@.len() - j,
            {
                table.push(copy_route(&module.method_routing[j]));
                proof {
                    assert(module.method_routing@.subrange(0, j + 1) =~= module.method_routing@.subrange(0, j as int).push(module.method_routing@[j as int]));
                }
                j = j + 1;
            }
            proof {
                let prev = self.modules@.subrange(0, i as int).map_values(
                    |m: RpcDocModule| m.method_routing@,
                );
                assert(module.method_routing@.subrange(0, j as int) =~= module.method_routing@);
                assert(self.modules@.subrange(0, i + 1).map_values(|m: RpcDocModule| m.method_routing@)
                    =~= prev.push(module.method_routing@));
                prev.lemma_flatten_push(module.method_routing@);
            }
            i = i + 1;
        }
        proof {
            assert(self.modules@.subrange(0, i as int) =~= self.modules@);
        }
        table
    }

    /// Adds the documentation of one more module after those already there.
    pub fn add_module(&mut self, module: RpcDocModule)
        ensures
            final(self).info == old(self).info,
            final(self).modules@ == old(self).modules@.push(module),
    {
        self.modules.push(module);
    }
}

} // verus!
