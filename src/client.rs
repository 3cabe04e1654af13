use vstd::prelude::*;
use crate::router::Params;
use crate::types::Method;

verus! {

/// A call handed to the core: its id, verb, parameters, and the token of
/// the reply channel that gets its one answer.
#[derive(Debug)]
pub struct Route {
    pub id: i64,
    pub method: Method,
    pub params: Params,
    pub reply: u64,
}

/// The per-call handle: the verb it issues and the id of its last call.
#[derive(Clone, Copy, Debug, PartialEq, Eq, Structural)]
pub struct Client {
    pub id: i64,
    pub method: Method,
}

impl Client {
    /// A handle for `method` that has issued no call yet.
    pub fn new(method: Method) -> (r: Client)
        ensures
            r.id == 0,
            r.method == method,
    {
        Client { id: 0, method }
    }

    /// Packs a call under the freshly allocated `id`, which the handle keeps.
    pub fn route(&mut self, id: i64, params: Params, reply: u64) -> (r: Route)
        ensures
            final(self).id == id,
            final(self).method == old(self).method,
            r.id == id,
            r.method == old(self).method,
            r.params == params,
            r.reply == reply,
    {
        self.id = id;
        Route { id, method: self.method, params, reply }
    }
}

} // verus!
