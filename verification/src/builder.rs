use vstd::prelude::*;
use crate::handler::Handler;
use crate::protocol::Message;
use crate::registry::Registry;
use crate::session::Session;

verus! {

/// Builder for configuring and starting an oracle server: register a
/// handler per selector, then open the session.
pub struct Oracle<H> {
    registry: Registry<H>,
}

impl<H: Handler> Oracle<H> {
    /// The registry built so far.
    pub closed spec fn spec_registry(self) -> Registry<H> {
        self.registry
    }

    /// A fresh oracle with no handlers registered.
    pub fn new() -> (r: Oracle<H>)
        ensures
            r.spec_registry().wf(),
            r.spec_registry().selectors() == Seq::<Seq<char>>::empty(),
            forall|s: Seq<char>| r.spec_registry().spec_get(s) is None,
    {
        Oracle { registry: Registry::new() }
    }

    /// Registers a handler for a given selector, overwriting any prior
    /// entry under the same selector.
    pub fn provide(&mut self, selector: String, handler: H)
        requires
            old(self).spec_registry().wf(),
        ensures
            final(self).spec_registry().wf(),
            final(self).spec_registry().spec_get(selector@) == Some(handler),
            forall|s: Seq<char>|
                s != selector@ ==> final(self).spec_registry().spec_get(s) == old(self).spec_registry().spec_get(s),
            old(self).spec_registry().spec_get(selector@) is Some ==> final(self).spec_registry().selectors() == old(self).spec_registry().selectors(),
            old(self).spec_registry().spec_get(selector@) is None ==> final(self).spec_registry().selectors() == old(self).spec_registry().selectors().push(
                selector@,
            ),
    {
        self.registry.register(selector, handler);
    }

    /// Consumes the builder and opens the session: hands back the state
    /// machine, already Handshaking, and the `"ready"` request the
    /// surrounding runtime must push through the transport before the
    /// first read.
    pub fn start(self) -> (r: (Session<H>, Message))
        requires
            self.spec_registry().wf(),
        ensures
            r.0.wf(),
            r.0.spec_registry() == self.spec_registry(),
            r.1 matches Message::Request(req) && req.method@ == "ready"@ && req.params is Null
                && r.0.spec_state() == (crate::session::SessionState::Handshaking {
                ready_id: req.id,
            }),
    {
        Session::new(self.registry)
    }
}

impl<H: Handler> Default for Oracle<H> {
    fn default() -> (r: Oracle<H>)
        ensures
            r.spec_registry().wf(),
            r.spec_registry().selectors() == Seq::<Seq<char>>::empty(),
            forall|s: Seq<char>| r.spec_registry().spec_get(s) is None,
    {
        Oracle::new()
    }
}

} // verus!
