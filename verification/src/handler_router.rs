//! Handler-id router seam for SUBSCRIBE / EMIT producer events: a typed
//! routing decision that tells "fan out to every default consumer" apart
//! from "route through one named handler subgraph", and the routing log
//! that records each decision.

use vstd::prelude::*;

verus! {

/// Routing variant for SUBSCRIBE / EMIT producer events.
#[derive(Debug, Clone, PartialEq, Eq)]
#[non_exhaustive]
pub enum HandlerRoute {
    /// Broadcast to every default consumer.
    DefaultFanOut,
    /// Route through the named handler subgraph only.
    Named(String),
}

impl HandlerRoute {
    /// True iff this is a [`HandlerRoute::Named`] routing decision.
    pub fn is_named(&self) -> (r: bool)
        ensures
            r == self is Named,
    {
        match self {
            HandlerRoute::Named(_) => true,
            HandlerRoute::DefaultFanOut => false,
        }
    }

    /// The handler id when this is [`HandlerRoute::Named`].
    pub fn named_handler_id(&self) -> (r: Option<&str>)
        ensures
            match self {
                HandlerRoute::Named(id) => r matches Some(s) && s@ == id@,
                HandlerRoute::DefaultFanOut => r is None,
            },
    {
        match self {
            HandlerRoute::Named(id) => Some(id.as_str()),
            HandlerRoute::DefaultFanOut => None,
        }
    }
}

/// Engine-side routing log: the number of default fan-out decisions and
/// every named-handler decision in dispatch order.
#[derive(Debug, Default)]
pub struct HandlerRouteLog {
    default_fan_out_count: u64,
    named_routes: Vec<(String, String)>,
}

/// Mathematical model of a [`HandlerRouteLog`].
pub struct HandlerRouteLogView {
    /// Events routed by default fan-out (saturating at `u64::MAX`).
    pub default_fan_out_count: u64,
    /// `(producer, handler_id)` pairs in dispatch order.
    pub named_routes: Seq<(Seq<char>, Seq<char>)>,
}

/// The characters of each `(producer, handler_id)` pair.
pub open spec fn route_pairs(v: Seq<(String, String)>) -> Seq<(Seq<char>, Seq<char>)> {
    v.map_values(|p: (String, String)| (p.0@, p.1@))
}

impl View for HandlerRouteLog {
    type V = HandlerRouteLogView;

    closed spec fn view(&self) -> HandlerRouteLogView {
        HandlerRouteLogView {
            default_fan_out_count: self.default_fan_out_count,
            named_routes: route_pairs(self.named_routes@),
        }
    }
}

impl HandlerRouteLog {
    /// An empty log.
    pub fn new() -> (log: Self)
        ensures
            log@.default_fan_out_count == 0,
            log@.named_routes == Seq::<(Seq<char>, Seq<char>)>::empty(),
    {
        let log = HandlerRouteLog { default_fan_out_count: 0, named_routes: Vec::new() };
        assert(log@.named_routes =~= Seq::<(Seq<char>, Seq<char>)>::empty());
        log
    }

    /// Record a default fan-out routing decision (the count saturates).
    pub fn record_default_fan_out(&mut self)
        ensures
            final(self)@.default_fan_out_count == if old(self)@.default_fan_out_count < u64::MAX {
                (old(self)@.default_fan_out_count + 1) as u64
            } else {
                u64::MAX
            },
            final(self)@.named_routes == old(self)@.named_routes,
    {
        if self.default_fan_out_count < u64::MAX {
            self.default_fan_out_count = self.default_fan_out_count + 1;
        }
    }

    /// Record a named-handler routing decision: `producer` (e.g.
    /// `emit:create_post`) routed through `handler_id`.
    pub fn record_named(&mut self, producer: &str, handler_id: &str)
        ensures
            final(self)@.default_fan_out_count == old(self)@.default_fan_out_count,
            final(self)@.named_routes == old(self)@.named_routes.push((producer@, handler_id@)),
    {
        self.named_routes.push((producer.to_owned(), handler_id.to_owned()));
        assert(route_pairs(self.named_routes@) =~= old(self)@.named_routes.push(
            (producer@, handler_id@),
        ));
    }

    /// Total events routed via [`HandlerRoute::DefaultFanOut`].
    pub fn default_fan_out_count(&self) -> (n: u64)
        ensures
            n == self@.default_fan_out_count,
    {
        self.default_fan_out_count
    }

    /// Snapshot of every named-handler routing decision, in dispatch order.
    pub fn named_routes(&self) -> (routes: Vec<(String, String)>)
        ensures
            route_pairs(routes@) == self@.named_routes,
    {
        let mut out: Vec<(String, String)> = Vec::new();
        let n = self.named_routes.len();
        let mut i: usize = 0;
        while i < n
            invariant
                n == self.named_routes@.len(),
                i <= n,
                out@.len() == i,
                route_pairs(out@) == route_pairs(self.named_routes@).subrange(0, i as int),
            decreases n - i,
        {
            let p = &self.named_routes[i];
            let a = p.0.clone();
            let b = p.1.clone();
            assert(a@ == self.named_routes@[i as int].0@ && b@ == self.named_routes@[i as int].1@);
            let ghost before = out@;
            out.push((a, b));
            assert(out@ == before.push((a, b)));
            assert forall|j: int| 0 <= j < i + 1 implies #[trigger] route_pairs(out@)[j]
                == route_pairs(self.named_routes@)[j] by {
                if j < i {
                    assert(route_pairs(before)[j] == route_pairs(self.named_routes@).subrange(
                        0,
                        i as int,
                    )[j]);
                }
            }
            assert(route_pairs(out@) =~= route_pairs(self.named_routes@).subrange(0, i + 1));
            i += 1;
        }
        assert(route_pairs(self.named_routes@).subrange(0, n as int) =~= route_pairs(
            self.named_routes@,
        ));
        out
    }

    /// Reset the log to empty.
    pub fn reset(&mut self)
        ensures
            final(self)@.default_fan_out_count == 0,
            final(self)@.named_routes == Seq::<(Seq<char>, Seq<char>)>::empty(),
    {
        self.default_fan_out_count = 0;
        self.named_routes.clear();
        assert(route_pairs(self.named_routes@) =~= Seq::<(Seq<char>, Seq<char>)>::empty());
    }
}

} // verus!
