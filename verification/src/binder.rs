//! Device binding: the decisions that lead from a fresh start to an open
//! connection on the first output port, or to none.
//!
//! The caller performs each step against the MIDI subsystem and reports what
//! came of it as a [`BindEvent`]; [`Binding::step`] decides what follows.

use vstd::prelude::*;

verus! {

/// Name under which the MIDI client is opened.
pub const CLIENT_NAME: &'static str = "My Midi Output";

/// Name given to the connection on the chosen port.
pub const CONNECTION_NAME: &'static str = "midir connection";

/// What the MIDI subsystem answered to the step that was asked for.
#[derive(Debug, PartialEq, Eq)]
pub enum BindEvent<C> {
    /// The client was opened.
    ClientOpened,
    /// The output ports were enumerated, and there are `count` of them.
    PortsListed { count: usize },
    /// The connection to the port asked for is open.
    Connected(C),
    /// The step failed.
    Failed,
}

/// Where the binding stands: the step to perform next, or how it ended.
#[derive(Debug, PartialEq, Eq)]
pub enum Binding<C> {
    /// Open a client under the name `name`.
    OpenClient { name: &'static str },
    /// Enumerate the output ports.
    ListPorts,
    /// Connect to the port at index `port` of the enumeration, and call the
    /// connection `name`.
    Connect { port: usize, name: &'static str },
    /// Ended with this connection.
    Bound(C),
    /// Ended without a connection.
    Unbound,
}

impl<C> Binding<C> {
    /// Whether the binding has ended, with or without a connection.
    pub open spec fn settled(self) -> bool {
        self is Bound || self is Unbound
    }

    /// The state in which every binding begins: the client is to be opened
    /// under [`CLIENT_NAME`].
    pub open spec fn fresh() -> Binding<C> {
        Binding::OpenClient { name: CLIENT_NAME }
    }

    /// The state that follows `self` once `event` is reported.
    ///
    /// Each step goes on only with the answer that it asked for; any other
    /// report ends the binding without a connection. Where ports were
    /// listed, the connection is asked for on the first of them, under
    /// [`CONNECTION_NAME`]. A binding that has ended stays as it is.
    pub open spec fn after(self, event: BindEvent<C>) -> Binding<C> {
        match (self, event) {
            (Binding::Bound(_), _) => self,
            (Binding::OpenClient { .. }, BindEvent::ClientOpened) => Binding::ListPorts,
            (Binding::ListPorts, BindEvent::PortsListed { count }) if count > 0 => Binding::Connect {
                port: 0,
                name: CONNECTION_NAME,
            },
            (Binding::Connect { .. }, BindEvent::Connected(connection)) => Binding::Bound(
                connection,
            ),
            _ => Binding::Unbound,
        }
    }

    /// The state reached from `self` when `events` are reported in order.
    pub open spec fn after_all(self, events: Seq<BindEvent<C>>) -> Binding<C>
        decreases events.len(),
    {
        if events.len() == 0 {
            self
        } else {
            self.after(events[0]).after_all(events.drop_first())
        }
    }

    /// The connection that the binding holds, if it ended with one.
    pub open spec fn bound_connection(self) -> Option<C> {
        match self {
            Binding::Bound(connection) => Some(connection),
            _ => None,
        }
    }

    /// The state in which every binding begins.
    pub fn start() -> (binding: Self)
        ensures
            binding == Binding::<C>::fresh(),
    {
        Binding::OpenClient { name: CLIENT_NAME }
    }

    /// Takes the report of the step that was asked for and decides what
    /// follows.
    pub fn step(self, event: BindEvent<C>) -> (next: Self)
        ensures
            next == self.after(event),
    {
        match self {
            Binding::OpenClient { name: _ } => match event {
                BindEvent::ClientOpened => Binding::ListPorts,
                _ => Binding::Unbound,
            },
            Binding::ListPorts => match event {
                BindEvent::PortsListed { count } => {
                    if count > 0 {
                        Binding::Connect { port: 0, name: CONNECTION_NAME }
                    } else {
                        Binding::Unbound
                    }
                },
                _ => Binding::Unbound,
            },
            Binding::Connect { port: _, name: _ } => match event {
                BindEvent::Connected(connection) => Binding::Bound(connection),
                _ => Binding::Unbound,
            },
            Binding::Bound(connection) => Binding::Bound(connection),
            Binding::Unbound => Binding::Unbound,
        }
    }

    /// Whether the binding has ended.
    pub fn is_settled(&self) -> (settled: bool)
        ensures
            settled == self.settled(),
    {
        match self {
            Binding::Bound(_) => true,
            Binding::Unbound => true,
            _ => false,
        }
    }

    /// Hands out the connection of a binding that ended with one.
    pub fn into_connection(self) -> (connection: Option<C>)
        ensures
            connection == self.bound_connection(),
    {
        match self {
            Binding::Bound(connection) => Some(connection),
            _ => None,
        }
    }
}

/// A binding that has ended is not changed by anything reported later.
pub proof fn lemma_settled_binding_stays<C>(binding: Binding<C>, events: Seq<BindEvent<C>>)
    requires
        binding.settled(),
    ensures
        binding.after_all(events) == binding,
    decreases events.len(),
{
    if events.len() > 0 {
        lemma_settled_binding_stays(binding, events.drop_first());
    }
}

/// Only the first three reports count: a binding that was begun afresh
/// stands where the first three of `events`, or all of them if they are
/// fewer, have led it.
pub proof fn lemma_first_three_reports_decide<C>(events: Seq<BindEvent<C>>)
    ensures
        Binding::<C>::fresh().after_all(events) == (if events.len() == 0 {
            Binding::<C>::fresh()
        } else if events.len() == 1 {
            Binding::<C>::fresh().after(events[0])
        } else if events.len() == 2 {
            Binding::<C>::fresh().after(events[0]).after(events[1])
        } else {
            Binding::<C>::fresh().after(events[0]).after(events[1]).after(events[2])
        }),
{
    let start = Binding::<C>::fresh();
    if events.len() >= 1 {
        let first = start.after(events[0]);
        let tail1 = events.drop_first();
        assert(start.after_all(events) == first.after_all(tail1));
        if events.len() >= 2 {
            let second = first.after(tail1[0]);
            let tail2 = tail1.drop_first();
            assert(first.after_all(tail1) == second.after_all(tail2));
            if events.len() >= 3 {
                let third = second.after(tail2[0]);
                let tail3 = tail2.drop_first();
                assert(second.after_all(tail2) == third.after_all(tail3));
                lemma_settled_binding_stays(third, tail3);
            }
        }
    }
}

/// Three reports end every binding.
pub proof fn lemma_three_reports_settle<C>(events: Seq<BindEvent<C>>)
    requires
        events.len() >= 3,
    ensures
        Binding::<C>::fresh().after_all(events).settled(),
{
    lemma_first_three_reports_decide(events);
}

/// A binding ends with a connection exactly when the client was opened, at
/// least one port was listed and the connection was made; the connection it
/// then holds is the one that was reported.
pub proof fn lemma_bound_exactly_when_all_steps_succeed<C>(
    events: Seq<BindEvent<C>>,
    connection: C,
)
    ensures
        Binding::<C>::fresh().after_all(events) == Binding::Bound(connection) <==> ({
            &&& events.len() >= 3
            &&& events[0] is ClientOpened
            &&& events[1] matches BindEvent::PortsListed { count }
            &&& count > 0
            &&& events[2] == BindEvent::Connected(connection)
        }),
{
    lemma_first_three_reports_decide(events);
}

/// A failure of any step ends the binding without a connection, whatever
/// is reported before or after it.
pub proof fn lemma_failure_ends_unbound<C>(events: Seq<BindEvent<C>>, step: int)
    requires
        0 <= step < 3,
        step < events.len(),
        events[step] is Failed,
    ensures
        Binding::<C>::fresh().after_all(events) == Binding::<C>::Unbound,
{
    lemma_first_three_reports_decide(events);
}

/// Where no output port is listed, the binding ends without a connection,
/// whatever else is reported.
pub proof fn lemma_no_port_no_connection<C>(events: Seq<BindEvent<C>>)
    requires
        events.len() >= 2,
        events[1] == (BindEvent::<C>::PortsListed { count: 0 }),
    ensures
        Binding::<C>::fresh().after_all(events) == Binding::<C>::Unbound,
{
    lemma_first_three_reports_decide(events);
}

/// A connection is asked for only right after an enumeration that listed at
/// least one port, and always on the first port listed.
pub proof fn lemma_connects_to_first_port<C>(
    events: Seq<BindEvent<C>>,
    port: usize,
    name: &'static str,
)
    ensures
        Binding::<C>::fresh().after_all(events) == (Binding::<C>::Connect { port, name }) <==> ({
            &&& port == 0
            &&& name == CONNECTION_NAME
            &&& events.len() == 2
            &&& events[0] is ClientOpened
            &&& events[1] matches BindEvent::PortsListed { count }
            &&& port < count
        }),
{
    lemma_first_three_reports_decide(events);
}

} // verus!
