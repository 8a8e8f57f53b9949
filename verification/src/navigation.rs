//! Route navigation: a stack of routes, a record of which route-type
//! transitions have been registered, and the current route selection.

use vstd::prelude::*;

verus! {

/// How a route is presented when navigated to.
#[derive(Clone, Copy, Debug, Hash, PartialEq, Eq, Structural)]
pub enum RouteType {
    Push,
    Modal,
    Root,
}

/// A named destination with presentation type and parameters.
#[derive(Clone)]
pub struct Route {
    pub name: String,
    pub route_type: RouteType,
    pub params: Vec<(String, String)>,
}

impl Route {
    /// A push-presented route with the given name and no parameters.
    pub fn new(name: String) -> (r: Route)
        ensures
            r.name == name,
            r.route_type == RouteType::Push,
            r.params@ == Seq::<(String, String)>::empty(),
    {
        Route { name, route_type: RouteType::Push, params: Vec::new() }
    }
}

/// An animated transition between two routes. Registered transitions are
/// remembered by their route-type pair; the lookup falls back to the default
/// (do-nothing) transition, so only the pair itself is observable.
pub trait Transition {
    fn begin(&self);

    fn end(&self);
}

/// The do-nothing transition used whenever no specific one applies.
struct DefaultTransition;

impl Transition for DefaultTransition {
    fn begin(&self) {
    }

    fn end(&self) {
    }
}

/// The navigator: a route stack, the registered transition pairs, and the
/// current route selection.
pub struct Navigator {
    pub route_stack: Vec<Route>,
    pub transitions: Vec<(RouteType, RouteType)>,
    pub current_route: Option<RouteType>,
}

impl Navigator {
    /// An empty navigator: no routes, no transitions, nothing selected.
    pub fn new() -> (r: Navigator)
        ensures
            r.route_stack@ == Seq::<Route>::empty(),
            r.transitions@ == Seq::<(RouteType, RouteType)>::empty(),
            r.current_route is None,
    {
        Navigator { route_stack: Vec::new(), transitions: Vec::new(), current_route: None }
    }

    /// Registers that a transition exists for navigating from `from` to `to`.
    pub fn register_transition<T: Transition>(&mut self, from: RouteType, to: RouteType, _transition: T)
        ensures
            final(self).transitions@ == old(self).transitions@.push((from, to)),
            final(self).route_stack == old(self).route_stack,
            final(self).current_route == old(self).current_route,
    {
        self.transitions.push((from, to));
    }

    /// The transition to play between the given route types; always the
    /// default one.
    fn get_transition(&self, _from: Option<&RouteType>, _to: Option<&RouteType>) -> DefaultTransition {
        DefaultTransition
    }

    /// Pushes a route onto the stack.
    pub fn push(&mut self, route: Route)
        ensures
            final(self).route_stack@ == old(self).route_stack@.push(route),
            final(self).transitions == old(self).transitions,
            final(self).current_route == old(self).current_route,
    {
        let transition = self.get_transition(None, Some(&route.route_type));
        transition.begin();
        self.route_stack.push(route);
    }

    /// Pops and returns the topmost route; `None` when the stack is empty.
    pub fn pop(&mut self) -> (r: Option<Route>)
        ensures
            old(self).route_stack@.len() == 0 ==> r is None && final(self).route_stack@ == old(
                self,
            ).route_stack@,
            old(self).route_stack@.len() > 0 ==> {
                &&& r == Some(old(self).route_stack@.last())
                &&& final(self).route_stack@ == old(self).route_stack@.drop_last()
            },
            final(self).transitions == old(self).transitions,
            final(self).current_route == old(self).current_route,
    {
        let transition = self.get_transition(None, None);
        transition.begin();
        self.route_stack.pop()
    }

    /// Records the destination route type as the current one.
    pub fn navigate(&mut self, to: RouteType)
        ensures
            final(self).current_route == Some(to),
            final(self).route_stack == old(self).route_stack,
            final(self).transitions == old(self).transitions,
    {
        self.current_route = Some(to);
    }
}

} // verus!
