//! The dispatcher: given the current basename-stripped route and a
//! caller-supplied render function, it invokes the render function on the
//! route, falls back to a configured default pathname when the route is
//! empty, and yields the empty markup when both are empty. An unmatched path
//! is the render function's concern, not the dispatcher's.

use vstd::prelude::*;
use vstd::string::*;

verus! {

/// What a switch is configured with.
pub struct SwitchProps {
    /// The fallback pathname dispatched when the current route is empty.
    pub pathname: String,
}

/// Dispatches the current route among the caller's routes: invokes `render`
/// on `route` when it is non-empty, on the configured fallback pathname when
/// `route` is empty and the fallback is not, and renders nothing when both
/// are empty.
#[allow(non_snake_case)]
pub fn Switch<F: Fn(String) -> String>(props: &SwitchProps, route: &str, render: F) -> (r: String)
    requires
        route@.len() > 0 ==> forall|s: String| s@ == route@ ==> #[trigger] call_requires(
            render,
            (s,),
        ),
        route@.len() == 0 && props.pathname@.len() > 0 ==> forall|s: String| s@
            == props.pathname@ ==> #[trigger] call_requires(render, (s,)),
    ensures
        route@.len() > 0 ==> exists|s: String| s@ == route@ && #[trigger] call_ensures(
            render,
            (s,),
            r,
        ),
        route@.len() == 0 && props.pathname@.len() > 0 ==> exists|s: String| s@
            == props.pathname@ && #[trigger] call_ensures(render, (s,), r),
        route@.len() == 0 && props.pathname@.len() == 0 ==> r@ == Seq::<char>::empty(),
{
    if !route.is_empty() {
        let s = String::from_str(route);
        render(s)
    } else if !props.pathname.as_str().is_empty() {
        let s = props.pathname.clone();
        render(s)
    } else {
        String::new()
    }
}

} // verus!
