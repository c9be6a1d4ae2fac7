//! The HTTP routes: for each route, its method, path and body, and the
//! answer it gives to each outcome of the operation behind it.
use vstd::prelude::*;

pub mod expenses;
pub mod tags;

verus! {

/// The HTTP methods of the routes.
#[derive(Clone, Copy, Debug, PartialEq, Eq, Structural)]
pub enum Method {
    Get,
    Post,
    Put,
    Delete,
}

/// A route: its method, its path below the mount point, the parameter that
/// takes the request body, if any, and the name of its handler.
#[derive(Debug)]
pub struct Route {
    pub method: Method,
    pub uri: &'static str,
    pub data: Option<&'static str>,
    pub name: &'static str,
}

/// `r` is the route `method uri` with body `data`, handled by `name`.
pub open spec fn is_route(r: Route, method: Method, uri: Seq<char>, data: Option<Seq<char>>, name: Seq<char>) -> bool {
    &&& r.method == method
    &&& r.uri@ == uri
    &&& match r.data {
        Some(d) => data == Some(d@),
        None => data is None,
    }
    &&& r.name@ == name
}

/// What the description of a route means: its method, its path, its body
/// parameter (or none) and its handler's name are the given ones.
pub proof fn route_description_means(r: Route, method: Method, uri: Seq<char>, data: Option<Seq<char>>, name: Seq<char>)
    ensures
        is_route(r, method, uri, data, name) <==> {
            &&& r.method == method
            &&& r.uri@ == uri
            &&& (r.data is None <==> data is None)
            &&& (r.data matches Some(d) ==> data == Some(d@))
            &&& r.name@ == name
        },
{
}

} // verus!
