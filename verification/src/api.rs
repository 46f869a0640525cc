use vstd::prelude::*;
use vstd::string::StringExecFns;

verus! {

/// The readiness verdict of the out-of-band HTTP endpoint.
pub enum Readyz {
    Ready,
    NotReady,
}

/// The JSON body the readiness endpoint serves.
pub open spec fn spec_readyz_body(ready: bool) -> Seq<char> {
    if ready {
        "{\"status\":\"ok\"}"@
    } else {
        "{\"status\":\"not ready\"}"@
    }
}

impl Readyz {
    /// The HTTP status code and JSON body to serve: 200 when ready, 503
    /// otherwise.
    pub fn into_response(self) -> (r: (u16, String))
        ensures
            self matches Readyz::Ready ==> r.0 == 200 && r.1@ == spec_readyz_body(true),
            self matches Readyz::NotReady ==> r.0 == 503 && r.1@ == spec_readyz_body(false),
    {
        match self {
            Readyz::Ready => (200, String::from_str("{\"status\":\"ok\"}")),
            Readyz::NotReady => (503, String::from_str("{\"status\":\"not ready\"}")),
        }
    }
}

/// Decides the readiness verdict from the composer's current status flag.
pub fn readyz(composer_is_ready: bool) -> (r: Readyz)
    ensures
        composer_is_ready ==> r is Ready,
        !composer_is_ready ==> r is NotReady,
{
    if composer_is_ready {
        Readyz::Ready
    } else {
        Readyz::NotReady
    }
}

} // verus!
