//! Questions to the control plane.
use vstd::prelude::*;
use vstd::string::*;

use crate::text::{chars_of, glue, text_of};

verus! {

/// What the control plane is asked for.
#[derive(Debug, Clone, Copy, PartialEq, Eq, Structural)]
pub enum ClusterQuery {
    Status,
    Nodes,
    Metrics,
}

impl ClusterQuery {
    /// Where the answer is.
    pub open spec fn path(self) -> Seq<char> {
        match self {
            ClusterQuery::Status => "/v1/mesh/health"@,
            ClusterQuery::Nodes => "/v1/nodes"@,
            ClusterQuery::Metrics => "/metrics"@,
        }
    }
}

/// A text without the slashes at its end.
pub open spec fn without_slashes(s: Seq<char>) -> Seq<char>
    decreases s.len(),
{
    if s.len() > 0 && s.last() == '/' {
        without_slashes(s.drop_last())
    } else {
        s
    }
}

fn strip_slashes(s: &str) -> (r: String)
    ensures
        r@ == without_slashes(s@),
{
    let v = chars_of(s);
    let mut n: usize = v.len();
    assert(s@.take(n as int) =~= s@);
    while n > 0 && v[n - 1] == '/'
        invariant
            n <= v@.len(),
            v@ == s@,
            without_slashes(s@.take(n as int)) == without_slashes(s@),
        decreases n,
    {
        assert(s@.take(n as int).drop_last() =~= s@.take(n - 1));
        n -= 1;
    }
    assert(without_slashes(s@.take(n as int)) == s@.take(n as int));
    assert(s@.subrange(0, n as int) =~= s@.take(n as int));
    text_of(&v, 0, n)
}

/// The address that is asked.
pub fn run(query: ClusterQuery, endpoint: &str) -> (url: String)
    ensures
        url@ == without_slashes(endpoint@) + query.path(),
{
    let base = strip_slashes(endpoint);
    let path = match query {
        ClusterQuery::Status => "/v1/mesh/health",
        ClusterQuery::Nodes => "/v1/nodes",
        ClusterQuery::Metrics => "/metrics",
    };
    glue(base.as_str(), path)
}

/// The answer as it is printed: it ends with its line.
pub fn answer(body: &str) -> (s: String)
    ensures
        s@ == if body@.len() > 0 && body@.last() == '\n' {
            body@
        } else {
            body@.push('\n')
        },
{
    let v = chars_of(body);
    let mut s = body.to_owned();
    let n: usize = v.len();
    if !(n > 0 && v[n - 1] == '\n') {
        s.push('\n');
    }
    s
}

} // verus!
