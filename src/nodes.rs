use vstd::prelude::*;

use crate::config::METRICS_HISTORY;
use crate::events::Events;
use crate::metrics::Metrics;
use crate::parse::{lines, parse_port, port_of, split, split_str, strip_cr, lemma_split_nonempty};

verus! {

/// The fields of one node-list line `name:address:port`, if it is one.
pub open spec fn node_fields(line: Seq<char>) -> Option<(Seq<char>, Seq<char>, u16)> {
    let f = split(line, ':');
    if f.len() == 3 && port_of(f[2]) is Some {
        Some((f[0], f[1], port_of(f[2])->0))
    } else {
        None
    }
}

/// The name field of a line: what precedes its first colon.
pub open spec fn line_name(line: Seq<char>) -> Seq<char> {
    split(line, ':')[0]
}

/// Line `i` of `ls` describes a node whose name no earlier line uses.
pub open spec fn line_ok(ls: Seq<Seq<char>>, i: int) -> bool {
    &&& node_fields(ls[i]) is Some
    &&& forall|j: int| 0 <= j < i ==> line_name(#[trigger] ls[j]) != line_name(ls[i])
}

/// A monitored endpoint as configured.
#[derive(Debug)]
pub struct Node {
    pub name: String,
    pub ip_address: String,
    pub port: u16,
}

impl Node {
    pub open spec fn describes(&self, f: (Seq<char>, Seq<char>, u16)) -> bool {
        self.name@ == f.0 && self.ip_address@ == f.1 && self.port == f.2
    }
}

/// The configured endpoints, in the order of the list.
#[derive(Debug)]
pub struct Nodes {
    pub nodes: Vec<Node>,
}

#[derive(Clone, Copy, Debug, PartialEq, Eq, Structural)]
pub enum NodeListError {
    /// The list names no node.
    Empty,
    /// Line `line` (counted from zero) is not `name:address:port` with a
    /// decimal port below 65536.
    Malformed { line: usize },
    /// Line `line` (counted from zero) repeats the name of an earlier line.
    DuplicateName { line: usize },
}

/// Every line before `k` is a node with a fresh name.
pub open spec fn all_ok_before(ls: Seq<Seq<char>>, k: int) -> bool {
    forall|i: int| 0 <= i < k ==> line_ok(ls, i)
}

/// What parsing the node list `text` yields.
pub open spec fn node_list_result(text: Seq<char>, r: Result<Nodes, NodeListError>) -> bool {
    let ls = lines(text);
    match r {
        Ok(nodes) => {
            &&& ls.len() >= 1
            &&& all_ok_before(ls, ls.len() as int)
            &&& nodes.nodes@.len() == ls.len()
            &&& forall|i: int|
                0 <= i < ls.len() ==> (#[trigger] nodes.nodes@[i]).describes(
                    node_fields(ls[i])->0,
                )
        },
        Err(NodeListError::Empty) => ls.len() == 0,
        Err(NodeListError::Malformed { line }) => {
            &&& line < ls.len()
            &&& all_ok_before(ls, line as int)
            &&& node_fields(ls[line as int]) is None
        },
        Err(NodeListError::DuplicateName { line }) => {
            &&& line < ls.len()
            &&& all_ok_before(ls, line as int)
            &&& node_fields(ls[line as int]) is Some
            &&& exists|j: int|
                0 <= j < line && line_name(#[trigger] ls[j]) == line_name(ls[line as int])
        },
    }
}

fn strip_cr_str(s: &str) -> (r: &str)
    ensures
        r@ == strip_cr(s@),
{
    let n = s.unicode_len();
    if n > 0 && s.get_char(n - 1) == '\r' {
        let r = s.substring_char(0, n - 1);
        assert(r@ =~= s@.drop_last());
        r
    } else {
        s
    }
}

impl Nodes {
    /// Parses a node list, one `name:address:port` per line. The first line
    /// that is not a node, or that repeats an earlier name, is reported.
    pub fn from_text(text: &str) -> (r: Result<Nodes, NodeListError>)
        ensures
            node_list_result(text@, r),
    {
        let raw = split_str(text, '\n');
        let ghost p = split(text@, '\n');
        proof {
            lemma_split_nonempty(text@, '\n');
        }
        let mut count = raw.len();
        if raw[count - 1].as_str().unicode_len() == 0 {
            count = count - 1;
        }
        let ghost q = if p.last().len() == 0 {
            p.drop_last()
        } else {
            p
        };
        let ghost ls = lines(text@);
        assert(ls.len() == count);
        if count == 0 {
            return Err(NodeListError::Empty);
        }
        let mut nodes: Vec<Node> = Vec::new();
        let mut i: usize = 0;
        while i < count
            invariant
                ls == lines(text@),
                count == ls.len(),
                count <= raw@.len(),
                raw@.len() == p.len(),
                forall|k: int| 0 <= k < raw@.len() ==> #[trigger] raw@[k]@ == p[k],
                forall|k: int| 0 <= k < count ==> #[trigger] ls[k] == strip_cr(p[k]),
                i <= count,
                nodes@.len() == i,
                all_ok_before(ls, i as int),
                forall|k: int| 0 <= k < i ==> (#[trigger] nodes@[k]).describes(node_fields(ls[k])->0),
            decreases count - i,
        {
            let line = strip_cr_str(raw[i].as_str());
            assert(line@ == ls[i as int]);
            let fields = split_str(line, ':');
            if fields.len() != 3 {
                return Err(NodeListError::Malformed { line: i });
            }
            let port = match parse_port(fields[2].as_str()) {
                Some(port) => port,
                None => {
                    return Err(NodeListError::Malformed { line: i });
                },
            };
            assert(node_fields(ls[i as int]) is Some);
            let mut j: usize = 0;
            while j < i
                invariant
                    j <= i,
                    i < count,
                    count == ls.len(),
                    ls == lines(text@),
                    node_fields(ls[i as int]) is Some,
                    nodes@.len() == i,
                    fields@.len() == 3,
                    fields@[0]@ == line_name(ls[i as int]),
                    forall|k: int| 0 <= k < i ==> (#[trigger] nodes@[k]).describes(node_fields(ls[k])->0),
                    all_ok_before(ls, i as int),
                    forall|k: int| 0 <= k < j ==> line_name(#[trigger] ls[k]) != line_name(ls[i as int]),
                decreases i - j,
            {
                assert(line_ok(ls, j as int));
                if nodes[j].name == fields[0] {
                    assert(line_name(ls[j as int]) == line_name(ls[i as int]));
                    assert(exists|k: int|
                        0 <= k < i && line_name(#[trigger] ls[k]) == line_name(ls[i as int]));
                    return Err(NodeListError::DuplicateName { line: i });
                }
                j = j + 1;
            }
            let node = Node {
                name: fields[0].clone(),
                ip_address: fields[1].clone(),
                port,
            };
            nodes.push(node);
            assert(line_ok(ls, i as int));
            i = i + 1;
        }
        Ok(Nodes { nodes })
    }
}

/// A monitored node with its arrival store and rate history.
pub struct IctNode {
    pub name: String,
    pub address: String,
    pub port: u16,
    pub events: Events,
    pub metrics: Metrics,
}

impl IctNode {
    /// Freshly created: nothing recorded, no sample computed yet.
    pub open spec fn is_fresh(&self) -> bool {
        &&& self.events.wf()
        &&& self.events.short().len() == 0
        &&& self.events.long().len() == 0
        &&& self.metrics.wf()
        &&& self.metrics.cap() == METRICS_HISTORY
        &&& self.metrics.short().len() == 0
        &&& self.metrics.long().len() == 0
    }

    pub fn new(name: String, address: String, port: u16) -> (n: Self)
        ensures
            n.is_fresh(),
            n.name == name,
            n.address == address,
            n.port == port,
    {
        IctNode { name, address, port, events: Events::new(), metrics: Metrics::new() }
    }
}

/// The registry for one node given by its three values.
pub fn create_nodes_from_cli(name: &str, address: &str, port: u16) -> (r: Vec<IctNode>)
    ensures
        r@.len() == 1,
        r@[0].is_fresh(),
        r@[0].name@ == name@,
        r@[0].address@ == address@,
        r@[0].port == port,
{
    let mut nodes: Vec<IctNode> = Vec::new();
    nodes.push(IctNode::new(name.to_owned(), address.to_owned(), port));
    nodes
}

/// The registry for a parsed node list: one fresh node per entry, in order.
pub fn create_nodes_from_list(list: &Nodes) -> (r: Vec<IctNode>)
    ensures
        r@.len() == list.nodes@.len(),
        forall|i: int|
            0 <= i < r@.len() ==> {
                &&& (#[trigger] r@[i]).is_fresh()
                &&& r@[i].name == list.nodes@[i].name
                &&& r@[i].address == list.nodes@[i].ip_address
                &&& r@[i].port == list.nodes@[i].port
            },
{
    let mut nodes: Vec<IctNode> = Vec::new();
    let mut i: usize = 0;
    while i < list.nodes.len()
        invariant
            i <= list.nodes@.len(),
            nodes@.len() == i,
            forall|k: int|
                0 <= k < i ==> {
                    &&& (#[trigger] nodes@[k]).is_fresh()
                    &&& nodes@[k].name == list.nodes@[k].name
                    &&& nodes@[k].address == list.nodes@[k].ip_address
                    &&& nodes@[k].port == list.nodes@[k].port
                },
        decreases list.nodes@.len() - i,
    {
        let n = &list.nodes[i];
        nodes.push(IctNode::new(n.name.clone(), n.ip_address.clone(), n.port));
        i = i + 1;
    }
    nodes
}

/// One poll step over the whole registry at `now`: every node reported
/// ready records one arrival in its own store, and no other node, store or
/// history changes. An arrival earlier than one its node already holds is
/// refused.
pub fn record_arrivals(nodes: &mut Vec<IctNode>, ready: &[bool], now: u64)
    requires
        old(nodes)@.len() == ready@.len(),
        forall|i: int| 0 <= i < old(nodes)@.len() ==> (#[trigger] old(nodes)@[i]).events.wf(),
    ensures
        final(nodes)@.len() == old(nodes)@.len(),
        forall|i: int|
            0 <= i < final(nodes)@.len() ==> {
                let (a, b) = (#[trigger] old(nodes)@[i], final(nodes)@[i]);
                &&& b.name == a.name
                &&& b.address == a.address
                &&& b.port == a.port
                &&& b.metrics == a.metrics
                &&& b.events.wf()
                &&& if ready@[i] && a.events.accepts(now) {
                    &&& b.events.short() == a.events.short().push(now)
                    &&& b.events.long() == a.events.long().push(now)
                } else {
                    b.events == a.events
                }
            },
{
    let mut i: usize = 0;
    while i < ready.len()
        invariant
            i <= ready@.len(),
            nodes@.len() == old(nodes)@.len(),
            old(nodes)@.len() == ready@.len(),
            forall|k: int| i <= k < nodes@.len() ==> #[trigger] nodes@[k] == old(nodes)@[k],
            forall|k: int| 0 <= k < old(nodes)@.len() ==> (#[trigger] old(nodes)@[k]).events.wf(),
            forall|k: int|
                0 <= k < i ==> {
                    let (a, b) = (#[trigger] old(nodes)@[k], nodes@[k]);
                    &&& b.name == a.name
                    &&& b.address == a.address
                    &&& b.port == a.port
                    &&& b.metrics == a.metrics
                    &&& b.events.wf()
                    &&& if ready@[k] && a.events.accepts(now) {
                        &&& b.events.short() == a.events.short().push(now)
                        &&& b.events.long() == a.events.long().push(now)
                    } else {
                        b.events == a.events
                    }
                },
        decreases ready@.len() - i,
    {
        if ready[i] {
            nodes[i].events.record_arrival(now);
        }
        i = i + 1;
    }
}

} // verus!
