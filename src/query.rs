use vstd::prelude::*;

use crate::metrics::Metrics;
use crate::rate::{push_two_decimals, two_decimals, Rate};

verus! {

/// `tps`
pub open spec fn tps_verb() -> Seq<u8> {
    seq![116u8, 112u8, 115u8]
}

/// `tps10`
pub open spec fn tps10_verb() -> Seq<u8> {
    seq![116u8, 112u8, 115u8, 49u8, 48u8]
}

/// `graph`
pub open spec fn graph_verb() -> Seq<u8> {
    seq![103u8, 114u8, 97u8, 112u8, 104u8]
}

/// `unknown`
pub open spec fn unknown_tag() -> Seq<u8> {
    seq![117u8, 110u8, 107u8, 110u8, 111u8, 119u8, 110u8]
}

/// `error`
pub open spec fn error_tag() -> Seq<u8> {
    seq![101u8, 114u8, 114u8, 111u8, 114u8]
}

/// The field separator `;`.
pub const RESPONSE_SEPARATOR: u8 = 59;

/// Fields joined by the separator.
pub open spec fn joined(a: Seq<u8>, b: Seq<u8>) -> Seq<u8> {
    a + seq![RESPONSE_SEPARATOR] + b
}

#[derive(Clone, Copy, Debug, PartialEq, Eq, Structural)]
pub enum Request {
    Tps,
    Tps10,
    Graph,
    Unknown,
}

pub open spec fn request_of(text: Seq<u8>) -> Request {
    if text == tps_verb() {
        Request::Tps
    } else if text == tps10_verb() {
        Request::Tps10
    } else if text == graph_verb() {
        Request::Graph
    } else {
        Request::Unknown
    }
}

/// The current value of a window: its latest sample in hundredths, or zero
/// while the history is empty.
pub open spec fn current_hundredths(h: Seq<Rate>) -> nat {
    if h.len() == 0 {
        0
    } else {
        h.last().hundredths_spec() as nat
    }
}

/// The reply owed to `text` given the two histories, or `None` where the
/// request asks for a chart to be rendered first.
pub open spec fn answer(text: Seq<u8>, short: Seq<Rate>, long: Seq<Rate>) -> Option<Seq<u8>> {
    match request_of(text) {
        Request::Tps => Some(joined(tps_verb(), two_decimals(current_hundredths(short)))),
        Request::Tps10 => Some(joined(tps10_verb(), two_decimals(current_hundredths(long)))),
        Request::Graph => None,
        Request::Unknown => Some(joined(unknown_tag(), text)),
    }
}

/// What the responder does with one request.
#[derive(Debug, PartialEq, Eq)]
pub enum Action {
    /// Send these bytes back.
    Reply(Vec<u8>),
    /// Render a chart of both histories, then answer with [`graph_reply`].
    RenderGraph,
}

pub fn parse_request(text: &[u8]) -> (r: Request)
    ensures
        r == request_of(text@),
{
    let n = text.len();
    if n == 3 && text[0] == 116 && text[1] == 112 && text[2] == 115 {
        assert(text@ =~= tps_verb());
        Request::Tps
    } else if n == 5 && text[0] == 116 && text[1] == 112 && text[2] == 115 && text[3] == 49
        && text[4] == 48 {
        assert(text@ =~= tps10_verb());
        Request::Tps10
    } else if n == 5 && text[0] == 103 && text[1] == 114 && text[2] == 97 && text[3] == 112
        && text[4] == 104 {
        assert(text@ =~= graph_verb());
        Request::Graph
    } else {
        assert(text@ != tps_verb() && text@ != tps10_verb() && text@ != graph_verb()) by {
            if text@ == tps_verb() {
                assert(text@[0] == tps_verb()[0] && text@[1] == tps_verb()[1] && text@[2]
                    == tps_verb()[2]);
            }
            if text@ == tps10_verb() {
                assert(text@[3] == tps10_verb()[3] && text@[4] == tps10_verb()[4]);
            }
            if text@ == graph_verb() {
                assert(text@[3] == graph_verb()[3] && text@[4] == graph_verb()[4]);
            }
        }
        Request::Unknown
    }
}

fn push_all(out: &mut Vec<u8>, bytes: &[u8])
    ensures
        final(out)@ == old(out)@ + bytes@,
{
    let mut i: usize = 0;
    while i < bytes.len()
        invariant
            i <= bytes@.len(),
            out@ == old(out)@ + bytes@.subrange(0, i as int),
        decreases bytes@.len() - i,
    {
        out.push(bytes[i]);
        i = i + 1;
        assert(out@ =~= old(out)@ + bytes@.subrange(0, i as int));
    }
    assert(bytes@.subrange(0, i as int) =~= bytes@);
}

fn tag(request: Request) -> (t: Vec<u8>)
    requires
        request != Request::Graph,
    ensures
        request == Request::Tps ==> t@ == tps_verb(),
        request == Request::Tps10 ==> t@ == tps10_verb(),
        request == Request::Unknown ==> t@ == unknown_tag(),
{
    let t = match request {
        Request::Tps => vec![116u8, 112u8, 115u8],
        Request::Tps10 => vec![116u8, 112u8, 115u8, 49u8, 48u8],
        _ => vec![117u8, 110u8, 107u8, 110u8, 111u8, 119u8, 110u8],
    };
    assert(request == Request::Tps ==> t@ =~= tps_verb());
    assert(request == Request::Tps10 ==> t@ =~= tps10_verb());
    assert(request == Request::Unknown ==> t@ =~= unknown_tag());
    t
}

fn current_value(latest: Option<Rate>) -> (h: u128)
    requires
        latest matches Some(r) ==> r.wf(),
    ensures
        h == (match latest {
            Some(r) => r.hundredths_spec(),
            None => 0,
        }),
{
    match latest {
        Some(r) => r.hundredths(),
        None => 0,
    }
}

/// Decides what to do with one request against a node's history. Replies
/// depend on the request and the history alone, and the history is only read.
pub fn respond(text: &[u8], metrics: &Metrics) -> (a: Action)
    requires
        metrics.wf(),
    ensures
        match a {
            Action::Reply(v) => answer(text@, metrics.short(), metrics.long()) == Some(v@),
            Action::RenderGraph => answer(text@, metrics.short(), metrics.long()) is None,
        },
{
    let request = parse_request(text);
    if request == Request::Graph {
        return Action::RenderGraph;
    }
    let mut out = tag(request);
    out.push(RESPONSE_SEPARATOR);
    if request == Request::Unknown {
        push_all(&mut out, text);
    } else {
        let latest = if request == Request::Tps {
            metrics.latest_short()
        } else {
            metrics.latest_long()
        };
        let v = current_value(latest);
        push_two_decimals(&mut out, v);
    }
    assert(Some(out@) == answer(text@, metrics.short(), metrics.long()));
    Action::Reply(out)
}

/// The reply to `graph` once rendering is over: `graph;<artifact>` when the
/// renderer produced an artifact, `error;graph` when it failed.
pub open spec fn graph_answer(artifact: Option<Seq<u8>>) -> Seq<u8> {
    match artifact {
        Some(id) => joined(graph_verb(), id),
        None => joined(error_tag(), graph_verb()),
    }
}

pub fn graph_reply(artifact: Option<&[u8]>) -> (r: Vec<u8>)
    ensures
        r@ == graph_answer(
            match artifact {
                Some(id) => Some(id@),
                None => None,
            },
        ),
{
    let mut out: Vec<u8>;
    match artifact {
        Some(id) => {
            out = vec![103u8, 114u8, 97u8, 112u8, 104u8, RESPONSE_SEPARATOR];
            push_all(&mut out, id);
        },
        None => {
            out = vec![101u8, 114u8, 114u8, 111u8, 114u8, RESPONSE_SEPARATOR, 103u8, 114u8, 97u8, 112u8, 104u8];
        },
    }
    assert(out@ =~= graph_answer(
        match artifact {
            Some(id) => Some(id@),
            None => None,
        },
    ));
    out
}

/// Asking twice with no aggregation tick in between, that is against the same
/// histories, gets the same reply; `tps` and `tps10` always get one.
pub proof fn lemma_query_idempotent(
    text: Seq<u8>,
    short1: Seq<Rate>,
    long1: Seq<Rate>,
    short2: Seq<Rate>,
    long2: Seq<Rate>,
)
    requires
        short1 == short2,
        long1 == long2,
    ensures
        answer(text, short1, long1) == answer(text, short2, long2),
        request_of(text) == Request::Tps || request_of(text) == Request::Tps10 ==> answer(
            text,
            short1,
            long1,
        ) is Some,
{
}

/// Any text other than the three verbs is answered `unknown;<text>`,
/// whatever the histories hold.
pub proof fn lemma_unknown_verb(text: Seq<u8>, short: Seq<Rate>, long: Seq<Rate>)
    requires
        text != tps_verb(),
        text != tps10_verb(),
        text != graph_verb(),
    ensures
        answer(text, short, long) == Some(joined(unknown_tag(), text)),
{
}

} // verus!
