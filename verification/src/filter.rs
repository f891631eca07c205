//! The pure, stateless connection filter.
//!
//! A caller narrows an enumerated list by a protocol selector and an
//! optional port.  The selector is one of `"tcp"`, `"udp"` and `"all"`;
//! any other selector matches nothing, by design.  Port matching is
//! decimal-string-prefix matching, not numeric equality: a connection
//! passes when the decimal text of its local or remote port starts with
//! the decimal text of the filter port, so a filter port of `8` admits
//! ports 8, 80 and 8080 but not 18.  The output preserves the input
//! order and modifies no field.

use vstd::prelude::*;
use crate::models::{ConnectionInfo, ConnectionRec, Protocol, conns_view};
use crate::text::{dec_str, prefix_of, dec_chars_u32, starts_with_chars, chars_of, chars_eq_str};

verus! {

/// Whether a connection passes the protocol selector: `"tcp"` and
/// `"udp"` select their protocol, `"all"` selects both, and any other
/// selector matches nothing.
pub open spec fn protocol_matches(c: ConnectionRec, selector: Seq<char>) -> bool {
    if selector == "tcp"@ {
        c.protocol is TCP
    } else if selector == "udp"@ {
        c.protocol is UDP
    } else if selector == "all"@ {
        true
    } else {
        false
    }
}

/// Whether a connection passes the port filter: with no port every
/// connection passes; with a port, the decimal text of the local or
/// the remote port must start with the decimal text of the filter port.
pub open spec fn port_matches(c: ConnectionRec, filter_port: Option<u16>) -> bool {
    match filter_port {
        Some(p) => prefix_of(dec_str(p as nat), dec_str(c.local_port as nat)) || prefix_of(
            dec_str(p as nat),
            dec_str(c.remote_port as nat),
        ),
        None => true,
    }
}

/// Whether a connection passes both halves of the filter.
pub open spec fn conn_matches(c: ConnectionRec, selector: Seq<char>, filter_port: Option<
    u16,
>) -> bool {
    protocol_matches(c, selector) && port_matches(c, filter_port)
}

/// The filter predicate as a function value, shared by the filter's
/// contract and the laws proved about it.
pub open spec fn conn_pred(selector: Seq<char>, filter_port: Option<u16>) -> spec_fn(
    ConnectionRec,
) -> bool {
    |c: ConnectionRec| conn_matches(c, selector, filter_port)
}

/// What filtering yields: the matching connections, in input order.
pub open spec fn spec_filter(
    s: Seq<ConnectionRec>,
    selector: Seq<char>,
    filter_port: Option<u16>,
) -> Seq<ConnectionRec> {
    s.filter(conn_pred(selector, filter_port))
}

proof fn lemma_selectors_distinct()
    ensures
        "tcp"@ != "udp"@,
        "tcp"@ != "all"@,
        "udp"@ != "all"@,
{
    reveal_strlit("tcp");
    reveal_strlit("udp");
    reveal_strlit("all");
    assert("tcp"@[0] == 't');
    assert("udp"@[0] == 'u');
    assert("all"@[0] == 'a');
}

proof fn lemma_filter_push<A>(s: Seq<A>, x: A, pred: spec_fn(A) -> bool)
    ensures
        s.push(x).filter(pred) == (if pred(x) {
            s.filter(pred).push(x)
        } else {
            s.filter(pred)
        }),
{
    reveal(Seq::filter);
    assert(s.push(x).drop_last() =~= s);
    assert(s.push(x).last() == x);
}

proof fn lemma_filter_pointwise_true<A>(s: Seq<A>, pred: spec_fn(A) -> bool)
    requires
        forall|i: int| 0 <= i < s.len() ==> pred(#[trigger] s[i]),
    ensures
        s.filter(pred) == s,
    decreases s.len(),
{
    reveal(Seq::filter);
    if s.len() > 0 {
        lemma_filter_pointwise_true(s.drop_last(), pred);
        assert(pred(s.last()));
        assert(s.drop_last().push(s.last()) =~= s);
    }
}

proof fn lemma_filter_pointwise_false<A>(s: Seq<A>, pred: spec_fn(A) -> bool)
    requires
        forall|i: int| 0 <= i < s.len() ==> !pred(#[trigger] s[i]),
    ensures
        s.filter(pred) == Seq::<A>::empty(),
    decreases s.len(),
{
    reveal(Seq::filter);
    if s.len() > 0 {
        lemma_filter_pointwise_false(s.drop_last(), pred);
        assert(!pred(s.last()));
    }
}

proof fn lemma_filter_contains_iff<A>(s: Seq<A>, pred: spec_fn(A) -> bool, x: A)
    ensures
        s.filter(pred).contains(x) <==> (s.contains(x) && pred(x)),
{
    if s.contains(x) && pred(x) {
        let i = choose|i: int| 0 <= i < s.len() && s[i] == x;
        s.lemma_filter_contains(pred, i);
    }
    if s.filter(pred).contains(x) {
        s.lemma_filter_contains_rev(pred, x);
        let j = choose|j: int| 0 <= j < s.filter(pred).len() && s.filter(pred)[j] == x;
        s.lemma_filter_pred(pred, j);
    }
}

/// Keeps the connections that pass the protocol selector and the port
/// filter, in input order, each field unchanged.
pub fn filter_connections(connections: &Vec<ConnectionInfo>, protocol: &str, filter_port: Option<
    u16,
>) -> (r: Vec<ConnectionInfo>)
    ensures
        conns_view(r@) == spec_filter(conns_view(connections@), protocol@, filter_port),
{
    let pv = chars_of(protocol);
    let is_tcp = chars_eq_str(&pv, "tcp");
    let is_udp = chars_eq_str(&pv, "udp");
    let is_all = chars_eq_str(&pv, "all");
    let filter_digits: Option<Vec<char>> = match filter_port {
        Some(p) => Some(dec_chars_u32(p as u32)),
        None => None,
    };
    let mut r: Vec<ConnectionInfo> = Vec::new();
    let mut i: usize = 0;
    proof {
        assert(conns_view(connections@.take(0)) =~= Seq::<ConnectionRec>::empty());
        assert(Seq::<ConnectionRec>::empty().filter(conn_pred(protocol@, filter_port))
            =~= Seq::<ConnectionRec>::empty()) by {
            reveal(Seq::filter);
        }
        assert(conns_view(r@) =~= Seq::<ConnectionRec>::empty());
    }
    while i < connections.len()
        invariant
            i <= connections@.len(),
            is_tcp == (protocol@ == "tcp"@),
            is_udp == (protocol@ == "udp"@),
            is_all == (protocol@ == "all"@),
            filter_digits matches Some(d) ==> filter_port matches Some(p) && d@ == dec_str(
                p as nat,
            ),
            filter_digits is None <==> filter_port is None,
            conns_view(r@) == spec_filter(
                conns_view(connections@.take(i as int)),
                protocol@,
                filter_port,
            ),
        decreases connections@.len() - i,
    {
        let c = &connections[i];
        let protocol_match = if is_tcp {
            c.protocol == Protocol::TCP
        } else if is_udp {
            c.protocol == Protocol::UDP
        } else {
            is_all
        };
        let port_match = match &filter_digits {
            Some(d) => {
                let local = dec_chars_u32(c.local_port as u32);
                let remote = dec_chars_u32(c.remote_port as u32);
                starts_with_chars(&local, d) || starts_with_chars(&remote, d)
            },
            None => true,
        };
        proof {
            assert((protocol_match && port_match) == conn_pred(protocol@, filter_port)(
                connections@[i as int]@,
            ));
        }
        if protocol_match && port_match {
            r.push(c.clone());
        }
        proof {
            let prev = conns_view(connections@.take(i as int));
            lemma_filter_push(prev, connections@[i as int]@, conn_pred(protocol@, filter_port));
            assert(conns_view(connections@.take(i + 1)) =~= prev.push(connections@[i as int]@));
            if protocol_match && port_match {
                assert(conns_view(r@) =~= spec_filter(
                    conns_view(connections@.take(i as int)),
                    protocol@,
                    filter_port,
                ).push(connections@[i as int]@));
            }
        }
        i = i + 1;
    }
    proof {
        assert(connections@.take(connections@.len() as int) =~= connections@);
    }
    r
}

/// Filtering with the selector `"all"` and no port returns every
/// connection unchanged, in order: the filter is the identity when
/// nothing is filtered.
pub proof fn lemma_filter_all_identity(cs: Seq<ConnectionRec>)
    ensures
        spec_filter(cs, "all"@, None) == cs,
{
    lemma_selectors_distinct();
    lemma_filter_pointwise_true(cs, conn_pred("all"@, None));
}

/// An unrecognized protocol selector fails closed: whatever the
/// connections and the port, the filtered list is empty.
pub proof fn lemma_unrecognized_selector_empty(
    cs: Seq<ConnectionRec>,
    selector: Seq<char>,
    filter_port: Option<u16>,
)
    requires
        selector != "tcp"@,
        selector != "udp"@,
        selector != "all"@,
    ensures
        spec_filter(cs, selector, filter_port) == Seq::<ConnectionRec>::empty(),
{
    lemma_filter_pointwise_false(cs, conn_pred(selector, filter_port));
}

/// The port-prefix law: filtering under `"all"` with a port keeps a
/// connection exactly when the list holds it and the decimal text of
/// its local or remote port starts with the decimal text of the filter
/// port.
pub proof fn lemma_port_prefix_law(cs: Seq<ConnectionRec>, c: ConnectionRec, p: u16)
    ensures
        spec_filter(cs, "all"@, Some(p)).contains(c) <==> (cs.contains(c) && (prefix_of(
            dec_str(p as nat),
            dec_str(c.local_port as nat),
        ) || prefix_of(dec_str(p as nat), dec_str(c.remote_port as nat)))),
{
    lemma_selectors_distinct();
    lemma_filter_contains_iff(cs, conn_pred("all"@, Some(p)), c);
}

/// The protocol partition law: under no port filter, the `"tcp"` and
/// `"udp"` selections together hold exactly the connections of the
/// `"all"` selection, and no connection lies in both.
pub proof fn lemma_protocol_partition(cs: Seq<ConnectionRec>)
    ensures
        spec_filter(cs, "tcp"@, None).to_multiset().add(
            spec_filter(cs, "udp"@, None).to_multiset(),
        ) == spec_filter(cs, "all"@, None).to_multiset(),
        forall|c: ConnectionRec|
            !(#[trigger] spec_filter(cs, "tcp"@, None).contains(c) && spec_filter(
                cs,
                "udp"@,
                None,
            ).contains(c)),
    decreases cs.len(),
{
    broadcast use vstd::seq_lib::group_to_multiset_ensures;

    lemma_selectors_distinct();
    let tp = conn_pred("tcp"@, None);
    let up = conn_pred("udp"@, None);
    let ap = conn_pred("all"@, None);
    if cs.len() == 0 {
        assert(cs.filter(tp) =~= Seq::<ConnectionRec>::empty()) by {
            reveal(Seq::filter);
        }
        assert(cs.filter(up) =~= Seq::<ConnectionRec>::empty()) by {
            reveal(Seq::filter);
        }
        assert(cs.filter(ap) =~= Seq::<ConnectionRec>::empty()) by {
            reveal(Seq::filter);
        }
        assert(cs.filter(tp).to_multiset().add(cs.filter(up).to_multiset())
            =~= cs.filter(ap).to_multiset());
    } else {
        let t = cs.drop_last();
        let x = cs.last();
        lemma_protocol_partition(t);
        lemma_filter_push(t, x, tp);
        lemma_filter_push(t, x, up);
        lemma_filter_push(t, x, ap);
        assert(t.push(x) =~= cs);
        assert(ap(x));
        assert(tp(x) == (x.protocol is TCP));
        assert(up(x) == (x.protocol is UDP));
        assert(cs.filter(ap).to_multiset() =~= t.filter(ap).to_multiset().insert(x));
        if x.protocol is TCP {
            assert(cs.filter(tp).to_multiset() =~= t.filter(tp).to_multiset().insert(x));
            assert(cs.filter(up).to_multiset() =~= t.filter(up).to_multiset());
            assert(cs.filter(tp).to_multiset().add(cs.filter(up).to_multiset()) =~= cs.filter(
                ap,
            ).to_multiset());
        } else {
            assert(cs.filter(up).to_multiset() =~= t.filter(up).to_multiset().insert(x));
            assert(cs.filter(tp).to_multiset() =~= t.filter(tp).to_multiset());
            assert(cs.filter(tp).to_multiset().add(cs.filter(up).to_multiset()) =~= cs.filter(
                ap,
            ).to_multiset());
        }
        assert forall|c: ConnectionRec|
            !(#[trigger] cs.filter(tp).contains(c) && cs.filter(up).contains(c)) by {
            if cs.filter(tp).contains(c) && cs.filter(up).contains(c) {
                lemma_filter_contains_iff(cs, tp, c);
                lemma_filter_contains_iff(cs, up, c);
            }
        }
    }
}

} // verus!
