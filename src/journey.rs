use vstd::prelude::*;

use crate::direction::{coords, neighbor, on_grid, opposite, Direction};
use crate::fabric::{advanced, egress_hop, entered, ingress_hop, moved_to, tile_links, Hop};
use crate::packet::{Event, Packet};
use crate::route::{lemma_path_stays_on_grid, lemma_planned_path_reaches, planned_path, walk};

verus! {

/// The events of one packet's trip through the fabric of a `width` by
/// `height` grid, from the egress task of the tile that holds it: each
/// egress decision sends it over a link, the ingress task at the far end
/// takes it in on its opposite side, and so on until it is delivered.
pub open spec fn journey(p: Packet, width: int, height: int) -> Seq<Event>
    decreases p.header.path@.len() - p.header.path_step,
    via journey_decreases
{
    match egress_hop(p, tile_links(coords(p.header.cur_pos), width, height)) {
        Ok(Hop::Deliver { event }) => seq![event],
        Ok(Hop::Forward { event, packet, dir }) => seq![event] + match ingress_hop(
            packet,
            opposite(dir),
        ) {
            Hop::Deliver { event: last } => seq![last],
            Hop::Forward { event: next, packet: q, .. } => seq![next] + journey(q, width, height),
        },
        Err(_) => Seq::empty(),
    }
}

/// Whether every `PacketArrived` among `evs` reports the tile it was
/// addressed to.
pub open spec fn arrives_at_dest(evs: Seq<Event>) -> bool {
    forall|i: int|
        0 <= i < evs.len() && (#[trigger] evs[i]) is PacketArrived ==> evs[i]->PacketArrived_at
            == evs[i]->PacketArrived_dest
}

/// Each hop moves the packet one step further along its path, so its trip
/// ends.
#[via_fn]
proof fn journey_decreases(p: Packet, width: int, height: int) {
    if p.header.path_step < p.header.path@.len() {
        vstd::std_specs::vec::axiom_spec_len(&p.header.path);
        let d = p.header.path@[p.header.path_step as int];
        let a = advanced(p, d);
        assert(a.header.path_step == p.header.path_step + 1);
        let m = moved_to(a, entered(a.header.cur_pos, opposite(d)));
        assert(m.header.path_step == a.header.path_step);
        assert(m.header.path@ == p.header.path@);
    }
}

/// The events of the trips of all `ps`, one after the other.
pub open spec fn run_events(ps: Seq<Packet>, width: int, height: int) -> Seq<Event>
    decreases ps.len(),
{
    if ps.len() == 0 {
        Seq::empty()
    } else {
        run_events(ps.drop_last(), width, height) + journey(ps.last(), width, height)
    }
}

/// How many of `evs` satisfy `f`.
pub open spec fn count_where(evs: Seq<Event>, f: spec_fn(Event) -> bool) -> nat
    decreases evs.len(),
{
    if evs.len() == 0 {
        0
    } else {
        (if f(evs[0]) {
            1nat
        } else {
            0nat
        }) + count_where(evs.drop_first(), f)
    }
}

pub open spec fn is_sent(e: Event) -> bool {
    e is PacketSent
}

pub open spec fn is_received(e: Event) -> bool {
    e is PacketReceived
}

pub open spec fn is_arrived(e: Event) -> bool {
    e is PacketArrived
}

/// A packet as injected at its source on a `width` by `height` grid: source
/// and destination on the grid, path planned between them, no hop taken.
pub open spec fn injected(p: Packet, width: int, height: int) -> bool {
    &&& on_grid(coords(p.header.cur_pos), width, height)
    &&& on_grid(coords(p.header.dest_pos), width, height)
    &&& p.header.path@ == planned_path(coords(p.header.cur_pos), coords(p.header.dest_pos))
    &&& p.header.path_step == 0
}

/// The number of hops a packet makes.
pub open spec fn hops(p: Packet) -> int {
    p.header.path@.len() as int
}

proof fn lemma_count_cons(e: Event, rest: Seq<Event>, f: spec_fn(Event) -> bool)
    ensures
        count_where(seq![e] + rest, f) == (if f(e) {
            1nat
        } else {
            0nat
        }) + count_where(rest, f),
{
    assert((seq![e] + rest).drop_first() =~= rest);
}

proof fn lemma_count_append(a: Seq<Event>, b: Seq<Event>, f: spec_fn(Event) -> bool)
    ensures
        count_where(a + b, f) == count_where(a, f) + count_where(b, f),
    decreases a.len(),
{
    if a.len() == 0 {
        assert(a + b =~= b);
    } else {
        assert((a + b).drop_first() =~= a.drop_first() + b);
        lemma_count_append(a.drop_first(), b, f);
    }
}

proof fn lemma_walk_push(p: (int, int), path: Seq<Direction>, d: Direction)
    ensures
        walk(p, path.push(d)) == neighbor(walk(p, path), d),
    decreases path.len(),
{
    if path.len() == 0 {
        assert(path.push(d).drop_first() =~= Seq::<Direction>::empty());
        assert(walk(neighbor(p, d), Seq::<Direction>::empty()) == neighbor(p, d));
    } else {
        assert(path.push(d).drop_first() =~= path.drop_first().push(d));
        lemma_walk_push(neighbor(p, path[0]), path.drop_first(), d);
        assert(path.push(d)[0] == path[0]);
    }
}

/// The trip of a packet part way along its planned path from `s` to `d`.
#[verifier::rlimit(40)]
proof fn lemma_journey_from(p: Packet, s: (int, int), d: (int, int), width: int, height: int)
    requires
        width <= 256,
        height <= 256,
        on_grid(s, width, height),
        on_grid(d, width, height),
        p.header.path@ == planned_path(s, d),
        p.header.path_step <= p.header.path@.len(),
        coords(p.header.cur_pos) == walk(s, p.header.path@.take(p.header.path_step as int)),
        coords(p.header.dest_pos) == d,
    ensures
        journey(p, width, height).len() > 0,
        journey(p, width, height).last() == (Event::PacketArrived {
            id: p.header.id,
            at: p.header.dest_pos,
            dest: p.header.dest_pos,
        }),
        count_where(journey(p, width, height), |e: Event| is_arrived(e)) == 1,
        arrives_at_dest(journey(p, width, height)),
        count_where(journey(p, width, height), |e: Event| is_sent(e)) == hops(p)
            - p.header.path_step,
        count_where(journey(p, width, height), |e: Event| is_received(e)) == if p.header.path_step
            < hops(p) {
            hops(p) - p.header.path_step - 1
        } else {
            0
        },
    decreases p.header.path@.len() - p.header.path_step,
{
    let path = p.header.path@;
    let k = p.header.path_step as int;
    let j = journey(p, width, height);
    lemma_planned_path_reaches(s, d);
    lemma_path_stays_on_grid(s, d, width, height);
    if k >= path.len() {
        assert(path.take(k) =~= path);
        assert(p.header.cur_pos == p.header.dest_pos);
        lemma_count_cons(j[0], Seq::empty(), |e: Event| is_arrived(e));
        lemma_count_cons(j[0], Seq::empty(), |e: Event| is_sent(e));
        lemma_count_cons(j[0], Seq::empty(), |e: Event| is_received(e));
        assert(seq![j[0]] + Seq::<Event>::empty() =~= j);
    } else {
        let dir = path[k];
        assert(path.take(k + 1) =~= path.take(k).push(dir));
        lemma_walk_push(s, path.take(k), dir);
        let next = walk(s, path.take(k + 1));
        assert(on_grid(next, width, height));
        assert(tile_links(coords(p.header.cur_pos), width, height).has(dir));
        assert(opposite(opposite(dir)) == dir);
        let sent = Event::PacketSent { id: p.header.id, send_dir: dir, from: p.header.cur_pos };
        assert(j[0] == sent);
        if k + 1 == path.len() {
            let last = j[1];
            assert(j =~= seq![sent] + (seq![last] + Seq::empty()));
            assert(path.take(k + 1) =~= path);
            lemma_count_cons(last, Seq::empty(), |e: Event| is_arrived(e));
            lemma_count_cons(last, Seq::empty(), |e: Event| is_sent(e));
            lemma_count_cons(last, Seq::empty(), |e: Event| is_received(e));
            lemma_count_cons(sent, seq![last] + Seq::empty(), |e: Event| is_arrived(e));
            lemma_count_cons(sent, seq![last] + Seq::empty(), |e: Event| is_sent(e));
            lemma_count_cons(sent, seq![last] + Seq::empty(), |e: Event| is_received(e));
        } else {
            let q = match ingress_hop(advanced(p, dir), opposite(dir)) {
                Hop::Forward { packet, .. } => packet,
                Hop::Deliver { .. } => p,
            };
            let recv = j[1];
            let rest = journey(q, width, height);
            assert(j =~= seq![sent] + (seq![recv] + rest));
            lemma_journey_from(q, s, d, width, height);
            lemma_count_cons(recv, rest, |e: Event| is_arrived(e));
            lemma_count_cons(recv, rest, |e: Event| is_sent(e));
            lemma_count_cons(recv, rest, |e: Event| is_received(e));
            lemma_count_cons(sent, seq![recv] + rest, |e: Event| is_arrived(e));
            lemma_count_cons(sent, seq![recv] + rest, |e: Event| is_sent(e));
            lemma_count_cons(sent, seq![recv] + rest, |e: Event| is_received(e));
            assert forall|i: int| 0 <= i < j.len() && (#[trigger] j[i]) is PacketArrived implies j[i]->PacketArrived_at
                == j[i]->PacketArrived_dest by {
                if i >= 2 {
                    assert(j[i] == rest[i - 2]);
                }
            }
        }
    }
}

/// Every injected packet is delivered exactly once, at its destination: its
/// trip reports one `PacketArrived`, last, whose `at` is its `dest`. On the
/// way it reports one `PacketSent` per hop and one `PacketReceived` per hop
/// but the last; a packet injected at its destination reports only its
/// arrival.
pub proof fn lemma_arrival(p: Packet, width: int, height: int)
    requires
        width <= 256,
        height <= 256,
        injected(p, width, height),
    ensures
        journey(p, width, height).last() == (Event::PacketArrived {
            id: p.header.id,
            at: p.header.dest_pos,
            dest: p.header.dest_pos,
        }),
        count_where(journey(p, width, height), |e: Event| is_arrived(e)) == 1,
        arrives_at_dest(journey(p, width, height)),
        count_where(journey(p, width, height), |e: Event| is_sent(e)) == hops(p),
        count_where(journey(p, width, height), |e: Event| is_received(e)) == if hops(p) > 0 {
            hops(p) - 1
        } else {
            0
        },
{
    let s = coords(p.header.cur_pos);
    assert(p.header.path@.take(0) =~= Seq::<Direction>::empty());
    lemma_journey_from(p, s, coords(p.header.dest_pos), width, height);
}

/// How many of `ps` make at least one hop.
pub open spec fn count_moving(ps: Seq<Packet>) -> nat
    decreases ps.len(),
{
    if ps.len() == 0 {
        0
    } else {
        count_moving(ps.drop_last()) + if hops(ps.last()) > 0 {
            1nat
        } else {
            0nat
        }
    }
}

/// Across the trips of a set of injected packets, as many `PacketArrived`
/// events are reported as packets were injected, each at its destination,
/// and the `PacketSent` events outnumber the `PacketReceived` ones by the
/// number of packets that make at least one hop.
pub proof fn lemma_run_counts(ps: Seq<Packet>, width: int, height: int)
    requires
        width <= 256,
        height <= 256,
        forall|i: int| 0 <= i < ps.len() ==> injected(#[trigger] ps[i], width, height),
    ensures
        count_where(run_events(ps, width, height), |e: Event| is_arrived(e)) == ps.len(),
        count_where(run_events(ps, width, height), |e: Event| is_sent(e)) == count_where(
            run_events(ps, width, height),
            |e: Event| is_received(e),
        ) + count_moving(ps),
        arrives_at_dest(run_events(ps, width, height)),
    decreases ps.len(),
{
    if ps.len() > 0 {
        let init = ps.drop_last();
        let p = ps.last();
        assert(forall|i: int| 0 <= i < init.len() ==> init[i] == ps[i]);
        lemma_run_counts(init, width, height);
        lemma_arrival(p, width, height);
        let a = run_events(init, width, height);
        let b = journey(p, width, height);
        lemma_count_append(a, b, |e: Event| is_arrived(e));
        lemma_count_append(a, b, |e: Event| is_sent(e));
        lemma_count_append(a, b, |e: Event| is_received(e));
        let all = run_events(ps, width, height);
        assert forall|i: int| 0 <= i < all.len() && (#[trigger] all[i]) is PacketArrived implies all[i]->PacketArrived_at
            == all[i]->PacketArrived_dest by {
            if i < a.len() {
                assert(all[i] == a[i]);
            } else {
                assert(all[i] == b[i - a.len()]);
            }
        }
    }
}

} // verus!
