//! Modem interfaces, the port diff between two snapshots, and the uplink total.
use vstd::prelude::*;
use crate::text::views;

verus! {

/// One uplink interface of the bonding unit.
#[derive(Debug, Clone)]
pub struct Modem {
    pub port: String,
    pub uplink_kbps: u32,
    pub connected: bool,
    pub enabled: bool,
    pub technology: String,
    pub is_currently_roaming: bool,
}

/// The ports of a snapshot, in snapshot order.
pub open spec fn ports(m: Seq<Modem>) -> Seq<Seq<char>> {
    m.map_values(|x: Modem| x.port@)
}

/// The set of ports of a snapshot.
pub open spec fn port_set(m: Seq<Modem>) -> Set<Seq<char>> {
    ports(m).to_set()
}

/// The ports that joined: seen now, unknown before.
pub open spec fn added_ports(known: Set<Seq<char>>, current: Set<Seq<char>>) -> Set<Seq<char>> {
    current.difference(known)
}

/// The ports that left: known before, not seen now.
pub open spec fn removed_ports(known: Set<Seq<char>>, current: Set<Seq<char>>) -> Set<Seq<char>> {
    known.difference(current)
}

/// The sum of the uplinks of a snapshot.
pub open spec fn uplink_sum(m: Seq<Modem>) -> nat
    decreases m.len(),
{
    if m.len() == 0 {
        0
    } else {
        uplink_sum(m.drop_last()) + m.last().uplink_kbps as nat
    }
}

/// `n`, or the largest `u32` where `n` does not fit.
pub open spec fn clamp_u32(n: nat) -> u32 {
    if n > u32::MAX as nat { u32::MAX } else { n as u32 }
}

/// The joins and leaves between the known ports and a new snapshot.
pub struct ModemDiff {
    pub added: Vec<String>,
    pub removed: Vec<String>,
}

/// Whether `s` is among `v`.
pub fn contains_string(v: &Vec<String>, s: &String) -> (r: bool)
    ensures
        r == views(v@).contains(s@),
{
    let mut i: usize = 0;
    while i < v.len()
        invariant
            i <= v.len(),
            forall|j: int| 0 <= j < i ==> v@[j]@ != s@,
        decreases v.len() - i,
    {
        if v[i] == *s {
            assert(views(v@)[i as int] == s@);
            return true;
        }
        i = i + 1;
    }
    proof {
        if views(v@).contains(s@) {
            let j = choose|j: int| 0 <= j < views(v@).len() && views(v@)[j] == s@;
            assert(v@[j]@ == s@);
        }
    }
    false
}

/// Whether some interface of the snapshot has port `port`.
pub fn has_port(modems: &Vec<Modem>, port: &String) -> (r: bool)
    ensures
        r == ports(modems@).contains(port@),
{
    let mut i: usize = 0;
    while i < modems.len()
        invariant
            i <= modems.len(),
            forall|j: int| 0 <= j < i ==> modems@[j].port@ != port@,
        decreases modems.len() - i,
    {
        if modems[i].port == *port {
            assert(ports(modems@)[i as int] == port@);
            return true;
        }
        i = i + 1;
    }
    proof {
        if ports(modems@).contains(port@) {
            let j = choose|j: int| 0 <= j < ports(modems@).len() && ports(modems@)[j] == port@;
            assert(modems@[j].port@ == port@);
        }
    }
    false
}

/// Compares a snapshot with the known ports and brings the known ports up to
/// date. Each port is listed once; joins follow the snapshot's order, leaves
/// the order of the known ports.
pub fn diff_ports(known: &mut Vec<String>, current: &Vec<Modem>) -> (r: ModemDiff)
    requires
        views(old(known)@).no_duplicates(),
    ensures
        views(r.added@).to_set() == added_ports(views(old(known)@).to_set(), port_set(current@)),
        views(r.removed@).to_set() == removed_ports(views(old(known)@).to_set(), port_set(current@)),
        views(final(known)@).to_set() == port_set(current@),
        views(r.added@).no_duplicates(),
        views(r.removed@).no_duplicates(),
        views(final(known)@).no_duplicates(),
{
    let ghost known_set = views(known@).to_set();
    let ghost cur = current@;
    let mut added: Vec<String> = Vec::new();
    let mut next: Vec<String> = Vec::new();
    let mut i: usize = 0;
    while i < current.len()
        invariant
            i <= current.len(),
            cur == current@,
            known_set == views(known@).to_set(),
            views(added@).to_set() == port_set(cur.subrange(0, i as int)).difference(known_set),
            views(next@).to_set() == port_set(cur.subrange(0, i as int)),
            views(added@).no_duplicates(),
            views(next@).no_duplicates(),
        decreases current.len() - i,
    {
        let port = current[i].port.clone();
        let ghost pre_sub = cur.subrange(0, i as int);
        let ghost post_sub = cur.subrange(0, i as int + 1);
        assert(post_sub =~= pre_sub.push(cur[i as int]));
        assert(ports(post_sub) =~= ports(pre_sub).push(port@));
        proof {
            ports(pre_sub).lemma_push_to_set_commute(port@);
        }
        let in_known = contains_string(known, &port);
        let in_added = contains_string(&added, &port);
        let in_next = contains_string(&next, &port);
        if !in_known && !in_added {
            let ghost before = added@;
            added.push(port.clone());
            proof {
                assert(added@ =~= before.push(port));
                assert(views(added@) =~= views(before).push(port@));
                views(before).lemma_push_to_set_commute(port@);
                assert(views(added@).to_set() =~= port_set(post_sub).difference(known_set));
            }
        } else {
            proof {
                assert(views(added@).to_set() =~= port_set(post_sub).difference(known_set));
            }
        }
        if !in_next {
            let ghost before = next@;
            next.push(port.clone());
            proof {
                assert(next@ =~= before.push(port));
                assert(views(next@) =~= views(before).push(port@));
                views(before).lemma_push_to_set_commute(port@);
                assert(views(next@).to_set() =~= port_set(post_sub));
            }
        } else {
            proof {
                assert(views(next@).to_set() =~= port_set(post_sub));
            }
        }
        i = i + 1;
    }
    assert(cur.subrange(0, cur.len() as int) =~= cur);

    let mut removed: Vec<String> = Vec::new();
    let mut j: usize = 0;
    while j < known.len()
        invariant
            j <= known.len(),
            cur == current@,
            known_set == views(known@).to_set(),
            views(known@).no_duplicates(),
            views(removed@).to_set() == views(known@).subrange(0, j as int).to_set().difference(
                port_set(cur),
            ),
            views(removed@).no_duplicates(),
        decreases known.len() - j,
    {
        let gone = !has_port(current, &known[j]);
        let ghost pre = views(known@).subrange(0, j as int);
        let ghost k = views(known@)[j as int];
        assert(views(known@).subrange(0, j as int + 1) =~= pre.push(k));
        proof {
            pre.lemma_push_to_set_commute(k);
        }
        if gone {
            let ghost before = removed@;
            removed.push(known[j].clone());
            proof {
                assert(views(removed@) =~= views(before).push(k));
                views(before).lemma_push_to_set_commute(k);
                assert(!pre.contains(k)) by {
                    if pre.contains(k) {
                        let t = choose|t: int| 0 <= t < pre.len() && pre[t] == k;
                        assert(views(known@)[t] == views(known@)[j as int]);
                    }
                }
                assert(!views(before).contains(k)) by {
                    if views(before).contains(k) {
                        assert(views(before).to_set().contains(k));
                    }
                }
                assert(views(removed@).to_set() =~= views(known@).subrange(0, j as int + 1).to_set().difference(port_set(cur)));
            }
        } else {
            proof {
                assert(views(removed@).to_set() =~= views(known@).subrange(0, j as int + 1).to_set().difference(port_set(cur)));
            }
        }
        j = j + 1;
    }
    proof {
        let ks = views(known@);
        assert(ks.subrange(0, ks.len() as int) =~= ks);
    }
    *known = next;
    ModemDiff { added, removed }
}

/// The sum of the uplinks, held at the largest `u32` where it does not fit.
pub fn total_uplink(modems: &Vec<Modem>) -> (r: u32)
    ensures
        r == clamp_u32(uplink_sum(modems@)),
{
    let mut total: u32 = 0;
    let mut i: usize = 0;
    while i < modems.len()
        invariant
            i <= modems.len(),
            total == clamp_u32(uplink_sum(modems@.subrange(0, i as int))),
        decreases modems.len() - i,
    {
        assert(modems@.subrange(0, i as int + 1).drop_last() =~= modems@.subrange(0, i as int));
        total = total.saturating_add(modems[i].uplink_kbps);
        i = i + 1;
    }
    assert(modems@.subrange(0, modems@.len() as int) =~= modems@);
    total
}

} // verus!

verus! {

/// Joins and leaves never share a port, and the known ports minus the leaves
/// plus the joins are exactly the ports of the new snapshot.
pub proof fn lemma_diff_laws(known: Set<Seq<char>>, current: Set<Seq<char>>)
    ensures
        added_ports(known, current).disjoint(removed_ports(known, current)),
        known.difference(removed_ports(known, current)).union(added_ports(known, current))
            == current,
{
    assert(known.difference(removed_ports(known, current)).union(added_ports(known, current))
        =~= current);
}

} // verus!
