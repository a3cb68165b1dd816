use vstd::prelude::*;

use crate::cluster_object::ClusterObject;
use crate::workloads::Workloads;

verus! {

pub open spec fn digit_char(d: nat) -> char {
    if d == 0 {
        '0'
    } else if d == 1 {
        '1'
    } else if d == 2 {
        '2'
    } else if d == 3 {
        '3'
    } else if d == 4 {
        '4'
    } else if d == 5 {
        '5'
    } else if d == 6 {
        '6'
    } else if d == 7 {
        '7'
    } else if d == 8 {
        '8'
    } else {
        '9'
    }
}

/// The decimal digits of `n`, most significant first, without leading zeros.
pub open spec fn digits(n: nat) -> Seq<char>
    decreases n,
{
    if n < 10 {
        seq![digit_char(n)]
    } else {
        digits(n / 10).push(digit_char(n % 10))
    }
}

/// The decimal form of `i`, with a leading minus sign when negative.
pub open spec fn decimal(i: int) -> Seq<char> {
    if i < 0 {
        seq!['-'] + digits((-i) as nat)
    } else {
        digits(i as nat)
    }
}

/// "available/requested" for a replicated workload, a missing count read as 0.
pub open spec fn replica_text(available: Option<i32>, requested: Option<i32>) -> Seq<char> {
    let a = match available {
        Some(v) => v as int,
        None => 0,
    };
    let r = match requested {
        Some(v) => v as int,
        None => 0,
    };
    decimal(a) + seq!['/'] + decimal(r)
}

fn digit_str(d: u64) -> (r: &'static str)
    requires
        d < 10,
    ensures
        r@ == seq![digit_char(d as nat)],
{
    proof {
        reveal_strlit("0");
        reveal_strlit("1");
        reveal_strlit("2");
        reveal_strlit("3");
        reveal_strlit("4");
        reveal_strlit("5");
        reveal_strlit("6");
        reveal_strlit("7");
        reveal_strlit("8");
        reveal_strlit("9");
    }
    if d == 0 {
        "0"
    } else if d == 1 {
        "1"
    } else if d == 2 {
        "2"
    } else if d == 3 {
        "3"
    } else if d == 4 {
        "4"
    } else if d == 5 {
        "5"
    } else if d == 6 {
        "6"
    } else if d == 7 {
        "7"
    } else if d == 8 {
        "8"
    } else {
        "9"
    }
}

fn push_digits(s: &mut String, n: u64)
    ensures
        final(s)@ == old(s)@ + digits(n as nat),
    decreases n,
{
    if n >= 10 {
        push_digits(s, n / 10);
    }
    s.append(digit_str(n % 10));
    assert(final(s)@ =~= old(s)@ + digits(n as nat));
}

fn push_decimal(s: &mut String, i: i32)
    ensures
        final(s)@ == old(s)@ + decimal(i as int),
{
    if i < 0 {
        proof {
            reveal_strlit("-");
        }
        s.append("-");
        let n: i64 = -(i as i64);
        push_digits(s, n as u64);
        assert(final(s)@ =~= old(s)@ + decimal(i as int));
    } else {
        push_digits(s, i as u64);
    }
}

/// The status detail of a replicated workload (deployment or replica set).
/// It exists only when both the observed status and the desired spec are
/// present; a count missing from either reads as 0.
pub fn replica_details(available: Option<Option<i32>>, requested: Option<Option<i32>>) -> (r:
    Option<String>)
    ensures
        r is Some <==> (available is Some && requested is Some),
        r is Some ==> r->Some_0@ == replica_text(available->Some_0, requested->Some_0),
{
    match (available, requested) {
        (Some(a), Some(q)) => {
            let av: i32 = match a {
                Some(v) => v,
                None => 0,
            };
            let rq: i32 = match q {
                Some(v) => v,
                None => 0,
            };
            let mut s = String::new();
            push_decimal(&mut s, av);
            proof {
                reveal_strlit("/");
            }
            s.append("/");
            push_decimal(&mut s, rq);
            assert(s@ =~= replica_text(a, q));
            Some(s)
        },
        _ => None,
    }
}

/// One listing of a namespace from the listings of each kind, in the order
/// deployments, daemon sets, replica sets, stateful sets, pods.
pub fn assemble_workloads(
    deployments: Vec<ClusterObject>,
    daemon_sets: Vec<ClusterObject>,
    replica_sets: Vec<ClusterObject>,
    stateful_sets: Vec<ClusterObject>,
    pods: Vec<ClusterObject>,
) -> (r: Workloads)
    ensures
        r@ == (deployments@ + daemon_sets@ + replica_sets@ + stateful_sets@ + pods@).map_values(
            |o: ClusterObject| o@,
        ),
{
    let mut all = deployments;
    let mut d = daemon_sets;
    let mut rs = replica_sets;
    let mut ss = stateful_sets;
    let mut p = pods;
    all.append(&mut d);
    all.append(&mut rs);
    all.append(&mut ss);
    all.append(&mut p);
    Workloads::new(all)
}

} // verus!
