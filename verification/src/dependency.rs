//! Plugin dependency resolution: version constraints, the dependency
//! graph, cycle detection and an installation order in which every
//! plugin comes after all of its dependencies.

use vstd::prelude::*;

use crate::versioning::{SemanticVersion, parse_version_spec, num_order};
use crate::text::{
    Order, strings_equal, string_equals_str, owned, str_chars,
    push_all, string_from_chars,
};

verus! {

/// Comparison operators
#[derive(Debug, Clone, Copy, PartialEq, Eq, Structural)]
pub enum ConstraintOp {
    /// Exact match (=)
    Exact,
    /// Greater than (>)
    Greater,
    /// Greater than or equal (>=)
    GreaterEqual,
    /// Less than (<)
    Less,
    /// Less than or equal (<=)
    LessEqual,
    /// Compatible (^)
    Compatible,
    /// Wildcard (*)
    Wildcard,
}

/// Single version constraint
#[derive(Debug, Clone)]
pub struct Constraint {
    /// Comparison operator
    pub op: ConstraintOp,
    /// Version
    pub version: String,
}

/// Version constraint: all of its constraints must hold.
#[derive(Debug, Clone)]
pub struct VersionConstraint {
    /// Raw constraint string (e.g., ">=1.0.0,<2.0.0")
    pub raw: String,
    /// Parsed constraints
    pub constraints: Vec<Constraint>,
}

/// The numeric core `(major, minor, patch)` of a version string, or
/// `None` where the text is no version.
pub open spec fn version_key(s: Seq<char>) -> Option<(u32, u32, u32)> {
    match parse_version_spec(s) {
        Ok(m) => Some((m.major, m.minor, m.patch)),
        Err(_) => None,
    }
}

/// Order of two numeric cores: major first, then minor, then patch.
pub open spec fn key_order(a: (u32, u32, u32), b: (u32, u32, u32)) -> Order {
    if num_order(a.0, b.0) != Order::Equal {
        num_order(a.0, b.0)
    } else if num_order(a.1, b.1) != Order::Equal {
        num_order(a.1, b.1)
    } else {
        num_order(a.2, b.2)
    }
}

/// Whether a version with core `v` meets `op` against the bound `b`.
/// `^b` asks for at least `b` within the same major version
/// (`^1.2.3` is `>=1.2.3, <2.0.0`).
pub open spec fn key_holds(op: ConstraintOp, b: (u32, u32, u32), v: (u32, u32, u32)) -> bool {
    match op {
        ConstraintOp::Greater => key_order(v, b) == Order::Greater,
        ConstraintOp::GreaterEqual => key_order(v, b) != Order::Less,
        ConstraintOp::Less => key_order(v, b) == Order::Less,
        ConstraintOp::LessEqual => key_order(v, b) != Order::Greater,
        ConstraintOp::Compatible => key_order(v, b) != Order::Less && v.0 == b.0,
        _ => true,
    }
}

/// Whether `version` meets a single constraint.  `=` asks for the same
/// text and `*` for nothing; the other operators compare the numeric
/// cores of both versions, and fail where either text is no version.
pub open spec fn op_holds(op: ConstraintOp, bound: Seq<char>, version: Seq<char>) -> bool {
    match op {
        ConstraintOp::Exact => version == bound,
        ConstraintOp::Wildcard => true,
        _ => match (version_key(version), version_key(bound)) {
            (Some(v), Some(b)) => key_holds(op, b, v),
            _ => false,
        },
    }
}

/// The numeric core of `version`, as `version_key` gives it.
fn parse_key(version: &str) -> (r: Option<(u32, u32, u32)>)
    ensures
        r == version_key(version@),
{
    match SemanticVersion::parse(version) {
        Ok(v) => Some((v.major, v.minor, v.patch)),
        Err(_) => None,
    }
}

/// `key_better` of two cores.
fn prefer_key(a: Option<(u32, u32, u32)>, b: Option<(u32, u32, u32)>, newest: bool) -> (r: bool)
    ensures
        r == key_better(a, b, newest),
{
    match (a, b) {
        (Some(x), Some(y)) => {
            let o = compare_keys(x, y);
            if newest { o == Order::Greater } else { o == Order::Less }
        },
        (Some(_), None) => true,
        _ => false,
    }
}

/// `key_order` of two cores.
fn compare_keys(a: (u32, u32, u32), b: (u32, u32, u32)) -> (r: Order)
    ensures
        r == key_order(a, b),
{
    if a.0 != b.0 {
        if a.0 < b.0 { Order::Less } else { Order::Greater }
    } else if a.1 != b.1 {
        if a.1 < b.1 { Order::Less } else { Order::Greater }
    } else if a.2 < b.2 {
        Order::Less
    } else if a.2 > b.2 {
        Order::Greater
    } else {
        Order::Equal
    }
}

/// Whether `version` meets every constraint of `c`.
pub open spec fn constraint_holds(c: VersionConstraint, version: Seq<char>) -> bool {
    forall|i: int|
        0 <= i < c.constraints@.len() ==> op_holds(
            (#[trigger] c.constraints@[i]).op,
            c.constraints@[i].version@,
            version,
        )
}

impl Constraint {
    /// Whether `version` meets this constraint.
    pub fn satisfies(&self, version: &str) -> (r: bool)
        ensures
            r == op_holds(self.op, self.version@, version@),
    {
        match self.op {
            ConstraintOp::Exact => {
                let v = owned(version);
                strings_equal(&v, &self.version)
            },
            ConstraintOp::Wildcard => true,
            _ => {
                let vk = parse_key(version);
                let bk = parse_key(self.version.as_str());
                match (vk, bk) {
                    (Some(v), Some(b)) => {
                        let o = compare_keys(v, b);
                        match self.op {
                            ConstraintOp::Greater => o == Order::Greater,
                            ConstraintOp::GreaterEqual => o != Order::Less,
                            ConstraintOp::Less => o == Order::Less,
                            ConstraintOp::LessEqual => o != Order::Greater,
                            ConstraintOp::Compatible => o != Order::Less && v.0 == b.0,
                            _ => true,
                        }
                    },
                    _ => false,
                }
            },
        }
    }
}

fn append_str(out: &mut Vec<char>, s: &str)
    ensures
        final(out)@ == old(out)@ + s@,
{
    let c = str_chars(s);
    push_all(out, c.as_slice());
}

impl VersionConstraint {
    /// A constraint met by exactly `version`.
    pub fn exact(version: &str) -> (r: VersionConstraint)
        ensures
            r.raw@ == version@,
            r.constraints@.len() == 1,
            r.constraints@[0].op == ConstraintOp::Exact,
            r.constraints@[0].version@ == version@,
    {
        let mut constraints: Vec<Constraint> = Vec::new();
        constraints.push(Constraint { op: ConstraintOp::Exact, version: owned(version) });
        VersionConstraint { raw: owned(version), constraints }
    }

    /// A constraint met by versions in `[min, max)`.
    pub fn range(min: &str, max: &str) -> (r: VersionConstraint)
        ensures
            r.raw@ == ">="@ + min@ + ",<"@ + max@,
            r.constraints@.len() == 2,
            r.constraints@[0].op == ConstraintOp::GreaterEqual,
            r.constraints@[0].version@ == min@,
            r.constraints@[1].op == ConstraintOp::Less,
            r.constraints@[1].version@ == max@,
    {
        let mut text: Vec<char> = Vec::new();
        append_str(&mut text, ">=");
        append_str(&mut text, min);
        append_str(&mut text, ",<");
        append_str(&mut text, max);
        let raw = string_from_chars(text.as_slice());
        assert(raw@ =~= ">="@ + min@ + ",<"@ + max@);
        let mut constraints: Vec<Constraint> = Vec::new();
        constraints.push(Constraint { op: ConstraintOp::GreaterEqual, version: owned(min) });
        constraints.push(Constraint { op: ConstraintOp::Less, version: owned(max) });
        VersionConstraint { raw, constraints }
    }

    /// A `^version` constraint.
    pub fn compatible(version: &str) -> (r: VersionConstraint)
        ensures
            r.raw@ == "^"@ + version@,
            r.constraints@.len() == 1,
            r.constraints@[0].op == ConstraintOp::Compatible,
            r.constraints@[0].version@ == version@,
    {
        let mut text: Vec<char> = Vec::new();
        append_str(&mut text, "^");
        append_str(&mut text, version);
        let raw = string_from_chars(text.as_slice());
        assert(raw@ =~= "^"@ + version@);
        let mut constraints: Vec<Constraint> = Vec::new();
        constraints.push(Constraint { op: ConstraintOp::Compatible, version: owned(version) });
        VersionConstraint { raw, constraints }
    }

    /// Whether `version` meets every constraint.
    pub fn satisfies(&self, version: &str) -> (r: bool)
        ensures
            r == constraint_holds(*self, version@),
    {
        let mut i: usize = 0;
        while i < self.constraints.len()
            invariant
                i <= self.constraints@.len(),
                forall|j: int|
                    0 <= j < i ==> op_holds(
                        (#[trigger] self.constraints@[j]).op,
                        self.constraints@[j].version@,
                        version@,
                    ),
            decreases self.constraints.len() - i,
        {
            if !self.constraints[i].satisfies(version) {
                return false;
            }
            i = i + 1;
        }
        true
    }
}

/// An order of the nodes `0..n` in which, for every edge `(u, w)`
/// ("`u` depends on `w`"), `w` comes before `u`.
pub open spec fn is_install_order(n: nat, edges: Seq<(int, int)>, order: Seq<int>) -> bool {
    &&& order.no_duplicates()
    &&& forall|i: int| 0 <= i < order.len() ==> 0 <= #[trigger] order[i] < n
    &&& forall|v: int| 0 <= v < n ==> order.contains(v)
    &&& deps_first(edges, order)
}

/// For every edge `(u, w)`, each occurrence of `u` in `order` is preceded
/// by an occurrence of `w`.
#[verifier::opaque]
pub open spec fn deps_first(edges: Seq<(int, int)>, order: Seq<int>) -> bool {
    forall|k: int, i: int|
        #![trigger edges[k], order[i]]
        0 <= k < edges.len() && 0 <= i < order.len() && order[i] == edges[k].0 ==> exists|j: int|
            0 <= j < i && #[trigger] order[j] == edges[k].1
}

/// The graph has no dependency cycle: some installation order exists.
pub open spec fn acyclic(n: nat, edges: Seq<(int, int)>) -> bool {
    exists|order: Seq<int>| is_install_order(n, edges, order)
}

/// Every element of a filtered sequence stands in the sequence, and two
/// elements keep their order: for positions `a < b` of the filtered
/// sequence there are positions `i < j` of the sequence holding them.
proof fn lemma_filter_positions(s: Seq<int>, pred: spec_fn(int) -> bool)
    ensures
        forall|a: int|
            0 <= a < s.filter(pred).len() ==> exists|i: int| 0 <= i < s.len() && s[i] == #[trigger] s.filter(pred)[a],
        forall|a: int, b: int|
            #![trigger s.filter(pred)[a], s.filter(pred)[b]]
            0 <= a < b < s.filter(pred).len() ==> exists|i: int, j: int|
                0 <= i < j < s.len() && s[i] == s.filter(pred)[a] && s[j] == s.filter(pred)[b],
    decreases s.len(),
{
    reveal(Seq::filter);
    if s.len() > 0 {
        let p = s.drop_last();
        lemma_filter_positions(p, pred);
        let sub = p.filter(pred);
        let f = s.filter(pred);
        let last = s.len() - 1;
        assert forall|k: int| 0 <= k < p.len() implies #[trigger] p[k] == s[k] by {}
        assert forall|a: int| 0 <= a < f.len() implies exists|i: int| 0 <= i < s.len() && s[i] == #[trigger] f[a] by {
            if a < sub.len() {
                assert(f[a] == sub[a]);
                let i = choose|i: int| 0 <= i < p.len() && p[i] == #[trigger] sub[a];
                assert(s[i] == f[a]);
            } else {
                assert(f[a] == s[last]);
            }
        }
        assert forall|a: int, b: int|
            #![trigger f[a], f[b]]
            0 <= a < b < f.len() implies exists|i: int, j: int| 0 <= i < j < s.len() && s[i] == f[a] && s[j] == f[b] by {
            if b < sub.len() {
                assert(f[a] == sub[a] && f[b] == sub[b]);
                let (i, j) = choose|i: int, j: int| 0 <= i < j < p.len() && p[i] == sub[a] && p[j] == sub[b];
                assert(s[i] == f[a] && s[j] == f[b]);
            } else {
                assert(f[a] == sub[a]);
                assert(f[b] == s[last]);
                let i = choose|i: int| 0 <= i < p.len() && p[i] == #[trigger] sub[a];
                assert(s[i] == f[a]);
            }
        }
    }
}

/// Keeping only some plugins of an installation order, as the resolved and
/// the missing lists of a resolution each keep the plugins of one kind,
/// keeps every kept dependency before each kept plugin that depends on it.
pub proof fn law_kept_dependencies_come_first(
    n: nat,
    edges: Seq<(int, int)>,
    order: Seq<int>,
    keep: spec_fn(int) -> bool,
    k: int,
    a: int,
    b: int,
)
    requires
        is_install_order(n, edges, order),
        0 <= k < edges.len(),
        0 <= a < order.filter(keep).len(),
        0 <= b < order.filter(keep).len(),
        order.filter(keep)[a] == edges[k].0,
        order.filter(keep)[b] == edges[k].1,
    ensures
        b < a,
{
    reveal(deps_first);
    let f = order.filter(keep);
    lemma_filter_positions(order, keep);
    let i = choose|i: int| 0 <= i < order.len() && order[i] == #[trigger] f[a];
    assert(order[i] == edges[k].0);
    let j = choose|j: int| 0 <= j < i && #[trigger] order[j] == edges[k].1;
    if a == b {
        assert(order[j] == order[i]);
    } else if a < b {
        let (i2, j2) = choose|i2: int, j2: int| 0 <= i2 < j2 < order.len() && order[i2] == f[a] && order[j2] == f[b];
        assert(order[i2] == order[i]);
        assert(order[j2] == order[j]);
    }
}

/// Keeping the plugins of one kind from an installation order, as the
/// resolved and the missing lists of a resolution each do, lists every
/// plugin of that kind of the graph exactly once and no other.
pub proof fn law_kept_plugins_listed_once(
    n: nat,
    edges: Seq<(int, int)>,
    order: Seq<int>,
    keep: spec_fn(int) -> bool,
    v: int,
)
    requires
        is_install_order(n, edges, order),
        0 <= v < n,
    ensures
        order.filter(keep).no_duplicates(),
        order.filter(keep).contains(v) <==> keep(v),
{
    let f = order.filter(keep);
    lemma_filter_positions(order, keep);
    assert forall|a: int, b: int| 0 <= a < f.len() && 0 <= b < f.len() && a != b implies f[a] != f[b] by {
        if f[a] == f[b] {
            if a < b {
                let (i, j) = choose|i: int, j: int| 0 <= i < j < order.len() && order[i] == f[a] && order[j] == f[b];
            } else {
                let (i, j) = choose|i: int, j: int| 0 <= i < j < order.len() && order[i] == f[b] && order[j] == f[a];
            }
        }
    }
    assert(order.contains(v));
    let i = choose|i: int| 0 <= i < order.len() && order[i] == v;
    if keep(v) {
        order.lemma_filter_contains(keep, i);
    }
    if f.contains(v) {
        let a = choose|a: int| 0 <= a < f.len() && f[a] == v;
        order.lemma_filter_pred(keep, a);
    }
}

/// Every unplaced node has an unplaced dependency.
pub open spec fn stuck(n: nat, edges: Seq<(int, int)>, placed: Seq<bool>) -> bool {
    forall|v: int|
        0 <= v < n && !placed[v] ==> exists|k: int|
            0 <= k < edges.len() && (#[trigger] edges[k]).0 == v && !placed[edges[k].1]
}

/// When every unplaced node waits on another unplaced node, no
/// installation order puts a waiting node at position `i`.
proof fn lemma_no_descent(
    n: nat,
    edges: Seq<(int, int)>,
    placed: Seq<bool>,
    order: Seq<int>,
    i: int,
)
    requires
        placed.len() == n,
        stuck(n, edges, placed),
        0 <= i < order.len(),
        0 <= order[i] < n,
        !placed[order[i]],
    ensures
        !is_install_order(n, edges, order),
    decreases i,
{
    if is_install_order(n, edges, order) {
        reveal(deps_first);
        let v = order[i];
        let k = choose|k: int|
            0 <= k < edges.len() && (#[trigger] edges[k]).0 == v && !placed[edges[k].1];
        let j = choose|j: int| 0 <= j < i && #[trigger] order[j] == edges[k].1;
        lemma_no_descent(n, edges, placed, order, j);
    }
}

/// A stuck placement with some node unplaced rules out every order.
pub proof fn lemma_stuck_not_acyclic(n: nat, edges: Seq<(int, int)>, placed: Seq<bool>, v: int)
    requires
        placed.len() == n,
        stuck(n, edges, placed),
        0 <= v < n,
        !placed[v],
    ensures
        !acyclic(n, edges),
{
    if acyclic(n, edges) {
        let order = choose|order: Seq<int>| is_install_order(n, edges, order);
        assert(order.contains(v));
        let i = choose|i: int| 0 <= i < order.len() && order[i] == v;
        lemma_no_descent(n, edges, placed, order, i);
    }
}

/// Number of `false` entries.
pub open spec fn count_unplaced(placed: Seq<bool>) -> nat
    decreases placed.len(),
{
    if placed.len() == 0 {
        0
    } else {
        count_unplaced(placed.drop_last()) + if placed.last() {
            0nat
        } else {
            1nat
        }
    }
}

proof fn lemma_count_unplaced_all(placed: Seq<bool>)
    requires
        forall|v: int| 0 <= v < placed.len() ==> !placed[v],
    ensures
        count_unplaced(placed) == placed.len(),
    decreases placed.len(),
{
    if placed.len() > 0 {
        lemma_count_unplaced_all(placed.drop_last());
    }
}

proof fn lemma_count_unplaced_update(placed: Seq<bool>, v: int)
    requires
        0 <= v < placed.len(),
        !placed[v],
    ensures
        count_unplaced(placed) >= 1,
        count_unplaced(placed.update(v, true)) == count_unplaced(placed) - 1,
    decreases placed.len(),
{
    let u = placed.update(v, true);
    if v == placed.len() - 1 {
        assert(u.drop_last() =~= placed.drop_last());
    } else {
        assert(u.drop_last() =~= placed.drop_last().update(v, true));
        lemma_count_unplaced_update(placed.drop_last(), v);
    }
}

/// Computes an installation order of the nodes `0..n`, or reports that
/// the edges form a cycle.
pub fn install_order(n: usize, edges: &Vec<(usize, usize)>) -> (r: Option<Vec<usize>>)
    requires
        forall|k: int| 0 <= k < edges@.len() ==> (#[trigger] edges@[k]).0 < n && edges@[k].1 < n,
    ensures
        r matches Some(o) ==> is_install_order(
            n as nat,
            edges@.map_values(|e: (usize, usize)| (e.0 as int, e.1 as int)),
            o@.map_values(|x: usize| x as int),
        ),
        r is None <==> !acyclic(n as nat, edges@.map_values(|e: (usize, usize)| (e.0 as int, e.1 as int))),
{
    let ghost es = edges@.map_values(|e: (usize, usize)| (e.0 as int, e.1 as int));
    let mut placed: Vec<bool> = Vec::new();
    let mut z: usize = 0;
    while z < n
        invariant
            z <= n,
            placed@.len() == z,
            forall|v: int| 0 <= v < z ==> !placed@[v],
        decreases n - z,
    {
        placed.push(false);
        z = z + 1;
    }
    let mut order: Vec<usize> = Vec::new();
    let mut progress = true;
    let ghost mut unplaced: nat = n as nat;
    proof {
        lemma_count_unplaced_all(placed@);
    }
    while progress
        invariant
            placed@.len() == n,
            unplaced == count_unplaced(placed@),
            forall|k: int| 0 <= k < edges@.len() ==> (#[trigger] edges@[k]).0 < n && edges@[k].1 < n,
            es == edges@.map_values(|e: (usize, usize)| (e.0 as int, e.1 as int)),
            order@.no_duplicates(),
            forall|i: int| 0 <= i < order@.len() ==> (#[trigger] order@[i]) < n,
            forall|v: int| 0 <= v < n ==> (placed@[v] <==> order@.contains(v as usize)),
            forall|k: int, i: int|
                #![trigger edges@[k], order@[i]]
                0 <= k < edges@.len() && 0 <= i < order@.len() && order@[i] == edges@[k].0
                    ==> exists|j: int|
                    0 <= j < i && #[trigger] order@[j] == edges@[k].1,
            !progress ==> stuck(n as nat, es, placed@),
        decreases unplaced + (if progress {
            1int
        } else {
            0int
        }),
    {
        progress = false;
        let ghost start_unplaced = unplaced;
        let mut v: usize = 0;
        while v < n
            invariant
                placed@.len() == n,
                v <= n,
                forall|k: int|
                    0 <= k < edges@.len() ==> (#[trigger] edges@[k]).0 < n && edges@[k].1 < n,
                es == edges@.map_values(|e: (usize, usize)| (e.0 as int, e.1 as int)),
                unplaced <= start_unplaced,
                progress ==> unplaced < start_unplaced,
                unplaced == count_unplaced(placed@),
                order@.no_duplicates(),
                forall|i: int| 0 <= i < order@.len() ==> (#[trigger] order@[i]) < n,
                forall|x: int| 0 <= x < n ==> (placed@[x] <==> order@.contains(x as usize)),
                forall|k: int, i: int|
                    #![trigger edges@[k], order@[i]]
                    0 <= k < edges@.len() && 0 <= i < order@.len() && order@[i] == edges@[k].0
                        ==> exists|j: int|
                        0 <= j < i && #[trigger] order@[j] == edges@[k].1,
                !progress ==> forall|x: int|
                    0 <= x < v && !placed@[x] ==> exists|k: int|
                        0 <= k < es.len() && (#[trigger] es[k]).0 == x && !placed@[es[k].1],
            decreases n - v,
        {
            if !placed[v] {
                let mut ready = true;
                let mut blocker: usize = 0;
                let mut k: usize = 0;
                while k < edges.len()
                    invariant
                        k <= edges@.len(),
                        v < n,
                        placed@.len() == n,
                        forall|q: int|
                            0 <= q < edges@.len() ==> (#[trigger] edges@[q]).0 < n && edges@[q].1 < n,
                        ready ==> forall|q: int|
                            0 <= q < k && (#[trigger] edges@[q]).0 == v ==> placed@[edges@[q].1 as int],
                        !ready ==> blocker < edges@.len() && edges@[blocker as int].0 == v
                            && !placed@[edges@[blocker as int].1 as int],
                    decreases edges.len() - k,
                {
                    let (a, b) = edges[k];
                    if a == v && !placed[b] && ready {
                        ready = false;
                        blocker = k;
                    }
                    k = k + 1;
                }
                if ready {
                    let ghost old_order = order@;
                    proof {
                        assert(!order@.contains(v));
                        assert forall|k: int, i: int|
                            #![trigger edges@[k], old_order.push(v)[i]]
                            0 <= k < edges@.len() && 0 <= i < old_order.len() + 1 && old_order.push(
                                v,
                            )[i] == edges@[k].0 implies exists|j: int|
                            0 <= j < i && #[trigger] old_order.push(v)[j] == edges@[k].1 by {
                            if i == old_order.len() {
                                let w = edges@[k].1;
                                assert(placed@[w as int]);
                                assert(old_order.contains(w));
                                let j = choose|j: int| 0 <= j < old_order.len() && old_order[j] == w;
                                assert(old_order.push(v)[j] == w);
                            } else {
                                let j = choose|j: int|
                                    0 <= j < i && #[trigger] old_order[j] == edges@[k].1;
                                assert(old_order.push(v)[j] == old_order[j]);
                            }
                        }
                    }
                    proof {
                        lemma_count_unplaced_update(placed@, v as int);
                        unplaced = (unplaced - 1) as nat;
                    }
                    placed.set(v, true);
                    order.push(v);
                    progress = true;
                    proof {
                        assert forall|x: int| 0 <= x < n implies (placed@[x] <==> order@.contains(
                            x as usize,
                        )) by {
                            if x != v {
                                if old_order.contains(x as usize) {
                                    let j = choose|j: int| 0 <= j < old_order.len() && old_order[j] == x as usize;
                                    assert(order@[j] == x as usize);
                                }
                                if order@.contains(x as usize) {
                                    let j = choose|j: int| 0 <= j < order@.len() && order@[j] == x as usize;
                                    assert(j < old_order.len());
                                    assert(old_order[j] == x as usize);
                                }
                            } else {
                                assert(order@[old_order.len() as int] == v);
                            }
                        }
                    }
                } else {
                    proof {
                        assert(es[blocker as int] == (edges@[blocker as int].0 as int, edges@[blocker as int].1 as int));
                    }
                }
            }
            v = v + 1;
        }
    }
    let mut all = true;
    let mut missing: usize = 0;
    let mut x: usize = 0;
    while x < n
        invariant
            x <= n,
            placed@.len() == n,
            all ==> forall|y: int| 0 <= y < x ==> placed@[y],
            forall|v: int| 0 <= v < n ==> (placed@[v] <==> order@.contains(v as usize)),
            !all ==> missing < n && !placed@[missing as int],
        decreases n - x,
    {
        if !placed[x] && all {
            all = false;
            missing = x;
        }
        x = x + 1;
    }
    if !all {
        proof {
            lemma_stuck_not_acyclic(n as nat, es, placed@, missing as int);
        }
        return None;
    }
    proof {
        reveal(deps_first);
    }
    let ghost o = order@.map_values(|x: usize| x as int);
    proof {
        assert forall|v: int| 0 <= v < n implies o.contains(v) by {
            assert(placed@[v]);
            assert(order@.contains(v as usize));
            let j = choose|j: int| 0 <= j < order@.len() && order@[j] == v as usize;
            assert(o[j] == v);
        }
        assert(o.no_duplicates()) by {
            assert forall|i: int, j: int| 0 <= i < o.len() && 0 <= j < o.len() && i != j implies o[i] != o[j] by {
                assert(order@[i] != order@[j]);
            }
        }
        assert forall|k: int, i: int|
            #![trigger es[k], o[i]]
            0 <= k < es.len() && 0 <= i < o.len() && o[i] == es[k].0 implies exists|j: int|
            0 <= j < i && #[trigger] o[j] == es[k].1 by {
            assert(order@[i] == edges@[k].0);
            let j = choose|j: int| 0 <= j < i && #[trigger] order@[j] == edges@[k].1;
            assert(o[j] == es[k].1);
        }
        assert(is_install_order(n as nat, es, o));
    }
    Some(order)
}


/// Errors from dependency resolution.
#[derive(Debug, Clone, PartialEq, Eq)]
pub enum DependencyError {
    /// No versions are registered for the plugin.
    PluginNotFound(String),
    /// The plugin has no version with this exact text.
    VersionNotFound(String),
    /// The dependency graph has a cycle.
    CircularDependency,
}

/// Node in the dependency graph
#[derive(Debug, Clone)]
pub struct DependencyNode {
    /// Plugin ID
    pub plugin_id: String,
    /// Required version constraint
    pub version_constraint: VersionConstraint,
    /// Resolved version (after resolution)
    pub resolved_version: Option<String>,
    /// Whether this is optional
    pub optional: bool,
    /// Installation priority (depth at which the plugin was first met)
    pub priority: u32,
}

/// Dependency graph: plugins as nodes, "depends on" as edges.
#[derive(Debug)]
pub struct DependencyGraph {
    nodes: Vec<DependencyNode>,
    edges: Vec<(usize, usize)>,
}

/// The edges of a graph as pairs of node positions.
pub open spec fn edge_view(edges: Seq<(usize, usize)>) -> Seq<(int, int)> {
    edges.map_values(|e: (usize, usize)| (e.0 as int, e.1 as int))
}

/// Plugin ids of the nodes, in insertion order.
pub open spec fn node_ids(nodes: Seq<DependencyNode>) -> Seq<Seq<char>> {
    nodes.map_values(|n: DependencyNode| n.plugin_id@)
}

/// Ids of the plugins that depend on node `v`, one per edge, in edge
/// order.
pub open spec fn dependents_of(ids: Seq<Seq<char>>, edges: Seq<(int, int)>, v: int) -> Seq<Seq<char>>
    decreases edges.len(),
{
    if edges.len() == 0 {
        Seq::empty()
    } else {
        dependents_of(ids, edges.drop_last(), v) + if edges.last().1 == v {
            seq![ids[edges.last().0]]
        } else {
            Seq::empty()
        }
    }
}

impl DependencyGraph {
    /// Node records, in insertion order.
    pub closed spec fn node_list(&self) -> Seq<DependencyNode> {
        self.nodes@
    }

    /// Edges as pairs of node positions, in insertion order.
    pub closed spec fn edge_list(&self) -> Seq<(int, int)> {
        edge_view(self.edges@)
    }

    /// Plugin ids of the nodes.
    pub open spec fn ids(&self) -> Seq<Seq<char>> {
        node_ids(self.node_list())
    }

    /// Every edge joins two nodes, and no two nodes share an id.
    pub closed spec fn wf(&self) -> bool {
        &&& forall|k: int|
            0 <= k < self.edges@.len() ==> (#[trigger] self.edges@[k]).0 < self.nodes@.len()
                && self.edges@[k].1 < self.nodes@.len()
        &&& forall|i: int, j: int|
            0 <= i < j < self.nodes@.len() ==> (#[trigger] self.nodes@[i]).plugin_id@
                != (#[trigger] self.nodes@[j]).plugin_id@
    }

    /// An empty graph.
    pub fn new() -> (g: DependencyGraph)
        ensures
            g.wf(),
            g.node_list() == Seq::<DependencyNode>::empty(),
            g.edge_list() == Seq::<(int, int)>::empty(),
    {
        let g = DependencyGraph { nodes: Vec::new(), edges: Vec::new() };
        assert(g.edge_list() =~= Seq::<(int, int)>::empty());
        g
    }

    /// Number of nodes.
    pub fn node_count(&self) -> (r: usize)
        ensures
            r == self.node_list().len(),
    {
        self.nodes.len()
    }

    /// Position of the node with this plugin id.
    pub fn find_node(&self, id: &str) -> (r: Option<usize>)
        ensures
            r matches Some(i) ==> i < self.node_list().len() && self.ids()[i as int] == id@,
            r is None ==> !self.ids().contains(id@),
    {
        let key = owned(id);
        let mut i: usize = 0;
        while i < self.nodes.len()
            invariant
                i <= self.nodes@.len(),
                key@ == id@,
                forall|j: int| 0 <= j < i ==> (#[trigger] self.nodes@[j]).plugin_id@ != id@,
            decreases self.nodes.len() - i,
        {
            if strings_equal(&self.nodes[i].plugin_id, &key) {
                return Some(i);
            }
            i = i + 1;
        }
        proof {
            if self.ids().contains(id@) {
                let j = choose|j: int| 0 <= j < self.ids().len() && self.ids()[j] == id@;
                assert(self.nodes@[j].plugin_id@ == id@);
            }
        }
        None
    }

    /// Adds a node, replacing the node with the same plugin id if there is
    /// one.  Returns its position.
    pub fn insert_node(&mut self, node: DependencyNode) -> (r: usize)
        requires
            old(self).wf(),
        ensures
            final(self).wf(),
            final(self).edge_list() == old(self).edge_list(),
            old(self).ids().contains(node.plugin_id@) ==> final(self).node_list() == old(
                self,
            ).node_list().update(r as int, node) && r < old(self).node_list().len(),
            !old(self).ids().contains(node.plugin_id@) ==> final(self).node_list() == old(
                self,
            ).node_list().push(node) && r == old(self).node_list().len(),
            final(self).node_list()[r as int] == node,
    {
        match self.find_node(node.plugin_id.as_str()) {
            Some(i) => {
                self.nodes.set(i, node);
                proof {
                    assert forall|a: int, b: int|
                        0 <= a < b < self.nodes@.len() implies (#[trigger] self.nodes@[a]).plugin_id@
                        != (#[trigger] self.nodes@[b]).plugin_id@ by {
                        assert(old(self).nodes@[a].plugin_id@ == self.ids()[a] || a == i);
                        assert(old(self).ids()[a] == old(self).nodes@[a].plugin_id@);
                        assert(old(self).ids()[b] == old(self).nodes@[b].plugin_id@);
                    }
                }
                i
            },
            None => {
                let r = self.nodes.len();
                proof {
                    assert forall|a: int| 0 <= a < old(self).nodes@.len() implies old(self).nodes@[a].plugin_id@
                        != node.plugin_id@ by {
                        assert(old(self).ids()[a] == old(self).nodes@[a].plugin_id@);
                    }
                }
                self.nodes.push(node);
                r
            },
        }
    }

    /// Adds an edge "`from` depends on `to`" between two existing nodes.
    /// Returns whether both nodes exist.
    pub fn add_edge(&mut self, from: &str, to: &str) -> (r: bool)
        requires
            old(self).wf(),
        ensures
            final(self).wf(),
            final(self).node_list() == old(self).node_list(),
            r == (old(self).ids().contains(from@) && old(self).ids().contains(to@)),
            r ==> exists|a: int, b: int|
                0 <= a < old(self).ids().len() && 0 <= b < old(self).ids().len() && old(
                    self,
                ).ids()[a] == from@ && old(self).ids()[b] == to@ && final(self).edge_list() == old(
                    self,
                ).edge_list().push((a, b)),
            !r ==> final(self).edge_list() == old(self).edge_list(),
    {
        let a = match self.find_node(from) {
            Some(a) => a,
            None => {
                return false;
            },
        };
        let b = match self.find_node(to) {
            Some(b) => b,
            None => {
                proof {
                    assert(old(self).ids().contains(from@));
                }
                return false;
            },
        };
        self.push_edge(a, b);
        assert(old(self).ids().contains(from@));
        assert(old(self).ids().contains(to@));
        true
    }

    fn push_edge(&mut self, a: usize, b: usize)
        requires
            old(self).wf(),
            a < old(self).nodes@.len(),
            b < old(self).nodes@.len(),
        ensures
            final(self).wf(),
            final(self).nodes@ == old(self).nodes@,
            final(self).edge_list() == old(self).edge_list().push((a as int, b as int)),
    {
        self.edges.push((a, b));
        assert(self.edge_list() =~= old(self).edge_list().push((a as int, b as int)));
    }

    /// Plugin ids in an order where every plugin comes after all of its
    /// dependencies; `CircularDependency` exactly when no such order
    /// exists.
    pub fn topological_sort(&self) -> (r: Result<Vec<String>, DependencyError>)
        requires
            self.wf(),
        ensures
            r is Err <==> !acyclic(self.node_list().len(), self.edge_list()),
            r matches Err(e) ==> e == DependencyError::CircularDependency,
            r matches Ok(out) ==> exists|o: Seq<int>|
                is_install_order(self.node_list().len(), self.edge_list(), o) && out@.len()
                    == o.len() && forall|i: int|
                    0 <= i < o.len() ==> (#[trigger] out@[i])@ == self.ids()[o[i]],
    {
        match self.install_positions() {
            None => Err(DependencyError::CircularDependency),
            Some(order) => {
                let mut out: Vec<String> = Vec::new();
                let mut i: usize = 0;
                while i < order.len()
                    invariant
                        i <= order@.len(),
                        self.wf(),
                        forall|q: int| 0 <= q < order@.len() ==> (#[trigger] order@[q]) < self.nodes@.len(),
                        out@.len() == i,
                        forall|q: int| 0 <= q < i ==> (#[trigger] out@[q])@ == self.ids()[order@[q] as int],
                    decreases order.len() - i,
                {
                    let id = self.nodes[order[i]].plugin_id.clone();
                    out.push(id);
                    i = i + 1;
                }
                let ghost o = order@.map_values(|x: usize| x as int);
                assert(forall|q: int| 0 <= q < o.len() ==> (#[trigger] out@[q])@ == self.ids()[o[q]]);
                Ok(out)
            },
        }
    }

    fn install_positions(&self) -> (r: Option<Vec<usize>>)
        requires
            self.wf(),
        ensures
            r matches Some(o) ==> is_install_order(
                self.node_list().len(),
                self.edge_list(),
                o@.map_values(|x: usize| x as int),
            ) && forall|q: int| 0 <= q < o@.len() ==> (#[trigger] o@[q]) < self.nodes@.len(),
            r is None <==> !acyclic(self.node_list().len(), self.edge_list()),
    {
        let r = install_order(self.nodes.len(), &self.edges);
        proof {
            if let Some(o) = &r {
                assert forall|q: int| 0 <= q < o@.len() implies (#[trigger] o@[q]) < self.nodes@.len() by {
                    let m = o@.map_values(|x: usize| x as int);
                    assert(m[q] == o@[q] as int);
                }
            }
        }
        r
    }

    /// Ids of the plugins that depend on the node at position `v`.
    pub fn dependents(&self, v: usize) -> (r: Vec<String>)
        requires
            self.wf(),
        ensures
            r@.len() == dependents_of(self.ids(), self.edge_list(), v as int).len(),
            forall|q: int|
                0 <= q < r@.len() ==> (#[trigger] r@[q])@ == dependents_of(
                    self.ids(),
                    self.edge_list(),
                    v as int,
                )[q],
    {
        let mut out: Vec<String> = Vec::new();
        let mut k: usize = 0;
        let ghost es = self.edge_list();
        while k < self.edges.len()
            invariant
                k <= self.edges@.len(),
                self.wf(),
                es == self.edge_list(),
                out@.len() == dependents_of(self.ids(), es.take(k as int), v as int).len(),
                forall|q: int|
                    0 <= q < out@.len() ==> (#[trigger] out@[q])@ == dependents_of(
                        self.ids(),
                        es.take(k as int),
                        v as int,
                    )[q],
            decreases self.edges.len() - k,
        {
            let (a, b) = self.edges[k];
            assert(es.take(k + 1).drop_last() =~= es.take(k as int));
            assert(es.take(k + 1).last() == (a as int, b as int));
            if b == v {
                let id = self.nodes[a].plugin_id.clone();
                out.push(id);
                assert(self.ids()[a as int] == self.nodes@[a as int].plugin_id@);
            }
            k = k + 1;
        }
        assert(es.take(es.len() as int) =~= es);
        out
    }
}


/// Dependency information
#[derive(Debug, Clone)]
pub struct Dependency {
    /// Plugin ID
    pub plugin_id: String,
    /// Version constraint
    pub version_constraint: VersionConstraint,
    /// Whether the dependency is optional
    pub optional: bool,
    /// Feature flags required
    pub features: Vec<String>,
}

/// Plugin version information
#[derive(Debug, Clone)]
pub struct PluginVersionInfo {
    /// Version string
    pub version: String,
    /// Dependencies for this version
    pub dependencies: Vec<Dependency>,
    /// API version
    pub api_version: u32,
}

/// Resolution strategy
#[derive(Debug, Clone, Copy, PartialEq, Eq, Structural)]
pub enum ResolutionStrategy {
    /// Prefer newest versions
    Newest,
    /// Prefer oldest compatible versions
    Oldest,
    /// Prefer installed versions if compatible
    PreferInstalled,
}

/// Resolved dependency
#[derive(Debug, Clone)]
pub struct ResolvedDependency {
    /// Plugin ID
    pub plugin_id: String,
    /// Resolved version
    pub version: String,
    /// Where it came from (which plugins require it)
    pub required_by: Vec<String>,
}

/// Missing dependency
#[derive(Debug, Clone)]
pub struct MissingDependency {
    /// Plugin ID
    pub plugin_id: String,
    /// Required version constraint
    pub constraint: VersionConstraint,
    /// Which plugins need this
    pub required_by: Vec<String>,
}

/// A constraint in a conflict
#[derive(Debug, Clone)]
pub struct ConflictConstraint {
    /// The constraint
    pub constraint: VersionConstraint,
    /// Which plugin requires this
    pub required_by: String,
}

/// Dependency conflict
#[derive(Debug, Clone)]
pub struct DependencyConflict {
    /// Plugin ID in conflict
    pub plugin_id: String,
    /// Conflicting constraints
    pub constraints: Vec<ConflictConstraint>,
}

/// Resolution result
#[derive(Debug)]
pub struct ResolutionResult {
    /// Successfully resolved dependencies
    pub resolved: Vec<ResolvedDependency>,
    /// Missing dependencies that couldn't be resolved
    pub missing: Vec<MissingDependency>,
    /// Conflicts detected
    pub conflicts: Vec<DependencyConflict>,
    /// Resolution is complete and valid
    pub is_complete: bool,
}

/// The versions registered for one plugin.
pub struct AvailablePlugin {
    /// Plugin ID
    pub id: String,
    /// Registered versions, in registration order
    pub versions: Vec<PluginVersionInfo>,
}

/// Two constraints say the same thing.
pub open spec fn same_constraint(a: VersionConstraint, b: VersionConstraint) -> bool {
    &&& a.raw@ == b.raw@
    &&& a.constraints@.len() == b.constraints@.len()
    &&& forall|i: int|
        0 <= i < a.constraints@.len() ==> (#[trigger] a.constraints@[i]).op == b.constraints@[i].op
            && a.constraints@[i].version@ == b.constraints@[i].version@
}

impl VersionConstraint {
    /// A copy with the same text and constraints.
    pub fn duplicate(&self) -> (r: VersionConstraint)
        ensures
            same_constraint(r, *self),
    {
        let mut constraints: Vec<Constraint> = Vec::new();
        let mut i: usize = 0;
        while i < self.constraints.len()
            invariant
                i <= self.constraints@.len(),
                constraints@.len() == i,
                forall|j: int|
                    0 <= j < i ==> (#[trigger] constraints@[j]).op == self.constraints@[j].op
                        && constraints@[j].version@ == self.constraints@[j].version@,
            decreases self.constraints.len() - i,
        {
            let c = &self.constraints[i];
            constraints.push(Constraint { op: c.op, version: c.version.clone() });
            i = i + 1;
        }
        VersionConstraint { raw: self.raw.clone(), constraints }
    }
}

/// Constraints that say the same thing accept the same versions.
pub proof fn lemma_same_constraint_holds(a: VersionConstraint, b: VersionConstraint, v: Seq<char>)
    requires
        same_constraint(a, b),
    ensures
        constraint_holds(a, v) == constraint_holds(b, v),
{
    if constraint_holds(b, v) {
        assert forall|i: int| 0 <= i < a.constraints@.len() implies op_holds(
            (#[trigger] a.constraints@[i]).op,
            a.constraints@[i].version@,
            v,
        ) by {
            assert(op_holds(b.constraints@[i].op, b.constraints@[i].version@, v));
        }
    }
    if constraint_holds(a, v) {
        assert forall|i: int| 0 <= i < b.constraints@.len() implies op_holds(
            (#[trigger] b.constraints@[i]).op,
            b.constraints@[i].version@,
            v,
        ) by {
            assert(op_holds(a.constraints@[i].op, a.constraints@[i].version@, v));
        }
    }
}

/// Ids of the catalog entries.
pub open spec fn catalog_ids(c: Seq<AvailablePlugin>) -> Seq<Seq<char>> {
    c.map_values(|a: AvailablePlugin| a.id@)
}

/// No two catalog entries share an id.
pub open spec fn catalog_wf(c: Seq<AvailablePlugin>) -> bool {
    forall|i: int, j: int|
        0 <= i < j < c.len() ==> (#[trigger] c[i]).id@ != (#[trigger] c[j]).id@
}

/// The versions registered for `id`, if any.
pub open spec fn versions_in(c: Seq<AvailablePlugin>, id: Seq<char>) -> Option<Seq<PluginVersionInfo>> {
    if exists|i: int| 0 <= i < c.len() && (#[trigger] c[i]).id@ == id {
        Some(c[choose|i: int| 0 <= i < c.len() && (#[trigger] c[i]).id@ == id].versions@)
    } else {
        None
    }
}

/// Number of catalog plugins that have no node in the graph yet.
pub open spec fn unexpanded(c: Seq<AvailablePlugin>, ids: Seq<Seq<char>>) -> nat {
    catalog_ids(c).to_set().difference(ids.to_set()).len()
}

/// Whether a version with core `a` is preferred to one with core `b`:
/// the newer one when `newest`, else the older one.  A version that is
/// no version is never preferred to one that is.
pub open spec fn key_better(a: Option<(u32, u32, u32)>, b: Option<(u32, u32, u32)>, newest: bool) -> bool {
    match (a, b) {
        (Some(x), Some(y)) => if newest {
            key_order(x, y) == Order::Greater
        } else {
            key_order(x, y) == Order::Less
        },
        (Some(_), None) => true,
        _ => false,
    }
}

/// Position of the preferred version among those meeting the
/// constraint: the newest (or, unless `newest`, the oldest) by numeric
/// version, the first registered among equals.
pub open spec fn best_index(vs: Seq<PluginVersionInfo>, c: VersionConstraint, newest: bool) -> Option<int>
    decreases vs.len(),
{
    if vs.len() == 0 {
        None
    } else {
        let rest = best_index(vs.drop_last(), c, newest);
        let last = vs.len() - 1;
        if !constraint_holds(c, vs[last].version@) {
            rest
        } else {
            match rest {
                None => Some(last),
                Some(j) => if key_better(
                    version_key(vs[last].version@),
                    version_key(vs[j].version@),
                    newest,
                ) {
                    Some(last)
                } else {
                    Some(j)
                },
            }
        }
    }
}

/// `key_order` is a strict order: it is transitive.
proof fn lemma_key_order_trans(a: (u32, u32, u32), b: (u32, u32, u32), c: (u32, u32, u32), o: Order)
    requires
        o != Order::Equal,
        key_order(a, b) == o,
        key_order(b, c) == o,
    ensures
        key_order(a, c) == o,
{
}

/// `key_better` is transitive.
proof fn lemma_key_better_trans(
    a: Option<(u32, u32, u32)>,
    b: Option<(u32, u32, u32)>,
    c: Option<(u32, u32, u32)>,
    newest: bool,
)
    requires
        key_better(a, b, newest),
        key_better(b, c, newest),
    ensures
        key_better(a, c, newest),
{
    if let (Some(x), Some(y), Some(z)) = (a, b, c) {
        let o = if newest { Order::Greater } else { Order::Less };
        lemma_key_order_trans(x, y, z, o);
    }
}

/// The preferred version meets the constraint, and no version that meets
/// it is preferred to it; there is none exactly when no version meets it.
pub proof fn lemma_best_index(vs: Seq<PluginVersionInfo>, c: VersionConstraint, newest: bool)
    ensures
        best_index(vs, c, newest) is None <==> forall|k: int|
            0 <= k < vs.len() ==> !constraint_holds(c, (#[trigger] vs[k]).version@),
        best_index(vs, c, newest) matches Some(i) ==> {
            &&& 0 <= i < vs.len()
            &&& constraint_holds(c, vs[i].version@)
            &&& forall|k: int|
                0 <= k < vs.len() && constraint_holds(c, (#[trigger] vs[k]).version@) ==> !key_better(
                    version_key(vs[k].version@),
                    version_key(vs[i].version@),
                    newest,
                )
        },
    decreases vs.len(),
{
    if vs.len() > 0 {
        let p = vs.drop_last();
        lemma_best_index(p, c, newest);
        let last = vs.len() - 1;
        assert forall|k: int| 0 <= k < last implies #[trigger] vs[k] == p[k] by {}
        match best_index(vs, c, newest) {
            Some(i) => {
                assert forall|k: int|
                    0 <= k < vs.len() && constraint_holds(c, (#[trigger] vs[k]).version@) implies !key_better(
                    version_key(vs[k].version@),
                    version_key(vs[i].version@),
                    newest,
                ) by {
                    if k < last {
                        assert(vs[k] == p[k]);
                        if let Some(j) = best_index(p, c, newest) {
                            if i == last && i != j {
                                if key_better(version_key(vs[k].version@), version_key(vs[i].version@), newest) {
                                    lemma_key_better_trans(
                                        version_key(vs[k].version@),
                                        version_key(vs[i].version@),
                                        version_key(p[j].version@),
                                        newest,
                                    );
                                }
                            }
                        }
                    } else if k != i {
                        if let Some(j) = best_index(p, c, newest) {
                            assert(i == j);
                        }
                    } else {
                        match version_key(vs[k].version@) {
                            Some(x) => {
                                assert(key_order(x, x) == Order::Equal);
                            },
                            None => {},
                        }
                    }
                }
            },
            None => {
                assert forall|k: int| 0 <= k < vs.len() implies !constraint_holds(c, (#[trigger] vs[k]).version@) by {
                    if k < last {
                        assert(vs[k] == p[k]);
                    }
                }
            },
        }
    }
}

/// The version text the strategy picks for a plugin under a constraint.
pub open spec fn chosen_version(
    strategy: ResolutionStrategy,
    c: Seq<AvailablePlugin>,
    id: Seq<char>,
    constraint: VersionConstraint,
) -> Option<Seq<char>> {
    match versions_in(c, id) {
        None => None,
        Some(vs) => {
            let pick = match strategy {
                ResolutionStrategy::Oldest => best_index(vs, constraint, false),
                _ => best_index(vs, constraint, true),
            };
            match pick {
                Some(i) => Some(vs[i].version@),
                None => None,
            }
        },
    }
}

/// The version the resolver picks for a plugin under a constraint is one
/// of the versions registered for it and meets the constraint, and no
/// registered version that meets the constraint is preferred to it by the
/// strategy; where it picks none, no registered version meets the
/// constraint.
pub proof fn law_chosen_version_meets_constraint(
    strategy: ResolutionStrategy,
    c: Seq<AvailablePlugin>,
    id: Seq<char>,
    constraint: VersionConstraint,
)
    ensures
        chosen_version(strategy, c, id, constraint) matches Some(v) ==> versions_in(c, id) matches Some(vs) && exists|
            k: int,
        |
            {
                &&& 0 <= k < vs.len()
                &&& (#[trigger] vs[k]).version@ == v
                &&& constraint_holds(constraint, v)
                &&& forall|j: int|
                    0 <= j < vs.len() && constraint_holds(constraint, (#[trigger] vs[j]).version@) ==> !key_better(
                        version_key(vs[j].version@),
                        version_key(v),
                        strategy != ResolutionStrategy::Oldest,
                    )
            },
        versions_in(c, id) matches Some(vs) ==> (chosen_version(strategy, c, id, constraint) is None <==> forall|
            k: int,
        | 0 <= k < vs.len() ==> !constraint_holds(constraint, (#[trigger] vs[k]).version@)),
{
    if let Some(vs) = versions_in(c, id) {
        let newest = strategy != ResolutionStrategy::Oldest;
        lemma_best_index(vs, constraint, newest);
        assert(chosen_version(strategy, c, id, constraint) == match best_index(vs, constraint, newest) {
            Some(i) => Some(vs[i].version@),
            None => None::<Seq<char>>,
        });
        if let Some(i) = best_index(vs, constraint, newest) {
            assert(vs[i].version@ == vs[i].version@);
        }
    }
}

impl DependencyGraph {
    /// `self` holds `old`'s nodes and edges at the same positions.
    pub open spec fn extends(&self, old: DependencyGraph) -> bool {
        &&& self.node_list().len() >= old.node_list().len()
        &&& self.node_list().take(old.node_list().len() as int) == old.node_list()
        &&& self.edge_list().len() >= old.edge_list().len()
        &&& self.edge_list().take(old.edge_list().len() as int) == old.edge_list()
    }
}

/// Extending a graph keeps every id it had.
pub proof fn lemma_extends_ids(new: DependencyGraph, old: DependencyGraph)
    requires
        new.extends(old),
    ensures
        old.ids().to_set().subset_of(new.ids().to_set()),
        old.ids().len() <= new.ids().len(),
        forall|i: int| 0 <= i < old.ids().len() ==> new.ids()[i] == old.ids()[i],
{
    assert forall|i: int| 0 <= i < old.ids().len() implies new.ids()[i] == old.ids()[i] by {
        assert(new.node_list().take(old.node_list().len() as int)[i] == new.node_list()[i]);
    }
    assert forall|x: Seq<char>| old.ids().to_set().contains(x) implies new.ids().to_set().contains(x) by {
        let i = choose|i: int| 0 <= i < old.ids().len() && old.ids()[i] == x;
        assert(new.ids()[i] == x);
    }
}

/// Extension is transitive.
pub proof fn lemma_extends_trans(a: DependencyGraph, b: DependencyGraph, c: DependencyGraph)
    requires
        a.extends(b),
        b.extends(c),
    ensures
        a.extends(c),
{
    assert(a.node_list().take(c.node_list().len() as int) =~= b.node_list().take(
        c.node_list().len() as int,
    ));
    assert(a.edge_list().take(c.edge_list().len() as int) =~= b.edge_list().take(
        c.edge_list().len() as int,
    ));
}

/// The graph has an edge from node `a` to a node with id `id`.
pub open spec fn has_edge_to(g: DependencyGraph, a: int, id: Seq<char>) -> bool {
    exists|k: int|
        0 <= k < g.edge_list().len() && (#[trigger] g.edge_list()[k]).0 == a && g.ids()[g.edge_list()[k].1]
            == id
}

proof fn lemma_extends_keeps_edge(new: DependencyGraph, old: DependencyGraph, a: int, id: Seq<char>)
    requires
        new.extends(old),
        has_edge_to(old, a, id),
        old.wf(),
    ensures
        has_edge_to(new, a, id),
{
    lemma_extends_ids(new, old);
    let k = choose|k: int|
        0 <= k < old.edge_list().len() && (#[trigger] old.edge_list()[k]).0 == a && old.ids()[old.edge_list()[k].1]
            == id;
    assert(new.edge_list().take(old.edge_list().len() as int)[k] == new.edge_list()[k]);
    reveal_wf_edge(old, k);
}

proof fn reveal_wf_edge(g: DependencyGraph, k: int)
    requires
        g.wf(),
        0 <= k < g.edge_list().len(),
    ensures
        0 <= g.edge_list()[k].0 < g.node_list().len(),
        0 <= g.edge_list()[k].1 < g.node_list().len(),
{
    assert(g.edge_list()[k] == (g.edges@[k].0 as int, g.edges@[k].1 as int));
}

fn find_catalog(catalog: &Vec<AvailablePlugin>, id: &str) -> (r: Option<usize>)
    requires
        catalog_wf(catalog@),
    ensures
        r matches Some(i) ==> i < catalog@.len() && catalog@[i as int].id@ == id@ && versions_in(
            catalog@,
            id@,
        ) == Some(catalog@[i as int].versions@),
        r is None ==> versions_in(catalog@, id@) is None && !catalog_ids(catalog@).contains(id@),
{
    let key = owned(id);
    let mut i: usize = 0;
    while i < catalog.len()
        invariant
            i <= catalog@.len(),
            key@ == id@,
            catalog_wf(catalog@),
            forall|j: int| 0 <= j < i ==> (#[trigger] catalog@[j]).id@ != id@,
        decreases catalog.len() - i,
    {
        if strings_equal(&catalog[i].id, &key) {
            proof {
                let c = choose|j: int| 0 <= j < catalog@.len() && (#[trigger] catalog@[j]).id@ == id@;
                if c != i {
                    if c < i {
                        assert(catalog@[c].id@ != id@);
                    } else {
                        assert(catalog@[i as int].id@ != catalog@[c].id@);
                    }
                }
            }
            return Some(i);
        }
        i = i + 1;
    }
    proof {
        if catalog_ids(catalog@).contains(id@) {
            let j = choose|j: int| 0 <= j < catalog_ids(catalog@).len() && catalog_ids(catalog@)[j] == id@;
            assert(catalog@[j].id@ == id@);
        }
    }
    None
}

/// The dependencies through which a plugin met in the graph is expanded:
/// those of its first registered version, if it has one.
pub open spec fn first_deps(c: Seq<AvailablePlugin>, id: Seq<char>) -> Option<Seq<Dependency>> {
    match versions_in(c, id) {
        Some(vs) => if vs.len() > 0 {
            Some(vs[0].dependencies@)
        } else {
            None
        },
        None => None,
    }
}

/// The node at `x` has an edge to each dependency it is expanded through.
pub open spec fn expanded(g: DependencyGraph, c: Seq<AvailablePlugin>, x: int) -> bool {
    match first_deps(c, g.ids()[x]) {
        Some(ds) => forall|j: int| 0 <= j < ds.len() ==> has_edge_to(g, x, (#[trigger] ds[j]).plugin_id@),
        None => true,
    }
}

/// Extending a graph keeps each of its nodes expanded.
proof fn lemma_expanded_extends(new: DependencyGraph, old: DependencyGraph, c: Seq<AvailablePlugin>, x: int)
    requires
        new.extends(old),
        old.wf(),
        0 <= x < old.node_list().len(),
        expanded(old, c, x),
    ensures
        expanded(new, c, x),
{
    assert(new.node_list().take(old.node_list().len() as int)[x] == new.node_list()[x]);
    assert(new.ids()[x] == old.ids()[x]);
    if let Some(ds) = first_deps(c, old.ids()[x]) {
        assert forall|j: int| 0 <= j < ds.len() implies has_edge_to(new, x, (#[trigger] ds[j]).plugin_id@) by {
            lemma_extends_keeps_edge(new, old, x, ds[j].plugin_id@);
        }
    }
}

/// The node at `x` was reached through an edge from `parent` or from a
/// node added from `start` on before it, and its priority is one more
/// than that node's: its depth below the root.
pub open spec fn discovered(g: DependencyGraph, x: int, parent: int, start: int) -> bool {
    exists|k: int|
        0 <= k < g.edge_list().len() && (#[trigger] g.edge_list()[k]).1 == x && (g.edge_list()[k].0 == parent
            || start <= g.edge_list()[k].0 < x) && g.node_list()[x].priority == g.node_list()[g.edge_list()[k].0].priority
            + 1
}

/// Extending a graph keeps how its nodes were reached.
proof fn lemma_discovered_extends(new: DependencyGraph, old: DependencyGraph, x: int, parent: int, start: int)
    requires
        new.extends(old),
        old.wf(),
        0 <= x < old.node_list().len(),
        discovered(old, x, parent, start),
    ensures
        discovered(new, x, parent, start),
{
    let k = choose|k: int|
        0 <= k < old.edge_list().len() && (#[trigger] old.edge_list()[k]).1 == x && (old.edge_list()[k].0 == parent
            || start <= old.edge_list()[k].0 < x) && old.node_list()[x].priority == old.node_list()[old.edge_list()[k].0].priority
            + 1;
    reveal_wf_edge(old, k);
    assert(new.edge_list().take(old.edge_list().len() as int)[k] == new.edge_list()[k]);
    let p = old.edge_list()[k].0;
    assert(new.node_list().take(old.node_list().len() as int)[x] == new.node_list()[x]);
    assert(new.node_list().take(old.node_list().len() as int)[p] == new.node_list()[p]);
    assert(new.edge_list()[k].1 == x);
}

/// A node reached from a node in a later range is reached from the wider
/// range that holds it.
proof fn lemma_discovered_widen(g: DependencyGraph, x: int, p1: int, s1: int, p2: int, s2: int)
    requires
        discovered(g, x, p1, s1),
        s2 <= s1,
        p1 == p2 || s2 <= p1 < x,
    ensures
        discovered(g, x, p2, s2),
{
    let k = choose|k: int|
        0 <= k < g.edge_list().len() && (#[trigger] g.edge_list()[k]).1 == x && (g.edge_list()[k].0 == p1
            || s1 <= g.edge_list()[k].0 < x) && g.node_list()[x].priority == g.node_list()[g.edge_list()[k].0].priority
            + 1;
    assert(g.edge_list()[k].1 == x);
}

/// Adds the nodes and edges that the dependency list `deps` of the node
/// at `parent` brings in, expanding newly met catalog plugins through the
/// dependencies of their first registered version.
fn expand(
    graph: &mut DependencyGraph,
    catalog: &Vec<AvailablePlugin>,
    parent: usize,
    deps: &Vec<Dependency>,
    depth: u32,
)
    requires
        old(graph).wf(),
        catalog_wf(catalog@),
        parent < old(graph).node_list().len(),
        old(graph).node_list()[parent as int].priority + 1 == depth,
        depth + unexpanded(catalog@, old(graph).ids()) <= u32::MAX,
    ensures
        final(graph).wf(),
        final(graph).extends(*old(graph)),
        forall|j: int|
            0 <= j < deps@.len() ==> has_edge_to(*final(graph), parent as int, (#[trigger] deps@[j]).plugin_id@),
        forall|x: int|
            old(graph).node_list().len() <= x < final(graph).node_list().len() ==> #[trigger] expanded(
                *final(graph),
                catalog@,
                x,
            ),
        forall|x: int|
            old(graph).node_list().len() <= x < final(graph).node_list().len() ==> #[trigger] discovered(
                *final(graph),
                x,
                parent as int,
                old(graph).node_list().len() as int,
            ),
    decreases unexpanded(catalog@, old(graph).ids()),
{
    let ghost entry = *graph;
    assert(graph.node_list().take(graph.node_list().len() as int) =~= graph.node_list());
    assert(graph.edge_list().take(graph.edge_list().len() as int) =~= graph.edge_list());
    let mut i: usize = 0;
    while i < deps.len()
        invariant
            i <= deps@.len(),
            entry == *old(graph),
            graph.wf(),
            catalog_wf(catalog@),
            graph.extends(entry),
            entry.wf(),
            parent < entry.node_list().len(),
            depth + unexpanded(catalog@, entry.ids()) <= u32::MAX,
            unexpanded(catalog@, graph.ids()) <= unexpanded(catalog@, entry.ids()),
            forall|j: int| 0 <= j < i ==> has_edge_to(*graph, parent as int, (#[trigger] deps@[j]).plugin_id@),
            forall|x: int|
                entry.node_list().len() <= x < graph.node_list().len() ==> #[trigger] expanded(*graph, catalog@, x),
            entry.node_list()[parent as int].priority + 1 == depth,
            forall|x: int|
                entry.node_list().len() <= x < graph.node_list().len() ==> #[trigger] discovered(
                    *graph,
                    x,
                    parent as int,
                    entry.node_list().len() as int,
                ),
        decreases deps.len() - i,
    {
        let dep = &deps[i];
        let ghost before = *graph;
        proof {
            lemma_extends_ids(before, entry);
        }
        match graph.find_node(dep.plugin_id.as_str()) {
            Some(b) => {
                graph.push_edge(parent, b);
                proof {
                    assert(graph.extends(before)) by {
                        assert(graph.edge_list().take(before.edge_list().len() as int) =~= before.edge_list());
                        assert(graph.node_list().take(before.node_list().len() as int) =~= before.node_list());
                    }
                    lemma_extends_trans(*graph, before, entry);
                    assert(graph.edge_list()[before.edge_list().len() as int] == (parent as int, b as int));
                    assert(has_edge_to(*graph, parent as int, deps@[i as int].plugin_id@));
                    assert forall|j: int| 0 <= j < i implies has_edge_to(*graph, parent as int, (#[trigger] deps@[j]).plugin_id@) by {
                        lemma_extends_keeps_edge(*graph, before, parent as int, deps@[j].plugin_id@);
                    }
                    lemma_extends_ids(*graph, before);
                    assert(graph.ids() =~= before.ids());
                    assert forall|x: int|
                        entry.node_list().len() <= x < graph.node_list().len() implies #[trigger] expanded(*graph, catalog@, x) by {
                        lemma_expanded_extends(*graph, before, catalog@, x);
                    }
                    assert forall|x: int|
                        entry.node_list().len() <= x < graph.node_list().len() implies #[trigger] discovered(
                            *graph,
                            x,
                            parent as int,
                            entry.node_list().len() as int,
                        ) by {
                        lemma_discovered_extends(*graph, before, x, parent as int, entry.node_list().len() as int);
                    }
                }
            },
            None => {
                let node = DependencyNode {
                    plugin_id: dep.plugin_id.clone(),
                    version_constraint: dep.version_constraint.duplicate(),
                    resolved_version: None,
                    optional: dep.optional,
                    priority: depth,
                };
                let b = graph.insert_node(node);
                graph.push_edge(parent, b);
                let ghost mid = *graph;
                proof {
                    assert(graph.extends(before)) by {
                        assert(graph.edge_list().take(before.edge_list().len() as int) =~= before.edge_list());
                        assert(graph.node_list().take(before.node_list().len() as int) =~= before.node_list());
                    }
                    lemma_extends_trans(*graph, before, entry);
                    assert(graph.ids() =~= before.ids().push(dep.plugin_id@));
                    assert(graph.edge_list()[before.edge_list().len() as int] == (parent as int, b as int));
                    assert(has_edge_to(*graph, parent as int, deps@[i as int].plugin_id@));
                    assert forall|j: int| 0 <= j < i implies has_edge_to(*graph, parent as int, (#[trigger] deps@[j]).plugin_id@) by {
                        lemma_extends_keeps_edge(*graph, before, parent as int, deps@[j].plugin_id@);
                    }
                    lemma_unexpanded_push(catalog@, before.ids(), dep.plugin_id@);
                    assert forall|x: int|
                        entry.node_list().len() <= x < before.node_list().len() implies #[trigger] expanded(*graph, catalog@, x) by {
                        lemma_expanded_extends(*graph, before, catalog@, x);
                    }
                    assert(graph.ids()[b as int] == dep.plugin_id@);
                    assert forall|x: int|
                        entry.node_list().len() <= x < before.node_list().len() implies #[trigger] discovered(
                            *graph,
                            x,
                            parent as int,
                            entry.node_list().len() as int,
                        ) by {
                        lemma_discovered_extends(*graph, before, x, parent as int, entry.node_list().len() as int);
                    }
                    assert(before.node_list().take(entry.node_list().len() as int)[parent as int] == before.node_list()[parent as int]);
                    assert(graph.node_list()[parent as int] == before.node_list()[parent as int]);
                    let k = before.edge_list().len() as int;
                    assert(graph.edge_list()[k] == (parent as int, b as int));
                    assert(discovered(*graph, b as int, parent as int, entry.node_list().len() as int));
                }
                match find_catalog(catalog, dep.plugin_id.as_str()) {
                    Some(ci) => {
                        if catalog[ci].versions.len() > 0 {
                            proof {
                                assert(catalog_ids(catalog@)[ci as int] == dep.plugin_id@);
                                assert(catalog_ids(catalog@).contains(dep.plugin_id@));
                                lemma_unexpanded_push_decreases(catalog@, before.ids(), dep.plugin_id@);
                            }
                            expand(graph, catalog, b, &catalog[ci].versions[0].dependencies, depth + 1);
                            proof {
                                lemma_extends_trans(*graph, mid, entry);
                                lemma_extends_trans(*graph, mid, before);
                                assert forall|j: int| 0 <= j <= i implies has_edge_to(*graph, parent as int, (#[trigger] deps@[j]).plugin_id@) by {
                                    lemma_extends_keeps_edge(*graph, mid, parent as int, deps@[j].plugin_id@);
                                }
                                lemma_unexpanded_monotone(catalog@, mid, *graph);
                                assert(graph.node_list().take(mid.node_list().len() as int)[b as int] == graph.node_list()[b as int]);
                                assert(graph.ids()[b as int] == dep.plugin_id@);
                                assert(first_deps(catalog@, dep.plugin_id@) == Some(catalog@[ci as int].versions@[0].dependencies@));
                                assert(expanded(*graph, catalog@, b as int));
                                assert forall|x: int|
                                    entry.node_list().len() <= x < graph.node_list().len() implies #[trigger] expanded(*graph, catalog@, x) by {
                                    if x < b {
                                        lemma_expanded_extends(*graph, mid, catalog@, x);
                                    }
                                }
                                assert forall|x: int|
                                    entry.node_list().len() <= x < graph.node_list().len() implies #[trigger] discovered(
                                        *graph,
                                        x,
                                        parent as int,
                                        entry.node_list().len() as int,
                                    ) by {
                                    if x < mid.node_list().len() {
                                        lemma_discovered_extends(*graph, mid, x, parent as int, entry.node_list().len() as int);
                                    } else {
                                        lemma_discovered_widen(
                                            *graph,
                                            x,
                                            b as int,
                                            mid.node_list().len() as int,
                                            parent as int,
                                            entry.node_list().len() as int,
                                        );
                                    }
                                }
                            }
                        } else {
                            proof {
                                assert(first_deps(catalog@, dep.plugin_id@) is None);
                                assert(expanded(*graph, catalog@, b as int));
                            }
                        }
                    },
                    None => {
                        proof {
                            assert(first_deps(catalog@, dep.plugin_id@) is None);
                            assert(expanded(*graph, catalog@, b as int));
                        }
                    },
                }
            },
        }
        i = i + 1;
    }
}

/// Adding an id never increases the number of unexpanded catalog plugins.
proof fn lemma_unexpanded_push(c: Seq<AvailablePlugin>, ids: Seq<Seq<char>>, x: Seq<char>)
    ensures
        unexpanded(c, ids.push(x)) <= unexpanded(c, ids),
{
    let a = catalog_ids(c).to_set();
    ids.lemma_push_to_set_commute(x);
    assert(a.difference(ids.push(x).to_set()).subset_of(a.difference(ids.to_set())));
    vstd::set_lib::lemma_len_subset(a.difference(ids.push(x).to_set()), a.difference(ids.to_set()));
}

/// Adding a catalog id not yet in the graph lowers the count.
proof fn lemma_unexpanded_push_decreases(c: Seq<AvailablePlugin>, ids: Seq<Seq<char>>, x: Seq<char>)
    requires
        catalog_ids(c).contains(x),
        !ids.contains(x),
    ensures
        unexpanded(c, ids.push(x)) < unexpanded(c, ids),
{
    let a = catalog_ids(c).to_set();
    ids.lemma_push_to_set_commute(x);
    a.lemma_set_insert_diff_decreases(ids.to_set(), x);
}

proof fn lemma_unexpanded_monotone(c: Seq<AvailablePlugin>, old: DependencyGraph, new: DependencyGraph)
    requires
        new.extends(old),
    ensures
        unexpanded(c, new.ids()) <= unexpanded(c, old.ids()),
{
    lemma_extends_ids(new, old);
    let a = catalog_ids(c).to_set();
    assert(a.difference(new.ids().to_set()).subset_of(a.difference(old.ids().to_set())));
    vstd::set_lib::lemma_len_subset(a.difference(new.ids().to_set()), a.difference(old.ids().to_set()));
}


/// The view of a keyed entry.
pub open spec fn keyed_view(p: (u32, String)) -> (u32, Seq<char>) {
    (p.0, p.1@)
}

/// Views of keyed entries.
pub open spec fn keyed_seq(v: Seq<(u32, String)>) -> Seq<(u32, Seq<char>)> {
    v.map_values(|p: (u32, String)| keyed_view(p))
}

/// Entries whose key is `k`.
pub open spec fn key_is(k: u32) -> spec_fn((u32, Seq<char>)) -> bool {
    |p: (u32, Seq<char>)| p.0 == k
}

/// Keys never decrease along the sequence.
pub open spec fn sorted_by_key(s: Seq<(u32, Seq<char>)>) -> bool {
    forall|a: int, b: int| 0 <= a < b < s.len() ==> (#[trigger] s[a]).0 <= (#[trigger] s[b]).0
}

/// `out` is `input` sorted by key, with entries of equal key kept in
/// their input order.
pub open spec fn stable_sorted(input: Seq<(u32, Seq<char>)>, out: Seq<(u32, Seq<char>)>) -> bool {
    &&& sorted_by_key(out)
    &&& forall|k: u32| #[trigger] out.filter(key_is(k)) == input.filter(key_is(k))
}

fn sort_by_key_stable(input: &Vec<(u32, String)>, Ghost(key_of): Ghost<spec_fn(Seq<char>) -> u32>) -> (r: Vec<(u32, String)>)
    requires
        forall|q: int| 0 <= q < input@.len() ==> (#[trigger] keyed_seq(input@)[q]).0 == key_of(keyed_seq(input@)[q].1),
    ensures
        forall|q: int| 0 <= q < r@.len() ==> (#[trigger] keyed_seq(r@)[q]).0 == key_of(keyed_seq(r@)[q].1),
        stable_sorted(keyed_seq(input@), keyed_seq(r@)),
        r@.len() == input@.len(),
{
    broadcast use vstd::seq_lib::group_seq_properties;
    let ghost iv = keyed_seq(input@);
    let mut out: Vec<(u32, String)> = Vec::new();
    let mut taken: usize = 0;
    let ghost total = iv.len();
    proof {
        assert(iv.take(0).filter(key_is(0)) =~= Seq::<(u32, Seq<char>)>::empty());
    }
    while taken < input.len()
        invariant
            taken <= total,
            total == iv.len(),
            total == input@.len(),
            iv == keyed_seq(input@),
            out@.len() == taken,
            forall|q: int| 0 <= q < input@.len() ==> (#[trigger] keyed_seq(input@)[q]).0 == key_of(keyed_seq(input@)[q].1),
            forall|q: int| 0 <= q < out@.len() ==> (#[trigger] keyed_seq(out@)[q]).0 == key_of(keyed_seq(out@)[q].1),
            sorted_by_key(keyed_seq(out@)),
            forall|k: u32| #[trigger] keyed_seq(out@).filter(key_is(k))
                == iv.take(taken as int).filter(key_is(k)),
        decreases input.len() - taken,
    {
        let x = (input[taken].0, input[taken].1.clone());
        assert(keyed_view(x) == iv[taken as int]);
        let ghost ov = keyed_seq(out@);
        let mut pos: usize = 0;
        while pos < out.len() && out[pos].0 <= x.0
            invariant
                pos <= out@.len(),
                ov == keyed_seq(out@),
                forall|q: int| 0 <= q < pos ==> (#[trigger] ov[q]).0 <= x.0,
            decreases out.len() - pos,
        {
            pos = pos + 1;
        }
        proof {
            // everything from `pos` on has a larger key
            if pos < out@.len() {
                assert(ov[pos as int].0 > x.0);
                assert forall|q: int| pos <= q < ov.len() implies (#[trigger] ov[q]).0 > x.0 by {
                    if q > pos {
                        assert(ov[pos as int].0 <= ov[q].0);
                    }
                }
            }
        }
        let ghost xv = keyed_view(x);
        out.insert(pos, x);
        proof {
            let nv = keyed_seq(out@);
            let left = ov.take(pos as int);
            let right = ov.skip(pos as int);
            assert(nv =~= left + seq![xv] + right);
            assert forall|a: int, b: int| 0 <= a < b < nv.len() implies (#[trigger] nv[a]).0 <= (#[trigger] nv[b]).0 by {
                if a < pos && b < pos {
                    assert(nv[a] == ov[a] && nv[b] == ov[b]);
                } else if a < pos && b == pos {
                    assert(nv[a] == ov[a]);
                } else if a < pos {
                    assert(nv[a] == ov[a] && nv[b] == ov[b - 1]);
                } else if a == pos {
                    assert(nv[b] == ov[b - 1]);
                } else {
                    assert(nv[a] == ov[a - 1] && nv[b] == ov[b - 1]);
                }
            }
            assert(iv.take(taken + 1) =~= iv.take(taken as int).push(xv));
            assert(keyed_seq(input@)[taken as int] == xv);
            assert forall|q: int| 0 <= q < nv.len() implies (#[trigger] nv[q]).0 == key_of(nv[q].1) by {
                if q < pos {
                    assert(nv[q] == ov[q]);
                    assert(ov[q] == keyed_seq(out@)[q]) by {}
                } else if q == pos {
                    assert(nv[q] == xv);
                } else {
                    assert(nv[q] == ov[q - 1]);
                }
            }
            assert forall|k: u32| #[trigger] nv.filter(key_is(k)) == iv.take(taken + 1).filter(key_is(k)) by {
                Seq::filter_distributes_over_add(left + seq![xv], right, key_is(k));
                Seq::filter_distributes_over_add(left, seq![xv], key_is(k));
                Seq::filter_distributes_over_add(left, right, key_is(k));
                assert(ov =~= left + right);
                iv.take(taken as int).lemma_filter_push(xv, key_is(k));
                if k == xv.0 {
                    assert(right.all(|p: (u32, Seq<char>)| !key_is(k)(p)));
                    right.lemma_all_neg_filter_empty(key_is(k));
                    assert(right.filter(key_is(k)) =~= Seq::<(u32, Seq<char>)>::empty());
                    assert(seq![xv].filter(key_is(k)) =~= seq![xv]) by {
                        Seq::<(u32, Seq<char>)>::empty().lemma_filter_push(xv, key_is(k));
                        assert(Seq::<(u32, Seq<char>)>::empty().push(xv) =~= seq![xv]);
                        Seq::<(u32, Seq<char>)>::empty().lemma_all_neg_filter_empty(key_is(k));
                    }
                } else {
                    assert(seq![xv].filter(key_is(k)) =~= Seq::<(u32, Seq<char>)>::empty()) by {
                        Seq::<(u32, Seq<char>)>::empty().lemma_filter_push(xv, key_is(k));
                        assert(Seq::<(u32, Seq<char>)>::empty().push(xv) =~= seq![xv]);
                        Seq::<(u32, Seq<char>)>::empty().lemma_all_neg_filter_empty(key_is(k));
                    }
                }
            }
        }
        taken = taken + 1;
    }
    proof {
        assert(iv.take(total as int) =~= iv);
    }
    out
}


/// The plugin is registered but has no version with this text.
pub open spec fn version_missing(c: Seq<AvailablePlugin>, id: Seq<char>, version: Seq<char>) -> bool {
    match versions_in(c, id) {
        Some(vs) => forall|i: int| 0 <= i < vs.len() ==> (#[trigger] vs[i]).version@ != version,
        None => false,
    }
}

/// The plugin is registered with a version of this text.
pub open spec fn version_present(c: Seq<AvailablePlugin>, id: Seq<char>, version: Seq<char>) -> bool {
    match versions_in(c, id) {
        Some(vs) => exists|i: int| 0 <= i < vs.len() && (#[trigger] vs[i]).version@ == version,
        None => false,
    }
}

/// The dependencies of the first registered version of `id` whose text is
/// `version`: those the plugin resolved for is expanded through.
pub open spec fn root_deps(c: Seq<AvailablePlugin>, id: Seq<char>, version: Seq<char>) -> Seq<Dependency> {
    let vs = versions_in(c, id)->0;
    vs[choose|i: int| 0 <= i < vs.len() && (#[trigger] vs[i]).version@ == version
        && forall|j: int| 0 <= j < i ==> (#[trigger] vs[j]).version@ != version].dependencies@
}

/// The graph of a resolution rooted at `id` in `version`: the root's node
/// has priority 0 and an edge to each of its dependencies, and every other
/// node added from `start` on has an edge to each dependency it is
/// expanded through and was reached from the root or an earlier added
/// node, with a priority one more than that node's (its depth).
pub open spec fn closed_from(g: DependencyGraph, c: Seq<AvailablePlugin>, id: Seq<char>, version: Seq<char>, start: int) -> bool {
    exists|k: int| #[trigger] rooted_at(g, c, id, version, start, k)
}

/// The node at `k` is the root of `closed_from`.
pub open spec fn rooted_at(g: DependencyGraph, c: Seq<AvailablePlugin>, id: Seq<char>, version: Seq<char>, start: int, k: int) -> bool {
    &&& 0 <= k < g.ids().len()
    &&& g.ids()[k] == id
    &&& forall|j: int|
        0 <= j < root_deps(c, id, version).len() ==> has_edge_to(
            g,
            k,
            (#[trigger] root_deps(c, id, version)[j]).plugin_id@,
        )
    &&& g.node_list()[k].priority == 0
    &&& forall|x: int|
        start <= x < g.node_list().len() && x != k ==> #[trigger] expanded(g, c, x) && discovered(g, x, k, start)
}

/// `id` is a dependency of `p` through its first registered version.
pub open spec fn depends_first(c: Seq<AvailablePlugin>, p: Seq<char>, id: Seq<char>) -> bool {
    first_deps(c, p) matches Some(ds) && exists|j: int| 0 <= j < ds.len() && (#[trigger] ds[j]).plugin_id@ == id
}

/// `ps` is a path of dependencies from the root `root`: its first plugin
/// is one of the root's dependencies `rd`, and each later one is a
/// dependency, through its first registered version, of the one before,
/// which is not the root.
pub open spec fn dependency_path(c: Seq<AvailablePlugin>, root: Seq<char>, rd: Seq<Dependency>, ps: Seq<Seq<char>>) -> bool {
    &&& ps.len() > 0
    &&& exists|j: int| 0 <= j < rd.len() && (#[trigger] rd[j]).plugin_id@ == ps[0]
    &&& forall|i: int| 0 <= i < ps.len() - 1 ==> #[trigger] ps[i] != root && depends_first(c, ps[i], ps[i + 1])
}

/// An edge to `id` leaves a node whose id is in the graph.
proof fn lemma_edge_target_present(g: DependencyGraph, a: int, id: Seq<char>)
    requires
        g.wf(),
        has_edge_to(g, a, id),
    ensures
        g.ids().contains(id),
{
    let k = choose|k: int|
        0 <= k < g.edge_list().len() && (#[trigger] g.edge_list()[k]).0 == a && g.ids()[g.edge_list()[k].1] == id;
    reveal_wf_edge(g, k);
    assert(g.ids()[g.edge_list()[k].1] == id);
}

/// In the graph of a resolution rooted at `root` (every node added from
/// the start), every plugin on a path of dependencies from the root has a
/// node. With the installation order of `resolve`, which holds each node
/// exactly once, every such plugin is resolved or reported missing exactly
/// once.
pub proof fn law_reached_plugins_have_nodes(
    g: DependencyGraph,
    c: Seq<AvailablePlugin>,
    root: Seq<char>,
    version: Seq<char>,
    ps: Seq<Seq<char>>,
)
    requires
        g.wf(),
        closed_from(g, c, root, version, 0),
        dependency_path(c, root, root_deps(c, root, version), ps),
    ensures
        forall|i: int| 0 <= i < ps.len() ==> g.ids().contains(#[trigger] ps[i]),
    decreases ps.len(),
{
    let rd = root_deps(c, root, version);
    let k = choose|k: int| #[trigger] rooted_at(g, c, root, version, 0, k);
    if ps.len() == 1 {
        let j = choose|j: int| 0 <= j < rd.len() && (#[trigger] rd[j]).plugin_id@ == ps[0];
        assert(has_edge_to(g, k, rd[j].plugin_id@));
        lemma_edge_target_present(g, k, ps[0]);
    } else {
        let q = ps.drop_last();
        assert forall|i: int| 0 <= i < q.len() - 1 implies #[trigger] q[i] != root && depends_first(c, q[i], q[i + 1]) by {
            assert(q[i] == ps[i] && q[i + 1] == ps[i + 1]);
        }
        assert(q[0] == ps[0]);
        law_reached_plugins_have_nodes(g, c, root, version, q);
        let n = ps.len() - 1;
        let p = ps[n - 1];
        assert(p != root && depends_first(c, p, ps[n]));
        assert(q[n - 1] == p);
        assert(g.ids().contains(p));
        let x = choose|x: int| 0 <= x < g.ids().len() && g.ids()[x] == p;
        assert(x != k);
        assert(expanded(g, c, x));
        let ds = first_deps(c, p)->0;
        let j = choose|j: int| 0 <= j < ds.len() && (#[trigger] ds[j]).plugin_id@ == ps[n];
        assert(has_edge_to(g, x, ds[j].plugin_id@));
        lemma_edge_target_present(g, x, ps[n]);
        assert forall|i: int| 0 <= i < ps.len() implies g.ids().contains(#[trigger] ps[i]) by {
            if i < n {
                assert(q[i] == ps[i]);
            }
        }
    }
}

/// Plugin dependency resolver
pub struct DependencyResolver {
    available_plugins: Vec<AvailablePlugin>,
    graph: DependencyGraph,
    strategy: ResolutionStrategy,
}

/// The sort key an id installs by: the largest value less the priority of
/// its node (0 for an id without a node), so that higher priorities sort
/// first.
pub open spec fn priority_key(g: DependencyGraph, id: Seq<char>) -> u32 {
    if g.ids().contains(id) {
        (u32::MAX - g.node_list()[choose|i: int| 0 <= i < g.ids().len() && g.ids()[i] == id].priority) as u32
    } else {
        u32::MAX
    }
}

/// Ids paired with their sort keys.
pub open spec fn with_priorities(g: DependencyGraph, ids: Seq<Seq<char>>) -> Seq<(u32, Seq<char>)> {
    ids.map_values(|id: Seq<char>| (priority_key(g, id), id))
}

impl DependencyResolver {
    /// Registered plugins and their versions.
    pub closed spec fn catalog(&self) -> Seq<AvailablePlugin> {
        self.available_plugins@
    }

    /// The dependency graph built so far.
    pub closed spec fn graph_view(&self) -> DependencyGraph {
        self.graph
    }

    /// The version-selection strategy.
    pub closed spec fn strategy_view(&self) -> ResolutionStrategy {
        self.strategy
    }

    /// The catalog has unique ids and the graph is well formed.
    pub closed spec fn wf(&self) -> bool {
        &&& catalog_wf(self.available_plugins@)
        &&& self.graph.wf()
    }

    /// The node at position `x` has a version its constraint accepts.
    pub open spec fn resolvable(&self, x: int) -> bool {
        chosen_version(
            self.strategy_view(),
            self.catalog(),
            self.graph_view().ids()[x],
            self.graph_view().node_list()[x].version_constraint,
        ) is Some
    }

    /// Creates a resolver with an empty catalog and graph that prefers the
    /// newest versions.
    pub fn new() -> (r: DependencyResolver)
        ensures
            r.wf(),
            r.catalog() == Seq::<AvailablePlugin>::empty(),
            r.graph_view().node_list().len() == 0,
            r.graph_view().edge_list().len() == 0,
            r.strategy_view() == ResolutionStrategy::Newest,
    {
        DependencyResolver {
            available_plugins: Vec::new(),
            graph: DependencyGraph::new(),
            strategy: ResolutionStrategy::Newest,
        }
    }

    /// Sets the resolution strategy.
    pub fn with_strategy(self, strategy: ResolutionStrategy) -> (r: DependencyResolver)
        ensures
            r.catalog() == self.catalog(),
            r.graph_view() == self.graph_view(),
            r.strategy_view() == strategy,
            self.wf() ==> r.wf(),
    {
        let mut r = self;
        r.strategy = strategy;
        r
    }

    /// Number of plugins with registered versions.
    pub fn plugin_count(&self) -> (r: usize)
        ensures
            r == self.catalog().len(),
    {
        self.available_plugins.len()
    }

    /// Whether versions are registered for the plugin.
    pub fn has_plugin(&self, plugin_id: &str) -> (r: bool)
        requires
            self.wf(),
        ensures
            r == (versions_in(self.catalog(), plugin_id@) is Some),
    {
        find_catalog(&self.available_plugins, plugin_id).is_some()
    }

    /// Registers one more version of a plugin.
    pub fn register_plugin(&mut self, plugin_id: &str, version_info: PluginVersionInfo)
        requires
            old(self).wf(),
        ensures
            final(self).wf(),
            final(self).graph_view() == old(self).graph_view(),
            final(self).strategy_view() == old(self).strategy_view(),
            versions_in(final(self).catalog(), plugin_id@) == Some(
                match versions_in(old(self).catalog(), plugin_id@) {
                    Some(vs) => vs,
                    None => Seq::<PluginVersionInfo>::empty(),
                }.push(version_info),
            ),
            forall|other: Seq<char>|
                other != plugin_id@ ==> #[trigger] versions_in(final(self).catalog(), other)
                    == versions_in(old(self).catalog(), other),
    {
        match find_catalog(&self.available_plugins, plugin_id) {
            Some(i) => {
                let mut entry = self.available_plugins.remove(i);
                entry.versions.push(version_info);
                self.available_plugins.insert(i, entry);
                proof {
                    lemma_catalog_replace(old(self).available_plugins@, i as int, self.available_plugins@);
                }
            },
            None => {
                let mut versions: Vec<PluginVersionInfo> = Vec::new();
                versions.push(version_info);
                self.available_plugins.push(AvailablePlugin { id: owned(plugin_id), versions });
                proof {
                    lemma_catalog_push(old(self).available_plugins@, self.available_plugins@);
                }
            },
        }
    }

    /// Replaces the registered versions of a plugin.
    pub fn register_plugin_versions(&mut self, plugin_id: &str, versions: Vec<PluginVersionInfo>)
        requires
            old(self).wf(),
        ensures
            final(self).wf(),
            final(self).graph_view() == old(self).graph_view(),
            final(self).strategy_view() == old(self).strategy_view(),
            versions_in(final(self).catalog(), plugin_id@) == Some(versions@),
            forall|other: Seq<char>|
                other != plugin_id@ ==> #[trigger] versions_in(final(self).catalog(), other)
                    == versions_in(old(self).catalog(), other),
    {
        match find_catalog(&self.available_plugins, plugin_id) {
            Some(i) => {
                let mut entry = self.available_plugins.remove(i);
                entry.versions = versions;
                self.available_plugins.insert(i, entry);
                proof {
                    lemma_catalog_replace(old(self).available_plugins@, i as int, self.available_plugins@);
                }
            },
            None => {
                self.available_plugins.push(AvailablePlugin { id: owned(plugin_id), versions });
                proof {
                    lemma_catalog_push(old(self).available_plugins@, self.available_plugins@);
                }
            },
        }
    }

    /// The version the strategy picks for a plugin under a constraint.
    pub fn find_compatible_version(&self, plugin_id: &str, constraint: &VersionConstraint) -> (r:
        Option<String>)
        requires
            self.wf(),
        ensures
            match r {
                Some(v) => chosen_version(self.strategy_view(), self.catalog(), plugin_id@, *constraint)
                    == Some(v@),
                None => chosen_version(self.strategy_view(), self.catalog(), plugin_id@, *constraint) is None,
            },
    {
        let ci = match find_catalog(&self.available_plugins, plugin_id) {
            Some(ci) => ci,
            None => {
                return None;
            },
        };
        let vs = &self.available_plugins[ci].versions;
        let newest = match self.strategy {
            ResolutionStrategy::Oldest => false,
            _ => true,
        };
        let mut best: Option<usize> = None;
        let mut best_key: Option<(u32, u32, u32)> = None;
        let mut i: usize = 0;
        assert(vs@.take(0) =~= Seq::<PluginVersionInfo>::empty());
        while i < vs.len()
            invariant
                i <= vs@.len(),
                versions_in(self.catalog(), plugin_id@) == Some(vs@),
                newest == (self.strategy != ResolutionStrategy::Oldest),
                best is None <==> best_index(vs@.take(i as int), *constraint, newest) is None,
                best matches Some(j) ==> best_index(vs@.take(i as int), *constraint, newest) == Some(j as int)
                    && j < i && best_key == version_key(vs@[j as int].version@),
            decreases vs.len() - i,
        {
            assert(vs@.take(i + 1).drop_last() =~= vs@.take(i as int));
            assert(vs@.take(i + 1)[i as int] == vs@[i as int]);
            proof {
                if let Some(j) = best_index(vs@.take(i as int), *constraint, newest) {
                    lemma_best_index(vs@.take(i as int), *constraint, newest);
                    assert(vs@.take(i as int)[j] == vs@[j]);
                }
            }
            if constraint.satisfies(vs[i].version.as_str()) {
                let k = parse_key(vs[i].version.as_str());
                let take = match best {
                    None => true,
                    Some(_) => prefer_key(k, best_key, newest),
                };
                if take {
                    best = Some(i);
                    best_key = k;
                }
            }
            i = i + 1;
        }
        assert(vs@.take(vs@.len() as int) =~= vs@);
        match best {
            Some(j) => Some(vs[j].version.clone()),
            None => None,
        }
    }

    /// Builds the dependency graph of `plugin_id` at `version` and resolves
    /// every plugin in it, dependencies first.
    pub fn resolve(&mut self, plugin_id: &str, version: &str) -> (r: Result<ResolutionResult, DependencyError>)
        requires
            old(self).wf(),
            old(self).catalog().len() < u32::MAX,
        ensures
            final(self).wf(),
            final(self).catalog() == old(self).catalog(),
            final(self).strategy_view() == old(self).strategy_view(),
            versions_in(old(self).catalog(), plugin_id@) is None <==> r matches Err(
                DependencyError::PluginNotFound(_),
            ),
            r matches Err(DependencyError::PluginNotFound(p)) ==> p@ == plugin_id@,
            r matches Err(DependencyError::VersionNotFound(v)) ==> v@ == version@ && version_missing(
                old(self).catalog(),
                plugin_id@,
                version@,
            ),
            version_missing(old(self).catalog(), plugin_id@, version@) ==> r matches Err(
                DependencyError::VersionNotFound(_),
            ),
            r matches Err(DependencyError::CircularDependency) ==> !acyclic(
                final(self).graph_view().node_list().len(),
                final(self).graph_view().edge_list(),
            ),
            version_present(old(self).catalog(), plugin_id@, version@) ==> {
                &&& final(self).graph_view().ids().contains(plugin_id@)
                &&& closed_from(
                    final(self).graph_view(),
                    old(self).catalog(),
                    plugin_id@,
                    version@,
                    old(self).graph_view().node_list().len() as int,
                )
                &&& (r is Ok <==> acyclic(
                    final(self).graph_view().node_list().len(),
                    final(self).graph_view().edge_list(),
                ))
            },
            r matches Ok(res) ==> {
                let g = final(self).graph_view();
                let fs = *final(self);
                &&& res.conflicts@.len() == 0
                &&& res.is_complete == (res.missing@.len() == 0)
                &&& exists|o: Seq<int>|
                    {
                        &&& is_install_order(g.node_list().len(), g.edge_list(), o)
                        &&& res.resolved@.len() == o.filter(|x: int| fs.resolvable(x)).len()
                        &&& res.missing@.len() == o.filter(|x: int| !fs.resolvable(x)).len()
                        &&& forall|q: int|
                            0 <= q < res.resolved@.len() ==> {
                                let x = o.filter(|x: int| fs.resolvable(x))[q];
                                &&& (#[trigger] res.resolved@[q]).plugin_id@ == g.ids()[x]
                                &&& Some(res.resolved@[q].version@) == chosen_version(
                                    fs.strategy_view(),
                                    fs.catalog(),
                                    g.ids()[x],
                                    g.node_list()[x].version_constraint,
                                )
                                &&& res.resolved@[q].required_by@.map_values(|s: String| s@)
                                    == dependents_of(g.ids(), g.edge_list(), x)
                            }
                        &&& forall|q: int|
                            0 <= q < res.missing@.len() ==> {
                                let x = o.filter(|x: int| !fs.resolvable(x))[q];
                                &&& (#[trigger] res.missing@[q]).plugin_id@ == g.ids()[x]
                                &&& same_constraint(res.missing@[q].constraint, g.node_list()[x].version_constraint)
                                &&& res.missing@[q].required_by@.map_values(|s: String| s@)
                                    == dependents_of(g.ids(), g.edge_list(), x)
                            }
                    }
            },
    {
        let ci = match find_catalog(&self.available_plugins, plugin_id) {
            Some(ci) => ci,
            None => {
                return Err(DependencyError::PluginNotFound(owned(plugin_id)));
            },
        };
        let ghost vs = self.available_plugins@[ci as int].versions@;
        let key = owned(version);
        let mut vi: usize = 0;
        let mut found = false;
        while vi < self.available_plugins[ci].versions.len() && !found
            invariant
                ci < self.available_plugins@.len(),
                vs == self.available_plugins@[ci as int].versions@,
                versions_in(self.available_plugins@, plugin_id@) == Some(vs),
                vi <= vs.len(),
                key@ == version@,
                found ==> vi < vs.len() && vs[vi as int].version@ == version@,
                forall|j: int| 0 <= j < vi ==> (#[trigger] vs[j]).version@ != version@,
            decreases vs.len() - vi + (if found {
                0int
            } else {
                1int
            }),
        {
            if strings_equal(&self.available_plugins[ci].versions[vi].version, &key) {
                found = true;
            } else {
                vi = vi + 1;
            }
        }
        if !found {
            return Err(DependencyError::VersionNotFound(key));
        }
        proof {
            assert(vs[vi as int].version@ == version@);
            assert(versions_in(self.available_plugins@, plugin_id@) == Some(vs));
            let w = versions_in(self.available_plugins@, plugin_id@)->0;
            assert(w[vi as int].version@ == version@);
            assert(version_present(self.available_plugins@, plugin_id@, version@));
            assert(!version_missing(self.available_plugins@, plugin_id@, version@));
        }
        let root = DependencyNode {
            plugin_id: owned(plugin_id),
            version_constraint: VersionConstraint::exact(version),
            resolved_version: Some(owned(version)),
            optional: false,
            priority: 0,
        };
        let ghost g0 = self.graph;
        let root_idx = self.graph.insert_node(root);
        let ghost g_root = self.graph;
        proof {
            assert(self.graph.ids()[root_idx as int] == plugin_id@);
            lemma_unexpanded_bound(self.available_plugins@, self.graph.ids());
        }
        expand(&mut self.graph, &self.available_plugins, root_idx, &self.available_plugins[ci].versions[vi].dependencies, 1);
        proof {
            lemma_extends_ids(self.graph, g_root);
            assert(self.graph.node_list().take(g_root.node_list().len() as int)[root_idx as int] == self.graph.node_list()[root_idx as int]);
            assert(self.graph.ids()[root_idx as int] == plugin_id@);
            assert(self.graph.ids().contains(plugin_id@));
            let c = self.available_plugins@;
            let w = versions_in(c, plugin_id@)->0;
            assert(w == vs);
            let m = choose|i: int| 0 <= i < w.len() && (#[trigger] w[i]).version@ == version@
                && forall|j: int| 0 <= j < i ==> (#[trigger] w[j]).version@ != version@;
            assert(0 <= m < w.len() && w[m].version@ == version@ && forall|j: int| 0 <= j < m ==> (#[trigger] w[j]).version@ != version@);
            if m < vi {
                assert(w[m].version@ != version@);
            }
            if vi < m {
                assert(w[vi as int].version@ != version@);
            }
            assert(root_deps(c, plugin_id@, version@) == vs[vi as int].dependencies@);
            assert(self.graph.node_list()[root_idx as int].priority == 0);
            assert forall|x: int|
                g0.node_list().len() <= x < self.graph.node_list().len() && x != root_idx implies #[trigger] expanded(self.graph, c, x)
                && discovered(self.graph, x, root_idx as int, g0.node_list().len() as int) by {
                if x < g_root.node_list().len() {
                    assert(x == root_idx);
                }
                lemma_discovered_widen(
                    self.graph,
                    x,
                    root_idx as int,
                    g_root.node_list().len() as int,
                    root_idx as int,
                    g0.node_list().len() as int,
                );
            }
            assert(rooted_at(self.graph, c, plugin_id@, version@, g0.node_list().len() as int, root_idx as int));
            assert(closed_from(self.graph, c, plugin_id@, version@, g0.node_list().len() as int));
        }
        let order = match self.graph.install_positions() {
            Some(o) => o,
            None => {
                return Err(DependencyError::CircularDependency);
            },
        };
        let ghost o = order@.map_values(|x: usize| x as int);
        let ghost fs = *self;
        let mut resolved: Vec<ResolvedDependency> = Vec::new();
        let mut missing: Vec<MissingDependency> = Vec::new();
        let mut i: usize = 0;
        while i < order.len()
            invariant
                self.wf(),
                fs == *self,
                o == order@.map_values(|x: usize| x as int),
                i <= order@.len(),
                forall|q: int| 0 <= q < order@.len() ==> (#[trigger] order@[q]) < self.graph.nodes@.len(),
                resolved@.len() == o.take(i as int).filter(|x: int| fs.resolvable(x)).len(),
                missing@.len() == o.take(i as int).filter(|x: int| !fs.resolvable(x)).len(),
                forall|q: int|
                    0 <= q < resolved@.len() ==> {
                        let x = o.take(i as int).filter(|x: int| fs.resolvable(x))[q];
                        &&& (#[trigger] resolved@[q]).plugin_id@ == self.graph.ids()[x]
                        &&& Some(resolved@[q].version@) == chosen_version(
                            fs.strategy_view(),
                            fs.catalog(),
                            self.graph.ids()[x],
                            self.graph.node_list()[x].version_constraint,
                        )
                        &&& resolved@[q].required_by@.map_values(|s: String| s@)
                            == dependents_of(self.graph.ids(), self.graph.edge_list(), x)
                    },
                forall|q: int|
                    0 <= q < missing@.len() ==> {
                        let x = o.take(i as int).filter(|x: int| !fs.resolvable(x))[q];
                        &&& (#[trigger] missing@[q]).plugin_id@ == self.graph.ids()[x]
                        &&& same_constraint(missing@[q].constraint, self.graph.node_list()[x].version_constraint)
                        &&& missing@[q].required_by@.map_values(|s: String| s@)
                            == dependents_of(self.graph.ids(), self.graph.edge_list(), x)
                    },
            decreases order.len() - i,
        {
            let x = order[i];
            let node = &self.graph.nodes[x];
            let deps = self.graph.dependents(x);
            let ghost deps_view = deps@.map_values(|s: String| s@);
            assert(deps_view =~= dependents_of(self.graph.ids(), self.graph.edge_list(), x as int));
            proof {
                assert(o.take(i + 1) =~= o.take(i as int).push(x as int));
                o.take(i as int).lemma_filter_push(x as int, |x: int| fs.resolvable(x));
                o.take(i as int).lemma_filter_push(x as int, |x: int| !fs.resolvable(x));
                assert(self.graph.ids()[x as int] == node.plugin_id@);
            }
            match self.find_compatible_version(node.plugin_id.as_str(), &node.version_constraint) {
                Some(v) => {
                    resolved.push(ResolvedDependency {
                        plugin_id: node.plugin_id.clone(),
                        version: v,
                        required_by: deps,
                    });
                },
                None => {
                    missing.push(MissingDependency {
                        plugin_id: node.plugin_id.clone(),
                        constraint: node.version_constraint.duplicate(),
                        required_by: deps,
                    });
                },
            }
            i = i + 1;
        }
        proof {
            assert(o.take(o.len() as int) =~= o);
        }
        let is_complete = missing.len() == 0;
        Ok(ResolutionResult { resolved, missing, conflicts: Vec::new(), is_complete })
    }

    /// Ids of the resolved plugins in installation order: higher node
    /// priority first, so that the deepest dependencies come first and the
    /// plugin resolved for comes last (an id without a node counts as
    /// priority 0), keeping the given order among equal priorities.
    pub fn get_installation_order(&self, resolved: &[ResolvedDependency]) -> (r: Vec<String>)
        requires
            self.wf(),
        ensures
            stable_sorted(
                with_priorities(self.graph_view(), resolved@.map_values(|d: ResolvedDependency| d.plugin_id@)),
                with_priorities(self.graph_view(), r@.map_values(|s: String| s@)),
            ),
    {
        let mut keyed: Vec<(u32, String)> = Vec::new();
        let mut i: usize = 0;
        let ghost ids = resolved@.map_values(|d: ResolvedDependency| d.plugin_id@);
        while i < resolved.len()
            invariant
                i <= resolved@.len(),
                self.wf(),
                ids == resolved@.map_values(|d: ResolvedDependency| d.plugin_id@),
                keyed_seq(keyed@) == with_priorities(self.graph, ids.take(i as int)),
                forall|q: int|
                    0 <= q < keyed@.len() ==> (#[trigger] keyed_seq(keyed@)[q]).0 == priority_key(
                        self.graph,
                        keyed_seq(keyed@)[q].1,
                    ),
            decreases resolved.len() - i,
        {
            let id = &resolved[i].plugin_id;
            let k: u32 = match self.graph.find_node(id.as_str()) {
                Some(n) => {
                    proof {
                        assert(self.graph.ids().contains(id@));
                        let c = choose|j: int| 0 <= j < self.graph.ids().len() && self.graph.ids()[j] == id@;
                        lemma_unique_position(self.graph, c, n as int);
                        assert(priority_key(self.graph, id@) == u32::MAX - self.graph.nodes@[n as int].priority);
                    }
                    u32::MAX - self.graph.nodes[n].priority
                },
                None => u32::MAX,
            };
            assert(k == priority_key(self.graph, id@));
            let ghost before = keyed_seq(keyed@);
            keyed.push((k, id.clone()));
            assert(keyed_seq(keyed@) =~= before.push((k, id@)));
            assert(ids.take(i + 1) =~= ids.take(i as int).push(id@));
            assert(keyed_seq(keyed@) =~= with_priorities(self.graph, ids.take(i + 1)));
            i = i + 1;
        }
        assert(ids.take(ids.len() as int) =~= ids);
        let ghost g = self.graph;
        let sorted = sort_by_key_stable(&keyed, Ghost(|id: Seq<char>| priority_key(g, id)));
        proof {
            assert forall|q: int| 0 <= q < sorted@.len() implies (#[trigger] sorted@[q]).0 == priority_key(self.graph, sorted@[q].1@) by {
                assert(keyed_seq(sorted@)[q] == keyed_view(sorted@[q]));
            }
        }
        let mut out: Vec<String> = Vec::new();
        let mut j: usize = 0;
        while j < sorted.len()
            invariant
                j <= sorted@.len(),
                self.wf(),
                stable_sorted(keyed_seq(keyed@), keyed_seq(sorted@)),
                forall|q: int| 0 <= q < sorted@.len() ==> (#[trigger] sorted@[q]).0 == priority_key(self.graph, sorted@[q].1@),
                out@.len() == j,
                forall|q: int| 0 <= q < j ==> (#[trigger] out@[q])@ == sorted@[q].1@,
            decreases sorted.len() - j,
        {
            out.push(sorted[j].1.clone());
            j = j + 1;
        }
        assert(with_priorities(self.graph, out@.map_values(|s: String| s@)) =~= keyed_seq(sorted@));
        out
    }
}

/// Two positions of a well-formed graph with the same id are the same.
proof fn lemma_unique_position(g: DependencyGraph, a: int, b: int)
    requires
        g.wf(),
        0 <= a < g.ids().len(),
        0 <= b < g.ids().len(),
        g.ids()[a] == g.ids()[b],
    ensures
        a == b,
{
    assert(g.ids()[a] == g.node_list()[a].plugin_id@);
    assert(g.ids()[b] == g.node_list()[b].plugin_id@);
    if a < b {
        assert(g.nodes@[a].plugin_id@ != g.nodes@[b].plugin_id@);
    } else if b < a {
        assert(g.nodes@[b].plugin_id@ != g.nodes@[a].plugin_id@);
    }
}

proof fn lemma_unexpanded_bound(c: Seq<AvailablePlugin>, ids: Seq<Seq<char>>)
    ensures
        unexpanded(c, ids) <= c.len(),
{
    catalog_ids(c).lemma_cardinality_of_set();
    vstd::set_lib::lemma_len_difference(catalog_ids(c).to_set(), ids.to_set());
}

/// Replacing the versions of an existing catalog entry changes only that
/// plugin's versions.
proof fn lemma_catalog_replace(old_c: Seq<AvailablePlugin>, i: int, new_c: Seq<AvailablePlugin>)
    requires
        catalog_wf(old_c),
        0 <= i < old_c.len(),
        new_c.len() == old_c.len(),
        new_c[i].id@ == old_c[i].id@,
        forall|j: int| 0 <= j < old_c.len() && j != i ==> new_c[j] == old_c[j],
    ensures
        catalog_wf(new_c),
        versions_in(new_c, old_c[i].id@) == Some(new_c[i].versions@),
        versions_in(old_c, old_c[i].id@) == Some(old_c[i].versions@),
        forall|other: Seq<char>|
            other != old_c[i].id@ ==> #[trigger] versions_in(new_c, other) == versions_in(old_c, other),
{
    assert forall|a: int, b: int| 0 <= a < b < new_c.len() implies (#[trigger] new_c[a]).id@ != (#[trigger] new_c[b]).id@ by {
        assert(old_c[a].id@ != old_c[b].id@);
    }
    let id = old_c[i].id@;
    let k1 = choose|k: int| 0 <= k < new_c.len() && (#[trigger] new_c[k]).id@ == id;
    assert(new_c[i].id@ == id);
    if k1 != i {
        assert(new_c[k1] == old_c[k1]);
        if k1 < i { assert(old_c[k1].id@ != old_c[i].id@); } else { assert(old_c[i].id@ != old_c[k1].id@); }
    }
    let k0 = choose|k: int| 0 <= k < old_c.len() && (#[trigger] old_c[k]).id@ == id;
    assert(old_c[i].id@ == id);
    if k0 != i {
        if k0 < i { assert(old_c[k0].id@ != old_c[i].id@); } else { assert(old_c[i].id@ != old_c[k0].id@); }
    }
    assert forall|other: Seq<char>| other != id implies #[trigger] versions_in(new_c, other) == versions_in(old_c, other) by {
        if exists|k: int| 0 <= k < old_c.len() && (#[trigger] old_c[k]).id@ == other {
            let a = choose|k: int| 0 <= k < old_c.len() && (#[trigger] old_c[k]).id@ == other;
            assert(a != i);
            assert(new_c[a] == old_c[a]);
            let b = choose|k: int| 0 <= k < new_c.len() && (#[trigger] new_c[k]).id@ == other;
            assert(b != i);
            assert(new_c[b] == old_c[b]);
            if a < b { assert(old_c[a].id@ != old_c[b].id@); } else if b < a { assert(old_c[b].id@ != old_c[a].id@); }
        }
        if exists|k: int| 0 <= k < new_c.len() && (#[trigger] new_c[k]).id@ == other {
            let b = choose|k: int| 0 <= k < new_c.len() && (#[trigger] new_c[k]).id@ == other;
            assert(b != i);
            assert(old_c[b].id@ == other);
        }
    }
}

/// Appending an entry with a fresh id adds only that plugin.
proof fn lemma_catalog_push(old_c: Seq<AvailablePlugin>, new_c: Seq<AvailablePlugin>)
    requires
        catalog_wf(old_c),
        new_c.len() == old_c.len() + 1,
        forall|j: int| 0 <= j < old_c.len() ==> new_c[j] == old_c[j],
        versions_in(old_c, new_c.last().id@) is None,
    ensures
        catalog_wf(new_c),
        versions_in(new_c, new_c.last().id@) == Some(new_c.last().versions@),
        forall|other: Seq<char>|
            other != new_c.last().id@ ==> #[trigger] versions_in(new_c, other) == versions_in(old_c, other),
{
    let id = new_c.last().id@;
    let n = old_c.len() as int;
    assert forall|j: int| 0 <= j < old_c.len() implies old_c[j].id@ != id by {
        if old_c[j].id@ == id {
            assert(exists|k: int| 0 <= k < old_c.len() && (#[trigger] old_c[k]).id@ == id);
        }
    }
    assert forall|a: int, b: int| 0 <= a < b < new_c.len() implies (#[trigger] new_c[a]).id@ != (#[trigger] new_c[b]).id@ by {
        if b < n {
            assert(old_c[a].id@ != old_c[b].id@);
        } else {
            assert(new_c[a] == old_c[a]);
        }
    }
    assert(new_c[n].id@ == id);
    let k = choose|k: int| 0 <= k < new_c.len() && (#[trigger] new_c[k]).id@ == id;
    if k != n {
        assert(new_c[k] == old_c[k]);
    }
    assert forall|other: Seq<char>| other != id implies #[trigger] versions_in(new_c, other) == versions_in(old_c, other) by {
        if exists|k: int| 0 <= k < old_c.len() && (#[trigger] old_c[k]).id@ == other {
            let a = choose|k: int| 0 <= k < old_c.len() && (#[trigger] old_c[k]).id@ == other;
            assert(new_c[a] == old_c[a]);
            let b = choose|k: int| 0 <= k < new_c.len() && (#[trigger] new_c[k]).id@ == other;
            assert(b != n);
            assert(new_c[b] == old_c[b]);
            if a < b { assert(old_c[a].id@ != old_c[b].id@); } else if b < a { assert(old_c[b].id@ != old_c[a].id@); }
        }
        if exists|k: int| 0 <= k < new_c.len() && (#[trigger] new_c[k]).id@ == other {
            let b = choose|k: int| 0 <= k < new_c.len() && (#[trigger] new_c[k]).id@ == other;
            assert(b != n);
            assert(new_c[b] == old_c[b]);
        }
    }
}

} // verus!
