//! Partition of a document's operations into the groups that are generated.
//!
//! Groups whose warning speaks of deprecation are skipped whole; within a kept
//! group, deprecated operations are skipped, and of two operations with the
//! same method and path only the one that comes later in the document stays.

use vstd::prelude::*;
use crate::model::{Document, Group, HttpMethod};
use crate::text::{contains_text, lower_of, lowercase, occurs_in};

verus! {

/// One operation of a document: the index of its path item and its method.
#[derive(Clone, Copy, Debug, PartialEq, Eq, Structural)]
pub struct OpRef {
    pub path: usize,
    pub method: HttpMethod,
}

/// A group that is generated, with the operations that its module holds, in order.
#[derive(Clone, Debug)]
pub struct GroupPlan {
    /// Index of the group in the document's group list.
    pub group: usize,
    pub operations: Vec<OpRef>,
}

/// A group is left out when its warning title, lower-cased, holds "deprecated".
pub open spec fn excluded(g: Group) -> bool {
    match g.warning_title {
        Some(t) => occurs_in(lower_of(t@), "deprecated"@),
        None => false,
    }
}

/// Path item `i` defines a non-deprecated operation for `m` that belongs to group `gid`.
pub open spec fn qualifies(doc: Document, gid: Seq<char>, i: int, m: HttpMethod) -> bool {
    0 <= i < doc.paths.len() && match doc.paths@[i].spec_operation(m) {
        Some(op) => !op.deprecated && op.group@ == gid,
        None => false,
    }
}

/// A later path item with the same path also qualifies for `m`: it wins.
pub open spec fn superseded(doc: Document, gid: Seq<char>, i: int, m: HttpMethod) -> bool {
    exists|j: int|
        i < j < doc.paths.len() && doc.paths@[j].path@ == doc.paths@[i].path@ && #[trigger] qualifies(
            doc,
            gid,
            j,
            m,
        )
}

/// The operation of path item `i` for `m` is generated in group `gid`.
pub open spec fn selected(doc: Document, gid: Seq<char>, i: int, m: HttpMethod) -> bool {
    qualifies(doc, gid, i, m) && !superseded(doc, gid, i, m)
}

pub open spec fn ref_of(i: int, m: HttpMethod) -> OpRef {
    OpRef { path: i as usize, method: m }
}

/// The selected operations of path item `i`, in method order.
pub open spec fn selected_at(doc: Document, gid: Seq<char>, i: int) -> Seq<OpRef> {
    (if selected(doc, gid, i, HttpMethod::Get) {
        seq![ref_of(i, HttpMethod::Get)]
    } else {
        seq![]
    }) + (if selected(doc, gid, i, HttpMethod::Post) {
        seq![ref_of(i, HttpMethod::Post)]
    } else {
        seq![]
    }) + (if selected(doc, gid, i, HttpMethod::Delete) {
        seq![ref_of(i, HttpMethod::Delete)]
    } else {
        seq![]
    })
}

/// The selected operations of the first `n` path items, in document order.
pub open spec fn selected_upto(doc: Document, gid: Seq<char>, n: int) -> Seq<OpRef>
    decreases n,
{
    if n <= 0 {
        seq![]
    } else {
        selected_upto(doc, gid, n - 1) + selected_at(doc, gid, n - 1)
    }
}

/// The operations generated for group `gid`, in document order.
pub open spec fn group_operations(doc: Document, gid: Seq<char>) -> Seq<OpRef> {
    selected_upto(doc, gid, doc.paths.len() as int)
}

/// The plans of the first `k` groups that are not left out.
pub open spec fn plans_upto(doc: Document, k: int) -> Seq<(int, Seq<OpRef>)>
    decreases k,
{
    if k <= 0 {
        seq![]
    } else if excluded(doc.groups@[k - 1]) {
        plans_upto(doc, k - 1)
    } else {
        plans_upto(doc, k - 1).push((k - 1, group_operations(doc, doc.groups@[k - 1].id@)))
    }
}

/// Every group that is not left out, in document order, with its operations.
pub open spec fn classified(doc: Document) -> Seq<(int, Seq<OpRef>)> {
    plans_upto(doc, doc.groups.len() as int)
}

pub open spec fn plan_view(p: GroupPlan) -> (int, Seq<OpRef>) {
    (p.group as int, p.operations@)
}

/// Whether group `g` is left out of generation.
pub fn is_excluded(g: &Group) -> (r: bool)
    ensures
        r == excluded(*g),
{
    match &g.warning_title {
        Some(t) => {
            let lower = lowercase(t.as_str());
            contains_text(lower.as_str(), "deprecated")
        },
        None => false,
    }
}

fn qualifies_exec(doc: &Document, gid: &String, i: usize, m: HttpMethod) -> (r: bool)
    requires
        i < doc.paths.len(),
    ensures
        r == qualifies(*doc, gid@, i as int, m),
{
    match doc.paths[i].operation(m) {
        Some(op) => !op.deprecated && op.group.eq(gid),
        None => false,
    }
}

fn selected_exec(doc: &Document, gid: &String, i: usize, m: HttpMethod) -> (r: bool)
    requires
        i < doc.paths.len(),
    ensures
        r == selected(*doc, gid@, i as int, m),
{
    if !qualifies_exec(doc, gid, i, m) {
        return false;
    }
    let mut j: usize = i + 1;
    while j < doc.paths.len()
        invariant
            i < j <= doc.paths.len(),
            forall|k: int|
                i < k < j && doc.paths@[k].path@ == doc.paths@[i as int].path@ ==> !qualifies(
                    *doc,
                    gid@,
                    k,
                    m,
                ),
        decreases doc.paths.len() - j,
    {
        if doc.paths[j].path.eq(&doc.paths[i].path) && qualifies_exec(doc, gid, j, m) {
            assert(qualifies(*doc, gid@, j as int, m));
            return false;
        }
        j = j + 1;
    }
    true
}

/// The operations generated for group `gid`: see `group_operations`.
pub fn operations_of_group(doc: &Document, gid: &String) -> (r: Vec<OpRef>)
    ensures
        r@ == group_operations(*doc, gid@),
{
    let mut r: Vec<OpRef> = Vec::new();
    let mut i: usize = 0;
    while i < doc.paths.len()
        invariant
            i <= doc.paths.len(),
            r@ == selected_upto(*doc, gid@, i as int),
        decreases doc.paths.len() - i,
    {
        let ghost before = r@;
        if selected_exec(doc, gid, i, HttpMethod::Get) {
            r.push(OpRef { path: i, method: HttpMethod::Get });
        }
        if selected_exec(doc, gid, i, HttpMethod::Post) {
            r.push(OpRef { path: i, method: HttpMethod::Post });
        }
        if selected_exec(doc, gid, i, HttpMethod::Delete) {
            r.push(OpRef { path: i, method: HttpMethod::Delete });
        }
        assert(r@ =~= before + selected_at(*doc, gid@, i as int));
        i = i + 1;
    }
    r
}

/// Splits the document's operations into the plans of the groups that are generated.
pub fn classify(doc: &Document) -> (r: Vec<GroupPlan>)
    ensures
        r@.map_values(|p: GroupPlan| plan_view(p)) == classified(*doc),
{
    let mut r: Vec<GroupPlan> = Vec::new();
    let mut k: usize = 0;
    while k < doc.groups.len()
        invariant
            k <= doc.groups.len(),
            r@.map_values(|p: GroupPlan| plan_view(p)) == plans_upto(*doc, k as int),
        decreases doc.groups.len() - k,
    {
        let ghost before = r@;
        if !is_excluded(&doc.groups[k]) {
            let ops = operations_of_group(doc, &doc.groups[k].id);
            r.push(GroupPlan { group: k, operations: ops });
            assert(r@.map_values(|p: GroupPlan| plan_view(p)) =~= before.map_values(
                |p: GroupPlan| plan_view(p),
            ).push((k as int, group_operations(*doc, doc.groups@[k as int].id@))));
        }
        k = k + 1;
    }
    r
}

/// Path item `i` defines an operation for `m`, and so does a later path item
/// with the same path: the later one replaces it.
pub open spec fn collides(doc: Document, i: int, m: HttpMethod) -> bool {
    &&& 0 <= i < doc.paths.len()
    &&& doc.paths@[i].spec_operation(m) is Some
    &&& exists|j: int|
        i < j < doc.paths.len() && doc.paths@[j].path@ == doc.paths@[i].path@
            && (#[trigger] doc.paths@[j].spec_operation(m)) is Some
}

/// The replaced operations of path item `i`, in method order.
pub open spec fn collisions_at(doc: Document, i: int) -> Seq<OpRef> {
    (if collides(doc, i, HttpMethod::Get) {
        seq![ref_of(i, HttpMethod::Get)]
    } else {
        seq![]
    }) + (if collides(doc, i, HttpMethod::Post) {
        seq![ref_of(i, HttpMethod::Post)]
    } else {
        seq![]
    }) + (if collides(doc, i, HttpMethod::Delete) {
        seq![ref_of(i, HttpMethod::Delete)]
    } else {
        seq![]
    })
}

/// The replaced operations of the first `n` path items, in document order.
pub open spec fn collisions_upto(doc: Document, n: int) -> Seq<OpRef>
    decreases n,
{
    if n <= 0 {
        seq![]
    } else {
        collisions_upto(doc, n - 1) + collisions_at(doc, n - 1)
    }
}

fn collides_exec(doc: &Document, i: usize, m: HttpMethod) -> (r: bool)
    requires
        i < doc.paths.len(),
    ensures
        r == collides(*doc, i as int, m),
{
    if doc.paths[i].operation(m).is_none() {
        return false;
    }
    let mut j: usize = i + 1;
    while j < doc.paths.len()
        invariant
            i < j <= doc.paths.len(),
            doc.paths@[i as int].spec_operation(m) is Some,
            forall|k: int|
                i < k < j && doc.paths@[k].path@ == doc.paths@[i as int].path@ ==> (
                #[trigger] doc.paths@[k].spec_operation(m)) is None,
        decreases doc.paths.len() - j,
    {
        if doc.paths[j].path.eq(&doc.paths[i].path) && doc.paths[j].operation(m).is_some() {
            assert(doc.paths@[j as int].spec_operation(m) is Some);
            return true;
        }
        j = j + 1;
    }
    false
}

/// Every operation that a later one on the same method and path replaces, in
/// document order, so that a caller can report each collision.
pub fn key_collisions(doc: &Document) -> (r: Vec<OpRef>)
    ensures
        r@ == collisions_upto(*doc, doc.paths.len() as int),
{
    let mut r: Vec<OpRef> = Vec::new();
    let mut i: usize = 0;
    while i < doc.paths.len()
        invariant
            i <= doc.paths.len(),
            r@ == collisions_upto(*doc, i as int),
        decreases doc.paths.len() - i,
    {
        let ghost before = r@;
        if collides_exec(doc, i, HttpMethod::Get) {
            r.push(OpRef { path: i, method: HttpMethod::Get });
        }
        if collides_exec(doc, i, HttpMethod::Post) {
            r.push(OpRef { path: i, method: HttpMethod::Post });
        }
        if collides_exec(doc, i, HttpMethod::Delete) {
            r.push(OpRef { path: i, method: HttpMethod::Delete });
        }
        assert(r@ =~= before + collisions_at(*doc, i as int));
        i = i + 1;
    }
    r
}

/// `a` comes before `b` in document order (path item first, then method).
pub open spec fn precedes(a: OpRef, b: OpRef) -> bool {
    a.path < b.path || (a.path == b.path && a.method.index() < b.method.index())
}

/// The operation that `r` names exists and is not deprecated.
pub open spec fn live(doc: Document, r: OpRef) -> bool {
    0 <= r.path < doc.paths.len() && match doc.paths@[r.path as int].spec_operation(r.method) {
        Some(op) => !op.deprecated,
        None => false,
    }
}

/// No two path items with the same path define an operation for the same method.
pub open spec fn unique_keys(doc: Document) -> bool {
    forall|i: int, j: int, m: HttpMethod|
        0 <= i < j < doc.paths.len() && doc.paths@[i].path@ == doc.paths@[j].path@ ==> (
        #[trigger] doc.paths@[i].spec_operation(m) is None || #[trigger] doc.paths@[j].spec_operation(
            m,
        ) is None)
}

/// Number of non-deprecated operations of group `gid` among the first `n` path items.
pub open spec fn operation_count_upto(doc: Document, gid: Seq<char>, n: int) -> nat
    decreases n,
{
    if n <= 0 {
        0
    } else {
        operation_count_upto(doc, gid, n - 1) + (if qualifies(doc, gid, n - 1, HttpMethod::Get) {
            1nat
        } else {
            0nat
        }) + (if qualifies(doc, gid, n - 1, HttpMethod::Post) {
            1nat
        } else {
            0nat
        }) + (if qualifies(doc, gid, n - 1, HttpMethod::Delete) {
            1nat
        } else {
            0nat
        })
    }
}

/// Number of non-deprecated operations of group `gid` in the document.
pub open spec fn operation_count(doc: Document, gid: Seq<char>) -> nat {
    operation_count_upto(doc, gid, doc.paths.len() as int)
}

proof fn lemma_selected_upto_sound(doc: Document, gid: Seq<char>, n: int)
    requires
        0 <= n <= doc.paths.len(),
    ensures
        forall|k: int|
            0 <= k < selected_upto(doc, gid, n).len() ==> {
                let r = #[trigger] selected_upto(doc, gid, n)[k];
                &&& 0 <= r.path < n
                &&& selected(doc, gid, r.path as int, r.method)
            },
    decreases n,
{
    if n > 0 {
        lemma_selected_upto_sound(doc, gid, n - 1);
    }
}

proof fn lemma_selected_upto_ordered(doc: Document, gid: Seq<char>, n: int)
    requires
        0 <= n <= doc.paths.len(),
    ensures
        forall|a: int, b: int|
            0 <= a < b < selected_upto(doc, gid, n).len() ==> precedes(
                #[trigger] selected_upto(doc, gid, n)[a],
                #[trigger] selected_upto(doc, gid, n)[b],
            ),
    decreases n,
{
    if n > 0 {
        lemma_selected_upto_sound(doc, gid, n - 1);
        lemma_selected_upto_ordered(doc, gid, n - 1);
    }
}

proof fn lemma_selected_at_complete(doc: Document, gid: Seq<char>, i: int, m: HttpMethod)
    requires
        0 <= i < doc.paths.len(),
        selected(doc, gid, i, m),
    ensures
        selected_at(doc, gid, i).contains(ref_of(i, m)),
{
    let here = selected_at(doc, gid, i);
    let g = if selected(doc, gid, i, HttpMethod::Get) {
        1int
    } else {
        0int
    };
    let p = if selected(doc, gid, i, HttpMethod::Post) {
        1int
    } else {
        0int
    };
    match m {
        HttpMethod::Get => {
            assert(here[0] == ref_of(i, m));
        },
        HttpMethod::Post => {
            assert(here[g] == ref_of(i, m));
        },
        HttpMethod::Delete => {
            assert(here[g + p] == ref_of(i, m));
        },
    }
}

proof fn lemma_selected_upto_complete(doc: Document, gid: Seq<char>, n: int)
    requires
        0 <= n <= doc.paths.len(),
    ensures
        forall|i: int, m: HttpMethod|
            0 <= i < n && #[trigger] selected(doc, gid, i, m) ==> selected_upto(doc, gid, n).contains(
                ref_of(i, m),
            ),
    decreases n,
{
    if n > 0 {
        lemma_selected_upto_complete(doc, gid, n - 1);
        let prev = selected_upto(doc, gid, n - 1);
        let here = selected_at(doc, gid, n - 1);
        let all = selected_upto(doc, gid, n);
        assert(all == prev + here);
        assert forall|i: int, m: HttpMethod|
            0 <= i < n && #[trigger] selected(doc, gid, i, m) implies all.contains(ref_of(i, m)) by {
            if i < n - 1 {
                let k = choose|k: int| 0 <= k < prev.len() && prev[k] == ref_of(i, m);
                assert(all[k] == ref_of(i, m));
            } else {
                lemma_selected_at_complete(doc, gid, i, m);
                let k = choose|k: int| 0 <= k < here.len() && here[k] == ref_of(i, m);
                assert(all[prev.len() + k] == ref_of(i, m));
            }
        }
    }
}

proof fn lemma_selected_upto(doc: Document, gid: Seq<char>, n: int)
    requires
        0 <= n <= doc.paths.len(),
    ensures
        forall|k: int|
            0 <= k < selected_upto(doc, gid, n).len() ==> {
                let r = #[trigger] selected_upto(doc, gid, n)[k];
                &&& 0 <= r.path < n
                &&& selected(doc, gid, r.path as int, r.method)
            },
        forall|i: int, m: HttpMethod|
            0 <= i < n && #[trigger] selected(doc, gid, i, m) ==> selected_upto(doc, gid, n).contains(
                ref_of(i, m),
            ),
        forall|a: int, b: int|
            0 <= a < b < selected_upto(doc, gid, n).len() ==> precedes(
                #[trigger] selected_upto(doc, gid, n)[a],
                #[trigger] selected_upto(doc, gid, n)[b],
            ),
{
    lemma_selected_upto_sound(doc, gid, n);
    lemma_selected_upto_complete(doc, gid, n);
    lemma_selected_upto_ordered(doc, gid, n);
}

proof fn lemma_plans_upto(doc: Document, k: int)
    requires
        0 <= k <= doc.groups.len(),
    ensures
        forall|j: int|
            0 <= j < plans_upto(doc, k).len() ==> {
                let e = #[trigger] plans_upto(doc, k)[j];
                &&& 0 <= e.0 < k
                &&& !excluded(doc.groups@[e.0])
                &&& e.1 == group_operations(doc, doc.groups@[e.0].id@)
            },
    decreases k,
{
    if k > 0 {
        lemma_plans_upto(doc, k - 1);
    }
}

proof fn lemma_exists_selected(doc: Document, gid: Seq<char>, i: int, m: HttpMethod)
    requires
        qualifies(doc, gid, i, m),
    ensures
        exists|s: int|
            i <= s < doc.paths.len() && doc.paths@[s].path@ == doc.paths@[i].path@ && #[trigger] selected(
                doc,
                gid,
                s,
                m,
            ),
    decreases doc.paths.len() - i,
{
    if superseded(doc, gid, i, m) {
        let j = choose|j: int|
            i < j < doc.paths.len() && doc.paths@[j].path@ == doc.paths@[i].path@
                && #[trigger] qualifies(doc, gid, j, m);
        lemma_exists_selected(doc, gid, j, m);
    } else {
        assert(selected(doc, gid, i, m));
    }
}

/// `r` is on method `m` and on the same path as path item `i`.
pub open spec fn same_key(doc: Document, r: OpRef, i: int, m: HttpMethod) -> bool {
    &&& r.method == m
    &&& 0 <= r.path < doc.paths.len()
    &&& 0 <= i < doc.paths.len()
    &&& doc.paths@[r.path as int].path@ == doc.paths@[i].path@
}

/// With no two operations on one method and path, each generated group holds
/// exactly as many functions as it has non-deprecated operations.
pub proof fn law_group_function_count(doc: Document, k: int)
    requires
        unique_keys(doc),
        0 <= k < classified(doc).len(),
    ensures
        classified(doc)[k].1.len() == operation_count(doc, doc.groups@[classified(doc)[k].0].id@),
{
    lemma_plans_upto(doc, doc.groups.len() as int);
    let gid = doc.groups@[classified(doc)[k].0].id@;
    lemma_count_without_duplicates(doc, gid, doc.paths.len() as int);
}

proof fn lemma_count_without_duplicates(doc: Document, gid: Seq<char>, n: int)
    requires
        unique_keys(doc),
        0 <= n <= doc.paths.len(),
    ensures
        selected_upto(doc, gid, n).len() == operation_count_upto(doc, gid, n),
    decreases n,
{
    if n > 0 {
        lemma_count_without_duplicates(doc, gid, n - 1);
        assert forall|m: HttpMethod| !superseded(doc, gid, n - 1, m) || !#[trigger] qualifies(doc, gid, n - 1, m) by {
            if superseded(doc, gid, n - 1, m) && qualifies(doc, gid, n - 1, m) {
                let j = choose|j: int|
                    n - 1 < j < doc.paths.len() && doc.paths@[j].path@ == doc.paths@[n - 1].path@
                        && #[trigger] qualifies(doc, gid, j, m);
                assert(doc.paths@[n - 1].spec_operation(m) is None || doc.paths@[j].spec_operation(
                    m,
                ) is None);
            }
        }
    }
}

/// A group whose warning title speaks of deprecation gets no module.
pub proof fn law_excluded_group_not_generated(doc: Document, g: int)
    requires
        0 <= g < doc.groups.len(),
        excluded(doc.groups@[g]),
    ensures
        forall|k: int| 0 <= k < classified(doc).len() ==> #[trigger] classified(doc)[k].0 != g,
{
    lemma_plans_upto(doc, doc.groups.len() as int);
}

/// Every generated function stands for an operation that exists and is not deprecated.
pub proof fn law_deprecated_never_generated(doc: Document)
    ensures
        forall|k: int, j: int|
            0 <= k < classified(doc).len() && 0 <= j < classified(doc)[k].1.len() ==> live(
                doc,
                #[trigger] classified(doc)[k].1[j],
            ),
{
    lemma_plans_upto(doc, doc.groups.len() as int);
    assert forall|k: int, j: int|
        0 <= k < classified(doc).len() && 0 <= j < classified(doc)[k].1.len() implies live(
            doc,
            #[trigger] classified(doc)[k].1[j],
        ) by {
        let e = classified(doc)[k];
        lemma_selected_upto(doc, doc.groups@[e.0].id@, doc.paths.len() as int);
        assert(e.1 == group_operations(doc, doc.groups@[e.0].id@));
        assert(selected(doc, doc.groups@[e.0].id@, e.1[j].path as int, e.1[j].method));
    }
}

/// Two operations of a group on the same method and path collapse into one
/// generated function.
pub proof fn law_duplicate_keys_collapse(
    doc: Document,
    gid: Seq<char>,
    i: int,
    j: int,
    m: HttpMethod,
)
    requires
        0 <= i < j < doc.paths.len(),
        doc.paths@[i].path@ == doc.paths@[j].path@,
        qualifies(doc, gid, i, m),
        qualifies(doc, gid, j, m),
    ensures
        exists|k: int|
            0 <= k < group_operations(doc, gid).len() && same_key(
                doc,
                #[trigger] group_operations(doc, gid)[k],
                i,
                m,
            ) && forall|k2: int|
                0 <= k2 < group_operations(doc, gid).len() && same_key(
                    doc,
                    #[trigger] group_operations(doc, gid)[k2],
                    i,
                    m,
                ) ==> k2 == k,
{
    let ops = group_operations(doc, gid);
    lemma_selected_upto(doc, gid, doc.paths.len() as int);
    lemma_exists_selected(doc, gid, i, m);
    let s = choose|s: int|
        i <= s < doc.paths.len() && doc.paths@[s].path@ == doc.paths@[i].path@ && #[trigger] selected(
            doc,
            gid,
            s,
            m,
        );
    assert(ops.contains(ref_of(s, m)));
    let k = choose|k: int| 0 <= k < ops.len() && ops[k] == ref_of(s, m);
    assert forall|k2: int| 0 <= k2 < ops.len() && same_key(doc, #[trigger] ops[k2], i, m) implies k2
        == k by {
        let t = ops[k2].path as int;
        assert(selected(doc, gid, t, m));
        if t < s {
            assert(qualifies(doc, gid, s, m));
            assert(superseded(doc, gid, t, m));
        } else if s < t {
            assert(qualifies(doc, gid, t, m));
            assert(superseded(doc, gid, s, m));
        }
        assert(ops[k2] == ops[k]);
        if k2 < k {
            assert(precedes(ops[k2], ops[k]));
        } else if k < k2 {
            assert(precedes(ops[k], ops[k2]));
        }
    }
}

} // verus!
