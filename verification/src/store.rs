//! A model of how the graph database answers the service's queries: the
//! CONNECTION edges it holds, and the window of ordered matches that `SKIP` and
//! `LIMIT` select, and the nodes and edges an import merges. The database reads the parameters as the driver holds them
//! (`neo4rs_query_params`), so the model reads them from a parameter map.
use vstd::prelude::*;
use crate::db::{BoltModel, ParamModel, param_map};
use crate::features::import_project::{
    ImportProjectGraphRequest, character_merge_params, connection_merge_params, event_merge_params,
    relation_merge_params,
};

verus! {

/// What identifies a CONNECTION edge for the service: its project, start id,
/// end id and template id.
pub open spec fn connection_key(m: Map<Seq<char>, BoltModel>) -> (BoltModel, BoltModel, BoltModel, BoltModel) {
    (m["project_id"@], m["from_id"@], m["to_id"@], m["relation_id"@])
}

/// No two stored edges share a key.
pub open spec fn keys_distinct(s: Seq<(BoltModel, BoltModel, BoltModel, BoltModel)>) -> bool {
    forall|i: int, j: int| 0 <= i < j < s.len() ==> s[i] != s[j]
}

/// The duplicate-check query, run with parameters `m`, finds a row exactly when
/// an edge with the key its parameters name is stored.
pub open spec fn duplicate_found(
    s: Seq<(BoltModel, BoltModel, BoltModel, BoltModel)>,
    m: Map<Seq<char>, BoltModel>,
) -> bool {
    s.contains(connection_key(m))
}

/// The create query, run with parameters `m` when both end nodes are found
/// (`created`), stores one edge with the key its parameters name.
pub open spec fn after_create(
    s: Seq<(BoltModel, BoltModel, BoltModel, BoltModel)>,
    m: Map<Seq<char>, BoltModel>,
    created: bool,
) -> Seq<(BoltModel, BoltModel, BoltModel, BoltModel)> {
    if created { s.push(connection_key(m)) } else { s }
}

/// The rows `SKIP skip LIMIT limit` selects from the ordered matches `all`.
pub open spec fn db_window<A>(all: Seq<A>, skip: int, limit: int) -> Seq<A> {
    let lo = if skip < all.len() { skip } else { all.len() as int };
    let hi = if skip + limit < all.len() { skip + limit } else { all.len() as int };
    all.subrange(lo, hi)
}

/// Pages 1 to `k` of `per_page` rows, one after another.
pub open spec fn pages_upto<A>(all: Seq<A>, per_page: int, k: int) -> Seq<A>
    decreases k,
{
    if k <= 0 {
        Seq::empty()
    } else {
        pages_upto(all, per_page, k - 1) + db_window(all, (k - 1) * per_page, per_page)
    }
}

/// Pages 1 to `k` are the first `k * per_page` rows (or all of them).
pub proof fn lemma_pages_upto<A>(all: Seq<A>, per_page: int, k: int)
    requires
        per_page >= 1,
        k >= 0,
    ensures
        pages_upto(all, per_page, k) == all.take(if k * per_page < all.len() { k * per_page } else { all.len() as int }),
    decreases k,
{
    if k == 0 {
        assert(all.take(0) =~= Seq::<A>::empty());
    } else {
        lemma_pages_upto(all, per_page, k - 1);
        assert((k - 1) * per_page + per_page == k * per_page) by (nonlinear_arith);
        assert((k - 1) * per_page >= 0) by (nonlinear_arith) requires k >= 1, per_page >= 1;
        let a = if (k - 1) * per_page < all.len() { (k - 1) * per_page } else { all.len() as int };
        let b = if k * per_page < all.len() { k * per_page } else { all.len() as int };
        assert(all.take(a) + all.subrange(a, b) =~= all.take(b));
    }
}

/// A MERGE with `ON CREATE SET` and `ON MATCH SET` over a store of records:
/// every key it `touches` ends up stored; a new record starts from the
/// `on_create` fields, and in either case the `set` fields are written over it.
#[verifier::reject_recursive_types(K)]
#[verifier::reject_recursive_types(F)]
pub struct Upsert<K, F, V> {
    pub touches: spec_fn(K) -> bool,
    pub set: spec_fn(K) -> Map<F, V>,
    pub on_create: spec_fn(K) -> Map<F, V>,
}

/// The store after one merge.
pub open spec fn apply_upsert<K, F, V>(x: Map<K, Map<F, V>>, u: Upsert<K, F, V>) -> Map<K, Map<F, V>> {
    Map::new(
        |k: K| x.contains_key(k) || (u.touches)(k),
        |k: K|
            if (u.touches)(k) {
                (if x.contains_key(k) { x[k] } else { (u.on_create)(k) }).union_prefer_right((u.set)(k))
            } else {
                x[k]
            },
    )
}

/// The store after the merges `s`, one after another.
pub open spec fn run_upserts<K, F, V>(x: Map<K, Map<F, V>>, s: Seq<Upsert<K, F, V>>) -> Map<K, Map<F, V>>
    decreases s.len(),
{
    if s.len() == 0 {
        x
    } else {
        apply_upsert(run_upserts(x, s.drop_last()), s.last())
    }
}

/// Whether merge `i` of `s` touches `k`.
pub open spec fn touches_at<K, F, V>(s: Seq<Upsert<K, F, V>>, i: int, k: K) -> bool {
    (s[i].touches)(k)
}

/// Merges that touch the same key write the same fields of it.
pub open spec fn same_fields<K, F, V>(s: Seq<Upsert<K, F, V>>) -> bool {
    forall|i: int, j: int, k: K|
        #![trigger touches_at(s, i, k), touches_at(s, j, k)]
        0 <= i < s.len() && 0 <= j < s.len() && touches_at(s, i, k) && touches_at(s, j, k)
            ==> ((s[i].set)(k)).dom() == ((s[j].set)(k)).dom()
}

/// The fields the last merge touching `k` writes, if one does.
pub open spec fn last_set<K, F, V>(s: Seq<Upsert<K, F, V>>, k: K) -> Option<Map<F, V>>
    decreases s.len(),
{
    if s.len() == 0 {
        None
    } else if (s.last().touches)(k) {
        Some((s.last().set)(k))
    } else {
        last_set(s.drop_last(), k)
    }
}

/// The creation fields of the first merge touching `k`, if one does.
pub open spec fn first_create<K, F, V>(s: Seq<Upsert<K, F, V>>, k: K) -> Option<Map<F, V>>
    decreases s.len(),
{
    if s.len() == 0 {
        None
    } else {
        match first_create(s.drop_last(), k) {
            Some(c) => Some(c),
            None => if (s.last().touches)(k) { Some((s.last().on_create)(k)) } else { None },
        }
    }
}

/// What the merges leave under one key: untouched keys keep their record; a
/// touched key holds its earlier record (or the first creation fields) with the
/// last merge's fields written over it.
pub proof fn lemma_run_upserts_at<K, F, V>(x: Map<K, Map<F, V>>, s: Seq<Upsert<K, F, V>>, k: K)
    requires
        same_fields(s),
    ensures
        run_upserts(x, s).contains_key(k) == (x.contains_key(k) || last_set(s, k) is Some),
        (last_set(s, k) is Some) == (first_create(s, k) is Some),
        last_set(s, k) is None && x.contains_key(k) ==> run_upserts(x, s)[k] == x[k],
        last_set(s, k) matches Some(w) ==> run_upserts(x, s)[k]
            == (if x.contains_key(k) { x[k] } else { first_create(s, k)->0 }).union_prefer_right(w),
    decreases s.len(),
{
    if s.len() > 0 {
        let t = s.drop_last();
        let u = s.last();
        assert forall|i: int, j: int, k2: K|
            #![trigger touches_at(t, i, k2), touches_at(t, j, k2)]
            0 <= i < t.len() && 0 <= j < t.len() && touches_at(t, i, k2) && touches_at(t, j, k2)
            implies ((t[i].set)(k2)).dom() == ((t[j].set)(k2)).dom() by {
            assert(t[i] == s[i] && t[j] == s[j]);
            assert(touches_at(s, i, k2) && touches_at(s, j, k2));
        }
        lemma_run_upserts_at(x, t, k);
        if (u.touches)(k) {
            if let Some(w0) = last_set(t, k) {
                let b = if x.contains_key(k) { x[k] } else { first_create(t, k)->0 };
                let w = (u.set)(k);
                assert(w0.dom() == w.dom()) by {
                    lemma_last_set_from(t, k);
                    let i = choose|i: int| 0 <= i < t.len() && (t[i].touches)(k) && (t[i].set)(k) == w0;
                    assert(t[i] == s[i]);
                    assert(s[s.len() - 1] == u);
                    assert(touches_at(s, i, k) && touches_at(s, s.len() - 1, k));
                }
                assert(b.union_prefer_right(w0).union_prefer_right(w) =~= b.union_prefer_right(w));
            }
        }
    }
}

/// A merge result names a merge that touched the key.
pub proof fn lemma_last_set_from<K, F, V>(s: Seq<Upsert<K, F, V>>, k: K)
    ensures
        last_set(s, k) matches Some(w) ==> exists|i: int| 0 <= i < s.len() && (s[i].touches)(k) && (s[i].set)(k) == w,
    decreases s.len(),
{
    if s.len() > 0 && !(s.last().touches)(k) {
        lemma_last_set_from(s.drop_last(), k);
        if last_set(s, k) is Some {
            let i = choose|i: int| 0 <= i < s.drop_last().len() && (s.drop_last()[i].touches)(k) && (s.drop_last()[i].set)(k) == last_set(s, k)->0;
            assert(s.drop_last()[i] == s[i]);
        }
    } else if s.len() > 0 {
        assert(s[s.len() - 1] == s.last());
    }
}

/// Running the same merges a second time changes nothing.
pub proof fn lemma_run_upserts_twice<K, F, V>(x: Map<K, Map<F, V>>, s: Seq<Upsert<K, F, V>>)
    requires
        same_fields(s),
    ensures
        run_upserts(run_upserts(x, s), s) == run_upserts(x, s),
{
    let y = run_upserts(x, s);
    assert forall|k: K| #[trigger] run_upserts(y, s).contains_key(k) == y.contains_key(k) by {
        lemma_run_upserts_at(x, s, k);
        lemma_run_upserts_at(y, s, k);
    }
    assert forall|k: K| y.contains_key(k) implies #[trigger] run_upserts(y, s)[k] == y[k] by {
        lemma_run_upserts_at(x, s, k);
        lemma_run_upserts_at(y, s, k);
        if let Some(w) = last_set(s, k) {
            let b = if x.contains_key(k) { x[k] } else { first_create(s, k)->0 };
            assert(b.union_prefer_right(w).union_prefer_right(w) =~= b.union_prefer_right(w));
        }
    }
    assert(run_upserts(y, s) =~= y);
}

/// The id an item was given (all of an import's ids are given where this is used).
pub open spec fn given_id(o: Option<String>) -> Seq<char> {
    match o {
        Some(s) => s@,
        None => Seq::empty(),
    }
}

/// Every item of the import carries its own id.
pub open spec fn all_ids_given(r: ImportProjectGraphRequest) -> bool {
    &&& forall|i: int| 0 <= i < r.characters@.len() ==> (#[trigger] r.characters@[i]).id is Some
    &&& forall|i: int| 0 <= i < r.events@.len() ==> (#[trigger] r.events@[i]).id is Some
    &&& forall|i: int| 0 <= i < r.relations@.len() ==> (#[trigger] r.relations@[i]).id is Some
    &&& forall|i: int| 0 <= i < r.connections@.len() ==> (#[trigger] r.connections@[i]).id is Some
}

/// The number of node merges of an import: characters, events, relations.
pub open spec fn node_step_count(r: ImportProjectGraphRequest) -> int {
    (r.characters@.len() + r.events@.len() + r.relations@.len()) as int
}

/// The parameters of step `k` of the import when every id is given.
pub open spec fn import_step_params(user_id: u64, r: ImportProjectGraphRequest, k: int) -> Seq<(Seq<char>, ParamModel)> {
    let nc = r.characters@.len() as int;
    let ne = r.events@.len() as int;
    let nr = r.relations@.len() as int;
    if k < nc {
        character_merge_params(user_id, r.project_id, r.characters@[k], given_id(r.characters@[k].id))
    } else if k < nc + ne {
        event_merge_params(user_id, r.project_id, r.events@[k - nc], given_id(r.events@[k - nc].id))
    } else if k < nc + ne + nr {
        relation_merge_params(user_id, r.project_id, r.relations@[k - nc - ne], given_id(r.relations@[k - nc - ne].id))
    } else {
        let c = r.connections@[k - nc - ne - nr];
        connection_merge_params(user_id, r.project_id, c, given_id(c.id))
    }
}

/// The label of the node node-merge `k` stores.
pub open spec fn node_label(r: ImportProjectGraphRequest, k: int) -> Seq<char> {
    if k < r.characters@.len() {
        "Character"@
    } else if k < r.characters@.len() + r.events@.len() {
        "Event"@
    } else {
        "Relation"@
    }
}

/// The fields a node merge sets, both on creation and on match.
pub open spec fn merge_fields(label: Seq<char>) -> Set<Seq<char>> {
    if label == "Character"@ {
        set!["name"@, "description"@, "attributes"@]
    } else if label == "Event"@ {
        set!["name"@, "location"@, "description"@, "timestamp"@, "attributes"@]
    } else {
        set!["name"@, "relation_type"@, "description"@, "attributes"@]
    }
}

/// A node is found by its label, id and project.
pub open spec fn node_key(label: Seq<char>, m: Map<Seq<char>, BoltModel>) -> (Seq<char>, BoltModel, BoltModel) {
    (label, m["id"@], m["project_id"@])
}

/// `MERGE (n:Label {id: $id, project_id: $project_id}) ON CREATE SET .. ON MATCH SET ..`:
/// the fields of the label from the parameters, and on creation `created_by`.
pub open spec fn node_merge(label: Seq<char>, m: Map<Seq<char>, BoltModel>)
    -> Upsert<(Seq<char>, BoltModel, BoltModel), Seq<char>, BoltModel>
{
    Upsert {
        touches: |k: (Seq<char>, BoltModel, BoltModel)| k == node_key(label, m),
        set: |k: (Seq<char>, BoltModel, BoltModel)| Map::new(|f: Seq<char>| merge_fields(label).contains(f), |f: Seq<char>| m[f]),
        on_create: |k: (Seq<char>, BoltModel, BoltModel)| Map::empty().insert("created_by"@, m["created_by"@]),
    }
}

/// The relation template a connection merge reads its type from.
pub open spec fn relation_node(m: Map<Seq<char>, BoltModel>) -> (Seq<char>, BoltModel, BoltModel) {
    ("Relation"@, m["relation_id"@], m["project_id"@])
}

/// Whether node `n` is one the connection merge matches under the id parameter `id_param`.
pub open spec fn end_matches(
    nodes: Map<(Seq<char>, BoltModel, BoltModel), Map<Seq<char>, BoltModel>>,
    n: (Seq<char>, BoltModel, BoltModel),
    m: Map<Seq<char>, BoltModel>,
    id_param: Seq<char>,
) -> bool {
    nodes.contains_key(n) && n.1 == m[id_param] && n.2 == m["project_id"@]
}

/// The connection merge of an import: for each start and end node with the
/// given ids in the project, when the template exists, the edge with the given
/// id between them gets the ids, the template's type and the attributes, and on
/// creation `created_by`.
pub open spec fn connection_merge(
    nodes: Map<(Seq<char>, BoltModel, BoltModel), Map<Seq<char>, BoltModel>>,
    m: Map<Seq<char>, BoltModel>,
) -> Upsert<((Seq<char>, BoltModel, BoltModel), (Seq<char>, BoltModel, BoltModel), BoltModel, BoltModel), Seq<char>, BoltModel> {
    Upsert {
        touches: |e: ((Seq<char>, BoltModel, BoltModel), (Seq<char>, BoltModel, BoltModel), BoltModel, BoltModel)|
            end_matches(nodes, e.0, m, "from_id"@) && end_matches(nodes, e.1, m, "to_id"@)
                && nodes.contains_key(relation_node(m)) && e.2 == m["id"@] && e.3 == m["project_id"@],
        set: |e: ((Seq<char>, BoltModel, BoltModel), (Seq<char>, BoltModel, BoltModel), BoltModel, BoltModel)|
            Map::empty()
                .insert("from_id"@, m["from_id"@])
                .insert("to_id"@, m["to_id"@])
                .insert("relation_id"@, m["relation_id"@])
                .insert("relation_type"@, nodes[relation_node(m)]["relation_type"@])
                .insert("attributes"@, m["attributes"@]),
        on_create: |e: ((Seq<char>, BoltModel, BoltModel), (Seq<char>, BoltModel, BoltModel), BoltModel, BoltModel)|
            Map::empty().insert("created_by"@, m["created_by"@]),
    }
}

/// The node merges of an import, in the order they run.
pub open spec fn import_node_merges(user_id: u64, r: ImportProjectGraphRequest)
    -> Seq<Upsert<(Seq<char>, BoltModel, BoltModel), Seq<char>, BoltModel>>
{
    Seq::new(node_step_count(r) as nat, |k: int| node_merge(node_label(r, k), param_map(import_step_params(user_id, r, k))))
}

/// The connection merges of an import, in the order they run, over the nodes
/// the node merges left.
pub open spec fn import_connection_merges(
    nodes: Map<(Seq<char>, BoltModel, BoltModel), Map<Seq<char>, BoltModel>>,
    user_id: u64,
    r: ImportProjectGraphRequest,
) -> Seq<Upsert<((Seq<char>, BoltModel, BoltModel), (Seq<char>, BoltModel, BoltModel), BoltModel, BoltModel), Seq<char>, BoltModel>> {
    Seq::new(
        r.connections@.len(),
        |i: int| connection_merge(nodes, param_map(import_step_params(user_id, r, node_step_count(r) + i))),
    )
}

/// The part of the graph an import touches: nodes by (label, id, project) and
/// CONNECTION edges by (start, end, id, project), each with its stored fields
/// (timestamps left out).
pub struct GraphModel {
    pub nodes: Map<(Seq<char>, BoltModel, BoltModel), Map<Seq<char>, BoltModel>>,
    pub edges: Map<((Seq<char>, BoltModel, BoltModel), (Seq<char>, BoltModel, BoltModel), BoltModel, BoltModel), Map<Seq<char>, BoltModel>>,
}

/// The graph after every step of an import has run.
pub open spec fn import_graph(g: GraphModel, user_id: u64, r: ImportProjectGraphRequest) -> GraphModel {
    let nodes = run_upserts(g.nodes, import_node_merges(user_id, r));
    GraphModel { nodes, edges: run_upserts(g.edges, import_connection_merges(nodes, user_id, r)) }
}

} // verus!
