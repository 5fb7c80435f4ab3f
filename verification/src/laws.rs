//! Properties of the service that span its features.
use vstd::prelude::*;
use crate::auth::{bearer_prefix, has_bearer_prefix};
use crate::common::{ErrorModel, access_denied_body, body, database_error_body};
use crate::db::{CellModel, ParamModel, pm};
use crate::features::create_character::{CreateCharacterRequest, character_create_params, created_character};
use crate::features::create_connection::{CreateConnectionRequest, connection_create_params, created_connection};
use crate::features::create_event::{CreateEventRequest, event_create_params, created_event};
use crate::features::create_relation::{CreateRelationRequest, relation_create_params, created_relation};
use crate::features::create_character::create_character_body;
use crate::features::create_connection::create_connection_body;
use crate::features::create_event::create_event_body;
use crate::features::create_relation::create_relation_body;
use crate::features::get_connections::connections_outcome;
use crate::features::get_events::events_outcome;
use crate::features::get_relations::relations_outcome;
use crate::features::import_project::import_body;
use crate::features::list_characters::characters_outcome;
use crate::paging::{page_has_more, page_offset};
use crate::db::{BoltModel, lemma_param_map_last_binding, param_map, row_fault};
use crate::features::create_connection::duplicate_check_params;
use crate::features::get_connections::{GetConnectionsPagination, GetConnectionsRequest, connection_item_of, connection_kinds, connections_list_params};
use crate::paging::{lemma_rows_fault_none, lemma_rows_fault_none_of_rows, rows_fault};
use crate::store::{after_create, connection_key, db_window, duplicate_found, keys_distinct, lemma_pages_upto, pages_upto};
use crate::store::{
    GraphModel, all_ids_given, import_connection_merges, import_graph, import_node_merges, import_step_params,
    lemma_run_upserts_twice, merge_fields, node_label, node_step_count, run_upserts, same_fields, touches_at,
};
use crate::features::import_project::{ImportProjectGraphRequest, ImportStep, import_step_ok};

verus! {

/// Every feature answers a caller without access to the project with status
/// 403 and the code `ACCESS_DENIED`.
pub proof fn law_access_denied_is_403()
    ensures
        access_denied_body() == body(403, "ACCESS_DENIED"@, "You don't have access to this project."@),
        create_character_body(ErrorModel::AccessDenied) == access_denied_body(),
        create_event_body(ErrorModel::AccessDenied) == access_denied_body(),
        create_relation_body(ErrorModel::AccessDenied) == access_denied_body(),
        create_connection_body(ErrorModel::AccessDenied) == access_denied_body(),
        import_body(ErrorModel::AccessDenied) == access_denied_body(),
{
}

/// Every feature answers a database failure with status 500 and the code
/// `DATABASE_ERROR`, whatever the driver's message: nothing of it reaches the caller.
pub proof fn law_database_errors_are_opaque_500(m: Seq<char>)
    ensures
        database_error_body().status == 500,
        database_error_body().error == "DATABASE_ERROR"@,
        create_character_body(ErrorModel::Database(m)) == database_error_body(),
        create_event_body(ErrorModel::Database(m)) == database_error_body(),
        create_relation_body(ErrorModel::Database(m)) == database_error_body(),
        create_connection_body(ErrorModel::Database(m)) == database_error_body(),
        import_body(ErrorModel::Database(m)) == database_error_body(),
{
}

/// A name already taken in the project is answered with status 409, quoting the name.
pub proof fn law_duplicate_names_are_409(name: Seq<char>)
    ensures
        create_character_body(ErrorModel::AlreadyExists(name)).status == 409,
        create_event_body(ErrorModel::AlreadyExists(name)).status == 409,
        create_relation_body(ErrorModel::AlreadyExists(name)).status == 409,
        create_character_body(ErrorModel::AlreadyExists(name)).message
            == "Character with name '"@ + name + "' already exists in this project."@,
        create_event_body(ErrorModel::AlreadyExists(name)).message
            == "Event with name '"@ + name + "' already exists in this project."@,
        create_relation_body(ErrorModel::AlreadyExists(name)).message
            == "Relation with name '"@ + name + "' already exists in this project."@,
        create_connection_body(ErrorModel::ConnectionAlreadyExists).status == 409,
{
}

/// Consecutive pages follow each other without gap or overlap: page `p + 1`
/// starts `per_page` items after page `p`, and page 1 starts at 0.
pub proof fn law_pages_tile(page: u32, per_page: u32)
    requires
        page >= 1,
        page < u32::MAX,
    ensures
        page_offset(1, per_page) == 0,
        page_offset((page + 1) as u32, per_page) == page_offset(page, per_page) + per_page,
{
    assert(((page + 1) - 1) * per_page == (page - 1) * per_page + per_page) by (nonlinear_arith);
}

/// A page is followed by more items exactly when the items up to its end are
/// fewer than the total; so the page that reaches the total is the last.
pub proof fn law_has_more_iff_total_beyond_page(page: u32, per_page: u32, total: i64)
    requires
        page >= 1,
        page * per_page <= u32::MAX,
    ensures
        page_has_more(page, per_page, total) <==> page_offset(page, per_page) + per_page < (total as u32),
{
    assert((page - 1) * per_page + per_page == page * per_page) by (nonlinear_arith);
}

/// A listing page holds one item per row read, in the order of the rows.
pub proof fn law_listing_items_follow_rows(rows: Seq<Seq<CellModel>>, end: Result<(), Seq<char>>, total: i64, page: u32, per_page: u32)
    ensures
        events_outcome(rows, end, total, page, per_page) matches Ok(r) ==> r.items.len() == rows.len(),
        relations_outcome(rows, end, total, page, per_page) matches Ok(r) ==> r.items.len() == rows.len(),
        connections_outcome(rows, end, total, page, per_page) matches Ok(r) ==> r.items.len() == rows.len(),
        characters_outcome(rows, end, total, page, per_page) matches Ok(r) ==> r.characters.len() == rows.len(),
{
}

/// A header made of `Bearer ` and a token carries that token.
pub proof fn law_bearer_header_round_trip(token: Seq<char>)
    ensures
        has_bearer_prefix(bearer_prefix() + token),
        (bearer_prefix() + token).subrange(7, (bearer_prefix() + token).len() as int) == token,
{
    reveal_strlit("Bearer ");
    let h = bearer_prefix() + token;
    assert(h.subrange(0, 7) =~= bearer_prefix());
    assert(h.subrange(7, h.len() as int) =~= token);
}


/// A created entity is reported as it was written: the id, project and name
/// bound in the create query are those of the entity returned to the caller.
pub proof fn law_created_entity_is_what_was_written(
    user_id: u64,
    project_id: u64,
    id: Seq<char>,
    relation_type: Seq<char>,
    ch: CreateCharacterRequest,
    ev: CreateEventRequest,
    rel: CreateRelationRequest,
    conn: CreateConnectionRequest,
)
    ensures
        character_create_params(user_id, ch, project_id, id)[0] == pm("id"@, ParamModel::Text(created_character(ch, project_id, id).id)),
        character_create_params(user_id, ch, project_id, id)[1] == pm("project_id"@, ParamModel::Int(created_character(ch, project_id, id).project_id as i64 as int)),
        character_create_params(user_id, ch, project_id, id)[2] == pm("name"@, ParamModel::Text(created_character(ch, project_id, id).name)),
        event_create_params(user_id, ev, project_id, id)[0] == pm("id"@, ParamModel::Text(created_event(ev, project_id, id).id)),
        event_create_params(user_id, ev, project_id, id)[1] == pm("project_id"@, ParamModel::Int(created_event(ev, project_id, id).project_id as i64 as int)),
        event_create_params(user_id, ev, project_id, id)[2] == pm("name"@, ParamModel::Text(created_event(ev, project_id, id).name)),
        event_create_params(user_id, ev, project_id, id)[5] == pm("timestamp"@, ParamModel::OptText(created_event(ev, project_id, id).timestamp)),
        relation_create_params(user_id, rel, project_id, id)[0] == pm("id"@, ParamModel::Text(created_relation(rel, project_id, id).id)),
        relation_create_params(user_id, rel, project_id, id)[2] == pm("name"@, ParamModel::Text(created_relation(rel, project_id, id).name)),
        relation_create_params(user_id, rel, project_id, id)[3] == pm("relation_type"@, ParamModel::Text(created_relation(rel, project_id, id).relation_type)),
        connection_create_params(user_id, conn, project_id, id, relation_type)[0] == pm("id"@, ParamModel::Text(created_connection(conn, project_id, id, relation_type).id)),
        connection_create_params(user_id, conn, project_id, id, relation_type)[2] == pm("from_id"@, ParamModel::Text(created_connection(conn, project_id, id, relation_type).from_id)),
        connection_create_params(user_id, conn, project_id, id, relation_type)[3] == pm("to_id"@, ParamModel::Text(created_connection(conn, project_id, id, relation_type).to_id)),
        connection_create_params(user_id, conn, project_id, id, relation_type)[5] == pm("relation_type"@, ParamModel::Text(created_connection(conn, project_id, id, relation_type).relation_type)),
{
}

/// Creating a connection never stores a second edge with the start, end and
/// template of one already in the project. The duplicate check asks the
/// database for the key the create query then stores; the create query is sent
/// only when that check found nothing (`create_connection_after_duplicate_check`
/// returns it exactly on `Ok(false)`), and it adds at most one edge, as the
/// project's ids each name one node.
pub proof fn law_connection_keys_stay_distinct(
    store: Seq<(BoltModel, BoltModel, BoltModel, BoltModel)>,
    user_id: u64,
    r: CreateConnectionRequest,
    project_id: u64,
    id: Seq<char>,
    relation_type: Seq<char>,
    found: Result<bool, Seq<char>>,
    created: bool,
)
    requires
        keys_distinct(store),
        found matches Ok(b) ==> b == duplicate_found(store, param_map(duplicate_check_params(r, project_id))),
    ensures
        keys_distinct(
            if found == Ok::<bool, Seq<char>>(false) {
                after_create(store, param_map(connection_create_params(user_id, r, project_id, id, relation_type)), created)
            } else {
                store
            },
        ),
{
    let dm = param_map(duplicate_check_params(r, project_id));
    let cm = param_map(connection_create_params(user_id, r, project_id, id, relation_type));
    let d = duplicate_check_params(r, project_id);
    let c = connection_create_params(user_id, r, project_id, id, relation_type);
    reveal_strlit("id");
    reveal_strlit("project_id");
    reveal_strlit("from_id");
    reveal_strlit("to_id");
    reveal_strlit("relation_id");
    reveal_strlit("relation_type");
    reveal_strlit("attributes");
    reveal_strlit("created_by");
    assert(d[0].0 == "from_id"@);
    assert(d[1].0 == "to_id"@);
    assert(d[2].0 == "relation_id"@);
    assert(d[3].0 == "project_id"@);
    assert("from_id"@ != "to_id"@);
    assert("from_id"@ != "relation_id"@);
    assert("from_id"@ != "project_id"@);
    assert("to_id"@ != "relation_id"@);
    assert("to_id"@ != "project_id"@);
    assert("relation_id"@ != "project_id"@);
    assert forall|i: int, j: int| 0 <= i < j < d.len() implies d[j].0 != d[i].0 by {
        if i == 0 { if j == 1 {} else if j == 2 {} else {} }
        else if i == 1 { if j == 2 {} else {} }
    }
    lemma_param_map_last_binding(d, 0);
    lemma_param_map_last_binding(d, 1);
    lemma_param_map_last_binding(d, 2);
    lemma_param_map_last_binding(d, 3);
    assert(c[1].0 == "project_id"@);
    assert(c[2].0 == "from_id"@);
    assert(c[3].0 == "to_id"@);
    assert(c[4].0 == "relation_id"@);
    assert(c[5].0 == "relation_type"@);
    assert(c[6].0 == "attributes"@);
    assert(c[7].0 == "created_by"@);
    assert("project_id"@ != "from_id"@);
    assert("project_id"@ != "to_id"@);
    assert("project_id"@ != "relation_id"@);
    assert("project_id"@ != "relation_type"@);
    assert("project_id"@[0] != "attributes"@[0]);
    assert("project_id"@ != "attributes"@);
    assert("project_id"@[0] != "created_by"@[0]);
    assert("project_id"@ != "created_by"@);
    assert("from_id"@ != "to_id"@);
    assert("from_id"@ != "relation_id"@);
    assert("from_id"@ != "relation_type"@);
    assert("from_id"@ != "attributes"@);
    assert("from_id"@ != "created_by"@);
    assert("to_id"@ != "relation_id"@);
    assert("to_id"@ != "relation_type"@);
    assert("to_id"@ != "attributes"@);
    assert("to_id"@ != "created_by"@);
    assert("relation_id"@ != "relation_type"@);
    assert("relation_id"@ != "attributes"@);
    assert("relation_id"@ != "created_by"@);
    assert forall|i: int, j: int| 1 <= i <= 4 && i < j < c.len() implies c[j].0 != c[i].0 by {
        if i == 1 { if j == 2 {} else if j == 3 {} else if j == 4 {} else if j == 5 {} else if j == 6 {} else {} }
        else if i == 2 { if j == 3 {} else if j == 4 {} else if j == 5 {} else if j == 6 {} else {} }
        else if i == 3 { if j == 4 {} else if j == 5 {} else if j == 6 {} else {} }
        else { if j == 5 {} else if j == 6 {} else {} }
    }
    lemma_param_map_last_binding(c, 1);
    lemma_param_map_last_binding(c, 2);
    lemma_param_map_last_binding(c, 3);
    lemma_param_map_last_binding(c, 4);
    assert(connection_key(dm) == connection_key(cm));
    if found == Ok::<bool, Seq<char>>(false) && created {
        let s2 = store.push(connection_key(cm));
        assert forall|i: int, j: int| 0 <= i < j < s2.len() implies s2[i] != s2[j] by {
            if j == store.len() {
                assert(store.contains(store[i]));
            }
        }
    }
}

/// Paging through the ordered matches of a listing returns each of them exactly
/// once. With `n` the number of pages (the least `n >= 1` whose `n * per_page`
/// rows hold every match), pages 1 to `n`, as the database answers
/// `SKIP (page - 1) * per_page LIMIT per_page`, put together are the matches in
/// order; and a page reports more to come exactly when it is not the last.
pub proof fn law_pages_list_every_match_once<A>(all: Seq<A>, per_page: u32, n: u32)
    requires
        per_page >= 1,
        n >= 1,
        all.len() <= n * per_page,
        n == 1 || (n - 1) * per_page < all.len(),
        n * per_page <= u32::MAX,
    ensures
        pages_upto(all, per_page as int, n as int) == all,
        forall|k: u32| 1 <= k <= n ==> (#[trigger] page_has_more(k, per_page, all.len() as i64) <==> k < n),
{
    lemma_pages_upto(all, per_page as int, n as int);
    assert(all.take(all.len() as int) =~= all);
    assert forall|k: u32| 1 <= k <= n implies (#[trigger] page_has_more(k, per_page, all.len() as i64) <==> k < n) by {
        assert((all.len() as i64) as u32 == all.len());
        if k < n {
            assert(k * per_page <= (n - 1) * per_page) by (nonlinear_arith)
                requires k <= n - 1, per_page >= 1;
        }
    }
}

/// The driver's parameters of the list query for page `page` of a connection listing.
pub open spec fn connection_page_params(r: GetConnectionsRequest, project_id: u64, page: u32, per_page: u32) -> Map<Seq<char>, BoltModel> {
    param_map(connections_list_params(r, GetConnectionsPagination { page, per_page }, project_id))
}

/// Paging through a project's connections lists each matching connection
/// exactly once. For every page `k` of `1..=n` (with `n` the number of pages,
/// as above) the list query binds `offset` to `(k - 1) * per_page` and `limit`
/// to `per_page` in the driver's parameters; the page built from the
/// database's answer holds the items of those rows and says more are to come
/// exactly when `k < n`; and the items of pages 1 to `n`, one after another,
/// are the items of all the matches in order.
pub proof fn law_connection_pages_list_every_match_once(
    r: GetConnectionsRequest,
    project_id: u64,
    per_page: u32,
    n: u32,
    all: Seq<Seq<CellModel>>,
)
    requires
        per_page >= 1,
        n >= 1,
        all.len() <= n * per_page,
        n == 1 || (n - 1) * per_page < all.len(),
        n * per_page <= u32::MAX,
        rows_fault(all, connection_kinds()) is None,
    ensures
        forall|k: u32| 1 <= k <= n ==> {
            &&& (#[trigger] connection_page_params(r, project_id, k, per_page))["offset"@] == BoltModel::Integer(page_offset(k, per_page))
            &&& connection_page_params(r, project_id, k, per_page)["limit"@] == BoltModel::Integer(per_page as int)
        },
        forall|k: u32| 1 <= k <= n ==> (
            #[trigger] connections_outcome(db_window(all, page_offset(k, per_page), per_page as int), Ok(()), all.len() as i64, k, per_page)
                matches Ok(page) && page.items == db_window(all.map_values(|row: Seq<CellModel>| connection_item_of(row)), page_offset(k, per_page), per_page as int)
                && page.has_more == (k < n)),
        pages_upto(all.map_values(|row: Seq<CellModel>| connection_item_of(row)), per_page as int, n as int)
            == all.map_values(|row: Seq<CellModel>| connection_item_of(row)),
{
    let items = all.map_values(|row: Seq<CellModel>| connection_item_of(row));
    law_pages_list_every_match_once(items, per_page, n);
    law_pages_list_every_match_once(all, per_page, n);
    assert forall|k: u32| 1 <= k <= n implies {
        &&& (#[trigger] connection_page_params(r, project_id, k, per_page))["offset"@] == BoltModel::Integer(page_offset(k, per_page))
        &&& connection_page_params(r, project_id, k, per_page)["limit"@] == BoltModel::Integer(per_page as int)
    } by {
        lemma_connection_page_params(r, project_id, k, per_page);
    }
    assert forall|k: u32| 1 <= k <= n implies (
        #[trigger] connections_outcome(db_window(all, page_offset(k, per_page), per_page as int), Ok(()), all.len() as i64, k, per_page)
            matches Ok(page) && page.items == db_window(items, page_offset(k, per_page), per_page as int)
            && page.has_more == (k < n)) by {
        lemma_connection_page_items(all, k, per_page);
    }
}

/// The list query of a page binds `offset` and `limit` to the page's window.
proof fn lemma_connection_page_params(r: GetConnectionsRequest, project_id: u64, k: u32, per_page: u32)
    ensures
        connection_page_params(r, project_id, k, per_page)["offset"@] == BoltModel::Integer(page_offset(k, per_page)),
        connection_page_params(r, project_id, k, per_page)["limit"@] == BoltModel::Integer(per_page as int),
{
    reveal_strlit("project_id");
    reveal_strlit("offset");
    reveal_strlit("limit");
    reveal_strlit("entity_id");
    reveal_strlit("relation_id");
    reveal_strlit("relation_type");
    let s = connections_list_params(r, GetConnectionsPagination { page: k, per_page }, project_id);
    assert(s[1].0 == "offset"@);
    assert(s[2].0 == "limit"@);
    assert("offset"@[0] != "limit"@[0]);
    assert("offset"@ != "entity_id"@);
    assert("offset"@ != "relation_id"@);
    assert("offset"@ != "relation_type"@);
    assert("limit"@ != "entity_id"@);
    assert("limit"@ != "relation_id"@);
    assert("limit"@ != "relation_type"@);
    assert forall|j: int| 2 < j < s.len() implies
        (#[trigger] s[j]).0 == "entity_id"@ || s[j].0 == "relation_id"@ || s[j].0 == "relation_type"@ by {}
    lemma_param_map_last_binding(s, 1);
    lemma_param_map_last_binding(s, 2);
}

/// The page built from the database's window over decodable matches holds the
/// items of the window.
proof fn lemma_connection_page_items(all: Seq<Seq<CellModel>>, k: u32, per_page: u32)
    requires
        1 <= k,
        rows_fault(all, connection_kinds()) is None,
    ensures
        connections_outcome(db_window(all, page_offset(k, per_page), per_page as int), Ok(()), all.len() as i64, k, per_page)
            matches Ok(page) && page.items == db_window(
                all.map_values(|row: Seq<CellModel>| connection_item_of(row)), page_offset(k, per_page), per_page as int)
            && page.has_more == page_has_more(k, per_page, all.len() as i64),
{
    lemma_rows_fault_none(all, connection_kinds());
    let w = db_window(all, page_offset(k, per_page), per_page as int);
    assert((k - 1) * per_page >= 0) by (nonlinear_arith) requires k >= 1;
    let lo = if page_offset(k, per_page) < all.len() { page_offset(k, per_page) } else { all.len() as int };
    assert forall|i: int| 0 <= i < w.len() implies row_fault(#[trigger] w[i], connection_kinds()) is None by {
        assert(w[i] == all[i + lo]);
    }
    lemma_rows_fault_none_of_rows(w, connection_kinds());
    assert(w.map_values(|row: Seq<CellModel>| connection_item_of(row)) =~= db_window(
        all.map_values(|row: Seq<CellModel>| connection_item_of(row)), page_offset(k, per_page), per_page as int));
}

/// Importing the same file a second time, when every item carries its id,
/// changes nothing the first import stored: no node or edge is added and no
/// stored field changes (timestamps aside). The merges of the model are those
/// the import sends: with every id given, step `k` of the plan binds exactly
/// `import_step_params(user_id, r, k)`, so both imports send the same queries.
pub proof fn law_repeated_import_changes_nothing(g: GraphModel, user_id: u64, r: ImportProjectGraphRequest)
    requires
        all_ids_given(r),
    ensures
        forall|k: int, s: ImportStep|
            0 <= k < node_step_count(r) + r.connections@.len() && #[trigger] import_step_ok(user_id, r, k, s)
                ==> s.query@.params == import_step_params(user_id, r, k),
        import_graph(import_graph(g, user_id, r), user_id, r) == import_graph(g, user_id, r),
{
    assert forall|k: int, s: ImportStep|
        0 <= k < node_step_count(r) + r.connections@.len() && #[trigger] import_step_ok(user_id, r, k, s)
        implies s.query@.params == import_step_params(user_id, r, k) by {
        let nc = r.characters@.len() as int;
        let ne = r.events@.len() as int;
        let nr = r.relations@.len() as int;
        if k < nc {
            assert(r.characters@[k].id is Some);
        } else if k < nc + ne {
            assert(r.events@[k - nc].id is Some);
        } else if k < nc + ne + nr {
            assert(r.relations@[k - nc - ne].id is Some);
        } else {
            assert(r.connections@[k - nc - ne - nr].id is Some);
        }
    }
    let ns = import_node_merges(user_id, r);
    assert forall|i: int, j: int, k: (Seq<char>, BoltModel, BoltModel)|
        #![trigger touches_at(ns, i, k), touches_at(ns, j, k)]
        0 <= i < ns.len() && 0 <= j < ns.len() && touches_at(ns, i, k) && touches_at(ns, j, k)
        implies ((ns[i].set)(k)).dom() == ((ns[j].set)(k)).dom() by {
        assert(node_label(r, i) == k.0 && node_label(r, j) == k.0);
        assert(((ns[i].set)(k)).dom() =~= merge_fields(k.0));
        assert(((ns[j].set)(k)).dom() =~= merge_fields(k.0));
    }
    assert(same_fields(ns));
    lemma_run_upserts_twice(g.nodes, ns);
    let n1 = run_upserts(g.nodes, ns);
    let es = import_connection_merges(n1, user_id, r);
    assert forall|i: int, j: int, e: ((Seq<char>, BoltModel, BoltModel), (Seq<char>, BoltModel, BoltModel), BoltModel, BoltModel)|
        #![trigger touches_at(es, i, e), touches_at(es, j, e)]
        0 <= i < es.len() && 0 <= j < es.len() && touches_at(es, i, e) && touches_at(es, j, e)
        implies ((es[i].set)(e)).dom() == ((es[j].set)(e)).dom() by {
        assert(((es[i].set)(e)).dom() =~= ((es[j].set)(e)).dom());
    }
    assert(same_fields(es));
    lemma_run_upserts_twice(g.edges, es);
}

} // verus!
