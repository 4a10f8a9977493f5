use persons_crud::person::{Person, PersonFields};
use persons_crud::response::{
    create_response, delete_response, error_status, get_response, handle_create, handle_delete,
    handle_get, handle_list, handle_update, list_response, update_response, ErrorKind,
    HttpResponse, ResponseBody,
};
use persons_crud::store::{PersonStore, StoreError};

fn fields(first: &str, last: &str, dni: &str, address: &str) -> PersonFields {
    PersonFields {
        first_name: first.to_owned(),
        last_name: last.to_owned(),
        dni: dni.to_owned(),
        address: address.to_owned(),
    }
}

fn created_id(resp: &HttpResponse) -> i64 {
    match &resp.body {
        ResponseBody::IdBody(id) => *id,
        _ => panic!("create response carries no id"),
    }
}

#[test]
fn create_assigns_increasing_unused_ids() {
    let mut store = PersonStore::new();
    let r1 = handle_create(&mut store, fields("Ana", "Diaz", "111", "Calle 1"));
    assert_eq!(r1.status, 201);
    let id1 = created_id(&r1);
    assert_eq!(id1, 1);

    let r2 = handle_create(&mut store, fields("Bo", "Li", "222", "Calle 2"));
    assert_eq!(r2.status, 201);
    let id2 = created_id(&r2);
    assert!(id2 > id1);

    // deleting a row never frees its id: the next create still goes above
    let d = handle_delete(&mut store, id2);
    assert_eq!(d.status, 200);
    let r3 = handle_create(&mut store, fields("Cy", "Rey", "333", "Calle 3"));
    assert_eq!(r3.status, 201);
    assert!(created_id(&r3) > id2);
}

#[test]
fn create_duplicate_dni_rejected_store_unchanged() {
    let mut store = PersonStore::new();
    let r1 = handle_create(&mut store, fields("Ana", "Diaz", "111", "Calle 1"));
    assert_eq!(r1.status, 201);
    assert_eq!(store.list().len(), 1);

    let r2 = handle_create(&mut store, fields("Eva", "Sol", "111", "Calle 9"));
    assert_eq!(r2.status, 400);
    assert!(matches!(&r2.body, ResponseBody::ErrorBody(_)));
    let rows = store.list();
    assert_eq!(rows.len(), 1);
    assert_eq!(rows[0].first_name, "Ana");
}

#[test]
fn create_duplicate_dni_reports_duplicate_error() {
    let mut store = PersonStore::new();
    assert!(store.create(fields("Ana", "Diaz", "111", "Calle 1")).is_ok());
    let err = store.create(fields("Eva", "Sol", "111", "Calle 9"));
    assert_eq!(err, Err(StoreError::DuplicateDni));
}

#[test]
fn get_returns_exactly_created_fields() {
    let mut store = PersonStore::new();
    let r = handle_create(&mut store, fields("Ana", "Diaz", "111", "Calle 1"));
    let id = created_id(&r);
    let g = handle_get(&store, id);
    assert_eq!(g.status, 200);
    match g.body {
        ResponseBody::PersonBody(p) => {
            assert_eq!(p.id, id);
            assert_eq!(p.first_name, "Ana");
            assert_eq!(p.last_name, "Diaz");
            assert_eq!(p.dni, "111");
            assert_eq!(p.address, "Calle 1");
        }
        _ => panic!("get response carries no person"),
    }
}

#[test]
fn get_unknown_or_deleted_id_is_not_found() {
    let mut store = PersonStore::new();
    let g0 = handle_get(&store, 7);
    assert_eq!(g0.status, 404);
    match &g0.body {
        ResponseBody::ErrorBody(e) => assert_eq!(e, "Person not found"),
        _ => panic!("not-found response carries no error"),
    }

    let id = created_id(&handle_create(&mut store, fields("Ana", "Diaz", "111", "Calle 1")));
    assert_eq!(handle_delete(&mut store, id).status, 200);
    assert_eq!(handle_get(&store, id).status, 404);
}

#[test]
fn update_replaces_all_four_fields_id_unchanged() {
    let mut store = PersonStore::new();
    let id = created_id(&handle_create(&mut store, fields("Ana", "Diaz", "111", "Calle 1")));
    let u = handle_update(&mut store, id, fields("Anna", "Ruiz", "112", "Av 2"));
    assert_eq!(u.status, 200);
    match &u.body {
        ResponseBody::MessageBody(m) => assert_eq!(m, "Person updated"),
        _ => panic!("update response carries no message"),
    }
    let g = handle_get(&store, id);
    assert_eq!(g.status, 200);
    match g.body {
        ResponseBody::PersonBody(p) => {
            assert_eq!(
                p,
                Person {
                    id,
                    first_name: "Anna".to_owned(),
                    last_name: "Ruiz".to_owned(),
                    dni: "112".to_owned(),
                    address: "Av 2".to_owned(),
                }
            );
        }
        _ => panic!("get response carries no person"),
    }
}

#[test]
fn update_missing_id_is_not_found_and_mutates_nothing() {
    let mut store = PersonStore::new();
    let id = created_id(&handle_create(&mut store, fields("Ana", "Diaz", "111", "Calle 1")));
    let u = handle_update(&mut store, id + 5, fields("X", "Y", "999", "Z"));
    assert_eq!(u.status, 404);
    let rows = store.list();
    assert_eq!(rows.len(), 1);
    assert_eq!(rows[0].first_name, "Ana");
    assert_eq!(rows[0].dni, "111");
}

#[test]
fn update_to_dni_of_another_row_is_client_error() {
    let mut store = PersonStore::new();
    let ida = created_id(&handle_create(&mut store, fields("Ana", "Diaz", "111", "Calle 1")));
    let idb = created_id(&handle_create(&mut store, fields("Bo", "Li", "222", "Calle 2")));
    let u = handle_update(&mut store, idb, fields("Bo", "Li", "111", "Calle 2"));
    assert_eq!(u.status, 400);
    // keeping one's own national id in a full replace is fine
    let v = handle_update(&mut store, ida, fields("Ana", "Diaz", "111", "Calle 9"));
    assert_eq!(v.status, 200);
    assert_eq!(store.update(idb, fields("Bo", "Li", "111", "x")), Err(StoreError::DuplicateDni));
    assert_eq!(store.update(99, fields("Bo", "Li", "333", "x")), Err(StoreError::NotFound));
}

#[test]
fn delete_then_absent() {
    let mut store = PersonStore::new();
    let id = created_id(&handle_create(&mut store, fields("Ana", "Diaz", "111", "Calle 1")));
    let d1 = handle_delete(&mut store, id);
    assert_eq!(d1.status, 200);
    match &d1.body {
        ResponseBody::MessageBody(m) => assert_eq!(m, "Person deleted"),
        _ => panic!("delete response carries no message"),
    }
    assert_eq!(handle_get(&store, id).status, 404);
    let d2 = handle_delete(&mut store, id);
    assert_eq!(d2.status, 404);
    assert_eq!(store.delete(id), Err(StoreError::NotFound));
}

#[test]
fn list_after_deleting_middle_row() {
    let mut store = PersonStore::new();
    let _a = created_id(&handle_create(&mut store, fields("Ana", "Diaz", "111", "Calle 1")));
    let b = created_id(&handle_create(&mut store, fields("Bo", "Li", "222", "Calle 2")));
    let _c = created_id(&handle_create(&mut store, fields("Cy", "Rey", "333", "Calle 3")));
    assert_eq!(handle_delete(&mut store, b).status, 200);

    let l = handle_list(&store);
    assert_eq!(l.status, 200);
    match l.body {
        ResponseBody::PersonListBody(rows) => {
            let mut dnis: Vec<String> = rows.iter().map(|p| p.dni.clone()).collect();
            dnis.sort();
            assert_eq!(dnis, vec!["111".to_owned(), "333".to_owned()]);
        }
        _ => panic!("list response carries no rows"),
    }
}

#[test]
fn list_empty_store_is_empty_array() {
    let store = PersonStore::new();
    let l = handle_list(&store);
    assert_eq!(l.status, 200);
    match l.body {
        ResponseBody::PersonListBody(rows) => assert_eq!(rows.len(), 0),
        _ => panic!("list response carries no rows"),
    }
}

#[test]
fn full_scenario_create_get_update_delete() {
    let mut store = PersonStore::new();
    let r = handle_create(&mut store, fields("Ana", "Diaz", "111", "Calle 1"));
    assert_eq!(r.status, 201);
    assert_eq!(created_id(&r), 1);

    let g = handle_get(&store, 1);
    assert_eq!(g.status, 200);
    match &g.body {
        ResponseBody::PersonBody(p) => {
            assert_eq!(p.id, 1);
            assert_eq!(p.first_name, "Ana");
            assert_eq!(p.last_name, "Diaz");
            assert_eq!(p.dni, "111");
            assert_eq!(p.address, "Calle 1");
        }
        _ => panic!("get response carries no person"),
    }

    let u = handle_update(&mut store, 1, fields("Ana", "Diaz", "111", "Calle 2"));
    assert_eq!(u.status, 200);
    let g2 = handle_get(&store, 1);
    assert_eq!(g2.status, 200);
    match &g2.body {
        ResponseBody::PersonBody(p) => assert_eq!(p.address, "Calle 2"),
        _ => panic!("get response carries no person"),
    }

    assert_eq!(handle_delete(&mut store, 1).status, 200);
    assert_eq!(handle_get(&store, 1).status, 404);
}

#[test]
fn error_kinds_map_to_their_status_codes() {
    assert_eq!(error_status(ErrorKind::ClientError), 400);
    assert_eq!(error_status(ErrorKind::NotFound), 404);
    assert_eq!(error_status(ErrorKind::BackendFailure), 500);
}

#[test]
fn outcome_mappings_cover_backend_failures() {
    let c = create_response(Err("no such table: person".to_owned()));
    assert_eq!(c.status, 400);
    match &c.body {
        ResponseBody::ErrorBody(e) => assert_eq!(e, "no such table: person"),
        _ => panic!("failure response carries no error"),
    }

    let l = list_response(Err("database is locked".to_owned()));
    assert_eq!(l.status, 500);

    let g = get_response(Err("database is locked".to_owned()));
    assert_eq!(g.status, 500);
    let g404 = get_response(Ok(None));
    assert_eq!(g404.status, 404);

    let u = update_response(Err("UNIQUE constraint failed: person.dni".to_owned()));
    assert_eq!(u.status, 400);
    let u404 = update_response(Ok(0));
    assert_eq!(u404.status, 404);
    let u200 = update_response(Ok(1));
    assert_eq!(u200.status, 200);

    let d = delete_response(Err("database is locked".to_owned()));
    assert_eq!(d.status, 500);
    let d404 = delete_response(Ok(0));
    assert_eq!(d404.status, 404);
    let d200 = delete_response(Ok(1));
    assert_eq!(d200.status, 200);
    match &d200.body {
        ResponseBody::MessageBody(m) => assert_eq!(m, "Person deleted"),
        _ => panic!("delete response carries no message"),
    }
}
