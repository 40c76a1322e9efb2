use movie_store::api::{
    handle_create, handle_delete, handle_get, handle_list, handle_update, ApiResponse, MovieInput,
};
use movie_store::store::Store;

fn input(title: &str, director: &str) -> MovieInput {
    MovieInput { id: None, title: String::from(title), director: String::from(director) }
}

#[test]
fn post_get_put_delete_scenario() {
    let mut s = Store::new();

    let created = handle_create(&mut s, Some(input("Dune", "Villeneuve")))
        .expect("create should succeed on a fresh draw");
    assert_eq!(created.status_code(), 201);
    let id = match created {
        ApiResponse::Created(m) => {
            assert_eq!(m.title, "Dune");
            assert_eq!(m.director, "Villeneuve");
            assert_eq!(uuid::Uuid::from_u128(m.id).to_string().len(), 36);
            m.id
        },
        _ => panic!("expected a created record"),
    };

    let fetched = handle_get(&s, Some(id));
    assert_eq!(fetched.status_code(), 200);
    match fetched {
        ApiResponse::OkMovie(m) => {
            assert_eq!(m.id, id);
            assert_eq!(m.title, "Dune");
            assert_eq!(m.director, "Villeneuve");
        },
        _ => panic!("expected 200 with the record"),
    }

    let updated = handle_update(&mut s, Some(id), Some(input("Dune Part Two", "Villeneuve")));
    assert_eq!(updated.status_code(), 200);
    match updated {
        ApiResponse::OkMovie(m) => {
            assert_eq!(m.id, id);
            assert_eq!(m.title, "Dune Part Two");
        },
        _ => panic!("expected 200 with the rewritten record"),
    }

    let deleted = handle_delete(&mut s, Some(id));
    assert_eq!(deleted.status_code(), 204);
    assert!(matches!(deleted, ApiResponse::NoContent));

    let gone = handle_get(&s, Some(id));
    assert_eq!(gone.status_code(), 404);
    assert!(matches!(gone, ApiResponse::NotFound));
}

#[test]
fn list_handler_answers_snapshot_in_order() {
    let mut s = Store::new();
    s.insert_fresh(1, String::from("A"), String::from("B")).unwrap();
    s.insert_fresh(2, String::from("C"), String::from("D")).unwrap();
    let listed = handle_list(&s);
    assert_eq!(listed.status_code(), 200);
    match listed {
        ApiResponse::OkList(ms) => {
            assert_eq!(ms.len(), 2);
            assert_eq!(ms[0].id, 1);
            assert_eq!(ms[0].title, "A");
            assert_eq!(ms[1].id, 2);
            assert_eq!(ms[1].title, "C");
        },
        _ => panic!("expected 200 with all records"),
    }
}

#[test]
fn unparsable_body_answers_bad_request() {
    let mut s = Store::new();
    let r = handle_create(&mut s, None).unwrap();
    assert_eq!(r.status_code(), 400);
    assert!(matches!(r, ApiResponse::BadRequest));
    assert_eq!(s.len(), 0);

    s.insert_fresh(1, String::from("A"), String::from("B")).unwrap();
    let r = handle_update(&mut s, Some(1), None);
    assert_eq!(r.status_code(), 400);
    assert!(matches!(r, ApiResponse::BadRequest));
    let held = s.get(1).unwrap();
    assert_eq!(held.title, "A");
}

#[test]
fn malformed_path_id_answers_not_found() {
    let mut s = Store::new();
    s.insert_fresh(1, String::from("A"), String::from("B")).unwrap();

    let r = handle_get(&s, None);
    assert_eq!(r.status_code(), 404);
    assert!(matches!(r, ApiResponse::NotFound));

    let r = handle_update(&mut s, None, Some(input("X", "Y")));
    assert_eq!(r.status_code(), 404);

    let r = handle_delete(&mut s, None);
    assert_eq!(r.status_code(), 404);
    assert_eq!(s.len(), 1);
}

#[test]
fn client_supplied_id_is_ignored() {
    let mut s = Store::new();
    let supplied: u128 = 0xa1a2a3a4b1b2c1c2d1d2d3d4d5d6d7d8;
    let body = MovieInput {
        id: Some(supplied),
        title: String::from("Dune"),
        director: String::from("Villeneuve"),
    };
    let created = handle_create(&mut s, Some(body)).unwrap();
    let id = match created {
        ApiResponse::Created(m) => {
            assert_ne!(m.id, supplied);
            m.id
        },
        _ => panic!("expected a created record"),
    };

    let body = MovieInput {
        id: Some(supplied),
        title: String::from("Dune Part Two"),
        director: String::from("Villeneuve"),
    };
    let updated = handle_update(&mut s, Some(id), Some(body));
    match updated {
        ApiResponse::OkMovie(m) => {
            assert_eq!(m.id, id);
            assert_eq!(m.title, "Dune Part Two");
        },
        _ => panic!("expected 200 with the rewritten record"),
    }
    assert!(s.get(supplied).is_none());
}

#[test]
fn unknown_id_answers_not_found() {
    let mut s = Store::new();
    s.insert_fresh(1, String::from("A"), String::from("B")).unwrap();

    let r = handle_get(&s, Some(9));
    assert_eq!(r.status_code(), 404);

    let r = handle_update(&mut s, Some(9), Some(input("X", "Y")));
    assert_eq!(r.status_code(), 404);

    let r = handle_delete(&mut s, Some(9));
    assert_eq!(r.status_code(), 404);
    assert_eq!(s.len(), 1);
}
