//! End-to-end scenarios against the in-memory store: bootstrap, login,
//! role gates, and each endpoint's success and error answers.

use tfg_backend::errors::MyError;
use tfg_backend::types::{
    AddProduct, AddProperty, AddStocks, Binding, Dataset, DeleteProduct, DeleteProperty, Db,
    Importing, ModifyProduct, ModifyProductToTag, ModifyTags, ProductStockHistory, ResetPwd,
    Stock, StockVar, Tag, UserData,
};

fn creds(username: &str, pwd: &str) -> UserData {
    UserData { username: username.to_string(), pwd: pwd.to_string(), rol: None, token: None }
}

fn new_user(username: &str, pwd: &str, rol: &str, token: u64) -> UserData {
    UserData {
        username: username.to_string(),
        pwd: pwd.to_string(),
        rol: Some(rol.to_string()),
        token: Some(token),
    }
}

/// A booted store with an admin session; returns the store and the admin token.
fn booted() -> (Db, u64) {
    let mut db = Db::new();
    db.ensure_admin();
    let token = db.login(&creds("admin", "admin")).unwrap();
    (db, token)
}

/// A booted store with an extra guest account logged in.
fn with_guest() -> (Db, u64, u64) {
    let (mut db, admin) = booted();
    db.register(&new_user("visitor", "pw", "guest", admin)).unwrap();
    let guest = db.login(&creds("visitor", "pw")).unwrap();
    (db, admin, guest)
}

fn add_product(db: &mut Db, token: u64, code: &str, name: &str, stock: u64) -> Result<&'static str, MyError> {
    db.add_product(&AddProduct {
        token,
        code: code.to_string(),
        name: name.to_string(),
        stock,
    })
}

#[test]
fn welcome_message() {
    assert_eq!(tfg_backend::test(), "Welcome to API!");
}

#[test]
fn bootstrap_creates_admin_and_login_succeeds() {
    let mut db = Db::new();
    db.ensure_admin();
    let token = db.login(&creds("admin", "admin")).expect("admin login after first boot");
    let products = db.get_products(token).expect("authenticated read");
    assert!(products.is_empty());
}

#[test]
fn bootstrap_is_idempotent() {
    let mut db = Db::new();
    db.ensure_admin();
    db.ensure_admin();
    assert_eq!(db.users.len(), 1);
    let token = db.login(&creds("admin", "admin")).unwrap();
    assert!(db.get_products(token).is_ok());
}

#[test]
fn login_with_bad_credentials_fails() {
    let (mut db, _) = booted();
    assert_eq!(db.login(&creds("admin", "wrong")).unwrap_err(), MyError::AuthError);
    assert_eq!(db.login(&creds("nobody", "admin")).unwrap_err(), MyError::AuthError);
}

#[test]
fn invalid_token_is_an_authentication_error() {
    let (mut db, token) = booted();
    let bogus = token + 1;
    assert_eq!(db.get_products(bogus).unwrap_err(), MyError::AuthError);
    assert_eq!(db.get_tags(bogus).unwrap_err(), MyError::AuthError);
    assert_eq!(db.get_stocks(bogus).unwrap_err(), MyError::AuthError);
    assert_eq!(add_product(&mut db, bogus, "c", "n", 1).unwrap_err(), MyError::AuthError);
    assert!(db.get_products(bogus).is_err());
    assert_eq!(db.get_products(token).unwrap().len(), 0);
}

#[test]
fn register_without_token_is_an_authentication_error() {
    let (mut db, _) = booted();
    let mut data = creds("someone", "pw");
    data.rol = Some("guest".to_string());
    assert_eq!(db.register(&data).unwrap_err(), MyError::AuthError);
    assert_eq!(db.users.len(), 1);
}

#[test]
fn register_requires_exactly_administrator() {
    let (mut db, admin, guest) = with_guest();
    // a guest token is rejected
    assert_eq!(
        db.register(&new_user("other", "pw", "guest", guest)).unwrap_err(),
        MyError::ForbiddenError
    );
    // a non-administrator authenticated role is rejected too
    db.register(&new_user("worker", "pw", "manager", admin)).unwrap();
    let manager = db.login(&creds("worker", "pw")).unwrap();
    assert_eq!(
        db.register(&new_user("other", "pw", "guest", manager)).unwrap_err(),
        MyError::ForbiddenError
    );
    assert_eq!(db.users.len(), 3);
}

#[test]
fn register_duplicate_username_fails() {
    let (mut db, admin) = booted();
    assert_eq!(
        db.register(&new_user("admin", "x", "guest", admin)).unwrap_err(),
        MyError::DuplicateError
    );
}

#[test]
fn guest_cannot_add_product() {
    let (mut db, admin, guest) = with_guest();
    assert_eq!(
        add_product(&mut db, guest, "P-1", "chair", 4).unwrap_err(),
        MyError::ForbiddenError
    );
    assert!(db.get_products(admin).unwrap().is_empty());
}

#[test]
fn guest_cannot_reach_any_write_endpoint() {
    let (mut db, admin, guest) = with_guest();
    add_product(&mut db, admin, "P-1", "chair", 4).unwrap();
    let id = db.get_products(admin).unwrap()[0].id;
    let forbidden = MyError::ForbiddenError;
    assert_eq!(db.delete_product(&DeleteProduct { token: guest, id }).unwrap_err(), forbidden);
    assert_eq!(
        db.modify_product(&ModifyProduct {
            token: guest,
            id,
            code: "P-2".to_string(),
            name: "stool".to_string(),
        })
        .unwrap_err(),
        forbidden
    );
    assert_eq!(
        db.add_property(&AddProperty {
            token: guest,
            id,
            name: "color".to_string(),
            value: "red".to_string(),
        })
        .unwrap_err(),
        forbidden
    );
    assert_eq!(
        db.delete_property(&DeleteProperty { token: guest, id, name: "color".to_string() })
            .unwrap_err(),
        forbidden
    );
    assert_eq!(
        db.add_tag(&ModifyTags { token: guest, id: 0, name: "wood".to_string() }).unwrap_err(),
        forbidden
    );
    assert_eq!(
        db.delete_tag(&ModifyTags { token: guest, id: 0, name: String::new() }).unwrap_err(),
        forbidden
    );
    assert_eq!(
        db.bind_tag(&ModifyProductToTag { token: guest, tag_id: 0, product_id: id }).unwrap_err(),
        forbidden
    );
    assert_eq!(
        db.unbind_tag(&ModifyProductToTag { token: guest, tag_id: 0, product_id: id })
            .unwrap_err(),
        forbidden
    );
    assert_eq!(
        db.var_stock(&AddStocks { token: guest, stocks: vec![StockVar { id, variation: 1 }] })
            .unwrap_err(),
        forbidden
    );
    assert_eq!(
        db.import_data(Importing { token: guest, data: Dataset::new() }).unwrap_err(),
        forbidden
    );
    // nothing changed
    assert_eq!(db.get_products(admin).unwrap().len(), 1);
    assert_eq!(db.get_stocks(admin).unwrap()[0].quantity, 4);
}

#[test]
fn guest_can_read() {
    let (mut db, admin, guest) = with_guest();
    add_product(&mut db, admin, "P-1", "chair", 4).unwrap();
    assert_eq!(db.get_products(guest).unwrap().len(), 1);
    assert!(db.get_tags(guest).is_ok());
    assert!(db.get_stocks(guest).is_ok());
    assert!(db.get_popular_tags(guest).is_ok());
    assert!(db.export_data(guest).is_ok());
    assert!(db
        .get_stock_history(&ProductStockHistory { token: guest, id: 0 })
        .is_ok());
}

#[test]
fn admin_adds_product_and_stock_is_seeded() {
    let (mut db, admin) = booted();
    assert_eq!(add_product(&mut db, admin, "P-1", "chair", 7).unwrap(), "product added");
    let products = db.get_products(admin).unwrap();
    assert_eq!(products.len(), 1);
    assert_eq!(products[0].code, "P-1");
    assert_eq!(products[0].name, "chair");
    let id = products[0].id;
    let stocks = db.get_stocks(admin).unwrap();
    assert_eq!(stocks.len(), 1);
    assert_eq!(stocks[0].product_id, id);
    assert_eq!(stocks[0].quantity, 7);
}

#[test]
fn add_product_with_duplicate_code_fails() {
    let (mut db, admin) = booted();
    add_product(&mut db, admin, "P-1", "chair", 1).unwrap();
    assert_eq!(add_product(&mut db, admin, "P-1", "stool", 2).unwrap_err(), MyError::DuplicateError);
    assert_eq!(db.get_products(admin).unwrap().len(), 1);
}

#[test]
fn delete_product_and_missing_id_fails() {
    let (mut db, admin) = booted();
    add_product(&mut db, admin, "P-1", "chair", 1).unwrap();
    let id = db.get_products(admin).unwrap()[0].id;
    assert_eq!(db.delete_product(&DeleteProduct { token: admin, id }).unwrap(), "product deleted");
    assert!(db.get_products(admin).unwrap().is_empty());
    assert_eq!(
        db.delete_product(&DeleteProduct { token: admin, id }).unwrap_err(),
        MyError::NotFoundError
    );
}

#[test]
fn modify_product_changes_code_and_name() {
    let (mut db, admin) = booted();
    add_product(&mut db, admin, "P-1", "chair", 1).unwrap();
    add_product(&mut db, admin, "P-2", "stool", 1).unwrap();
    let id = db.get_products(admin).unwrap()[0].id;
    assert_eq!(
        db.modify_product(&ModifyProduct {
            token: admin,
            id,
            code: "P-9".to_string(),
            name: "bench".to_string(),
        })
        .unwrap(),
        "product modified"
    );
    let products = db.get_products(admin).unwrap();
    assert_eq!(products[0].code, "P-9");
    assert_eq!(products[0].name, "bench");
    // taking another product's code is a uniqueness violation
    assert_eq!(
        db.modify_product(&ModifyProduct {
            token: admin,
            id,
            code: "P-2".to_string(),
            name: "bench".to_string(),
        })
        .unwrap_err(),
        MyError::DuplicateError
    );
    // keeping one's own code is fine
    assert!(db
        .modify_product(&ModifyProduct {
            token: admin,
            id,
            code: "P-9".to_string(),
            name: "couch".to_string(),
        })
        .is_ok());
}

#[test]
fn properties_are_added_and_deleted() {
    let (mut db, admin) = booted();
    add_product(&mut db, admin, "P-1", "chair", 1).unwrap();
    let id = db.get_products(admin).unwrap()[0].id;
    assert_eq!(
        db.add_property(&AddProperty {
            token: admin,
            id,
            name: "color".to_string(),
            value: "red".to_string(),
        })
        .unwrap(),
        "property added"
    );
    assert_eq!(db.get_products(admin).unwrap()[0].properties.len(), 1);
    assert_eq!(
        db.delete_property(&DeleteProperty { token: admin, id, name: "color".to_string() })
            .unwrap(),
        "property added"
    );
    assert!(db.get_products(admin).unwrap()[0].properties.is_empty());
    assert_eq!(
        db.delete_property(&DeleteProperty { token: admin, id, name: "color".to_string() })
            .unwrap_err(),
        MyError::NotFoundError
    );
    assert_eq!(
        db.add_property(&AddProperty {
            token: admin,
            id: id + 1,
            name: "color".to_string(),
            value: "red".to_string(),
        })
        .unwrap_err(),
        MyError::NotFoundError
    );
}

#[test]
fn tags_are_added_and_deleted() {
    let (mut db, admin) = booted();
    assert_eq!(db.add_tag(&ModifyTags { token: admin, id: 0, name: "wood".to_string() }).unwrap(), "tag added");
    assert_eq!(
        db.add_tag(&ModifyTags { token: admin, id: 0, name: "wood".to_string() }).unwrap_err(),
        MyError::DuplicateError
    );
    let id = db.get_tags(admin).unwrap()[0].id;
    assert_eq!(
        db.delete_tag(&ModifyTags { token: admin, id, name: String::new() }).unwrap(),
        "tag deleted"
    );
    assert!(db.get_tags(admin).unwrap().is_empty());
}

#[test]
fn deleting_a_deleted_tag_is_not_found() {
    let (mut db, admin) = booted();
    db.add_tag(&ModifyTags { token: admin, id: 0, name: "wood".to_string() }).unwrap();
    let id = db.get_tags(admin).unwrap()[0].id;
    db.delete_tag(&ModifyTags { token: admin, id, name: String::new() }).unwrap();
    assert_eq!(
        db.delete_tag(&ModifyTags { token: admin, id, name: String::new() }).unwrap_err(),
        MyError::NotFoundError
    );
}

#[test]
fn binding_and_popularity() {
    let (mut db, admin) = booted();
    add_product(&mut db, admin, "P-1", "chair", 1).unwrap();
    add_product(&mut db, admin, "P-2", "stool", 1).unwrap();
    db.add_tag(&ModifyTags { token: admin, id: 0, name: "wood".to_string() }).unwrap();
    db.add_tag(&ModifyTags { token: admin, id: 0, name: "metal".to_string() }).unwrap();
    let p1 = db.get_products(admin).unwrap()[0].id;
    let p2 = db.get_products(admin).unwrap()[1].id;
    let wood = db.get_tags(admin).unwrap()[0].id;
    let metal = db.get_tags(admin).unwrap()[1].id;
    assert_eq!(
        db.bind_tag(&ModifyProductToTag { token: admin, tag_id: wood, product_id: p1 }).unwrap(),
        "tag binded"
    );
    db.bind_tag(&ModifyProductToTag { token: admin, tag_id: wood, product_id: p2 }).unwrap();
    assert_eq!(
        db.bind_tag(&ModifyProductToTag { token: admin, tag_id: wood, product_id: p1 })
            .unwrap_err(),
        MyError::DuplicateError
    );
    assert_eq!(
        db.bind_tag(&ModifyProductToTag { token: admin, tag_id: 99, product_id: p1 })
            .unwrap_err(),
        MyError::NotFoundError
    );
    let popular = db.get_popular_tags(admin).unwrap();
    assert_eq!(popular.len(), 2);
    assert_eq!(popular[0].name, "wood");
    assert_eq!(popular[0].count, 2);
    assert_eq!(popular[1].name, "metal");
    assert_eq!(popular[1].count, 0);
    assert_eq!(
        db.unbind_tag(&ModifyProductToTag { token: admin, tag_id: wood, product_id: p1 })
            .unwrap(),
        "tag unbinded"
    );
    assert_eq!(db.get_popular_tags(admin).unwrap()[0].count, 1);
    assert_eq!(
        db.unbind_tag(&ModifyProductToTag { token: admin, tag_id: wood, product_id: p1 })
            .unwrap_err(),
        MyError::NotFoundError
    );
    assert_eq!(metal, wood + 1);
}

#[test]
fn var_stock_applies_deltas_and_logs_history() {
    let (mut db, admin) = booted();
    add_product(&mut db, admin, "P-1", "chair", 10).unwrap();
    let id = db.get_products(admin).unwrap()[0].id;
    assert_eq!(
        db.var_stock(&AddStocks {
            token: admin,
            stocks: vec![StockVar { id, variation: 5 }, StockVar { id, variation: -3 }],
        })
        .unwrap(),
        "stock changed"
    );
    assert_eq!(db.get_stocks(admin).unwrap()[0].quantity, 12);
    let history = db.get_stock_history(&ProductStockHistory { token: admin, id }).unwrap();
    assert_eq!(history.len(), 2);
    assert_eq!(history[0].variation, 5);
    assert_eq!(history[1].variation, -3);
}

#[test]
fn var_stock_is_atomic_on_failure() {
    let (mut db, admin) = booted();
    add_product(&mut db, admin, "P-1", "chair", 10).unwrap();
    let id = db.get_products(admin).unwrap()[0].id;
    // the second delta would drive the quantity negative: nothing changes
    assert_eq!(
        db.var_stock(&AddStocks {
            token: admin,
            stocks: vec![StockVar { id, variation: 5 }, StockVar { id, variation: -100 }],
        })
        .unwrap_err(),
        MyError::ConstraintError
    );
    assert_eq!(db.get_stocks(admin).unwrap()[0].quantity, 10);
    assert!(db.get_stock_history(&ProductStockHistory { token: admin, id }).unwrap().is_empty());
    // a delta for a product without a stock row is a not-found error
    assert_eq!(
        db.var_stock(&AddStocks {
            token: admin,
            stocks: vec![StockVar { id: id + 7, variation: 1 }],
        })
        .unwrap_err(),
        MyError::NotFoundError
    );
}

#[test]
fn stock_history_is_per_product() {
    let (mut db, admin) = booted();
    add_product(&mut db, admin, "P-1", "chair", 1).unwrap();
    add_product(&mut db, admin, "P-2", "stool", 1).unwrap();
    let p1 = db.get_products(admin).unwrap()[0].id;
    let p2 = db.get_products(admin).unwrap()[1].id;
    db.var_stock(&AddStocks {
        token: admin,
        stocks: vec![
            StockVar { id: p1, variation: 1 },
            StockVar { id: p2, variation: 2 },
            StockVar { id: p1, variation: 3 },
        ],
    })
    .unwrap();
    let h1 = db.get_stock_history(&ProductStockHistory { token: admin, id: p1 }).unwrap();
    assert_eq!(h1.len(), 2);
    assert_eq!(h1[0].variation, 1);
    assert_eq!(h1[1].variation, 3);
    let h2 = db.get_stock_history(&ProductStockHistory { token: admin, id: p2 }).unwrap();
    assert_eq!(h2.len(), 1);
    assert_eq!(h2[0].variation, 2);
}

#[test]
fn export_and_import_round_trip() {
    let (mut db, admin) = booted();
    add_product(&mut db, admin, "P-1", "chair", 4).unwrap();
    db.add_tag(&ModifyTags { token: admin, id: 0, name: "wood".to_string() }).unwrap();
    let snapshot = db.export_data(admin).unwrap().clone();
    let id = db.get_products(admin).unwrap()[0].id;
    db.delete_product(&DeleteProduct { token: admin, id }).unwrap();
    assert!(db.get_products(admin).unwrap().is_empty());
    assert_eq!(
        db.import_data(Importing { token: admin, data: snapshot }).unwrap(),
        "data imported successfully."
    );
    let products = db.get_products(admin).unwrap();
    assert_eq!(products.len(), 1);
    assert_eq!(products[0].code, "P-1");
    assert_eq!(db.get_tags(admin).unwrap().len(), 1);
    assert_eq!(db.get_stocks(admin).unwrap()[0].quantity, 4);
}

#[test]
fn import_rejects_a_broken_snapshot() {
    let (mut db, admin) = booted();
    let broken = Dataset {
        products: Vec::new(),
        tags: vec![
            Tag { id: 1, name: "wood".to_string() },
            Tag { id: 1, name: "metal".to_string() },
        ],
        bindings: Vec::new(),
        stocks: Vec::new(),
        history: Vec::new(),
        next_product_id: 0,
        next_tag_id: 2,
    };
    assert_eq!(
        db.import_data(Importing { token: admin, data: broken }).unwrap_err(),
        MyError::ConstraintError
    );
    assert!(db.get_tags(admin).unwrap().is_empty());
    // a stock row whose product id is at the counter is rejected too
    let stray = Dataset {
        products: Vec::new(),
        tags: Vec::new(),
        bindings: vec![Binding { tag_id: 0, product_id: 0 }, Binding { tag_id: 0, product_id: 0 }],
        stocks: vec![Stock { product_id: 3, quantity: 1 }],
        history: Vec::new(),
        next_product_id: 3,
        next_tag_id: 0,
    };
    assert_eq!(
        db.import_data(Importing { token: admin, data: stray }).unwrap_err(),
        MyError::ConstraintError
    );
}

#[test]
fn import_requires_administrator() {
    let (mut db, _admin, guest) = with_guest();
    assert_eq!(
        db.import_data(Importing { token: guest, data: Dataset::new() }).unwrap_err(),
        MyError::ForbiddenError
    );
}

#[test]
fn reset_password_changes_the_callers_account() {
    let (mut db, _admin, guest) = with_guest();
    assert_eq!(
        db.reset_password(&ResetPwd { token: guest, pwd: "better".to_string() }).unwrap(),
        "password changed."
    );
    assert_eq!(db.login(&creds("visitor", "pw")).unwrap_err(), MyError::AuthError);
    assert!(db.login(&creds("visitor", "better")).is_ok());
    assert_eq!(
        db.reset_password(&ResetPwd { token: 999, pwd: "x".to_string() }).unwrap_err(),
        MyError::AuthError
    );
}

#[test]
fn each_login_issues_a_fresh_token() {
    let (mut db, _) = booted();
    let t1 = db.login(&creds("admin", "admin")).unwrap();
    let t2 = db.login(&creds("admin", "admin")).unwrap();
    assert_ne!(t1, t2);
    assert!(db.get_products(t1).is_ok());
    assert!(db.get_products(t2).is_ok());
}

#[test]
fn error_messages_are_fixed() {
    assert_eq!(MyError::AuthError.message(), "invalid token");
    assert_eq!(MyError::ForbiddenError.message(), "you don't have permission");
    assert_eq!(MyError::NotFoundError.message(), "not found");
    assert_eq!(MyError::DuplicateError.message(), "already exists");
    assert_eq!(MyError::ConstraintError.message(), "constraint violated");
}
