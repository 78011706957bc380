//! The data model: users with sessions, products with properties, tags with
//! product bindings, stock rows with a change history, and the request
//! payloads the endpoints accept. `Db` is the whole store, handed explicitly
//! to every endpoint; its well-formedness invariant `wf` states the
//! uniqueness constraints the store maintains.

use vstd::prelude::*;

verus! {

/// A registered account. `rol` is the role string a token resolves to,
/// usually `"guest"` or `"administrator"`.
#[derive(Clone, Debug)]
pub struct User {
    pub username: String,
    pub pwd: String,
    pub rol: String,
}

/// An authenticated session: a token issued by `login` for an account.
#[derive(Clone, Debug)]
pub struct Session {
    pub token: u64,
    pub username: String,
}

/// A name/value pair attached to a product.
#[derive(Clone, Debug)]
pub struct Property {
    pub name: String,
    pub value: String,
}

/// A stored product. Codes are unique across the store.
#[derive(Clone, Debug)]
pub struct Product {
    pub id: u64,
    pub code: String,
    pub name: String,
    pub properties: Vec<Property>,
}

/// A tag. Names and ids are unique across the store.
#[derive(Clone, Debug)]
pub struct Tag {
    pub id: u64,
    pub name: String,
}

/// A many-to-many link between a tag and a product.
#[derive(Clone, Copy, Debug, PartialEq, Eq, Structural)]
pub struct Binding {
    pub tag_id: u64,
    pub product_id: u64,
}

/// The current stock level of one product.
#[derive(Clone, Copy, Debug, PartialEq, Eq, Structural)]
pub struct Stock {
    pub product_id: u64,
    pub quantity: u64,
}

/// One entry of the ordered log of stock changes.
#[derive(Clone, Copy, Debug, PartialEq, Eq, Structural)]
pub struct StockHistory {
    pub product_id: u64,
    pub variation: i64,
}

/// Credentials for `login`, or a new account for `register` (where `token`
/// must carry an administrator session).
#[derive(Clone, Debug)]
pub struct UserData {
    pub username: String,
    pub pwd: String,
    pub rol: Option<String>,
    pub token: Option<u64>,
}

/// Payload of `add_product`: the new product and its initial stock level.
#[derive(Clone, Debug)]
pub struct AddProduct {
    pub token: u64,
    pub code: String,
    pub name: String,
    pub stock: u64,
}

/// Payload of `delete_product`.
#[derive(Clone, Copy, Debug)]
pub struct DeleteProduct {
    pub token: u64,
    pub id: u64,
}

/// Payload of `modify_product`: new code and name for an existing product.
#[derive(Clone, Debug)]
pub struct ModifyProduct {
    pub token: u64,
    pub id: u64,
    pub code: String,
    pub name: String,
}

/// Payload of `add_property`: a name/value pair for product `id`.
#[derive(Clone, Debug)]
pub struct AddProperty {
    pub token: u64,
    pub id: u64,
    pub name: String,
    pub value: String,
}

/// Payload of `delete_property`: the named property of product `id`.
#[derive(Clone, Debug)]
pub struct DeleteProperty {
    pub token: u64,
    pub id: u64,
    pub name: String,
}

/// Payload of `add_tag` (uses `name`) and `delete_tag` (uses `id`).
#[derive(Clone, Debug)]
pub struct ModifyTags {
    pub token: u64,
    pub id: u64,
    pub name: String,
}

/// Payload of `bind_tag` and `unbind_tag`.
#[derive(Clone, Copy, Debug)]
pub struct ModifyProductToTag {
    pub token: u64,
    pub tag_id: u64,
    pub product_id: u64,
}

/// One stock delta of a `var_stock` request.
#[derive(Clone, Copy, Debug, PartialEq, Eq, Structural)]
pub struct StockVar {
    pub id: u64,
    pub variation: i64,
}

/// Payload of `var_stock`: deltas applied in order.
#[derive(Clone, Debug)]
pub struct AddStocks {
    pub token: u64,
    pub stocks: Vec<StockVar>,
}

/// Payload of `get_stock_history`: the product whose log is wanted.
#[derive(Clone, Copy, Debug)]
pub struct ProductStockHistory {
    pub token: u64,
    pub id: u64,
}

/// Payload of `reset_password`: the new password for the token's account.
#[derive(Clone, Debug)]
pub struct ResetPwd {
    pub token: u64,
    pub pwd: String,
}

/// A tag together with the number of products bound to it.
#[derive(Clone, Debug)]
pub struct PopularTag {
    pub id: u64,
    pub name: String,
    pub count: usize,
}

/// Payload of `import_data`: a full dataset snapshot to install.
#[derive(Clone, Debug)]
pub struct Importing {
    pub token: u64,
    pub data: Dataset,
}

/// The inventory half of the store: everything `export_data` snapshots and
/// `import_data` replaces.
#[derive(Clone, Debug)]
pub struct Dataset {
    pub products: Vec<Product>,
    pub tags: Vec<Tag>,
    pub bindings: Vec<Binding>,
    pub stocks: Vec<Stock>,
    pub history: Vec<StockHistory>,
    pub next_product_id: u64,
    pub next_tag_id: u64,
}

/// The whole store: accounts, sessions, and the inventory dataset.
#[derive(Clone, Debug)]
pub struct Db {
    pub users: Vec<User>,
    pub sessions: Vec<Session>,
    pub next_token: u64,
    pub data: Dataset,
}

/// No two users share a username.
pub open spec fn users_unique(s: Seq<User>) -> bool {
    forall|i: int, j: int|
        0 <= i < j < s.len() ==> s[i].username@ != s[j].username@
}

/// No two sessions share a token.
pub open spec fn sessions_unique(s: Seq<Session>) -> bool {
    forall|i: int, j: int| 0 <= i < j < s.len() ==> s[i].token != s[j].token
}

/// No two products share an id or a code.
pub open spec fn products_unique(s: Seq<Product>) -> bool {
    forall|i: int, j: int|
        0 <= i < j < s.len() ==> s[i].id != s[j].id && s[i].code@ != s[j].code@
}

/// No two tags share an id or a name.
pub open spec fn tags_unique(s: Seq<Tag>) -> bool {
    forall|i: int, j: int|
        0 <= i < j < s.len() ==> s[i].id != s[j].id && s[i].name@ != s[j].name@
}

/// No tag/product pair is bound twice.
pub open spec fn bindings_unique(s: Seq<Binding>) -> bool {
    forall|i: int, j: int|
        0 <= i < j < s.len()
            ==> !(s[i].tag_id == s[j].tag_id && s[i].product_id == s[j].product_id)
}

/// No two stock rows describe the same product.
pub open spec fn stocks_unique(s: Seq<Stock>) -> bool {
    forall|i: int, j: int| 0 <= i < j < s.len() ==> s[i].product_id != s[j].product_id
}

impl Dataset {
    /// The uniqueness constraints of the inventory tables, and the freshness
    /// of the id counters.
    pub open spec fn wf(self) -> bool {
        &&& products_unique(self.products@)
        &&& forall|i: int|
            0 <= i < self.products@.len() ==> (#[trigger] self.products@[i]).id
                < self.next_product_id
        &&& tags_unique(self.tags@)
        &&& forall|i: int|
            0 <= i < self.tags@.len() ==> (#[trigger] self.tags@[i]).id < self.next_tag_id
        &&& bindings_unique(self.bindings@)
        &&& stocks_unique(self.stocks@)
        &&& forall|i: int|
            0 <= i < self.stocks@.len() ==> (#[trigger] self.stocks@[i]).product_id
                < self.next_product_id
    }

    /// An empty dataset.
    pub fn new() -> (r: Dataset)
        ensures
            r.wf(),
            r.products@.len() == 0,
            r.tags@.len() == 0,
            r.bindings@.len() == 0,
            r.stocks@.len() == 0,
            r.history@.len() == 0,
            r.next_product_id == 0,
            r.next_tag_id == 0,
    {
        Dataset {
            products: Vec::new(),
            tags: Vec::new(),
            bindings: Vec::new(),
            stocks: Vec::new(),
            history: Vec::new(),
            next_product_id: 0,
            next_tag_id: 0,
        }
    }
}

impl Db {
    /// The store's invariant: unique usernames, unique session tokens below
    /// the token counter, every session owned by an existing account, and a
    /// well-formed dataset.
    pub open spec fn wf(self) -> bool {
        &&& users_unique(self.users@)
        &&& sessions_unique(self.sessions@)
        &&& forall|i: int|
            0 <= i < self.sessions@.len() ==> (#[trigger] self.sessions@[i]).token
                < self.next_token
        &&& forall|i: int|
            0 <= i < self.sessions@.len() ==> crate::lookup::has_user(
                self.users@,
                (#[trigger] self.sessions@[i]).username@,
            )
        &&& self.data.wf()
    }

    /// An empty store: no accounts, no sessions, an empty dataset.
    pub fn new() -> (r: Db)
        ensures
            r.wf(),
            r.users@.len() == 0,
            r.sessions@.len() == 0,
            r.next_token == 0,
            r.data.products@.len() == 0,
            r.data.tags@.len() == 0,
            r.data.bindings@.len() == 0,
            r.data.stocks@.len() == 0,
            r.data.history@.len() == 0,
            r.data.next_product_id == 0,
            r.data.next_tag_id == 0,
    {
        Db { users: Vec::new(), sessions: Vec::new(), next_token: 0, data: Dataset::new() }
    }
}

} // verus!
