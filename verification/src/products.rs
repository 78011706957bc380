//! Product endpoints: list, create (with seeded stock), delete, modify, and
//! the property endpoints. Every mutation runs the role gate first and
//! touches only the product (and, for `add_product`, stock) tables.

use vstd::prelude::*;

use crate::auth::{gate, Floor};
use crate::errors::MyError;
use crate::lookup::{
    code_index, find_product, find_product_by_code, find_property, has_code, has_product,
    product_index,
};
use crate::types::{
    AddProduct, AddProperty, Db, DeleteProduct, DeleteProperty, ModifyProduct, Product, Property,
    Stock,
};

verus! {

/// The account and session tables and the token counter are untouched.
pub open spec fn same_auth(pre: Db, post: Db) -> bool {
    post.users == pre.users && post.sessions == pre.sessions && post.next_token == pre.next_token
}

impl Db {
    /// List all products. Any authenticated role may read.
    pub fn get_products(&self, token: u64) -> (r: Result<&Vec<Product>, MyError>)
        requires
            self.wf(),
        ensures
            match gate(self.role_of(token), Floor::AnyRole) {
                Option::Some(e) => r matches Err(x) && x == e,
                Option::None => r matches Ok(v) && v@ == self.data.products@,
            },
    {
        if let Some(e) = self.gate_check(token, Floor::AnyRole) {
            return Err(e);
        }
        Ok(&self.data.products)
    }

    /// Create a product with a fresh id and an empty property list, and seed
    /// its stock row with the requested initial quantity. The code must be
    /// unused. Guests may not write.
    pub fn add_product(&mut self, product: &AddProduct) -> (r: Result<&'static str, MyError>)
        requires
            old(self).wf(),
        ensures
            final(self).wf(),
            same_auth(*old(self), *final(self)),
            match gate(old(self).role_of(product.token), Floor::NonGuest) {
                Option::Some(e) => r matches Err(x) && x == e && *final(self) == *old(self),
                Option::None => if has_code(old(self).data.products@, product.code@) {
                    r matches Err(x) && x == MyError::DuplicateError && *final(self) == *old(self)
                } else if old(self).data.next_product_id == u64::MAX {
                    r matches Err(x) && x == MyError::ConstraintError && *final(self) == *old(self)
                } else {
                    r matches Ok(m) && m@ == "product added"@ && final(self).data.products@.len()
                        == old(self).data.products@.len() + 1 && final(self).data.products@.last().id == old(self).data.next_product_id && final(self).data.products@.last().code@ == product.code@ && final(self).data.products@.last().name@ == product.name@ && final(self).data.products@.last().properties@ == Seq::<Property>::empty() && final(self).data.products@.drop_last() == old(self).data.products@ && final(self).data.next_product_id == old(self).data.next_product_id + 1 && final(self).data.stocks@ == old(self).data.stocks@.push(
                        Stock { product_id: old(self).data.next_product_id, quantity: product.stock },
                    ) && final(self).data.tags == old(self).data.tags && final(self).data.bindings
                        == old(self).data.bindings && final(self).data.history == old(self).data.history && final(self).data.next_tag_id == old(self).data.next_tag_id
                },
            },
    {
        if let Some(e) = self.gate_check(product.token, Floor::NonGuest) {
            return Err(e);
        }
        if find_product_by_code(&self.data.products, &product.code).is_some() {
            return Err(MyError::DuplicateError);
        }
        if self.data.next_product_id == u64::MAX {
            return Err(MyError::ConstraintError);
        }
        let id = self.data.next_product_id;
        let ghost pre = *self;
        self.data.products.push(
            Product {
                id,
                code: product.code.clone(),
                name: product.name.clone(),
                properties: Vec::new(),
            },
        );
        self.data.stocks.push(Stock { product_id: id, quantity: product.stock });
        self.data.next_product_id = id + 1;
        proof {
            let n = old(self).data.products@.len() as int;
            assert(self.data.products@ == pre.data.products@.push(self.data.products@[n]));
            assert(self.data.products@.drop_last() =~= old(self).data.products@);
            assert(self.data.stocks@.drop_last() =~= old(self).data.stocks@);
            assert forall|a: int, b: int| 0 <= a < b < self.data.products@.len() implies (
            #[trigger] self.data.products@[a]).id != (#[trigger] self.data.products@[b]).id && self.data.products@[a].code@ != self.data.products@[b].code@ by {
                if b == n {
                    assert(old(self).data.products@[a].id < id);
                    assert(old(self).data.products@[a].code@ != product.code@);
                }
            }
            assert forall|a: int, b: int| 0 <= a < b < self.data.stocks@.len() implies (
            #[trigger] self.data.stocks@[a]).product_id != (
            #[trigger] self.data.stocks@[b]).product_id by {
                if b == old(self).data.stocks@.len() as int {
                    assert(old(self).data.stocks@[a].product_id < id);
                }
            }
        }
        Ok("product added")
    }

    /// Delete the product with this id. Guests may not write; a missing id
    /// is a not-found error.
    pub fn delete_product(&mut self, product: &DeleteProduct) -> (r: Result<&'static str, MyError>)
        requires
            old(self).wf(),
        ensures
            final(self).wf(),
            same_auth(*old(self), *final(self)),
            match gate(old(self).role_of(product.token), Floor::NonGuest) {
                Option::Some(e) => r matches Err(x) && x == e && *final(self) == *old(self),
                Option::None => if !has_product(old(self).data.products@, product.id) {
                    r matches Err(x) && x == MyError::NotFoundError && *final(self) == *old(self)
                } else {
                    r matches Ok(m) && m@ == "product deleted"@ && final(self).data.products@
                        == old(self).data.products@.remove(
                        product_index(old(self).data.products@, product.id),
                    ) && !has_product(final(self).data.products@, product.id) && final(self).data == crate::types::Dataset {
                        products: final(self).data.products,
                        ..old(self).data
                    }
                },
            },
    {
        if let Some(e) = self.gate_check(product.token, Floor::NonGuest) {
            return Err(e);
        }
        let j = match find_product(&self.data.products, product.id) {
            Some(j) => j,
            None => {
                return Err(MyError::NotFoundError);
            },
        };
        let ghost pre = *self;
        self.data.products.remove(j);
        proof {
            pre.data.products@.remove_ensures(j as int);
            assert forall|a: int, b: int| 0 <= a < b < self.data.products@.len() implies (
            #[trigger] self.data.products@[a]).id != (#[trigger] self.data.products@[b]).id && self.data.products@[a].code@ != self.data.products@[b].code@ by {
                let oa = if a < j as int { a } else { a + 1 };
                let ob = if b < j as int { b } else { b + 1 };
                assert(self.data.products@[a] == old(self).data.products@[oa]);
                assert(self.data.products@[b] == old(self).data.products@[ob]);
            }
            assert forall|k: int| 0 <= k < self.data.products@.len() implies (
            #[trigger] self.data.products@[k]).id != product.id by {
                let ok = if k < j as int { k } else { k + 1 };
                assert(self.data.products@[k] == old(self).data.products@[ok]);
                if ok != j as int {
                    assert(old(self).data.products@[ok].id != old(self).data.products@[j as int].id);
                }
            }
        }
        Ok("product deleted")
    }

    /// Replace the code and name of the product with this id. The new code
    /// may not belong to a different product. Guests may not write.
    pub fn modify_product(&mut self, product: &ModifyProduct) -> (r: Result<&'static str, MyError>)
        requires
            old(self).wf(),
        ensures
            final(self).wf(),
            same_auth(*old(self), *final(self)),
            match gate(old(self).role_of(product.token), Floor::NonGuest) {
                Option::Some(e) => r matches Err(x) && x == e && *final(self) == *old(self),
                Option::None => if !has_product(old(self).data.products@, product.id) {
                    r matches Err(x) && x == MyError::NotFoundError && *final(self) == *old(self)
                } else if has_code(old(self).data.products@, product.code@) && old(self).data.products@[code_index(old(self).data.products@, product.code@)].id
                    != product.id {
                    r matches Err(x) && x == MyError::DuplicateError && *final(self) == *old(self)
                } else {
                    let j = product_index(old(self).data.products@, product.id);
                    r matches Ok(m) && m@ == "product modified"@ && final(self).data.products@.len()
                        == old(self).data.products@.len() && final(self).data.products@[j].id
                        == product.id && final(self).data.products@[j].code@ == product.code@
                        && final(self).data.products@[j].name@ == product.name@ && final(self).data.products@[j].properties == old(self).data.products@[j].properties && (
                    forall|k: int|
                        0 <= k < old(self).data.products@.len() && k != j ==> final(self).data.products@[k] == old(self).data.products@[k]) && final(self).data
                        == crate::types::Dataset {
                        products: final(self).data.products,
                        ..old(self).data
                    }
                },
            },
    {
        if let Some(e) = self.gate_check(product.token, Floor::NonGuest) {
            return Err(e);
        }
        let j = match find_product(&self.data.products, product.id) {
            Some(j) => j,
            None => {
                return Err(MyError::NotFoundError);
            },
        };
        match find_product_by_code(&self.data.products, &product.code) {
            Some(k) => {
                if self.data.products[k].id != product.id {
                    return Err(MyError::DuplicateError);
                }
            },
            None => {},
        }
        let ghost pre = *self;
        self.data.products[j].code = product.code.clone();
        self.data.products[j].name = product.name.clone();
        proof {
            assert forall|a: int, b: int| 0 <= a < b < self.data.products@.len() implies (
            #[trigger] self.data.products@[a]).id != (#[trigger] self.data.products@[b]).id && self.data.products@[a].code@ != self.data.products@[b].code@ by {
                if a != j as int && b != j as int {
                    assert(self.data.products@[a] == old(self).data.products@[a]);
                    assert(self.data.products@[b] == old(self).data.products@[b]);
                } else {
                    let o = if a == j as int { b } else { a };
                    assert(self.data.products@[o] == old(self).data.products@[o]);
                    assert(old(self).data.products@[o].id != product.id);
                    if old(self).data.products@[o].code@ == product.code@ {
                        assert(has_code(old(self).data.products@, product.code@));
                        let c = code_index(old(self).data.products@, product.code@);
                        if c != o {
                            assert(old(self).data.products@[c].code@ == old(self).data.products@[o].code@);
                        }
                        assert(false);
                    }
                }
            }
        }
        Ok("product modified")
    }

    /// Append a name/value property to the product with this id. Guests may
    /// not write.
    pub fn add_property(&mut self, property: &AddProperty) -> (r: Result<&'static str, MyError>)
        requires
            old(self).wf(),
        ensures
            final(self).wf(),
            same_auth(*old(self), *final(self)),
            match gate(old(self).role_of(property.token), Floor::NonGuest) {
                Option::Some(e) => r matches Err(x) && x == e && *final(self) == *old(self),
                Option::None => if !has_product(old(self).data.products@, property.id) {
                    r matches Err(x) && x == MyError::NotFoundError && *final(self) == *old(self)
                } else {
                    let j = product_index(old(self).data.products@, property.id);
                    r matches Ok(m) && m@ == "property added"@ && final(self).data.products@.len()
                        == old(self).data.products@.len() && final(self).data.products@[j].id
                        == old(self).data.products@[j].id && final(self).data.products@[j].code
                        == old(self).data.products@[j].code && final(self).data.products@[j].name
                        == old(self).data.products@[j].name && final(self).data.products@[j].properties@.len() == old(self).data.products@[j].properties@.len() + 1 && final(self).data.products@[j].properties@.last().name@ == property.name@ && final(self).data.products@[j].properties@.last().value@ == property.value@ && final(self).data.products@[j].properties@.drop_last() == old(self).data.products@[j].properties@ && (forall|k: int|
                        0 <= k < old(self).data.products@.len() && k != j ==> final(self).data.products@[k] == old(self).data.products@[k]) && final(self).data
                        == crate::types::Dataset {
                        products: final(self).data.products,
                        ..old(self).data
                    }
                },
            },
    {
        if let Some(e) = self.gate_check(property.token, Floor::NonGuest) {
            return Err(e);
        }
        let j = match find_product(&self.data.products, property.id) {
            Some(j) => j,
            None => {
                return Err(MyError::NotFoundError);
            },
        };
        let ghost pre = *self;
        self.data.products[j].properties.push(
            Property { name: property.name.clone(), value: property.value.clone() },
        );
        proof {
            let jj = j as int;
            assert(self.data.products@[jj].properties@.drop_last() =~= old(self).data.products@[jj].properties@);
            assert forall|a: int, b: int| 0 <= a < b < self.data.products@.len() implies (
            #[trigger] self.data.products@[a]).id != (#[trigger] self.data.products@[b]).id && self.data.products@[a].code@ != self.data.products@[b].code@ by {
                assert(self.data.products@[a].id == old(self).data.products@[a].id);
                assert(self.data.products@[a].code@ == old(self).data.products@[a].code@);
                assert(self.data.products@[b].id == old(self).data.products@[b].id);
                assert(self.data.products@[b].code@ == old(self).data.products@[b].code@);
            }
            assert forall|k: int| 0 <= k < self.data.products@.len() implies (
            #[trigger] self.data.products@[k]).id < self.data.next_product_id by {
                assert(self.data.products@[k].id == old(self).data.products@[k].id);
            }
        }
        Ok("property added")
    }

    /// Remove the first property of this name from the product with this
    /// id. A missing product or property is a not-found error. Guests may
    /// not write. The confirmation string is the same one `add_property`
    /// returns; clients tell the two apart by the route, not the body.
    pub fn delete_property(&mut self, property: &DeleteProperty) -> (r: Result<
        &'static str,
        MyError,
    >)
        requires
            old(self).wf(),
        ensures
            final(self).wf(),
            same_auth(*old(self), *final(self)),
            match gate(old(self).role_of(property.token), Floor::NonGuest) {
                Option::Some(e) => r matches Err(x) && x == e && *final(self) == *old(self),
                Option::None => if !has_product(old(self).data.products@, property.id) {
                    r matches Err(x) && x == MyError::NotFoundError && *final(self) == *old(self)
                } else {
                    let j = product_index(old(self).data.products@, property.id);
                    let props = old(self).data.products@[j].properties@;
                    if forall|k: int| 0 <= k < props.len() ==> (#[trigger] props[k]).name@
                        != property.name@ {
                        r matches Err(x) && x == MyError::NotFoundError && *final(self) == *old(self)
                    } else {
                        r matches Ok(m) && m@ == "property added"@ && final(self).data.products@.len() == old(self).data.products@.len() && final(self).data.products@[j].id == old(self).data.products@[j].id && final(self).data.products@[j].code == old(self).data.products@[j].code && final(self).data.products@[j].name == old(self).data.products@[j].name && (exists|
                            k: int,
                        |
                            0 <= k < props.len() && (#[trigger] props[k]).name@ == property.name@
                                && (forall|l: int|
                                0 <= l < k ==> (#[trigger] props[l]).name@ != property.name@)
                                && final(self).data.products@[j].properties@ == props.remove(k)) && (
                        forall|k: int|
                            0 <= k < old(self).data.products@.len() && k != j ==> final(self).data.products@[k] == old(self).data.products@[k]) && final(self).data
                            == crate::types::Dataset {
                            products: final(self).data.products,
                            ..old(self).data
                        }
                    }
                },
            },
    {
        if let Some(e) = self.gate_check(property.token, Floor::NonGuest) {
            return Err(e);
        }
        let j = match find_product(&self.data.products, property.id) {
            Some(j) => j,
            None => {
                return Err(MyError::NotFoundError);
            },
        };
        let k = match find_property(&self.data.products[j].properties, &property.name) {
            Some(k) => k,
            None => {
                return Err(MyError::NotFoundError);
            },
        };
        let ghost pre = *self;
        self.data.products[j].properties.remove(k);
        proof {
            assert forall|a: int, b: int| 0 <= a < b < self.data.products@.len() implies (
            #[trigger] self.data.products@[a]).id != (#[trigger] self.data.products@[b]).id && self.data.products@[a].code@ != self.data.products@[b].code@ by {
                assert(self.data.products@[a].id == old(self).data.products@[a].id);
                assert(self.data.products@[a].code@ == old(self).data.products@[a].code@);
                assert(self.data.products@[b].id == old(self).data.products@[b].id);
                assert(self.data.products@[b].code@ == old(self).data.products@[b].code@);
            }
            assert forall|kk: int| 0 <= kk < self.data.products@.len() implies (
            #[trigger] self.data.products@[kk]).id < self.data.next_product_id by {
                assert(self.data.products@[kk].id == old(self).data.products@[kk].id);
            }
        }
        Ok("property added")
    }
}

} // verus!
