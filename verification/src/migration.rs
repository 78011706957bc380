//! Bulk export and import of the inventory dataset. Export hands out the
//! snapshot as-is; import validates the snapshot against the store's
//! uniqueness constraints and then installs it in place of the current
//! dataset, leaving accounts and sessions alone.

use vstd::prelude::*;

use crate::auth::{gate, Floor};
use crate::errors::MyError;
use crate::products::same_auth;
use crate::types::{
    bindings_unique, products_unique, stocks_unique, tags_unique, Binding, Dataset, Db, Importing,
    Product, Stock, Tag,
};

verus! {

/// Whether the product table is well formed: unique ids and codes, all ids
/// below the counter.
fn products_ok(v: &Vec<Product>, next: u64) -> (b: bool)
    ensures
        b == (products_unique(v@) && (forall|i: int|
            0 <= i < v@.len() ==> (#[trigger] v@[i]).id < next)),
{
    let mut i: usize = 0;
    while i < v.len()
        invariant
            i <= v@.len(),
            forall|a: int, b: int|
                0 <= a < b < v@.len() && a < i ==> (#[trigger] v@[a]).id != (#[trigger] v@[b]).id
                    && v@[a].code@ != v@[b].code@,
            forall|a: int| 0 <= a < i ==> (#[trigger] v@[a]).id < next,
        decreases v@.len() - i,
    {
        if v[i].id >= next {
            return false;
        }
        let mut j: usize = i + 1;
        while j < v.len()
            invariant
                i < j <= v@.len(),
                i < v@.len(),
                forall|b: int|
                    i < b < j ==> v@[i as int].id != (#[trigger] v@[b]).id && v@[i as int].code@
                        != v@[b].code@,
            decreases v@.len() - j,
        {
            if v[j].id == v[i].id || v[j].code == v[i].code {
                return false;
            }
            j += 1;
        }
        i += 1;
    }
    true
}

/// Whether the tag table is well formed: unique ids and names, all ids
/// below the counter.
fn tags_ok(v: &Vec<Tag>, next: u64) -> (b: bool)
    ensures
        b == (tags_unique(v@) && (forall|i: int|
            0 <= i < v@.len() ==> (#[trigger] v@[i]).id < next)),
{
    let mut i: usize = 0;
    while i < v.len()
        invariant
            i <= v@.len(),
            forall|a: int, b: int|
                0 <= a < b < v@.len() && a < i ==> (#[trigger] v@[a]).id != (#[trigger] v@[b]).id
                    && v@[a].name@ != v@[b].name@,
            forall|a: int| 0 <= a < i ==> (#[trigger] v@[a]).id < next,
        decreases v@.len() - i,
    {
        if v[i].id >= next {
            return false;
        }
        let mut j: usize = i + 1;
        while j < v.len()
            invariant
                i < j <= v@.len(),
                i < v@.len(),
                forall|b: int|
                    i < b < j ==> v@[i as int].id != (#[trigger] v@[b]).id && v@[i as int].name@
                        != v@[b].name@,
            decreases v@.len() - j,
        {
            if v[j].id == v[i].id || v[j].name == v[i].name {
                return false;
            }
            j += 1;
        }
        i += 1;
    }
    true
}

/// Whether the binding table is well formed: no pair bound twice.
fn bindings_ok(v: &Vec<Binding>) -> (b: bool)
    ensures
        b == bindings_unique(v@),
{
    let mut i: usize = 0;
    while i < v.len()
        invariant
            i <= v@.len(),
            forall|a: int, b: int|
                0 <= a < b < v@.len() && a < i ==> !((#[trigger] v@[a]).tag_id == (
                #[trigger] v@[b]).tag_id && v@[a].product_id == v@[b].product_id),
        decreases v@.len() - i,
    {
        let mut j: usize = i + 1;
        while j < v.len()
            invariant
                i < j <= v@.len(),
                i < v@.len(),
                forall|b: int|
                    i < b < j ==> !(v@[i as int].tag_id == (#[trigger] v@[b]).tag_id
                        && v@[i as int].product_id == v@[b].product_id),
            decreases v@.len() - j,
        {
            if v[j].tag_id == v[i].tag_id && v[j].product_id == v[i].product_id {
                return false;
            }
            j += 1;
        }
        i += 1;
    }
    true
}

/// Whether the stock table is well formed: one row per product, all product
/// ids below the counter.
fn stocks_ok(v: &Vec<Stock>, next: u64) -> (b: bool)
    ensures
        b == (stocks_unique(v@) && (forall|i: int|
            0 <= i < v@.len() ==> (#[trigger] v@[i]).product_id < next)),
{
    let mut i: usize = 0;
    while i < v.len()
        invariant
            i <= v@.len(),
            forall|a: int, b: int|
                0 <= a < b < v@.len() && a < i ==> (#[trigger] v@[a]).product_id != (
                #[trigger] v@[b]).product_id,
            forall|a: int| 0 <= a < i ==> (#[trigger] v@[a]).product_id < next,
        decreases v@.len() - i,
    {
        if v[i].product_id >= next {
            return false;
        }
        let mut j: usize = i + 1;
        while j < v.len()
            invariant
                i < j <= v@.len(),
                i < v@.len(),
                forall|b: int| i < b < j ==> v@[i as int].product_id != (#[trigger] v@[b]).product_id,
            decreases v@.len() - j,
        {
            if v[j].product_id == v[i].product_id {
                return false;
            }
            j += 1;
        }
        i += 1;
    }
    true
}

/// Whether a snapshot satisfies every constraint the store maintains.
pub fn dataset_valid(d: &Dataset) -> (b: bool)
    ensures
        b == d.wf(),
{
    products_ok(&d.products, d.next_product_id) && tags_ok(&d.tags, d.next_tag_id) && bindings_ok(
        &d.bindings,
    ) && stocks_ok(&d.stocks, d.next_product_id)
}

impl Db {
    /// Hand out the full dataset snapshot. Any authenticated role may read.
    pub fn export_data(&self, token: u64) -> (r: Result<&Dataset, MyError>)
        requires
            self.wf(),
        ensures
            match gate(self.role_of(token), Floor::AnyRole) {
                Option::Some(e) => r matches Err(x) && x == e,
                Option::None => r matches Ok(v) && *v == self.data,
            },
    {
        if let Some(e) = self.gate_check(token, Floor::AnyRole) {
            return Err(e);
        }
        Ok(&self.data)
    }

    /// Replace the whole dataset with a snapshot. Only an administrator
    /// token passes; a snapshot breaking a uniqueness constraint is
    /// rejected. Accounts and sessions are untouched.
    pub fn import_data(&mut self, data: Importing) -> (r: Result<&'static str, MyError>)
        requires
            old(self).wf(),
        ensures
            final(self).wf(),
            same_auth(*old(self), *final(self)),
            match gate(old(self).role_of(data.token), Floor::AdminOnly) {
                Option::Some(e) => r matches Err(x) && x == e && *final(self) == *old(self),
                Option::None => if !data.data.wf() {
                    r matches Err(x) && x == MyError::ConstraintError && *final(self) == *old(self)
                } else {
                    r matches Ok(m) && m@ == "data imported successfully."@ && final(self).data
                        == data.data
                },
            },
    {
        if let Some(e) = self.gate_check(data.token, Floor::AdminOnly) {
            return Err(e);
        }
        if !dataset_valid(&data.data) {
            return Err(MyError::ConstraintError);
        }
        self.data = data.data;
        Ok("data imported successfully.")
    }
}

} // verus!
