//! Key lookups over the store's tables: a `has_*` / `*_index` spec pair per
//! table, and a verified linear search for each that returns the index of
//! the (unique) match.

use vstd::prelude::*;

use crate::types::{
    bindings_unique, products_unique, sessions_unique, stocks_unique, tags_unique, users_unique,
    Binding, Product, Property, Session, Stock, Tag, User,
};

verus! {

/// Some user has this username.
pub open spec fn has_user(s: Seq<User>, name: Seq<char>) -> bool {
    exists|i: int| 0 <= i < s.len() && (#[trigger] s[i]).username@ == name
}

/// The index of the user with this username.
pub open spec fn user_index(s: Seq<User>, name: Seq<char>) -> int {
    choose|i: int| 0 <= i < s.len() && (#[trigger] s[i]).username@ == name
}

/// Some session carries this token.
pub open spec fn has_session(s: Seq<Session>, token: u64) -> bool {
    exists|i: int| 0 <= i < s.len() && (#[trigger] s[i]).token == token
}

/// The index of the session carrying this token.
pub open spec fn session_index(s: Seq<Session>, token: u64) -> int {
    choose|i: int| 0 <= i < s.len() && (#[trigger] s[i]).token == token
}

/// Some product has this id.
pub open spec fn has_product(s: Seq<Product>, id: u64) -> bool {
    exists|i: int| 0 <= i < s.len() && (#[trigger] s[i]).id == id
}

/// The index of the product with this id.
pub open spec fn product_index(s: Seq<Product>, id: u64) -> int {
    choose|i: int| 0 <= i < s.len() && (#[trigger] s[i]).id == id
}

/// Some product has this code.
pub open spec fn has_code(s: Seq<Product>, code: Seq<char>) -> bool {
    exists|i: int| 0 <= i < s.len() && (#[trigger] s[i]).code@ == code
}

/// The index of the product with this code.
pub open spec fn code_index(s: Seq<Product>, code: Seq<char>) -> int {
    choose|i: int| 0 <= i < s.len() && (#[trigger] s[i]).code@ == code
}

/// Some tag has this id.
pub open spec fn has_tag(s: Seq<Tag>, id: u64) -> bool {
    exists|i: int| 0 <= i < s.len() && (#[trigger] s[i]).id == id
}

/// The index of the tag with this id.
pub open spec fn tag_index(s: Seq<Tag>, id: u64) -> int {
    choose|i: int| 0 <= i < s.len() && (#[trigger] s[i]).id == id
}

/// Some tag has this name.
pub open spec fn has_tag_name(s: Seq<Tag>, name: Seq<char>) -> bool {
    exists|i: int| 0 <= i < s.len() && (#[trigger] s[i]).name@ == name
}

/// This tag/product pair is bound.
pub open spec fn has_binding(s: Seq<Binding>, tag_id: u64, product_id: u64) -> bool {
    exists|i: int|
        0 <= i < s.len() && (#[trigger] s[i]).tag_id == tag_id && s[i].product_id == product_id
}

/// The index of the binding of this tag/product pair.
pub open spec fn binding_index(s: Seq<Binding>, tag_id: u64, product_id: u64) -> int {
    choose|i: int|
        0 <= i < s.len() && (#[trigger] s[i]).tag_id == tag_id && s[i].product_id == product_id
}

/// Some stock row describes this product.
pub open spec fn has_stock(s: Seq<Stock>, product_id: u64) -> bool {
    exists|i: int| 0 <= i < s.len() && (#[trigger] s[i]).product_id == product_id
}

/// The index of the stock row of this product.
pub open spec fn stock_index(s: Seq<Stock>, product_id: u64) -> int {
    choose|i: int| 0 <= i < s.len() && (#[trigger] s[i]).product_id == product_id
}

/// Find the user with this username.
pub fn find_user(s: &Vec<User>, name: &String) -> (r: Option<usize>)
    requires
        users_unique(s@),
    ensures
        match r {
            Some(i) => has_user(s@, name@) && i == user_index(s@, name@),
            None => !has_user(s@, name@),
        },
{
    let mut i: usize = 0;
    while i < s.len()
        invariant
            i <= s@.len(),
            users_unique(s@),
            forall|j: int| 0 <= j < i ==> (#[trigger] s@[j]).username@ != name@,
        decreases s@.len() - i,
    {
        if s[i].username == *name {
            proof {
                assert(has_user(s@, name@));
                let c = user_index(s@, name@);
                if c != i as int {
                    assert(s@[c].username@ == s@[i as int].username@);
                    assert(false);
                }
            }
            return Some(i);
        }
        i += 1;
    }
    None
}

/// Find the session carrying this token.
pub fn find_session(s: &Vec<Session>, token: u64) -> (r: Option<usize>)
    requires
        sessions_unique(s@),
    ensures
        match r {
            Some(i) => has_session(s@, token) && i == session_index(s@, token),
            None => !has_session(s@, token),
        },
{
    let mut i: usize = 0;
    while i < s.len()
        invariant
            i <= s@.len(),
            sessions_unique(s@),
            forall|j: int| 0 <= j < i ==> (#[trigger] s@[j]).token != token,
        decreases s@.len() - i,
    {
        if s[i].token == token {
            proof {
                assert(has_session(s@, token));
                let c = session_index(s@, token);
                if c != i as int {
                    assert(s@[c].token == s@[i as int].token);
                    assert(false);
                }
            }
            return Some(i);
        }
        i += 1;
    }
    None
}

/// Find the product with this id.
pub fn find_product(s: &Vec<Product>, id: u64) -> (r: Option<usize>)
    requires
        products_unique(s@),
    ensures
        match r {
            Some(i) => has_product(s@, id) && i == product_index(s@, id),
            None => !has_product(s@, id),
        },
{
    let mut i: usize = 0;
    while i < s.len()
        invariant
            i <= s@.len(),
            products_unique(s@),
            forall|j: int| 0 <= j < i ==> (#[trigger] s@[j]).id != id,
        decreases s@.len() - i,
    {
        if s[i].id == id {
            proof {
                assert(has_product(s@, id));
                let c = product_index(s@, id);
                if c != i as int {
                    assert(s@[c].id == s@[i as int].id);
                    assert(false);
                }
            }
            return Some(i);
        }
        i += 1;
    }
    None
}

/// Find the product with this code.
pub fn find_product_by_code(s: &Vec<Product>, code: &String) -> (r: Option<usize>)
    requires
        products_unique(s@),
    ensures
        match r {
            Some(i) => has_code(s@, code@) && i == code_index(s@, code@),
            None => !has_code(s@, code@),
        },
{
    let mut i: usize = 0;
    while i < s.len()
        invariant
            i <= s@.len(),
            products_unique(s@),
            forall|j: int| 0 <= j < i ==> (#[trigger] s@[j]).code@ != code@,
        decreases s@.len() - i,
    {
        if s[i].code == *code {
            proof {
                assert(has_code(s@, code@));
                let c = code_index(s@, code@);
                if c != i as int {
                    assert(s@[c].code@ == s@[i as int].code@);
                    assert(false);
                }
            }
            return Some(i);
        }
        i += 1;
    }
    None
}

/// Find the tag with this id.
pub fn find_tag(s: &Vec<Tag>, id: u64) -> (r: Option<usize>)
    requires
        tags_unique(s@),
    ensures
        match r {
            Some(i) => has_tag(s@, id) && i == tag_index(s@, id),
            None => !has_tag(s@, id),
        },
{
    let mut i: usize = 0;
    while i < s.len()
        invariant
            i <= s@.len(),
            tags_unique(s@),
            forall|j: int| 0 <= j < i ==> (#[trigger] s@[j]).id != id,
        decreases s@.len() - i,
    {
        if s[i].id == id {
            proof {
                assert(has_tag(s@, id));
                let c = tag_index(s@, id);
                if c != i as int {
                    assert(s@[c].id == s@[i as int].id);
                    assert(false);
                }
            }
            return Some(i);
        }
        i += 1;
    }
    None
}

/// Whether some tag has this name.
pub fn tag_name_exists(s: &Vec<Tag>, name: &String) -> (r: bool)
    ensures
        r == has_tag_name(s@, name@),
{
    let mut i: usize = 0;
    while i < s.len()
        invariant
            i <= s@.len(),
            forall|j: int| 0 <= j < i ==> (#[trigger] s@[j]).name@ != name@,
        decreases s@.len() - i,
    {
        if s[i].name == *name {
            proof {
                assert(has_tag_name(s@, name@));
            }
            return true;
        }
        i += 1;
    }
    false
}

/// Find the binding of this tag/product pair.
pub fn find_binding(s: &Vec<Binding>, tag_id: u64, product_id: u64) -> (r: Option<usize>)
    requires
        bindings_unique(s@),
    ensures
        match r {
            Some(i) => has_binding(s@, tag_id, product_id) && i == binding_index(
                s@,
                tag_id,
                product_id,
            ),
            None => !has_binding(s@, tag_id, product_id),
        },
{
    let mut i: usize = 0;
    while i < s.len()
        invariant
            i <= s@.len(),
            bindings_unique(s@),
            forall|j: int|
                0 <= j < i ==> !((#[trigger] s@[j]).tag_id == tag_id && s@[j].product_id
                    == product_id),
        decreases s@.len() - i,
    {
        if s[i].tag_id == tag_id && s[i].product_id == product_id {
            proof {
                assert(has_binding(s@, tag_id, product_id));
                let c = binding_index(s@, tag_id, product_id);
                if c != i as int {
                    assert(s@[c].tag_id == s@[i as int].tag_id);
                    assert(false);
                }
            }
            return Some(i);
        }
        i += 1;
    }
    None
}

/// Find the stock row of this product.
pub fn find_stock(s: &Vec<Stock>, product_id: u64) -> (r: Option<usize>)
    requires
        stocks_unique(s@),
    ensures
        match r {
            Some(i) => has_stock(s@, product_id) && i == stock_index(s@, product_id),
            None => !has_stock(s@, product_id),
        },
{
    let mut i: usize = 0;
    while i < s.len()
        invariant
            i <= s@.len(),
            stocks_unique(s@),
            forall|j: int| 0 <= j < i ==> (#[trigger] s@[j]).product_id != product_id,
        decreases s@.len() - i,
    {
        if s[i].product_id == product_id {
            proof {
                assert(has_stock(s@, product_id));
                let c = stock_index(s@, product_id);
                if c != i as int {
                    assert(s@[c].product_id == s@[i as int].product_id);
                    assert(false);
                }
            }
            return Some(i);
        }
        i += 1;
    }
    None
}

/// Find the first property of this name.
pub fn find_property(s: &Vec<Property>, name: &String) -> (r: Option<usize>)
    ensures
        match r {
            Some(i) => i < s@.len() && s@[i as int].name@ == name@ && (forall|j: int|
                0 <= j < i ==> (#[trigger] s@[j]).name@ != name@),
            None => forall|j: int| 0 <= j < s@.len() ==> (#[trigger] s@[j]).name@ != name@,
        },
{
    let mut i: usize = 0;
    while i < s.len()
        invariant
            i <= s@.len(),
            forall|j: int| 0 <= j < i ==> (#[trigger] s@[j]).name@ != name@,
        decreases s@.len() - i,
    {
        if s[i].name == *name {
            return Some(i);
        }
        i += 1;
    }
    None
}

} // verus!
