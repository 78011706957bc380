//! Tag endpoints: list, create, delete, bind and unbind a tag to a product,
//! and the popularity query, where a tag's popularity is the number of
//! products bound to it.

use vstd::prelude::*;

use crate::auth::{gate, Floor};
use crate::errors::MyError;
use crate::lookup::{
    find_binding, find_product, find_tag, has_binding, has_product, has_tag, has_tag_name,
    tag_index, tag_name_exists,
};
use crate::products::same_auth;
use crate::types::{Binding, Db, ModifyProductToTag, ModifyTags, PopularTag, Tag};

verus! {

/// How many products are bound to this tag.
pub open spec fn bind_count(bindings: Seq<Binding>, tag_id: u64) -> nat {
    bindings.filter(|b: Binding| b.tag_id == tag_id).len()
}

/// Count the bindings of one tag.
fn count_bindings(bindings: &Vec<Binding>, tag_id: u64) -> (c: usize)
    ensures
        c == bind_count(bindings@, tag_id),
{
    proof {
        reveal(Seq::filter);
    }
    let mut c: usize = 0;
    let mut i: usize = 0;
    while i < bindings.len()
        invariant
            i <= bindings@.len(),
            c <= i,
            c == bind_count(bindings@.subrange(0, i as int), tag_id),
        decreases bindings@.len() - i,
    {
        proof {
            reveal(Seq::filter);
            assert(bindings@.subrange(0, i + 1 as int).drop_last() =~= bindings@.subrange(
                0,
                i as int,
            ));
            assert(bindings@.subrange(0, i + 1 as int).last() == bindings@[i as int]);
        }
        if bindings[i].tag_id == tag_id {
            c += 1;
        }
        i += 1;
    }
    proof {
        assert(bindings@.subrange(0, bindings@.len() as int) =~= bindings@);
    }
    c
}

impl Db {
    /// List all tags. Any authenticated role may read.
    pub fn get_tags(&self, token: u64) -> (r: Result<&Vec<Tag>, MyError>)
        requires
            self.wf(),
        ensures
            match gate(self.role_of(token), Floor::AnyRole) {
                Option::Some(e) => r matches Err(x) && x == e,
                Option::None => r matches Ok(v) && v@ == self.data.tags@,
            },
    {
        if let Some(e) = self.gate_check(token, Floor::AnyRole) {
            return Err(e);
        }
        Ok(&self.data.tags)
    }

    /// Create a tag with a fresh id. The name must be unused. Guests may
    /// not write.
    pub fn add_tag(&mut self, tag: &ModifyTags) -> (r: Result<&'static str, MyError>)
        requires
            old(self).wf(),
        ensures
            final(self).wf(),
            same_auth(*old(self), *final(self)),
            match gate(old(self).role_of(tag.token), Floor::NonGuest) {
                Option::Some(e) => r matches Err(x) && x == e && *final(self) == *old(self),
                Option::None => if has_tag_name(old(self).data.tags@, tag.name@) {
                    r matches Err(x) && x == MyError::DuplicateError && *final(self) == *old(self)
                } else if old(self).data.next_tag_id == u64::MAX {
                    r matches Err(x) && x == MyError::ConstraintError && *final(self) == *old(self)
                } else {
                    r matches Ok(m) && m@ == "tag added"@ && final(self).data.tags@.len() == old(self).data.tags@.len() + 1 && final(self).data.tags@.last().id == old(self).data.next_tag_id && final(self).data.tags@.last().name@ == tag.name@ && final(self).data.tags@.drop_last() == old(self).data.tags@ && final(self).data.next_tag_id == old(self).data.next_tag_id + 1 && final(self).data
                        == crate::types::Dataset {
                        tags: final(self).data.tags,
                        next_tag_id: final(self).data.next_tag_id,
                        ..old(self).data
                    }
                },
            },
    {
        if let Some(e) = self.gate_check(tag.token, Floor::NonGuest) {
            return Err(e);
        }
        if tag_name_exists(&self.data.tags, &tag.name) {
            return Err(MyError::DuplicateError);
        }
        if self.data.next_tag_id == u64::MAX {
            return Err(MyError::ConstraintError);
        }
        let id = self.data.next_tag_id;
        let ghost pre = *self;
        self.data.tags.push(Tag { id, name: tag.name.clone() });
        self.data.next_tag_id = id + 1;
        proof {
            let n = old(self).data.tags@.len() as int;
            assert(self.data.tags@ == pre.data.tags@.push(self.data.tags@[n]));
            assert(self.data.tags@.drop_last() =~= old(self).data.tags@);
            assert forall|a: int, b: int| 0 <= a < b < self.data.tags@.len() implies (
            #[trigger] self.data.tags@[a]).id != (#[trigger] self.data.tags@[b]).id
                && self.data.tags@[a].name@ != self.data.tags@[b].name@ by {
                if b == n {
                    assert(old(self).data.tags@[a].id < id);
                    assert(old(self).data.tags@[a].name@ != tag.name@);
                }
            }
        }
        Ok("tag added")
    }

    /// Delete the tag with this id; afterwards no tag carries it, so doing
    /// it again is a not-found error. Guests may not write.
    pub fn delete_tag(&mut self, tag: &ModifyTags) -> (r: Result<&'static str, MyError>)
        requires
            old(self).wf(),
        ensures
            final(self).wf(),
            same_auth(*old(self), *final(self)),
            match gate(old(self).role_of(tag.token), Floor::NonGuest) {
                Option::Some(e) => r matches Err(x) && x == e && *final(self) == *old(self),
                Option::None => if !has_tag(old(self).data.tags@, tag.id) {
                    r matches Err(x) && x == MyError::NotFoundError && *final(self) == *old(self)
                } else {
                    r matches Ok(m) && m@ == "tag deleted"@ && final(self).data.tags@ == old(self).data.tags@.remove(tag_index(old(self).data.tags@, tag.id)) && !has_tag(
                        final(self).data.tags@,
                        tag.id,
                    ) && final(self).data == crate::types::Dataset {
                        tags: final(self).data.tags,
                        ..old(self).data
                    }
                },
            },
    {
        if let Some(e) = self.gate_check(tag.token, Floor::NonGuest) {
            return Err(e);
        }
        let j = match find_tag(&self.data.tags, tag.id) {
            Some(j) => j,
            None => {
                return Err(MyError::NotFoundError);
            },
        };
        let ghost pre = *self;
        self.data.tags.remove(j);
        proof {
            pre.data.tags@.remove_ensures(j as int);
            assert forall|a: int, b: int| 0 <= a < b < self.data.tags@.len() implies (
            #[trigger] self.data.tags@[a]).id != (#[trigger] self.data.tags@[b]).id
                && self.data.tags@[a].name@ != self.data.tags@[b].name@ by {
                let oa = if a < j as int { a } else { a + 1 };
                let ob = if b < j as int { b } else { b + 1 };
                assert(self.data.tags@[a] == old(self).data.tags@[oa]);
                assert(self.data.tags@[b] == old(self).data.tags@[ob]);
            }
            assert forall|k: int| 0 <= k < self.data.tags@.len() implies (
            #[trigger] self.data.tags@[k]).id != tag.id by {
                let ok = if k < j as int { k } else { k + 1 };
                assert(self.data.tags@[k] == old(self).data.tags@[ok]);
                if ok != j as int {
                    assert(old(self).data.tags@[ok].id != old(self).data.tags@[j as int].id);
                }
            }
        }
        Ok("tag deleted")
    }

    /// Bind a tag to a product. Both must exist and the pair must not be
    /// bound yet. Guests may not write.
    pub fn bind_tag(&mut self, tag: &ModifyProductToTag) -> (r: Result<&'static str, MyError>)
        requires
            old(self).wf(),
        ensures
            final(self).wf(),
            same_auth(*old(self), *final(self)),
            match gate(old(self).role_of(tag.token), Floor::NonGuest) {
                Option::Some(e) => r matches Err(x) && x == e && *final(self) == *old(self),
                Option::None => if !has_tag(old(self).data.tags@, tag.tag_id) || !has_product(
                    old(self).data.products@,
                    tag.product_id,
                ) {
                    r matches Err(x) && x == MyError::NotFoundError && *final(self) == *old(self)
                } else if has_binding(old(self).data.bindings@, tag.tag_id, tag.product_id) {
                    r matches Err(x) && x == MyError::DuplicateError && *final(self) == *old(self)
                } else {
                    r matches Ok(m) && m@ == "tag binded"@ && final(self).data.bindings@ == old(self).data.bindings@.push(
                        Binding { tag_id: tag.tag_id, product_id: tag.product_id },
                    ) && final(self).data == crate::types::Dataset {
                        bindings: final(self).data.bindings,
                        ..old(self).data
                    }
                },
            },
    {
        if let Some(e) = self.gate_check(tag.token, Floor::NonGuest) {
            return Err(e);
        }
        if find_tag(&self.data.tags, tag.tag_id).is_none() {
            return Err(MyError::NotFoundError);
        }
        if find_product(&self.data.products, tag.product_id).is_none() {
            return Err(MyError::NotFoundError);
        }
        if find_binding(&self.data.bindings, tag.tag_id, tag.product_id).is_some() {
            return Err(MyError::DuplicateError);
        }
        let ghost pre = *self;
        self.data.bindings.push(Binding { tag_id: tag.tag_id, product_id: tag.product_id });
        proof {
            let n = old(self).data.bindings@.len() as int;
            assert forall|a: int, b: int| 0 <= a < b < self.data.bindings@.len() implies !((
            #[trigger] self.data.bindings@[a]).tag_id == (#[trigger] self.data.bindings@[b]).tag_id
                && self.data.bindings@[a].product_id == self.data.bindings@[b].product_id) by {
                if b == n {
                    if self.data.bindings@[a].tag_id == tag.tag_id
                        && self.data.bindings@[a].product_id == tag.product_id {
                        assert(has_binding(old(self).data.bindings@, tag.tag_id, tag.product_id));
                    }
                }
            }
        }
        Ok("tag binded")
    }

    /// Remove the binding of a tag/product pair; an unbound pair is a
    /// not-found error. Guests may not write.
    pub fn unbind_tag(&mut self, tag: &ModifyProductToTag) -> (r: Result<&'static str, MyError>)
        requires
            old(self).wf(),
        ensures
            final(self).wf(),
            same_auth(*old(self), *final(self)),
            match gate(old(self).role_of(tag.token), Floor::NonGuest) {
                Option::Some(e) => r matches Err(x) && x == e && *final(self) == *old(self),
                Option::None => if !has_binding(
                    old(self).data.bindings@,
                    tag.tag_id,
                    tag.product_id,
                ) {
                    r matches Err(x) && x == MyError::NotFoundError && *final(self) == *old(self)
                } else {
                    r matches Ok(m) && m@ == "tag unbinded"@ && final(self).data.bindings@ == old(self).data.bindings@.remove(
                        crate::lookup::binding_index(
                            old(self).data.bindings@,
                            tag.tag_id,
                            tag.product_id,
                        ),
                    ) && !has_binding(final(self).data.bindings@, tag.tag_id, tag.product_id)
                        && final(self).data == crate::types::Dataset {
                        bindings: final(self).data.bindings,
                        ..old(self).data
                    }
                },
            },
    {
        if let Some(e) = self.gate_check(tag.token, Floor::NonGuest) {
            return Err(e);
        }
        let j = match find_binding(&self.data.bindings, tag.tag_id, tag.product_id) {
            Some(j) => j,
            None => {
                return Err(MyError::NotFoundError);
            },
        };
        let ghost pre = *self;
        self.data.bindings.remove(j);
        proof {
            pre.data.bindings@.remove_ensures(j as int);
            assert forall|a: int, b: int| 0 <= a < b < self.data.bindings@.len() implies !((
            #[trigger] self.data.bindings@[a]).tag_id == (#[trigger] self.data.bindings@[b]).tag_id
                && self.data.bindings@[a].product_id == self.data.bindings@[b].product_id) by {
                let oa = if a < j as int { a } else { a + 1 };
                let ob = if b < j as int { b } else { b + 1 };
                assert(self.data.bindings@[a] == old(self).data.bindings@[oa]);
                assert(self.data.bindings@[b] == old(self).data.bindings@[ob]);
            }
            assert forall|k: int| 0 <= k < self.data.bindings@.len() implies !((
            #[trigger] self.data.bindings@[k]).tag_id == tag.tag_id
                && self.data.bindings@[k].product_id == tag.product_id) by {
                let ok = if k < j as int { k } else { k + 1 };
                assert(self.data.bindings@[k] == old(self).data.bindings@[ok]);
                if ok != j as int {
                    assert(!(old(self).data.bindings@[ok].tag_id == old(self).data.bindings@[j as int].tag_id && old(self).data.bindings@[ok].product_id
                        == old(self).data.bindings@[j as int].product_id));
                }
            }
        }
        Ok("tag unbinded")
    }

    /// List every tag with the number of products bound to it. Any
    /// authenticated role may read.
    pub fn get_popular_tags(&self, token: u64) -> (r: Result<Vec<PopularTag>, MyError>)
        requires
            self.wf(),
        ensures
            match gate(self.role_of(token), Floor::AnyRole) {
                Option::Some(e) => r matches Err(x) && x == e,
                Option::None => r matches Ok(v) && v@.len() == self.data.tags@.len() && (forall|
                    k: int,
                |
                    0 <= k < v@.len() ==> (#[trigger] v@[k]).id == self.data.tags@[k].id
                        && v@[k].name@ == self.data.tags@[k].name@ && v@[k].count == bind_count(
                        self.data.bindings@,
                        self.data.tags@[k].id,
                    )),
            },
    {
        if let Some(e) = self.gate_check(token, Floor::AnyRole) {
            return Err(e);
        }
        let mut out: Vec<PopularTag> = Vec::new();
        let mut i: usize = 0;
        while i < self.data.tags.len()
            invariant
                i <= self.data.tags@.len(),
                out@.len() == i,
                forall|k: int|
                    0 <= k < i ==> (#[trigger] out@[k]).id == self.data.tags@[k].id
                        && out@[k].name@ == self.data.tags@[k].name@ && out@[k].count == bind_count(
                        self.data.bindings@,
                        self.data.tags@[k].id,
                    ),
            decreases self.data.tags@.len() - i,
        {
            let t = &self.data.tags[i];
            let c = count_bindings(&self.data.bindings, t.id);
            out.push(PopularTag { id: t.id, name: t.name.clone(), count: c });
            i += 1;
        }
        Ok(out)
    }
}

} // verus!
