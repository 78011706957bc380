//! The access-control and idempotence laws of the endpoint layer. Every
//! endpoint contract consults `gate(role, floor)` before its data step and
//! pins the store unchanged whenever the role check denies the request, so
//! a fact proved of the role check holds at each endpoint of that floor.

use vstd::prelude::*;

use crate::auth::{credentials_ok, gate, Floor};
use crate::errors::MyError;
use crate::lookup::{has_tag, tag_index};
use crate::products::same_auth;
use crate::types::{tags_unique, Db, Tag, User};

verus! {

/// Law: a `guest` token never passes a write gate. Every endpoint whose
/// floor is `NonGuest` or `AdminOnly` answers a permission error to the
/// `guest` role, and its contract then pins the store unchanged — the
/// rejection happens before any persistence step.
pub proof fn lemma_guest_never_writes(floor: Floor)
    requires
        floor is NonGuest || floor is AdminOnly,
    ensures
        gate(Option::Some("guest"@), floor) == Option::Some(MyError::ForbiddenError),
{
    reveal_strlit("guest");
    reveal_strlit("administrator");
    assert("guest"@.len() == 5);
    assert("administrator"@.len() == 13);
}

/// Law: a missing or invalid token answers an authentication error at every
/// floor, so no authenticated endpoint reaches its persistence step without
/// a resolved role.
pub proof fn lemma_no_token_no_access(floor: Floor)
    ensures
        gate(Option::None, floor) == Option::Some(MyError::AuthError),
{
}

/// Law: the administrator floor is exact. Every resolved role other than
/// `administrator` — `guest` and any other authenticated role alike — is
/// rejected by `register`'s and `import_data`'s gate.
pub proof fn lemma_admin_floor_exact(role: Seq<char>)
    requires
        role != "administrator"@,
    ensures
        gate(Option::Some(role), Floor::AdminOnly) == Option::Some(MyError::ForbiddenError),
{
}

/// Law: a store change that leaves the account and session tables alone —
/// every inventory endpoint promises `same_auth` — preserves what every
/// token resolves to, so a token authorized for one call is authorized for
/// the next.
pub proof fn lemma_same_auth_preserves_roles(pre: Db, post: Db, token: u64)
    requires
        same_auth(pre, post),
    ensures
        post.role_of(token) == pre.role_of(token),
{
}

/// Law: deleting a tag removes the only tag carrying its id, so repeating
/// `delete_tag` for the same id meets a store without it and — by
/// `delete_tag`'s contract — is answered by a not-found error and changes
/// nothing, never by a silent success.
pub proof fn lemma_delete_tag_not_idempotent(tags: Seq<Tag>, id: u64)
    requires
        tags_unique(tags),
        has_tag(tags, id),
    ensures
        !has_tag(tags.remove(tag_index(tags, id)), id),
{
    let j = tag_index(tags, id);
    tags.remove_ensures(j);
    assert forall|k: int| 0 <= k < tags.remove(j).len() implies (#[trigger] tags.remove(
        j,
    )[k]).id != id by {
        let ok = if k < j {
            k
        } else {
            k + 1
        };
        assert(tags.remove(j)[k] == tags[ok]);
        if ok != j {
            assert(tags[ok].id != tags[j].id);
        }
    }
}

/// Law: after the startup bootstrap ran on a store without an `admin`
/// account — its contract appends one with password `admin` — the
/// credentials `admin`/`admin` authenticate, so `login` with them is owed a
/// fresh token by its contract.
pub proof fn lemma_bootstrap_enables_admin_login(users: Seq<User>)
    requires
        users.len() > 0,
        users.last().username@ == "admin"@,
        users.last().pwd@ == "admin"@,
    ensures
        credentials_ok(users, "admin"@, "admin"@),
{
    assert(users[users.len() - 1].username@ == "admin"@);
}

} // verus!
