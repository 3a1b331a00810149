//! The storage-access abstraction: one repository trait per entity, with a
//! full contract over an abstract model of the store.
//!
//! A repository models its contents as a sequence of rows ordered by
//! creation time, most recent first, together with a write stamp that lies
//! strictly above every timestamp in the store. Lookups return the first
//! matching row, creation prepends a freshly stamped row, updates merge a
//! partial DTO into the addressed row, and deletion removes it.

use vstd::prelude::*;

use crate::entities::{
    merge_product, merge_user, CreateProductDto, CreateUserDto, Product, UpdateProductDto,
    UpdateUserDto, User,
};
use crate::errors::RepositoryError;

verus! {

/// Index of the first element of `s` satisfying `p`, or `-1` if none does.
pub open spec fn find_index<A>(s: Seq<A>, p: spec_fn(A) -> bool) -> int
    decreases s.len(),
{
    if s.len() == 0 {
        -1
    } else if p(s[0]) {
        0
    } else {
        let rest = find_index(s.drop_first(), p);
        if rest == -1 {
            -1
        } else {
            rest + 1
        }
    }
}

/// The first element of `s` satisfying `p`, if any.
pub open spec fn find_first<A>(s: Seq<A>, p: spec_fn(A) -> bool) -> Option<A> {
    let k = find_index(s, p);
    if k == -1 {
        None
    } else {
        Some(s[k])
    }
}

/// What `find_index` returns: either `-1` and nothing matches, or the
/// position of a match that nothing earlier precedes.
pub proof fn lemma_find_index_props<A>(s: Seq<A>, p: spec_fn(A) -> bool)
    ensures
        find_index(s, p) == -1 ==> forall|i: int| 0 <= i < s.len() ==> !p(#[trigger] s[i]),
        find_index(s, p) != -1 ==> 0 <= find_index(s, p) < s.len(),
        find_index(s, p) != -1 ==> p(s[find_index(s, p)]),
        find_index(s, p) != -1 ==> forall|i: int| 0 <= i < find_index(s, p) ==> !p(#[trigger] s[i]),
    decreases s.len(),
{
    if s.len() == 0 {
    } else if p(s[0]) {
    } else {
        let rest = s.drop_first();
        lemma_find_index_props(rest, p);
        assert(forall|i: int| 0 <= i < rest.len() ==> #[trigger] rest[i] == s[i + 1]);
        if find_index(s, p) == -1 {
            assert forall|i: int| 0 <= i < s.len() implies !p(#[trigger] s[i]) by {
                if i > 0 {
                    assert(s[i] == rest[i - 1]);
                }
            }
        } else {
            let k = find_index(s, p);
            assert(s[k] == rest[k - 1]);
            assert forall|i: int| 0 <= i < k implies !p(#[trigger] s[i]) by {
                if i > 0 {
                    assert(s[i] == rest[i - 1]);
                }
            }
        }
    }
}

/// If `s[k]` matches and nothing before `k` does, the first match is at `k`.
pub proof fn lemma_find_index_at<A>(s: Seq<A>, p: spec_fn(A) -> bool, k: int)
    requires
        0 <= k < s.len(),
        p(s[k]),
        forall|i: int| 0 <= i < k ==> !p(#[trigger] s[i]),
    ensures
        find_index(s, p) == k,
    decreases k,
{
    if k == 0 {
    } else {
        let rest = s.drop_first();
        assert(forall|i: int| 0 <= i < rest.len() ==> #[trigger] rest[i] == s[i + 1]);
        assert(!p(s[0]));
        assert(rest[k - 1] == s[k]);
        assert forall|i: int| 0 <= i < k - 1 implies !p(#[trigger] rest[i]) by {
            assert(rest[i] == s[i + 1]);
        }
        lemma_find_index_at(rest, p, k - 1);
    }
}

/// If nothing in `s` matches, there is no first match.
pub proof fn lemma_find_index_none<A>(s: Seq<A>, p: spec_fn(A) -> bool)
    requires
        forall|i: int| 0 <= i < s.len() ==> !p(#[trigger] s[i]),
    ensures
        find_index(s, p) == -1,
    decreases s.len(),
{
    if s.len() == 0 {
    } else {
        let rest = s.drop_first();
        assert forall|i: int| 0 <= i < rest.len() implies !p(#[trigger] rest[i]) by {
            assert(rest[i] == s[i + 1]);
        }
        lemma_find_index_none(rest, p);
    }
}

/// Matches the user with the given identifier.
pub open spec fn user_has_id(id: u128) -> spec_fn(User) -> bool {
    |u: User| u.id == id
}

/// Matches the user with the given email address.
pub open spec fn user_has_email(email: Seq<char>) -> spec_fn(User) -> bool {
    |u: User| u.email@ == email
}

/// Matches the product with the given identifier.
pub open spec fn product_has_id(id: u128) -> spec_fn(Product) -> bool {
    |p: Product| p.id == id
}

/// The first user row carrying `id`, if any.
pub open spec fn find_user(rows: Seq<User>, id: u128) -> Option<User> {
    find_first(rows, user_has_id(id))
}

/// The position of the user row carrying `id`, or `-1`.
pub open spec fn user_index(rows: Seq<User>, id: u128) -> int {
    find_index(rows, user_has_id(id))
}

/// The first user row carrying `email`, if any.
pub open spec fn find_user_by_email(rows: Seq<User>, email: Seq<char>) -> Option<User> {
    find_first(rows, user_has_email(email))
}

/// Whether some user row already carries `email`.
pub open spec fn email_taken(rows: Seq<User>, email: Seq<char>) -> bool {
    find_user_by_email(rows, email) is Some
}

/// The first product row carrying `id`, if any.
pub open spec fn find_product(rows: Seq<Product>, id: u128) -> Option<Product> {
    find_first(rows, product_has_id(id))
}

/// The position of the product row carrying `id`, or `-1`.
pub open spec fn product_index(rows: Seq<Product>, id: u128) -> int {
    find_index(rows, product_has_id(id))
}

/// Well-formedness of a user store: every timestamp and identifier lies
/// below the write stamp, rows are ordered by creation time descending,
/// and identifiers and email addresses are unique.
pub open spec fn user_store_wf(rows: Seq<User>, stamp: u64) -> bool {
    &&& forall|i: int|
        0 <= i < rows.len() ==> {
            &&& (#[trigger] rows[i]).created_at < stamp
            &&& rows[i].updated_at < stamp
            &&& rows[i].id < stamp as u128
        }
    &&& forall|i: int, j: int|
        0 <= i < j < rows.len() ==> {
            &&& (#[trigger] rows[i]).created_at > (#[trigger] rows[j]).created_at
            &&& rows[i].id != rows[j].id
            &&& rows[i].email@ != rows[j].email@
        }
}

/// Well-formedness of a product store; as `user_store_wf`, without the
/// email constraint.
pub open spec fn product_store_wf(rows: Seq<Product>, stamp: u64) -> bool {
    &&& forall|i: int|
        0 <= i < rows.len() ==> {
            &&& (#[trigger] rows[i]).created_at < stamp
            &&& rows[i].updated_at < stamp
            &&& rows[i].id < stamp as u128
        }
    &&& forall|i: int, j: int|
        0 <= i < j < rows.len() ==> {
            &&& (#[trigger] rows[i]).created_at > (#[trigger] rows[j]).created_at
            &&& rows[i].id != rows[j].id
        }
}

/// A freshly created user row: its fields are taken from the DTO, both of
/// its timestamps are the same new instant, its identifier is fresh, and
/// it is prepended to the store.
pub open spec fn user_created(rows: Seq<User>, dto: CreateUserDto, u: User, next: Seq<User>) -> bool {
    &&& u.email == dto.email
    &&& u.username == dto.username
    &&& u.password_hash == dto.password
    &&& u.created_at == u.updated_at
    &&& forall|i: int| 0 <= i < rows.len() ==> (#[trigger] rows[i]).id != u.id
    &&& next == rows.insert(0, u)
}

/// A freshly created product row; see `user_created`.
pub open spec fn product_created(
    rows: Seq<Product>,
    dto: CreateProductDto,
    p: Product,
    next: Seq<Product>,
) -> bool {
    &&& p.name == dto.name
    &&& p.description == dto.description
    &&& p.price == dto.price
    &&& p.stock == dto.stock
    &&& p.created_at == p.updated_at
    &&& forall|i: int| 0 <= i < rows.len() ==> (#[trigger] rows[i]).id != p.id
    &&& next == rows.insert(0, p)
}

/// An applied partial user update: the addressed row is replaced by the
/// merge of itself and the DTO at a strictly later instant.
pub open spec fn user_updated(
    rows: Seq<User>,
    id: u128,
    dto: UpdateUserDto,
    u: User,
    next: Seq<User>,
) -> bool {
    let k = user_index(rows, id);
    &&& u == merge_user(rows[k], dto, u.updated_at)
    &&& u.updated_at > rows[k].updated_at
    &&& next == rows.update(k, u)
}

/// An applied partial product update; see `user_updated`.
pub open spec fn product_updated(
    rows: Seq<Product>,
    id: u128,
    dto: UpdateProductDto,
    p: Product,
    next: Seq<Product>,
) -> bool {
    let k = product_index(rows, id);
    &&& p == merge_product(rows[k], dto, p.updated_at)
    &&& p.updated_at > rows[k].updated_at
    &&& next == rows.update(k, p)
}

/// Whether the update `dto` would give the row at position `k` an email
/// address that some other row already carries.
pub open spec fn user_update_email_conflict(rows: Seq<User>, k: int, dto: UpdateUserDto) -> bool {
    match dto.email {
        Some(e) => exists|j: int| 0 <= j < rows.len() && j != k && (#[trigger] rows[j]).email@ == e@,
        None => false,
    }
}

/// Capability contract for CRUD storage operations on users, independent
/// of storage technology. The contract describes an in-process store; a
/// backend that can fail for reasons of its own (a network, a connection
/// pool) lives outside the verified boundary and is held to this contract
/// by its surrounding code.
pub trait UserRepository: Sized {
    /// The stored rows, ordered by creation time descending.
    spec fn rows(&self) -> Seq<User>;

    /// The current write stamp; strictly above every stored timestamp.
    spec fn stamp(&self) -> u64;

    /// Returns absence, not an error, when no row matches.
    fn find_by_id(&self, id: u128) -> (r: Result<Option<User>, RepositoryError>)
        requires
            user_store_wf(self.rows(), self.stamp()),
        ensures
            r matches Ok(found) && found == find_user(self.rows(), id),
    ;

    /// Returns absence, not an error, when no row matches.
    fn find_by_email(&self, email: &str) -> (r: Result<Option<User>, RepositoryError>)
        requires
            user_store_wf(self.rows(), self.stamp()),
        ensures
            r matches Ok(found) && found == find_user_by_email(self.rows(), email@),
    ;

    /// Assigns identifier and timestamps; fails with `DuplicateEntry`
    /// exactly when the email is already stored.
    fn create(&mut self, user: CreateUserDto) -> (r: Result<User, RepositoryError>)
        requires
            user_store_wf(old(self).rows(), old(self).stamp()),
            old(self).stamp() < u64::MAX,
        ensures
            user_store_wf(final(self).rows(), final(self).stamp()),
            email_taken(old(self).rows(), user.email@) ==> (r matches Err(e) && e
                == RepositoryError::DuplicateEntry && *final(self) == *old(self)),
            !email_taken(old(self).rows(), user.email@) ==> (r matches Ok(u) && user_created(
                old(self).rows(),
                user,
                u,
                final(self).rows(),
            )),
    ;

    /// Merges each `Some` field over the stored row and refreshes
    /// `updated_at`; fails with `NotFound` when the row does not exist and
    /// with `DatabaseError` when the merge would duplicate another row's
    /// email address.
    fn update(&mut self, id: u128, user: UpdateUserDto) -> (r: Result<User, RepositoryError>)
        requires
            user_store_wf(old(self).rows(), old(self).stamp()),
            old(self).stamp() < u64::MAX,
        ensures
            user_store_wf(final(self).rows(), final(self).stamp()),
            find_user(old(self).rows(), id) is None ==> (r matches Err(e) && e
                == RepositoryError::NotFound && *final(self) == *old(self)),
            find_user(old(self).rows(), id) is Some && user_update_email_conflict(
                old(self).rows(),
                user_index(old(self).rows(), id),
                user,
            ) ==> (r matches Err(e) && e matches RepositoryError::DatabaseError(_) && *final(self)
                == *old(self)),
            find_user(old(self).rows(), id) is Some && !user_update_email_conflict(
                old(self).rows(),
                user_index(old(self).rows(), id),
                user,
            ) ==> (r matches Ok(u) && user_updated(old(self).rows(), id, user, u, final(self).rows())),
    ;

    /// Fails with `NotFound` exactly when no row carries the identifier.
    fn delete(&mut self, id: u128) -> (r: Result<(), RepositoryError>)
        requires
            user_store_wf(old(self).rows(), old(self).stamp()),
        ensures
            user_store_wf(final(self).rows(), final(self).stamp()),
            find_user(old(self).rows(), id) is None ==> (r matches Err(e) && e
                == RepositoryError::NotFound && *final(self) == *old(self)),
            find_user(old(self).rows(), id) is Some ==> r is Ok && final(self).rows()
                == old(self).rows().remove(user_index(old(self).rows(), id)),
    ;

    /// All rows, ordered by creation time descending.
    fn list(&self) -> (r: Result<Vec<User>, RepositoryError>)
        requires
            user_store_wf(self.rows(), self.stamp()),
        ensures
            r matches Ok(v) && v@ == self.rows(),
    ;
}

/// Capability contract for CRUD storage operations on products; see
/// `UserRepository`.
pub trait ProductRepository: Sized {
    /// The stored rows, ordered by creation time descending.
    spec fn rows(&self) -> Seq<Product>;

    /// The current write stamp; strictly above every stored timestamp.
    spec fn stamp(&self) -> u64;

    /// Returns absence, not an error, when no row matches.
    fn find_by_id(&self, id: u128) -> (r: Result<Option<Product>, RepositoryError>)
        requires
            product_store_wf(self.rows(), self.stamp()),
        ensures
            r matches Ok(found) && found == find_product(self.rows(), id),
    ;

    /// Assigns identifier and timestamps and prepends the new row.
    fn create(&mut self, product: CreateProductDto) -> (r: Result<Product, RepositoryError>)
        requires
            product_store_wf(old(self).rows(), old(self).stamp()),
            old(self).stamp() < u64::MAX,
        ensures
            product_store_wf(final(self).rows(), final(self).stamp()),
            r matches Ok(p) && product_created(old(self).rows(), product, p, final(self).rows()),
    ;

    /// Merges each `Some` field over the stored row and refreshes
    /// `updated_at`; fails with `NotFound` when the row does not exist.
    fn update(&mut self, id: u128, product: UpdateProductDto) -> (r: Result<
        Product,
        RepositoryError,
    >)
        requires
            product_store_wf(old(self).rows(), old(self).stamp()),
            old(self).stamp() < u64::MAX,
        ensures
            product_store_wf(final(self).rows(), final(self).stamp()),
            find_product(old(self).rows(), id) is None ==> (r matches Err(e) && e
                == RepositoryError::NotFound && *final(self) == *old(self)),
            find_product(old(self).rows(), id) is Some ==> (r matches Ok(p) && product_updated(
                old(self).rows(),
                id,
                product,
                p,
                final(self).rows(),
            )),
    ;

    /// Fails with `NotFound` exactly when no row carries the identifier.
    fn delete(&mut self, id: u128) -> (r: Result<(), RepositoryError>)
        requires
            product_store_wf(old(self).rows(), old(self).stamp()),
        ensures
            product_store_wf(final(self).rows(), final(self).stamp()),
            find_product(old(self).rows(), id) is None ==> (r matches Err(e) && e
                == RepositoryError::NotFound && *final(self) == *old(self)),
            find_product(old(self).rows(), id) is Some ==> r is Ok && final(self).rows()
                == old(self).rows().remove(product_index(old(self).rows(), id)),
    ;

    /// All rows, ordered by creation time descending.
    fn list(&self) -> (r: Result<Vec<Product>, RepositoryError>)
        requires
            product_store_wf(self.rows(), self.stamp()),
        ensures
            r matches Ok(v) && v@ == self.rows(),
    ;
}

/// Creating an entity and then looking its identifier up finds exactly
/// the created entity: the freshly created row is prepended to the store,
/// and the first match on its identifier is that row.
pub proof fn lemma_user_create_then_find(rows: Seq<User>, u: User)
    ensures
        find_user(rows.insert(0, u), u.id) == Some(u),
{
    let next = rows.insert(0, u);
    rows.insert_ensures(0, u);
    let p = user_has_id(u.id);
    assert(p(next[0]));
    lemma_find_index_at(next, p, 0);
}

/// See `lemma_user_create_then_find`; the same holds of products.
pub proof fn lemma_product_create_then_find(rows: Seq<Product>, p: Product)
    ensures
        find_product(rows.insert(0, p), p.id) == Some(p),
{
    let next = rows.insert(0, p);
    rows.insert_ensures(0, p);
    let q = product_has_id(p.id);
    assert(q(next[0]));
    lemma_find_index_at(next, q, 0);
}

/// Once a user with some email address has been stored, that address is
/// taken: a second create with the same address finds it and fails.
pub proof fn lemma_user_duplicate_email(rows: Seq<User>, u: User, email: Seq<char>)
    requires
        u.email@ == email,
    ensures
        email_taken(rows.insert(0, u), email),
{
    let next = rows.insert(0, u);
    rows.insert_ensures(0, u);
    let p = user_has_email(email);
    assert(p(next[0]));
    lemma_find_index_props(next, p);
}

/// After deleting the row carrying an identifier from a store with unique
/// identifiers, looking that identifier up finds nothing.
pub proof fn lemma_user_delete_then_find(rows: Seq<User>, id: u128)
    requires
        forall|i: int, j: int|
            0 <= i < j < rows.len() ==> (#[trigger] rows[i]).id != (#[trigger] rows[j]).id,
        find_user(rows, id) is Some,
    ensures
        find_user(rows.remove(user_index(rows, id)), id) is None,
{
    let p = user_has_id(id);
    lemma_find_index_props(rows, p);
    let k = user_index(rows, id);
    rows.remove_ensures(k);
    let next = rows.remove(k);
    assert forall|i: int| 0 <= i < next.len() implies !p(#[trigger] next[i]) by {
        if i < k {
            assert(next[i] == rows[i]);
            assert(rows[i].id != rows[k].id);
        } else {
            assert(next[i] == rows[i + 1]);
            assert(rows[k].id != rows[i + 1].id);
        }
    }
    lemma_find_index_none(next, p);
}

/// See `lemma_user_delete_then_find`; the same holds of products.
pub proof fn lemma_product_delete_then_find(rows: Seq<Product>, id: u128)
    requires
        forall|i: int, j: int|
            0 <= i < j < rows.len() ==> (#[trigger] rows[i]).id != (#[trigger] rows[j]).id,
        find_product(rows, id) is Some,
    ensures
        find_product(rows.remove(product_index(rows, id)), id) is None,
{
    let p = product_has_id(id);
    lemma_find_index_props(rows, p);
    let k = product_index(rows, id);
    rows.remove_ensures(k);
    let next = rows.remove(k);
    assert forall|i: int| 0 <= i < next.len() implies !p(#[trigger] next[i]) by {
        if i < k {
            assert(next[i] == rows[i]);
            assert(rows[i].id != rows[k].id);
        } else {
            assert(next[i] == rows[i + 1]);
            assert(rows[k].id != rows[i + 1].id);
        }
    }
    lemma_find_index_none(next, p);
}

/// In a well-formed user store the rows are ordered by creation time
/// descending: what `list` returns is most-recent-first.
pub proof fn lemma_user_list_ordered(rows: Seq<User>, stamp: u64)
    requires
        user_store_wf(rows, stamp),
    ensures
        forall|i: int, j: int|
            0 <= i < j < rows.len() ==> (#[trigger] rows[i]).created_at > (
            #[trigger] rows[j]).created_at,
{
}

/// See `lemma_user_list_ordered`; the same holds of products.
pub proof fn lemma_product_list_ordered(rows: Seq<Product>, stamp: u64)
    requires
        product_store_wf(rows, stamp),
    ensures
        forall|i: int, j: int|
            0 <= i < j < rows.len() ==> (#[trigger] rows[i]).created_at > (
            #[trigger] rows[j]).created_at,
{
}

} // verus!
