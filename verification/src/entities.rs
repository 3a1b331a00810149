//! Domain entities and the data-transfer shapes used to create and update
//! them.
//!
//! Identifiers are 128-bit values assigned by the storage layer; timestamps
//! are logical instants (strictly increasing per store) assigned by the
//! storage layer as well. Partial updates carry one `Option` per column:
//! `Some` overwrites, `None` keeps the stored value. The merge semantics is
//! written once as a spec function per entity and every repository contract
//! speaks in terms of it.

use vstd::prelude::*;

use crate::decimal::Decimal;

verus! {

/// A stored user account.
#[derive(Debug)]
pub struct User {
    pub id: u128,
    pub email: String,
    pub username: String,
    pub password_hash: String,
    pub created_at: u64,
    pub updated_at: u64,
}

impl Clone for User {
    fn clone(&self) -> (r: Self)
        ensures
            r == *self,
    {
        User {
            id: self.id,
            email: self.email.clone(),
            username: self.username.clone(),
            password_hash: self.password_hash.clone(),
            created_at: self.created_at,
            updated_at: self.updated_at,
        }
    }
}

/// Input for creating a user. The password travels as submitted and the
/// storage layer records it verbatim in the `password_hash` column: no
/// hashing is applied anywhere in this service.
#[derive(Debug)]
pub struct CreateUserDto {
    pub email: String,
    pub username: String,
    pub password: String,
}

/// Partial update of a user: `None` fields keep their stored value.
#[derive(Debug)]
pub struct UpdateUserDto {
    pub email: Option<String>,
    pub username: Option<String>,
    pub password: Option<String>,
}

/// A stored product.
#[derive(Debug)]
pub struct Product {
    pub id: u128,
    pub name: String,
    pub description: String,
    pub price: Decimal,
    pub stock: i32,
    pub created_at: u64,
    pub updated_at: u64,
}

impl Clone for Product {
    fn clone(&self) -> (r: Self)
        ensures
            r == *self,
    {
        Product {
            id: self.id,
            name: self.name.clone(),
            description: self.description.clone(),
            price: self.price,
            stock: self.stock,
            created_at: self.created_at,
            updated_at: self.updated_at,
        }
    }
}

/// Input for creating a product.
#[derive(Debug)]
pub struct CreateProductDto {
    pub name: String,
    pub description: String,
    pub price: Decimal,
    pub stock: i32,
}

/// Partial update of a product: `None` fields keep their stored value.
#[derive(Debug)]
pub struct UpdateProductDto {
    pub name: Option<String>,
    pub description: Option<String>,
    pub price: Option<Decimal>,
    pub stock: Option<i32>,
}

/// The stored row that results from applying a partial update to `u` at
/// instant `at`: every `Some` field overwrites its column, every `None`
/// field is kept, `updated_at` is refreshed, identifier and creation time
/// never change.
pub open spec fn merge_user(u: User, dto: UpdateUserDto, at: u64) -> User {
    User {
        id: u.id,
        email: match dto.email {
            Some(e) => e,
            None => u.email,
        },
        username: match dto.username {
            Some(n) => n,
            None => u.username,
        },
        password_hash: match dto.password {
            Some(p) => p,
            None => u.password_hash,
        },
        created_at: u.created_at,
        updated_at: at,
    }
}

/// The stored row that results from applying a partial update to `p` at
/// instant `at`; see `merge_user`.
pub open spec fn merge_product(p: Product, dto: UpdateProductDto, at: u64) -> Product {
    Product {
        id: p.id,
        name: match dto.name {
            Some(n) => n,
            None => p.name,
        },
        description: match dto.description {
            Some(d) => d,
            None => p.description,
        },
        price: match dto.price {
            Some(pr) => pr,
            None => p.price,
        },
        stock: match dto.stock {
            Some(s) => s,
            None => p.stock,
        },
        created_at: p.created_at,
        updated_at: at,
    }
}

/// A partial update leaves every field it does not mention unchanged,
/// overwrites every field it does mention with the given value, and
/// strictly increases the update timestamp while keeping identifier and
/// creation time.
pub proof fn lemma_merge_user_fields(u: User, dto: UpdateUserDto, at: u64)
    requires
        u.updated_at < at,
    ensures
        merge_user(u, dto, at).id == u.id,
        merge_user(u, dto, at).created_at == u.created_at,
        merge_user(u, dto, at).updated_at == at,
        merge_user(u, dto, at).updated_at > u.updated_at,
        dto.email is None ==> merge_user(u, dto, at).email == u.email,
        dto.username is None ==> merge_user(u, dto, at).username == u.username,
        dto.password is None ==> merge_user(u, dto, at).password_hash == u.password_hash,
        forall|e: String| dto.email == Some(e) ==> merge_user(u, dto, at).email == e,
        forall|n: String| dto.username == Some(n) ==> merge_user(u, dto, at).username == n,
        forall|p: String| dto.password == Some(p) ==> merge_user(u, dto, at).password_hash == p,
{
}

/// See `lemma_merge_user_fields`; the same holds of products.
pub proof fn lemma_merge_product_fields(p: Product, dto: UpdateProductDto, at: u64)
    requires
        p.updated_at < at,
    ensures
        merge_product(p, dto, at).id == p.id,
        merge_product(p, dto, at).created_at == p.created_at,
        merge_product(p, dto, at).updated_at == at,
        merge_product(p, dto, at).updated_at > p.updated_at,
        dto.name is None ==> merge_product(p, dto, at).name == p.name,
        dto.description is None ==> merge_product(p, dto, at).description == p.description,
        dto.price is None ==> merge_product(p, dto, at).price == p.price,
        dto.stock is None ==> merge_product(p, dto, at).stock == p.stock,
        forall|n: String| dto.name == Some(n) ==> merge_product(p, dto, at).name == n,
        forall|d: String| dto.description == Some(d) ==> merge_product(p, dto, at).description == d,
        forall|pr: Decimal| dto.price == Some(pr) ==> merge_product(p, dto, at).price == pr,
        forall|s: i32| dto.stock == Some(s) ==> merge_product(p, dto, at).stock == s,
{
}

/// Whether an optional text field is present but empty.
pub open spec fn some_empty(o: Option<String>) -> bool {
    match o {
        Some(s) => s@.len() == 0,
        None => false,
    }
}

/// Whether an optional price is present but negative.
pub open spec fn some_neg_price(o: Option<Decimal>) -> bool {
    match o {
        Some(p) => p.is_neg(),
        None => false,
    }
}

/// Whether an optional stock quantity is present but negative.
pub open spec fn some_neg_stock(o: Option<i32>) -> bool {
    match o {
        Some(s) => s < 0,
        None => false,
    }
}

} // verus!
