//! Request/response mapping for the HTTP surface.
//!
//! Inbound wire shapes copy field-for-field into the internal DTOs.
//! Outbound responses are pure projections of entities that drop fields
//! never meant for the wire (the password hash) and, for list endpoints,
//! carry the sequence together with its cardinality. `ApiError` fixes the
//! mapping from application errors to HTTP status codes and bodies.

use vstd::prelude::*;

use crate::decimal::Decimal;
use crate::entities::{CreateProductDto, CreateUserDto, Product, UpdateProductDto, UpdateUserDto,
    User};
use crate::errors::ApplicationError;

verus! {

/// Wire shape for creating a user.
#[derive(Debug)]
pub struct CreateUserRequest {
    pub email: String,
    pub username: String,
    pub password: String,
}

impl CreateUserRequest {
    /// Field-for-field copy into the internal DTO.
    pub fn into_dto(self) -> (d: CreateUserDto)
        ensures
            d.email == self.email,
            d.username == self.username,
            d.password == self.password,
    {
        CreateUserDto { email: self.email, username: self.username, password: self.password }
    }
}

/// Wire shape for partially updating a user.
#[derive(Debug)]
pub struct UpdateUserRequest {
    pub email: Option<String>,
    pub username: Option<String>,
    pub password: Option<String>,
}

impl UpdateUserRequest {
    /// Field-for-field copy into the internal DTO.
    pub fn into_dto(self) -> (d: UpdateUserDto)
        ensures
            d.email == self.email,
            d.username == self.username,
            d.password == self.password,
    {
        UpdateUserDto { email: self.email, username: self.username, password: self.password }
    }
}

/// Wire shape for creating a product.
#[derive(Debug)]
pub struct CreateProductRequest {
    pub name: String,
    pub description: String,
    pub price: Decimal,
    pub stock: i32,
}

impl CreateProductRequest {
    /// Field-for-field copy into the internal DTO.
    pub fn into_dto(self) -> (d: CreateProductDto)
        ensures
            d.name == self.name,
            d.description == self.description,
            d.price == self.price,
            d.stock == self.stock,
    {
        CreateProductDto {
            name: self.name,
            description: self.description,
            price: self.price,
            stock: self.stock,
        }
    }
}

/// Wire shape for partially updating a product.
#[derive(Debug)]
pub struct UpdateProductRequest {
    pub name: Option<String>,
    pub description: Option<String>,
    pub price: Option<Decimal>,
    pub stock: Option<i32>,
}

impl UpdateProductRequest {
    /// Field-for-field copy into the internal DTO.
    pub fn into_dto(self) -> (d: UpdateProductDto)
        ensures
            d.name == self.name,
            d.description == self.description,
            d.price == self.price,
            d.stock == self.stock,
    {
        UpdateProductDto {
            name: self.name,
            description: self.description,
            price: self.price,
            stock: self.stock,
        }
    }
}

/// Wire shape of one user: every entity field except the password hash.
#[derive(Debug)]
pub struct UserResponse {
    pub id: u128,
    pub email: String,
    pub username: String,
    pub created_at: u64,
    pub updated_at: u64,
}

/// The projection performed by `UserResponse::from`.
pub open spec fn user_response_of(u: User) -> UserResponse {
    UserResponse {
        id: u.id,
        email: u.email,
        username: u.username,
        created_at: u.created_at,
        updated_at: u.updated_at,
    }
}

impl UserResponse {
    /// Pure field projection; drops the password hash.
    pub fn from(user: User) -> (r: Self)
        ensures
            r == user_response_of(user),
    {
        UserResponse {
            id: user.id,
            email: user.email,
            username: user.username,
            created_at: user.created_at,
            updated_at: user.updated_at,
        }
    }
}

/// Wire shape of a user listing: the projected rows and their count.
#[derive(Debug)]
pub struct UsersListResponse {
    pub users: Vec<UserResponse>,
    pub total: i64,
}

impl UsersListResponse {
    /// Projects every row and records the cardinality of the sequence.
    #[verifier::loop_isolation(false)]
    pub fn from(users: Vec<User>) -> (r: Self)
        requires
            users@.len() <= i64::MAX,
        ensures
            r.total == users@.len() as i64,
            r.users@ == users@.map_values(|u: User| user_response_of(u)),
    {
        let total = users.len() as i64;
        let n = users.len();
        let mut out: Vec<UserResponse> = Vec::new();
        let mut i: usize = 0;
        while i < n
            invariant
                i <= n,
                out@.len() == i,
                forall|k: int| 0 <= k < i ==> #[trigger] out@[k] == user_response_of(users@[k]),
            decreases n - i,
        {
            out.push(UserResponse::from(users[i].clone()));
            i += 1;
        }
        proof {
            assert(out@ =~= users@.map_values(|u: User| user_response_of(u)));
        }
        UsersListResponse { users: out, total }
    }
}

/// Wire shape of one product.
#[derive(Debug)]
pub struct ProductResponse {
    pub id: u128,
    pub name: String,
    pub description: String,
    pub price: Decimal,
    pub stock: i32,
    pub created_at: u64,
    pub updated_at: u64,
}

/// The projection performed by `ProductResponse::from`.
pub open spec fn product_response_of(p: Product) -> ProductResponse {
    ProductResponse {
        id: p.id,
        name: p.name,
        description: p.description,
        price: p.price,
        stock: p.stock,
        created_at: p.created_at,
        updated_at: p.updated_at,
    }
}

impl ProductResponse {
    /// Pure field projection.
    pub fn from(product: Product) -> (r: Self)
        ensures
            r == product_response_of(product),
    {
        ProductResponse {
            id: product.id,
            name: product.name,
            description: product.description,
            price: product.price,
            stock: product.stock,
            created_at: product.created_at,
            updated_at: product.updated_at,
        }
    }
}

/// Wire shape of a product listing: the projected rows and their count.
#[derive(Debug)]
pub struct ProductsListResponse {
    pub products: Vec<ProductResponse>,
    pub total: i64,
}

impl ProductsListResponse {
    /// Projects every row and records the cardinality of the sequence.
    #[verifier::loop_isolation(false)]
    pub fn from(products: Vec<Product>) -> (r: Self)
        requires
            products@.len() <= i64::MAX,
        ensures
            r.total == products@.len() as i64,
            r.products@ == products@.map_values(|p: Product| product_response_of(p)),
    {
        let total = products.len() as i64;
        let n = products.len();
        let mut out: Vec<ProductResponse> = Vec::new();
        let mut i: usize = 0;
        while i < n
            invariant
                i <= n,
                out@.len() == i,
                forall|k: int| 0 <= k < i ==> #[trigger] out@[k] == product_response_of(
                    products@[k],
                ),
            decreases n - i,
        {
            out.push(ProductResponse::from(products[i].clone()));
            i += 1;
        }
        proof {
            assert(out@ =~= products@.map_values(|p: Product| product_response_of(p)));
        }
        ProductsListResponse { products: out, total }
    }
}

/// The error surface of the HTTP layer. Every application error maps to
/// exactly one of these, and each of these to exactly one status code.
#[derive(Debug)]
pub enum ApiError {
    InternalServerError,
    BadRequest(String),
    Unauthorized,
    NotFound,
}

/// The fixed mapping from application errors to the HTTP error surface:
/// validation failures become bad requests and keep their message, absence
/// and missing authorization keep their kind, and everything else —
/// storage failures included — is surfaced only as an opaque internal
/// error.
pub open spec fn api_error_of(e: ApplicationError) -> ApiError {
    match e {
        ApplicationError::Validation(m) => ApiError::BadRequest(m),
        ApplicationError::NotFound => ApiError::NotFound,
        ApplicationError::Unauthorized => ApiError::Unauthorized,
        ApplicationError::Repository(_) => ApiError::InternalServerError,
    }
}

impl ApiError {
    /// The status code this error is served with.
    pub open spec fn spec_status_code(&self) -> u16 {
        match self {
            ApiError::InternalServerError => 500,
            ApiError::BadRequest(_) => 400,
            ApiError::Unauthorized => 401,
            ApiError::NotFound => 404,
        }
    }

    pub fn from(error: ApplicationError) -> (r: ApiError)
        ensures
            r == api_error_of(error),
    {
        match error {
            ApplicationError::Validation(msg) => ApiError::BadRequest(msg),
            ApplicationError::NotFound => ApiError::NotFound,
            ApplicationError::Unauthorized => ApiError::Unauthorized,
            ApplicationError::Repository(_) => ApiError::InternalServerError,
        }
    }

    pub fn status_code(&self) -> (c: u16)
        ensures
            c == self.spec_status_code(),
    {
        match self {
            ApiError::InternalServerError => 500,
            ApiError::BadRequest(_) => 400,
            ApiError::Unauthorized => 401,
            ApiError::NotFound => 404,
        }
    }

    /// The human-readable message served in the error body.
    pub fn message(&self) -> (m: String)
        ensures
            self matches ApiError::InternalServerError ==> m@ == "Internal Server Error"@,
            self matches ApiError::BadRequest(s) ==> m == s,
            self matches ApiError::Unauthorized ==> m@ == "Unauthorized"@,
            self matches ApiError::NotFound ==> m@ == "Not Found"@,
    {
        match self {
            ApiError::InternalServerError => "Internal Server Error".to_owned(),
            ApiError::BadRequest(s) => s.clone(),
            ApiError::Unauthorized => "Unauthorized".to_owned(),
            ApiError::NotFound => "Not Found".to_owned(),
        }
    }
}

} // verus!
