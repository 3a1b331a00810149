use crud_service::decimal::Decimal;
use crud_service::entities::UpdateProductDto;
use crud_service::errors::{ApplicationError, RepositoryError};
use crud_service::http::{
    ApiError, CreateProductRequest, CreateUserRequest, ProductResponse, ProductsListResponse,
    UpdateProductRequest, UpdateUserRequest, UserResponse, UsersListResponse,
};
use crud_service::memory::{InMemoryProductRepository, InMemoryUserRepository};
use crud_service::product_use_cases::{
    CreateProductUseCase, DeleteProductUseCase, GetProductUseCase, UpdateProductUseCase,
};
use crud_service::use_case::UseCase;
use crud_service::user_use_cases::{CreateUserUseCase, ListUsersUseCase};

/// The full life of one product, as the HTTP handlers drive it: create,
/// read it back, partially update the stock, delete, read again.
#[test]
fn product_end_to_end() {
    // POST /products
    let request = CreateProductRequest {
        name: "Widget".to_string(),
        description: "d".to_string(),
        price: Decimal::new(999, 2),
        stock: 5,
    };
    let mut create = CreateProductUseCase::new(InMemoryProductRepository::new());
    let created = create.execute(request.into_dto()).unwrap();
    let body = ProductResponse::from(created);
    let id = body.id;
    assert_eq!(body.name, "Widget");
    assert_eq!(body.price, Decimal::new(999, 2));
    assert_eq!(body.stock, 5);

    // GET /products/{id} returns the same representation.
    let mut get = GetProductUseCase::new(create.repository);
    let fetched = ProductResponse::from(get.execute(id).unwrap());
    assert_eq!(fetched.id, body.id);
    assert_eq!(fetched.name, body.name);
    assert_eq!(fetched.description, body.description);
    assert_eq!(fetched.price, body.price);
    assert_eq!(fetched.stock, body.stock);
    assert_eq!(fetched.created_at, body.created_at);
    assert_eq!(fetched.updated_at, body.updated_at);

    // PUT /products/{id} with only the stock set.
    let put = UpdateProductRequest { name: None, description: None, price: None, stock: Some(3) };
    let mut update = UpdateProductUseCase::new(get.repository);
    let updated = ProductResponse::from(update.execute((id, put.into_dto())).unwrap());
    assert_eq!(updated.stock, 3);
    assert_eq!(updated.name, body.name);
    assert_eq!(updated.description, body.description);
    assert_eq!(updated.price, body.price);
    assert_eq!(updated.created_at, body.created_at);

    // DELETE /products/{id}.
    let mut delete = DeleteProductUseCase::new(update.repository);
    delete.execute(id).unwrap();

    // Subsequent GET maps to 404.
    let mut get_again = GetProductUseCase::new(delete.repository);
    let err = get_again.execute(id).unwrap_err();
    let api = ApiError::from(err);
    assert_eq!(api.status_code(), 404);
    assert_eq!(api.message(), "Not Found");
}

#[test]
fn api_error_mapping_is_fixed() {
    let api = ApiError::from(ApplicationError::Validation("Price cannot be negative".to_string()));
    assert_eq!(api.status_code(), 400);
    assert_eq!(api.message(), "Price cannot be negative");

    let api = ApiError::from(ApplicationError::NotFound);
    assert_eq!(api.status_code(), 404);
    assert_eq!(api.message(), "Not Found");

    let api = ApiError::from(ApplicationError::Unauthorized);
    assert_eq!(api.status_code(), 401);
    assert_eq!(api.message(), "Unauthorized");

    let api = ApiError::from(ApplicationError::Repository(RepositoryError::DatabaseError(
        "connection reset".to_string(),
    )));
    assert_eq!(api.status_code(), 500);
    assert_eq!(api.message(), "Internal Server Error");

    let api = ApiError::from(ApplicationError::Repository(RepositoryError::NotFound));
    assert_eq!(api.status_code(), 500);

    let api = ApiError::from(ApplicationError::Repository(RepositoryError::DuplicateEntry));
    assert_eq!(api.status_code(), 500);
}

#[test]
fn user_response_drops_the_password_hash_and_list_counts() {
    let mut create = CreateUserUseCase::new(InMemoryUserRepository::new());
    create
        .execute(
            CreateUserRequest {
                email: "john.doe@example.com".to_string(),
                username: "johndoe".to_string(),
                password: "password123".to_string(),
            }
            .into_dto(),
        )
        .unwrap();
    create
        .execute(
            CreateUserRequest {
                email: "jane@example.com".to_string(),
                username: "jane".to_string(),
                password: "secret".to_string(),
            }
            .into_dto(),
        )
        .unwrap();

    let mut list = ListUsersUseCase::new(create.repository);
    let body = UsersListResponse::from(list.execute(()).unwrap());
    assert_eq!(body.total, 2);
    assert_eq!(body.users.len(), 2);
    assert_eq!(body.users[0].username, "jane");
    assert_eq!(body.users[1].username, "johndoe");
}

#[test]
fn single_user_response_projects_all_wire_fields() {
    let mut create = CreateUserUseCase::new(InMemoryUserRepository::new());
    let user = create
        .execute(
            CreateUserRequest {
                email: "john.doe@example.com".to_string(),
                username: "johndoe".to_string(),
                password: "password123".to_string(),
            }
            .into_dto(),
        )
        .unwrap();
    let id = user.id;
    let created_at = user.created_at;
    let updated_at = user.updated_at;
    let body = UserResponse::from(user);
    assert_eq!(body.id, id);
    assert_eq!(body.email, "john.doe@example.com");
    assert_eq!(body.username, "johndoe");
    assert_eq!(body.created_at, created_at);
    assert_eq!(body.updated_at, updated_at);
}

#[test]
fn products_list_response_counts_and_projects() {
    let mut create = CreateProductUseCase::new(InMemoryProductRepository::new());
    create
        .execute(
            CreateProductRequest {
                name: "Widget".to_string(),
                description: "d".to_string(),
                price: Decimal::new(999, 2),
                stock: 5,
            }
            .into_dto(),
        )
        .unwrap();

    let mut list = crud_service::product_use_cases::ListProductsUseCase::new(create.repository);
    let body = ProductsListResponse::from(list.execute(()).unwrap());
    assert_eq!(body.total, 1);
    assert_eq!(body.products.len(), 1);
    assert_eq!(body.products[0].name, "Widget");
    assert_eq!(body.products[0].price, Decimal::new(999, 2));
}

#[test]
fn requests_copy_field_for_field_into_dtos() {
    let d = CreateUserRequest {
        email: "a@example.com".to_string(),
        username: "a".to_string(),
        password: "pw".to_string(),
    }
    .into_dto();
    assert_eq!(d.email, "a@example.com");
    assert_eq!(d.username, "a");
    assert_eq!(d.password, "pw");

    let d = UpdateUserRequest {
        email: Some("b@example.com".to_string()),
        username: None,
        password: Some("pw2".to_string()),
    }
    .into_dto();
    assert_eq!(d.email.as_deref(), Some("b@example.com"));
    assert!(d.username.is_none());
    assert_eq!(d.password.as_deref(), Some("pw2"));

    let d = CreateProductRequest {
        name: "Widget".to_string(),
        description: "d".to_string(),
        price: Decimal::new(999, 2),
        stock: 5,
    }
    .into_dto();
    assert_eq!(d.name, "Widget");
    assert_eq!(d.description, "d");
    assert_eq!(d.price, Decimal::new(999, 2));
    assert_eq!(d.stock, 5);

    let d: UpdateProductDto = UpdateProductRequest {
        name: None,
        description: Some("e".to_string()),
        price: Some(Decimal::new(1, 0)),
        stock: None,
    }
    .into_dto();
    assert!(d.name.is_none());
    assert_eq!(d.description.as_deref(), Some("e"));
    assert_eq!(d.price, Some(Decimal::new(1, 0)));
    assert!(d.stock.is_none());
}
