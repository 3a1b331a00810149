use crud_service::decimal::Decimal;
use crud_service::entities::{CreateProductDto, UpdateProductDto};
use crud_service::errors::ApplicationError;
use crud_service::memory::InMemoryProductRepository;
use crud_service::product_use_cases::{
    CreateProductUseCase, DeleteProductUseCase, GetProductUseCase, ListProductsUseCase,
    UpdateProductUseCase,
};
use crud_service::use_case::UseCase;

fn dto(name: &str, description: &str, price: Decimal, stock: i32) -> CreateProductDto {
    CreateProductDto {
        name: name.to_string(),
        description: description.to_string(),
        price,
        stock,
    }
}

fn no_change() -> UpdateProductDto {
    UpdateProductDto { name: None, description: None, price: None, stock: None }
}

#[test]
fn create_then_get_returns_created_product() {
    let mut create = CreateProductUseCase::new(InMemoryProductRepository::new());
    let product = create
        .execute(dto("Widget", "d", Decimal::new(999, 2), 5))
        .unwrap();
    assert_eq!(product.name, "Widget");
    assert_eq!(product.description, "d");
    assert_eq!(product.price, Decimal::new(999, 2));
    assert_eq!(product.stock, 5);
    assert_eq!(product.created_at, product.updated_at);

    let mut get = GetProductUseCase::new(create.repository);
    let found = get.execute(product.id).unwrap();
    assert_eq!(found.id, product.id);
    assert_eq!(found.name, product.name);
    assert_eq!(found.description, product.description);
    assert_eq!(found.price, product.price);
    assert_eq!(found.stock, product.stock);
    assert_eq!(found.created_at, product.created_at);
    assert_eq!(found.updated_at, product.updated_at);
}

#[test]
fn create_rejects_negative_price_without_storing() {
    let mut create = CreateProductUseCase::new(InMemoryProductRepository::new());
    let err = create
        .execute(dto("Widget", "d", Decimal::new(-999, 2), 5))
        .unwrap_err();
    assert!(matches!(err, ApplicationError::Validation(ref m) if m == "Price cannot be negative"));

    let mut list = ListProductsUseCase::new(create.repository);
    assert!(list.execute(()).unwrap().is_empty());
}

#[test]
fn create_rejects_negative_stock_without_storing() {
    let mut create = CreateProductUseCase::new(InMemoryProductRepository::new());
    let err = create
        .execute(dto("Widget", "d", Decimal::new(999, 2), -1))
        .unwrap_err();
    assert!(matches!(err, ApplicationError::Validation(ref m) if m == "Stock cannot be negative"));

    let mut list = ListProductsUseCase::new(create.repository);
    assert!(list.execute(()).unwrap().is_empty());
}

#[test]
fn create_rejects_empty_name() {
    let mut create = CreateProductUseCase::new(InMemoryProductRepository::new());
    let err = create
        .execute(dto("", "d", Decimal::new(999, 2), 5))
        .unwrap_err();
    assert!(matches!(err, ApplicationError::Validation(ref m) if m == "Product name is required"));
}

#[test]
fn create_accepts_zero_price_and_zero_stock() {
    let mut create = CreateProductUseCase::new(InMemoryProductRepository::new());
    let product = create
        .execute(dto("Freebie", "free", Decimal::new(0, 0), 0))
        .unwrap();
    assert_eq!(product.price, Decimal::new(0, 0));
    assert_eq!(product.stock, 0);
}

#[test]
fn product_update_keeps_unset_fields() {
    let mut create = CreateProductUseCase::new(InMemoryProductRepository::new());
    let product = create
        .execute(dto("Widget", "d", Decimal::new(999, 2), 5))
        .unwrap();

    let mut update = UpdateProductUseCase::new(create.repository);
    let updated = update
        .execute((product.id, UpdateProductDto { stock: Some(3), ..no_change() }))
        .unwrap();
    assert_eq!(updated.id, product.id);
    assert_eq!(updated.name, "Widget");
    assert_eq!(updated.description, "d");
    assert_eq!(updated.price, Decimal::new(999, 2));
    assert_eq!(updated.stock, 3);
    assert_eq!(updated.created_at, product.created_at);
    assert!(updated.updated_at > product.updated_at);
}

#[test]
fn product_update_all_fields_set() {
    let mut create = CreateProductUseCase::new(InMemoryProductRepository::new());
    let product = create
        .execute(dto("Widget", "d", Decimal::new(999, 2), 5))
        .unwrap();

    let mut update = UpdateProductUseCase::new(create.repository);
    let updated = update
        .execute((
            product.id,
            UpdateProductDto {
                name: Some("Gadget".to_string()),
                description: Some("better".to_string()),
                price: Some(Decimal::new(1099, 2)),
                stock: Some(50),
            },
        ))
        .unwrap();
    assert_eq!(updated.name, "Gadget");
    assert_eq!(updated.description, "better");
    assert_eq!(updated.price, Decimal::new(1099, 2));
    assert_eq!(updated.stock, 50);
    assert!(updated.updated_at > product.updated_at);
}

#[test]
fn product_update_no_fields_set() {
    let mut create = CreateProductUseCase::new(InMemoryProductRepository::new());
    let product = create
        .execute(dto("Widget", "d", Decimal::new(999, 2), 5))
        .unwrap();

    let mut update = UpdateProductUseCase::new(create.repository);
    let updated = update.execute((product.id, no_change())).unwrap();
    assert_eq!(updated.name, product.name);
    assert_eq!(updated.description, product.description);
    assert_eq!(updated.price, product.price);
    assert_eq!(updated.stock, product.stock);
    assert_eq!(updated.created_at, product.created_at);
    assert!(updated.updated_at > product.updated_at);
}

#[test]
fn update_rejects_invalid_present_fields() {
    let mut create = CreateProductUseCase::new(InMemoryProductRepository::new());
    let product = create
        .execute(dto("Widget", "d", Decimal::new(999, 2), 5))
        .unwrap();
    let mut update = UpdateProductUseCase::new(create.repository);

    let err = update
        .execute((product.id, UpdateProductDto { name: Some(String::new()), ..no_change() }))
        .unwrap_err();
    assert!(matches!(err, ApplicationError::Validation(ref m) if m == "Name cannot be empty"));

    let err = update
        .execute((
            product.id,
            UpdateProductDto { description: Some(String::new()), ..no_change() },
        ))
        .unwrap_err();
    assert!(
        matches!(err, ApplicationError::Validation(ref m) if m == "Description cannot be empty")
    );

    let err = update
        .execute((
            product.id,
            UpdateProductDto { price: Some(Decimal::new(-1, 2)), ..no_change() },
        ))
        .unwrap_err();
    assert!(matches!(err, ApplicationError::Validation(ref m) if m == "Price cannot be negative"));

    let err = update
        .execute((product.id, UpdateProductDto { stock: Some(-5), ..no_change() }))
        .unwrap_err();
    assert!(matches!(err, ApplicationError::Validation(ref m) if m == "Stock cannot be negative"));
}

#[test]
fn update_missing_product_is_not_found() {
    let mut update = UpdateProductUseCase::new(InMemoryProductRepository::new());
    let err = update.execute((42, no_change())).unwrap_err();
    assert!(matches!(err, ApplicationError::NotFound));
}

#[test]
fn product_delete_then_get_returns_absence() {
    let mut create = CreateProductUseCase::new(InMemoryProductRepository::new());
    let product = create
        .execute(dto("Widget", "d", Decimal::new(999, 2), 5))
        .unwrap();

    let mut delete = DeleteProductUseCase::new(create.repository);
    delete.execute(product.id).unwrap();

    let mut get = GetProductUseCase::new(delete.repository);
    let err = get.execute(product.id).unwrap_err();
    assert!(matches!(err, ApplicationError::NotFound));
}

#[test]
fn delete_missing_product_is_not_found() {
    let mut delete = DeleteProductUseCase::new(InMemoryProductRepository::new());
    let err = delete.execute(7).unwrap_err();
    assert!(matches!(err, ApplicationError::NotFound));
}

#[test]
fn products_list_most_recent_first() {
    let mut create = CreateProductUseCase::new(InMemoryProductRepository::new());
    create.execute(dto("A", "first", Decimal::new(100, 2), 1)).unwrap();
    create.execute(dto("B", "second", Decimal::new(200, 2), 2)).unwrap();
    create.execute(dto("C", "third", Decimal::new(300, 2), 3)).unwrap();

    let mut list = ListProductsUseCase::new(create.repository);
    let products = list.execute(()).unwrap();
    assert_eq!(products.len(), 3);
    assert_eq!(products[0].name, "C");
    assert_eq!(products[1].name, "B");
    assert_eq!(products[2].name, "A");
    assert!(products[0].created_at > products[1].created_at);
    assert!(products[1].created_at > products[2].created_at);
}
