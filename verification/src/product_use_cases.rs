//! Use cases for the product resource: one stateless validate-then-delegate
//! pipeline per operation, each wrapping exactly one repository.

use vstd::prelude::*;

use crate::entities::{some_empty, some_neg_price, some_neg_stock, CreateProductDto, Product,
    UpdateProductDto};
use crate::errors::ApplicationError;
use crate::repository::{find_product, product_created, product_index, product_store_wf,
    product_updated, ProductRepository};
use crate::use_case::UseCase;

verus! {

/// Input validation for creating a product, pure and run before any
/// storage call: the name must be present, price and stock non-negative.
pub fn validate_create_product(input: &CreateProductDto) -> (r: Result<(), ApplicationError>)
    ensures
        input.name@.len() == 0 ==> (r matches Err(ApplicationError::Validation(m)) && m@
            == "Product name is required"@),
        input.name@.len() != 0 && input.price.is_neg() ==> (r matches Err(
            ApplicationError::Validation(m),
        ) && m@ == "Price cannot be negative"@),
        input.name@.len() != 0 && !input.price.is_neg() && input.stock < 0 ==> (r matches Err(
            ApplicationError::Validation(m),
        ) && m@ == "Stock cannot be negative"@),
        input.name@.len() != 0 && !input.price.is_neg() && input.stock >= 0 ==> r is Ok,
{
    if input.name.as_str().is_empty() {
        Err(ApplicationError::Validation("Product name is required".to_owned()))
    } else if input.price.is_negative() {
        Err(ApplicationError::Validation("Price cannot be negative".to_owned()))
    } else if input.stock < 0 {
        Err(ApplicationError::Validation("Stock cannot be negative".to_owned()))
    } else {
        Ok(())
    }
}

/// Input validation for partially updating a product: present text fields
/// must be non-empty and present quantities non-negative, checked in field
/// order.
pub fn validate_update_product(input: &UpdateProductDto) -> (r: Result<(), ApplicationError>)
    ensures
        some_empty(input.name) ==> (r matches Err(ApplicationError::Validation(m)) && m@
            == "Name cannot be empty"@),
        !some_empty(input.name) && some_empty(input.description) ==> (r matches Err(
            ApplicationError::Validation(m),
        ) && m@ == "Description cannot be empty"@),
        !some_empty(input.name) && !some_empty(input.description) && some_neg_price(input.price)
            ==> (r matches Err(ApplicationError::Validation(m)) && m@
            == "Price cannot be negative"@),
        !some_empty(input.name) && !some_empty(input.description) && !some_neg_price(input.price)
            && some_neg_stock(input.stock) ==> (r matches Err(ApplicationError::Validation(m))
            && m@ == "Stock cannot be negative"@),
        !some_empty(input.name) && !some_empty(input.description) && !some_neg_price(input.price)
            && !some_neg_stock(input.stock) ==> r is Ok,
{
    if let Some(name) = &input.name {
        if name.as_str().is_empty() {
            return Err(ApplicationError::Validation("Name cannot be empty".to_owned()));
        }
    }
    if let Some(description) = &input.description {
        if description.as_str().is_empty() {
            return Err(ApplicationError::Validation("Description cannot be empty".to_owned()));
        }
    }
    if let Some(price) = &input.price {
        if price.is_negative() {
            return Err(ApplicationError::Validation("Price cannot be negative".to_owned()));
        }
    }
    if let Some(stock) = &input.stock {
        if *stock < 0 {
            return Err(ApplicationError::Validation("Stock cannot be negative".to_owned()));
        }
    }
    Ok(())
}

/// Creates a product after checking that the name is present and that
/// price and stock are non-negative; the checks run before any storage
/// call, never delegated to the store.
pub struct CreateProductUseCase<R: ProductRepository> {
    pub repository: R,
}

impl<R: ProductRepository> CreateProductUseCase<R> {
    pub fn new(repository: R) -> (s: Self)
        ensures
            s.repository == repository,
    {
        CreateProductUseCase { repository }
    }
}

impl<R: ProductRepository> UseCase<CreateProductDto, Product, ApplicationError> for CreateProductUseCase<
    R,
> {
    open spec fn pre(&self, input: CreateProductDto) -> bool {
        &&& product_store_wf(self.repository.rows(), self.repository.stamp())
        &&& self.repository.stamp() < u64::MAX
    }

    open spec fn post(
        &self,
        next: Self,
        input: CreateProductDto,
        r: Result<Product, ApplicationError>,
    ) -> bool {
        let rows = self.repository.rows();
        &&& product_store_wf(next.repository.rows(), next.repository.stamp())
        &&& if input.name@.len() == 0 {
            &&& (r matches Err(ApplicationError::Validation(m)) && m@
                == "Product name is required"@)
            &&& next == *self
        } else if input.price.is_neg() {
            &&& (r matches Err(ApplicationError::Validation(m)) && m@
                == "Price cannot be negative"@)
            &&& next == *self
        } else if input.stock < 0 {
            &&& (r matches Err(ApplicationError::Validation(m)) && m@
                == "Stock cannot be negative"@)
            &&& next == *self
        } else {
            r matches Ok(p) && product_created(rows, input, p, next.repository.rows())
        }
    }

    fn execute(&mut self, input: CreateProductDto) -> (r: Result<Product, ApplicationError>) {
        if let Err(e) = validate_create_product(&input) {
            return Err(e);
        }
        match self.repository.create(input) {
            Ok(product) => Ok(product),
            Err(e) => Err(ApplicationError::Repository(e)),
        }
    }
}

/// Fetches a product by identifier.
pub struct GetProductUseCase<R: ProductRepository> {
    pub repository: R,
}

impl<R: ProductRepository> GetProductUseCase<R> {
    pub fn new(repository: R) -> (s: Self)
        ensures
            s.repository == repository,
    {
        GetProductUseCase { repository }
    }
}

impl<R: ProductRepository> UseCase<u128, Product, ApplicationError> for GetProductUseCase<R> {
    open spec fn pre(&self, input: u128) -> bool {
        product_store_wf(self.repository.rows(), self.repository.stamp())
    }

    open spec fn post(&self, next: Self, input: u128, r: Result<Product, ApplicationError>) -> bool {
        &&& next == *self
        &&& match find_product(self.repository.rows(), input) {
            Some(p) => r matches Ok(found) && found == p,
            None => r matches Err(ApplicationError::NotFound),
        }
    }

    fn execute(&mut self, input: u128) -> (r: Result<Product, ApplicationError>) {
        match self.repository.find_by_id(input) {
            Ok(Some(product)) => Ok(product),
            Ok(None) => Err(ApplicationError::NotFound),
            Err(e) => Err(ApplicationError::Repository(e)),
        }
    }
}

/// Applies a partial update to a product after checking that present text
/// fields are non-empty, that present quantities are non-negative, and
/// that the product exists.
pub struct UpdateProductUseCase<R: ProductRepository> {
    pub repository: R,
}

impl<R: ProductRepository> UpdateProductUseCase<R> {
    pub fn new(repository: R) -> (s: Self)
        ensures
            s.repository == repository,
    {
        UpdateProductUseCase { repository }
    }
}

impl<R: ProductRepository> UseCase<(u128, UpdateProductDto), Product, ApplicationError> for UpdateProductUseCase<
    R,
> {
    open spec fn pre(&self, input: (u128, UpdateProductDto)) -> bool {
        &&& product_store_wf(self.repository.rows(), self.repository.stamp())
        &&& self.repository.stamp() < u64::MAX
    }

    open spec fn post(
        &self,
        next: Self,
        input: (u128, UpdateProductDto),
        r: Result<Product, ApplicationError>,
    ) -> bool {
        let id = input.0;
        let dto = input.1;
        let rows = self.repository.rows();
        &&& product_store_wf(next.repository.rows(), next.repository.stamp())
        &&& if dto.name matches Some(n) && n@.len() == 0 {
            &&& (r matches Err(ApplicationError::Validation(m)) && m@ == "Name cannot be empty"@)
            &&& next == *self
        } else if dto.description matches Some(d) && d@.len() == 0 {
            &&& (r matches Err(ApplicationError::Validation(m)) && m@
                == "Description cannot be empty"@)
            &&& next == *self
        } else if dto.price matches Some(p) && p.is_neg() {
            &&& (r matches Err(ApplicationError::Validation(m)) && m@
                == "Price cannot be negative"@)
            &&& next == *self
        } else if dto.stock matches Some(s) && s < 0 {
            &&& (r matches Err(ApplicationError::Validation(m)) && m@
                == "Stock cannot be negative"@)
            &&& next == *self
        } else if find_product(rows, id) is None {
            &&& (r matches Err(ApplicationError::NotFound))
            &&& next == *self
        } else {
            r matches Ok(p) && product_updated(rows, id, dto, p, next.repository.rows())
        }
    }

    fn execute(&mut self, input: (u128, UpdateProductDto)) -> (r: Result<Product, ApplicationError>) {
        let (id, update_dto) = input;

        if let Err(e) = validate_update_product(&update_dto) {
            return Err(e);
        }

        match self.repository.find_by_id(id) {
            Ok(None) => {
                return Err(ApplicationError::NotFound);
            },
            Ok(Some(_)) => {},
            Err(e) => {
                return Err(ApplicationError::Repository(e));
            },
        }

        match self.repository.update(id, update_dto) {
            Ok(product) => Ok(product),
            Err(e) => Err(ApplicationError::Repository(e)),
        }
    }
}

/// Deletes a product by identifier after checking that it exists.
pub struct DeleteProductUseCase<R: ProductRepository> {
    pub repository: R,
}

impl<R: ProductRepository> DeleteProductUseCase<R> {
    pub fn new(repository: R) -> (s: Self)
        ensures
            s.repository == repository,
    {
        DeleteProductUseCase { repository }
    }
}

impl<R: ProductRepository> UseCase<u128, (), ApplicationError> for DeleteProductUseCase<R> {
    open spec fn pre(&self, input: u128) -> bool {
        product_store_wf(self.repository.rows(), self.repository.stamp())
    }

    open spec fn post(&self, next: Self, input: u128, r: Result<(), ApplicationError>) -> bool {
        let rows = self.repository.rows();
        &&& product_store_wf(next.repository.rows(), next.repository.stamp())
        &&& if find_product(rows, input) is None {
            &&& (r matches Err(ApplicationError::NotFound))
            &&& next == *self
        } else {
            &&& r is Ok
            &&& next.repository.rows() == rows.remove(product_index(rows, input))
        }
    }

    fn execute(&mut self, input: u128) -> (r: Result<(), ApplicationError>) {
        match self.repository.find_by_id(input) {
            Ok(None) => {
                return Err(ApplicationError::NotFound);
            },
            Ok(Some(_)) => {},
            Err(e) => {
                return Err(ApplicationError::Repository(e));
            },
        }

        match self.repository.delete(input) {
            Ok(_) => Ok(()),
            Err(e) => Err(ApplicationError::Repository(e)),
        }
    }
}

/// Lists all products, most recently created first.
pub struct ListProductsUseCase<R: ProductRepository> {
    pub repository: R,
}

impl<R: ProductRepository> ListProductsUseCase<R> {
    pub fn new(repository: R) -> (s: Self)
        ensures
            s.repository == repository,
    {
        ListProductsUseCase { repository }
    }
}

impl<R: ProductRepository> UseCase<(), Vec<Product>, ApplicationError> for ListProductsUseCase<R> {
    open spec fn pre(&self, input: ()) -> bool {
        product_store_wf(self.repository.rows(), self.repository.stamp())
    }

    open spec fn post(&self, next: Self, input: (), r: Result<
        Vec<Product>,
        ApplicationError,
    >) -> bool {
        &&& next == *self
        &&& (r matches Ok(products) && products@ == self.repository.rows())
    }

    fn execute(&mut self, input: ()) -> (r: Result<Vec<Product>, ApplicationError>) {
        match self.repository.list() {
            Ok(products) => Ok(products),
            Err(e) => Err(ApplicationError::Repository(e)),
        }
    }
}

} // verus!
