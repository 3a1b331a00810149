//! Use cases for the user resource: one stateless validate-then-delegate
//! pipeline per operation, each wrapping exactly one repository.

use vstd::prelude::*;

use crate::entities::{some_empty, CreateUserDto, UpdateUserDto, User};
use crate::errors::{ApplicationError, RepositoryError};
use crate::repository::{email_taken, find_user, user_created, user_index, user_store_wf,
    user_update_email_conflict, user_updated, UserRepository};
use crate::use_case::UseCase;

verus! {

/// Input validation for creating a user, pure and run before any storage
/// call: email, username and password must all be non-empty.
pub fn validate_create_user(input: &CreateUserDto) -> (r: Result<(), ApplicationError>)
    ensures
        (input.email@.len() == 0 || input.username@.len() == 0 || input.password@.len() == 0) ==> (
        r matches Err(ApplicationError::Validation(m)) && m@
            == "Email, username and password are required"@),
        !(input.email@.len() == 0 || input.username@.len() == 0 || input.password@.len() == 0)
            ==> r is Ok,
{
    if input.email.as_str().is_empty() || input.username.as_str().is_empty()
        || input.password.as_str().is_empty() {
        Err(ApplicationError::Validation("Email, username and password are required".to_owned()))
    } else {
        Ok(())
    }
}

/// Input validation for partially updating a user: every present field
/// must be non-empty, checked in field order.
pub fn validate_update_user(input: &UpdateUserDto) -> (r: Result<(), ApplicationError>)
    ensures
        some_empty(input.email) ==> (r matches Err(ApplicationError::Validation(m)) && m@
            == "Email cannot be empty"@),
        !some_empty(input.email) && some_empty(input.username) ==> (r matches Err(
            ApplicationError::Validation(m),
        ) && m@ == "Username cannot be empty"@),
        !some_empty(input.email) && !some_empty(input.username) && some_empty(input.password) ==> (
        r matches Err(ApplicationError::Validation(m)) && m@ == "Password cannot be empty"@),
        !some_empty(input.email) && !some_empty(input.username) && !some_empty(input.password)
            ==> r is Ok,
{
    if let Some(email) = &input.email {
        if email.as_str().is_empty() {
            return Err(ApplicationError::Validation("Email cannot be empty".to_owned()));
        }
    }
    if let Some(username) = &input.username {
        if username.as_str().is_empty() {
            return Err(ApplicationError::Validation("Username cannot be empty".to_owned()));
        }
    }
    if let Some(password) = &input.password {
        if password.as_str().is_empty() {
            return Err(ApplicationError::Validation("Password cannot be empty".to_owned()));
        }
    }
    Ok(())
}

/// Creates a user after checking that no field is empty and that the email
/// is not already taken.
pub struct CreateUserUseCase<R: UserRepository> {
    pub repository: R,
}

impl<R: UserRepository> CreateUserUseCase<R> {
    pub fn new(repository: R) -> (s: Self)
        ensures
            s.repository == repository,
    {
        CreateUserUseCase { repository }
    }
}

impl<R: UserRepository> UseCase<CreateUserDto, User, ApplicationError> for CreateUserUseCase<R> {
    open spec fn pre(&self, input: CreateUserDto) -> bool {
        &&& user_store_wf(self.repository.rows(), self.repository.stamp())
        &&& self.repository.stamp() < u64::MAX
    }

    open spec fn post(
        &self,
        next: Self,
        input: CreateUserDto,
        r: Result<User, ApplicationError>,
    ) -> bool {
        let rows = self.repository.rows();
        &&& user_store_wf(next.repository.rows(), next.repository.stamp())
        &&& if input.email@.len() == 0 || input.username@.len() == 0 || input.password@.len()
            == 0 {
            &&& (r matches Err(ApplicationError::Validation(m)) && m@
                == "Email, username and password are required"@)
            &&& next == *self
        } else if email_taken(rows, input.email@) {
            &&& (r matches Err(ApplicationError::Validation(m)) && m@
                == "User with this email already exists"@)
            &&& next == *self
        } else {
            r matches Ok(u) && user_created(rows, input, u, next.repository.rows())
        }
    }

    fn execute(&mut self, input: CreateUserDto) -> (r: Result<User, ApplicationError>) {
        if let Err(e) = validate_create_user(&input) {
            return Err(e);
        }
        if let Ok(Some(_)) = self.repository.find_by_email(input.email.as_str()) {
            return Err(
                ApplicationError::Validation("User with this email already exists".to_owned()),
            );
        }
        match self.repository.create(input) {
            Ok(user) => Ok(user),
            Err(e) => Err(ApplicationError::Repository(e)),
        }
    }
}

/// Fetches a user by identifier.
pub struct GetUserUseCase<R: UserRepository> {
    pub repository: R,
}

impl<R: UserRepository> GetUserUseCase<R> {
    pub fn new(repository: R) -> (s: Self)
        ensures
            s.repository == repository,
    {
        GetUserUseCase { repository }
    }
}

impl<R: UserRepository> UseCase<u128, User, ApplicationError> for GetUserUseCase<R> {
    open spec fn pre(&self, input: u128) -> bool {
        user_store_wf(self.repository.rows(), self.repository.stamp())
    }

    open spec fn post(&self, next: Self, input: u128, r: Result<User, ApplicationError>) -> bool {
        &&& next == *self
        &&& match find_user(self.repository.rows(), input) {
            Some(u) => r matches Ok(found) && found == u,
            None => r matches Err(ApplicationError::NotFound),
        }
    }

    fn execute(&mut self, input: u128) -> (r: Result<User, ApplicationError>) {
        match self.repository.find_by_id(input) {
            Ok(Some(user)) => Ok(user),
            Ok(None) => Err(ApplicationError::NotFound),
            Err(e) => Err(ApplicationError::Repository(e)),
        }
    }
}

/// Applies a partial update to a user after checking that no present field
/// is empty and that the user exists.
pub struct UpdateUserUseCase<R: UserRepository> {
    pub repository: R,
}

impl<R: UserRepository> UpdateUserUseCase<R> {
    pub fn new(repository: R) -> (s: Self)
        ensures
            s.repository == repository,
    {
        UpdateUserUseCase { repository }
    }
}

impl<R: UserRepository> UseCase<(u128, UpdateUserDto), User, ApplicationError> for UpdateUserUseCase<
    R,
> {
    open spec fn pre(&self, input: (u128, UpdateUserDto)) -> bool {
        &&& user_store_wf(self.repository.rows(), self.repository.stamp())
        &&& self.repository.stamp() < u64::MAX
    }

    open spec fn post(
        &self,
        next: Self,
        input: (u128, UpdateUserDto),
        r: Result<User, ApplicationError>,
    ) -> bool {
        let id = input.0;
        let dto = input.1;
        let rows = self.repository.rows();
        &&& user_store_wf(next.repository.rows(), next.repository.stamp())
        &&& if dto.email matches Some(e) && e@.len() == 0 {
            &&& (r matches Err(ApplicationError::Validation(m)) && m@ == "Email cannot be empty"@)
            &&& next == *self
        } else if dto.username matches Some(n) && n@.len() == 0 {
            &&& (r matches Err(ApplicationError::Validation(m)) && m@
                == "Username cannot be empty"@)
            &&& next == *self
        } else if dto.password matches Some(p) && p@.len() == 0 {
            &&& (r matches Err(ApplicationError::Validation(m)) && m@
                == "Password cannot be empty"@)
            &&& next == *self
        } else if find_user(rows, id) is None {
            &&& (r matches Err(ApplicationError::NotFound))
            &&& next == *self
        } else if user_update_email_conflict(rows, user_index(rows, id), dto) {
            &&& (r matches Err(ApplicationError::Repository(RepositoryError::DatabaseError(_))))
            &&& next == *self
        } else {
            r matches Ok(u) && user_updated(rows, id, dto, u, next.repository.rows())
        }
    }

    fn execute(&mut self, input: (u128, UpdateUserDto)) -> (r: Result<User, ApplicationError>) {
        let (id, update_dto) = input;

        if let Err(e) = validate_update_user(&update_dto) {
            return Err(e);
        }

        match self.repository.find_by_id(id) {
            Ok(None) => {
                return Err(ApplicationError::NotFound);
            },
            Ok(Some(_)) => {},
            Err(e) => {
                return Err(ApplicationError::Repository(e));
            },
        }

        match self.repository.update(id, update_dto) {
            Ok(user) => Ok(user),
            Err(e) => Err(ApplicationError::Repository(e)),
        }
    }
}

/// Deletes a user by identifier after checking that it exists.
pub struct DeleteUserUseCase<R: UserRepository> {
    pub repository: R,
}

impl<R: UserRepository> DeleteUserUseCase<R> {
    pub fn new(repository: R) -> (s: Self)
        ensures
            s.repository == repository,
    {
        DeleteUserUseCase { repository }
    }
}

impl<R: UserRepository> UseCase<u128, (), ApplicationError> for DeleteUserUseCase<R> {
    open spec fn pre(&self, input: u128) -> bool {
        user_store_wf(self.repository.rows(), self.repository.stamp())
    }

    open spec fn post(&self, next: Self, input: u128, r: Result<(), ApplicationError>) -> bool {
        let rows = self.repository.rows();
        &&& user_store_wf(next.repository.rows(), next.repository.stamp())
        &&& if find_user(rows, input) is None {
            &&& (r matches Err(ApplicationError::NotFound))
            &&& next == *self
        } else {
            &&& r is Ok
            &&& next.repository.rows() == rows.remove(user_index(rows, input))
        }
    }

    fn execute(&mut self, input: u128) -> (r: Result<(), ApplicationError>) {
        match self.repository.find_by_id(input) {
            Ok(None) => {
                return Err(ApplicationError::NotFound);
            },
            Ok(Some(_)) => {},
            Err(e) => {
                return Err(ApplicationError::Repository(e));
            },
        }

        match self.repository.delete(input) {
            Ok(_) => Ok(()),
            Err(e) => Err(ApplicationError::Repository(e)),
        }
    }
}

/// Lists all users, most recently created first.
pub struct ListUsersUseCase<R: UserRepository> {
    pub repository: R,
}

impl<R: UserRepository> ListUsersUseCase<R> {
    pub fn new(repository: R) -> (s: Self)
        ensures
            s.repository == repository,
    {
        ListUsersUseCase { repository }
    }
}

impl<R: UserRepository> UseCase<(), Vec<User>, ApplicationError> for ListUsersUseCase<R> {
    open spec fn pre(&self, input: ()) -> bool {
        user_store_wf(self.repository.rows(), self.repository.stamp())
    }

    open spec fn post(&self, next: Self, input: (), r: Result<Vec<User>, ApplicationError>) -> bool {
        &&& next == *self
        &&& (r matches Ok(users) && users@ == self.repository.rows())
    }

    fn execute(&mut self, input: ()) -> (r: Result<Vec<User>, ApplicationError>) {
        match self.repository.list() {
            Ok(users) => Ok(users),
            Err(e) => Err(ApplicationError::Repository(e)),
        }
    }
}

} // verus!
