//! In-memory repositories: one verified implementation of each repository
//! trait, suitable as a storage backend in its own right and as a stand-in
//! for a relational store in tests.
//!
//! Rows are kept in creation order, most recent first. A single counter
//! serves as the write stamp: it assigns identifiers and timestamps and
//! advances on every write, which makes identifiers unique and update
//! timestamps strictly increasing.

use vstd::prelude::*;

use crate::entities::{CreateProductDto, CreateUserDto, Product, UpdateProductDto, UpdateUserDto,
    User};
use crate::errors::RepositoryError;
use crate::repository::{lemma_find_index_at, lemma_find_index_none, lemma_find_index_props,
    product_has_id, product_index, product_store_wf, user_has_email, user_has_id, user_index,
    user_store_wf, ProductRepository, UserRepository};

verus! {

/// A user store held entirely in memory.
pub struct InMemoryUserRepository {
    users: Vec<User>,
    clock: u64,
}

impl InMemoryUserRepository {
    /// An empty store whose write stamp starts at zero.
    pub fn new() -> (s: Self)
        ensures
            s.rows() == Seq::<User>::empty(),
            s.stamp() == 0,
            user_store_wf(s.rows(), s.stamp()),
    {
        InMemoryUserRepository { users: Vec::new(), clock: 0 }
    }

    /// Position of the row carrying `id`, if any.
    #[verifier::loop_isolation(false)]
    fn index_of(&self, id: u128) -> (r: Option<usize>)
        ensures
            match r {
                Some(k) => k < self.users@.len() && user_index(self.users@, id) == k as int,
                None => user_index(self.users@, id) == -1,
            },
    {
        let ghost p = user_has_id(id);
        let n = self.users.len();
        let mut i: usize = 0;
        while i < n
            invariant
                i <= n,
                n == self.users@.len(),
                p == user_has_id(id),
                forall|k: int| 0 <= k < i ==> !p(#[trigger] self.users@[k]),
            decreases n - i,
        {
            if self.users[i].id == id {
                proof {
                    assert(p(self.users@[i as int]));
                    lemma_find_index_at(self.users@, p, i as int);
                }
                return Some(i);
            }
            i += 1;
        }
        proof {
            lemma_find_index_none(self.users@, p);
        }
        None
    }
}

impl UserRepository for InMemoryUserRepository {
    closed spec fn rows(&self) -> Seq<User> {
        self.users@
    }

    closed spec fn stamp(&self) -> u64 {
        self.clock
    }

    fn find_by_id(&self, id: u128) -> (r: Result<Option<User>, RepositoryError>) {
        match self.index_of(id) {
            Some(k) => Ok(Some(self.users[k].clone())),
            None => Ok(None),
        }
    }

    #[verifier::loop_isolation(false)]
    fn find_by_email(&self, email: &str) -> (r: Result<Option<User>, RepositoryError>) {
        let ghost p = user_has_email(email@);
        let wanted = email.to_owned();
        let n = self.users.len();
        let mut i: usize = 0;
        while i < n
            invariant
                i <= n,
                n == self.users@.len(),
                p == user_has_email(wanted@),
                forall|k: int| 0 <= k < i ==> !p(#[trigger] self.users@[k]),
            decreases n - i,
        {
            if self.users[i].email == wanted {
                proof {
                    assert(p(self.users@[i as int]));
                    lemma_find_index_at(self.users@, p, i as int);
                }
                return Ok(Some(self.users[i].clone()));
            }
            i += 1;
        }
        proof {
            lemma_find_index_none(self.users@, p);
        }
        Ok(None)
    }

    fn create(&mut self, user: CreateUserDto) -> (r: Result<User, RepositoryError>) {
        let existing = self.find_by_email(user.email.as_str());
        if let Ok(Some(_)) = existing {
            return Err(RepositoryError::DuplicateEntry);
        }
        proof {
            lemma_find_index_props(self.users@, user_has_email(user.email@));
        }
        let stamp = self.clock;
        let created = User {
            id: stamp as u128,
            email: user.email,
            username: user.username,
            password_hash: user.password,
            created_at: stamp,
            updated_at: stamp,
        };
        let stored = created.clone();
        self.users.insert(0, stored);
        self.clock = stamp + 1;
        proof {
            old(self).users@.insert_ensures(0, created);
            let next = self.users@;
            let prev = old(self).users@;
            assert forall|i: int, j: int| 0 <= i < j < next.len() implies {
                &&& (#[trigger] next[i]).created_at > (#[trigger] next[j]).created_at
                &&& next[i].id != next[j].id
                &&& next[i].email@ != next[j].email@
            } by {
                if i == 0 {
                    assert(next[j] == prev[j - 1]);
                } else {
                    assert(next[i] == prev[i - 1]);
                    assert(next[j] == prev[j - 1]);
                }
            }
            assert forall|i: int| 0 <= i < next.len() implies {
                &&& (#[trigger] next[i]).created_at < self.clock
                &&& next[i].updated_at < self.clock
                &&& next[i].id < self.clock as u128
            } by {
                if i > 0 {
                    assert(next[i] == prev[i - 1]);
                }
            }
        }
        Ok(created)
    }

    #[verifier::loop_isolation(false)]
    fn update(&mut self, id: u128, user: UpdateUserDto) -> (r: Result<User, RepositoryError>) {
        let n = self.users.len();
        let k = match self.index_of(id) {
            Some(k) => k,
            None => {
                return Err(RepositoryError::NotFound);
            },
        };
        proof {
            lemma_find_index_props(self.users@, user_has_id(id));
        }
        if let Some(e) = &user.email {
            let mut j: usize = 0;
            while j < n
                invariant
                    j <= n,
                    n == self.users@.len(),
                    k < n,
                    user.email matches Some(em) && em == *e,
                    forall|jj: int|
                        0 <= jj < j && jj != k ==> (#[trigger] self.users@[jj]).email@ != e@,
                decreases n - j,
            {
                if j != k {
                    if self.users[j].email == *e {
                        return Err(
                            RepositoryError::DatabaseError(
                                "duplicate key value violates unique constraint \"users_email_key\"".to_owned(),
                            ),
                        );
                    }
                }
                j += 1;
            }
        }
        let stamp = self.clock;
        let row = &self.users[k];
        let merged = User {
            id: row.id,
            email: match user.email {
                Some(e) => e,
                None => row.email.clone(),
            },
            username: match user.username {
                Some(u2) => u2,
                None => row.username.clone(),
            },
            password_hash: match user.password {
                Some(p2) => p2,
                None => row.password_hash.clone(),
            },
            created_at: row.created_at,
            updated_at: stamp,
        };
        let returned = merged.clone();
        self.users[k] = merged;
        self.clock = stamp + 1;
        proof {
            let next = self.users@;
            let prev = old(self).users@;
            assert forall|i: int, j: int| 0 <= i < j < next.len() implies {
                &&& (#[trigger] next[i]).created_at > (#[trigger] next[j]).created_at
                &&& next[i].id != next[j].id
                &&& next[i].email@ != next[j].email@
            } by {
                assert(prev[i].created_at > prev[j].created_at);
                assert(prev[i].id != prev[j].id);
                assert(prev[i].email@ != prev[j].email@);
            }
            assert forall|i: int| 0 <= i < next.len() implies {
                &&& (#[trigger] next[i]).created_at < self.clock
                &&& next[i].updated_at < self.clock
                &&& next[i].id < self.clock as u128
            } by {
                assert(prev[i].created_at < old(self).clock);
            }
        }
        Ok(returned)
    }

    fn delete(&mut self, id: u128) -> (r: Result<(), RepositoryError>) {
        let k = match self.index_of(id) {
            Some(k) => k,
            None => {
                return Err(RepositoryError::NotFound);
            },
        };
        self.users.remove(k);
        proof {
            old(self).users@.remove_ensures(k as int);
            let next = self.users@;
            let prev = old(self).users@;
            assert forall|i: int, j: int| 0 <= i < j < next.len() implies {
                &&& (#[trigger] next[i]).created_at > (#[trigger] next[j]).created_at
                &&& next[i].id != next[j].id
                &&& next[i].email@ != next[j].email@
            } by {
                let i0 = if i < k { i } else { i + 1 };
                let j0 = if j < k { j } else { j + 1 };
                assert(next[i] == prev[i0]);
                assert(next[j] == prev[j0]);
            }
            assert forall|i: int| 0 <= i < next.len() implies {
                &&& (#[trigger] next[i]).created_at < self.clock
                &&& next[i].updated_at < self.clock
                &&& next[i].id < self.clock as u128
            } by {
                let i0 = if i < k { i } else { i + 1 };
                assert(next[i] == prev[i0]);
            }
        }
        Ok(())
    }

    fn list(&self) -> (r: Result<Vec<User>, RepositoryError>) {
        let v = self.users.clone();
        proof {
            assert forall|i: int| 0 <= i < v@.len() implies v@[i] == self.users@[i] by {
                assert(cloned::<User>(self.users@[i], v@[i]));
            }
            assert(v@ =~= self.users@);
        }
        Ok(v)
    }
}

/// A product store held entirely in memory; see `InMemoryUserRepository`.
pub struct InMemoryProductRepository {
    products: Vec<Product>,
    clock: u64,
}

impl InMemoryProductRepository {
    /// An empty store whose write stamp starts at zero.
    pub fn new() -> (s: Self)
        ensures
            s.rows() == Seq::<Product>::empty(),
            s.stamp() == 0,
            product_store_wf(s.rows(), s.stamp()),
    {
        InMemoryProductRepository { products: Vec::new(), clock: 0 }
    }

    /// Position of the row carrying `id`, if any.
    #[verifier::loop_isolation(false)]
    fn index_of(&self, id: u128) -> (r: Option<usize>)
        ensures
            match r {
                Some(k) => k < self.products@.len() && product_index(self.products@, id)
                    == k as int,
                None => product_index(self.products@, id) == -1,
            },
    {
        let ghost p = product_has_id(id);
        let n = self.products.len();
        let mut i: usize = 0;
        while i < n
            invariant
                i <= n,
                n == self.products@.len(),
                p == product_has_id(id),
                forall|k: int| 0 <= k < i ==> !p(#[trigger] self.products@[k]),
            decreases n - i,
        {
            if self.products[i].id == id {
                proof {
                    assert(p(self.products@[i as int]));
                    lemma_find_index_at(self.products@, p, i as int);
                }
                return Some(i);
            }
            i += 1;
        }
        proof {
            lemma_find_index_none(self.products@, p);
        }
        None
    }
}

impl ProductRepository for InMemoryProductRepository {
    closed spec fn rows(&self) -> Seq<Product> {
        self.products@
    }

    closed spec fn stamp(&self) -> u64 {
        self.clock
    }

    fn find_by_id(&self, id: u128) -> (r: Result<Option<Product>, RepositoryError>) {
        match self.index_of(id) {
            Some(k) => Ok(Some(self.products[k].clone())),
            None => Ok(None),
        }
    }

    fn create(&mut self, product: CreateProductDto) -> (r: Result<Product, RepositoryError>) {
        let stamp = self.clock;
        let created = Product {
            id: stamp as u128,
            name: product.name,
            description: product.description,
            price: product.price,
            stock: product.stock,
            created_at: stamp,
            updated_at: stamp,
        };
        let stored = created.clone();
        self.products.insert(0, stored);
        self.clock = stamp + 1;
        proof {
            old(self).products@.insert_ensures(0, created);
            let next = self.products@;
            let prev = old(self).products@;
            assert forall|i: int, j: int| 0 <= i < j < next.len() implies {
                &&& (#[trigger] next[i]).created_at > (#[trigger] next[j]).created_at
                &&& next[i].id != next[j].id
            } by {
                if i == 0 {
                    assert(next[j] == prev[j - 1]);
                } else {
                    assert(next[i] == prev[i - 1]);
                    assert(next[j] == prev[j - 1]);
                }
            }
            assert forall|i: int| 0 <= i < next.len() implies {
                &&& (#[trigger] next[i]).created_at < self.clock
                &&& next[i].updated_at < self.clock
                &&& next[i].id < self.clock as u128
            } by {
                if i > 0 {
                    assert(next[i] == prev[i - 1]);
                }
            }
        }
        Ok(created)
    }

    fn update(&mut self, id: u128, product: UpdateProductDto) -> (r: Result<
        Product,
        RepositoryError,
    >) {
        let k = match self.index_of(id) {
            Some(k) => k,
            None => {
                return Err(RepositoryError::NotFound);
            },
        };
        proof {
            lemma_find_index_props(self.products@, product_has_id(id));
        }
        let stamp = self.clock;
        let row = &self.products[k];
        let merged = Product {
            id: row.id,
            name: match product.name {
                Some(n2) => n2,
                None => row.name.clone(),
            },
            description: match product.description {
                Some(d2) => d2,
                None => row.description.clone(),
            },
            price: match product.price {
                Some(p2) => p2,
                None => row.price,
            },
            stock: match product.stock {
                Some(s2) => s2,
                None => row.stock,
            },
            created_at: row.created_at,
            updated_at: stamp,
        };
        let returned = merged.clone();
        self.products[k] = merged;
        self.clock = stamp + 1;
        proof {
            let next = self.products@;
            let prev = old(self).products@;
            assert forall|i: int, j: int| 0 <= i < j < next.len() implies {
                &&& (#[trigger] next[i]).created_at > (#[trigger] next[j]).created_at
                &&& next[i].id != next[j].id
            } by {
                assert(prev[i].created_at > prev[j].created_at);
                assert(prev[i].id != prev[j].id);
            }
            assert forall|i: int| 0 <= i < next.len() implies {
                &&& (#[trigger] next[i]).created_at < self.clock
                &&& next[i].updated_at < self.clock
                &&& next[i].id < self.clock as u128
            } by {
                assert(prev[i].created_at < old(self).clock);
            }
        }
        Ok(returned)
    }

    fn delete(&mut self, id: u128) -> (r: Result<(), RepositoryError>) {
        let k = match self.index_of(id) {
            Some(k) => k,
            None => {
                return Err(RepositoryError::NotFound);
            },
        };
        self.products.remove(k);
        proof {
            old(self).products@.remove_ensures(k as int);
            let next = self.products@;
            let prev = old(self).products@;
            assert forall|i: int, j: int| 0 <= i < j < next.len() implies {
                &&& (#[trigger] next[i]).created_at > (#[trigger] next[j]).created_at
                &&& next[i].id != next[j].id
            } by {
                let i0 = if i < k { i } else { i + 1 };
                let j0 = if j < k { j } else { j + 1 };
                assert(next[i] == prev[i0]);
                assert(next[j] == prev[j0]);
            }
            assert forall|i: int| 0 <= i < next.len() implies {
                &&& (#[trigger] next[i]).created_at < self.clock
                &&& next[i].updated_at < self.clock
                &&& next[i].id < self.clock as u128
            } by {
                let i0 = if i < k { i } else { i + 1 };
                assert(next[i] == prev[i0]);
            }
        }
        Ok(())
    }

    fn list(&self) -> (r: Result<Vec<Product>, RepositoryError>) {
        let v = self.products.clone();
        proof {
            assert forall|i: int| 0 <= i < v@.len() implies v@[i] == self.products@[i] by {
                assert(cloned::<Product>(self.products@[i], v@[i]));
            }
            assert(v@ =~= self.products@);
        }
        Ok(v)
    }
}

} // verus!
