//! Dependency injection by the cake pattern: each layer provides the layer
//! below it, and one module value provides them all.
use vstd::prelude::*;

verus! {

#[derive(Debug, PartialEq)]
pub struct User {
    pub id: String,
    pub effective: bool,
}

/// Why a user could not be looked up.
#[derive(Debug, PartialEq)]
pub enum LookupError {
    Unavailable(String),
}

/// The user that the database layer answers with.
pub open spec fn stored_user(u: User) -> bool {
    u.id@ == "id-a"@ && u.effective
}

/// A database backend.
pub trait Database {}

/// The database operations a layer relies on.
pub trait UsesDatabase {
    fn find_user(&self, id: String) -> (r: Result<Option<User>, LookupError>)
        ensures
            r matches Ok(Some(u)) && stored_user(u),
    ;
}

impl<T: Database> UsesDatabase for T {
    fn find_user(&self, id: String) -> (r: Result<Option<User>, LookupError>) {
        Ok(Some(User { id: "id-a".to_string(), effective: true }))
    }
}

pub trait ProvidesDatabase {
    type T: UsesDatabase;

    fn database(&self) -> &Self::T;
}

/// The user repository, built on a provided database.
pub trait UserRepository: ProvidesDatabase {}

pub trait UsesUserRepository {
    fn find_user(&self, id: String) -> (r: Result<Option<User>, LookupError>)
        ensures
            r matches Ok(Some(u)) && stored_user(u),
    ;
}

impl<T: UserRepository> UsesUserRepository for T {
    fn find_user(&self, id: String) -> (r: Result<Option<User>, LookupError>) {
        UsesDatabase::find_user(self.database(), id)
    }
}

pub trait ProvidesUserRepository {
    type T: UsesUserRepository;

    fn user_repository(&self) -> &Self::T;
}

/// The user service, built on a provided repository.
pub trait UserService: ProvidesUserRepository {}

pub trait UsesUserService {
    fn find_user(&self, id: String) -> (r: Result<Option<User>, LookupError>)
        ensures
            r matches Ok(Some(u)) && stored_user(u),
    ;
}

impl<T: UserService> UsesUserService for T {
    fn find_user(&self, id: String) -> (r: Result<Option<User>, LookupError>) {
        UsesUserRepository::find_user(self.user_repository(), id)
    }
}

pub trait ProvidesUserService {
    type T: UsesUserService;

    fn user_service(&self) -> &Self::T;
}

/// The application module: every layer at once.
#[derive(Debug, PartialEq)]
pub struct AppModule;

impl AppModule {
    pub fn new() -> (r: AppModule) {
        AppModule
    }
}

impl Database for AppModule {}

impl UserRepository for AppModule {}

impl UserService for AppModule {}

impl ProvidesDatabase for AppModule {
    type T = Self;

    fn database(&self) -> &Self::T {
        self
    }
}

impl ProvidesUserRepository for AppModule {
    type T = Self;

    fn user_repository(&self) -> &Self::T {
        self
    }
}

impl ProvidesUserService for AppModule {
    type T = Self;

    fn user_service(&self) -> &Self::T {
        self
    }
}

/// The reply to a user lookup over HTTP.
#[derive(Debug, PartialEq)]
pub enum UserReply {
    /// 200, with the user as JSON.
    Found(User),
    /// 404.
    NotFound,
    /// 500.
    Failed,
}

impl UserReply {
    pub fn status(&self) -> (r: u16)
        ensures
            r == match self {
                UserReply::Found(_) => 200u16,
                UserReply::NotFound => 404u16,
                UserReply::Failed => 500u16,
            },
    {
        match self {
            UserReply::Found(_) => 200,
            UserReply::NotFound => 404,
            UserReply::Failed => 500,
        }
    }
}

/// Looks a user up through the service layer of the module.
pub fn find_user(id: String, app_module: &AppModule) -> (r: UserReply)
    ensures
        r matches UserReply::Found(u) && stored_user(u),
{
    match UsesUserService::find_user(app_module.user_service(), id) {
        Ok(Some(user)) => UserReply::Found(user),
        Ok(None) => UserReply::NotFound,
        Err(_) => UserReply::Failed,
    }
}

} // verus!
