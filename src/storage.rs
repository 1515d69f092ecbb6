//! The record storage that the conversation steps of the bot work on: its
//! errors and the interfaces a storage engine provides.
use vstd::prelude::*;

use crate::record::{Record, RecordId};

verus! {

/// anyhow's error type, carried through opaquely.
#[verifier::external_type_specification]
#[verifier::external_body]
pub struct ExAnyhowError(anyhow::Error);

/// No record has the identifier asked for.
#[derive(Debug, Clone, Copy, PartialEq, Eq, Structural)]
pub struct RecordDoesntExist;

/// A record with the identifier given exists already.
#[derive(Debug, Clone, Copy, PartialEq, Eq, Structural)]
pub struct RecordAlreadyExist;

/// Why a record could not be updated or deleted.
#[derive(Debug)]
pub enum UpdateRecordError {
    RecordDoesntExist,
    UnxpectedError(anyhow::Error),
}

/// Why a record could not be added.
#[derive(Debug)]
pub enum AddRecordError {
    RecordDoesntExist,
    UnxpectedError(anyhow::Error),
}

/// Why a repository could not be opened.
#[derive(Debug)]
pub enum RepositoryOpenError {
    WrongPassword,
    DoesntExist,
    OpenError(anyhow::Error),
}

/// The user has a repository already.
#[derive(Debug, Clone, Copy, PartialEq, Eq, Structural)]
pub struct RepositoryAlreadyExist;

/// Why the repository of a user could not be had.
#[derive(Debug, Clone, Copy, PartialEq, Eq, Structural)]
pub enum GetReposityError {
    WrongPassword,
    UnexpectedError,
}

/// Why a repository could not be loaded from a backup.
#[derive(Debug)]
pub enum RepositoryLoadError {
    WrongPassword,
    OpenError(anyhow::Error),
    UnexpectedError(anyhow::Error),
}

/// An open repository of records.
pub trait RecordsRepository: Clone {
    /// Drops the changes made since the last save.
    fn cancel(&mut self) -> Result<(), anyhow::Error>;

    /// Makes the changes durable.
    fn save(&mut self) -> Result<(), anyhow::Error>;

    fn get_records(&self) -> Result<Vec<&Record>, anyhow::Error>;

    fn get(&mut self, record_id: &RecordId) -> Result<Option<&Record>, anyhow::Error>;

    fn update(&mut self, record: Record) -> Result<(), UpdateRecordError>;

    fn delete(&mut self, record_id: &RecordId) -> Result<(), UpdateRecordError>;

    fn add_record(&mut self, record: Record) -> Result<(), AddRecordError>;

    /// The repository as bytes, for a backup.
    fn dump(&self) -> Result<Vec<u8>, anyhow::Error>;
}

/// A repository that is still locked by its password.
pub trait OpenRepository<T: RecordsRepository> {
    fn open(self, passwd: String) -> Result<T, RepositoryOpenError>;
}

/// Where the repositories of the users live.
pub trait RepositoriesFactory<T>: Clone {
    fn user_has_repository(&self, user_id: &String) -> bool;

    fn get_user_repository(&self, user_id: &String, passwd: String) -> Result<T, RepositoryOpenError>;

    /// Takes the backup stored at the path `file` as the user's repository.
    fn load_user_repository(&self, user_id: &String, passwd: String, file: &String) -> Result<T, RepositoryLoadError>;

    fn initialize_user_repository(&self, user_id: &String, passwd: String) -> Result<T, RepositoryAlreadyExist>;
}

} // verus!
