use crate::config::{Config, ConfigView};
use crate::error::ChatError;
use vstd::prelude::*;

verus! {

/// The key under which the one record is kept.
pub const RECORD_KEY: &'static str = "config";

/// The name of the database inside the directory that the platform gives
/// the application for its configuration.
pub const DATABASE_NAME: &'static str = "config";

/// The three names by which the platform tells this application from
/// others: qualifier, organization, application.
pub const APPLICATION: (&'static str, &'static str, &'static str) = ("org", "gptcli", "chat");

/// The record store, as a value of the model.
pub enum RecordStoreModel {
    Unavailable,
    Empty,
    Holding(ConfigView),
}

impl RecordStoreModel {
    /// What reading the settings out of this store gives.
    pub open spec fn loaded(self) -> Result<ConfigView, ChatError> {
        match self {
            RecordStoreModel::Unavailable => Err(ChatError::StoreUnavailable),
            RecordStoreModel::Empty => Ok(ConfigView::fresh()),
            RecordStoreModel::Holding(record) => Ok(record),
        }
    }

    /// The store after an attempt to write `settings` into it.
    pub open spec fn saved(self, settings: ConfigView) -> RecordStoreModel {
        match self {
            RecordStoreModel::Unavailable => RecordStoreModel::Unavailable,
            _ => RecordStoreModel::Holding(settings),
        }
    }

    /// What an attempt to write into this store reports.
    pub open spec fn save_result(self) -> Result<(), ChatError> {
        match self {
            RecordStoreModel::Unavailable => Err(ChatError::StoreUnavailable),
            _ => Ok(()),
        }
    }
}

/// The one-record store as a run of the client sees it: out of order,
/// in order and never written, or holding the settings last written.
///
/// The caller fills it from the disk before the settings are loaded and
/// writes it back after they were saved.
#[derive(Debug)]
pub enum RecordStore {
    Unavailable,
    Empty,
    Holding(Config),
}

impl View for RecordStore {
    type V = RecordStoreModel;

    open spec fn view(&self) -> RecordStoreModel {
        match self {
            RecordStore::Unavailable => RecordStoreModel::Unavailable,
            RecordStore::Empty => RecordStoreModel::Empty,
            RecordStore::Holding(record) => RecordStoreModel::Holding(record@),
        }
    }
}

/// What was saved is what is loaded: a store that can be used gives back,
/// field for field, the settings written into it last, whatever it held
/// before. A store that cannot be used takes nothing and gives nothing.
pub proof fn lemma_saved_is_loaded(store: RecordStoreModel, settings: ConfigView)
    ensures
        store.save_result() is Ok ==> store.saved(settings).loaded() == Ok::<
            ConfigView,
            ChatError,
        >(settings),
        store.save_result() is Err ==> store.saved(settings) == store && store.loaded() is Err,
        store.save_result() is Ok <==> store.loaded() is Ok,
{
}

/// Saving twice leaves what the second save wrote.
pub proof fn lemma_last_save_wins(store: RecordStoreModel, first: ConfigView, second: ConfigView)
    ensures
        store.saved(first).saved(second) == store.saved(second),
{
}

} // verus!
