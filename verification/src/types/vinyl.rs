//! Vinyl records and the request that creates one.

use vstd::prelude::*;
use crate::types::{BuyCondition, Condition, Track, STATUS_ERROR, STATUS_SUCCESS};

verus! {

/// A vinyl record.
#[derive(Debug)]
pub struct Vinyl {
    pub id: String,
    pub title: String,
    pub artists: Vec<String>,
    pub release_year: usize,
    pub tracks: Vec<Track>,
    pub bought_in_condition: BuyCondition,
    pub media_condition: Condition,
    pub sleeve_condition: Condition,
    pub digital_files_included: bool,
}

/// What a caller hands in to have a vinyl record created: the record without
/// its id.
#[derive(Debug)]
pub struct CreateVinylRequest {
    pub title: String,
    pub artists: Vec<String>,
    pub release_year: usize,
    pub tracks: Vec<Track>,
    pub bought_in_condition: BuyCondition,
    pub media_condition: Condition,
    pub sleeve_condition: Condition,
    pub digital_files_included: bool,
}

/// The answer to a request that creates a vinyl record.
#[derive(Debug)]
pub struct CreateVinylResponse {
    pub message: String,
    pub status: String,
}

impl CreateVinylResponse {
    /// The answer with the given message and status `success`.
    pub fn success(message: &str) -> (response: Self)
        ensures
            response.message@ == message@,
            response.status@ == STATUS_SUCCESS@,
    {
        CreateVinylResponse { message: message.to_owned(), status: STATUS_SUCCESS.to_owned() }
    }

    /// The answer with the given message and status `error`.
    pub fn error(message: &str) -> (response: Self)
        ensures
            response.message@ == message@,
            response.status@ == STATUS_ERROR@,
    {
        CreateVinylResponse { message: message.to_owned(), status: STATUS_ERROR.to_owned() }
    }
}

} // verus!
