//! Saved locations and the form through which a new one is entered.
use vstd::prelude::*;
use crate::geocode::{geohash_check, is_valid_geohash, validate_geohash, GeohashError};

verus! {

/// A place the user saved: its store id, a display name and its geohash.
#[derive(Debug)]
pub struct Location {
    pub id: i64,
    pub name: String,
    pub geohash: String,
}

impl Location {
    pub fn new(id: i64, name: String, geohash: String) -> (r: Location)
        ensures
            r == (Location { id, name, geohash }),
    {
        Location { id, name, geohash }
    }

    /// A copy equal to `self`.
    pub fn copy(&self) -> (r: Location)
        ensures
            r == *self,
    {
        Location { id: self.id, name: self.name.clone(), geohash: self.geohash.clone() }
    }

    /// Whether the geohash decodes, so that a forecast can be fetched for this place.
    pub fn has_coordinates(&self) -> (r: bool)
        ensures
            r == is_valid_geohash(self.geohash@),
    {
        crate::geocode::has_coordinates(self.geohash.as_str())
    }
}

/// A name and geohash that passed validation and are ready to be stored.
#[derive(Debug)]
pub struct NewLocation {
    pub name: String,
    pub geohash: String,
}

/// What is wrong with the name field.
#[derive(Clone, Copy, Debug, PartialEq, Eq, Structural)]
pub enum NameError {
    Empty,
}

/// The field errors of a location draft; `None` where the field is fine.
#[derive(Clone, Copy, Debug, PartialEq, Eq, Structural)]
pub struct ValidationErrorSet {
    pub name: Option<NameError>,
    pub geohash: Option<GeohashError>,
}

/// The form in progress for a new location.
#[derive(Debug)]
pub struct FormDraft {
    pub name: String,
    pub geohash: String,
    /// The errors of the last validation; `None` when none was found.
    pub validation_errors: Option<ValidationErrorSet>,
    /// Set while the draft is being stored.
    pub submitting: bool,
    /// The message of the last failure to store the draft.
    pub error_message: Option<String>,
}

pub open spec fn name_error(name: Seq<char>) -> Option<NameError> {
    if name.len() == 0 {
        Some(NameError::Empty)
    } else {
        None
    }
}

pub open spec fn geohash_error(hash: Seq<char>) -> Option<GeohashError> {
    match geohash_check(hash) {
        Ok(_) => None,
        Err(e) => Some(e),
    }
}

/// The errors that validation finds in a name and a geohash.
pub open spec fn draft_errors(name: Seq<char>, hash: Seq<char>) -> ValidationErrorSet {
    ValidationErrorSet { name: name_error(name), geohash: geohash_error(hash) }
}

/// A draft is accepted when its name is not empty and its geohash decodes.
pub open spec fn draft_is_valid(name: Seq<char>, hash: Seq<char>) -> bool {
    name.len() > 0 && is_valid_geohash(hash)
}

/// A draft with nothing entered and nothing pending.
pub open spec fn is_blank_draft(d: FormDraft) -> bool {
    &&& d.name@.len() == 0
    &&& d.geohash@.len() == 0
    &&& d.validation_errors.is_none()
    &&& !d.submitting
    &&& d.error_message.is_none()
}

impl ValidationErrorSet {
    pub open spec fn is_clear(&self) -> bool {
        self.name.is_none() && self.geohash.is_none()
    }
}

/// The field errors of a name and a geohash.
pub fn validate_fields(name: &str, hash: &str) -> (r: ValidationErrorSet)
    ensures
        r == draft_errors(name@, hash@),
        r.is_clear() == draft_is_valid(name@, hash@),
{
    let name_err = if name.is_empty() {
        Some(NameError::Empty)
    } else {
        None
    };
    let hash_err = match validate_geohash(hash) {
        Ok(()) => None,
        Err(e) => Some(e),
    };
    ValidationErrorSet { name: name_err, geohash: hash_err }
}

/// Validates a name and a geohash; on success returns the location to be stored.
pub fn confirm_fields(name: &String, hash: &String) -> (r: Result<NewLocation, ValidationErrorSet>)
    ensures
        draft_is_valid(name@, hash@) ==> r == Ok::<NewLocation, ValidationErrorSet>(
            NewLocation { name: *name, geohash: *hash },
        ),
        !draft_is_valid(name@, hash@) ==> r == Err::<NewLocation, ValidationErrorSet>(
            draft_errors(name@, hash@),
        ),
{
    let errors = validate_fields(name.as_str(), hash.as_str());
    if errors.name.is_none() && errors.geohash.is_none() {
        Ok(NewLocation { name: name.clone(), geohash: hash.clone() })
    } else {
        Err(errors)
    }
}

impl FormDraft {
    /// An empty form.
    pub fn new() -> (r: FormDraft)
        ensures
            is_blank_draft(r),
    {
        FormDraft {
            name: String::new(),
            geohash: String::new(),
            validation_errors: None,
            submitting: false,
            error_message: None,
        }
    }
}

/// Validates a draft: the name must not be empty and the geohash must decode.
/// On success returns the location to be stored; otherwise the field errors,
/// and nothing is stored.
pub fn submit_draft(draft: &FormDraft) -> (r: Result<NewLocation, ValidationErrorSet>)
    ensures
        draft_is_valid(draft.name@, draft.geohash@) ==> r == Ok::<NewLocation, ValidationErrorSet>(
            NewLocation { name: draft.name, geohash: draft.geohash },
        ),
        !draft_is_valid(draft.name@, draft.geohash@) ==> r == Err::<NewLocation, ValidationErrorSet>(
            draft_errors(draft.name@, draft.geohash@),
        ),
{
    confirm_fields(&draft.name, &draft.geohash)
}

/// A failure of the location and forecast store.
#[derive(Debug)]
pub struct StoreError {
    pub message: String,
}

/// The saved locations that a store answer gives: none when the store failed.
pub fn locations_or_empty(loaded: Result<Vec<Location>, StoreError>) -> (r: Vec<Location>)
    ensures
        loaded is Ok ==> r == loaded->Ok_0,
        loaded is Err ==> r@ == Seq::<Location>::empty(),
{
    match loaded {
        Ok(v) => v,
        Err(_) => Vec::new(),
    }
}

} // verus!
