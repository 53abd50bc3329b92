//! Decisions of the JSON API on assets: validation of create and update
//! requests, and the answers derived from what the store reports.
use vstd::prelude::*;
use crate::error::{AppError, is_unique_violation, unique_violation};
use crate::routes::number::{finite_positive, is_finite_positive};
use crate::text::{trim, trim_str, lemma_trim_idempotent};

verus! {

/// The longest asset name accepted, in characters, after trimming.
pub const MAX_ASSET_NAME_LENGTH: usize = 80;

/// The message for a name that is empty after trimming.
pub open spec fn empty_name_message() -> Seq<char> {
    "Informe o nome do ativo."@
}

/// The message for a name longer than `MAX_ASSET_NAME_LENGTH`.
pub open spec fn long_name_message() -> Seq<char> {
    "O nome do ativo deve possuir no máximo 80 caracteres."@
}

/// The message for a unit value that is not a finite positive number.
pub open spec fn unit_value_message() -> Seq<char> {
    "O valor unitário deve ser maior que zero."@
}

/// The message for a quantity that is not a finite positive number.
pub open spec fn quantity_message() -> Seq<char> {
    "A quantidade deve ser maior que zero."@
}

/// The message for an asset identifier that is not positive.
pub open spec fn invalid_id_message() -> Seq<char> {
    "O identificador do ativo é inválido."@
}

/// The message for an update that changes nothing.
pub open spec fn empty_update_message() -> Seq<char> {
    "Informe ao menos um campo para atualização."@
}

/// `r` is the invalid-asset-data error with message `m`.
pub open spec fn is_invalid_asset_data<T>(r: Result<T, AppError>, m: Seq<char>) -> bool {
    r matches Err(AppError::InvalidAssetData(message)) && message@ == m
}

/// What is wrong with an asset name, if anything: the trimmed name must be
/// non-empty and at most `MAX_ASSET_NAME_LENGTH` characters long.
pub open spec fn asset_name_error(name: Seq<char>) -> Option<Seq<char>> {
    if trim(name).len() == 0 {
        Some(empty_name_message())
    } else if trim(name).len() > MAX_ASSET_NAME_LENGTH {
        Some(long_name_message())
    } else {
        None
    }
}

/// Trims an asset name and checks its length in characters.
pub fn validate_asset_name(name: String) -> (r: Result<String, AppError>)
    ensures
        asset_name_error(name@) matches Some(m) ==> is_invalid_asset_data(r, m),
        asset_name_error(name@) is None ==> (r matches Ok(n) && n@ == trim(name@)),
{
    let normalized = trim_str(name.as_str());
    let length: usize = normalized.as_str().unicode_len();
    if length == 0 {
        return Err(AppError::InvalidAssetData("Informe o nome do ativo."));
    }
    if length > MAX_ASSET_NAME_LENGTH {
        return Err(
            AppError::InvalidAssetData("O nome do ativo deve possuir no máximo 80 caracteres."),
        );
    }
    Ok(normalized)
}

/// A name that passed validation passes it again unchanged.
pub proof fn lemma_asset_name_validation_idempotent(name: Seq<char>)
    requires
        asset_name_error(name) is None,
    ensures
        asset_name_error(trim(name)) is None,
        trim(trim(name)) == trim(name),
{
    lemma_trim_idempotent(name);
}

/// Accepts a number (given by its bit pattern) that is finite and positive,
/// or fails with `message`.
pub fn validate_positive_number(value: u64, message: &'static str) -> (r: Result<u64, AppError>)
    ensures
        is_finite_positive(value) ==> r == Ok::<u64, AppError>(value),
        !is_finite_positive(value) ==> is_invalid_asset_data(r, message@),
{
    if !finite_positive(value) {
        return Err(AppError::InvalidAssetData(message));
    }
    Ok(value)
}

/// The answer to a database failure while writing an asset: a violated
/// uniqueness constraint (`unique_violation`) means the name is taken; any
/// other failure is passed on.
pub fn asset_database_error(error: sqlx::Error, unique_violation: bool) -> (r: AppError)
    ensures
        unique_violation ==> r is AssetNameTaken,
        !unique_violation ==> r == AppError::Database(error),
{
    if unique_violation {
        AppError::AssetNameTaken
    } else {
        AppError::Database(error)
    }
}

/// Maps a database failure while writing an asset, classified by `sqlx`'s
/// unique-violation test.
pub fn map_asset_database_error(error: sqlx::Error) -> (r: AppError)
    ensures
        unique_violation(error) ==> r is AssetNameTaken,
        !unique_violation(error) ==> r == AppError::Database(error),
{
    let unique = is_unique_violation(&error);
    asset_database_error(error, unique)
}

/// A request to create an asset. Numbers are bit patterns of binary64 values.
pub struct CreateAssetRequest {
    pub name: String,
    pub unit_value: u64,
    pub quantity: u64,
}

/// An asset ready to be stored: trimmed name, finite positive numbers.
pub struct NewAsset {
    pub name: String,
    pub unit_value: u64,
    pub quantity: u64,
}

/// What is wrong with a create request, if anything, checking the name,
/// then the unit value, then the quantity.
pub open spec fn create_request_error(name: Seq<char>, unit_value: u64, quantity: u64) -> Option<
    Seq<char>,
> {
    if asset_name_error(name) is Some {
        asset_name_error(name)
    } else if !is_finite_positive(unit_value) {
        Some(unit_value_message())
    } else if !is_finite_positive(quantity) {
        Some(quantity_message())
    } else {
        None
    }
}

/// Validates a create request.
pub fn validate_create_request(request: CreateAssetRequest) -> (r: Result<NewAsset, AppError>)
    ensures
        create_request_error(request.name@, request.unit_value, request.quantity) matches Some(m)
            ==> is_invalid_asset_data(r, m),
        create_request_error(request.name@, request.unit_value, request.quantity) is None ==> (
        r matches Ok(a) && a.name@ == trim(request.name@) && a.unit_value == request.unit_value
            && a.quantity == request.quantity),
{
    let name = match validate_asset_name(request.name) {
        Ok(n) => n,
        Err(e) => {
            return Err(e);
        },
    };
    let unit_value = match validate_positive_number(
        request.unit_value,
        "O valor unitário deve ser maior que zero.",
    ) {
        Ok(v) => v,
        Err(e) => {
            return Err(e);
        },
    };
    let quantity = match validate_positive_number(
        request.quantity,
        "A quantidade deve ser maior que zero.",
    ) {
        Ok(v) => v,
        Err(e) => {
            return Err(e);
        },
    };
    Ok(NewAsset { name, unit_value, quantity })
}

impl NewAsset {
    /// Refuses the asset when the owner already has one by that name.
    pub fn after_name_check(self, name_exists: bool) -> (r: Result<NewAsset, AppError>)
        ensures
            name_exists ==> r matches Err(AppError::AssetNameTaken),
            !name_exists ==> r == Ok::<NewAsset, AppError>(self),
    {
        if name_exists {
            Err(AppError::AssetNameTaken)
        } else {
            Ok(self)
        }
    }
}

/// A request to change some fields of an asset.
pub struct UpdateAssetRequest {
    pub id: i64,
    pub name: Option<String>,
    pub unit_value: Option<u64>,
    pub quantity: Option<u64>,
}

/// The validated changes to an asset: trimmed name, finite positive numbers.
pub struct AssetChanges {
    pub id: i64,
    pub name: Option<String>,
    pub unit_value: Option<u64>,
    pub quantity: Option<u64>,
}

/// What is wrong with an optional new name, if anything.
pub open spec fn optional_name_error(name: Option<String>) -> Option<Seq<char>> {
    match name {
        Some(n) => asset_name_error(n@),
        None => None,
    }
}

/// An optional number is absent or finite and positive.
pub open spec fn optional_number_ok(value: Option<u64>) -> bool {
    match value {
        Some(v) => is_finite_positive(v),
        None => true,
    }
}

/// What is wrong with an update request, if anything, checking the
/// identifier, that something changes, the name, the unit value and the
/// quantity, in that order.
pub open spec fn update_request_error(
    id: i64,
    name: Option<String>,
    unit_value: Option<u64>,
    quantity: Option<u64>,
) -> Option<Seq<char>> {
    if id <= 0 {
        Some(invalid_id_message())
    } else if name is None && unit_value is None && quantity is None {
        Some(empty_update_message())
    } else if optional_name_error(name) is Some {
        optional_name_error(name)
    } else if !optional_number_ok(unit_value) {
        Some(unit_value_message())
    } else if !optional_number_ok(quantity) {
        Some(quantity_message())
    } else {
        None
    }
}

/// The validated changes match the request: same identifier and numbers,
/// and the trimmed name when one was given.
pub open spec fn changes_match(
    c: AssetChanges,
    id: i64,
    name: Option<String>,
    unit_value: Option<u64>,
    quantity: Option<u64>,
) -> bool {
    &&& c.id == id
    &&& c.unit_value == unit_value
    &&& c.quantity == quantity
    &&& (c.name is Some <==> name is Some)
    &&& name is Some ==> c.name.unwrap()@ == trim(name.unwrap()@)
}

/// Validates an update request.
pub fn validate_update_request(request: UpdateAssetRequest) -> (r: Result<AssetChanges, AppError>)
    ensures
        update_request_error(request.id, request.name, request.unit_value, request.quantity) matches Some(m)
            ==> is_invalid_asset_data(r, m),
        update_request_error(request.id, request.name, request.unit_value, request.quantity) is None
            ==> (r matches Ok(c) && changes_match(
            c,
            request.id,
            request.name,
            request.unit_value,
            request.quantity,
        )),
{
    if request.id <= 0 {
        return Err(AppError::InvalidAssetData("O identificador do ativo é inválido."));
    }
    if request.name.is_none() && request.unit_value.is_none() && request.quantity.is_none() {
        return Err(AppError::InvalidAssetData("Informe ao menos um campo para atualização."));
    }
    let name = match request.name {
        Some(n) => match validate_asset_name(n) {
            Ok(v) => Some(v),
            Err(e) => {
                return Err(e);
            },
        },
        None => None,
    };
    let unit_value = match request.unit_value {
        Some(v) => match validate_positive_number(v, "O valor unitário deve ser maior que zero.") {
            Ok(v) => Some(v),
            Err(e) => {
                return Err(e);
            },
        },
        None => None,
    };
    let quantity = match request.quantity {
        Some(v) => match validate_positive_number(v, "A quantidade deve ser maior que zero.") {
            Ok(v) => Some(v),
            Err(e) => {
                return Err(e);
            },
        },
        None => None,
    };
    Ok(AssetChanges { id: request.id, name, unit_value, quantity })
}

impl AssetChanges {
    /// Refuses the changes when they rename the asset to a name the owner
    /// already uses for another asset. `name_exists` is the store's answer
    /// to that question, asked only when the changes carry a name.
    pub fn after_name_check(self, name_exists: bool) -> (r: Result<AssetChanges, AppError>)
        ensures
            self.name is Some && name_exists ==> r matches Err(AppError::AssetNameTaken),
            !(self.name is Some && name_exists) ==> r == Ok::<AssetChanges, AppError>(self),
    {
        if self.name.is_some() && name_exists {
            Err(AppError::AssetNameTaken)
        } else {
            Ok(self)
        }
    }
}

/// The answer to an update: the updated asset, or `AssetDoesNotExist` when
/// the owner has no asset with that identifier.
pub fn update_outcome<T>(updated: Option<T>) -> (r: Result<T, AppError>)
    ensures
        updated matches Some(a) ==> r == Ok::<T, AppError>(a),
        updated is None ==> r matches Err(AppError::AssetDoesNotExist),
{
    match updated {
        Some(a) => Ok(a),
        None => Err(AppError::AssetDoesNotExist),
    }
}

/// The answer to a deletion: no content when an asset of the owner was
/// deleted, `AssetDoesNotExist` otherwise.
pub fn delete_outcome(deleted: bool) -> (r: Result<(), AppError>)
    ensures
        deleted ==> r is Ok,
        !deleted ==> r matches Err(AppError::AssetDoesNotExist),
{
    if deleted {
        Ok(())
    } else {
        Err(AppError::AssetDoesNotExist)
    }
}

/// Every create request with a trimmed name of 1 to 80 characters and a
/// finite, strictly positive unit value and quantity is accepted, keeping
/// those numbers; no other condition applies.
pub proof fn lemma_valid_create_request_accepted(name: Seq<char>, unit_value: u64, quantity: u64)
    requires
        1 <= trim(name).len() <= 80,
        is_finite_positive(unit_value),
        is_finite_positive(quantity),
    ensures
        create_request_error(name, unit_value, quantity) is None,
{
}

/// A create request is refused only for a reason: a blank or too long
/// name, or a unit value or quantity that is not finite and positive.
pub proof fn lemma_create_request_refused_only_for_a_reason(
    name: Seq<char>,
    unit_value: u64,
    quantity: u64,
)
    requires
        create_request_error(name, unit_value, quantity) is Some,
    ensures
        trim(name).len() == 0 || trim(name).len() > 80 || !is_finite_positive(unit_value)
            || !is_finite_positive(quantity),
{
}

/// An update request with a positive identifier that changes at least one
/// field, with a trimmed name of 1 to 80 characters when a name is given
/// and finite positive numbers when numbers are given, is accepted; in
/// particular a rename alone is a valid update.
pub proof fn lemma_valid_update_request_accepted(
    id: i64,
    name: Option<String>,
    unit_value: Option<u64>,
    quantity: Option<u64>,
)
    requires
        id > 0,
        name is Some || unit_value is Some || quantity is Some,
        name matches Some(n) ==> 1 <= trim(n@).len() <= 80,
        unit_value matches Some(v) ==> is_finite_positive(v),
        quantity matches Some(v) ==> is_finite_positive(v),
    ensures
        update_request_error(id, name, unit_value, quantity) is None,
{
}

/// The "nothing to update" refusal is given only when the name, the unit
/// value and the quantity are all absent.
pub proof fn lemma_empty_update_only_without_fields(
    id: i64,
    name: Option<String>,
    unit_value: Option<u64>,
    quantity: Option<u64>,
)
    requires
        id > 0,
        name is Some || unit_value is Some || quantity is Some,
    ensures
        update_request_error(id, name, unit_value, quantity) != Some(empty_update_message()),
{
    reveal_strlit("Informe ao menos um campo para atualização.");
    reveal_strlit("Informe o nome do ativo.");
    reveal_strlit("O nome do ativo deve possuir no máximo 80 caracteres.");
    reveal_strlit("O valor unitário deve ser maior que zero.");
    reveal_strlit("A quantidade deve ser maior que zero.");
    let e = empty_update_message();
    assert(e[0] == 'I' && e[1] == 'n' && e[8] == 'a');
    assert(empty_name_message()[8] == 'o');
    assert(long_name_message()[0] == 'O');
    assert(unit_value_message()[0] == 'O');
    assert(quantity_message()[0] == 'A');
}

} // verus!
