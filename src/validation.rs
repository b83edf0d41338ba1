//! Field constraints on caller-supplied requests, checked before any
//! repository call.
use vstd::prelude::*;
use vstd::utf8::encode_utf8;
use crate::error::ServiceError;
use crate::text::{decimal_string, decimal_text};
use crate::model::{
    CreateInvoiceRequest, CreateItemRequest, CreatePersonRequest, UpdateInvoiceRequest,
    UpdateItemRequest, UpdatePersonRequest,
};

verus! {

pub const PERSON_NAME_MIN: usize = 3;

pub const PERSON_NAME_MAX: usize = 50;

pub const ITEM_NAME_MIN: usize = 3;

pub const ITEM_NAME_MAX: usize = 255;

/// The largest money amount accepted, in cents (one million).
pub const MAX_AMOUNT_CENTS: i64 = 100_000_000;

/// The length of a text in bytes of UTF-8.
pub open spec fn byte_len(s: Seq<char>) -> nat {
    encode_utf8(s).len()
}

/// What `garde::rules::email::parse_email` accepts.
pub uninterp spec fn email_shape(s: Seq<char>) -> bool;

/// Relies on `garde::rules::email::parse_email`: whether a text has the shape
/// of an email address depends on the text alone; an empty text, or one
/// without `@`, is rejected.
#[verifier::external_body]
fn is_email(s: &str) -> (r: bool)
    ensures
        r == email_shape(s@),
        s@.len() == 0 ==> !r,
        !s@.contains('@') ==> !r,
{
    garde::rules::email::parse_email(s).is_ok()
}

/// A person's name and email meet their constraints.
pub open spec fn person_fields_ok(name: Seq<char>, email: Seq<char>) -> bool {
    &&& PERSON_NAME_MIN <= byte_len(name) <= PERSON_NAME_MAX
    &&& email_shape(email)
}

/// An item's name and unit price meet their constraints.
pub open spec fn item_fields_ok(name: Seq<char>, unit_price: i64) -> bool {
    &&& ITEM_NAME_MIN <= byte_len(name) <= ITEM_NAME_MAX
    &&& amount_ok(unit_price)
}

/// A money amount lies in `0 ..= MAX_AMOUNT_CENTS`.
pub open spec fn amount_ok(cents: i64) -> bool {
    0 <= cents <= MAX_AMOUNT_CENTS
}

/// `r` rejects exactly when `ok` fails, and then as invalid input.
pub open spec fn rejects_unless(r: Result<(), ServiceError>, ok: bool) -> bool {
    &&& r is Ok <==> ok
    &&& r matches Err(e) ==> e is InputValidationError
}

fn invalid(message: &str) -> (r: ServiceError)
    ensures
        r is InputValidationError,
{
    let mut m = String::from_str("Invalid input: ");
    m.append(message);
    ServiceError::InputValidationError(m)
}

/// The message of a name whose length in bytes, `len`, is outside `min ..= max`.
pub open spec fn name_rejection(len: nat, min: usize, max: usize) -> Seq<char> {
    if len < min {
        "Invalid input: name: length is lower than "@ + decimal_text(min as nat) + "\n"@
    } else {
        "Invalid input: name: length is greater than "@ + decimal_text(max as nat) + "\n"@
    }
}

/// `r` rejects a name outside `min ..= max` bytes with its message.
pub open spec fn rejects_name(r: Result<(), ServiceError>, name: Seq<char>, min: usize, max: usize) -> bool {
    !(min <= byte_len(name) <= max) ==> (r matches Err(ServiceError::InputValidationError(m)) && m@
        == name_rejection(byte_len(name), min, max))
}

fn check_name(name: &str, min: usize, max: usize) -> (r: Result<(), ServiceError>)
    ensures
        rejects_unless(r, min <= byte_len(name@) <= max),
        rejects_name(r, name@, min, max),
{
    let n = name.as_bytes().len();
    if n < min {
        let mut m = String::from_str("Invalid input: name: length is lower than ");
        let t = decimal_string(min as u64);
        m.append(t.as_str());
        m.append("\n");
        Err(ServiceError::InputValidationError(m))
    } else if n > max {
        let mut m = String::from_str("Invalid input: name: length is greater than ");
        let t = decimal_string(max as u64);
        m.append(t.as_str());
        m.append("\n");
        Err(ServiceError::InputValidationError(m))
    } else {
        Ok(())
    }
}

fn check_amount(field_message: &str, cents: i64) -> (r: Result<(), ServiceError>)
    ensures
        rejects_unless(r, amount_ok(cents)),
{
    if cents < 0 || cents > MAX_AMOUNT_CENTS {
        Err(invalid(field_message))
    } else {
        Ok(())
    }
}

/// Checks a person's name (3 to 50 bytes) and the shape of its email.
pub fn validate_person_fields(name: &str, email: &str) -> (r: Result<(), ServiceError>)
    ensures
        rejects_unless(r, person_fields_ok(name@, email@)),
        rejects_name(r, name@, PERSON_NAME_MIN, PERSON_NAME_MAX),
        email@.len() == 0 || !email@.contains('@') ==> r is Err,
{
    check_name(name, PERSON_NAME_MIN, PERSON_NAME_MAX)?;
    if !is_email(email) {
        return Err(invalid("email: not a valid email"));
    }
    Ok(())
}

/// Checks an item's name (3 to 255 bytes) and unit price.
pub fn validate_item_fields(name: &str, unit_price: i64) -> (r: Result<(), ServiceError>)
    ensures
        rejects_unless(r, item_fields_ok(name@, unit_price)),
        rejects_name(r, name@, ITEM_NAME_MIN, ITEM_NAME_MAX),
{
    check_name(name, ITEM_NAME_MIN, ITEM_NAME_MAX)?;
    check_amount("unit_price: out of range", unit_price)
}

impl CreatePersonRequest {
    pub fn validate(&self) -> (r: Result<(), ServiceError>)
        ensures
            rejects_unless(r, person_fields_ok(self.name@, self.email@)),
            rejects_name(r, self.name@, PERSON_NAME_MIN, PERSON_NAME_MAX),
            self.email@.len() == 0 || !self.email@.contains('@') ==> r is Err,
    {
        validate_person_fields(self.name.as_str(), self.email.as_str())
    }
}

impl UpdatePersonRequest {
    pub fn validate(&self) -> (r: Result<(), ServiceError>)
        ensures
            rejects_unless(r, person_fields_ok(self.name@, self.email@)),
            rejects_name(r, self.name@, PERSON_NAME_MIN, PERSON_NAME_MAX),
            self.email@.len() == 0 || !self.email@.contains('@') ==> r is Err,
    {
        validate_person_fields(self.name.as_str(), self.email.as_str())
    }
}

impl CreateItemRequest {
    pub fn validate(&self) -> (r: Result<(), ServiceError>)
        ensures
            rejects_unless(r, item_fields_ok(self.name@, self.unit_price)),
            rejects_name(r, self.name@, ITEM_NAME_MIN, ITEM_NAME_MAX),
    {
        validate_item_fields(self.name.as_str(), self.unit_price)
    }
}

impl UpdateItemRequest {
    pub fn validate(&self) -> (r: Result<(), ServiceError>)
        ensures
            rejects_unless(r, item_fields_ok(self.name@, self.unit_price)),
            rejects_name(r, self.name@, ITEM_NAME_MIN, ITEM_NAME_MAX),
    {
        validate_item_fields(self.name.as_str(), self.unit_price)
    }
}

impl CreateInvoiceRequest {
    pub fn validate(&self) -> (r: Result<(), ServiceError>)
        ensures
            rejects_unless(r, amount_ok(self.total)),
    {
        check_amount("total: out of range", self.total)
    }
}

impl UpdateInvoiceRequest {
    pub fn validate(&self) -> (r: Result<(), ServiceError>)
        ensures
            rejects_unless(r, amount_ok(self.total)),
    {
        check_amount("total: out of range", self.total)
    }
}

} // verus!
