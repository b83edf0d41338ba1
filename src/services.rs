//! Service orchestration as decisions around the repository calls: what is
//! checked before storage is consulted, and what a repository outcome
//! becomes. The caller performs each repository call in between.
use vstd::prelude::*;
use crate::convert::{
    invoice_from_joined_rows, invoice_from_row, invoice_of_joined, invoice_of_row,
    invoices_from_rows, item_from_row, item_of_row, items_from_rows, person_from_row,
    person_of_row, persons_from_rows,
};
use crate::error::{RepoError, ServiceError, service_error_of};
use crate::ids::{format_uuid, parse_uuid, parsed_uuid, uuid_text};
use crate::model::{
    DeleteResults, Invoice, InvoiceItemRequest, InvoiceItemRow, InvoiceRow, InvoiceWithItemRow,
    Item, ItemRow, Person, PersonRow, ServiceResults, UpdateInvoiceRequest, UpdateItemRequest,
    UpdatePersonRequest,
};
use crate::validation::{amount_ok, item_fields_ok, person_fields_ok};

verus! {

/// The service outcome of reading one person.
pub fn person_result(r: Result<PersonRow, RepoError>) -> (out: Result<Person, ServiceError>)
    ensures
        match r {
            Ok(row) => out matches Ok(p) && person_of_row(p, row),
            Err(e) => out == Err::<Person, ServiceError>(service_error_of(e)),
        },
{
    match r {
        Ok(row) => Ok(person_from_row(&row)),
        Err(e) => Err(ServiceError::from(e)),
    }
}

/// The service outcome of listing persons: one model per row, in order.
pub fn persons_result(r: Result<Vec<PersonRow>, RepoError>) -> (out: Result<
    Vec<Person>,
    ServiceError,
>)
    ensures
        match r {
            Ok(rows) => out matches Ok(ps) && ps.len() == rows.len() && forall|i: int|
                0 <= i < rows.len() ==> person_of_row(#[trigger] ps[i], rows[i]),
            Err(e) => out == Err::<Vec<Person>, ServiceError>(service_error_of(e)),
        },
{
    match r {
        Ok(rows) => Ok(persons_from_rows(&rows)),
        Err(e) => Err(ServiceError::from(e)),
    }
}

/// The service outcome of deleting a person.
pub fn person_deleted_result(r: Result<PersonRow, RepoError>) -> (out: Result<(), ServiceError>)
    ensures
        match r {
            Ok(_) => out is Ok,
            Err(e) => out == Err::<(), ServiceError>(service_error_of(e)),
        },
{
    match r {
        Ok(_) => Ok(()),
        Err(e) => Err(ServiceError::from(e)),
    }
}

/// The service outcome of reading one item.
pub fn item_result(r: Result<ItemRow, RepoError>) -> (out: Result<Item, ServiceError>)
    ensures
        match r {
            Ok(row) => out matches Ok(it) && item_of_row(it, row),
            Err(e) => out == Err::<Item, ServiceError>(service_error_of(e)),
        },
{
    match r {
        Ok(row) => Ok(item_from_row(&row)),
        Err(e) => Err(ServiceError::from(e)),
    }
}

/// The service outcome of listing items: one model per row, in order.
pub fn items_result(r: Result<Vec<ItemRow>, RepoError>) -> (out: Result<Vec<Item>, ServiceError>)
    ensures
        match r {
            Ok(rows) => out matches Ok(its) && its.len() == rows.len() && forall|i: int|
                0 <= i < rows.len() ==> item_of_row(#[trigger] its[i], rows[i]),
            Err(e) => out == Err::<Vec<Item>, ServiceError>(service_error_of(e)),
        },
{
    match r {
        Ok(rows) => Ok(items_from_rows(&rows)),
        Err(e) => Err(ServiceError::from(e)),
    }
}

/// The service outcome of deleting an item: the deleted row's id.
pub fn item_deleted_result(r: Result<ItemRow, RepoError>) -> (out: Result<
    DeleteResults,
    ServiceError,
>)
    ensures
        match r {
            Ok(row) => out matches Ok(d) && d.id@ == uuid_text(row.alt_id) && d.deleted,
            Err(e) => out == Err::<DeleteResults, ServiceError>(service_error_of(e)),
        },
{
    match r {
        Ok(row) => Ok(DeleteResults { id: format_uuid(row.alt_id), deleted: true }),
        Err(e) => Err(ServiceError::from(e)),
    }
}

/// The service outcome of reading one invoice without its items.
pub fn invoice_result(r: Result<InvoiceRow, RepoError>) -> (out: Result<Invoice, ServiceError>)
    ensures
        match r {
            Ok(row) => out matches Ok(inv) && invoice_of_row(inv, row),
            Err(e) => out == Err::<Invoice, ServiceError>(service_error_of(e)),
        },
{
    match r {
        Ok(row) => Ok(invoice_from_row(&row)),
        Err(e) => Err(ServiceError::from(e)),
    }
}

/// The service outcome of listing invoices: one model per row, in order.
pub fn invoices_result(r: Result<Vec<InvoiceRow>, RepoError>) -> (out: Result<
    Vec<Invoice>,
    ServiceError,
>)
    ensures
        match r {
            Ok(rows) => out matches Ok(invs) && invs.len() == rows.len() && forall|i: int|
                0 <= i < rows.len() ==> invoice_of_row(#[trigger] invs[i], rows[i]),
            Err(e) => out == Err::<Vec<Invoice>, ServiceError>(service_error_of(e)),
        },
{
    match r {
        Ok(rows) => Ok(invoices_from_rows(&rows)),
        Err(e) => Err(ServiceError::from(e)),
    }
}

/// The next step of reading an invoice with its items.
pub enum HydrationStep {
    /// The read is over, with this outcome.
    Finished(Result<Invoice, ServiceError>),
    /// The join returned no row: whether the invoice exists must be checked
    /// against the invoices table alone.
    CheckExistence,
}

/// Decides what the rows of the invoice/item join give. A failed query is
/// reported as its service error; rows are folded into one invoice with one
/// item per row; no row at all is not yet an answer, since an invoice without
/// items joins to nothing.
pub fn after_join_query(joined: Result<Vec<InvoiceWithItemRow>, RepoError>) -> (r: HydrationStep)
    ensures
        match joined {
            Err(e) => r == HydrationStep::Finished(Err(service_error_of(e))),
            Ok(rows) => if rows.len() == 0 {
                r is CheckExistence
            } else {
                r matches HydrationStep::Finished(Ok(inv)) && invoice_of_joined(inv, rows@)
            },
        },
{
    match joined {
        Err(e) => HydrationStep::Finished(Err(ServiceError::from(e))),
        Ok(rows) => {
            if rows.len() == 0 {
                HydrationStep::CheckExistence
            } else {
                HydrationStep::Finished(Ok(invoice_from_joined_rows(&rows)))
            }
        },
    }
}

/// Decides the outcome after the existence check that follows an empty
/// join: an invoice that exists is returned with an empty item list; a
/// missing one fails with `NotFound`.
pub fn after_existence_check(found: Result<InvoiceRow, RepoError>) -> (r: Result<
    Invoice,
    ServiceError,
>)
    ensures
        match found {
            Ok(row) => r matches Ok(inv) && invoice_of_row(inv, row) && inv.items.len() == 0,
            Err(e) => r == Err::<Invoice, ServiceError>(service_error_of(e)),
        },
        found matches Err(RepoError::NotFound(_)) ==> r matches Err(ServiceError::NotFound(_)),
{
    invoice_result(found)
}

/// An invoice id given in a request path must be the hyphenated text of the
/// id in the request body; otherwise the request is rejected as invalid
/// input before storage is consulted.
pub fn check_invoice_path_id(path_id: &str, body_id: u128) -> (r: Result<(), ServiceError>)
    ensures
        r is Ok <==> path_id@ == uuid_text(body_id),
        r matches Err(e) ==> e is InputValidationError,
{
    let body_text = format_uuid(body_id);
    let path_text = String::from_str(path_id);
    if path_text == body_text {
        Ok(())
    } else {
        let mut m = String::from_str("Invoice id in path (");
        m.append(path_id);
        m.append(") does not match id in body (");
        m.append(body_text.as_str());
        m.append(")");
        Err(ServiceError::InputValidationError(m))
    }
}

/// Reads an id given in a request path; a malformed one is invalid input.
pub fn parse_path_id(path_id: &str) -> (r: Result<u128, ServiceError>)
    ensures
        match parsed_uuid(path_id@) {
            Some(v) => r == Ok::<u128, ServiceError>(v),
            None => r matches Err(e) && e is InputValidationError,
        },
{
    match parse_uuid(path_id) {
        Some(v) => Ok(v),
        None => {
            let mut m = String::from_str("Invalid id: ");
            m.append(path_id);
            Err(ServiceError::InputValidationError(m))
        },
    }
}

/// The checks before an invoice update: the path id matches the body id,
/// then the total is in range.
pub fn plan_update_invoice(path_id: &str, req: &UpdateInvoiceRequest) -> (r: Result<
    (),
    ServiceError,
>)
    ensures
        r is Ok <==> path_id@ == uuid_text(req.id) && amount_ok(req.total),
        r matches Err(e) ==> e is InputValidationError,
{
    check_invoice_path_id(path_id, req.id)?;
    req.validate()
}

/// The checks before adding an item to an invoice: the path id matches the
/// body's invoice id. On success, the association row to insert.
pub fn plan_add_invoice_item(path_id: &str, req: &InvoiceItemRequest) -> (r: Result<
    InvoiceItemRow,
    ServiceError,
>)
    ensures
        r is Ok <==> path_id@ == uuid_text(req.invoice_id),
        r matches Ok(row) ==> row.invoice_id == req.invoice_id && row.item_id == req.item_id,
        r matches Err(e) ==> e is InputValidationError,
{
    check_invoice_path_id(path_id, req.invoice_id)?;
    Ok(InvoiceItemRow { invoice_id: req.invoice_id, item_id: req.item_id })
}

/// The service outcome of adding an item to an invoice.
pub fn item_added_result(
    r: Result<InvoiceItemRow, RepoError>,
    invoice_id: u128,
    item_id: u128,
) -> (out: Result<ServiceResults, ServiceError>)
    ensures
        match r {
            Ok(_) => out matches Ok(s) && s.success && s.message@ == "Item "@ + uuid_text(item_id)
                + " added to invoice "@ + uuid_text(invoice_id),
            Err(e) => out == Err::<ServiceResults, ServiceError>(service_error_of(e)),
        },
{
    match r {
        Ok(_) => {
            let mut m = String::from_str("Item ");
            let item_text = format_uuid(item_id);
            m.append(item_text.as_str());
            m.append(" added to invoice ");
            let invoice_text = format_uuid(invoice_id);
            m.append(invoice_text.as_str());
            Ok(ServiceResults { message: m, success: true })
        },
        Err(e) => Err(ServiceError::from(e)),
    }
}

/// The repository outcome of deleting an invoice, given how many rows the
/// statement removed: none removed is `NotFound`.
pub fn invoice_deleted_outcome(id: u128, rows_affected: u64) -> (r: Result<
    DeleteResults,
    RepoError,
>)
    ensures
        rows_affected == 0 <==> r matches Err(RepoError::NotFound(_)),
        r is Ok <==> rows_affected > 0,
        r matches Ok(d) ==> d.id@ == uuid_text(id) && d.deleted,
{
    let text = format_uuid(id);
    if rows_affected == 0 {
        let mut m = String::from_str("Invoice with id ");
        m.append(text.as_str());
        m.append(" not found");
        Err(RepoError::NotFound(m))
    } else {
        Ok(DeleteResults { id: text, deleted: true })
    }
}

/// The repository outcome of removing an item from an invoice, given how
/// many association rows the statement removed.
pub fn item_removed_outcome(item_id: u128, rows_affected: u64) -> (r: DeleteResults)
    ensures
        r.id@ == uuid_text(item_id),
        r.deleted == (rows_affected > 0),
{
    DeleteResults { id: format_uuid(item_id), deleted: rows_affected > 0 }
}

/// The checks before a person update: its fields are validated first, then
/// its id must be a well-formed external identifier. On success, the id.
pub fn plan_update_person(req: &UpdatePersonRequest) -> (r: Result<u128, ServiceError>)
    ensures
        !person_fields_ok(req.name@, req.email@) ==> (r matches Err(e) && e is InputValidationError),
        person_fields_ok(req.name@, req.email@) ==> match parsed_uuid(req.id@) {
            Some(v) => r == Ok::<u128, ServiceError>(v),
            None => r matches Err(ServiceError::InvalidUuid(m)) && m@ == req.id@,
        },
{
    req.validate()?;
    match parse_uuid(req.id.as_str()) {
        Some(v) => Ok(v),
        None => Err(ServiceError::from(RepoError::InvalidUuid(req.id.clone()))),
    }
}

/// The checks before an item update: the path id equals the body id, the
/// body id is a well-formed external identifier, and the fields meet their
/// constraints, in this order. On success, the id.
pub fn plan_update_item(path_id: &str, req: &UpdateItemRequest) -> (r: Result<u128, ServiceError>)
    ensures
        path_id@ != req.id@ ==> (r matches Err(e) && e is InputValidationError),
        path_id@ == req.id@ && parsed_uuid(req.id@) is None ==> (r matches Err(
            ServiceError::InvalidUuid(m),
        ) && m@ == req.id@),
        path_id@ == req.id@ && parsed_uuid(req.id@) is Some ==> if item_fields_ok(
            req.name@,
            req.unit_price,
        ) {
            r == Ok::<u128, ServiceError>(parsed_uuid(req.id@).unwrap())
        } else {
            r matches Err(e) && e is InputValidationError
        },
{
    let path_text = String::from_str(path_id);
    if path_text != req.id {
        let mut m = String::from_str("ID in path does not match ID in request. path: ");
        m.append(path_id);
        m.append(", request: ");
        m.append(req.id.as_str());
        return Err(ServiceError::InputValidationError(m));
    }
    match parse_uuid(req.id.as_str()) {
        None => Err(ServiceError::from(RepoError::InvalidUuid(req.id.clone()))),
        Some(v) => {
            req.validate()?;
            Ok(v)
        },
    }
}

} // verus!
