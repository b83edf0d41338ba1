//! Conversions between storage rows and domain models.
use vstd::prelude::*;
use crate::ids::{format_uuid, parse_uuid, parsed_uuid, uuid_text};
use crate::model::{
    AuditInfo, CreateInvoiceRequest, CreateItemRequest, CreatePersonRequest, Invoice, InvoiceRow,
    InvoiceWithItemRow, Item, ItemRow, Person, PersonRow, UpdateInvoiceRequest, UpdateItemRequest,
    UpdatePersonRequest,
};

verus! {

/// `a` holds the four audit values given.
pub open spec fn audit_is(
    a: AuditInfo,
    created_by: String,
    created_at: i64,
    changed_by: String,
    updated_at: i64,
) -> bool {
    &&& a.created_by@ == created_by@
    &&& a.created_at == created_at
    &&& a.changed_by@ == changed_by@
    &&& a.updated_at == updated_at
}

/// The audit values of a model that was not read with its own audit columns.
pub open spec fn audit_is_empty(a: AuditInfo) -> bool {
    &&& a.created_by@.len() == 0
    &&& a.created_at == 0
    &&& a.changed_by@.len() == 0
    &&& a.updated_at == 0
}

/// `p` is the model of the row `r`.
pub open spec fn person_of_row(p: Person, r: PersonRow) -> bool {
    &&& p.seq == r.id
    &&& p.id@ == uuid_text(r.alt_id)
    &&& p.name@ == r.name@
    &&& p.email@ == r.email@
    &&& audit_is(p.audit_info, r.created_by, r.created_at, r.last_changed_by, r.last_update)
}

/// `it` is the model of the row `r`.
pub open spec fn item_of_row(it: Item, r: ItemRow) -> bool {
    &&& it.seq == r.id
    &&& it.id@ == uuid_text(r.alt_id)
    &&& it.name@ == r.name@
    &&& it.description@ == r.description@
    &&& it.unit_price == r.unit_price
    &&& audit_is(it.audit_info, r.created_by, r.created_at, r.last_changed_by, r.last_update)
}

/// `inv` holds the invoice-level columns of `r`, and no items.
pub open spec fn invoice_of_row(inv: Invoice, r: InvoiceRow) -> bool {
    &&& inv.seq == r.id
    &&& inv.id@ == uuid_text(r.alt_id)
    &&& inv.user_id@ == uuid_text(r.user_id)
    &&& inv.total == r.total
    &&& inv.paid == r.paid
    &&& audit_is(inv.audit_info, r.created_by, r.created_at, r.last_changed_by, r.last_update)
    &&& inv.items.len() == 0
}

/// `inv` holds the invoice-level columns of the joined row `r` (its items aside).
pub open spec fn invoice_head_of_joined(inv: Invoice, r: InvoiceWithItemRow) -> bool {
    &&& inv.seq == r.id
    &&& inv.id@ == uuid_text(r.alt_id)
    &&& inv.user_id@ == uuid_text(r.user_id)
    &&& inv.total == r.total
    &&& inv.paid == r.paid
    &&& audit_is(inv.audit_info, r.created_by, r.created_at, r.last_changed_by, r.last_update)
}

/// `it` is the item that the joined row `r` carries.
pub open spec fn item_of_joined(it: Item, r: InvoiceWithItemRow) -> bool {
    &&& it.seq == 0
    &&& it.id@ == uuid_text(r.item_alt_id)
    &&& it.name@ == r.item_name@
    &&& it.description@ == r.item_description@
    &&& it.unit_price == r.item_unit_price
    &&& audit_is_empty(it.audit_info)
}

/// `inv` is the invoice assembled from the joined rows: its own columns from
/// the first row, and one item per row, in order.
pub open spec fn invoice_of_joined(inv: Invoice, rows: Seq<InvoiceWithItemRow>) -> bool {
    &&& rows.len() > 0
    &&& invoice_head_of_joined(inv, rows[0])
    &&& inv.items.len() == rows.len()
    &&& forall|i: int| 0 <= i < rows.len() ==> item_of_joined(#[trigger] inv.items[i], rows[i])
}

fn empty_audit() -> (r: AuditInfo)
    ensures
        audit_is_empty(r),
{
    AuditInfo { created_by: String::new(), created_at: 0, changed_by: String::new(), updated_at: 0 }
}

/// The domain model of a person row.
pub fn person_from_row(row: &PersonRow) -> (r: Person)
    ensures
        person_of_row(r, *row),
{
    Person {
        seq: row.id,
        id: format_uuid(row.alt_id),
        name: row.name.clone(),
        email: row.email.clone(),
        audit_info: AuditInfo {
            created_by: row.created_by.clone(),
            created_at: row.created_at,
            changed_by: row.last_changed_by.clone(),
            updated_at: row.last_update,
        },
    }
}

/// The row of a person model; `None` when its id is not a well-formed
/// external identifier.
pub fn row_from_person(p: &Person) -> (r: Option<PersonRow>)
    ensures
        r is None <==> parsed_uuid(p.id@) is None,
        r matches Some(row) ==> {
            &&& row.alt_id == parsed_uuid(p.id@).unwrap()
            &&& row.id == p.seq
            &&& row.name@ == p.name@
            &&& row.email@ == p.email@
            &&& audit_is(p.audit_info, row.created_by, row.created_at, row.last_changed_by, row.last_update)
        },
{
    match parse_uuid(p.id.as_str()) {
        None => None,
        Some(alt_id) => Some(
            PersonRow {
                id: p.seq,
                alt_id,
                name: p.name.clone(),
                email: p.email.clone(),
                created_by: p.audit_info.created_by.clone(),
                created_at: p.audit_info.created_at,
                last_changed_by: p.audit_info.changed_by.clone(),
                last_update: p.audit_info.updated_at,
            },
        ),
    }
}

/// The domain model of an item row.
pub fn item_from_row(row: &ItemRow) -> (r: Item)
    ensures
        item_of_row(r, *row),
{
    Item {
        seq: row.id,
        id: format_uuid(row.alt_id),
        name: row.name.clone(),
        description: row.description.clone(),
        unit_price: row.unit_price,
        audit_info: AuditInfo {
            created_by: row.created_by.clone(),
            created_at: row.created_at,
            changed_by: row.last_changed_by.clone(),
            updated_at: row.last_update,
        },
    }
}

/// The row of an item model; `None` when its id is not a well-formed
/// external identifier.
pub fn row_from_item(it: &Item) -> (r: Option<ItemRow>)
    ensures
        r is None <==> parsed_uuid(it.id@) is None,
        r matches Some(row) ==> {
            &&& row.alt_id == parsed_uuid(it.id@).unwrap()
            &&& row.id == it.seq
            &&& row.name@ == it.name@
            &&& row.description@ == it.description@
            &&& row.unit_price == it.unit_price
            &&& audit_is(it.audit_info, row.created_by, row.created_at, row.last_changed_by, row.last_update)
        },
{
    match parse_uuid(it.id.as_str()) {
        None => None,
        Some(alt_id) => Some(
            ItemRow {
                id: it.seq,
                alt_id,
                name: it.name.clone(),
                description: it.description.clone(),
                unit_price: it.unit_price,
                created_by: it.audit_info.created_by.clone(),
                created_at: it.audit_info.created_at,
                last_changed_by: it.audit_info.changed_by.clone(),
                last_update: it.audit_info.updated_at,
            },
        ),
    }
}

/// The domain model of an invoice row, without items.
pub fn invoice_from_row(row: &InvoiceRow) -> (r: Invoice)
    ensures
        invoice_of_row(r, *row),
{
    Invoice {
        seq: row.id,
        id: format_uuid(row.alt_id),
        user_id: format_uuid(row.user_id),
        total: row.total,
        paid: row.paid,
        audit_info: AuditInfo {
            created_by: row.created_by.clone(),
            created_at: row.created_at,
            changed_by: row.last_changed_by.clone(),
            updated_at: row.last_update,
        },
        items: Vec::new(),
    }
}

fn item_from_joined(row: &InvoiceWithItemRow) -> (r: Item)
    ensures
        item_of_joined(r, *row),
{
    Item {
        seq: 0,
        id: format_uuid(row.item_alt_id),
        name: row.item_name.clone(),
        description: row.item_description.clone(),
        unit_price: row.item_unit_price,
        audit_info: empty_audit(),
    }
}

/// Folds the rows of the invoice/item join into one invoice: the invoice
/// columns are read from the first row, and each row gives one item.
pub fn invoice_from_joined_rows(rows: &Vec<InvoiceWithItemRow>) -> (r: Invoice)
    requires
        rows.len() > 0,
    ensures
        invoice_of_joined(r, rows@),
{
    let mut items: Vec<Item> = Vec::new();
    let mut i: usize = 0;
    while i < rows.len()
        invariant
            i <= rows.len(),
            items.len() == i,
            forall|k: int| 0 <= k < i ==> item_of_joined(#[trigger] items[k], rows[k]),
        decreases rows.len() - i,
    {
        items.push(item_from_joined(&rows[i]));
        i = i + 1;
    }
    let row = &rows[0];
    Invoice {
        seq: row.id,
        id: format_uuid(row.alt_id),
        user_id: format_uuid(row.user_id),
        total: row.total,
        paid: row.paid,
        audit_info: AuditInfo {
            created_by: row.created_by.clone(),
            created_at: row.created_at,
            changed_by: row.last_changed_by.clone(),
            updated_at: row.last_update,
        },
        items,
    }
}

/// The models of a sequence of person rows, in the same order.
pub fn persons_from_rows(rows: &Vec<PersonRow>) -> (r: Vec<Person>)
    ensures
        r.len() == rows.len(),
        forall|i: int| 0 <= i < rows.len() ==> person_of_row(#[trigger] r[i], rows[i]),
{
    let mut out: Vec<Person> = Vec::new();
    let mut i: usize = 0;
    while i < rows.len()
        invariant
            i <= rows.len(),
            out.len() == i,
            forall|k: int| 0 <= k < i ==> person_of_row(#[trigger] out[k], rows[k]),
        decreases rows.len() - i,
    {
        out.push(person_from_row(&rows[i]));
        i = i + 1;
    }
    out
}

/// The models of a sequence of item rows, in the same order.
pub fn items_from_rows(rows: &Vec<ItemRow>) -> (r: Vec<Item>)
    ensures
        r.len() == rows.len(),
        forall|i: int| 0 <= i < rows.len() ==> item_of_row(#[trigger] r[i], rows[i]),
{
    let mut out: Vec<Item> = Vec::new();
    let mut i: usize = 0;
    while i < rows.len()
        invariant
            i <= rows.len(),
            out.len() == i,
            forall|k: int| 0 <= k < i ==> item_of_row(#[trigger] out[k], rows[k]),
        decreases rows.len() - i,
    {
        out.push(item_from_row(&rows[i]));
        i = i + 1;
    }
    out
}

/// The models of a sequence of invoice rows, in the same order, without items.
pub fn invoices_from_rows(rows: &Vec<InvoiceRow>) -> (r: Vec<Invoice>)
    ensures
        r.len() == rows.len(),
        forall|i: int| 0 <= i < rows.len() ==> invoice_of_row(#[trigger] r[i], rows[i]),
{
    let mut out: Vec<Invoice> = Vec::new();
    let mut i: usize = 0;
    while i < rows.len()
        invariant
            i <= rows.len(),
            out.len() == i,
            forall|k: int| 0 <= k < i ==> invoice_of_row(#[trigger] out[k], rows[k]),
        decreases rows.len() - i,
    {
        out.push(invoice_from_row(&rows[i]));
        i = i + 1;
    }
    out
}

/// The row that storage holds once a person was created from `req` at time
/// `now`, under the sequence id and external id that storage assigned.
pub open spec fn person_created(req: CreatePersonRequest, seq: i32, alt_id: u128, now: i64) -> PersonRow {
    PersonRow {
        id: seq,
        alt_id,
        name: req.name,
        email: req.email,
        created_by: req.created_by,
        created_at: now,
        last_changed_by: req.created_by,
        last_update: now,
    }
}

/// The row that storage holds once the row `old` was updated from `req` at
/// time `now`.
pub open spec fn person_updated(old: PersonRow, req: UpdatePersonRequest, now: i64) -> PersonRow {
    PersonRow {
        id: old.id,
        alt_id: old.alt_id,
        name: req.name,
        email: req.email,
        created_by: old.created_by,
        created_at: old.created_at,
        last_changed_by: req.changed_by,
        last_update: now,
    }
}

/// The row that storage holds once an item was created from `req` at time `now`.
pub open spec fn item_created(req: CreateItemRequest, seq: i32, alt_id: u128, now: i64) -> ItemRow {
    ItemRow {
        id: seq,
        alt_id,
        name: req.name,
        description: req.description,
        unit_price: req.unit_price,
        created_by: req.created_by,
        created_at: now,
        last_changed_by: req.created_by,
        last_update: now,
    }
}

/// The row that storage holds once the item row `old` was updated from `req`
/// at time `now`.
pub open spec fn item_updated(old: ItemRow, req: UpdateItemRequest, now: i64) -> ItemRow {
    ItemRow {
        id: old.id,
        alt_id: old.alt_id,
        name: req.name,
        description: req.description,
        unit_price: req.unit_price,
        created_by: old.created_by,
        created_at: old.created_at,
        last_changed_by: req.changed_by,
        last_update: now,
    }
}

/// The row that storage holds once an invoice was created from `req` at time `now`.
pub open spec fn invoice_created(req: CreateInvoiceRequest, seq: i32, alt_id: u128, now: i64) -> InvoiceRow {
    InvoiceRow {
        id: seq,
        alt_id,
        user_id: req.user_id,
        total: req.total,
        paid: req.paid,
        created_by: req.created_by,
        created_at: now,
        last_changed_by: req.created_by,
        last_update: now,
    }
}

/// The row that storage holds once the invoice row `old` was updated from
/// `req` at time `now`.
pub open spec fn invoice_updated(old: InvoiceRow, req: UpdateInvoiceRequest, now: i64) -> InvoiceRow {
    InvoiceRow {
        id: old.id,
        alt_id: old.alt_id,
        user_id: old.user_id,
        total: req.total,
        paid: req.paid,
        created_by: old.created_by,
        created_at: old.created_at,
        last_changed_by: req.changed_by,
        last_update: now,
    }
}

/// Round trip of a person: the model read back after a create holds the
/// request's fields, with the creator and the creation time in all four
/// audit fields; the model read back after an update holds the new fields,
/// the new `changed_by` and `updated_at`, and keeps its ids, `created_by`
/// and `created_at`.
pub proof fn lemma_person_round_trip(
    create: CreatePersonRequest,
    seq: i32,
    alt_id: u128,
    created_at: i64,
    created: Person,
    update: UpdatePersonRequest,
    updated_at: i64,
    updated: Person,
)
    requires
        person_of_row(created, person_created(create, seq, alt_id, created_at)),
        person_of_row(updated, person_updated(person_created(create, seq, alt_id, created_at), update, updated_at)),
    ensures
        created.id@ == uuid_text(alt_id),
        created.name@ == create.name@,
        created.email@ == create.email@,
        created.audit_info.created_by@ == create.created_by@,
        created.audit_info.changed_by@ == create.created_by@,
        created.audit_info.created_at == created_at,
        created.audit_info.updated_at == created_at,
        updated.seq == created.seq,
        updated.id@ == created.id@,
        updated.name@ == update.name@,
        updated.email@ == update.email@,
        updated.audit_info.changed_by@ == update.changed_by@,
        updated.audit_info.updated_at == updated_at,
        updated.audit_info.created_by@ == created.audit_info.created_by@,
        updated.audit_info.created_at == created.audit_info.created_at,
{
}

/// Round trip of an item: as for a person, over name, description and unit
/// price.
pub proof fn lemma_item_round_trip(
    create: CreateItemRequest,
    seq: i32,
    alt_id: u128,
    created_at: i64,
    created: Item,
    update: UpdateItemRequest,
    updated_at: i64,
    updated: Item,
)
    requires
        item_of_row(created, item_created(create, seq, alt_id, created_at)),
        item_of_row(updated, item_updated(item_created(create, seq, alt_id, created_at), update, updated_at)),
    ensures
        created.id@ == uuid_text(alt_id),
        created.name@ == create.name@,
        created.description@ == create.description@,
        created.unit_price == create.unit_price,
        created.audit_info.created_by@ == create.created_by@,
        created.audit_info.changed_by@ == create.created_by@,
        created.audit_info.created_at == created_at,
        created.audit_info.updated_at == created_at,
        updated.seq == created.seq,
        updated.id@ == created.id@,
        updated.name@ == update.name@,
        updated.description@ == update.description@,
        updated.unit_price == update.unit_price,
        updated.audit_info.changed_by@ == update.changed_by@,
        updated.audit_info.updated_at == updated_at,
        updated.audit_info.created_by@ == created.audit_info.created_by@,
        updated.audit_info.created_at == created.audit_info.created_at,
{
}

/// Round trip of an invoice: as for a person, over user id, total and paid.
pub proof fn lemma_invoice_round_trip(
    create: CreateInvoiceRequest,
    seq: i32,
    alt_id: u128,
    created_at: i64,
    created: Invoice,
    update: UpdateInvoiceRequest,
    updated_at: i64,
    updated: Invoice,
)
    requires
        invoice_of_row(created, invoice_created(create, seq, alt_id, created_at)),
        invoice_of_row(updated, invoice_updated(invoice_created(create, seq, alt_id, created_at), update, updated_at)),
    ensures
        created.id@ == uuid_text(alt_id),
        created.user_id@ == uuid_text(create.user_id),
        created.total == create.total,
        created.paid == create.paid,
        created.audit_info.created_by@ == create.created_by@,
        created.audit_info.changed_by@ == create.created_by@,
        created.audit_info.created_at == created_at,
        created.audit_info.updated_at == created_at,
        updated.seq == created.seq,
        updated.id@ == created.id@,
        updated.user_id@ == created.user_id@,
        updated.total == update.total,
        updated.paid == update.paid,
        updated.audit_info.changed_by@ == update.changed_by@,
        updated.audit_info.updated_at == updated_at,
        updated.audit_info.created_by@ == created.audit_info.created_by@,
        updated.audit_info.created_at == created.audit_info.created_at,
{
}

} // verus!
