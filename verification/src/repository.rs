//! The record repository: for each operation, the statement to execute and
//! the outcome that the store's reply amounts to. The caller executes the
//! statement against its connection pool and hands the reply back.

use crate::composer::{compose, update_text, update_values};
use crate::driver::DriverFault;
use crate::model::{NewOrder, Order, Patch, Value, ValueView};
use crate::statement::{
    lemma_count_concat, lemma_count_placeholder, lemma_count_plain, placeholder,
    placeholder_count, push_placeholder, Statement,
};
use vstd::prelude::*;
use vstd::string::StringExecFns;

verus! {

/// Why an operation failed.
#[derive(Clone, Copy, Debug, PartialEq, Eq, Structural)]
pub enum RepoError {
    /// No connection to the store could be had.
    StorageUnavailable,
    /// The store or the driver failed while the statement was executed.
    QueryFailed,
    /// No order has the identifier asked for.
    NotFound,
}

/// Whether `fault` means that no connection could be had.
pub open spec fn connection_lost(fault: DriverFault) -> bool {
    fault == DriverFault::PoolTimedOut || fault == DriverFault::PoolClosed || fault
        == DriverFault::Io || fault == DriverFault::Tls
}

/// The failure that a driver fault amounts to.
pub open spec fn failure(fault: DriverFault) -> RepoError {
    if connection_lost(fault) {
        RepoError::StorageUnavailable
    } else {
        RepoError::QueryFailed
    }
}

/// The outcome of an operation that hands on what the store replied.
pub open spec fn outcome<T>(reply: Result<T, DriverFault>) -> Result<T, RepoError> {
    match reply {
        Ok(value) => Ok(value),
        Err(fault) => Err(failure(fault)),
    }
}

/// The failure that a driver fault amounts to.
pub fn classify(fault: DriverFault) -> (error: RepoError)
    ensures
        error == failure(fault),
        error != RepoError::NotFound,
{
    match fault {
        DriverFault::PoolTimedOut => RepoError::StorageUnavailable,
        DriverFault::PoolClosed => RepoError::StorageUnavailable,
        DriverFault::Io => RepoError::StorageUnavailable,
        DriverFault::Tls => RepoError::StorageUnavailable,
        DriverFault::RowNotFound => RepoError::QueryFailed,
        DriverFault::Database => RepoError::QueryFailed,
        DriverFault::Other => RepoError::QueryFailed,
    }
}

/// Hands on what the store replied, with a fault turned into a failure.
fn settle<T>(reply: Result<T, DriverFault>) -> (result: Result<T, RepoError>)
    ensures
        result == outcome(reply),
{
    match reply {
        Ok(value) => Ok(value),
        Err(fault) => Err(classify(fault)),
    }
}

/// The text of the statement that reads all orders.
pub open spec fn list_text() -> Seq<char> {
    "SELECT * FROM orders ORDER BY id"@
}

/// The text of the statement that inserts an order.
pub open spec fn create_text() -> Seq<char> {
    "INSERT INTO orders (name, coffee_name, size, total) VALUES ("@ + placeholder(1) + ", "@
        + placeholder(2) + ", "@ + placeholder(3) + ", "@ + placeholder(4) + ") RETURNING id"@
}

/// The text of the statement that reads the order with a given identifier.
pub open spec fn get_text() -> Seq<char> {
    "SELECT * FROM orders WHERE id = "@ + placeholder(1)
}

/// The text of the statement that deletes the order with a given identifier.
pub open spec fn delete_text() -> Seq<char> {
    "DELETE FROM orders WHERE id = "@ + placeholder(1)
}

/// Whether the identifiers of `rows` ascend strictly.
pub open spec fn ascending(rows: Seq<Order>) -> bool {
    forall|i: int, j: int| 0 <= i < j < rows.len() ==> rows[i].id < rows[j].id
}

/// Whether `rows[i]` is the first row with the identifier `id`.
pub open spec fn first_match(rows: Seq<Order>, id: int, i: int) -> bool {
    &&& 0 <= i < rows.len()
    &&& rows[i].id == id
    &&& forall|j: int| 0 <= j < i ==> rows[j].id != id
}

/// The statement that reads all orders, sorted by identifier.
pub fn begin_list() -> (statement: Statement)
    ensures
        statement@.text == list_text(),
        statement@.values == Seq::<ValueView>::empty(),
        statement@.balanced(),
{
    let text: String = "SELECT * FROM orders ORDER BY id".to_owned();
    let values: Vec<Value> = Vec::new();
    proof {
        reveal_strlit("SELECT * FROM orders ORDER BY id");
        lemma_count_plain(list_text());
    }
    let statement = Statement { text, values };
    assert(statement@.values =~= Seq::<ValueView>::empty());
    statement
}

/// The outcome of reading all orders: the rows as the store delivered them,
/// in its order, or the failure.
pub fn finish_list(reply: Result<Vec<Order>, DriverFault>) -> (result: Result<
    Vec<Order>,
    RepoError,
>)
    ensures
        result == outcome(reply),
        result != Err::<Vec<Order>, RepoError>(RepoError::NotFound),
{
    settle(reply)
}

/// The statement that inserts `payload` and returns the new identifier. The
/// four attributes are bound in the order name, coffee_name, size, total.
pub fn begin_create(payload: NewOrder) -> (statement: Statement)
    ensures
        statement@.text == create_text(),
        statement@.values == seq![
            ValueView::Text(payload@.name),
            ValueView::Text(payload@.coffee_name),
            ValueView::Text(payload@.size),
            ValueView::Int(payload@.total),
        ],
        statement@.balanced(),
{
    let NewOrder { name, coffee_name, size, total } = payload;
    let mut text: String = "INSERT INTO orders (name, coffee_name, size, total) VALUES (".to_owned();
    push_placeholder(&mut text, 1);
    text.append(", ");
    push_placeholder(&mut text, 2);
    text.append(", ");
    push_placeholder(&mut text, 3);
    text.append(", ");
    push_placeholder(&mut text, 4);
    text.append(") RETURNING id");
    let mut values: Vec<Value> = Vec::new();
    values.push(Value::Text(name));
    values.push(Value::Text(coffee_name));
    values.push(Value::Text(size));
    values.push(Value::Int(total));
    proof {
        lemma_create_count();
    }
    let statement = Statement { text, values };
    assert(statement@.values =~= seq![
        ValueView::Text(payload@.name),
        ValueView::Text(payload@.coffee_name),
        ValueView::Text(payload@.size),
        ValueView::Int(payload@.total),
    ]);
    statement
}

/// The outcome of creating an order: the identifier that the store assigned,
/// or the failure.
pub fn finish_create(reply: Result<i32, DriverFault>) -> (result: Result<i32, RepoError>)
    ensures
        result == outcome(reply),
        result != Err::<i32, RepoError>(RepoError::NotFound),
{
    settle(reply)
}

/// The statement that reads the order `id`.
pub fn begin_get(id: i32) -> (statement: Statement)
    ensures
        statement@.text == get_text(),
        statement@.values == seq![ValueView::Int(id as int)],
        statement@.balanced(),
{
    let mut text: String = "SELECT * FROM orders WHERE id = ".to_owned();
    push_placeholder(&mut text, 1);
    let mut values: Vec<Value> = Vec::new();
    values.push(Value::Int(id));
    proof {
        reveal_strlit("SELECT * FROM orders WHERE id = ");
        lemma_filter_count("SELECT * FROM orders WHERE id = "@);
    }
    let statement = Statement { text, values };
    assert(statement@.values =~= seq![ValueView::Int(id as int)]);
    statement
}

/// The outcome of reading the order `id`: the first delivered row with that
/// identifier; `NotFound` where no delivered row has it, or where the driver
/// reports that it found no row; otherwise the failure.
pub fn finish_get(id: i32, reply: Result<Vec<Order>, DriverFault>) -> (result: Result<
    Order,
    RepoError,
>)
    ensures
        reply matches Ok(rows) ==> match result {
            Ok(order) => exists|i: int| #[trigger] first_match(rows@, id as int, i) && order == rows[i],
            Err(error) => error == RepoError::NotFound && forall|i: int|
                0 <= i < rows.len() ==> rows[i].id != id,
        },
        reply matches Err(fault) ==> result == Err::<Order, RepoError>(
            if fault == DriverFault::RowNotFound {
                RepoError::NotFound
            } else {
                failure(fault)
            },
        ),
{
    match reply {
        Ok(rows) => {
            let mut rows = rows;
            let ghost delivered = rows@;
            let mut at: usize = 0;
            while at < rows.len()
                invariant
                    reply matches Ok(given) && given@ == delivered,
                    rows@ == delivered,
                    at <= rows.len(),
                    forall|j: int| 0 <= j < at ==> delivered[j].id != id,
                decreases rows.len() - at,
            {
                if rows[at].id == id {
                    let order = rows.swap_remove(at);
                    assert(first_match(delivered, id as int, at as int));
                    return Ok(order);
                }
                at = at + 1;
            }
            Err(RepoError::NotFound)
        },
        Err(fault) => match fault {
            DriverFault::RowNotFound => Err(RepoError::NotFound),
            _ => Err(classify(fault)),
        },
    }
}

/// What to do for an update.
#[derive(Clone, Debug, PartialEq, Eq)]
pub enum UpdatePlan {
    /// Nothing is to be executed: the update affects this many rows.
    Answer(u64),
    /// The statement to execute.
    Execute(Statement),
}

/// The plan for updating the order `id` with `patch`. A patch without a
/// present field changes nothing: no statement is issued and zero affected
/// rows are reported. Any other patch is executed as the composed statement.
pub fn begin_update(id: i32, patch: Patch) -> (plan: UpdatePlan)
    ensures
        patch@.is_empty() ==> plan == UpdatePlan::Answer(0),
        !patch@.is_empty() ==> (plan matches UpdatePlan::Execute(statement) && statement@.text
            == update_text(patch@) && statement@.values == update_values(id as int, patch@)
            && statement@.balanced()),
{
    match compose(id, patch) {
        Some(statement) => UpdatePlan::Execute(statement),
        None => UpdatePlan::Answer(0),
    }
}

/// The outcome of an executed update: the number of rows that the store
/// reports as affected, or the failure. That no row was affected is no
/// failure: an update of an order that does not exist succeeds with zero.
pub fn finish_update(reply: Result<u64, DriverFault>) -> (result: Result<u64, RepoError>)
    ensures
        result == outcome(reply),
        result != Err::<u64, RepoError>(RepoError::NotFound),
{
    settle(reply)
}

/// The statement that deletes the order `id`.
pub fn begin_delete(id: i32) -> (statement: Statement)
    ensures
        statement@.text == delete_text(),
        statement@.values == seq![ValueView::Int(id as int)],
        statement@.balanced(),
{
    let mut text: String = "DELETE FROM orders WHERE id = ".to_owned();
    push_placeholder(&mut text, 1);
    let mut values: Vec<Value> = Vec::new();
    values.push(Value::Int(id));
    proof {
        reveal_strlit("DELETE FROM orders WHERE id = ");
        lemma_filter_count("DELETE FROM orders WHERE id = "@);
    }
    let statement = Statement { text, values };
    assert(statement@.values =~= seq![ValueView::Int(id as int)]);
    statement
}

/// The outcome of a delete: the number of rows that the store reports as
/// affected, or the failure. That no row was affected is no failure.
pub fn finish_delete(reply: Result<u64, DriverFault>) -> (result: Result<u64, RepoError>)
    ensures
        result == outcome(reply),
        result != Err::<u64, RepoError>(RepoError::NotFound),
{
    settle(reply)
}

/// Text without a dollar sign, followed by placeholder 1, holds one
/// placeholder.
proof fn lemma_filter_count(head: Seq<char>)
    requires
        crate::statement::plain(head),
    ensures
        placeholder_count(head + placeholder(1)) == 1,
{
    lemma_count_plain(head);
    lemma_count_placeholder(1);
    lemma_count_concat(head, placeholder(1));
}

/// The insert statement holds four placeholders.
proof fn lemma_create_count()
    ensures
        placeholder_count(create_text()) == 4,
{
    let head = "INSERT INTO orders (name, coffee_name, size, total) VALUES ("@;
    let comma = ", "@;
    let tail = ") RETURNING id"@;
    reveal_strlit("INSERT INTO orders (name, coffee_name, size, total) VALUES (");
    reveal_strlit(", ");
    reveal_strlit(") RETURNING id");
    lemma_count_plain(head);
    lemma_count_plain(comma);
    lemma_count_plain(tail);
    lemma_count_placeholder(1);
    lemma_count_placeholder(2);
    lemma_count_placeholder(3);
    lemma_count_placeholder(4);
    let a = head + placeholder(1);
    lemma_count_concat(head, placeholder(1));
    lemma_count_concat(a, comma);
    let b = a + comma + placeholder(2);
    lemma_count_concat(a + comma, placeholder(2));
    lemma_count_concat(b, comma);
    let c = b + comma + placeholder(3);
    lemma_count_concat(b + comma, placeholder(3));
    lemma_count_concat(c, comma);
    let d = c + comma + placeholder(4);
    lemma_count_concat(c + comma, placeholder(4));
    lemma_count_concat(d, tail);
}

/// Reading all orders keeps the store's order: where the store delivers its
/// rows with ascending identifiers, as the statement asks it to, the listed
/// orders ascend too, and they are the delivered rows.
pub proof fn list_keeps_order(rows: Vec<Order>)
    requires
        ascending(rows@),
    ensures
        outcome(Ok::<Vec<Order>, DriverFault>(rows)) matches Ok(listed) && listed@ == rows@
            && ascending(listed@),
{
}

} // verus!
