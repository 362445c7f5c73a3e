//! The two queues of the consumer: the work queue, and the retry queue that
//! hands each message back to the work queue after a fixed delay.

use lapin::types::{FieldTable, LongString};
use vstd::prelude::*;
use vstd::string::StringExecFns;

verus! {

/// `lapin::types::FieldTable`, the table of arguments a queue is declared with.
#[verifier::external_type_specification]
#[verifier::external_body]
pub struct ExFieldTable(FieldTable);

/// The value of a queue argument.
pub enum ArgumentValue {
    /// A long string, given by its text.
    Text(Seq<char>),
    /// A signed 64-bit number.
    Long(i64),
}

/// What a table of arguments holds: the value under each key.
pub uninterp spec fn field_entries(table: FieldTable) -> Map<Seq<char>, ArgumentValue>;

/// The entries of a table that holds nothing.
pub open spec fn no_arguments() -> Map<Seq<char>, ArgumentValue> {
    Map::empty()
}

/// The name of the work queue.
pub const QUEUE_NAME: &'static str = "webhooks";

/// The name of the retry queue.
pub const RETRY_QUEUE_NAME: &'static str = "webhooks_retry";

/// Calls `FieldTable::default`. Trusted: the new table holds nothing.
#[verifier::external_body]
fn new_field_table() -> (table: FieldTable)
    ensures
        field_entries(table) == no_arguments(),
{
    FieldTable::default()
}

/// Calls `FieldTable::insert` with a long string made of `value`. Trusted:
/// afterwards the table holds that text under `key`, in place of whatever it
/// held there, and is otherwise unchanged.
#[verifier::external_body]
fn insert_text(table: &mut FieldTable, key: &str, value: &str)
    ensures
        field_entries(*final(table)) == field_entries(*old(table)).insert(
            key@,
            ArgumentValue::Text(value@),
        ),
{
    table.insert(key.into(), LongString::from(value).into());
}

/// Calls `FieldTable::insert` with the number `value`. Trusted: afterwards
/// the table holds that number under `key`, in place of whatever it held
/// there, and is otherwise unchanged.
#[verifier::external_body]
fn insert_long(table: &mut FieldTable, key: &str, value: i64)
    ensures
        field_entries(*final(table)) == field_entries(*old(table)).insert(
            key@,
            ArgumentValue::Long(value),
        ),
{
    table.insert(key.into(), value.into());
}

/// A queue to declare.
#[derive(Debug, PartialEq)]
pub struct QueueDeclaration {
    /// The queue's name.
    pub name: String,
    /// Whether the queue outlives a restart of the broker.
    pub durable: bool,
    /// The arguments of the declaration.
    pub arguments: FieldTable,
}

/// The arguments of the work queue: replicated by quorum.
pub open spec fn main_queue_arguments() -> Map<Seq<char>, ArgumentValue> {
    no_arguments().insert("x-queue-type"@, ArgumentValue::Text("quorum"@))
}

/// The arguments of the retry queue: a message expires after `ttl`
/// milliseconds and then goes, through the default exchange, to the work
/// queue.
pub open spec fn retry_queue_arguments(ttl: i64) -> Map<Seq<char>, ArgumentValue> {
    no_arguments().insert("x-dead-letter-exchange"@, ArgumentValue::Text(""@)).insert(
        "x-dead-letter-routing-key"@,
        ArgumentValue::Text(QUEUE_NAME@),
    ).insert("x-message-ttl"@, ArgumentValue::Long(ttl))
}

/// The work queue: durable, replicated by quorum.
pub fn main_queue() -> (queue: QueueDeclaration)
    ensures
        queue.name@ == QUEUE_NAME@,
        queue.durable,
        field_entries(queue.arguments) == main_queue_arguments(),
{
    let mut arguments = new_field_table();
    insert_text(&mut arguments, "x-queue-type", "quorum");
    QueueDeclaration { name: String::from_str(QUEUE_NAME), durable: true, arguments }
}

/// The retry queue: durable, and a delay line. A message put on it comes
/// back on the work queue after `retry_delay_ms` milliseconds.
pub fn retry_queue(retry_delay_ms: u64) -> (queue: QueueDeclaration)
    ensures
        queue.name@ == RETRY_QUEUE_NAME@,
        queue.durable,
        field_entries(queue.arguments) == retry_queue_arguments(retry_delay_ms as i64),
{
    let mut arguments = new_field_table();
    insert_text(&mut arguments, "x-dead-letter-exchange", "");
    insert_text(&mut arguments, "x-dead-letter-routing-key", QUEUE_NAME);
    insert_long(&mut arguments, "x-message-ttl", retry_delay_ms as i64);
    QueueDeclaration { name: String::from_str(RETRY_QUEUE_NAME), durable: true, arguments }
}

} // verus!
