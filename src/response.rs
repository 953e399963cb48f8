use vstd::prelude::*;

verus! {

/// Outcome handed back to the transport layer: a numeric status class, a
/// human-readable message and an optional payload.
pub struct HttpResponse<T> {
    pub status: u16,
    pub message: String,
    pub data: Option<T>,
}

/// Status of a successful read or update.
pub const STATUS_OK: u16 = 200;

/// Status of a successful creation.
pub const STATUS_CREATED: u16 = 201;

/// Status of a validation error: malformed identifier, unknown type tag,
/// duplicate name, exceeded quota.
pub const STATUS_BAD_REQUEST: u16 = 400;

/// Status of a lookup that found nothing.
pub const STATUS_NOT_FOUND: u16 = 404;

/// Status of an infrastructure failure of the store.
pub const STATUS_INTERNAL: u16 = 500;

/// A response with no payload.
pub fn failure<T>(status: u16, message: &str) -> (r: HttpResponse<T>)
    ensures
        r.status == status,
        r.message@ == message@,
        r.data is None,
{
    HttpResponse { status, message: message.to_string(), data: None }
}

/// A response that carries `value`.
pub fn success<T>(status: u16, message: &str, value: T) -> (r: HttpResponse<T>)
    ensures
        r.status == status,
        r.message@ == message@,
        r.data == Some(value),
{
    HttpResponse { status, message: message.to_string(), data: Some(value) }
}

} // verus!
