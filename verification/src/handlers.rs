//! The request-to-response rules of the three endpoints: parameter
//! defaulting, range validation, and the computation each endpoint performs.
//! Transport, timing and JSON encoding live outside the library; these
//! functions take the parsed query parameters as plain values and hand back
//! plain results.

use crate::payload::generate_items;
use crate::payload::spec_item_ok;
use crate::payload::Item;
use crate::primes::count_primes;
use crate::primes::spec_prime_count;
use vstd::prelude::*;
use vstd::string::StringExecFns;

verus! {

/// The `n` a compute request falls back to when none is given.
pub const DEFAULT_COMPUTE_N: u64 = 10000;

/// The `size` a payload request falls back to when none is given.
pub const DEFAULT_PAYLOAD_SIZE: usize = 100;

/// The one request failure: a query parameter below its documented minimum,
/// reported by status code alone.
#[derive(Clone, Copy, Debug, PartialEq, Eq, Structural)]
pub enum RequestError {
    BadRequest,
}

impl RequestError {
    /// The HTTP status code that reports this error.
    pub fn status_code(&self) -> (code: u16)
        ensures
            code == 400,
    {
        400
    }
}

/// The successful result of a compute request: the effective `n` and the
/// count of primes up to it.
#[derive(Clone, Copy, Debug, PartialEq, Eq, Structural)]
pub struct ComputeOutcome {
    pub n: u64,
    pub prime_count: u64,
}

/// The successful result of a payload request: the items and their count.
pub struct PayloadOutcome {
    pub item_count: usize,
    pub items: Vec<Item>,
}

/// The fixed fields of a health response.
pub struct HealthOutcome {
    pub status: String,
    pub app: String,
}

/// The `n` a compute request works with: the given parameter, or the
/// default when none was given.
pub open spec fn spec_effective_n(n_param: Option<u64>) -> u64 {
    match n_param {
        Some(n) => n,
        None => DEFAULT_COMPUTE_N,
    }
}

/// The whole behaviour of the compute endpoint on parsed parameters:
/// an effective `n` below 2 is rejected, any other yields the prime count.
pub open spec fn spec_compute(n_param: Option<u64>) -> Result<ComputeOutcome, RequestError> {
    let n = spec_effective_n(n_param);
    if n < 2 {
        Err(RequestError::BadRequest)
    } else {
        Ok(ComputeOutcome { n, prime_count: spec_prime_count(n as int) as u64 })
    }
}

/// Applies the compute endpoint's rules: default `n` to 10000, reject values
/// below 2, and count the primes in [2, n] otherwise.
pub fn handle_compute(n_param: Option<u64>) -> (r: Result<ComputeOutcome, RequestError>)
    ensures
        r == spec_compute(n_param),
{
    let n = match n_param {
        Some(v) => v,
        None => DEFAULT_COMPUTE_N,
    };
    if n < 2 {
        return Err(RequestError::BadRequest);
    }
    let count = count_primes(n);
    Ok(ComputeOutcome { n, prime_count: count })
}

/// The `size` a payload request works with: the given parameter, or the
/// default when none was given.
pub open spec fn spec_effective_size(size_param: Option<usize>) -> usize {
    match size_param {
        Some(s) => s,
        None => DEFAULT_PAYLOAD_SIZE,
    }
}

/// A payload request is rejected exactly when its effective size is below 1.
pub open spec fn spec_payload_rejected(size_param: Option<usize>) -> bool {
    spec_effective_size(size_param) < 1
}

/// Applies the payload endpoint's rules: default `size` to 100, reject sizes
/// below 1, and generate the items in index order otherwise.
pub fn handle_payload(size_param: Option<usize>) -> (r: Result<PayloadOutcome, RequestError>)
    requires
        42 * (spec_effective_size(size_param) as int) <= usize::MAX as int,
    ensures
        r is Err <==> spec_payload_rejected(size_param),
        r is Err ==> r == Err::<PayloadOutcome, RequestError>(RequestError::BadRequest),
        r is Ok ==> r->Ok_0.item_count == spec_effective_size(size_param),
        r is Ok ==> r->Ok_0.items.len() == spec_effective_size(size_param),
        r is Ok ==> forall|i: int|
            0 <= i < r->Ok_0.items.len() ==> spec_item_ok(#[trigger] r->Ok_0.items[i], i),
{
    let size = match size_param {
        Some(s) => s,
        None => DEFAULT_PAYLOAD_SIZE,
    };
    if size < 1 {
        return Err(RequestError::BadRequest);
    }
    let items = generate_items(size);
    Ok(PayloadOutcome { item_count: size, items })
}

/// The health endpoint's response never varies: status "ok" and the
/// application's name.
pub fn handle_health() -> (r: HealthOutcome)
    ensures
        r.status@ == "ok"@,
        r.app@ == "rust-bench"@,
{
    HealthOutcome { status: String::from_str("ok"), app: app_name() }
}

/// The application name embedded in every response envelope.
pub fn app_name() -> (s: String)
    ensures
        s@ == "rust-bench"@,
{
    String::from_str("rust-bench")
}

/// The compute endpoint is a function of its parameter alone: any two
/// results its contract admits for the same request are identical, so
/// parallel requests with the same `n` agree on the prime count.
pub proof fn lemma_compute_deterministic(
    n_param: Option<u64>,
    r1: Result<ComputeOutcome, RequestError>,
    r2: Result<ComputeOutcome, RequestError>,
)
    requires
        r1 == spec_compute(n_param),
        r2 == spec_compute(n_param),
    ensures
        r1 == r2,
{
}

/// A compute request is rejected exactly when its effective `n` is below 2,
/// whatever value below 2 it holds, and then with the error that reports
/// status 400; an absent `n` falls back to 10000 and succeeds.
pub proof fn lemma_compute_rejects_small_n(n_param: Option<u64>)
    ensures
        spec_compute(n_param) is Err <==> spec_effective_n(n_param) < 2,
        spec_effective_n(n_param) < 2 ==> spec_compute(n_param) == Err::<
            ComputeOutcome,
            RequestError,
        >(RequestError::BadRequest),
        n_param is None ==> spec_compute(n_param) is Ok && spec_compute(n_param)->Ok_0.n == 10000,
{
}

/// A payload request is rejected exactly when its effective size is below 1;
/// an absent size falls back to 100 and succeeds.
pub proof fn lemma_payload_rejects_small_size(size_param: Option<usize>)
    ensures
        spec_payload_rejected(size_param) <==> spec_effective_size(size_param) < 1,
        size_param is None ==> !spec_payload_rejected(size_param) && spec_effective_size(
            size_param,
        ) == 100,
{
}

} // verus!
