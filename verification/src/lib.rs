//! Core logic of a small HTTP benchmarking server: prime counting by trial
//! division, structured payload generation, and the request validation rules
//! of its three endpoints. The HTTP plumbing itself lives outside the
//! verified library.

mod handlers;
mod payload;
mod primes;

pub use handlers::app_name;
pub use handlers::handle_compute;
pub use handlers::handle_health;
pub use handlers::handle_payload;
pub use handlers::lemma_compute_deterministic;
pub use handlers::lemma_compute_rejects_small_n;
pub use handlers::lemma_payload_rejects_small_size;
pub use handlers::spec_compute;
pub use handlers::spec_effective_n;
pub use handlers::spec_effective_size;
pub use handlers::spec_payload_rejected;
pub use handlers::ComputeOutcome;
pub use handlers::HealthOutcome;
pub use handlers::PayloadOutcome;
pub use handlers::RequestError;
pub use handlers::DEFAULT_COMPUTE_N;
pub use handlers::DEFAULT_PAYLOAD_SIZE;
pub use payload::decimal_string;
pub use payload::generate_items;
pub use payload::make_item;
pub use payload::spec_decimal;
pub use payload::spec_digit;
pub use payload::spec_item_name;
pub use payload::spec_item_ok;
pub use payload::Item;
pub use primes::count_primes;
pub use primes::is_prime;
pub use primes::lemma_prime_count_two;
pub use primes::spec_is_prime;
pub use primes::spec_prime_count;
