//! Ids of builds and runtimes.
use rand::Rng;
use vstd::prelude::*;
use crate::agent::types::{provider_name, provider_text, ProviderKind};
use crate::text::{hex, hex_text};

verus! {

/// `rand::Rng::gen` of the thread's generator: any number may come out, so nothing
/// is claimed of it.
#[verifier::external_body]
pub(crate) fn random_number() -> u32 {
    rand::thread_rng().gen::<u32>()
}

/// An id: what it is of, a hyphen, and two numbers of eight hexadecimal digits.
pub open spec fn id_text(of: Seq<char>, high: u32, low: u32) -> Seq<char> {
    of + "-"@ + hex_text(high as nat, 8) + hex_text(low as nat, 8)
}

/// The id that is made of two numbers.
pub fn id_from(of: &str, high: u32, low: u32) -> (id: String)
    ensures
        id@ == id_text(of@, high, low),
{
    of.to_owned().concat("-").concat(hex(high as u64, 8).as_str()).concat(
        hex(low as u64, 8).as_str(),
    )
}

/// An id for a new build.
pub fn new_build_id() -> (id: String)
    ensures
        exists|high: u32, low: u32| id@ == #[trigger] id_text("build"@, high, low),
{
    let high: u32 = random_number();
    let low: u32 = random_number();
    id_from("build", high, low)
}

/// An id for a new runtime.
pub fn new_runtime_id(provider: ProviderKind) -> (id: String)
    ensures
        exists|high: u32, low: u32| id@ == #[trigger] id_text(provider_text(provider), high, low),
{
    let high: u32 = random_number();
    let low: u32 = random_number();
    id_from(provider_name(provider).as_str(), high, low)
}

} // verus!
