//! Compression of the messages that a SpacetimeDB host sends.

use vstd::prelude::*;

verus! {

/// The compression that a client asks the host to use.
#[derive(Clone, Copy, Debug, PartialEq, Eq, Structural)]
pub enum Compression {
    /// No compression ever.
    Uncompressed,
    /// Brotli, for messages over the host's size threshold.
    Brotli,
    /// Gzip, for messages over the host's size threshold.
    Gzip,
}

/// Asks `spacetimedb_sdk::Compression::default` which compression the SDK uses
/// when none was chosen, and gives the answer as this library's [`Compression`],
/// variant by variant. The contract claims that the SDK's choice is Brotli.
#[verifier::external_body]
fn sdk_default_compression() -> (compression: Compression)
    ensures
        compression == Compression::Brotli,
{
    match spacetimedb_sdk::Compression::default() {
        spacetimedb_sdk::Compression::None => Compression::Uncompressed,
        spacetimedb_sdk::Compression::Brotli => Compression::Brotli,
        spacetimedb_sdk::Compression::Gzip => Compression::Gzip,
    }
}

impl Default for Compression {
    /// The compression that the SDK uses by default.
    fn default() -> (compression: Self)
        ensures
            compression == Compression::Brotli,
    {
        sdk_default_compression()
    }
}

/// The compression to use where the choice was optional: the one that was
/// chosen, else the default.
pub open spec fn chosen_or_default(choice: Option<Compression>) -> Compression {
    match choice {
        Some(compression) => compression,
        None => Compression::Brotli,
    }
}

} // verus!
