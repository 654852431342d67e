use vstd::prelude::*;

verus! {

/// The embedded standard-library set: an immutable, build-time-baked mapping
/// from logical file name to byte content. `Some(bytes)` when a library file
/// of that name is shipped with the adapter, `None` otherwise.
pub uninterp spec fn embedded_file(name: Seq<char>) -> Option<Seq<u8>>;

/// Relies on `fift_libs::all`: a fixed map, baked in at build time, from
/// library file name to library source text.
#[verifier::external_body]
pub(crate) fn embedded_lookup(name: &str) -> (r: Option<Vec<u8>>)
    ensures
        r matches Some(v) ==> embedded_file(name@) == Some(v@),
        r is None ==> embedded_file(name@) is None,
{
    fift_libs::all().get(name).map(|content| content.as_bytes().to_vec())
}

/// Relies on `fift_libs::all`: key lookup in the same fixed map that
/// `embedded_lookup` reads.
#[verifier::external_body]
pub(crate) fn embedded_contains(name: &str) -> (r: bool)
    ensures
        r == (embedded_file(name@) is Some),
{
    fift_libs::all().contains_key(name)
}

/// Relies on `fift_libs::base_lib`: the name of the base library, which is
/// one of the entries of the map that `fift_libs::all` returns.
#[verifier::external_body]
pub(crate) fn base_lib_name() -> (r: String)
    ensures
        embedded_file(r@) is Some,
{
    String::from(fift_libs::base_lib().name)
}

} // verus!
