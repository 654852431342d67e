use vstd::prelude::*;

use crate::embedded::{embedded_contains, embedded_file, embedded_lookup};

verus! {

/// A failure of the virtual file system.
#[derive(Debug)]
pub enum FsError {
    /// The name is absent from every tier.
    NotFound,
    /// A ranged read fell outside the content bounds.
    OutOfRange,
    /// The host-supplied provider failed; the payload is its description,
    /// wrapped so that no foreign error type crosses the interpreter boundary.
    External(String),
}

/// The host-supplied external file provider: the middle tier of the resolver.
/// Implementations live with the host; nothing is assumed about their answers,
/// so everything proved here holds for every possible provider behaviour.
pub trait FileProvider {
    /// Whether the provider can serve `name`.
    fn file_exists(&self, name: &str) -> bool;

    /// The provider's content for `name`, or a description of its failure.
    fn read(&self, name: &str) -> Result<Vec<u8>, String>;
}

/// A named, snapshotted unit of source text handed to the interpreter when it
/// asks to open a file for reading as source. The content is copied at resolution time, so
/// later writes to the same name do not affect an already-open block.
pub struct SourceBlock {
    pub name: String,
    pub content: Vec<u8>,
}

/// The abstract answer of one file lookup, used to state the resolver's
/// contracts over all three tiers at once.
pub enum FsOutcome {
    Content(Seq<u8>),
    NotFound,
    OutOfRange,
    External(Seq<char>),
}

/// What the external-provider tier answered for one name, at the spec level:
/// `None` when the provider does not claim the name, otherwise its read
/// result (content or failure description).
pub open spec fn ext_view(e: Option<Result<Vec<u8>, String>>) -> Option<
    Result<Seq<u8>, Seq<char>>,
> {
    match e {
        None => None,
        Some(Ok(v)) => Some(Ok(v@)),
        Some(Err(m)) => Some(Err(m@)),
    }
}

/// The spec-level content answer of a tier: `None` when the tier does not
/// hold the name, otherwise the bytes it holds.
pub open spec fn opt_view(e: Option<Vec<u8>>) -> Option<Seq<u8>> {
    match e {
        None => None,
        Some(v) => Some(v@),
    }
}

/// The fixed tier-priority rule of the resolver: the session-local tier wins,
/// then the external provider, then the embedded library set; the first tier
/// holding the name answers, and no merging happens across tiers.
pub open spec fn tier_resolve(
    session: Option<Seq<u8>>,
    external: Option<Result<Seq<u8>, Seq<char>>>,
    embedded: Option<Seq<u8>>,
) -> FsOutcome {
    match session {
        Some(c) => FsOutcome::Content(c),
        None => match external {
            Some(Ok(v)) => FsOutcome::Content(v),
            Some(Err(m)) => FsOutcome::External(m),
            None => match embedded {
                Some(d) => FsOutcome::Content(d),
                None => FsOutcome::NotFound,
            },
        },
    }
}

/// Restricts a resolved outcome to the byte range `[offset, offset + len)`.
/// A range is rejected when `offset` is at or past the end of the content or
/// the range extends past the end — so a zero-length read at
/// `offset == content length` is also rejected. Errors pass through.
pub open spec fn ranged(o: FsOutcome, offset: int, len: int) -> FsOutcome {
    match o {
        FsOutcome::Content(c) => {
            if offset < c.len() && offset + len <= c.len() {
                FsOutcome::Content(c.subrange(offset, offset + len))
            } else {
                FsOutcome::OutOfRange
            }
        },
        _ => o,
    }
}

/// Whether an executable read result carries exactly the abstract outcome `o`.
pub open spec fn matches_outcome(r: Result<Vec<u8>, FsError>, o: FsOutcome) -> bool {
    match (r, o) {
        (Ok(v), FsOutcome::Content(c)) => v@ == c,
        (Err(FsError::NotFound), FsOutcome::NotFound) => true,
        (Err(FsError::OutOfRange), FsOutcome::OutOfRange) => true,
        (Err(FsError::External(m)), FsOutcome::External(mm)) => m@ == mm,
        _ => false,
    }
}

/// Whether an open-block result carries the abstract outcome `o` as a source
/// block named `name`.
pub open spec fn block_matches(
    r: Result<SourceBlock, FsError>,
    o: FsOutcome,
    name: Seq<char>,
) -> bool {
    match (r, o) {
        (Ok(sb), FsOutcome::Content(c)) => sb.name@ == name && sb.content@ == c,
        (Err(FsError::NotFound), FsOutcome::NotFound) => true,
        (Err(FsError::OutOfRange), FsOutcome::OutOfRange) => true,
        (Err(FsError::External(m)), FsOutcome::External(mm)) => m@ == mm,
        _ => false,
    }
}

/// The session-local tier as a sequence of write entries; the latest entry
/// for a name is its current content.
pub closed spec fn lookup_seq(entries: Seq<(String, Vec<u8>)>, name: Seq<char>) -> Option<Seq<u8>>
    decreases entries.len(),
{
    if entries.len() == 0 {
        None
    } else if entries.last().0@ == name {
        Some(entries.last().1@)
    } else {
        lookup_seq(entries.drop_last(), name)
    }
}

/// Tier priority: whatever the external provider and the embedded set answer,
/// a name held by the session-local tier resolves to the session-local bytes;
/// a name held by no tier resolves to `NotFound`; and when the session tier
/// does not hold the name, a successful provider answer wins over the
/// embedded set, while a name the provider does not claim falls through to
/// the embedded bytes.
pub proof fn lemma_tier_priority(
    session: Option<Seq<u8>>,
    external: Option<Result<Seq<u8>, Seq<char>>>,
    embedded: Option<Seq<u8>>,
)
    ensures
        session matches Some(c) ==> tier_resolve(session, external, embedded)
            == FsOutcome::Content(c),
        session is None ==> (external matches Some(Ok(v)) ==> tier_resolve(
            session,
            external,
            embedded,
        ) == FsOutcome::Content(v)),
        session is None && external is None ==> (embedded matches Some(d) ==> tier_resolve(
            session,
            external,
            embedded,
        ) == FsOutcome::Content(d)),
        session is None && external is None && embedded is None ==> tier_resolve(
            session,
            external,
            embedded,
        ) == FsOutcome::NotFound,
{
}

/// A write followed immediately by a read of the same name returns exactly
/// the written bytes: `write_file` leaves the session tier of the resolver
/// holding `bytes` under `name`, and on such a state `read_file`'s contract
/// pins the answer to exactly those bytes, whatever the external provider or
/// the embedded set would have answered.
pub proof fn lemma_write_read_round_trip<P: FileProvider>(
    r: Resolver<P>,
    name: Seq<char>,
    bytes: Seq<u8>,
    external: Option<Result<Seq<u8>, Seq<char>>>,
    embedded: Option<Seq<u8>>,
)
    requires
        r.session_file(name) == Some(bytes),
    ensures
        tier_resolve(r.session_file(name), external, embedded) == FsOutcome::Content(bytes),
{
}

/// Returns the sub-slice `[offset, offset + len)` of `data`, or `None` when
/// the range falls outside the content bounds (`offset` at or past the end,
/// or the range extending past the end — a zero-length read at the very end
/// is out of range too).
pub fn slice_part(data: &[u8], offset: u64, len: u64) -> (r: Option<Vec<u8>>)
    ensures
        (offset < data@.len() && offset + len <= data@.len()) ==> (r matches Some(v) && v@
            == data@.subrange(offset as int, offset as int + len as int)),
        (offset >= data@.len() || offset + len > data@.len()) ==> r is None,
{
    let n: usize = data.len();
    if offset >= n as u64 || len > n as u64 - offset {
        return None;
    }
    let start: usize = offset as usize;
    let end: usize = start + len as usize;
    Some(vstd::slice::slice_to_vec(vstd::slice::slice_subrange(data, start, end)))
}

/// Resolution below the session tier: the external provider's answer first
/// (content or wrapped failure), then the embedded set, then `NotFound`.
pub fn resolve_unsessioned(external: Option<Result<Vec<u8>, String>>, embedded: Option<Vec<u8>>) -> (r:
    Result<Vec<u8>, FsError>)
    ensures
        matches_outcome(r, tier_resolve(None, ext_view(external), opt_view(embedded))),
{
    match external {
        Some(Ok(v)) => Ok(v),
        Some(Err(m)) => Err(FsError::External(m)),
        None => match embedded {
            Some(d) => Ok(d),
            None => Err(FsError::NotFound),
        },
    }
}

/// The tiered virtual file resolver: session-local writes first, then the
/// host-supplied external provider, then the embedded library set.
pub struct Resolver<P> {
    session: Vec<(String, Vec<u8>)>,
    provider: P,
}

impl<P: FileProvider> Resolver<P> {
    /// The session-local tier's content for `name`, if any.
    pub closed spec fn session_file(&self, name: Seq<char>) -> Option<Seq<u8>> {
        lookup_seq(self.session@, name)
    }

    /// A fresh resolver whose session-local tier is empty.
    pub fn new(provider: P) -> (r: Self)
        ensures
            forall|n: Seq<char>| r.session_file(n) is None,
    {
        let r = Resolver { session: Vec::new(), provider };
        proof {
            assert forall|n: Seq<char>| r.session_file(n) is None by {
                assert(r.session@.len() == 0);
            }
        }
        r
    }

    /// The index of the latest session-local entry for `name`, if any.
    fn session_find(&self, name: &str) -> (r: Option<usize>)
        ensures
            r matches Some(i) ==> i < self.session@.len() && self.session_file(name@) == Some(
                self.session@[i as int].1@,
            ),
            r is None ==> self.session_file(name@) is None,
    {
        let owned: String = name.to_owned();
        let n = self.session.len();
        let mut i: usize = n;
        proof {
            assert(self.session@.take(n as int) =~= self.session@);
        }
        while i > 0
            invariant
                i <= n,
                n == self.session@.len(),
                owned@ == name@,
                lookup_seq(self.session@, name@) == lookup_seq(
                    self.session@.take(i as int),
                    name@,
                ),
            decreases i,
        {
            proof {
                assert(self.session@.take(i as int).last() == self.session@[i - 1]);
                assert(self.session@.take(i as int).drop_last() =~= self.session@.take(i - 1));
            }
            i = i - 1;
            if self.session[i].0 == owned {
                return Some(i);
            }
        }
        proof {
            assert(self.session@.take(0).len() == 0);
        }
        None
    }

    /// Unconditionally stores `contents` under `name` in the session-local
    /// tier, superseding any prior session-local content for that name; the
    /// other tiers and all other names are untouched. Never fails.
    pub fn write_file(&mut self, name: &str, contents: &[u8])
        ensures
            final(self).session_file(name@) == Some(contents@),
            forall|other: Seq<char>|
                other != name@ ==> final(self).session_file(other) == old(self).session_file(
                    other,
                ),
    {
        let owned: String = name.to_owned();
        let bytes: Vec<u8> = vstd::slice::slice_to_vec(contents);
        self.session.push((owned, bytes));
        proof {
            assert(self.session@.drop_last() =~= old(self).session@);
            assert(self.session@.last().0@ == name@);
            assert forall|other: Seq<char>| other != name@ implies final(self).session_file(other)
                == old(self).session_file(other) by {
                assert(lookup_seq(self.session@, other) == lookup_seq(
                    self.session@.drop_last(),
                    other,
                ));
            }
        }
    }

    /// True when any tier holds `name`. A `true` answer may also come from
    /// the external provider; a `false` answer means that no tier claimed the
    /// name, the provider among them.
    pub fn file_exists(&self, name: &str) -> (r: bool)
        ensures
            self.session_file(name@) is Some ==> r,
            embedded_file(name@) is Some ==> r,
            !r ==> self.session_file(name@) is None && embedded_file(name@) is None,
    {
        if self.session_find(name).is_some() {
            true
        } else if embedded_contains(name) {
            true
        } else {
            self.provider.file_exists(name)
        }
    }

    /// The full content of `name` from the first tier that holds it.
    ///
    /// A session-local name always resolves to its session-local bytes.
    /// `NotFound` comes exactly when no tier claimed the name, and
    /// `External` exactly when the provider claimed the name and then failed
    /// to read it; an out-of-range error never comes from a full read.
    pub fn read_file(&self, name: &str) -> (r: Result<Vec<u8>, FsError>)
        ensures
            self.session_file(name@) matches Some(c) ==> (r matches Ok(v) && v@ == c),
            r matches Err(e) ==> !(e is OutOfRange) && self.session_file(name@) is None,
            r matches Err(FsError::NotFound) ==> embedded_file(name@) is None,
            exists|ext: Option<Result<Seq<u8>, Seq<char>>>|
                matches_outcome(
                    r,
                    tier_resolve(self.session_file(name@), ext, embedded_file(name@)),
                ),
    {
        match self.session_find(name) {
            Some(i) => {
                let v = vstd::slice::slice_to_vec(self.session[i].1.as_slice());
                let r = Ok(v);
                proof {
                    let ext: Option<Result<Seq<u8>, Seq<char>>> = None;
                    assert(matches_outcome(
                        r,
                        tier_resolve(self.session_file(name@), ext, embedded_file(name@)),
                    ));
                }
                r
            },
            None => {
                let ext: Option<Result<Vec<u8>, String>> = if self.provider.file_exists(name) {
                    Some(self.provider.read(name))
                } else {
                    None
                };
                let ghost ext_spec = ext_view(ext);
                let emb = embedded_lookup(name);
                proof {
                    assert(opt_view(emb) == embedded_file(name@));
                }
                let r = resolve_unsessioned(ext, emb);
                proof {
                    assert(matches_outcome(
                        r,
                        tier_resolve(self.session_file(name@), ext_spec, embedded_file(name@)),
                    ));
                }
                r
            },
        }
    }

    /// The exact byte range `[offset, offset + len)` of the content that
    /// `read_file` would resolve for `name`. A range outside the content
    /// bounds — `offset` at or past the end, or `offset + len` past the end,
    /// a zero-length read at the very end among them — fails with `OutOfRange`.
    pub fn read_file_part(&self, name: &str, offset: u64, len: u64) -> (r: Result<Vec<u8>, FsError>)
        ensures
            self.session_file(name@) matches Some(c) ==> matches_outcome(
                r,
                ranged(FsOutcome::Content(c), offset as int, len as int),
            ),
            r matches Err(FsError::NotFound) ==> self.session_file(name@) is None
                && embedded_file(name@) is None,
            exists|ext: Option<Result<Seq<u8>, Seq<char>>>|
                matches_outcome(
                    r,
                    ranged(
                        tier_resolve(self.session_file(name@), ext, embedded_file(name@)),
                        offset as int,
                        len as int,
                    ),
                ),
    {
        let r0 = self.read_file(name);
        let ghost ext0 = choose|ext: Option<Result<Seq<u8>, Seq<char>>>|
            matches_outcome(
                r0,
                tier_resolve(self.session_file(name@), ext, embedded_file(name@)),
            );
        let ghost o0 = tier_resolve(self.session_file(name@), ext0, embedded_file(name@));
        match r0 {
            Err(e) => {
                let r = Err(e);
                proof {
                    assert(matches_outcome(r, ranged(o0, offset as int, len as int)));
                }
                r
            },
            Ok(content) => {
                proof {
                    assert(o0 == FsOutcome::Content(content@));
                }
                let r = match slice_part(content.as_slice(), offset, len) {
                    Some(v) => Ok(v),
                    None => Err(FsError::OutOfRange),
                };
                proof {
                    assert(matches_outcome(r, ranged(o0, offset as int, len as int)));
                }
                r
            },
        }
    }

    /// Opens `name` as a snapshotted source block, resolving content exactly
    /// as `read_file` does; the block's name is `name` and its content is
    /// independent of any later write.
    pub fn open_block(&self, name: &str) -> (r: Result<SourceBlock, FsError>)
        ensures
            self.session_file(name@) matches Some(c) ==> (r matches Ok(sb) && sb.name@ == name@
                && sb.content@ == c),
            r matches Ok(sb) ==> sb.name@ == name@,
            r matches Err(e) ==> !(e is OutOfRange) && self.session_file(name@) is None,
            r matches Err(FsError::NotFound) ==> embedded_file(name@) is None,
            exists|ext: Option<Result<Seq<u8>, Seq<char>>>|
                block_matches(
                    r,
                    tier_resolve(self.session_file(name@), ext, embedded_file(name@)),
                    name@,
                ),
    {
        let r0 = self.read_file(name);
        let ghost ext0 = choose|ext: Option<Result<Seq<u8>, Seq<char>>>|
            matches_outcome(
                r0,
                tier_resolve(self.session_file(name@), ext, embedded_file(name@)),
            );
        let ghost o0 = tier_resolve(self.session_file(name@), ext0, embedded_file(name@));
        let r = match r0 {
            Ok(content) => Ok(SourceBlock { name: name.to_owned(), content }),
            Err(e) => Err(e),
        };
        proof {
            assert(block_matches(r, o0, name@));
        }
        r
    }

    /// A coarse wall-clock reading with whole-second resolution.
    pub fn now_ms(&self) -> u64 {
        now_unix_seconds()
    }

    /// Host process environment variables are never exposed to interpreted
    /// code: every lookup reports absence. This is a deliberate sandboxing
    /// decision.
    pub fn get_env(&self, _name: &str) -> (r: Option<String>)
        ensures
            r is None,
    {
        None
    }
}

/// Relies on `std::time::SystemTime`: a coarse wall-clock reading, in whole
/// seconds since the epoch (zero if the clock reads earlier than the epoch).
/// Nothing is assumed about the value.
#[verifier::external_body]
fn now_unix_seconds() -> u64 {
    match std::time::SystemTime::now().duration_since(std::time::SystemTime::UNIX_EPOCH) {
        Ok(d) => d.as_secs(),
        Err(_) => 0,
    }
}

} // verus!
