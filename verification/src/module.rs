//! The per-chain plugin instance: its identity, its checksum cache, and
//! the decisions it takes on what the chain reports.
//!
//! All chain I/O happens outside; the functions here turn what came back
//! into heights, checksums, cache entries and rewritten operations.

use vstd::prelude::*;

use crate::cache::{key_of, spec_lookup, ChecksumCache};
use crate::call::ModuleCall;
use crate::height::Height;
use crate::ids::{ChainId, InvalidLength, WasmClientType, H256, HASH_LEN};
use crate::op::{Call, Op, PassResult};

verus! {

/// The protobuf type url every wasm light-client state record carries.
pub const WASM_CLIENT_STATE_TYPE_URL: &'static str = "/ibc.lightclients.wasm.v1.ClientState";

/// What a plugin instance is told at construction.
#[derive(Debug, PartialEq, Eq)]
pub struct Config {
    pub chain_id: ChainId,
    pub ws_url: String,
    pub grpc_url: String,
}

/// The plugin's command-line surface: report the configured chain id, or
/// the latest finalized height the chain reports.
#[derive(Clone, Copy, PartialEq, Eq, Structural, Debug)]
pub enum Cmd {
    ChainId,
    LatestHeight,
}

/// A chain id whose suffix could not be read as a revision number. The
/// expected format is `<chain>-<revision-number>`.
#[derive(Debug, PartialEq, Eq)]
pub struct ChainIdParseError {
    pub found: String,
}

/// A client-state record that could not yield a code checksum: either it
/// is not the wasm wrapper type this plugin assumes, or the checksum it
/// carries has the wrong length.
#[derive(Debug, PartialEq, Eq)]
pub enum ClientStateError {
    NotWasmClientState { type_url: String },
    InvalidChecksum(InvalidLength),
}

/// The numeric value of a decimal digit character, counting any other
/// character as out of range.
pub open spec fn spec_digit(c: char) -> int {
    (c as u32) - 48
}

/// Whether a character is a decimal digit.
pub open spec fn spec_is_digit(c: char) -> bool {
    48 <= (c as u32) <= 57
}

/// Whether every character of a string is a decimal digit.
pub open spec fn spec_all_digits(s: Seq<char>) -> bool {
    forall|i: int| 0 <= i < s.len() ==> spec_is_digit(#[trigger] s[i])
}

/// The number a digit string denotes, read most significant first.
pub open spec fn spec_digits_val(s: Seq<char>) -> int
    decreases s.len(),
{
    if s.len() == 0 {
        0
    } else {
        spec_digits_val(s.drop_last()) * 10 + spec_digit(s.last())
    }
}

/// The index of the last `-` in a string, or `-1` when it has none.
pub open spec fn spec_last_dash(s: Seq<char>) -> int
    decreases s.len(),
{
    if s.len() == 0 {
        -1
    } else if s.last() == '-' {
        s.len() - 1
    } else {
        spec_last_dash(s.drop_last())
    }
}

/// The chain id's revision suffix: everything after its last `-`, or the
/// whole string when it has no `-`.
pub open spec fn spec_revision_suffix(s: Seq<char>) -> Seq<char> {
    s.skip(spec_last_dash(s) + 1)
}

/// Whether a chain id's suffix names a revision: non-empty, all digits,
/// and small enough for a 64-bit word.
pub open spec fn spec_revision_ok(s: Seq<char>) -> bool {
    &&& spec_revision_suffix(s).len() > 0
    &&& spec_all_digits(spec_revision_suffix(s))
    &&& spec_digits_val(spec_revision_suffix(s)) <= u64::MAX
}

/// A digit string denotes a non-negative number.
pub proof fn lemma_digits_val_nonneg(s: Seq<char>)
    requires
        spec_all_digits(s),
    ensures
        spec_digits_val(s) >= 0,
    decreases s.len(),
{
    if s.len() > 0 {
        assert(spec_all_digits(s.drop_last()));
        lemma_digits_val_nonneg(s.drop_last());
    }
}

/// `spec_last_dash` looks only at the string; characters are compared one
/// by one, so it equals any index that carries `-` with none after it, and
/// is `-1` when no index carries `-`.
pub proof fn lemma_last_dash_is(s: Seq<char>, k: int)
    requires
        -1 <= k < s.len(),
        k >= 0 ==> s[k] == '-',
        forall|i: int| k < i < s.len() ==> s[i] != '-',
    ensures
        spec_last_dash(s) == k,
    decreases s.len(),
{
    if s.len() == 0 {
    } else if s.last() == '-' {
        assert(k == s.len() - 1);
    } else {
        assert(k < s.len() - 1);
        assert forall|i: int| k < i < s.drop_last().len() implies s.drop_last()[i] != '-' by {
            assert(s[i] != '-');
        }
        lemma_last_dash_is(s.drop_last(), k);
    }
}

/// The plugin instance for one chain: which chain it serves, the revision
/// its heights carry, where its gRPC collaborator lives, and the shared
/// checksum cache.
pub struct Module {
    pub chain_id: ChainId,
    pub chain_revision: u64,
    pub grpc_url: String,
    pub checksum_cache: ChecksumCache,
}

impl Module {
    /// The cache is well formed.
    pub open spec fn wf(&self) -> bool {
        self.checksum_cache.wf()
    }

    /// Build the plugin instance for a chain. The revision is parsed from
    /// the chain id's suffix; succeeds exactly when that suffix names a
    /// revision number, and fails with the chain id otherwise.
    pub fn new(chain_id: String, grpc_url: String) -> (r: Result<Module, ChainIdParseError>)
        ensures
            spec_revision_ok(chain_id@) ==> (r matches Ok(m) && m.chain_id@ == chain_id@
                && m.chain_revision == spec_digits_val(spec_revision_suffix(chain_id@))
                && m.grpc_url@ == grpc_url@ && m.checksum_cache@ == Map::<(u64, u64, u64, u64), u64>::empty()
                && m.wf()),
            !spec_revision_ok(chain_id@) ==> (r matches Err(e) && e.found@ == chain_id@),
    {
        let chain_id = ChainId::new(chain_id);
        match parse_chain_revision(&chain_id) {
            Ok(chain_revision) => {
                proof {
                    if spec_revision_ok(chain_id@) {
                        lemma_digits_val_nonneg(spec_revision_suffix(chain_id@));
                    }
                }
                Ok(Module { chain_id, chain_revision, grpc_url, checksum_cache: ChecksumCache::new() })
            },
            Err(e) => Err(e),
        }
    }

    /// A height on this chain: this chain's revision and the given block
    /// number.
    pub fn make_height(&self, height: u64) -> (h: Height)
        ensures
            h == (Height { revision: self.chain_revision, height }),
    {
        Height::new_with_revision(self.chain_revision, height)
    }

    /// The latest finalized height, decided from the chain's latest commit:
    /// the commit's height when the commit is canonical, else the height
    /// just below it, since a non-canonical commit may still be reverted.
    pub fn latest_height_from_commit(&self, commit_height: u64, canonical: bool) -> (h: Height)
        requires
            canonical || commit_height >= 1,
        ensures
            h.revision == self.chain_revision,
            canonical ==> h.height == commit_height,
            !canonical ==> h.height == commit_height - 1,
    {
        let height = if canonical {
            commit_height
        } else {
            commit_height - 1
        };
        self.make_height(height)
    }

    /// The code checksum carried by a client-state record, given the
    /// record's protobuf type url and the checksum field decoded from it.
    ///
    /// Succeeds exactly when the record is the wasm client-state wrapper
    /// type and the checksum holds 32 bytes. Anything else is a usage
    /// defect that aborts only the asking branch.
    pub fn checksum_from_client_state(&self, type_url: String, checksum: Vec<u8>) -> (r: Result<
        H256,
        ClientStateError,
    >)
        ensures
            type_url@ != WASM_CLIENT_STATE_TYPE_URL@ ==> (r matches Err(e) && e matches
                ClientStateError::NotWasmClientState { type_url: t } && t@ == type_url@),
            type_url@ == WASM_CLIENT_STATE_TYPE_URL@ && checksum@.len() != HASH_LEN ==> r == Err::<
                H256,
                ClientStateError,
            >(ClientStateError::InvalidChecksum(InvalidLength {
                expected: HASH_LEN,
                found: checksum@.len() as usize,
            })),
            type_url@ == WASM_CLIENT_STATE_TYPE_URL@ && checksum@.len() == HASH_LEN ==> (r matches
                Ok(h) && h@ == checksum@ && h.wf()),
    {
        let expected: String = WASM_CLIENT_STATE_TYPE_URL.to_owned();
        if !(type_url == expected) {
            return Err(ClientStateError::NotWasmClientState { type_url });
        }
        match H256::try_from_bytes(checksum) {
            Ok(h) => Ok(h),
            Err(e) => Err(ClientStateError::InvalidChecksum(e)),
        }
    }

    /// The cached implementation tag of a code checksum: answers from the
    /// cache alone, with no chain query.
    pub fn cached_client_type(&self, checksum: &H256) -> (r: Option<WasmClientType>)
        requires
            checksum.wf(),
            self.wf(),
        ensures
            r == spec_lookup(self.checksum_cache@, checksum@),
    {
        self.checksum_cache.lookup(checksum)
    }

    /// Record what a cache miss resolved to once the chain was asked and
    /// the blob parsed: a successful parse is cached permanently, a failed
    /// one leaves the cache untouched so a later lookup may retry. Returns
    /// the parse result unchanged.
    pub fn record_parsed_client_type(
        &mut self,
        checksum: &H256,
        parsed: Option<WasmClientType>,
    ) -> (r: Option<WasmClientType>)
        requires
            checksum.wf(),
            old(self).wf(),
        ensures
            r == parsed,
            final(self).wf(),
            final(self).chain_id == old(self).chain_id,
            final(self).chain_revision == old(self).chain_revision,
            final(self).grpc_url == old(self).grpc_url,
            parsed matches Some(t) ==> final(self).checksum_cache@ == old(
                self,
            ).checksum_cache@.insert(key_of(checksum@), t.spec_code()),
            parsed is None ==> final(self).checksum_cache@ == old(self).checksum_cache@,
    {
        match parsed {
            Some(t) => {
                self.checksum_cache.record(checksum, t);
                Some(t)
            },
            None => None,
        }
    }

    /// The operation a batch entry is rewritten to: a host-level
    /// fetch-blocks instruction for this chain becomes a fetch-blocks call
    /// addressed to this plugin; everything else passes through untouched.
    pub open spec fn spec_rewrite(self, op: Op) -> Op {
        match op {
            Op::Call(Call::FetchBlocks(f)) => {
                if f.chain_id@ == self.chain_id@ {
                    Op::Call(
                        Call::Plugin(
                            ModuleCall::FetchBlocks(
                                crate::call::FetchBlocks { height: f.start_height },
                            ),
                        ),
                    )
                } else {
                    Op::Call(Call::FetchBlocks(f))
                }
            },
            _ => op,
        }
    }

    /// One scheduling pass over a batch of pending operations.
    ///
    /// Every batch entry is answered, keyed by its position: fetch-blocks
    /// instructions for this chain are claimed and rewritten into plugin
    /// calls, every other entry is returned unchanged at its position, and
    /// nothing is deferred.
    pub fn run_pass(&self, msgs: Vec<Op>) -> (r: PassResult)
        ensures
            r.optimize_further@.len() == 0,
            r.ready@.len() == msgs@.len(),
            forall|i: int|
                0 <= i < msgs@.len() ==> (#[trigger] r.ready@[i]).0@ == seq![i as usize]
                    && r.ready@[i].1 == self.spec_rewrite(msgs@[i]),
    {
        let ghost orig = msgs@;
        let total: usize = msgs.len();
        let mut msgs = msgs;
        let mut ready: Vec<(Vec<usize>, Op)> = Vec::new();
        let mut i: usize = 0;
        while msgs.len() > 0
            invariant
                orig.len() == total,
                orig.len() == i + msgs@.len(),
                msgs@ == orig.skip(i as int),
                ready@.len() == i,
                forall|k: int|
                    0 <= k < i ==> (#[trigger] ready@[k]).0@ == seq![k as usize] && ready@[k].1
                        == self.spec_rewrite(orig[k]),
            decreases msgs@.len(),
        {
            let op = msgs.remove(0);
            proof {
                assert(op == orig[i as int]);
                assert(msgs@ =~= orig.skip(i as int + 1));
            }
            let rewritten = match op {
                Op::Call(Call::FetchBlocks(f)) => {
                    if f.chain_id.same_as(&self.chain_id) {
                        Op::Call(
                            Call::Plugin(
                                ModuleCall::FetchBlocks(
                                    crate::call::FetchBlocks { height: f.start_height },
                                ),
                            ),
                        )
                    } else {
                        Op::Call(Call::FetchBlocks(f))
                    }
                },
                other => other,
            };
            let mut path: Vec<usize> = Vec::new();
            path.push(i);
            ready.push((path, rewritten));
            i = i + 1;
        }
        proof {
            assert(orig.skip(orig.len() as int) =~= Seq::<Op>::empty());
        }
        PassResult { ready, optimize_further: Vec::new() }
    }
}

/// Parse the revision number out of a chain id's suffix: the digits after
/// its last `-` (or the whole id when it has none), read as a 64-bit
/// number. Succeeds exactly when that suffix is non-empty, all digits,
/// and in range; fails with the chain id otherwise.
pub fn parse_chain_revision(chain_id: &ChainId) -> (r: Result<u64, ChainIdParseError>)
    ensures
        spec_revision_ok(chain_id@) ==> r == Ok::<u64, ChainIdParseError>(
            spec_digits_val(spec_revision_suffix(chain_id@)) as u64,
        ),
        !spec_revision_ok(chain_id@) ==> (r matches Err(e) && e.found@ == chain_id@),
{
    let s = chain_id.as_str();
    let n = s.unicode_len();
    let ghost view = chain_id@;

    let mut last_dash: Option<usize> = None;
    let mut j: usize = 0;
    while j < n
        invariant
            view == chain_id@,
            n == view.len(),
            s@ == view,
            j <= n,
            last_dash is None ==> forall|i: int| 0 <= i < j ==> view[i] != '-',
            last_dash matches Some(d) ==> d < j <= view.len() && view[d as int] == '-'
                && forall|i: int| d < i < j ==> view[i] != '-',
        decreases n - j,
    {
        let c = s.get_char(j);
        if c == '-' {
            last_dash = Some(j);
        }
        j = j + 1;
    }
    proof {
        match last_dash {
            None => lemma_last_dash_is(view, -1),
            Some(d) => lemma_last_dash_is(view, d as int),
        }
    }

    let start: usize = match last_dash {
        None => 0,
        Some(d) => d + 1,
    };
    let ghost suffix = spec_revision_suffix(view);
    proof {
        assert(suffix =~= view.skip(start as int));
    }

    if start == n {
        proof {
            assert(suffix.len() == 0);
            assert(!spec_revision_ok(view));
        }
        return Err(ChainIdParseError { found: s.to_owned() });
    }
    let mut value: u64 = 0;
    let mut k: usize = start;
    while k < n
        invariant
            view == chain_id@,
            n == view.len(),
            s@ == view,
            start <= k <= n,
            suffix == spec_revision_suffix(view),
            suffix == view.skip(start as int),
            spec_all_digits(view.subrange(start as int, k as int)),
            value == spec_digits_val(view.subrange(start as int, k as int)),
        decreases n - k,
    {
        let c = s.get_char(k);
        let cv = c as u32;
        if cv < 48 || cv > 57 {
            proof {
                assert(suffix[k - start] == view[k as int]);
                assert(!spec_is_digit(view[k as int]));
                assert(!spec_all_digits(suffix));
                assert(!spec_revision_ok(view));
            }
            return Err(ChainIdParseError { found: s.to_owned() });
        }
        let d: u64 = (cv - 48) as u64;
        if value > (u64::MAX - d) / 10 {
            proof {
                assert(value * 10 + d > u64::MAX) by (nonlinear_arith)
                    requires
                        value > (u64::MAX - d) / 10,
                        0 <= d <= 9,
                        value >= 0,
                ;
                lemma_revision_overflow(view, start as int, k as int, value as int, d as int);
                assert(!spec_revision_ok(view));
            }
            return Err(ChainIdParseError { found: s.to_owned() });
        }
        proof {
            let pre = view.subrange(start as int, k as int);
            let post = view.subrange(start as int, k as int + 1);
            assert(post.drop_last() =~= pre);
            assert(post.last() == view[k as int]);
            assert(value * 10 + d <= u64::MAX) by (nonlinear_arith)
                requires
                    value <= (u64::MAX - d) / 10,
                    0 <= d <= 9,
            ;
        }
        value = value * 10 + d;
        k = k + 1;
    }
    proof {
        assert(view.subrange(start as int, n as int) =~= suffix);
        assert(value == spec_digits_val(suffix));
        assert(spec_revision_ok(view));
    }
    Ok(value)
}

/// If the digits read so far already overflow one more step, the whole
/// suffix denotes a number past the 64-bit range.
proof fn lemma_revision_overflow(view: Seq<char>, start: int, k: int, value: int, d: int)
    requires
        0 <= start <= k < view.len(),
        spec_all_digits(view.subrange(start, k)),
        value == spec_digits_val(view.subrange(start, k)),
        spec_is_digit(view[k]),
        d == spec_digit(view[k]),
        value * 10 + d > u64::MAX,
    ensures
        spec_all_digits(view.skip(start)) ==> spec_digits_val(view.skip(start)) > u64::MAX,
{
    if spec_all_digits(view.skip(start)) {
        let whole = view.skip(start);
        let step = view.subrange(start, k + 1);
        assert(step.drop_last() =~= view.subrange(start, k));
        assert(step.last() == view[k]);
        assert(spec_digits_val(step) == value * 10 + d);
        assert(spec_all_digits(step)) by {
            assert forall|i: int| 0 <= i < step.len() implies spec_is_digit(step[i]) by {
                if i < k - start {
                    assert(step[i] == view.subrange(start, k)[i]);
                }
            }
        }
        lemma_digits_prefix_monotone(whole, k + 1 - start);
        assert(whole.subrange(0, k + 1 - start) =~= step);
    }
}

/// Reading more digits never shrinks the number: the value of a digit
/// string is at least the value of any of its prefixes.
pub proof fn lemma_digits_prefix_monotone(s: Seq<char>, m: int)
    requires
        spec_all_digits(s),
        0 <= m <= s.len(),
    ensures
        spec_digits_val(s) >= spec_digits_val(s.subrange(0, m)),
    decreases s.len() - m,
{
    if m < s.len() {
        lemma_digits_prefix_monotone(s, m + 1);
        let pre = s.subrange(0, m);
        let post = s.subrange(0, m + 1);
        assert(post.drop_last() =~= pre);
        assert(spec_all_digits(pre)) by {
            assert forall|i: int| 0 <= i < pre.len() implies spec_is_digit(pre[i]) by {
                assert(pre[i] == s[i]);
            }
        }
        lemma_digits_val_nonneg(pre);
        assert(spec_digits_val(post) == spec_digits_val(pre) * 10 + spec_digit(post.last()));
        assert(spec_digits_val(pre) * 10 >= spec_digits_val(pre)) by (nonlinear_arith)
            requires
                spec_digits_val(pre) >= 0,
        ;
    } else {
        assert(s.subrange(0, m) =~= s);
    }
}

} // verus!
