//! The session battery: per-query `SET LOCAL` hardening.
//!
//! Runs inside the query's transaction, in order: role first, then the
//! resource clamps that keep one query from owning the box, then row-level
//! security context, then `transaction_read_only = on`, the second,
//! independent write-protection layer under the statement gate. A single
//! validator gap cannot turn an accidental write grant into a real mutation.

use vstd::arithmetic::power::pow;
use vstd::prelude::*;

use uuid::Uuid;

use crate::refusal::{around, prefixed};
use crate::text::{
    chars_of, copy_texts, decimal, decimal_text, join, joined, lemma_decimal_digits,
    lemma_joined_made_of, made_of, texts,
};

verus! {

// ---------------------------------------------------------------------------
// Constants: the numeric law
// ---------------------------------------------------------------------------

/// Default query timeout when neither the caller nor the histogram decides.
pub const DEFAULT_QUERY_TIMEOUT_SECS: u64 = 60;

/// Maximum statement timeout for public/anonymous SQL. Authenticated SQL uses
/// the caller's tier; public SQL keeps this short guardrail because it has no
/// durable account boundary to charge, throttle, or investigate.
pub const MAX_PUBLIC_STATEMENT_TIMEOUT_MS: u64 = 15_000;

/// Minimum adaptive timeout under heavy load.
pub const MIN_QUERY_TIMEOUT_SECS: u64 = 20;

/// Recommended maximum rows returned per query.
pub const MAX_QUERY_ROWS: usize = 10_000;

/// Recommended maximum response size (50 MB): OOM protection while streaming.
pub const MAX_RESPONSE_BYTES: usize = 50 * 1024 * 1024;

/// Recommended maximum decoded size for a single returned cell: one
/// attacker-controlled scalar must not dominate the API process after
/// PostgreSQL produced it.
pub const MAX_RESPONSE_CELL_BYTES: usize = 1024 * 1024;

// ---------------------------------------------------------------------------
// UUID rendering
// ---------------------------------------------------------------------------

/// `uuid::Uuid`, a 128-bit identifier.
#[verifier::external_type_specification]
#[verifier::external_body]
pub struct ExUuid(uuid::Uuid);

/// The 128 bits that a UUID holds, as `Uuid::as_u128` gives them.
pub uninterp spec fn uuid_bits(id: Uuid) -> u128;

/// The bits of each listed UUID.
pub open spec fn uuids_bits(ids: Seq<Uuid>) -> Seq<u128> {
    ids.map_values(|id: Uuid| uuid_bits(id))
}

/// The lower-case hexadecimal digit of `d`.
pub open spec fn hex_char(d: nat) -> char
    recommends
        d < 16,
{
    if d < 10 {
        (48 + d) as u8 as char
    } else {
        (87 + d) as u8 as char
    }
}

/// The `k`-th of the 32 hexadecimal digits of `bits`, the most significant
/// first.
pub open spec fn nibble(bits: u128, k: nat) -> nat
    recommends
        k < 32,
{
    ((bits as int / pow(16, (31 - k) as nat)) % 16) as nat
}

/// The hexadecimal digits of `bits` from the `from`-th up to the `to`-th.
pub open spec fn hex_run(bits: u128, from: nat, to: nat) -> Seq<char>
    recommends
        from <= to <= 32,
{
    Seq::new((to - from) as nat, |i: int| hex_char(nibble(bits, (from + i) as nat)))
}

/// The hyphenated notation of a UUID: 8, 4, 4, 4 and 12 hexadecimal digits.
pub open spec fn hyphenated(bits: u128) -> Seq<char> {
    hex_run(bits, 0, 8) + "-"@ + hex_run(bits, 8, 12) + "-"@ + hex_run(bits, 12, 16) + "-"@
        + hex_run(bits, 16, 20) + "-"@ + hex_run(bits, 20, 32)
}

/// The hyphenated notation of each of the listed UUIDs.
pub open spec fn hyphenated_list(ids: Seq<u128>) -> Seq<Seq<char>> {
    ids.map_values(|bits: u128| hyphenated(bits))
}

/// `Uuid`'s `Display` prints the hyphenated notation in lower case.
#[verifier::external_body]
fn uuid_text(id: &Uuid) -> (r: String)
    ensures
        r@ == hyphenated(uuid_bits(*id)),
{
    id.to_string()
}

// ---------------------------------------------------------------------------
// Roles and the identifier law
// ---------------------------------------------------------------------------

/// Role to execute SQL as.
#[derive(Debug)]
pub enum SessionRole {
    /// Anonymous read-only role, no user context.
    Anonymous { role_name: String },
    /// Per-user role with row-level-security context.
    User { role_name: String, user_id: Uuid },
}

/// What a role says: its name, and the user it stands for, if any.
pub struct RoleModel {
    pub name: Seq<char>,
    pub user: Option<u128>,
}

impl View for SessionRole {
    type V = RoleModel;

    open spec fn view(&self) -> RoleModel {
        match self {
            SessionRole::Anonymous { role_name } => RoleModel { name: role_name@, user: None },
            SessionRole::User { role_name, user_id } => RoleModel {
                name: role_name@,
                user: Some(uuid_bits(*user_id)),
            },
        }
    }
}

impl Clone for SessionRole {
    fn clone(&self) -> (r: Self)
        ensures
            r@ == self@,
    {
        match self {
            SessionRole::Anonymous { role_name } => SessionRole::Anonymous {
                role_name: role_name.clone(),
            },
            SessionRole::User { role_name, user_id } => SessionRole::User {
                role_name: role_name.clone(),
                user_id: *user_id,
            },
        }
    }
}

impl SessionRole {
    /// The database role to switch to.
    pub fn role_name(&self) -> (r: &str)
        ensures
            r@ == self@.name,
    {
        match self {
            SessionRole::Anonymous { role_name } => role_name.as_str(),
            SessionRole::User { role_name, .. } => role_name.as_str(),
        }
    }

    /// The user whose rows the session may see, if there is one.
    pub fn user_id(&self) -> (r: Option<Uuid>)
        ensures
            r == (match *self {
                SessionRole::User { user_id, .. } => Some(user_id),
                SessionRole::Anonymous { .. } => None,
            }),
            self@.user == (match r {
                Some(id) => Some(uuid_bits(id)),
                None => None,
            }),
    {
        match self {
            SessionRole::User { user_id, .. } => Some(*user_id),
            SessionRole::Anonymous { .. } => None,
        }
    }
}

/// An ASCII letter or an underscore.
pub open spec fn starts_identifier(c: char) -> bool {
    ('a' <= c && c <= 'z') || ('A' <= c && c <= 'Z') || c == '_'
}

/// An ASCII letter, an ASCII digit or an underscore.
pub open spec fn continues_identifier(c: char) -> bool {
    starts_identifier(c) || ('0' <= c && c <= '9')
}

/// A plain SQL identifier: a letter or underscore, then letters, digits and
/// underscores.
pub open spec fn plain_identifier(s: Seq<char>) -> bool {
    &&& s.len() > 0
    &&& starts_identifier(s[0])
    &&& forall|i: int| 0 <= i < s.len() ==> continues_identifier(#[trigger] s[i])
}

/// The identifier law: anything interpolated into `SET LOCAL ROLE` or
/// `search_path` must be a plain SQL identifier. (The predicate needs no
/// regex engine.)
pub fn is_sql_identifier(s: &str) -> (r: bool)
    ensures
        r == plain_identifier(s@),
{
    let chars = chars_of(s);
    if chars.len() == 0 {
        return false;
    }
    let first = chars[0];
    if !(('a' <= first && first <= 'z') || ('A' <= first && first <= 'Z') || first == '_') {
        return false;
    }
    let mut i: usize = 1;
    while i < chars.len()
        invariant
            1 <= i <= chars.len(),
            chars@ == s@,
            starts_identifier(s@[0]),
            forall|j: int| 0 <= j < i ==> continues_identifier(#[trigger] s@[j]),
        decreases chars.len() - i,
    {
        let c = chars[i];
        let word = ('a' <= c && c <= 'z') || ('A' <= c && c <= 'Z') || ('0' <= c && c <= '9');
        if !(word || c == '_') {
            assert(!continues_identifier(s@[i as int]));
            return false;
        }
        i += 1;
    }
    true
}

// ---------------------------------------------------------------------------
// RLS session variables (the user-context law)
// ---------------------------------------------------------------------------
// PostgreSQL RLS policies read three session vars. The law is the TRIO: a
// user query that sets one but not the others is a policy hole, so the trio
// renders from one type and cannot be split. Values are typed UUIDs and a
// closed literal: their rendering cannot carry an injection.

/// The row-level-security context of one user.
#[derive(Debug)]
pub struct RlsContext {
    pub user_id: Uuid,
    pub group_ids: Vec<Uuid>,
}

/// The three `SET LOCAL` statements for a user and the user's groups.
pub open spec fn rls_trio(user: u128, groups: Seq<u128>) -> Seq<Seq<char>> {
    seq![
        "SET LOCAL app.current_user_id = '"@ + hyphenated(user) + "'"@,
        "SET LOCAL app.user_groups = '"@ + joined(hyphenated_list(groups), ","@) + "'"@,
        "SET LOCAL app.access_mode = 'full'"@,
    ]
}

impl Clone for RlsContext {
    fn clone(&self) -> (r: Self)
        ensures
            r.user_id == self.user_id,
            r.group_ids@ == self.group_ids@,
    {
        RlsContext { user_id: self.user_id, group_ids: copy_of(self.group_ids.as_slice()) }
    }
}

impl RlsContext {
    /// The three `SET LOCAL` statements, always all three.
    pub fn set_local_statements(&self) -> (r: [String; 3])
        ensures
            texts(r@) == rls_trio(uuid_bits(self.user_id), uuids_bits(self.group_ids@)),
    {
        let mut groups: Vec<String> = Vec::new();
        let mut i: usize = 0;
        while i < self.group_ids.len()
            invariant
                i <= self.group_ids.len(),
                groups.len() == i,
                forall|j: int|
                    0 <= j < i ==> (#[trigger] groups@[j])@ == hyphenated(
                        uuid_bits(self.group_ids@[j]),
                    ),
            decreases self.group_ids.len() - i,
        {
            groups.push(uuid_text(&self.group_ids[i]));
            i += 1;
        }
        assert(texts(groups@) =~= hyphenated_list(uuids_bits(self.group_ids@)));
        let groups_csv = join(&groups, ",");
        let user = uuid_text(&self.user_id);
        let r = [
            around("SET LOCAL app.current_user_id = '", user.as_str(), "'"),
            around("SET LOCAL app.user_groups = '", groups_csv.as_str(), "'"),
            "SET LOCAL app.access_mode = 'full'".to_string(),
        ];
        assert(texts(r@) =~= rls_trio(uuid_bits(self.user_id), uuids_bits(self.group_ids@)));
        r
    }
}

// ---------------------------------------------------------------------------
// Timeouts: the clamp law and the adaptive histogram
// ---------------------------------------------------------------------------

/// The statement timeout that a role is granted.
pub open spec fn granted_timeout_ms(user: bool, requested: u64) -> u64 {
    let wanted: u64 = if requested < 1 {
        1
    } else {
        requested
    };
    if !user && wanted > MAX_PUBLIC_STATEMENT_TIMEOUT_MS {
        MAX_PUBLIC_STATEMENT_TIMEOUT_MS
    } else {
        wanted
    }
}

/// The clamp law. Every query here is validated by construction before it
/// executes, so the axis is the role alone: a durable account boundary earns
/// its requested timeout; public/anonymous does not.
pub fn effective_statement_timeout_ms(role: &SessionRole, requested_timeout_ms: u64) -> (r: u64)
    ensures
        r == granted_timeout_ms(role@.user is Some, requested_timeout_ms),
{
    let requested: u64 = if requested_timeout_ms < 1 {
        1
    } else {
        requested_timeout_ms
    };
    match role {
        SessionRole::User { .. } => requested,
        SessionRole::Anonymous { .. } => if requested > MAX_PUBLIC_STATEMENT_TIMEOUT_MS {
            MAX_PUBLIC_STATEMENT_TIMEOUT_MS
        } else {
            requested
        },
    }
}

/// The upper bounds of all buckets but the last, in milliseconds.
pub const BUCKET_BOUNDS: [u64; 7] = [100, 500, 1000, 5000, 10000, 30000, 60000];

/// The bucket that a duration falls in: the first whose upper bound is above
/// it, or the last.
pub open spec fn bucket_of(duration_ms: u64) -> int {
    if duration_ms < 100 {
        0
    } else if duration_ms < 500 {
        1
    } else if duration_ms < 1000 {
        2
    } else if duration_ms < 5000 {
        3
    } else if duration_ms < 10000 {
        4
    } else if duration_ms < 30000 {
        5
    } else if duration_ms < 60000 {
        6
    } else {
        7
    }
}

/// The bucket that a duration falls in.
pub fn latency_bucket(duration_ms: u64) -> (r: usize)
    ensures
        r == bucket_of(duration_ms),
        r < 8,
{
    let bounds = BUCKET_BOUNDS;
    let mut i: usize = 0;
    while i < 7
        invariant
            bounds == BUCKET_BOUNDS,
            i <= 7,
            i <= bucket_of(duration_ms),
        decreases 7 - i,
    {
        if duration_ms < bounds[i] {
            return i;
        }
        i += 1;
    }
    7
}

/// Recorded latencies: how many fell in each bucket, and how many in all.
pub struct LatencyModel {
    pub buckets: Seq<u64>,
    pub total: u64,
}

/// One more than `n`, wrapping around at the end of the range.
pub open spec fn counted(n: u64) -> u64 {
    if n == u64::MAX {
        0
    } else {
        (n + 1) as u64
    }
}

/// The sum of the counters.
pub open spec fn counter_sum(counters: Seq<u64>) -> nat
    decreases counters.len(),
{
    if counters.len() == 0 {
        0
    } else {
        counter_sum(counters.drop_last()) + counters.last() as nat
    }
}

/// The smallest rank that covers 95 percent of `total` recordings.
pub open spec fn p95_rank(total: u64) -> nat {
    ((19 * total + 19) / 20) as nat
}

impl LatencyModel {
    /// Nothing recorded.
    pub open spec fn empty() -> LatencyModel {
        LatencyModel { buckets: seq![0, 0, 0, 0, 0, 0, 0, 0], total: 0 }
    }

    /// After one more recording.
    pub open spec fn recorded(self, duration_ms: u64) -> LatencyModel {
        let b = bucket_of(duration_ms);
        LatencyModel {
            buckets: self.buckets.update(b, counted(self.buckets[b])),
            total: counted(self.total),
        }
    }

    /// Each recording stands in exactly one bucket.
    pub open spec fn balanced(self) -> bool {
        self.buckets.len() == 8 && counter_sum(self.buckets) == self.total
    }

    /// The buckets up to and with the `b`-th hold the 95th percentile.
    pub open spec fn covers_p95(self, b: int) -> bool {
        counter_sum(self.buckets.take(b + 1)) >= p95_rank(self.total)
    }

    /// The first bucket from the `b`-th on that reaches the 95th percentile,
    /// or the last.
    pub open spec fn p95_from(self, b: int) -> int
        decreases 7 - b,
    {
        if b >= 7 || self.covers_p95(b) {
            b
        } else {
            self.p95_from(b + 1)
        }
    }

    /// The bucket of the 95th percentile.
    pub open spec fn p95(self) -> int {
        self.p95_from(0)
    }

    /// The timeout, in seconds, that the recorded latencies call for.
    pub open spec fn timeout_secs(self) -> u64 {
        if self.total < 10 {
            DEFAULT_QUERY_TIMEOUT_SECS
        } else if self.p95() <= 2 {
            DEFAULT_QUERY_TIMEOUT_SECS
        } else if self.p95() == 3 {
            50
        } else if self.p95() == 4 {
            40
        } else if self.p95() == 5 {
            30
        } else {
            MIN_QUERY_TIMEOUT_SECS
        }
    }
}

/// Latency histogram feeding the adaptive timeout.
/// Buckets: [0-100ms, 100-500ms, 500ms-1s, 1-5s, 5-10s, 10-30s, 30-60s, 60s+]
///
/// A recording counts in its bucket and in the total as one step: whoever
/// reads the histogram sees both or neither.
#[derive(Debug)]
pub struct AtomicLatencyHistogram {
    buckets: [u64; 8],
    total: u64,
}

impl View for AtomicLatencyHistogram {
    type V = LatencyModel;

    closed spec fn view(&self) -> LatencyModel {
        LatencyModel { buckets: self.buckets@, total: self.total }
    }
}

impl AtomicLatencyHistogram {
    /// A histogram with nothing recorded.
    pub fn new() -> (r: Self)
        ensures
            r@ == LatencyModel::empty(),
    {
        let r = AtomicLatencyHistogram { buckets: [0, 0, 0, 0, 0, 0, 0, 0], total: 0 };
        assert(r@.buckets =~= LatencyModel::empty().buckets);
        r
    }

    /// A histogram with the given counters.
    pub fn from_counts(buckets: [u64; 8], total: u64) -> (r: Self)
        ensures
            r@ == (LatencyModel { buckets: buckets@, total }),
    {
        AtomicLatencyHistogram { buckets, total }
    }

    /// Counts one query that took `duration_ms` milliseconds.
    pub fn record(&mut self, duration_ms: u64)
        ensures
            final(self)@ == old(self)@.recorded(duration_ms),
    {
        let bucket = latency_bucket(duration_ms);
        self.buckets[bucket] = self.buckets[bucket].wrapping_add(1);
        self.total = self.total.wrapping_add(1);
        assert(self@.buckets =~= old(self)@.recorded(duration_ms).buckets);
    }

    /// P95-bucket to timeout seconds. Under load the ceiling tightens toward
    /// [`MIN_QUERY_TIMEOUT_SECS`] so slow queries shed before they pile up.
    pub fn compute_query_timeout_secs(&self) -> (r: u64)
        ensures
            r == self@.timeout_secs(),
    {
        if self.count() < 10 {
            return DEFAULT_QUERY_TIMEOUT_SECS;
        }
        let bucket = self.p95_bucket();
        if bucket <= 2 {
            DEFAULT_QUERY_TIMEOUT_SECS
        } else if bucket == 3 {
            50
        } else if bucket == 4 {
            40
        } else if bucket == 5 {
            30
        } else {
            MIN_QUERY_TIMEOUT_SECS
        }
    }

    /// The bucket of the 95th percentile.
    pub fn p95_bucket(&self) -> (r: usize)
        ensures
            r == self@.p95(),
            r < 8,
    {
        let target: u128 = (19 * (self.total as u128) + 19) / 20;
        let mut cumulative: u128 = 0;
        let mut i: usize = 0;
        while i < 8
            invariant
                i <= 8,
                target == p95_rank(self@.total),
                cumulative == counter_sum(self@.buckets.take(i as int)),
                cumulative <= i * 0xffff_ffff_ffff_ffff,
                i < 8 ==> self@.p95() == self@.p95_from(i as int),
                i == 8 ==> self@.p95() == 7,
            decreases 8 - i,
        {
            assert(self@.buckets.take(i + 1).drop_last() =~= self@.buckets.take(i as int));
            cumulative = cumulative + self.buckets[i] as u128;
            if cumulative >= target {
                return i;
            }
            i += 1;
        }
        7
    }

    /// The number of recordings.
    pub fn count(&self) -> (r: u64)
        ensures
            r == self@.total,
    {
        self.total
    }
}

impl Default for AtomicLatencyHistogram {
    fn default() -> (r: Self)
        ensures
            r@ == LatencyModel::empty(),
    {
        AtomicLatencyHistogram::new()
    }
}

// ---------------------------------------------------------------------------
// The setup battery
// ---------------------------------------------------------------------------

/// Knobs for the battery. Defaults are the production values the battery
/// shipped with; every one of them exists to keep a single query from owning
/// the box.
#[derive(Debug)]
pub struct SessionOptions {
    /// Schemas for `SET LOCAL search_path`, in order. `pg_catalog` first is
    /// deliberate: it pins system-name resolution so a malicious same-named
    /// object in a user schema cannot shadow it.
    pub search_path: Vec<String>,
    pub lock_timeout_ms: u64,
    pub work_mem_mb: u64,
    pub temp_file_limit_mb: u64,
    /// `max_parallel_workers_per_gather = 0`: one query gets one core.
    pub disable_parallelism: bool,
    /// `jit = off`: JIT compilation is a cost amplifier on adversarial plans.
    pub disable_jit: bool,
    /// `transaction_read_only = on`, the independent write-protection layer.
    /// Leave on unless the session must write.
    pub read_only: bool,
}

/// What the options say, over mathematical sequences.
pub struct OptionsModel {
    pub search_path: Seq<Seq<char>>,
    pub lock_timeout_ms: u64,
    pub work_mem_mb: u64,
    pub temp_file_limit_mb: u64,
    pub disable_parallelism: bool,
    pub disable_jit: bool,
    pub read_only: bool,
}

impl View for SessionOptions {
    type V = OptionsModel;

    open spec fn view(&self) -> OptionsModel {
        OptionsModel {
            search_path: texts(self.search_path@),
            lock_timeout_ms: self.lock_timeout_ms,
            work_mem_mb: self.work_mem_mb,
            temp_file_limit_mb: self.temp_file_limit_mb,
            disable_parallelism: self.disable_parallelism,
            disable_jit: self.disable_jit,
            read_only: self.read_only,
        }
    }
}

impl Clone for SessionOptions {
    fn clone(&self) -> (r: Self)
        ensures
            r@ == self@,
    {
        SessionOptions {
            search_path: copy_texts(&self.search_path),
            lock_timeout_ms: self.lock_timeout_ms,
            work_mem_mb: self.work_mem_mb,
            temp_file_limit_mb: self.temp_file_limit_mb,
            disable_parallelism: self.disable_parallelism,
            disable_jit: self.disable_jit,
            read_only: self.read_only,
        }
    }
}

/// The options that [`SessionOptions::default`] gives.
pub open spec fn default_options() -> OptionsModel {
    OptionsModel {
        search_path: seq!["pg_catalog"@, "public"@],
        lock_timeout_ms: 5_000,
        work_mem_mb: 16,
        temp_file_limit_mb: 256,
        disable_parallelism: true,
        disable_jit: true,
        read_only: true,
    }
}

impl Default for SessionOptions {
    fn default() -> (r: Self)
        ensures
            r@ == default_options(),
    {
        let r = SessionOptions {
            search_path: vec!["pg_catalog".to_string(), "public".to_string()],
            lock_timeout_ms: 5_000,
            work_mem_mb: 16,
            temp_file_limit_mb: 256,
            disable_parallelism: true,
            disable_jit: true,
            read_only: true,
        };
        assert(r@.search_path =~= default_options().search_path);
        r
    }
}

/// The refusal of the first listed schema that is no plain identifier.
pub open spec fn search_path_refusal(schemas: Seq<Seq<char>>) -> Option<Seq<char>>
    decreases schemas.len(),
{
    if schemas.len() == 0 {
        None
    } else if !plain_identifier(schemas[0]) {
        Some("search_path schema `"@ + schemas[0] + "` is not a plain SQL identifier."@)
    } else {
        search_path_refusal(schemas.skip(1))
    }
}

/// Why no battery is built: the role name, or the first schema that is no
/// plain identifier.
pub open spec fn setup_refusal(role: RoleModel, options: OptionsModel) -> Option<Seq<char>> {
    if !plain_identifier(role.name) {
        Some("Role name `"@ + role.name + "` is not a plain SQL identifier."@)
    } else {
        search_path_refusal(options.search_path)
    }
}

/// `statement` alone if `wanted`, else nothing.
pub open spec fn optional(wanted: bool, statement: Seq<char>) -> Seq<Seq<char>> {
    if wanted {
        seq![statement]
    } else {
        Seq::empty()
    }
}

/// The `SET LOCAL` statements of one query, in order.
pub open spec fn setup_statements(
    role: RoleModel,
    groups: Seq<u128>,
    timeout_ms: u64,
    options: OptionsModel,
) -> Seq<Seq<char>> {
    let trio: Seq<Seq<char>> = match role.user {
        Some(user) => rls_trio(user, groups),
        None => Seq::empty(),
    };
    seq![
        "SET LOCAL ROLE "@ + role.name,
        "SET LOCAL search_path = "@ + joined(options.search_path, ", "@),
        "SET LOCAL statement_timeout = '"@ + decimal(timeout_ms as nat) + "ms'"@,
        "SET LOCAL lock_timeout = '"@ + decimal(options.lock_timeout_ms as nat) + "ms'"@,
        "SET LOCAL work_mem = '"@ + decimal(options.work_mem_mb as nat) + "MB'"@,
    ] + optional(
        options.disable_parallelism,
        "SET LOCAL max_parallel_workers_per_gather = 0"@,
    ) + optional(options.disable_jit, "SET LOCAL jit = 'off'"@) + seq![
        "SET LOCAL temp_file_limit = '"@ + decimal(options.temp_file_limit_mb as nat) + "MB'"@,
    ] + trio + optional(options.read_only, "SET LOCAL transaction_read_only = on"@)
}

/// Build the `SET LOCAL` battery for one query, in order: role first, then
/// the resource clamps, then RLS context, then read-only.
///
/// Execute the returned statements inside the query's transaction before the
/// query itself. Fails if the role name or any search-path schema is not a
/// plain SQL identifier (the identifier law).
pub fn build_setup_statements(
    role: &SessionRole,
    rls_groups: &[Uuid],
    timeout_ms: u64,
    options: &SessionOptions,
) -> (r: Result<Vec<String>, String>)
    ensures
        match r {
            Ok(statements) => setup_refusal(role@, options@) is None && texts(statements@)
                == setup_statements(role@, uuids_bits(rls_groups@), timeout_ms, options@),
            Err(reason) => setup_refusal(role@, options@) == Some(reason@),
        },
{
    if !is_sql_identifier(role.role_name()) {
        return Err(
            around("Role name `", role.role_name(), "` is not a plain SQL identifier."),
        );
    }
    let mut i: usize = 0;
    assert(options@.search_path.skip(0) =~= options@.search_path);
    while i < options.search_path.len()
        invariant
            i <= options.search_path.len(),
            plain_identifier(role@.name),
            search_path_refusal(options@.search_path.skip(i as int)) == search_path_refusal(
                options@.search_path,
            ),
        decreases options.search_path.len() - i,
    {
        let schema = options.search_path[i].as_str();
        assert(options@.search_path.skip(i as int)[0] == schema@);
        assert(options@.search_path.skip(i as int).skip(1) =~= options@.search_path.skip(i + 1));
        if !is_sql_identifier(schema) {
            return Err(
                around("search_path schema `", schema, "` is not a plain SQL identifier."),
            );
        }
        i += 1;
    }

    let path = join(&options.search_path, ", ");
    let mut setup: Vec<String> = Vec::new();
    setup.push(prefixed("SET LOCAL ROLE ", role.role_name()));
    setup.push(prefixed("SET LOCAL search_path = ", path.as_str()));
    setup.push(
        around("SET LOCAL statement_timeout = '", decimal_text(timeout_ms).as_str(), "ms'"),
    );
    setup.push(
        around("SET LOCAL lock_timeout = '", decimal_text(options.lock_timeout_ms).as_str(), "ms'"),
    );
    setup.push(around("SET LOCAL work_mem = '", decimal_text(options.work_mem_mb).as_str(), "MB'"));
    let ghost clamps = setup_statements(role@, uuids_bits(rls_groups@), timeout_ms, options@).take(
        5,
    );
    assert(texts(setup@) =~= clamps);
    if options.disable_parallelism {
        setup.push("SET LOCAL max_parallel_workers_per_gather = 0".to_string());
    }
    let ghost so_far = clamps + optional(
        options.disable_parallelism,
        "SET LOCAL max_parallel_workers_per_gather = 0"@,
    );
    assert(texts(setup@) =~= so_far);
    if options.disable_jit {
        setup.push("SET LOCAL jit = 'off'".to_string());
    }
    setup.push(
        around(
            "SET LOCAL temp_file_limit = '",
            decimal_text(options.temp_file_limit_mb).as_str(),
            "MB'",
        ),
    );
    let ghost so_far = so_far + optional(options.disable_jit, "SET LOCAL jit = 'off'"@) + seq![
        "SET LOCAL temp_file_limit = '"@ + decimal(options.temp_file_limit_mb as nat) + "MB'"@,
    ];
    assert(texts(setup@) =~= so_far);
    if let Some(user_id) = role.user_id() {
        let rls = RlsContext { user_id, group_ids: copy_of(rls_groups) };
        let trio = rls.set_local_statements();
        setup.push(trio[0].clone());
        setup.push(trio[1].clone());
        setup.push(trio[2].clone());
        assert(texts(setup@) =~= so_far + texts(trio@));
    }
    if options.read_only {
        // `transaction_read_only`, not `default_transaction_read_only`: the
        // `default_` GUC only seeds transactions that START after it is set, so
        // setting it mid-transaction (where this battery runs) is a no-op. The
        // plain form is the current transaction's own read-only flag, the same
        // thing `SET TRANSACTION READ ONLY` sets, and takes effect immediately.
        setup.push("SET LOCAL transaction_read_only = on".to_string());
    }
    assert(texts(setup@) =~= setup_statements(
        role@,
        uuids_bits(rls_groups@),
        timeout_ms,
        options@,
    ));
    Ok(setup)
}

/// The listed UUIDs as a vector.
fn copy_of(ids: &[Uuid]) -> (r: Vec<Uuid>)
    ensures
        r@ == ids@,
{
    let mut out: Vec<Uuid> = Vec::new();
    let mut i: usize = 0;
    while i < ids.len()
        invariant
            i <= ids.len(),
            out@ == ids@.take(i as int),
        decreases ids.len() - i,
    {
        out.push(ids[i]);
        i += 1;
    }
    out
}

/// No character of a plain identifier can end a statement or a quoted text,
/// separate two names, or begin a comment.
pub proof fn law_identifiers_are_inert(s: Seq<char>, i: int)
    requires
        plain_identifier(s),
        0 <= i < s.len(),
    ensures
        s[i] != '\'' && s[i] != '"' && s[i] != ';' && s[i] != ',' && s[i] != ' ' && s[i] != '-'
            && s[i] != '/' && s[i] != '\\' && s[i] != '\n' && s[i] != '\0',
{
    assert(continues_identifier(s[i]));
}

/// Every character of a run of hexadecimal digits is one.
pub(crate) proof fn lemma_hex_run(bits: u128, from: nat, to: nat)
    requires
        from <= to <= 32,
    ensures
        hex_run(bits, from, to).len() == to - from,
        forall|i: int|
            0 <= i < to - from ==> {
                let c = #[trigger] hex_run(bits, from, to)[i];
                ('0' <= c && c <= '9') || ('a' <= c && c <= 'f')
            },
{
    assert forall|i: int| 0 <= i < to - from implies {
        let c = #[trigger] hex_run(bits, from, to)[i];
        ('0' <= c && c <= '9') || ('a' <= c && c <= 'f')
    } by {
        let d = nibble(bits, (from + i) as nat);
        assert(0 <= d < 16);
    }
}

/// The text of a UUID is 36 characters, each a hexadecimal digit or a hyphen:
/// it can carry nothing else into a statement.
pub proof fn law_uuid_text_is_inert(bits: u128)
    ensures
        hyphenated(bits).len() == 36,
        forall|i: int|
            0 <= i < 36 ==> {
                let c = #[trigger] hyphenated(bits)[i];
                ('0' <= c && c <= '9') || ('a' <= c && c <= 'f') || c == '-'
            },
{
    reveal_strlit("-");
    lemma_hex_run(bits, 0, 8);
    lemma_hex_run(bits, 8, 12);
    lemma_hex_run(bits, 12, 16);
    lemma_hex_run(bits, 16, 20);
    lemma_hex_run(bits, 20, 32);
}

/// The characters that the text of a list of UUIDs is made of.
pub open spec fn in_uuid_list(c: char) -> bool {
    ('0' <= c && c <= '9') || ('a' <= c && c <= 'f') || c == '-' || c == ','
}

/// The groups of a user are set as hexadecimal digits, hyphens and commas:
/// nothing in them ends the quoted text that they stand in.
pub proof fn law_groups_text_is_inert(groups: Seq<u128>)
    ensures
        made_of(joined(hyphenated_list(groups), ","@), |c: char| in_uuid_list(c)),
{
    reveal_strlit(",");
    let allowed = |c: char| in_uuid_list(c);
    let parts = hyphenated_list(groups);
    assert forall|i: int| 0 <= i < parts.len() implies made_of(#[trigger] parts[i], allowed) by {
        law_uuid_text_is_inert(groups[i]);
    }
    lemma_joined_made_of(parts, ","@, allowed);
}

/// The characters that a search path is made of.
pub open spec fn in_search_path(c: char) -> bool {
    continues_identifier(c) || c == ',' || c == ' '
}

/// The search path of a battery that is not refused is made of letters, digits,
/// underscores, commas and spaces.
pub proof fn law_search_path_is_inert(role: RoleModel, options: OptionsModel)
    requires
        setup_refusal(role, options) is None,
    ensures
        made_of(joined(options.search_path, ", "@), |c: char| in_search_path(c)),
{
    reveal_strlit(", ");
    let allowed = |c: char| in_search_path(c);
    law_battery_is_refused_exactly(role, options);
    assert forall|i: int| 0 <= i < options.search_path.len() implies made_of(
        #[trigger] options.search_path[i],
        allowed,
    ) by {
        assert(plain_identifier(options.search_path[i]));
    }
    lemma_joined_made_of(options.search_path, ", "@, allowed);
}

/// The characters that stand outside the quotes of a `SET LOCAL` statement.
pub open spec fn in_setting(c: char) -> bool {
    continues_identifier(c) || c == ' ' || c == '=' || c == ',' || c == '.'
}

/// The characters that stand inside the quotes of a `SET LOCAL` statement.
pub open spec fn in_quotes(c: char) -> bool {
    continues_identifier(c) || c == ',' || c == '-'
}

/// The statement is `before`, and then `value` in quotes if `quoted`: outside
/// the quotes nothing ends a statement, opens a quoted text or begins a comment,
/// and inside them nothing ends the quoted text.
pub open spec fn is_setting(
    statement: Seq<char>,
    before: Seq<char>,
    quoted: bool,
    value: Seq<char>,
) -> bool {
    &&& "SET LOCAL "@.is_prefix_of(statement)
    &&& made_of(before, |c: char| in_setting(c))
    &&& made_of(value, |c: char| in_quotes(c))
    &&& statement == (if quoted {
        before + "'"@ + value + "'"@
    } else {
        before
    })
}

/// The statement is one setting and nothing else.
pub open spec fn one_setting(statement: Seq<char>) -> bool {
    exists|before: Seq<char>, quoted: bool, value: Seq<char>|
        is_setting(statement, before, quoted, value)
}

/// Every statement of the list is one setting.
pub open spec fn all_settings(statements: Seq<Seq<char>>) -> bool {
    forall|i: int| 0 <= i < statements.len() ==> one_setting(#[trigger] statements[i])
}

/// A clamp is one setting: its unit follows the decimal number in quotes.
proof fn lemma_clamp_is_one_setting(before: Seq<char>, open: Seq<char>, n: nat, unit: Seq<char>)
    requires
        made_of(before, |c: char| in_setting(c)),
        "SET LOCAL "@.is_prefix_of(before),
        open == before + "'"@,
        unit == "ms'"@ || unit == "MB'"@,
    ensures
        one_setting(open + decimal(n) + unit),
{
    reveal_strlit("'");
    reveal_strlit("ms'");
    reveal_strlit("MB'");
    reveal_strlit("SET LOCAL ");
    lemma_decimal_digits(n);
    let value = decimal(n) + unit.drop_last();
    let statement = open + decimal(n) + unit;
    assert(statement =~= before + "'"@ + value + "'"@);
    assert forall|i: int| 0 <= i < value.len() implies in_quotes(#[trigger] value[i]) by {
        if i < decimal(n).len() {
            assert(value[i] == decimal(n)[i]);
        }
    }
    assert(is_setting(statement, before, true, value));
}

/// The user's context is three settings.
proof fn lemma_context_is_settings(user: u128, groups: Seq<u128>)
    ensures
        all_settings(rls_trio(user, groups)),
{
    reveal_strlit("'");
    reveal_strlit("SET LOCAL ");
    reveal_strlit("SET LOCAL app.current_user_id = '");
    reveal_strlit("SET LOCAL app.user_groups = '");
    reveal_strlit("SET LOCAL app.access_mode = 'full'");
    let trio = rls_trio(user, groups);
    law_uuid_text_is_inert(user);
    law_groups_text_is_inert(groups);
    let list = joined(hyphenated_list(groups), ","@);
    assert forall|i: int| 0 <= i < list.len() implies in_quotes(#[trigger] list[i]) by {
        assert(in_uuid_list(list[i]));
    }
    let id = "SET LOCAL app.current_user_id = '"@.drop_last();
    assert(trio[0] =~= id + "'"@ + hyphenated(user) + "'"@);
    assert(is_setting(trio[0], id, true, hyphenated(user)));
    let of_groups = "SET LOCAL app.user_groups = '"@.drop_last();
    assert(trio[1] =~= of_groups + "'"@ + list + "'"@);
    assert(is_setting(trio[1], of_groups, true, list));
    let mode = "SET LOCAL app.access_mode = 'full'"@.subrange(0, 28);
    let full = "SET LOCAL app.access_mode = 'full'"@.subrange(29, 33);
    assert(trio[2] =~= mode + "'"@ + full + "'"@);
    assert(is_setting(trio[2], mode, true, full));
}

/// The role, the search path and the clamps are settings.
proof fn lemma_front_is_settings(role: RoleModel, timeout_ms: u64, options: OptionsModel)
    requires
        setup_refusal(role, options) is None,
    ensures
        all_settings(battery_front(role, timeout_ms, options)),
{
    reveal_strlit("'");
    reveal_strlit("SET LOCAL ");
    let front = battery_front(role, timeout_ms, options);
    let none = Seq::<char>::empty();
    assert(one_setting("SET LOCAL ROLE "@ + role.name)) by {
        reveal_strlit("SET LOCAL ROLE ");
        let statement = "SET LOCAL ROLE "@ + role.name;
        assert forall|i: int| 0 <= i < statement.len() implies in_setting(#[trigger] statement[i]) by {
            if i >= 15 {
                assert(statement[i] == role.name[i - 15]);
            }
        }
        assert(is_setting(statement, statement, false, none));
    }
    assert(one_setting("SET LOCAL search_path = "@ + joined(options.search_path, ", "@))) by {
        reveal_strlit("SET LOCAL search_path = ");
        law_search_path_is_inert(role, options);
        let path = joined(options.search_path, ", "@);
        let statement = "SET LOCAL search_path = "@ + path;
        assert forall|i: int| 0 <= i < statement.len() implies in_setting(#[trigger] statement[i]) by {
            if i >= 24 {
                assert(statement[i] == path[i - 24]);
                assert(in_search_path(path[i - 24]));
            }
        }
        assert(is_setting(statement, statement, false, none));
    }
    assert(one_setting(
        "SET LOCAL statement_timeout = '"@ + decimal(timeout_ms as nat) + "ms'"@,
    )) by {
        reveal_strlit("SET LOCAL statement_timeout = '");
        let open = "SET LOCAL statement_timeout = '"@;
        assert(open =~= open.drop_last() + "'"@);
        lemma_clamp_is_one_setting(open.drop_last(), open, timeout_ms as nat, "ms'"@);
    }
    assert(one_setting(
        "SET LOCAL lock_timeout = '"@ + decimal(options.lock_timeout_ms as nat) + "ms'"@,
    )) by {
        reveal_strlit("SET LOCAL lock_timeout = '");
        let open = "SET LOCAL lock_timeout = '"@;
        assert(open =~= open.drop_last() + "'"@);
        lemma_clamp_is_one_setting(open.drop_last(), open, options.lock_timeout_ms as nat, "ms'"@);
    }
    assert(one_setting(
        "SET LOCAL work_mem = '"@ + decimal(options.work_mem_mb as nat) + "MB'"@,
    )) by {
        reveal_strlit("SET LOCAL work_mem = '");
        let open = "SET LOCAL work_mem = '"@;
        assert(open =~= open.drop_last() + "'"@);
        lemma_clamp_is_one_setting(open.drop_last(), open, options.work_mem_mb as nat, "MB'"@);
    }
    assert(one_setting(
        "SET LOCAL temp_file_limit = '"@ + decimal(options.temp_file_limit_mb as nat) + "MB'"@,
    )) by {
        reveal_strlit("SET LOCAL temp_file_limit = '");
        let open = "SET LOCAL temp_file_limit = '"@;
        assert(open =~= open.drop_last() + "'"@);
        lemma_clamp_is_one_setting(
            open.drop_last(),
            open,
            options.temp_file_limit_mb as nat,
            "MB'"@,
        );
    }
    assert(one_setting("SET LOCAL max_parallel_workers_per_gather = 0"@)) by {
        reveal_strlit("SET LOCAL max_parallel_workers_per_gather = 0");
        let statement = "SET LOCAL max_parallel_workers_per_gather = 0"@;
        assert(is_setting(statement, statement, false, none));
    }
    assert(one_setting("SET LOCAL jit = 'off'"@)) by {
        reveal_strlit("SET LOCAL jit = 'off'");
        let statement = "SET LOCAL jit = 'off'"@;
        assert(statement =~= statement.subrange(0, 16) + "'"@ + statement.subrange(17, 20) + "'"@);
        assert(is_setting(
            statement,
            statement.subrange(0, 16),
            true,
            statement.subrange(17, 20),
        ));
    }
}

/// Nothing can be smuggled into a battery: whatever the role, the groups, the
/// timeout and the options are, each statement of a battery that is not refused
/// is one `SET LOCAL` of one setting. No statement ends early, no quoted text
/// but its own opens, and nothing in it ends that.
pub proof fn law_battery_carries_no_injection(
    role: RoleModel,
    groups: Seq<u128>,
    timeout_ms: u64,
    options: OptionsModel,
)
    requires
        setup_refusal(role, options) is None,
    ensures
        all_settings(setup_statements(role, groups, timeout_ms, options)),
{
    law_battery_order(role, groups, timeout_ms, options);
    lemma_front_is_settings(role, timeout_ms, options);
    if let Some(user) = role.user {
        lemma_context_is_settings(user, groups);
    }
    assert(one_setting("SET LOCAL transaction_read_only = on"@)) by {
        reveal_strlit("SET LOCAL ");
        reveal_strlit("SET LOCAL transaction_read_only = on");
        let statement = "SET LOCAL transaction_read_only = on"@;
        assert(is_setting(statement, statement, false, Seq::empty()));
    }
}

/// The timeout that is granted is at least one millisecond; for an anonymous
/// role it never exceeds the public cap, for a user it is what was asked for.
pub proof fn law_timeouts_are_clamped(requested: u64)
    ensures
        1 <= granted_timeout_ms(false, requested) <= MAX_PUBLIC_STATEMENT_TIMEOUT_MS,
        granted_timeout_ms(true, requested) == if requested < 1 {
            1
        } else {
            requested
        },
        granted_timeout_ms(false, requested) <= granted_timeout_ms(true, requested),
{
}

/// The statements before the row-level-security context.
pub open spec fn battery_front(role: RoleModel, timeout_ms: u64, options: OptionsModel) -> Seq<
    Seq<char>,
> {
    setup_statements(
        RoleModel { name: role.name, user: None },
        Seq::empty(),
        timeout_ms,
        OptionsModel { read_only: false, ..options },
    )
}

/// The battery sets the role first, then the clamps, then the context of the
/// user, all three statements or none, and read-only last.
pub proof fn law_battery_order(
    role: RoleModel,
    groups: Seq<u128>,
    timeout_ms: u64,
    options: OptionsModel,
)
    ensures
        setup_statements(role, groups, timeout_ms, options) == battery_front(
            role,
            timeout_ms,
            options,
        ) + (match role.user {
            Some(user) => rls_trio(user, groups),
            None => Seq::empty(),
        }) + optional(options.read_only, "SET LOCAL transaction_read_only = on"@),
        setup_statements(role, groups, timeout_ms, options)[0] == "SET LOCAL ROLE "@ + role.name,
        options.read_only ==> setup_statements(role, groups, timeout_ms, options).last()
            == "SET LOCAL transaction_read_only = on"@,
{
    let all = setup_statements(role, groups, timeout_ms, options);
    let front = battery_front(role, timeout_ms, options);
    let trio: Seq<Seq<char>> = match role.user {
        Some(user) => rls_trio(user, groups),
        None => Seq::empty(),
    };
    let tail = optional(options.read_only, "SET LOCAL transaction_read_only = on"@);
    assert(all =~= front + trio + tail);
}

/// No statement but those of the user's context sets a variable of it: an
/// anonymous session has no context at all.
pub proof fn law_anonymous_has_no_context(
    name: Seq<char>,
    groups: Seq<u128>,
    timeout_ms: u64,
    options: OptionsModel,
    i: int,
)
    requires
        0 <= i < setup_statements(
            RoleModel { name, user: None },
            groups,
            timeout_ms,
            options,
        ).len(),
    ensures
        !"SET LOCAL app."@.is_prefix_of(
            setup_statements(RoleModel { name, user: None }, groups, timeout_ms, options)[i],
        ),
{
    reveal_strlit("SET LOCAL app.");
    reveal_strlit("SET LOCAL ROLE ");
    reveal_strlit("SET LOCAL search_path = ");
    reveal_strlit("SET LOCAL statement_timeout = '");
    reveal_strlit("SET LOCAL lock_timeout = '");
    reveal_strlit("SET LOCAL work_mem = '");
    reveal_strlit("SET LOCAL max_parallel_workers_per_gather = 0");
    reveal_strlit("SET LOCAL jit = 'off'");
    reveal_strlit("SET LOCAL temp_file_limit = '");
    reveal_strlit("SET LOCAL transaction_read_only = on");
    let statement = setup_statements(RoleModel { name, user: None }, groups, timeout_ms, options)[i];
    assert(statement.len() > 10);
    assert(statement[10] != 'a');
    let context = "SET LOCAL app."@;
    if context.is_prefix_of(statement) {
        assert(context[10] == statement[10]);
    }
}

/// A battery is built for a role with the default options exactly if the role
/// name is a plain identifier.
pub proof fn law_default_options_are_accepted(role: RoleModel)
    ensures
        setup_refusal(role, default_options()) is None <==> plain_identifier(role.name),
{
    reveal_strlit("pg_catalog");
    reveal_strlit("public");
    let path = default_options().search_path;
    assert(path.len() == 2);
    assert(plain_identifier(path[0]));
    assert(plain_identifier(path[1]));
    assert(path.skip(1)[0] == path[1]);
    assert(path.skip(1).skip(1).len() == 0);
    reveal_with_fuel(search_path_refusal, 3);
}

/// A battery is refused exactly if the role name, or one of the schemas, is no
/// plain identifier.
pub proof fn law_battery_is_refused_exactly(role: RoleModel, options: OptionsModel)
    ensures
        setup_refusal(role, options) is None <==> plain_identifier(role.name) && forall|i: int|
            0 <= i < options.search_path.len() ==> plain_identifier(
                #[trigger] options.search_path[i],
            ),
{
    lemma_search_path(options.search_path);
}

/// The search path is refused exactly if one of the schemas is no plain
/// identifier.
proof fn lemma_search_path(schemas: Seq<Seq<char>>)
    ensures
        search_path_refusal(schemas) is None <==> forall|i: int|
            0 <= i < schemas.len() ==> plain_identifier(#[trigger] schemas[i]),
    decreases schemas.len(),
{
    if schemas.len() > 0 {
        let rest = schemas.skip(1);
        lemma_search_path(rest);
        assert forall|i: int| 0 <= i < rest.len() implies #[trigger] rest[i] == schemas[i + 1] by {
        }
        assert forall|i: int| 0 < i < schemas.len() implies #[trigger] schemas[i] == rest[
            i - 1] by {}
    }
}

/// Counting one more in a bucket adds one to the sum.
proof fn lemma_sum_update(counters: Seq<u64>, b: int, n: u64)
    requires
        0 <= b < counters.len(),
    ensures
        counter_sum(counters.update(b, n)) == counter_sum(counters) - counters[b] + n,
    decreases counters.len(),
{
    let updated = counters.update(b, n);
    if b == counters.len() - 1 {
        assert(updated.drop_last() =~= counters.drop_last());
    } else {
        lemma_sum_update(counters.drop_last(), b, n);
        assert(updated.drop_last() =~= counters.drop_last().update(b, n));
    }
}

/// A counter is no larger than the sum of all.
proof fn lemma_counter_below_sum(counters: Seq<u64>, b: int)
    requires
        0 <= b < counters.len(),
    ensures
        counters[b] <= counter_sum(counters),
    decreases counters.len(),
{
    if b < counters.len() - 1 {
        lemma_counter_below_sum(counters.drop_last(), b);
    }
}

/// The total stays the sum of the buckets: it is so when nothing is recorded,
/// and recording keeps it so until the counters run out.
pub proof fn law_recording_keeps_balance(h: LatencyModel, duration_ms: u64)
    ensures
        LatencyModel::empty().balanced(),
        h.balanced() && h.total < u64::MAX ==> h.recorded(duration_ms).balanced(),
{
    reveal_with_fuel(counter_sum, 9);
    if h.balanced() && h.total < u64::MAX {
        let b = bucket_of(duration_ms);
        lemma_counter_below_sum(h.buckets, b);
        lemma_sum_update(h.buckets, b, counted(h.buckets[b]));
    }
}

/// A recording counts in its own bucket and in no other.
pub proof fn law_recording_counts_once(h: LatencyModel, duration_ms: u64, b: int)
    requires
        h.buckets.len() == 8,
        0 <= b < 8,
    ensures
        b != bucket_of(duration_ms) ==> h.recorded(duration_ms).buckets[b] == h.buckets[b],
        b == bucket_of(duration_ms) ==> h.recorded(duration_ms).buckets[b] == counted(
            h.buckets[b],
        ),
{
}

/// From the `b`-th bucket on, the bucket of the 95th percentile is the first
/// that reaches it.
proof fn lemma_p95_from(h: LatencyModel, b: int)
    requires
        0 <= b <= 7,
        h.covers_p95(7),
    ensures
        b <= h.p95_from(b) <= 7,
        h.covers_p95(h.p95_from(b)),
        forall|c: int| b <= c < h.p95_from(b) ==> !(#[trigger] h.covers_p95(c)),
    decreases 7 - b,
{
    if b < 7 && !h.covers_p95(b) {
        lemma_p95_from(h, b + 1);
    }
}

/// The bucket of the 95th percentile is the first up to which 95 percent of
/// the recordings fall.
pub proof fn law_p95_is_the_first_that_covers(h: LatencyModel)
    requires
        h.balanced(),
    ensures
        0 <= h.p95() <= 7,
        h.covers_p95(h.p95()),
        forall|c: int| 0 <= c < h.p95() ==> !(#[trigger] h.covers_p95(c)),
{
    assert(h.buckets.take(8) =~= h.buckets);
    assert(h.covers_p95(7));
    lemma_p95_from(h, 0);
}

/// The adaptive timeout stays between the minimum and the default, and a slower
/// 95th percentile never raises it.
pub proof fn law_timeout_tightens_under_load(fast: LatencyModel, slow: LatencyModel)
    ensures
        MIN_QUERY_TIMEOUT_SECS <= fast.timeout_secs() <= DEFAULT_QUERY_TIMEOUT_SECS,
        fast.p95() <= slow.p95() && fast.total >= 10 && slow.total >= 10 ==> slow.timeout_secs()
            <= fast.timeout_secs(),
{
}

impl LatencyModel {
    /// After the listed recordings, in order, on an empty histogram.
    pub open spec fn recorded_all(durations: Seq<u64>) -> LatencyModel
        decreases durations.len(),
    {
        if durations.len() == 0 {
            LatencyModel::empty()
        } else {
            LatencyModel::recorded_all(durations.drop_last()).recorded(durations.last())
        }
    }
}

/// How many of the durations fall in the `k`-th bucket or before it.
pub open spec fn count_up_to(durations: Seq<u64>, k: int) -> nat
    decreases durations.len(),
{
    if durations.len() == 0 {
        0
    } else {
        count_up_to(durations.drop_last(), k) + if bucket_of(durations.last()) <= k {
            1nat
        } else {
            0nat
        }
    }
}

/// No more durations are counted than there are, and up to the last bucket all
/// are.
proof fn lemma_count_within(durations: Seq<u64>, k: int)
    ensures
        count_up_to(durations, k) <= durations.len(),
        k >= 7 ==> count_up_to(durations, k) == durations.len(),
    decreases durations.len(),
{
    if durations.len() > 0 {
        lemma_count_within(durations.drop_last(), k);
    }
}

/// The histogram counts each duration once: the total is their number, and the
/// buckets up to the `k`-th hold those that fall there.
pub proof fn law_histogram_counts_durations(durations: Seq<u64>, k: int)
    requires
        durations.len() <= u64::MAX,
        0 <= k < 8,
    ensures
        LatencyModel::recorded_all(durations).buckets.len() == 8,
        LatencyModel::recorded_all(durations).total == durations.len(),
        counter_sum(LatencyModel::recorded_all(durations).buckets.take(k + 1)) == count_up_to(
            durations,
            k,
        ),
    decreases durations.len(),
{
    let h = LatencyModel::recorded_all(durations);
    if durations.len() == 0 {
        lemma_sum_of_zeros(h.buckets.take(k + 1));
    } else {
        let before = LatencyModel::recorded_all(durations.drop_last());
        let b = bucket_of(durations.last());
        law_histogram_counts_durations(durations.drop_last(), k);
        law_histogram_counts_durations(durations.drop_last(), 7);
        lemma_count_within(durations.drop_last(), 7);
        assert(before.buckets.take(8) =~= before.buckets);
        lemma_counter_below_sum(before.buckets, b);
        if b <= k {
            assert(h.buckets.take(k + 1) =~= before.buckets.take(k + 1).update(b, h.buckets[b]));
            lemma_sum_update(before.buckets.take(k + 1), b, h.buckets[b]);
        } else {
            assert(h.buckets.take(k + 1) =~= before.buckets.take(k + 1));
        }
    }
}

/// Counters that are all zero sum up to zero.
proof fn lemma_sum_of_zeros(counters: Seq<u64>)
    requires
        forall|i: int| 0 <= i < counters.len() ==> #[trigger] counters[i] == 0,
    ensures
        counter_sum(counters) == 0,
    decreases counters.len(),
{
    if counters.len() > 0 {
        lemma_sum_of_zeros(counters.drop_last());
    }
}

/// Longer durations leave the lower buckets emptier.
proof fn lemma_counts_fall(fast: Seq<u64>, slow: Seq<u64>, k: int)
    requires
        fast.len() == slow.len(),
        forall|i: int| 0 <= i < fast.len() ==> fast[i] <= #[trigger] slow[i],
    ensures
        count_up_to(slow, k) <= count_up_to(fast, k),
    decreases fast.len(),
{
    if fast.len() > 0 {
        assert forall|i: int| 0 <= i < fast.len() - 1 implies fast.drop_last()[i]
            <= #[trigger] slow.drop_last()[i] by {
            assert(fast[i] <= slow[i]);
        }
        lemma_counts_fall(fast.drop_last(), slow.drop_last(), k);
        assert(fast[fast.len() - 1] <= slow[fast.len() - 1]);
    }
}

/// The timeout never rises when recorded durations grow: of two runs of
/// recordings, one of which is nowhere faster than the other, the slower calls
/// for the same timeout or a shorter one.
pub proof fn law_timeout_falls_as_durations_grow(fast: Seq<u64>, slow: Seq<u64>)
    requires
        fast.len() == slow.len(),
        fast.len() <= u64::MAX,
        forall|i: int| 0 <= i < fast.len() ==> fast[i] <= #[trigger] slow[i],
    ensures
        LatencyModel::recorded_all(slow).timeout_secs() <= LatencyModel::recorded_all(
            fast,
        ).timeout_secs(),
{
    let f = LatencyModel::recorded_all(fast);
    let s = LatencyModel::recorded_all(slow);
    law_histogram_counts_durations(fast, 7);
    law_histogram_counts_durations(slow, 7);
    lemma_count_within(fast, 7);
    lemma_count_within(slow, 7);
    assert(f.buckets.take(8) =~= f.buckets);
    assert(s.buckets.take(8) =~= s.buckets);
    law_p95_is_the_first_that_covers(f);
    law_p95_is_the_first_that_covers(s);
    assert(f.p95() <= s.p95()) by {
        let c = s.p95();
        law_histogram_counts_durations(fast, c);
        law_histogram_counts_durations(slow, c);
        lemma_counts_fall(fast, slow, c);
        assert(f.covers_p95(c));
    }
    law_timeout_tightens_under_load(f, s);
}

/// Counting is a fold.
proof fn lemma_count_is_fold(durations: Seq<u64>, k: int, from: nat)
    ensures
        durations.fold_right(
            |d: u64, n: nat|
                if bucket_of(d) <= k {
                    n + 1
                } else {
                    n
                },
            from,
        ) == from + count_up_to(durations, k),
    decreases durations.len(),
{
    if durations.len() > 0 {
        let next = if bucket_of(durations.last()) <= k {
            from + 1
        } else {
            from
        };
        lemma_count_is_fold(durations.drop_last(), k, next);
    }
}

/// The order of recordings does not matter: the same durations in another order
/// give the same histogram, and so the same timeout.
pub proof fn law_order_of_recordings_is_free(a: Seq<u64>, b: Seq<u64>)
    requires
        a.to_multiset() == b.to_multiset(),
        a.len() <= u64::MAX,
    ensures
        LatencyModel::recorded_all(a) == LatencyModel::recorded_all(b),
{
    broadcast use vstd::seq_lib::group_to_multiset_ensures;

    assert(a.to_multiset().len() == a.len());
    assert(b.to_multiset().len() == b.len());
    let ha = LatencyModel::recorded_all(a);
    let hb = LatencyModel::recorded_all(b);
    law_histogram_counts_durations(a, 7);
    law_histogram_counts_durations(b, 7);
    assert forall|k: int| 0 <= k < 8 implies counter_sum(#[trigger] ha.buckets.take(k + 1))
        == counter_sum(hb.buckets.take(k + 1)) by {
        law_histogram_counts_durations(a, k);
        law_histogram_counts_durations(b, k);
        lemma_count_is_fold(a, k, 0);
        lemma_count_is_fold(b, k, 0);
        vstd::seq_lib::lemma_fold_right_permutation(
            a,
            b,
            |d: u64, n: nat|
                if bucket_of(d) <= k {
                    n + 1
                } else {
                    n
                },
            0nat,
        );
    }
    assert forall|k: int| 0 <= k < 8 implies #[trigger] ha.buckets[k] == hb.buckets[k] by {
        assert(ha.buckets.take(k + 1).drop_last() =~= ha.buckets.take(k));
        assert(hb.buckets.take(k + 1).drop_last() =~= hb.buckets.take(k));
        if k > 0 {
            assert(counter_sum(ha.buckets.take((k - 1) + 1)) == counter_sum(
                hb.buckets.take((k - 1) + 1),
            ));
        } else {
            assert(ha.buckets.take(0) =~= hb.buckets.take(0));
        }
        assert(counter_sum(ha.buckets.take(k + 1)) == counter_sum(hb.buckets.take(k + 1)));
    }
    assert(ha.buckets =~= hb.buckets);
}

} // verus!
