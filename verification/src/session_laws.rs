//! Laws on the session battery: what each statement of it says, read off the
//! role, the groups, the timeout and the options alone.

use vstd::arithmetic::div_mod::{lemma_basic_div, lemma_div_denominator};
use vstd::arithmetic::power::{lemma_pow0, lemma_pow1, lemma_pow_adds, lemma_pow_positive, pow};
use vstd::prelude::*;

use uuid::Uuid;

use crate::session::{
    bucket_of, continues_identifier, count_up_to, counted, counter_sum, default_options,
    granted_timeout_ms, hex_char, hex_run, hyphenated, hyphenated_list,
    law_battery_is_refused_exactly, law_histogram_counts_durations, lemma_hex_run, nibble, p95_rank,
    plain_identifier, rls_trio, search_path_refusal, setup_refusal, setup_statements,
    starts_identifier, uuid_bits, uuids_bits, BUCKET_BOUNDS, DEFAULT_QUERY_TIMEOUT_SECS,
    LatencyModel, MAX_PUBLIC_STATEMENT_TIMEOUT_MS, MAX_QUERY_ROWS, MAX_RESPONSE_BYTES,
    MAX_RESPONSE_CELL_BYTES, MIN_QUERY_TIMEOUT_SECS, OptionsModel, RoleModel, SessionOptions,
    SessionRole,
};
use crate::text::{decimal, joined};

verus! {

// ---------------------------------------------------------------------------
// UUIDs
// ---------------------------------------------------------------------------

/// The value of a hexadecimal digit.
pub open spec fn digit_value(c: char) -> int {
    if c <= '9' {
        c as int - '0' as int
    } else {
        10 + (c as int - 'a' as int)
    }
}

/// The number that the first `n` characters of a text say in hexadecimal, when
/// hyphens are passed over.
pub open spec fn hex_number(s: Seq<char>, n: int) -> int
    decreases n,
{
    if n <= 0 {
        0
    } else if s[n - 1] == '-' {
        hex_number(s, n - 1)
    } else {
        16 * hex_number(s, n - 1) + digit_value(s[n - 1])
    }
}

/// How many of the first `n` characters of a UUID's text are digits.
spec fn digits_before(n: int) -> int {
    n - (if n > 8 {
        1int
    } else {
        0
    }) - (if n > 13 {
        1int
    } else {
        0
    }) - (if n > 18 {
        1int
    } else {
        0
    }) - (if n > 23 {
        1int
    } else {
        0
    })
}

/// A hexadecimal digit has the value that it was made of, and is no hyphen.
proof fn lemma_digit(d: nat)
    requires
        d < 16,
    ensures
        digit_value(hex_char(d)) == d,
        hex_char(d) != '-',
        ('0' <= hex_char(d) && hex_char(d) <= '9') || ('a' <= hex_char(d) && hex_char(d) <= 'f'),
{
}

/// What stands at each place of a UUID's text.
proof fn lemma_uuid_places(bits: u128, k: int)
    requires
        0 <= k < 36,
    ensures
        hyphenated(bits).len() == 36,
        k == 8 || k == 13 || k == 18 || k == 23 ==> hyphenated(bits)[k] == '-',
        !(k == 8 || k == 13 || k == 18 || k == 23) ==> hyphenated(bits)[k] == hex_char(
            nibble(bits, digits_before(k) as nat),
        ),
{
    reveal_strlit("-");
    lemma_hex_run(bits, 0, 8);
    lemma_hex_run(bits, 8, 12);
    lemma_hex_run(bits, 12, 16);
    lemma_hex_run(bits, 16, 20);
    lemma_hex_run(bits, 20, 32);
    let a = hex_run(bits, 0, 8) + "-"@;
    let b = a + hex_run(bits, 8, 12) + "-"@;
    let c = b + hex_run(bits, 12, 16) + "-"@;
    let d = c + hex_run(bits, 16, 20) + "-"@;
    assert(a.len() == 9 && b.len() == 14 && c.len() == 19 && d.len() == 24);
    let s = d + hex_run(bits, 20, 32);
    assert(s == hyphenated(bits));
    if k < 9 {
        assert(s[k] == a[k]);
    } else if k < 14 {
        assert(s[k] == b[k]);
    } else if k < 19 {
        assert(s[k] == c[k]);
    } else if k < 24 {
        assert(s[k] == d[k]);
    }
}

/// The digits read so far are the bits above those still to be read.
proof fn lemma_uuid_read(bits: u128, n: int)
    requires
        0 <= n <= 36,
    ensures
        hex_number(hyphenated(bits), n) == bits as int / pow(16, (32 - digits_before(n)) as nat),
    decreases n,
{
    if n == 0 {
        lemma_full_range();
        assert(bits as int / pow(16, 32) == 0) by {
            lemma_basic_div(bits as int, pow(16, 32));
        }
    } else {
        lemma_uuid_read(bits, n - 1);
        lemma_uuid_places(bits, n - 1);
        let read = digits_before(n - 1);
        if n - 1 == 8 || n - 1 == 13 || n - 1 == 18 || n - 1 == 23 {
            assert(digits_before(n) == read);
        } else {
            assert(digits_before(n) == read + 1);
            let low = pow(16, (31 - read) as nat);
            lemma_pow_positive(16, (31 - read) as nat);
            lemma_pow_adds(16, (31 - read) as nat, 1);
            lemma_pow1(16);
            assert(pow(16, (32 - read) as nat) == low * 16);
            lemma_div_denominator(bits as int, low, 16);
            let x = bits as int / low;
            assert(x / 16 == bits as int / pow(16, (32 - read) as nat));
            assert(nibble(bits, read as nat) == x % 16);
            lemma_digit(nibble(bits, read as nat));
        }
    }
}

/// Thirty-two hexadecimal digits hold 128 bits.
proof fn lemma_full_range()
    ensures
        pow(16, 32) == 0x1_0000_0000_0000_0000_0000_0000_0000_0000int,
{
    lemma_pow1(16);
    lemma_pow_adds(16, 1, 1);
    assert(pow(16, 2) == 0x100);
    lemma_pow_adds(16, 2, 2);
    assert(pow(16, 4) == 0x1_0000);
    lemma_pow_adds(16, 4, 4);
    assert(pow(16, 8) == 0x1_0000_0000);
    lemma_pow_adds(16, 8, 8);
    assert(pow(16, 16) == 0x1_0000_0000_0000_0000);
    lemma_pow_adds(16, 16, 16);
}

/// The text of a UUID has 36 characters: hyphens at four places, lower-case
/// hexadecimal digits at all others. Read as a number it is the UUID.
pub proof fn law_uuid_texts_read_back(bits: u128, k: int)
    ensures
        hyphenated(bits).len() == 36,
        hex_number(hyphenated(bits), 36) == bits,
        0 <= k < 36 ==> {
            let c = hyphenated(bits)[k];
            if k == 8 || k == 13 || k == 18 || k == 23 {
                c == '-'
            } else {
                ('0' <= c && c <= '9') || ('a' <= c && c <= 'f')
            }
        },
{
    lemma_uuid_places(bits, 0);
    lemma_uuid_read(bits, 36);
    lemma_pow0(16);
    if 0 <= k < 36 {
        lemma_uuid_places(bits, k);
        lemma_digit(nibble(bits, digits_before(k) as nat));
    }
}

/// Two UUIDs never share a text.
pub proof fn law_uuid_texts_differ(a: u128, b: u128)
    ensures
        hyphenated(a) == hyphenated(b) <==> a == b,
{
    law_uuid_texts_read_back(a, 0);
    law_uuid_texts_read_back(b, 0);
}

/// The bits of listed UUIDs are the bits of each, in order.
pub proof fn law_bits_of_listed_uuids(ids: Seq<Uuid>, i: int)
    ensures
        uuids_bits(ids).len() == ids.len(),
        0 <= i < ids.len() ==> uuids_bits(ids)[i] == uuid_bits(ids[i]),
{
}

// ---------------------------------------------------------------------------
// The context of a user
// ---------------------------------------------------------------------------

/// The joined texts of UUIDs: each stands at its place, with commas between.
proof fn lemma_groups_places(groups: Seq<u128>, i: int)
    requires
        0 <= i < groups.len(),
    ensures
        ({
            let list = joined(hyphenated_list(groups), ","@);
            &&& list.len() == 37 * groups.len() - 1
            &&& list.subrange(37 * i, 37 * i + 36) == hyphenated(groups[i])
            &&& i > 0 ==> list[37 * i - 1] == ','
        }),
    decreases groups.len(),
{
    reveal_strlit(",");
    let all = hyphenated_list(groups);
    let list = joined(all, ","@);
    law_uuid_texts_read_back(groups.last(), 0);
    if groups.len() == 1 {
        assert(list == all[0]);
        assert(list.subrange(0, 36) =~= hyphenated(groups[0]));
    } else {
        let rest = groups.drop_last();
        assert(hyphenated_list(rest) =~= all.drop_last());
        let front = joined(hyphenated_list(rest), ","@);
        lemma_groups_places(rest, 0);
        assert(list == front + ","@ + all.last());
        if i < rest.len() {
            lemma_groups_places(rest, i);
            assert(list.subrange(37 * i, 37 * i + 36) =~= front.subrange(37 * i, 37 * i + 36));
        } else {
            assert(list.subrange(37 * i, 37 * i + 36) =~= all.last());
        }
    }
}

/// The context of a user is three statements. The second names every group, in
/// order: none for no group, the text of the group for one, and each further
/// group adds a comma and its own text.
pub proof fn law_context_names_every_group(user: u128, groups: Seq<u128>, next: u128)
    ensures
        rls_trio(user, groups).len() == 3,
        rls_trio(user, groups)[0] == "SET LOCAL app.current_user_id = '"@ + hyphenated(user) + seq![
            '\'',
        ],
        rls_trio(user, Seq::empty())[1] == "SET LOCAL app.user_groups = ''"@,
        rls_trio(user, seq![next])[1] == "SET LOCAL app.user_groups = '"@ + hyphenated(next) + seq![
            '\'',
        ],
        groups.len() > 0 ==> rls_trio(user, groups.push(next))[1] == rls_trio(
            user,
            groups,
        )[1].drop_last() + seq![','] + hyphenated(next) + seq!['\''],
        rls_trio(user, groups)[2] == "SET LOCAL app.access_mode = 'full'"@,
{
    reveal_strlit("'");
    reveal_strlit(",");
    reveal_strlit("SET LOCAL app.user_groups = '");
    reveal_strlit("SET LOCAL app.user_groups = ''");
    assert("'"@ =~= seq!['\'']);
    assert(","@ =~= seq![',']);
    assert(hyphenated_list(Seq::empty()) =~= Seq::empty());
    assert(rls_trio(user, Seq::empty())[1] =~= "SET LOCAL app.user_groups = ''"@);
    assert(hyphenated_list(seq![next]) =~= seq![hyphenated(next)]);
    if groups.len() > 0 {
        let more = hyphenated_list(groups.push(next));
        assert(more.drop_last() =~= hyphenated_list(groups));
        assert(more.last() == hyphenated(next));
        assert(rls_trio(user, groups.push(next))[1] =~= rls_trio(user, groups)[1].drop_last()
            + seq![','] + hyphenated(next) + seq!['\'']);
    }
}

/// Each group stands whole in the second statement, the `i`-th from the
/// 37 `i`-th character of the value on, and the statement holds nothing more.
pub proof fn law_groups_stand_in_order(user: u128, groups: Seq<u128>, i: int)
    requires
        0 <= i < groups.len(),
    ensures
        rls_trio(user, groups)[1].len() == 29 + 37 * groups.len(),
        rls_trio(user, groups)[1].subrange(0, 29) == "SET LOCAL app.user_groups = '"@,
        rls_trio(user, groups)[1].subrange(29 + 37 * i, 29 + 37 * i + 36) == hyphenated(groups[i]),
        rls_trio(user, groups)[1][29 + 37 * i + 36] == if i == groups.len() - 1 {
            '\''
        } else {
            ','
        },
{
    reveal_strlit("'");
    reveal_strlit("SET LOCAL app.user_groups = '");
    lemma_groups_places(groups, i);
    let list = joined(hyphenated_list(groups), ","@);
    let statement = rls_trio(user, groups)[1];
    assert(statement == "SET LOCAL app.user_groups = '"@ + list + "'"@);
    assert(statement.subrange(0, 29) =~= "SET LOCAL app.user_groups = '"@);
    assert(statement.subrange(29 + 37 * i, 29 + 37 * i + 36) =~= list.subrange(
        37 * i,
        37 * i + 36,
    ));
    if i < groups.len() - 1 {
        lemma_groups_places(groups, i + 1);
        assert(statement[29 + 37 * i + 36] == list[37 * (i + 1) - 1]);
    }
}

// ---------------------------------------------------------------------------
// The battery
// ---------------------------------------------------------------------------

/// One if it holds.
pub open spec fn one_if(b: bool) -> int {
    if b {
        1
    } else {
        0
    }
}

/// What stands at each place of a battery, and that nothing else does.
pub proof fn law_battery_places(
    role: RoleModel,
    groups: Seq<u128>,
    timeout_ms: u64,
    options: OptionsModel,
)
    ensures
        ({
            let battery = setup_statements(role, groups, timeout_ms, options);
            let limit = 5 + one_if(options.disable_parallelism) + one_if(options.disable_jit);
            &&& battery.len() == limit + 1 + 3 * one_if(role.user is Some) + one_if(
                options.read_only,
            )
            &&& battery[0] == "SET LOCAL ROLE "@ + role.name
            &&& battery[1] == "SET LOCAL search_path = "@ + joined(options.search_path, seq![
                ',',
                ' ',
            ])
            &&& battery[2] == "SET LOCAL statement_timeout = '"@ + decimal(timeout_ms as nat)
                + "ms'"@
            &&& battery[3] == "SET LOCAL lock_timeout = '"@ + decimal(
                options.lock_timeout_ms as nat,
            ) + "ms'"@
            &&& battery[4] == "SET LOCAL work_mem = '"@ + decimal(options.work_mem_mb as nat)
                + "MB'"@
            &&& options.disable_parallelism ==> battery[5]
                == "SET LOCAL max_parallel_workers_per_gather = 0"@
            &&& options.disable_jit ==> battery[limit - 1] == "SET LOCAL jit = 'off'"@
            &&& battery[limit] == "SET LOCAL temp_file_limit = '"@ + decimal(
                options.temp_file_limit_mb as nat,
            ) + "MB'"@
            &&& role.user matches Some(user) ==> battery.subrange(limit + 1, limit + 4) == rls_trio(
                user,
                groups,
            )
            &&& options.read_only ==> battery[battery.len() - 1]
                == "SET LOCAL transaction_read_only = on"@
        }),
{
    reveal_strlit(", ");
    assert(", "@ =~= seq![',', ' ']);
    let battery = setup_statements(role, groups, timeout_ms, options);
    let limit = 5 + one_if(options.disable_parallelism) + one_if(options.disable_jit);
    if let Some(user) = role.user {
        assert(battery.subrange(limit + 1, limit + 4) =~= rls_trio(user, groups));
    }
}

/// In the battery of a user each group is named, in order, in the statement
/// that sets `app.user_groups`, which is the second after the file limit.
pub proof fn law_battery_names_every_group(
    role: RoleModel,
    groups: Seq<u128>,
    timeout_ms: u64,
    options: OptionsModel,
    i: int,
)
    requires
        role.user is Some,
        0 <= i < groups.len(),
    ensures
        ({
            let battery = setup_statements(role, groups, timeout_ms, options);
            let at = 7 + one_if(options.disable_parallelism) + one_if(options.disable_jit);
            &&& battery[at - 1] == "SET LOCAL app.current_user_id = '"@ + hyphenated(role.user->0)
                + "'"@
            &&& battery[at].len() == 29 + 37 * groups.len()
            &&& battery[at].subrange(0, 29) == "SET LOCAL app.user_groups = '"@
            &&& battery[at].subrange(29 + 37 * i, 65 + 37 * i) == hyphenated(groups[i])
            &&& battery[at][65 + 37 * i] == if i == groups.len() - 1 {
                '\''
            } else {
                ','
            }
            &&& battery[at + 1] == "SET LOCAL app.access_mode = 'full'"@
        }),
{
    law_battery_places(role, groups, timeout_ms, options);
    law_groups_stand_in_order(role.user->0, groups, i);
    let battery = setup_statements(role, groups, timeout_ms, options);
    let at = 7 + one_if(options.disable_parallelism) + one_if(options.disable_jit);
    let trio = battery.subrange(at - 1, at + 2);
    assert(trio == rls_trio(role.user->0, groups));
    assert(battery[at - 1] == trio[0]);
    assert(battery[at] == trio[1]);
    assert(battery[at + 1] == trio[2]);
}

/// A plain identifier is made of the 26 letters in either case, the ten digits
/// and the underscore, has at least one character, and does not begin with a
/// digit.
pub proof fn law_plain_identifiers(s: Seq<char>, c: char)
    ensures
        plain_identifier(s) <==> s.len() > 0 && !(48 <= s[0] as int <= 57) && forall|i: int|
            0 <= i < s.len() ==> {
                let code = #[trigger] s[i] as int;
                48 <= code <= 57 || 65 <= code <= 90 || code == 95 || 97 <= code <= 122
            },
        starts_identifier(c) <==> 65 <= c as int <= 90 || c as int == 95 || 97 <= c as int <= 122,
        continues_identifier(c) <==> starts_identifier(c) || 48 <= c as int <= 57,
{
    if plain_identifier(s) {
        assert forall|i: int| 0 <= i < s.len() implies {
            let code = #[trigger] s[i] as int;
            48 <= code <= 57 || 65 <= code <= 90 || code == 95 || 97 <= code <= 122
        } by {
            assert(continues_identifier(s[i]));
        }
    }
    if s.len() > 0 && !(48 <= s[0] as int <= 57) && forall|i: int|
        0 <= i < s.len() ==> {
            let code = #[trigger] s[i] as int;
            48 <= code <= 57 || 65 <= code <= 90 || code == 95 || 97 <= code <= 122
        } {
        assert forall|i: int| 0 <= i < s.len() implies continues_identifier(#[trigger] s[i]) by {}
        assert(65 <= s[0] as int <= 90 || s[0] as int == 95 || 97 <= s[0] as int <= 122);
    }
}

/// The first schema that is no plain identifier is the one that is named.
proof fn lemma_first_bad_schema(schemas: Seq<Seq<char>>, i: int)
    requires
        0 <= i < schemas.len(),
        !plain_identifier(schemas[i]),
        forall|j: int| 0 <= j < i ==> plain_identifier(#[trigger] schemas[j]),
    ensures
        search_path_refusal(schemas) == Some(
            "search_path schema `"@ + schemas[i] + "` is not a plain SQL identifier."@,
        ),
    decreases schemas.len(),
{
    if i > 0 {
        let rest = schemas.skip(1);
        assert(plain_identifier(schemas[0]));
        assert forall|j: int| 0 <= j < i - 1 implies plain_identifier(#[trigger] rest[j]) by {
            assert(rest[j] == schemas[j + 1]);
        }
        lemma_first_bad_schema(rest, i - 1);
    }
}

/// A battery is refused with the name of the role, or with that of the first
/// schema that is no plain identifier, whole.
pub proof fn law_battery_refusals_name_the_cause(role: RoleModel, options: OptionsModel, i: int)
    ensures
        !plain_identifier(role.name) ==> setup_refusal(role, options) == Some(
            "Role name `"@ + role.name + "` is not a plain SQL identifier."@,
        ),
        plain_identifier(role.name) && 0 <= i < options.search_path.len() && !plain_identifier(
            options.search_path[i],
        ) && (forall|j: int|
            0 <= j < i ==> plain_identifier(#[trigger] options.search_path[j])) ==> setup_refusal(
            role,
            options,
        ) == Some(
            "search_path schema `"@ + options.search_path[i]
                + "` is not a plain SQL identifier."@,
        ),
        plain_identifier(role.name) && (forall|j: int|
            0 <= j < options.search_path.len() ==> plain_identifier(
                #[trigger] options.search_path[j],
            )) ==> setup_refusal(role, options) is None,
{
    if plain_identifier(role.name) && 0 <= i < options.search_path.len() && !plain_identifier(
        options.search_path[i],
    ) && (forall|j: int| 0 <= j < i ==> plain_identifier(#[trigger] options.search_path[j])) {
        lemma_first_bad_schema(options.search_path, i);
    }
    law_battery_is_refused_exactly(role, options);
}

/// A role and options say what they hold.
pub proof fn law_session_views(name: String, id: Uuid, options: SessionOptions)
    ensures
        (SessionRole::Anonymous { role_name: name })@.name == name@,
        (SessionRole::Anonymous { role_name: name })@.user is None,
        (SessionRole::User { role_name: name, user_id: id })@.name == name@,
        (SessionRole::User { role_name: name, user_id: id })@.user == Some(uuid_bits(id)),
        options@.search_path.len() == options.search_path@.len(),
        forall|i: int|
            0 <= i < options.search_path@.len() ==> #[trigger] options@.search_path[i]
                == options.search_path@[i]@,
        options@.lock_timeout_ms == options.lock_timeout_ms,
        options@.work_mem_mb == options.work_mem_mb,
        options@.temp_file_limit_mb == options.temp_file_limit_mb,
        options@.disable_parallelism == options.disable_parallelism,
        options@.disable_jit == options.disable_jit,
        options@.read_only == options.read_only,
{
}

/// The values that hold when nothing else is asked for.
pub proof fn law_session_defaults()
    ensures
        default_options().search_path.len() == 2,
        default_options().search_path[0] == "pg_catalog"@,
        default_options().search_path[1] == "public"@,
        default_options().lock_timeout_ms == 5000,
        default_options().work_mem_mb == 16,
        default_options().temp_file_limit_mb == 256,
        default_options().disable_parallelism,
        default_options().disable_jit,
        default_options().read_only,
        DEFAULT_QUERY_TIMEOUT_SECS == 60,
        MIN_QUERY_TIMEOUT_SECS == 20,
        MAX_PUBLIC_STATEMENT_TIMEOUT_MS == 15_000,
        MAX_QUERY_ROWS == 10_000,
        MAX_RESPONSE_BYTES == 52_428_800,
        MAX_RESPONSE_CELL_BYTES == 1_048_576,
{
}

// ---------------------------------------------------------------------------
// Timeouts
// ---------------------------------------------------------------------------

/// A user is granted what is asked for, anyone else at most fifteen seconds,
/// and nobody less than a millisecond.
pub proof fn law_granted_timeouts(requested: u64)
    ensures
        requested == 0 ==> granted_timeout_ms(true, requested) == 1,
        requested > 0 ==> granted_timeout_ms(true, requested) == requested,
        requested == 0 ==> granted_timeout_ms(false, requested) == 1,
        0 < requested <= 15_000 ==> granted_timeout_ms(false, requested) == requested,
        requested > 15_000 ==> granted_timeout_ms(false, requested) == 15_000,
{
}

/// A duration falls in the bucket whose number is how many of the bounds it
/// has reached.
pub proof fn law_buckets(d: u64)
    ensures
        bucket_of(d) == one_if(d >= 100) + one_if(d >= 500) + one_if(d >= 1_000) + one_if(
            d >= 5_000,
        ) + one_if(d >= 10_000) + one_if(d >= 30_000) + one_if(d >= 60_000),
        forall|i: int| 0 <= i < 7 ==> (bucket_of(d) <= i <==> d < #[trigger] BUCKET_BOUNDS@[i]),
{
    assert(BUCKET_BOUNDS@[0] == 100);
    assert(BUCKET_BOUNDS@[1] == 500);
    assert(BUCKET_BOUNDS@[2] == 1_000);
    assert(BUCKET_BOUNDS@[3] == 5_000);
    assert(BUCKET_BOUNDS@[4] == 10_000);
    assert(BUCKET_BOUNDS@[5] == 30_000);
    assert(BUCKET_BOUNDS@[6] == 60_000);
    assert forall|i: int| 0 <= i < 7 implies (bucket_of(d) <= i <==> d
        < #[trigger] BUCKET_BOUNDS@[i]) by {
        assert(i == 0 || i == 1 || i == 2 || i == 3 || i == 4 || i == 5 || i == 6);
    }
}

/// A new histogram is empty; a recording adds one to the total and one to one
/// bucket; counters start over at the end of their range.
pub proof fn law_recording(h: LatencyModel, d: u64, b: int)
    requires
        h.buckets.len() == 8,
        0 <= b < 8,
    ensures
        LatencyModel::empty().buckets.len() == 8,
        LatencyModel::empty().buckets[b] == 0,
        LatencyModel::empty().total == 0,
        h.recorded(d).buckets.len() == 8,
        h.total < u64::MAX ==> h.recorded(d).total == h.total + 1,
        h.total == u64::MAX ==> h.recorded(d).total == 0,
        b == bucket_of(d) && h.buckets[b] < u64::MAX ==> h.recorded(d).buckets[b] == h.buckets[b]
            + 1,
        b == bucket_of(d) && h.buckets[b] == u64::MAX ==> h.recorded(d).buckets[b] == 0,
        b != bucket_of(d) ==> h.recorded(d).buckets[b] == h.buckets[b],
        h.total < u64::MAX ==> counted(h.total) == h.total + 1,
        h.total == u64::MAX ==> counted(h.total) == 0,
{
}

/// A sum grows by each counter that is added to the list.
pub proof fn law_sums(counters: Seq<u64>, next: u64)
    ensures
        counter_sum(Seq::empty()) == 0,
        counter_sum(counters.push(next)) == counter_sum(counters) + next,
{
    assert(counters.push(next).drop_last() =~= counters);
}

/// The rank is the least number that is 95 percent of the total or more.
pub proof fn law_rank(total: u64, rank: nat)
    ensures
        100 * rank >= 95 * total <==> rank >= p95_rank(total),
{
}

/// The bucket of the 95th percentile is the last, or the first up to which 95
/// percent of the total falls.
pub proof fn law_percentile(h: LatencyModel)
    requires
        h.buckets.len() == 8,
    ensures
        0 <= h.p95() <= 7,
        forall|c: int|
            0 <= c < h.p95() ==> 20 * counter_sum(#[trigger] h.buckets.take(c + 1)) < 19 * h.total,
        h.p95() < 7 ==> 20 * counter_sum(h.buckets.take(h.p95() + 1)) >= 19 * h.total,
{
    lemma_percentile_from(h, 0);
}

/// From the `b`-th bucket on.
proof fn lemma_percentile_from(h: LatencyModel, b: int)
    requires
        h.buckets.len() == 8,
        0 <= b <= 7,
    ensures
        b <= h.p95_from(b) <= 7,
        forall|c: int|
            b <= c < h.p95_from(b) ==> 20 * counter_sum(#[trigger] h.buckets.take(c + 1)) < 19
                * h.total,
        h.p95_from(b) < 7 ==> 20 * counter_sum(h.buckets.take(h.p95_from(b) + 1)) >= 19 * h.total,
    decreases 7 - b,
{
    if b < 7 && !h.covers_p95(b) {
        lemma_percentile_from(h, b + 1);
        assert forall|c: int| b <= c < h.p95_from(b) implies 20 * counter_sum(
            #[trigger] h.buckets.take(c + 1),
        ) < 19 * h.total by {
            if c == b {
                assert(!h.covers_p95(c));
            }
        }
    }
}

/// The timeout for each bucket of the 95th percentile.
pub proof fn law_timeout_for_percentile(h: LatencyModel)
    requires
        h.buckets.len() == 8,
    ensures
        h.total < 10 ==> h.timeout_secs() == 60,
        h.total >= 10 && h.p95() < 3 ==> h.timeout_secs() == 60,
        h.total >= 10 && h.p95() == 3 ==> h.timeout_secs() == 50,
        h.total >= 10 && h.p95() == 4 ==> h.timeout_secs() == 40,
        h.total >= 10 && h.p95() == 5 ==> h.timeout_secs() == 30,
        h.total >= 10 && h.p95() > 5 ==> h.timeout_secs() == 20,
{
}

/// How many of the durations are below a bound.
pub open spec fn quicker_than(durations: Seq<u64>, bound: u64) -> nat
    decreases durations.len(),
{
    if durations.len() == 0 {
        0
    } else {
        quicker_than(durations.drop_last(), bound) + if durations.last() < bound {
            1nat
        } else {
            0nat
        }
    }
}

/// Falling in a bucket or before it is being below its bound.
proof fn lemma_quicker(durations: Seq<u64>, k: int, bound: u64)
    requires
        (k == 2 && bound == 1_000) || (k == 3 && bound == 5_000) || (k == 4 && bound == 10_000) || (
        k == 5 && bound == 30_000),
    ensures
        count_up_to(durations, k) == quicker_than(durations, bound),
    decreases durations.len(),
{
    if durations.len() > 0 {
        lemma_quicker(durations.drop_last(), k, bound);
    }
}

/// The buckets up to a later one hold at least as much.
proof fn lemma_sum_grows(h: LatencyModel, a: int, b: int)
    requires
        0 <= a <= b <= 8,
        h.buckets.len() == 8,
    ensures
        counter_sum(h.buckets.take(a)) <= counter_sum(h.buckets.take(b)),
    decreases b - a,
{
    if a < b {
        lemma_sum_grows(h, a, b - 1);
        assert(h.buckets.take(b).drop_last() =~= h.buckets.take(b - 1));
    }
}

/// The 95th percentile lies within the buckets up to the `k`-th exactly if 95
/// percent of the total falls there.
proof fn lemma_percentile_within(h: LatencyModel, k: int)
    requires
        h.buckets.len() == 8,
        0 <= k < 7,
    ensures
        h.p95() <= k <==> 20 * counter_sum(h.buckets.take(k + 1)) >= 19 * h.total,
{
    law_percentile(h);
    if h.p95() <= k {
        lemma_sum_grows(h, h.p95() + 1, k + 1);
    } else {
        assert(20 * counter_sum(h.buckets.take(k + 1)) < 19 * h.total);
    }
}

/// Recordings follow one another, and the timeout depends on how many of the
/// durations are below four bounds: as soon as 95 percent of ten or more are
/// below one second it is a minute, and it shortens as they take longer.
pub proof fn law_timeout_of_durations(durations: Seq<u64>, next: u64)
    requires
        durations.len() <= u64::MAX,
    ensures
        LatencyModel::recorded_all(Seq::empty()) == LatencyModel::empty(),
        LatencyModel::recorded_all(durations.push(next)) == LatencyModel::recorded_all(
            durations,
        ).recorded(next),
        LatencyModel::recorded_all(durations).timeout_secs() == {
            if durations.len() < 10 {
                60u64
            } else if 100 * quicker_than(durations, 1_000) >= 95 * durations.len() {
                60u64
            } else if 100 * quicker_than(durations, 5_000) >= 95 * durations.len() {
                50u64
            } else if 100 * quicker_than(durations, 10_000) >= 95 * durations.len() {
                40u64
            } else if 100 * quicker_than(durations, 30_000) >= 95 * durations.len() {
                30u64
            } else {
                20u64
            }
        },
{
    assert(durations.push(next).drop_last() =~= durations);
    let h = LatencyModel::recorded_all(durations);
    law_histogram_counts_durations(durations, 2);
    law_histogram_counts_durations(durations, 3);
    law_histogram_counts_durations(durations, 4);
    law_histogram_counts_durations(durations, 5);
    lemma_quicker(durations, 2, 1_000);
    lemma_quicker(durations, 3, 5_000);
    lemma_quicker(durations, 4, 10_000);
    lemma_quicker(durations, 5, 30_000);
    lemma_percentile_within(h, 2);
    lemma_percentile_within(h, 3);
    lemma_percentile_within(h, 4);
    lemma_percentile_within(h, 5);
    law_percentile(h);
    law_timeout_for_percentile(h);
}

} // verus!
