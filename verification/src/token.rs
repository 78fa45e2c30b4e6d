//! Token Translator: turns a raw since-token plus a hook-protocol version
//! into the since-criterion and exclusion expression of the query sent to
//! the file-watching service.

use vstd::prelude::*;

use crate::HookVersion;
use crate::errors::BridgeError;

verus! {

/// Nanoseconds per second; V1 tokens arrive as nanoseconds while the
/// service's "since" generator works in whole seconds.
pub const NANOS_PER_SECOND: u64 = 1_000_000_000;

/// The character that opens every opaque clock string of the service; a V2
/// token beginning with it is passed through verbatim.
pub const OPAQUE_CLOCK_SENTINEL: char = 'c';

/// A since token as understood by this bridge: either legacy nanoseconds
/// since the epoch, or an opaque clock string owned by the service.
#[derive(Debug, PartialEq, Eq)]
pub enum SinceToken {
    Timestamp { nanoseconds: u64 },
    OpaqueClock { clock: String },
}

/// The since-criterion actually placed in a query: whole seconds, or the
/// opaque clock string unchanged.
#[derive(Debug, PartialEq, Eq)]
pub enum SinceCriterion {
    Seconds { seconds: u64 },
    Clock { clock: String },
}

/// The exclusion predicate of a query; one shape per hook version.
#[derive(Debug, PartialEq, Eq)]
pub enum QueryExpression {
    /// V1: exclude paths both created after the given time and no longer
    /// existing (transient creations).
    ExcludeTransient { created_after_seconds: u64 },
    /// V2: exclude everything under the version-control metadata directory.
    ExcludeMetaDir,
}

/// Everything the caller needs to issue one query to the service.
#[derive(Debug, PartialEq, Eq)]
pub struct QueryPlan {
    pub since: SinceCriterion,
    pub expression: QueryExpression,
}

pub open spec fn is_dec_digit(c: char) -> bool {
    '0' <= c && c <= '9'
}

pub open spec fn all_dec_digits(s: Seq<char>) -> bool {
    forall|i: int| 0 <= i < s.len() ==> is_dec_digit(#[trigger] s[i])
}

/// The value of a decimal digit string, most significant digit first.
pub open spec fn dec_value(s: Seq<char>) -> int
    decreases s.len(),
{
    if s.len() == 0 {
        0
    } else {
        dec_value(s.drop_last()) * 10 + (s.last() as int - '0' as int)
    }
}

/// A raw token parses as nanoseconds exactly when it is a nonempty, all-digit
/// string whose value fits in a `u64`.
pub open spec fn is_valid_nanos_token(s: Seq<char>) -> bool {
    s.len() > 0 && all_dec_digits(s) && dec_value(s) <= u64::MAX
}

proof fn lemma_dec_value_nonneg(s: Seq<char>)
    requires
        all_dec_digits(s),
    ensures
        dec_value(s) >= 0,
    decreases s.len(),
{
    if s.len() > 0 {
        assert(all_dec_digits(s.drop_last()));
        lemma_dec_value_nonneg(s.drop_last());
    }
}

/// The value of a digit string only grows as digits are appended.
proof fn lemma_dec_value_prefix_le(s: Seq<char>, i: int)
    requires
        all_dec_digits(s),
        0 <= i <= s.len(),
    ensures
        dec_value(s.subrange(0, i)) <= dec_value(s),
    decreases s.len() - i,
{
    if i == s.len() {
        assert(s.subrange(0, i) =~= s);
    } else {
        let longer = s.subrange(0, i + 1);
        assert(longer.drop_last() =~= s.subrange(0, i));
        assert(all_dec_digits(s.subrange(0, i)));
        lemma_dec_value_nonneg(s.subrange(0, i));
        assert(dec_value(s.subrange(0, i)) <= dec_value(longer));
        lemma_dec_value_prefix_le(s, i + 1);
    }
}

/// Parses a raw token as unsigned nanoseconds since the epoch: `Some`
/// exactly when the token is a nonempty digit string whose value fits.
pub fn parse_nanos(raw: &str) -> (r: Option<u64>)
    ensures
        r is Some <==> is_valid_nanos_token(raw@),
        r matches Some(n) ==> n == dec_value(raw@),
{
    let len = raw.unicode_len();
    if len == 0 {
        return None;
    }
    let mut acc: u64 = 0;
    let mut i: usize = 0;
    while i < len
        invariant
            0 < len == raw@.len(),
            0 <= i <= len,
            all_dec_digits(raw@.subrange(0, i as int)),
            acc == dec_value(raw@.subrange(0, i as int)),
        decreases len - i,
    {
        let c = raw.get_char(i);
        let code = c as u32;
        if code < 48 || code > 57 {
            assert(!is_dec_digit(raw@[i as int]));
            return None;
        }
        let digit: u64 = (code - 48) as u64;
        proof {
            let next = raw@.subrange(0, i as int + 1);
            assert(next.drop_last() =~= raw@.subrange(0, i as int));
            assert(dec_value(next) == acc * 10 + digit);
        }
        if acc > (u64::MAX - digit) / 10 {
            proof {
                assert(acc * 10 + digit > u64::MAX) by (nonlinear_arith)
                    requires
                        acc > (u64::MAX - digit) / 10,
                        digit <= 9,
                ;
                assert(all_dec_digits(raw@.subrange(0, i as int + 1)));
                if all_dec_digits(raw@) {
                    lemma_dec_value_prefix_le(raw@, i as int + 1);
                    assert(dec_value(raw@) > u64::MAX);
                }
                assert(!is_valid_nanos_token(raw@));
            }
            return None;
        }
        proof {
            assert(acc * 10 + digit <= u64::MAX) by (nonlinear_arith)
                requires
                    acc <= (u64::MAX - digit) / 10,
                    digit <= 9,
            ;
        }
        acc = acc * 10 + digit;
        i = i + 1;
    }
    proof {
        assert(raw@.subrange(0, len as int) =~= raw@);
    }
    Some(acc)
}

/// Translates a V1 token: unsigned nanoseconds since the epoch, rejected as
/// `InvalidArgument` when unparseable.
pub fn translate_v1(raw: &str) -> (r: Result<SinceToken, BridgeError>)
    ensures
        r is Ok <==> is_valid_nanos_token(raw@),
        r matches Ok(t) ==> (t matches SinceToken::Timestamp { nanoseconds }
            && nanoseconds == dec_value(raw@)),
        r matches Err(e) ==> e is InvalidArgument,
{
    match parse_nanos(raw) {
        Some(nanoseconds) => Ok(SinceToken::Timestamp { nanoseconds }),
        None => Err(BridgeError::InvalidArgument),
    }
}

/// Whether a raw V2 token is recognizably an opaque clock string.
pub open spec fn is_opaque_clock_token(s: Seq<char>) -> bool {
    s.len() > 0 && s[0] == OPAQUE_CLOCK_SENTINEL
}

/// Translates a V2 token: an opaque clock string passes through verbatim;
/// anything else is reinterpreted as legacy V1 nanoseconds, with an
/// unparseable token degrading to the beginning of time rather than failing.
pub fn translate_v2(raw: &str) -> (t: SinceToken)
    ensures
        is_opaque_clock_token(raw@) ==> (t matches SinceToken::OpaqueClock { clock }
            && clock@ == raw@),
        !is_opaque_clock_token(raw@) && is_valid_nanos_token(raw@) ==> (t
            matches SinceToken::Timestamp { nanoseconds } && nanoseconds == dec_value(raw@)),
        !is_opaque_clock_token(raw@) && !is_valid_nanos_token(raw@) ==> (t
            matches SinceToken::Timestamp { nanoseconds } && nanoseconds == 0),
{
    let len = raw.unicode_len();
    if len > 0 && raw.get_char(0) == OPAQUE_CLOCK_SENTINEL {
        SinceToken::OpaqueClock { clock: raw.to_owned() }
    } else {
        match parse_nanos(raw) {
            Some(nanoseconds) => SinceToken::Timestamp { nanoseconds },
            None => SinceToken::Timestamp { nanoseconds: 0 },
        }
    }
}

impl SinceToken {
    /// The criterion this token contributes to a query: nanoseconds become
    /// whole seconds by truncating division; a clock string is unchanged.
    pub fn into_criterion(self) -> (c: SinceCriterion)
        ensures
            self matches SinceToken::Timestamp { nanoseconds } ==> (c
                matches SinceCriterion::Seconds { seconds } && seconds == nanoseconds as int
                / NANOS_PER_SECOND as int),
            self matches SinceToken::OpaqueClock { clock } ==> (c
                matches SinceCriterion::Clock { clock: k } && k == clock),
    {
        match self {
            SinceToken::Timestamp { nanoseconds } => SinceCriterion::Seconds {
                seconds: nanoseconds / NANOS_PER_SECOND,
            },
            SinceToken::OpaqueClock { clock } => SinceCriterion::Clock { clock },
        }
    }
}

/// The whole-seconds value a valid V1 nanosecond token stands for.
pub open spec fn spec_since_seconds(s: Seq<char>) -> int {
    dec_value(s) / NANOS_PER_SECOND as int
}

/// Builds the one query this invocation will send, from the hook version and
/// the raw since-token. V1 rejects an unparseable token; V2 degrades to a
/// full query instead.
pub fn build_query(version: HookVersion, raw: &str) -> (r: Result<QueryPlan, BridgeError>)
    ensures
        version is V1 ==> (r is Ok <==> is_valid_nanos_token(raw@)),
        version is V1 && is_valid_nanos_token(raw@) ==> ({
            &&& r matches Ok(plan)
            &&& plan.since matches SinceCriterion::Seconds { seconds }
            &&& seconds == spec_since_seconds(raw@)
            &&& plan.expression matches QueryExpression::ExcludeTransient { created_after_seconds }
            &&& created_after_seconds == spec_since_seconds(raw@)
        }),
        version is V1 && !is_valid_nanos_token(raw@) ==> (r matches Err(e)
            && e is InvalidArgument),
        version is V2 ==> r is Ok,
        version is V2 ==> (r matches Ok(plan) && plan.expression is ExcludeMetaDir),
        version is V2 && is_opaque_clock_token(raw@) ==> (r matches Ok(plan)
            && plan.since matches SinceCriterion::Clock { clock } && clock@ == raw@),
        version is V2 && !is_opaque_clock_token(raw@) && is_valid_nanos_token(raw@) ==> (r
            matches Ok(plan) && plan.since matches SinceCriterion::Seconds { seconds }
            && seconds == spec_since_seconds(raw@)),
        version is V2 && !is_opaque_clock_token(raw@) && !is_valid_nanos_token(raw@) ==> (r
            matches Ok(plan) && plan.since matches SinceCriterion::Seconds { seconds }
            && seconds == 0),
{
    match version {
        HookVersion::V1 => {
            let token = translate_v1(raw)?;
            let since = token.into_criterion();
            let seconds = match &since {
                SinceCriterion::Seconds { seconds } => *seconds,
                SinceCriterion::Clock { .. } => 0,
            };
            Ok(QueryPlan {
                since,
                expression: QueryExpression::ExcludeTransient { created_after_seconds: seconds },
            })
        },
        HookVersion::V2 => {
            let token = translate_v2(raw);
            let since = token.into_criterion();
            Ok(QueryPlan { since, expression: QueryExpression::ExcludeMetaDir })
        },
    }
}

} // verus!
