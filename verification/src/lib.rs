//! Bridge between a version-control tool's "what changed since last time"
//! hook contract and a long-running file-watching service.
//!
//! The crate holds the query-translation and fallback state machine: building
//! the query for each hook-protocol version, classifying the service's reply,
//! recovering when the root is not yet watched, and rendering the final
//! NUL-delimited answer. Talking to the service itself (a separate process,
//! reached over a local channel) is left to the caller, who feeds the replies
//! back in as plain values.

use vstd::prelude::*;

pub mod classify;
pub mod errors;
pub mod output;
pub mod token;

verus! {

/// The wire-contract version between the version-control tool and this
/// bridge. V1 tokens are nanosecond timestamps; V2 tokens are opaque clock
/// strings with a graceful fallback to the V1 interpretation.
#[derive(Clone, Copy, PartialEq, Eq, Structural, Debug)]
pub enum HookVersion {
    V1,
    V2,
}

pub open spec fn spec_parse_version(s: Seq<char>) -> Option<HookVersion> {
    if s == seq!['1'] {
        Some(HookVersion::V1)
    } else if s == seq!['2'] {
        Some(HookVersion::V2)
    } else {
        None
    }
}

/// Recognizes the two supported hook-protocol versions, spelled `1` and `2`;
/// any other argument is unsupported.
pub fn parse_version(raw: &str) -> (r: Option<HookVersion>)
    ensures
        r == spec_parse_version(raw@),
{
    let len = raw.unicode_len();
    if len != 1 {
        proof {
            assert(raw@ != seq!['1']);
            assert(raw@ != seq!['2']);
        }
        return None;
    }
    let c = raw.get_char(0);
    if c == '1' {
        proof {
            assert(raw@ =~= seq!['1']);
        }
        Some(HookVersion::V1)
    } else if c == '2' {
        proof {
            assert(raw@ =~= seq!['2']);
        }
        Some(HookVersion::V2)
    } else {
        proof {
            assert(raw@ != seq!['1']);
            assert(raw@ != seq!['2']);
        }
        None
    }
}

} // verus!
