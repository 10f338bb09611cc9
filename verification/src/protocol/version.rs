//! The MCP protocol versions the proxy speaks, and their wire names.
use vstd::prelude::*;
use crate::protocol::error::ProtocolError;
use crate::text::str_eq;

verus! {

/// An MCP protocol version.
#[derive(Debug, Clone, Copy, PartialEq, Eq, Hash, Structural)]
pub enum ProtocolVersion {
    /// MCP Protocol version 2024-11-05 (initial stable release)
    V20241105,
    /// MCP Protocol version 2025-03-26 (adds completions, audio)
    V20250326,
    /// MCP Protocol version 2025-06-18 (adds structured output, titles)
    V20250618,
}

/// The wire name of a version.
pub open spec fn version_str(v: ProtocolVersion) -> Seq<char> {
    match v {
        ProtocolVersion::V20241105 => "2024-11-05"@,
        ProtocolVersion::V20250326 => "2025-03-26"@,
        ProtocolVersion::V20250618 => "2025-06-18"@,
    }
}

/// The version whose wire name is `s`, if any.
pub open spec fn parse_version(s: Seq<char>) -> Option<ProtocolVersion> {
    if s == "2024-11-05"@ {
        Some(ProtocolVersion::V20241105)
    } else if s == "2025-03-26"@ {
        Some(ProtocolVersion::V20250326)
    } else if s == "2025-06-18"@ {
        Some(ProtocolVersion::V20250618)
    } else {
        None
    }
}

/// The wire names of all supported versions, oldest first.
pub open spec fn supported_version_strs() -> Seq<Seq<char>> {
    seq!["2024-11-05"@, "2025-03-26"@, "2025-06-18"@]
}

/// The three wire names are pairwise distinct.
pub proof fn lemma_version_strs_distinct()
    ensures
        "2024-11-05"@ != "2025-03-26"@,
        "2024-11-05"@ != "2025-06-18"@,
        "2025-03-26"@ != "2025-06-18"@,
{
    reveal_strlit("2024-11-05");
    reveal_strlit("2025-03-26");
    reveal_strlit("2025-06-18");
    assert("2024-11-05"@[3] != "2025-03-26"@[3]);
    assert("2024-11-05"@[3] != "2025-06-18"@[3]);
    assert("2025-03-26"@[6] != "2025-06-18"@[6]);
}

/// Parsing the wire name of a version gives that version back, and distinct
/// versions have distinct wire names.
pub proof fn lemma_version_round_trip(v: ProtocolVersion, w: ProtocolVersion)
    ensures
        parse_version(version_str(v)) == Some(v),
        version_str(v) == version_str(w) ==> v == w,
{
    lemma_version_strs_distinct();
}

impl ProtocolVersion {
    /// Parses a wire name; any other string is reported as unsupported,
    /// together with the list of supported wire names.
    pub fn from_string(s: &str) -> (r: Result<Self, ProtocolError>)
        ensures
            match r {
                Ok(v) => parse_version(s@) == Some(v),
                Err(e) => parse_version(s@) is None && match e {
                    ProtocolError::UnsupportedVersion { reported_version, supported_versions } => {
                        &&& reported_version@ == s@
                        &&& supported_versions@.len() == 3
                        &&& forall|i: int|
                            0 <= i < 3 ==> #[trigger] supported_versions@[i]@
                                == supported_version_strs()[i]
                    },
                    _ => false,
                },
            },
    {
        if str_eq(s, "2024-11-05") {
            Ok(ProtocolVersion::V20241105)
        } else if str_eq(s, "2025-03-26") {
            Ok(ProtocolVersion::V20250326)
        } else if str_eq(s, "2025-06-18") {
            Ok(ProtocolVersion::V20250618)
        } else {
            let mut supported: Vec<String> = Vec::new();
            supported.push("2024-11-05".to_string());
            supported.push("2025-03-26".to_string());
            supported.push("2025-06-18".to_string());
            Err(
                ProtocolError::UnsupportedVersion {
                    reported_version: s.to_string(),
                    supported_versions: supported,
                },
            )
        }
    }

    /// The wire name of this version.
    pub fn as_str(&self) -> (r: &'static str)
        ensures
            r@ == version_str(*self),
    {
        match self {
            ProtocolVersion::V20241105 => "2024-11-05",
            ProtocolVersion::V20250326 => "2025-03-26",
            ProtocolVersion::V20250618 => "2025-06-18",
        }
    }

    /// Whether this version is deprecated (only 2024-11-05 is).
    pub fn is_deprecated(&self) -> (r: bool)
        ensures
            r == (*self == ProtocolVersion::V20241105),
    {
        match self {
            ProtocolVersion::V20241105 => true,
            _ => false,
        }
    }
}

} // verus!
