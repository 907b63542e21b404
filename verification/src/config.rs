//! Analysis configuration: the file-size threshold and the suspicious
//! pattern fragments, and their compilation into matchers for one run.

use vstd::prelude::*;

use crate::pattern::{
    build_matcher, matcher_view, spec_fragments_ok, spec_pattern_of, Matcher,
};

verus! {

/// The configuration one analysis run works under.
pub struct Config {
    pub file_size_threshold: u64,
    pub suspicious_patterns: Vec<String>,
    pub suspicious_metadata_patterns: Vec<String>,
}

/// The built-in defaults: a 10 MiB size threshold, case-insensitive
/// suspicious substrings, and the known-good producer alternation.
pub fn default_config() -> (c: Config)
    ensures
        c.file_size_threshold == 10485760,
        c.suspicious_patterns.deep_view() =~= seq![
            "(?i)eval"@,
            "(?i)exec"@,
            "(?i)spawn"@,
            "(?i)shell"@,
        ],
        c.suspicious_metadata_patterns.deep_view() =~= seq!["(?i)(adobe|microsoft|office)"@],
{
    let mut suspicious_patterns: Vec<String> = Vec::new();
    suspicious_patterns.push("(?i)eval".to_owned());
    suspicious_patterns.push("(?i)exec".to_owned());
    suspicious_patterns.push("(?i)spawn".to_owned());
    suspicious_patterns.push("(?i)shell".to_owned());
    let mut suspicious_metadata_patterns: Vec<String> = Vec::new();
    suspicious_metadata_patterns.push("(?i)(adobe|microsoft|office)".to_owned());
    Config {
        file_size_threshold: 10 * 1024 * 1024,
        suspicious_patterns,
        suspicious_metadata_patterns,
    }
}

/// A configuration with its pattern lists compiled, ready for any number of
/// runs.
pub struct CompiledConfig {
    pub file_size_threshold: u64,
    pub suspicious: Matcher,
    pub suspicious_metadata: Matcher,
}

/// Compile both pattern lists. A configured pattern that does not compile is
/// a configuration error, surfaced here before any document is analyzed.
pub fn compile_config(c: &Config) -> (r: Option<CompiledConfig>)
    ensures
        r matches Some(cc) ==> {
            &&& cc.file_size_threshold == c.file_size_threshold
            &&& matcher_view(cc.suspicious) == spec_pattern_of(c.suspicious_patterns.deep_view())
            &&& matcher_view(cc.suspicious_metadata) == spec_pattern_of(
                c.suspicious_metadata_patterns.deep_view(),
            )
        },
        r is Some <==> spec_fragments_ok(c.suspicious_patterns.deep_view())
            && spec_fragments_ok(c.suspicious_metadata_patterns.deep_view()),
{
    let suspicious = match build_matcher(&c.suspicious_patterns) {
        Some(m) => m,
        None => {
            return None;
        },
    };
    let suspicious_metadata = match build_matcher(&c.suspicious_metadata_patterns) {
        Some(m) => m,
        None => {
            return None;
        },
    };
    Some(
        CompiledConfig {
            file_size_threshold: c.file_size_threshold,
            suspicious,
            suspicious_metadata,
        },
    )
}

} // verus!
