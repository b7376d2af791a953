//! The plugin source resolver's decision logic.
//!
//! A specifier is tried against an ordered list of lookup strategies: the
//! specifier itself with a trailing wildcard, the plugin directory with the
//! same wildcard, and a development-tree fallback.  The first strategy that
//! yields a readable file wins; earlier strategies always beat later ones.
//! Reading the filesystem is the caller's part; this module fixes which
//! patterns are tried, in which order, and which outcome is chosen.

use crate::errors::PluginError;
use vstd::prelude::*;

verus! {

/// The plugin directory used when the environment names none.
pub open spec fn default_plugin_dir() -> Seq<char> {
    "/etc/wasmlet/plugins"@
}

/// The first strategy: the specifier itself, with a trailing wildcard.
pub open spec fn literal_pattern(specifier: Seq<char>) -> Seq<char> {
    specifier + "*"@
}

/// The second strategy: the specifier under the plugin directory.
pub open spec fn directory_pattern(dir: Seq<char>, specifier: Seq<char>) -> Seq<char> {
    dir + "/"@ + specifier + "*"@
}

/// The third strategy: the release build of a sibling development tree.
pub open spec fn devtree_pattern(specifier: Seq<char>) -> Seq<char> {
    "../"@ + specifier + "/target/wasm32-*/release/"@ + specifier + ".wasm"@
}

/// The message reported when every strategy came up empty.
pub open spec fn not_found_message(specifier: Seq<char>) -> Seq<char> {
    "could not find plugin "@ + specifier
}

/// The plugin directory: the environment's value when it is set and
/// non-empty, the default otherwise.
pub fn plugin_dir_or_default(env_value: Option<String>) -> (dir: String)
    ensures
        match env_value {
            None => dir@ == default_plugin_dir(),
            Some(value) => if value@.len() == 0 {
                dir@ == default_plugin_dir()
            } else {
                dir@ == value@
            },
        },
{
    match env_value {
        None => String::from_str("/etc/wasmlet/plugins"),
        Some(value) => {
            if value.as_str().is_empty() {
                String::from_str("/etc/wasmlet/plugins")
            } else {
                value
            }
        },
    }
}

/// The glob patterns of the three lookup strategies, in the order they are
/// tried.
pub fn search_patterns(specifier: &str, plugin_dir: &str) -> (patterns: Vec<String>)
    ensures
        patterns@.len() == 3,
        patterns@[0]@ == literal_pattern(specifier@),
        patterns@[1]@ == directory_pattern(plugin_dir@, specifier@),
        patterns@[2]@ == devtree_pattern(specifier@),
{
    let mut patterns: Vec<String> = Vec::new();
    patterns.push(String::from_str(specifier).concat("*"));
    patterns.push(
        String::from_str(plugin_dir).concat("/").concat(specifier).concat("*"),
    );
    patterns.push(
        String::from_str("../").concat(specifier).concat("/target/wasm32-*/release/").concat(
            specifier,
        ).concat(".wasm"),
    );
    patterns
}

/// True when some strategy found a readable file.
pub open spec fn some_hit(outcomes: Seq<Option<Vec<u8>>>) -> bool {
    exists|i: int| 0 <= i < outcomes.len() && outcomes[i] is Some
}

/// The position of the first strategy that found a readable file.
pub open spec fn first_hit(outcomes: Seq<Option<Vec<u8>>>) -> int
    decreases outcomes.len(),
{
    if outcomes.len() == 0 {
        0
    } else if outcomes[0] is Some {
        0
    } else {
        1 + first_hit(outcomes.drop_first())
    }
}

/// Choose among the strategies' outcomes: the bytes of the first strategy
/// that found a readable file, or the not-found error when none did.
pub fn select_resolution(specifier: &str, outcomes: &Vec<Option<Vec<u8>>>) -> (r: Result<
    Vec<u8>,
    PluginError,
>)
    ensures
        r is Ok <==> some_hit(outcomes@),
        r matches Ok(bytes) ==> (outcomes@[first_hit(outcomes@)] matches Some(found) && bytes@
            == found@),
        r matches Err(e) ==> (e matches PluginError::FailedToLoadModule(m) && m@
            == not_found_message(specifier@)),
{
    let mut i: usize = 0;
    while i < outcomes.len()
        invariant
            i <= outcomes@.len(),
            forall|k: int| 0 <= k < i ==> outcomes@[k] is None,
        decreases outcomes@.len() - i,
    {
        match &outcomes[i] {
            Some(bytes) => {
                proof {
                    lemma_first_hit_skips_misses(outcomes@, i as int);
                }
                return Ok(crate::guest::copy_bytes(bytes));
            },
            None => {
                i += 1;
            },
        }
    }
    proof {
        assert forall|k: int| 0 <= k < outcomes@.len() implies !(outcomes@[k] is Some) by {
            assert(outcomes@[k] is None);
        }
    }
    Err(
        PluginError::FailedToLoadModule(
            String::from_str("could not find plugin ").concat(specifier),
        ),
    )
}

/// When every strategy before position `i` missed and the one at `i` hit,
/// position `i` is the first hit.
proof fn lemma_first_hit_skips_misses(outcomes: Seq<Option<Vec<u8>>>, i: int)
    requires
        0 <= i < outcomes.len(),
        outcomes[i] is Some,
        forall|k: int| 0 <= k < i ==> outcomes[k] is None,
    ensures
        some_hit(outcomes),
        first_hit(outcomes) == i,
    decreases i,
{
    if i > 0 {
        lemma_first_hit_skips_misses(outcomes.drop_first(), i - 1);
    }
}

/// Law: a hit under the first strategy always wins over any hit under a
/// later one.
pub proof fn lemma_first_strategy_wins(outcomes: Seq<Option<Vec<u8>>>)
    requires
        outcomes.len() > 0,
        outcomes[0] is Some,
    ensures
        some_hit(outcomes),
        first_hit(outcomes) == 0,
{
}

} // verus!
