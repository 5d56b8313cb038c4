//! Classification of cache-held state for backup/restore.
//!
//! Every piece of cache-held state is either pure cache (derivable, safe to
//! cold-start empty after a restore) or needs-real-backup (not
//! reconstructable, tagged with the ingestion watermark and restored).
//!
//! | Cache state         | Class           |
//! |---------------------|-----------------|
//! | `rate_limit:*`      | PureCache       |
//! | `lock:*`            | PureCache       |
//! | `metrics:derived:*` | PureCache       |
//! | `idempotency:*`     | NeedsRealBackup |
//! | `cursor:ingest`     | NeedsRealBackup |

use vstd::prelude::*;

use crate::text::{chars_of, find_char, lemma_prefix_before_concat, prefix_before, segment_is};

verus! {

/// How a piece of cache-held state is treated across backup/restore.
#[derive(Debug, Clone, Copy, PartialEq, Eq, Structural)]
pub enum CacheStateClass {
    /// Derivable from the datastore or naturally ephemeral: cold-started
    /// empty after a restore, never restored from a stale backup.
    PureCache,
    /// Not reconstructable: tagged with the ingestion watermark and restored.
    NeedsRealBackup,
}

/// The namespace of a cache key: everything before its first `:`.
pub open spec fn key_namespace(key: Seq<char>) -> Seq<char> {
    prefix_before(key, ':')
}

/// The class of a cache key. Only the `idempotency` and `cursor` namespaces
/// need a real backup; every other key, known or not, is pure cache.
pub open spec fn classify_spec(key: Seq<char>) -> CacheStateClass {
    let ns = key_namespace(key);
    if ns == "idempotency"@ || ns == "cursor"@ {
        CacheStateClass::NeedsRealBackup
    } else {
        CacheStateClass::PureCache
    }
}

/// The class of a key depends on its namespace alone: keys with the same
/// namespace are classed alike, whatever follows the first `:` and however
/// long they are. Every `idempotency:` and `cursor:` key, whatever follows,
/// needs a real backup, and so does the bare key `idempotency` or `cursor`;
/// a `rate_limit:`, `lock:` or `metrics:` key never does.
pub proof fn law_class_depends_on_namespace_only(k1: Seq<char>, k2: Seq<char>, rest: Seq<char>)
    ensures
        key_namespace(k1) == key_namespace(k2) ==> classify_spec(k1) == classify_spec(k2),
        classify_spec("idempotency:"@ + rest) == CacheStateClass::NeedsRealBackup,
        classify_spec("cursor:"@ + rest) == CacheStateClass::NeedsRealBackup,
        classify_spec("idempotency"@) == CacheStateClass::NeedsRealBackup,
        classify_spec("cursor"@) == CacheStateClass::NeedsRealBackup,
        classify_spec("rate_limit:"@ + rest) == CacheStateClass::PureCache,
        classify_spec("lock:"@ + rest) == CacheStateClass::PureCache,
        classify_spec("metrics:"@ + rest) == CacheStateClass::PureCache,
{
    reveal_strlit("idempotency:");
    reveal_strlit("idempotency");
    reveal_strlit("cursor:");
    reveal_strlit("cursor");
    reveal_strlit("rate_limit:");
    reveal_strlit("rate_limit");
    reveal_strlit("lock:");
    reveal_strlit("lock");
    reveal_strlit("metrics:");
    reveal_strlit("metrics");
    assert("idempotency:"@ + rest =~= "idempotency"@ + seq![':'] + rest);
    lemma_prefix_before_concat("idempotency"@, rest, ':');
    assert("cursor:"@ + rest =~= "cursor"@ + seq![':'] + rest);
    lemma_prefix_before_concat("cursor"@, rest, ':');
    assert("rate_limit:"@ + rest =~= "rate_limit"@ + seq![':'] + rest);
    lemma_prefix_before_concat("rate_limit"@, rest, ':');
    assert("lock:"@ + rest =~= "lock"@ + seq![':'] + rest);
    lemma_prefix_before_concat("lock"@, rest, ':');
    assert("metrics:"@ + rest =~= "metrics"@ + seq![':'] + rest);
    lemma_prefix_before_concat("metrics"@, rest, ':');
    crate::text::lemma_prefix_before_whole("idempotency"@, ':');
    crate::text::lemma_prefix_before_whole("cursor"@, ':');
    assert("rate_limit"@ != "idempotency"@ && "rate_limit"@ != "cursor"@);
    assert("lock"@ != "idempotency"@ && "lock"@ != "cursor"@);
    assert("metrics"@ != "idempotency"@ && "metrics"@ != "cursor"@);
}

/// Classify a cache key by its namespace prefix.
///
/// Unknown keys default to [`CacheStateClass::PureCache`] so that a restore
/// never reintroduces state that nothing can reason about.
pub fn classify(key: &str) -> (c: CacheStateClass)
    ensures
        c == classify_spec(key@),
{
    let chars = chars_of(key);
    let end = find_char(&chars, 0, ':');
    proof {
        assert(chars@.skip(0) =~= chars@);
    }
    if segment_is(&chars, 0, end, "idempotency") || segment_is(&chars, 0, end, "cursor") {
        CacheStateClass::NeedsRealBackup
    } else {
        CacheStateClass::PureCache
    }
}

} // verus!
