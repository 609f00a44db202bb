//! Validation of fonts by a helper process: its limits, and what is made of
//! its answers. Starting the helper and talking to it is the caller's part.

use vstd::prelude::*;
use vstd::string::StringExecFns;
use crate::validator::{ValidationResult, ValidationResultView};
use crate::{opt_text, FontError, FontErrorView, FontFaceView, FontliftFontFaceInfo};

verus! {

/// Default maximum file size (64 MB).
pub const DEFAULT_MAX_SIZE: u64 = 64 * 1024 * 1024;

/// Default timeout per font (5 seconds).
pub const DEFAULT_TIMEOUT_MS: u64 = 5000;

/// The limits that a font has to keep to be accepted.
#[derive(Debug, Clone, Copy, PartialEq, Eq, Structural)]
pub struct ValidatorConfig {
    /// Maximum file size in bytes.
    pub max_file_size_bytes: u64,
    /// Timeout per font in milliseconds.
    pub timeout_ms: u64,
    /// Whether font collections (TTC/OTC) are accepted.
    pub allow_collections: bool,
}

/// The maximum file size used where none is given.
pub fn default_max_size() -> (size: u64)
    ensures
        size == DEFAULT_MAX_SIZE,
{
    DEFAULT_MAX_SIZE
}

/// The timeout used where none is given.
pub fn default_timeout_ms() -> (timeout: u64)
    ensures
        timeout == DEFAULT_TIMEOUT_MS,
{
    DEFAULT_TIMEOUT_MS
}

/// Collections are accepted where nothing is said of them.
pub fn default_allow_collections() -> (allow: bool)
    ensures
        allow,
{
    true
}

impl Default for ValidatorConfig {
    fn default() -> (config: Self)
        ensures
            config == ValidatorConfig::preset(ValidationStrictness::Normal),
    {
        ValidatorConfig {
            max_file_size_bytes: DEFAULT_MAX_SIZE,
            timeout_ms: DEFAULT_TIMEOUT_MS,
            allow_collections: true,
        }
    }
}

/// How strict validation is.
#[derive(Debug, Clone, Copy, PartialEq, Eq, Structural)]
pub enum ValidationStrictness {
    /// Larger files, longer timeouts.
    Lenient,
    /// The default limits.
    Normal,
    /// Smaller files, shorter timeouts.
    Paranoid,
}

impl ValidatorConfig {
    /// The limits of each preset: 128 MB and 10 s, 64 MB and 5 s, 32 MB and
    /// 2 s; collections are accepted by all three.
    pub open spec fn preset(strictness: ValidationStrictness) -> ValidatorConfig {
        match strictness {
            ValidationStrictness::Lenient => ValidatorConfig {
                max_file_size_bytes: 134217728,
                timeout_ms: 10000,
                allow_collections: true,
            },
            ValidationStrictness::Normal => ValidatorConfig {
                max_file_size_bytes: 67108864,
                timeout_ms: 5000,
                allow_collections: true,
            },
            ValidationStrictness::Paranoid => ValidatorConfig {
                max_file_size_bytes: 33554432,
                timeout_ms: 2000,
                allow_collections: true,
            },
        }
    }

    /// The limits of a preset.
    pub fn from_strictness(strictness: ValidationStrictness) -> (config: Self)
        ensures
            config == ValidatorConfig::preset(strictness),
    {
        match strictness {
            ValidationStrictness::Lenient => ValidatorConfig {
                max_file_size_bytes: 128 * 1024 * 1024,
                timeout_ms: 10000,
                allow_collections: true,
            },
            ValidationStrictness::Normal => ValidatorConfig {
                max_file_size_bytes: DEFAULT_MAX_SIZE,
                timeout_ms: DEFAULT_TIMEOUT_MS,
                allow_collections: true,
            },
            ValidationStrictness::Paranoid => ValidatorConfig {
                max_file_size_bytes: 32 * 1024 * 1024,
                timeout_ms: 2000,
                allow_collections: true,
            },
        }
    }
}

/// A stricter preset never allows more: the limits fall from lenient over
/// normal to paranoid.
pub proof fn lemma_presets_are_ordered()
    ensures
        ValidatorConfig::preset(ValidationStrictness::Lenient).max_file_size_bytes
            > ValidatorConfig::preset(ValidationStrictness::Normal).max_file_size_bytes,
        ValidatorConfig::preset(ValidationStrictness::Normal).max_file_size_bytes
            > ValidatorConfig::preset(ValidationStrictness::Paranoid).max_file_size_bytes,
        ValidatorConfig::preset(ValidationStrictness::Lenient).timeout_ms > ValidatorConfig::preset(
            ValidationStrictness::Normal,
        ).timeout_ms,
        ValidatorConfig::preset(ValidationStrictness::Normal).timeout_ms > ValidatorConfig::preset(
            ValidationStrictness::Paranoid,
        ).timeout_ms,
{
}

/// What the helper's answer for one font comes to: the metadata where the
/// font passed and metadata came with it; an `InvalidFormat` error otherwise,
/// with the helper's words where it gave any.
pub open spec fn outcome_of(result: ValidationResultView) -> Result<FontFaceView, FontErrorView> {
    if result.ok {
        match result.info {
            Some(info) => Ok(info),
            None => Err(FontErrorView::InvalidFormat("Missing font info"@)),
        }
    } else {
        match result.error {
            Some(words) => Err(FontErrorView::InvalidFormat(words)),
            None => Err(FontErrorView::InvalidFormat("Unknown validation error"@)),
        }
    }
}

/// Whether `res` is the outcome `expected`, value for value.
pub open spec fn is_outcome(
    res: Result<FontliftFontFaceInfo, FontError>,
    expected: Result<FontFaceView, FontErrorView>,
) -> bool {
    match res {
        Ok(info) => expected == Ok::<FontFaceView, FontErrorView>(info@),
        Err(e) => expected == Err::<FontFaceView, FontErrorView>(e@),
    }
}

/// What the helper's answer for one font comes to.
pub fn introspect_outcome(result: ValidationResult) -> (res: Result<FontliftFontFaceInfo, FontError>)
    ensures
        is_outcome(res, outcome_of(result@)),
{
    if result.ok {
        match result.info {
            Some(info) => Ok(info),
            None => Err(FontError::InvalidFormat(String::from_str("Missing font info"))),
        }
    } else {
        match result.error {
            Some(words) => Err(FontError::InvalidFormat(words)),
            None => Err(FontError::InvalidFormat(String::from_str("Unknown validation error"))),
        }
    }
}

/// What the helper's answers come to, one outcome per answer, in order.
pub fn introspect_outcomes(results: Vec<ValidationResult>) -> (outcomes: Vec<
    Result<FontliftFontFaceInfo, FontError>,
>)
    ensures
        outcomes@.len() == results@.len(),
        forall|i: int|
            0 <= i < results@.len() ==> is_outcome(#[trigger] outcomes@[i], outcome_of(results@[i]@)),
{
    let mut results = results;
    let ghost all = results@;
    let mut reversed: Vec<Result<FontliftFontFaceInfo, FontError>> = Vec::new();
    while results.len() > 0
        invariant
            results@.len() + reversed@.len() == all.len(),
            results@ == all.take(results@.len() as int),
            forall|k: int|
                0 <= k < reversed@.len() ==> is_outcome(
                    #[trigger] reversed@[k],
                    outcome_of(all[all.len() - 1 - k]@),
                ),
        decreases results.len(),
    {
        let ghost before = reversed@;
        let ghost index = results@.len() - 1;
        let result = results.pop().unwrap();
        assert(result == all[index]);
        let outcome = introspect_outcome(result);
        reversed.push(outcome);
        assert(results@ =~= all.take(index));
        assert forall|k: int| 0 <= k < reversed@.len() implies is_outcome(
            #[trigger] reversed@[k],
            outcome_of(all[all.len() - 1 - k]@),
        ) by {
            if k < before.len() {
                assert(reversed@[k] == before[k]);
            }
        }
    }
    let mut outcomes: Vec<Result<FontliftFontFaceInfo, FontError>> = Vec::new();
    while reversed.len() > 0
        invariant
            outcomes@.len() + reversed@.len() == all.len(),
            forall|k: int|
                0 <= k < reversed@.len() ==> is_outcome(
                    #[trigger] reversed@[k],
                    outcome_of(all[all.len() - 1 - k]@),
                ),
            forall|i: int|
                0 <= i < outcomes@.len() ==> is_outcome(#[trigger] outcomes@[i], outcome_of(all[i]@)),
        decreases reversed.len(),
    {
        let ghost before = outcomes@;
        let ghost before_rev = reversed@;
        let outcome = reversed.pop().unwrap();
        assert(outcome == before_rev[before_rev.len() - 1]);
        outcomes.push(outcome);
        assert forall|i: int| 0 <= i < outcomes@.len() implies is_outcome(
            #[trigger] outcomes@[i],
            outcome_of(all[i]@),
        ) by {
            if i < before.len() {
                assert(outcomes@[i] == before[i]);
            }
        }
        assert forall|k: int| 0 <= k < reversed@.len() implies is_outcome(
            #[trigger] reversed@[k],
            outcome_of(all[all.len() - 1 - k]@),
        ) by {
            assert(reversed@[k] == before_rev[k]);
        }
    }
    outcomes
}

/// The verdict on a single font, from the helper's answers for it: the
/// outcome of the first answer, or an error where the helper gave none.
pub open spec fn single_outcome(results: Seq<ValidationResult>) -> Result<
    FontFaceView,
    FontErrorView,
> {
    if results.len() > 0 {
        outcome_of(results[0]@)
    } else {
        Err(FontErrorView::InvalidFormat("No validation result"@))
    }
}

/// The verdict on a single font, from what asking the helper gave: its
/// failure, if asking failed; else the outcome of its first answer.
pub fn validate_single(answer: Result<Vec<ValidationResult>, FontError>) -> (res: Result<
    FontliftFontFaceInfo,
    FontError,
>)
    ensures
        match answer {
            Ok(results) => is_outcome(res, single_outcome(results@)),
            Err(e) => res is Err && res->Err_0 == e,
        },
{
    match answer {
        Err(e) => Err(e),
        Ok(results) => {
            let mut results = results;
            if results.len() == 0 {
                Err(FontError::InvalidFormat(String::from_str("No validation result")))
            } else {
                let first = results.remove(0);
                introspect_outcome(first)
            }
        },
    }
}

} // verus!
