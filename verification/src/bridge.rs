//! The checkable part of the bridge session.
//!
//! The session owns one opaque handle to the foreign engine and must hold a
//! single global execution lock for the full extent of every call into the
//! foreign runtime — construction included — because that runtime is not
//! reentrant. The host program owns the handle and the lock; this module
//! pins down what a construction call hands the engine, and proves that any
//! event history respecting the lock fully serializes such calls.

use vstd::prelude::*;

verus! {

/// The configuration map a session's construction passes to the engine's
/// reader object.
#[derive(Debug, Clone)]
pub struct ReaderConfig {
    /// The languages the reader recognizes.
    pub lang_list: Vec<String>,
    /// Where the staged model weights are read from.
    pub model_storage_directory: String,
    /// Where the staged network definitions are read from.
    pub user_network_directory: String,
    /// Whether the engine may fetch missing assets itself.
    pub download_enabled: bool,
    /// Whether the engine runs on the GPU.
    pub gpu: bool,
    /// Verbose logging: `None` leaves the engine's own default in force.
    pub verbose: Option<bool>,
}

/// Builds the construction configuration: the language list is fixed to
/// English, both asset directories point at the staged cache directory,
/// downloads are disabled (the assets are pre-staged), the GPU flag is
/// forwarded, and verbose logging is switched off outside debug builds.
pub fn reader_config(model_dir: &str, use_gpu: bool, debug_build: bool) -> (c: ReaderConfig)
    ensures
        c.lang_list@.len() == 1,
        c.lang_list@[0]@ == "en"@,
        c.model_storage_directory@ == model_dir@,
        c.user_network_directory@ == model_dir@,
        !c.download_enabled,
        c.gpu == use_gpu,
        c.verbose == if debug_build {
            None::<bool>
        } else {
            Some(false)
        },
{
    let mut langs: Vec<String> = Vec::new();
    langs.push(String::from_str("en"));
    ReaderConfig {
        lang_list: langs,
        model_storage_directory: String::from_str(model_dir),
        user_network_directory: String::from_str(model_dir),
        download_enabled: false,
        gpu: use_gpu,
        verbose: if debug_build {
            None
        } else {
            Some(false)
        },
    }
}

/// One observable event at the global execution lock.
pub ghost enum LockEvent {
    /// A call into the foreign runtime takes the lock.
    Acquire,
    /// The call is done unmarshaling and gives the lock back.
    Release,
}

/// Whether the lock is held after the events of `trace`.
pub open spec fn lock_held_after(trace: Seq<LockEvent>) -> bool {
    trace.len() > 0 && trace.last() is Acquire
}

/// Whether `trace` respects the lock: an acquire happens only while the lock
/// is free, a release only while it is held.
pub open spec fn valid_trace(trace: Seq<LockEvent>) -> bool
    decreases trace.len(),
{
    trace.len() == 0 || {
        &&& valid_trace(trace.drop_last())
        &&& (trace.last() is Acquire ==> !lock_held_after(trace.drop_last()))
        &&& (trace.last() is Release ==> lock_held_after(trace.drop_last()))
    }
}

/// Every prefix of a trace that respects the lock respects the lock.
pub proof fn lemma_valid_prefix(trace: Seq<LockEvent>, m: int)
    requires
        valid_trace(trace),
        0 <= m <= trace.len(),
    ensures
        valid_trace(trace.take(m)),
    decreases trace.len() - m,
{
    if m == trace.len() {
        assert(trace.take(m) =~= trace);
    } else {
        lemma_valid_prefix(trace, m + 1);
        assert(trace.take(m + 1).drop_last() =~= trace.take(m));
    }
}

/// Serialization of calls into the foreign runtime: in any event history
/// that respects the global execution lock, a release stands strictly
/// between any two acquisitions — so two calls, however they were issued,
/// never hold the lock at the same time.
pub proof fn lemma_lock_serialized(trace: Seq<LockEvent>, i: int, j: int)
    requires
        valid_trace(trace),
        0 <= i < j < trace.len(),
        trace[i] is Acquire,
        trace[j] is Acquire,
    ensures
        exists|k: int| i < k < j && #[trigger] trace[k] is Release,
{
    lemma_valid_prefix(trace, j + 1);
    assert(trace.take(j + 1).drop_last() =~= trace.take(j));
    assert(trace.take(j + 1).last() == trace[j]);
    assert(!lock_held_after(trace.take(j)));
    assert(trace.take(j).last() == trace[j - 1]);
    assert(trace[j - 1] is Release);
    assert(i < j - 1 < j && trace[j - 1] is Release);
}

} // verus!
