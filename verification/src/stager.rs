//! Staging of the bundled model-weight payloads.
//!
//! The engine loads its two model files from a version-scoped directory under
//! the system temp root. This module holds the checkable part of staging: the
//! deterministic directory name, the plan of one staging pass (create the
//! directory if absent, write each model file only if absent, all skipped once
//! the process-wide idempotency flag is set), and the proof that repeated
//! passes write each file at most once. The host program carries a plan out
//! with real filesystem calls and feeds the outcomes back in.

use vstd::prelude::*;

verus! {

/// The fixed file name the text-detection model is staged under.
pub fn craft_model_name() -> (r: &'static str)
    ensures
        r@ == "craft_mlt_25k.pth"@,
{
    "craft_mlt_25k.pth"
}

/// The fixed file name the text-recognition model is staged under.
pub fn en_model_name() -> (r: &'static str)
    ensures
        r@ == "english_g2.pth"@,
{
    "english_g2.pth"
}

/// The directory name the assets of one build are staged under: the version
/// string determines it completely, so different versions never collide and
/// repeated calls always name the same place.
pub fn cache_dir_name(version: &str) -> (r: String)
    ensures
        r@ == "easyocr-models-v"@ + version@,
{
    String::from_str("easyocr-models-v").concat(version)
}

/// What one staging pass must do, given what already exists.
#[derive(Debug, Clone, Copy, PartialEq, Eq, Structural)]
pub struct StagePlan {
    /// Create the cache directory.
    pub create_dir: bool,
    /// Write the recognition model file.
    pub write_en: bool,
    /// Write the detection model file.
    pub write_craft: bool,
}

/// The plan of one staging pass: nothing once the idempotency flag is set;
/// otherwise create the directory and write each model file exactly where it
/// is absent. A file that exists is left alone.
pub open spec fn spec_stage_plan(staged: bool, dir: bool, en: bool, craft: bool) -> StagePlan {
    if staged {
        StagePlan { create_dir: false, write_en: false, write_craft: false }
    } else {
        StagePlan { create_dir: !dir, write_en: !en, write_craft: !craft }
    }
}

/// A plan that touches the filesystem in no way.
pub open spec fn no_work(p: StagePlan) -> bool {
    !p.create_dir && !p.write_en && !p.write_craft
}

/// Computes one staging pass's plan from the process-wide idempotency flag
/// and from what is already on disk.
pub fn stage_plan(
    already_staged: bool,
    dir_exists: bool,
    en_exists: bool,
    craft_exists: bool,
) -> (p: StagePlan)
    ensures
        p == spec_stage_plan(already_staged, dir_exists, en_exists, craft_exists),
{
    if already_staged {
        StagePlan { create_dir: false, write_en: false, write_craft: false }
    } else {
        StagePlan { create_dir: !dir_exists, write_en: !en_exists, write_craft: !craft_exists }
    }
}

/// The staging-relevant state of the filesystem: whether the cache directory
/// exists, and the contents of the two model files where present.
pub ghost struct FsState {
    pub dir_exists: bool,
    pub en_file: Option<Seq<u8>>,
    pub craft_file: Option<Seq<u8>>,
}

/// The whole staging state: the process-wide idempotency flag and the
/// filesystem.
pub ghost struct StagerState {
    pub staged: bool,
    pub fs: FsState,
}

/// The two bundled payloads. They are compile-time constants of the host
/// binary: every pass of one process stages the same bytes.
pub ghost struct Payloads {
    pub en: Seq<u8>,
    pub craft: Seq<u8>,
}

/// The filesystem after one pass's plan is carried out in full.
pub open spec fn apply_plan(fs: FsState, p: StagePlan, pay: Payloads) -> FsState {
    FsState {
        dir_exists: fs.dir_exists || p.create_dir,
        en_file: if p.write_en {
            Some(pay.en)
        } else {
            fs.en_file
        },
        craft_file: if p.write_craft {
            Some(pay.craft)
        } else {
            fs.craft_file
        },
    }
}

/// The plan one pass computes in a given state: a file counts as present
/// exactly when it exists.
pub open spec fn plan_in(s: StagerState) -> StagePlan {
    spec_stage_plan(s.staged, s.fs.dir_exists, s.fs.en_file is Some, s.fs.craft_file is Some)
}

/// One fully successful staging pass: its plan is carried out and the
/// idempotency flag is set. A failed pass leaves the flag unset, so a later
/// pass retries.
pub open spec fn stage_once(s: StagerState, pay: Payloads) -> StagerState {
    StagerState { staged: true, fs: apply_plan(s.fs, plan_in(s), pay) }
}

/// `n` successful staging passes from `s`.
pub open spec fn stage_n(s: StagerState, pay: Payloads, n: nat) -> StagerState
    decreases n,
{
    if n == 0 {
        s
    } else {
        stage_once(stage_n(s, pay, (n - 1) as nat), pay)
    }
}

/// How many of the first `n` passes write the recognition model file.
pub open spec fn en_writes(s: StagerState, pay: Payloads, n: nat) -> nat
    decreases n,
{
    if n == 0 {
        0
    } else {
        en_writes(s, pay, (n - 1) as nat) + if plan_in(
            stage_n(s, pay, (n - 1) as nat),
        ).write_en {
            1nat
        } else {
            0nat
        }
    }
}

/// How many of the first `n` passes write the detection model file.
pub open spec fn craft_writes(s: StagerState, pay: Payloads, n: nat) -> nat
    decreases n,
{
    if n == 0 {
        0
    } else {
        craft_writes(s, pay, (n - 1) as nat) + if plan_in(
            stage_n(s, pay, (n - 1) as nat),
        ).write_craft {
            1nat
        } else {
            0nat
        }
    }
}

/// The flag discipline: the idempotency flag is set only at the end of a
/// fully successful pass, so a set flag means the directory and both model
/// files are in place.
pub open spec fn inv(s: StagerState) -> bool {
    s.staged ==> s.fs.dir_exists && s.fs.en_file is Some && s.fs.craft_file is Some
}

/// One successful pass establishes everything staging promises: the flag is
/// set, the directory and both model files exist afterwards; a file that was
/// absent now holds its bundled payload; a file that already existed is left
/// untouched. The flag discipline is preserved.
pub proof fn lemma_staging_establishes(s: StagerState, pay: Payloads)
    requires
        inv(s),
    ensures
        inv(stage_once(s, pay)),
        stage_once(s, pay).staged,
        stage_once(s, pay).fs.dir_exists,
        stage_once(s, pay).fs.en_file is Some,
        stage_once(s, pay).fs.craft_file is Some,
        s.fs.en_file is None ==> stage_once(s, pay).fs.en_file == Some(pay.en),
        s.fs.craft_file is None ==> stage_once(s, pay).fs.craft_file == Some(pay.craft),
        s.fs.en_file is Some ==> stage_once(s, pay).fs.en_file == s.fs.en_file,
        s.fs.craft_file is Some ==> stage_once(s, pay).fs.craft_file == s.fs.craft_file,
{
}

/// Where a failing pass stopped. A pass carries its plan out in a fixed
/// order — create the directory, write the recognition model, write the
/// detection model — and a filesystem failure at one step ends the pass with
/// the earlier steps done and the failing one and everything after it not.
pub ghost enum StageFailure {
    AtCreateDir,
    AtWriteEn,
    AtWriteCraft,
}

/// What a pass that failed at `f` leaves behind: the steps of its plan
/// before the failing one are applied, the rest are not, and the idempotency
/// flag stays unset — the failure propagates to the caller and a later pass
/// retries.
pub open spec fn stage_failed(s: StagerState, pay: Payloads, f: StageFailure) -> StagerState {
    let p = plan_in(s);
    match f {
        StageFailure::AtCreateDir => StagerState { staged: false, fs: s.fs },
        StageFailure::AtWriteEn => StagerState {
            staged: false,
            fs: FsState {
                dir_exists: s.fs.dir_exists || p.create_dir,
                en_file: s.fs.en_file,
                craft_file: s.fs.craft_file,
            },
        },
        StageFailure::AtWriteCraft => StagerState {
            staged: false,
            fs: FsState {
                dir_exists: s.fs.dir_exists || p.create_dir,
                en_file: if p.write_en {
                    Some(pay.en)
                } else {
                    s.fs.en_file
                },
                craft_file: s.fs.craft_file,
            },
        },
    }
}

/// Retry after a failure: a failed pass leaves the flag unset, so the next
/// pass runs again; that pass redoes nothing already in place — it retries
/// exactly the missing work — and if it succeeds the process ends in
/// exactly the state one successful pass would have reached.
pub proof fn lemma_retry_after_failure(s: StagerState, pay: Payloads, f: StageFailure)
    requires
        !s.staged,
    ensures
        !stage_failed(s, pay, f).staged,
        stage_failed(s, pay, f).fs.dir_exists ==> !plan_in(stage_failed(s, pay, f)).create_dir,
        stage_failed(s, pay, f).fs.en_file is Some ==> !plan_in(stage_failed(s, pay, f)).write_en,
        stage_failed(s, pay, f).fs.craft_file is Some ==> !plan_in(
            stage_failed(s, pay, f),
        ).write_craft,
        stage_once(stage_failed(s, pay, f), pay) == stage_once(s, pay),
{
    assert(apply_plan(stage_failed(s, pay, f).fs, plan_in(stage_failed(s, pay, f)), pay)
        == apply_plan(s.fs, plan_in(s), pay));
}

/// Staging idempotence: over any number `n >= 1` of successful staging
/// passes in one process, each model file is written at most once, every
/// pass after the first performs no filesystem work at all, and the
/// filesystem never changes again after the first pass — so all passes
/// leave the same, byte-identical staged files in the same place.
pub proof fn lemma_staging_idempotent(s: StagerState, pay: Payloads, n: nat)
    requires
        1 <= n,
    ensures
        en_writes(s, pay, n) <= 1,
        craft_writes(s, pay, n) <= 1,
        stage_n(s, pay, n).fs == stage_once(s, pay).fs,
        stage_n(s, pay, n).staged,
        no_work(plan_in(stage_n(s, pay, n))),
    decreases n,
{
    if n == 1 {
        assert(stage_n(s, pay, 1) == stage_once(stage_n(s, pay, 0), pay));
        assert(en_writes(s, pay, 1) == en_writes(s, pay, 0) + if plan_in(
            stage_n(s, pay, 0),
        ).write_en {
            1nat
        } else {
            0nat
        });
        assert(craft_writes(s, pay, 1) == craft_writes(s, pay, 0) + if plan_in(
            stage_n(s, pay, 0),
        ).write_craft {
            1nat
        } else {
            0nat
        });
    } else {
        lemma_staging_idempotent(s, pay, (n - 1) as nat);
        let t = stage_n(s, pay, (n - 1) as nat);
        assert(no_work(plan_in(t)));
        assert(en_writes(s, pay, n) == en_writes(s, pay, (n - 1) as nat));
        assert(craft_writes(s, pay, n) == craft_writes(s, pay, (n - 1) as nat));
        assert(stage_n(s, pay, n).fs == apply_plan(t.fs, plan_in(t), pay));
        assert(apply_plan(t.fs, plan_in(t), pay) == t.fs);
    }
}

} // verus!
