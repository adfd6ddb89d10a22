//! The validated configuration of one inference invocation, and the
//! per-call configuration values the session hands to the engine.

use vstd::prelude::*;
use vstd::slice::slice_to_vec;
use vstd::string::StrSliceExecFns;

verus! {

/// How one call into the engine is configured.
#[derive(Debug, Clone, Copy, PartialEq, Eq, PartialOrd, Ord)]
pub struct EasyOcrRunArgs<'a> {
    /// "greedy", "beamsearch" or "wordbeamsearch"; any other choice silently
    /// falls back to "greedy" at call time.
    pub decoder: &'a str,
    /// Extra recognition passes at these angles; the engine keeps, per
    /// detection, the reading it judged highest-confidence.
    pub rotations: &'a [u16],
    /// Number of worker cores; 0 lets the engine choose.
    pub cpus: u8,
    /// Merge adjacent detections into paragraph groups.
    pub paragraph: bool,
}

impl Default for EasyOcrRunArgs<'_> {
    /// The defaults: "greedy" decoding, no rotation passes, engine-chosen
    /// parallelism, no paragraph merging.
    fn default() -> (r: Self)
        ensures
            r.decoder@ == "greedy"@,
            r.rotations@.len() == 0,
            r.cpus == 0,
            !r.paragraph,
    {
        EasyOcrRunArgs { decoder: "greedy", rotations: &[], cpus: 0, paragraph: false }
    }
}

/// Whether two strings hold the same characters.
fn str_eq(a: &str, b: &str) -> (r: bool)
    ensures
        r == (a@ == b@),
{
    let alen = a.unicode_len();
    let blen = b.unicode_len();
    if alen != blen {
        return false;
    }
    let mut i: usize = 0;
    while i < alen
        invariant
            alen == a@.len(),
            blen == b@.len(),
            alen == blen,
            i <= alen,
            forall|j: int| 0 <= j < i ==> a@[j] == b@[j],
        decreases alen - i,
    {
        if a.get_char(i) != b.get_char(i) {
            return false;
        }
        i += 1;
    }
    proof {
        assert(a@ =~= b@);
    }
    true
}

/// The decoder a call effectively uses: a recognized non-default choice is
/// kept, everything else is replaced by "greedy".
pub open spec fn spec_effective_decoder(d: Seq<char>) -> Seq<char> {
    if d == "beamsearch"@ || d == "wordbeamsearch"@ {
        d
    } else {
        "greedy"@
    }
}

/// Validates a decoder choice: a string outside the recognized set is
/// silently replaced by the default, "greedy" — by design not an error.
pub fn effective_decoder<'a>(decoder: &'a str) -> (r: &'a str)
    ensures
        r@ == spec_effective_decoder(decoder@),
{
    if str_eq(decoder, "beamsearch") || str_eq(decoder, "wordbeamsearch") {
        decoder
    } else {
        "greedy"
    }
}

/// The per-call configuration the session passes to the engine's
/// text-reading operation, with every value validated and pinned down.
#[derive(Debug, Clone)]
pub struct RunConfig {
    /// Result-shape selector: always the detailed shape (box, text,
    /// confidence), never the plain text list.
    pub detail: u8,
    /// The effective decoder, after validation.
    pub decoder: String,
    /// The rotation passes, unchanged.
    pub rotation_info: Vec<u16>,
    /// The worker count, unchanged.
    pub workers: u8,
    /// The paragraph-merge flag, unchanged.
    pub paragraph: bool,
}

/// Builds the engine call configuration from the caller's arguments, or from
/// the defaults where the caller passed none. The detailed result shape is
/// always requested; the decoder is validated; everything else is forwarded
/// unchanged.
pub fn run_config(args: Option<EasyOcrRunArgs<'_>>) -> (c: RunConfig)
    ensures
        c.detail == 1,
        args matches Some(a) ==> {
            &&& c.decoder@ == spec_effective_decoder(a.decoder@)
            &&& c.rotation_info@ == a.rotations@
            &&& c.workers == a.cpus
            &&& c.paragraph == a.paragraph
        },
        args is None ==> {
            &&& c.decoder@ == "greedy"@
            &&& c.rotation_info@.len() == 0
            &&& c.workers == 0
            &&& !c.paragraph
        },
{
    let a = match args {
        Some(a) => a,
        None => EasyOcrRunArgs::default(),
    };
    proof {
        reveal_strlit("greedy");
        reveal_strlit("beamsearch");
        reveal_strlit("wordbeamsearch");
    }
    RunConfig {
        detail: 1,
        decoder: String::from_str(effective_decoder(a.decoder)),
        rotation_info: slice_to_vec(a.rotations),
        workers: a.cpus,
        paragraph: a.paragraph,
    }
}

} // verus!
