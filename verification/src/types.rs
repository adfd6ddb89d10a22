//! The typed result model: the raw detections handed back by the foreign
//! engine, the `BoundingBox` / `DetectedText` / `OCRData` domain types, and
//! the lossy text-only projection.
//!
//! The engine reports coordinates and confidences as 32-bit IEEE-754 values.
//! This layer never interprets them numerically — it only carries them — so
//! it holds each one as its raw 32-bit encoding (`u32`), which keeps every
//! conversion here exact and checkable. The host program translates between
//! the numeric values and their encodings at the boundary.

use vstd::prelude::*;

verus! {

/// One coordinate (or one confidence score): the raw 32-bit encoding of the
/// engine's single-precision value.
pub type BBoxPointType = u32;

/// A 2-D point, `[x, y]`.
pub type BBoxPoint = [BBoxPointType; 2];

/// The four corner points of a detection, in the order the engine reports
/// them: top-left, top-right, bottom-right, bottom-left.
pub type EasyOcrBBox = [BBoxPoint; 4];

/// One raw detection as the engine returns it: corner points, the detected
/// text, and the confidence score's encoding.
pub type RawDetection = (EasyOcrBBox, String, BBoxPointType);

/// The detailed raw result shape: one entry per detection, in the engine's
/// own scan order.
pub type Detail1 = Vec<RawDetection>;

/// The simplest result shape: the detected texts alone.
pub type Detail0 = Vec<String>;

/// The bounding box of a detected text, with the four corners named.
///
/// Fields are assigned purely positionally from a raw detection's points —
/// never reordered and never re-derived from geometry.
#[derive(Debug, Clone, Copy, PartialEq, PartialOrd)]
pub struct BoundingBox {
    pub tl: BBoxPoint,
    pub tr: BBoxPoint,
    pub br: BBoxPoint,
    pub bl: BBoxPoint,
}

/// The bounding box a raw point list maps to: `tl`, `tr`, `br`, `bl` are the
/// points at positions 0, 1, 2, 3, exactly.
pub open spec fn bbox_of(pts: EasyOcrBBox) -> BoundingBox {
    BoundingBox { tl: pts[0], tr: pts[1], br: pts[2], bl: pts[3] }
}

impl From<EasyOcrBBox> for BoundingBox {
    fn from(value: EasyOcrBBox) -> (r: Self) {
        BoundingBox { tl: value[0], tr: value[1], br: value[2], bl: value[3] }
    }
}

impl vstd::std_specs::convert::FromSpecImpl<EasyOcrBBox> for BoundingBox {
    open spec fn obeys_from_spec() -> bool {
        true
    }

    open spec fn from_spec(v: EasyOcrBBox) -> Self {
        bbox_of(v)
    }
}

/// One detected text: its box, its text, and its confidence encoding.
#[derive(Debug, Clone, PartialEq, PartialOrd)]
pub struct DetectedText {
    pub bbox: BoundingBox,
    pub text: String,
    pub confidence: BBoxPointType,
}

/// A typed detection carries exactly what its raw detection carried: the
/// positionally mapped box, the same text, the same confidence.
pub open spec fn corresponds(dt: DetectedText, raw: RawDetection) -> bool {
    &&& dt.bbox == bbox_of(raw.0)
    &&& dt.text@ == raw.1@
    &&& dt.confidence == raw.2
}

/// The detections found in an image, in the exact order the engine returned
/// them. This layer never re-sorts.
#[derive(Debug, Clone)]
pub struct OCRData {
    pub texts: Vec<DetectedText>,
}

impl OCRData {
    /// `self` is the typed image of `raw`: same length, and entry `i`
    /// corresponds to `raw[i]` for every `i`.
    pub open spec fn matches_raw(&self, raw: Seq<RawDetection>) -> bool {
        &&& self.texts@.len() == raw.len()
        &&& forall|i: int| 0 <= i < raw.len() ==> corresponds(#[trigger] self.texts@[i], raw[i])
    }

    /// Builds the typed result from the engine's raw detail list,
    /// index-for-index and in the given order.
    pub fn from_detail1(value: Detail1) -> (r: Self)
        ensures
            r.matches_raw(value@),
    {
        let mut texts: Vec<DetectedText> = Vec::new();
        let mut i: usize = 0;
        while i < value.len()
            invariant
                i <= value@.len(),
                texts@.len() == i,
                forall|j: int| 0 <= j < i ==> corresponds(#[trigger] texts@[j], value@[j]),
            decreases value@.len() - i,
        {
            let d = &value[i];
            texts.push(
                DetectedText { bbox: BoundingBox::from(d.0), text: d.1.clone(), confidence: d.2 },
            );
            i += 1;
        }
        OCRData { texts }
    }

    /// The lossy text-only projection: one string per detection, same order,
    /// box and confidence dropped. No inverse exists.
    pub fn into_txt_vec(self) -> (r: Detail0)
        ensures
            r@.len() == self.texts@.len(),
            forall|i: int| 0 <= i < self.texts@.len() ==> #[trigger] r@[i]@ == self.texts@[i].text@,
    {
        let mut out: Vec<String> = Vec::new();
        let mut i: usize = 0;
        while i < self.texts.len()
            invariant
                i <= self.texts@.len(),
                out@.len() == i,
                forall|j: int| 0 <= j < i ==> #[trigger] out@[j]@ == self.texts@[j].text@,
            decreases self.texts@.len() - i,
        {
            out.push(self.texts[i].text.clone());
            i += 1;
        }
        out
    }
}

} // verus!
