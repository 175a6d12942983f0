//! Detection post-processing: thresholding, box denormalization and label lookup.
//!
//! Model outputs are carried in fixed point: a normalized coordinate or a
//! confidence score of `1.0` is `UNIT`.
use vstd::prelude::*;

verus! {

/// Fixed-point scale of normalized coordinates and scores.
pub const UNIT: u32 = 1000000;

/// Default confidence threshold (0.4 in fixed point).
pub const DEFAULT_THRESHOLD: u32 = 400000;

/// A box in absolute pixel coordinates: `(x0, y0)` top-left, `(x1, y1)` bottom-right.
#[derive(Clone, Copy, Debug, PartialEq, Eq, Structural)]
pub struct PixelBox {
    pub x0: u32,
    pub y0: u32,
    pub x1: u32,
    pub y1: u32,
}

/// One detection selected for drawing.
#[derive(Clone, Copy, Debug, PartialEq, Eq, Structural)]
pub struct Annotation {
    /// Position of the detection in the model output.
    pub index: usize,
    pub bbox: PixelBox,
    /// Index into the label map, or `None` when the class id falls outside it.
    pub label: Option<usize>,
}

/// Raw output of one inference pass, in fixed point.
///
/// `boxes` holds four values per detection, in the order ymin, xmin, ymax, xmax;
/// `classes` holds the class ids truncated to integers.
pub struct Detections {
    pub count: usize,
    pub boxes: Vec<u32>,
    pub classes: Vec<i64>,
    pub scores: Vec<u32>,
}

/// A normalized coordinate scaled to a dimension, clamped to `[0, dim]`.
pub open spec fn scaled(n: u32, dim: u32) -> u32 {
    let v = (dim as int * n as int) / (UNIT as int);
    if v > dim as int { dim } else { v as u32 }
}

/// Denormalization of `[ymin, xmin, ymax, xmax]`: y coordinates scale by the
/// height, x coordinates by the width.
pub open spec fn denormalized(ymin: u32, xmin: u32, ymax: u32, xmax: u32, width: u32, height: u32) -> PixelBox {
    PixelBox {
        x0: scaled(xmin, width),
        y0: scaled(ymin, height),
        x1: scaled(xmax, width),
        y1: scaled(ymax, height),
    }
}

impl PixelBox {
    /// A box can be drawn when it has a positive width and height.
    pub open spec fn drawable(self) -> bool {
        self.x0 < self.x1 && self.y0 < self.y1
    }

    pub fn is_drawable(&self) -> (r: bool)
        ensures
            r == self.drawable(),
    {
        self.x0 < self.x1 && self.y0 < self.y1
    }
}

/// Scales a fixed-point coordinate to `[0, dim]`.
pub fn scale_to(n: u32, dim: u32) -> (r: u32)
    ensures
        r == scaled(n, dim),
        r <= dim,
{
    proof {
        assert(dim as int * n as int <= u32::MAX as int * u32::MAX as int) by (nonlinear_arith);
    }
    let v: u64 = (dim as u64 * n as u64) / (UNIT as u64);
    if v > dim as u64 {
        dim
    } else {
        v as u32
    }
}

/// Converts a normalized box to pixel coordinates of a `width` x `height` image.
pub fn denormalize(ymin: u32, xmin: u32, ymax: u32, xmax: u32, width: u32, height: u32) -> (r: PixelBox)
    ensures
        r == denormalized(ymin, xmin, ymax, xmax, width, height),
        r.x0 <= width && r.x1 <= width,
        r.y0 <= height && r.y1 <= height,
{
    PixelBox {
        x0: scale_to(xmin, width),
        y0: scale_to(ymin, height),
        x1: scale_to(xmax, width),
        y1: scale_to(ymax, height),
    }
}

/// The label index of a class id, if it lies within a label map of `n` names.
pub open spec fn class_label(class: i64, n: nat) -> Option<usize> {
    if 0 <= class && class < n { Some(class as usize) } else { None }
}

/// Looks a class id up in a label map of `n` names; out-of-range ids give `None`.
pub fn label_index(class: i64, n: usize) -> (r: Option<usize>)
    ensures
        r == class_label(class, n as nat),
{
    if 0 <= class && (class as u64) < (n as u64) {
        Some(class as usize)
    } else {
        None
    }
}

impl Detections {
    /// Number of detections that the output arrays can hold, bounded by `count`.
    pub open spec fn valid_count(&self) -> nat {
        let a = if self.count as int <= self.boxes@.len() / 4 { self.count as int } else { (self.boxes@.len() / 4) as int };
        let b = if a <= self.classes@.len() { a } else { self.classes@.len() as int };
        let c = if b <= self.scores@.len() { b } else { self.scores@.len() as int };
        c as nat
    }

    /// Pixel box of detection `i` in a `width` x `height` image.
    pub open spec fn box_of(&self, i: int, width: u32, height: u32) -> PixelBox {
        denormalized(
            self.boxes@[4 * i],
            self.boxes@[4 * i + 1],
            self.boxes@[4 * i + 2],
            self.boxes@[4 * i + 3],
            width,
            height,
        )
    }

    /// Detection `i` is drawn: its score exceeds the threshold and its box has an area.
    pub open spec fn selected(&self, i: int, threshold: u32, width: u32, height: u32) -> bool {
        self.scores@[i] > threshold && self.box_of(i, width, height).drawable()
    }

    pub open spec fn annotation_of(&self, i: int, width: u32, height: u32, n_labels: nat) -> Annotation {
        Annotation {
            index: i as usize,
            bbox: self.box_of(i, width, height),
            label: class_label(self.classes@[i], n_labels),
        }
    }

    /// The annotations of the first `k` detections, in output order.
    pub open spec fn plan_upto(&self, k: nat, threshold: u32, width: u32, height: u32, n_labels: nat) -> Seq<Annotation>
        decreases k,
    {
        if k == 0 {
            Seq::empty()
        } else {
            let prev = self.plan_upto((k - 1) as nat, threshold, width, height, n_labels);
            if self.selected(k - 1, threshold, width, height) {
                prev.push(self.annotation_of(k - 1, width, height, n_labels))
            } else {
                prev
            }
        }
    }

    /// The annotations drawn for this output.
    pub open spec fn plan(&self, threshold: u32, width: u32, height: u32, n_labels: nat) -> Seq<Annotation> {
        self.plan_upto(self.valid_count(), threshold, width, height, n_labels)
    }

    /// Number of detections that can be read, clamped to the array lengths.
    pub fn usable_count(&self) -> (r: usize)
        ensures
            r as nat == self.valid_count(),
            r as int <= self.boxes@.len() / 4,
            self.boxes@.len() <= usize::MAX,
            r <= self.classes@.len(),
            r <= self.scores@.len(),
    {
        let mut n = self.count;
        if n > self.boxes.len() / 4 {
            n = self.boxes.len() / 4;
        }
        if n > self.classes.len() {
            n = self.classes.len();
        }
        if n > self.scores.len() {
            n = self.scores.len();
        }
        n
    }

    /// Selects the detections to draw on a `width` x `height` image whose label
    /// map holds `n_labels` names.
    pub fn plan_boxes(&self, threshold: u32, width: u32, height: u32, n_labels: usize) -> (r: Vec<Annotation>)
        ensures
            r@ == self.plan(threshold, width, height, n_labels as nat),
    {
        let n = self.usable_count();
        let mut out: Vec<Annotation> = Vec::new();
        let mut i: usize = 0;
        while i < n
            invariant
                n as nat == self.valid_count(),
                n as int <= self.boxes@.len() / 4,
                self.boxes@.len() <= usize::MAX,
                n <= self.classes@.len(),
                n <= self.scores@.len(),
                i <= n,
                out@ == self.plan_upto(i as nat, threshold, width, height, n_labels as nat),
            decreases n - i,
        {
            let b = denormalize(
                self.boxes[4 * i],
                self.boxes[4 * i + 1],
                self.boxes[4 * i + 2],
                self.boxes[4 * i + 3],
                width,
                height,
            );
            if self.scores[i] > threshold && b.is_drawable() {
                let label = label_index(self.classes[i], n_labels);
                out.push(Annotation { index: i, bbox: b, label });
            }
            i = i + 1;
        }
        out
    }
}

/// Each annotation of the first `k` detections comes from a selected detection
/// below `k`, and each selected detection below `k` has its annotation.
proof fn lemma_plan_upto_members(d: &Detections, k: nat, threshold: u32, width: u32, height: u32, n_labels: nat)
    requires
        k <= d.valid_count(),
    ensures
        forall|j: int|
            0 <= j < d.plan_upto(k, threshold, width, height, n_labels).len() ==> {
                let a = #[trigger] d.plan_upto(k, threshold, width, height, n_labels)[j];
                &&& (a.index as int) < k
                &&& d.selected(a.index as int, threshold, width, height)
                &&& a == d.annotation_of(a.index as int, width, height, n_labels)
            },
        forall|i: int|
            0 <= i < k && #[trigger] d.selected(i, threshold, width, height) ==> exists|j: int|
                0 <= j < d.plan_upto(k, threshold, width, height, n_labels).len()
                    && (#[trigger] d.plan_upto(k, threshold, width, height, n_labels)[j]).index == i,
    decreases k,
{
    if k > 0 {
        let km1 = (k - 1) as nat;
        lemma_plan_upto_members(d, km1, threshold, width, height, n_labels);
        let prev = d.plan_upto(km1, threshold, width, height, n_labels);
        let cur = d.plan_upto(k, threshold, width, height, n_labels);
        assert(d.valid_count() <= d.count);
        if d.selected(k - 1, threshold, width, height) {
            assert(cur == prev.push(d.annotation_of(k - 1, width, height, n_labels)));
            assert forall|i: int|
                0 <= i < k && #[trigger] d.selected(i, threshold, width, height) implies exists|j: int|
                    0 <= j < cur.len() && (#[trigger] cur[j]).index == i by {
                if i == k - 1 {
                    assert(cur[prev.len() as int].index == i);
                } else {
                    let j = choose|j: int| 0 <= j < prev.len() && (#[trigger] prev[j]).index == i;
                    assert(cur[j] == prev[j]);
                }
            }
        } else {
            assert(cur == prev);
        }
    }
}

/// Only detections within the valid count whose score exceeds the threshold are
/// drawn, and every such detection with a box of positive area is drawn.
pub proof fn lemma_only_confident_drawn(d: &Detections, threshold: u32, width: u32, height: u32, n_labels: nat)
    ensures
        forall|j: int|
            0 <= j < d.plan(threshold, width, height, n_labels).len() ==> {
                let a = #[trigger] d.plan(threshold, width, height, n_labels)[j];
                &&& (a.index as int) < d.valid_count()
                &&& d.scores@[a.index as int] > threshold
                &&& a.bbox.drawable()
            },
        forall|i: int|
            0 <= i < d.valid_count() && d.scores@[i] > threshold && #[trigger] d.box_of(i, width, height).drawable()
                ==> exists|j: int|
                0 <= j < d.plan(threshold, width, height, n_labels).len()
                    && (#[trigger] d.plan(threshold, width, height, n_labels)[j]).index == i,
{
    lemma_plan_upto_members(d, d.valid_count(), threshold, width, height, n_labels);
    assert forall|i: int|
        0 <= i < d.valid_count() && d.scores@[i] > threshold && #[trigger] d.box_of(i, width, height).drawable()
            implies exists|j: int|
            0 <= j < d.plan(threshold, width, height, n_labels).len()
                && (#[trigger] d.plan(threshold, width, height, n_labels)[j]).index == i by {
        assert(d.selected(i, threshold, width, height));
    }
}

/// A drawn box of normalized coordinates in `[0, 1]` is `(width * xmin, height * ymin)`
/// to `(width * xmax, height * ymax)`, rounded down, inside the image, with
/// `x0 < x1` and `y0 < y1`.
pub proof fn lemma_box_mapping(d: &Detections, i: int, threshold: u32, width: u32, height: u32)
    requires
        0 <= i < d.valid_count(),
        forall|k: int| 4 * i <= k < 4 * i + 4 ==> d.boxes@[k] <= UNIT,
    ensures
        ({
            let b = d.box_of(i, width, height);
            &&& b.x0 == (width as int * d.boxes@[4 * i + 1] as int) / (UNIT as int)
            &&& b.y0 == (height as int * d.boxes@[4 * i] as int) / (UNIT as int)
            &&& b.x1 == (width as int * d.boxes@[4 * i + 3] as int) / (UNIT as int)
            &&& b.y1 == (height as int * d.boxes@[4 * i + 2] as int) / (UNIT as int)
            &&& b.x1 <= width && b.y1 <= height
            &&& d.selected(i, threshold, width, height) ==> b.x0 < b.x1 && b.y0 < b.y1
        }),
{
    lemma_scaled_exact(d.boxes@[4 * i], height);
    lemma_scaled_exact(d.boxes@[4 * i + 1], width);
    lemma_scaled_exact(d.boxes@[4 * i + 2], height);
    lemma_scaled_exact(d.boxes@[4 * i + 3], width);
}

/// For `n` in `[0, UNIT]` the clamp of `scaled` never applies.
proof fn lemma_scaled_exact(n: u32, dim: u32)
    requires
        n <= UNIT,
    ensures
        scaled(n, dim) as int == (dim as int * n as int) / (UNIT as int),
{
    assert(dim as int * n as int <= dim as int * UNIT as int) by (nonlinear_arith)
        requires
            n <= UNIT,
    ;
    assert((dim as int * UNIT as int) / (UNIT as int) == dim as int) by (nonlinear_arith);
    assert((dim as int * n as int) / (UNIT as int) <= (dim as int * UNIT as int) / (UNIT as int)) by (nonlinear_arith)
        requires
            dim as int * n as int <= dim as int * UNIT as int,
    ;
}

/// A drawn detection carries a label exactly when its class id indexes the label
/// map; an out-of-range class id still yields an annotation, without a label.
pub proof fn lemma_labels_in_range(d: &Detections, threshold: u32, width: u32, height: u32, n_labels: nat)
    ensures
        forall|j: int|
            0 <= j < d.plan(threshold, width, height, n_labels).len() ==> {
                let a = #[trigger] d.plan(threshold, width, height, n_labels)[j];
                &&& a.label == class_label(d.classes@[a.index as int], n_labels)
                &&& (a.label matches Some(l) ==> l < n_labels)
                &&& (a.label is None <==> !(0 <= d.classes@[a.index as int] < n_labels))
            },
{
    lemma_plan_upto_members(d, d.valid_count(), threshold, width, height, n_labels);
}

/// Two outputs that agree on the detections below `k` agree on their annotations.
proof fn lemma_plan_upto_prefix(
    d1: &Detections,
    d2: &Detections,
    k: nat,
    threshold: u32,
    width: u32,
    height: u32,
    n_labels: nat,
)
    requires
        forall|j: int| 0 <= j < 4 * k ==> d1.boxes@[j] == d2.boxes@[j],
        forall|i: int| 0 <= i < k ==> d1.classes@[i] == d2.classes@[i] && d1.scores@[i] == d2.scores@[i],
    ensures
        d1.plan_upto(k, threshold, width, height, n_labels) == d2.plan_upto(k, threshold, width, height, n_labels),
    decreases k,
{
    if k > 0 {
        lemma_plan_upto_prefix(d1, d2, (k - 1) as nat, threshold, width, height, n_labels);
        let i = k - 1;
        assert(d1.boxes@[4 * i] == d2.boxes@[4 * i]);
        assert(d1.boxes@[4 * i + 1] == d2.boxes@[4 * i + 1]);
        assert(d1.boxes@[4 * i + 2] == d2.boxes@[4 * i + 2]);
        assert(d1.boxes@[4 * i + 3] == d2.boxes@[4 * i + 3]);
    }
}

/// Entries at or past `count` are never read: two outputs with the same count,
/// within both sets of arrays, that agree below it draw the same annotations.
pub proof fn lemma_plan_ignores_tail(
    d1: &Detections,
    d2: &Detections,
    threshold: u32,
    width: u32,
    height: u32,
    n_labels: nat,
)
    requires
        d1.count == d2.count,
        4 * d1.count <= d1.boxes@.len() && 4 * d2.count <= d2.boxes@.len(),
        d1.count <= d1.classes@.len() && d2.count <= d2.classes@.len(),
        d1.count <= d1.scores@.len() && d2.count <= d2.scores@.len(),
        forall|j: int| 0 <= j < 4 * d1.count ==> d1.boxes@[j] == d2.boxes@[j],
        forall|i: int| 0 <= i < d1.count ==> d1.classes@[i] == d2.classes@[i] && d1.scores@[i] == d2.scores@[i],
    ensures
        d1.plan(threshold, width, height, n_labels) == d2.plan(threshold, width, height, n_labels),
{
    assert(d1.valid_count() == d1.count);
    assert(d2.valid_count() == d2.count);
    lemma_plan_upto_prefix(d1, d2, d1.count as nat, threshold, width, height, n_labels);
}

} // verus!
