//! The label map: class names indexed by the detector's class id.
use crate::boxes::{class_label, Annotation};
use vstd::prelude::*;

verus! {

/// Index of the first `\n` at or after `i`, or the length of `t` when there is none.
pub open spec fn newline_from(t: Seq<char>, i: int) -> int
    decreases t.len() - i,
{
    if i < 0 || i >= t.len() {
        t.len() as int
    } else if t[i] == '\n' {
        i
    } else {
        newline_from(t, i + 1)
    }
}

/// The lines of a text: split after each `\n`, which is dropped together with a
/// `\r` just before it; a final line without `\n` is kept as it is, and an empty
/// text has no lines.
pub open spec fn lines_of(t: Seq<char>) -> Seq<Seq<char>>
    decreases t.len(),
{
    if t.len() == 0 {
        Seq::empty()
    } else {
        let e = newline_from(t, 0);
        if 0 <= e < t.len() {
            let line = t.subrange(0, e);
            let line = if line.len() > 0 && line.last() == '\r' { line.drop_last() } else { line };
            seq![line] + lines_of(t.subrange(e + 1, t.len() as int))
        } else {
            seq![t]
        }
    }
}

/// Relies on str::lines: splits at `\n`, drops a `\r` just before each `\n`,
/// keeps a final line without `\n`, and yields no line for an empty text.
#[verifier::external_body]
fn split_lines(text: &str) -> (r: Vec<String>)
    ensures
        r@.map_values(|s: String| s@) == lines_of(text@),
{
    text.lines().map(String::from).collect()
}

/// Text drawn for a detection whose class id lies outside the label map.
pub open spec fn unknown_label() -> Seq<char> {
    "unknown"@
}

/// Ordered class names; line `i` of the label file names class `i`.
pub struct LabelMap {
    names: Vec<String>,
}

impl View for LabelMap {
    type V = Seq<Seq<char>>;

    closed spec fn view(&self) -> Seq<Seq<char>> {
        self.names@.map_values(|s: String| s@)
    }
}

/// The text drawn beside a box whose label index is `label`.
pub open spec fn label_text_of(names: Seq<Seq<char>>, label: Option<usize>) -> Seq<char> {
    match label {
        Some(l) => if l < names.len() { names[l as int] } else { unknown_label() },
        None => unknown_label(),
    }
}

impl LabelMap {
    /// Reads a label map from newline-delimited text, one class name per line.
    pub fn from_text(text: &str) -> (r: LabelMap)
        ensures
            r@ == lines_of(text@),
    {
        LabelMap { names: split_lines(text) }
    }

    /// A label map of the given names, in order.
    pub fn from_names(names: Vec<String>) -> (r: LabelMap)
        ensures
            r@ == names@.map_values(|s: String| s@),
    {
        LabelMap { names }
    }

    /// Number of class names.
    pub fn len(&self) -> (r: usize)
        ensures
            r == self@.len(),
    {
        self.names.len()
    }

    /// The name of a class id, or `None` when the id lies outside the map.
    pub fn name(&self, class: i64) -> (r: Option<&String>)
        ensures
            r is None <==> class_label(class, self@.len()) is None,
            r matches Some(s) ==> s@ == self@[class as int],
    {
        if 0 <= class && (class as u64) < (self.names.len() as u64) {
            Some(&self.names[class as usize])
        } else {
            None
        }
    }

    /// The text to draw beside an annotated box: its class name, or `unknown`.
    pub fn label_text(&self, a: &Annotation) -> (r: String)
        ensures
            r@ == label_text_of(self@, a.label),
    {
        match a.label {
            Some(l) => {
                if l < self.names.len() {
                    self.names[l].clone()
                } else {
                    "unknown".to_owned()
                }
            },
            None => "unknown".to_owned(),
        }
    }
}

} // verus!
