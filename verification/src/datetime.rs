//! A timestamp kept as a glorified string, captured from the local
//! clock at creation. Substrings of it give the date and the
//! date-with-minutes views, and a comparator of its own orders two
//! timestamps character by character.

use vstd::prelude::*;
use vstd::string::{StrSliceExecFns, StringExecFns};
use core::cmp::Ordering;

verus! {

/// A point in time, stored as the formatted local-clock string
/// `"YYYY-MM-DD HH:MM:SS.fraction +offset"`.
pub struct DateTime(pub String);

/// Relies on chrono's `Local::now` and the `Display` of its result,
/// which always writes a date of at least 10 characters, a space, a
/// time of at least 8 characters, a space, and a numeric offset — so
/// the string is never shorter than 19 characters.
#[verifier::external_body]
fn local_now_string() -> (r: String)
    ensures
        r@.len() >= 19,
{
    chrono::Local::now().to_string()
}

/// One character strictly above another, by code point.
pub open spec fn char_gt(a: char, b: char) -> bool {
    a as u32 > b as u32
}

impl DateTime {
    /// A timestamp is long enough to carry at least the date and the
    /// minutes: 16 characters or more.
    pub open spec fn wf(self) -> bool {
        self.0@.len() >= 16
    }

    /// The ordering this comparator assigns to two strings: `Greater`
    /// as soon as any aligned character of `a` exceeds the one of `b`
    /// (wherever in the common prefix it stands); failing that, the
    /// longer string is the greater, and only equal lengths compare
    /// `Equal`.
    pub open spec fn spec_compare(a: Seq<char>, b: Seq<char>) -> Ordering {
        let shortest = if a.len() < b.len() { a.len() } else { b.len() };
        if exists|i: int| 0 <= i < shortest && char_gt(a[i], b[i]) {
            Ordering::Greater
        } else if a.len() > b.len() {
            Ordering::Greater
        } else if b.len() > a.len() {
            Ordering::Less
        } else {
            Ordering::Equal
        }
    }

    /// Captures the local clock as a fresh timestamp.
    pub fn new() -> (d: DateTime)
        ensures
            d.0@.len() >= 19,
            d.wf(),
    {
        DateTime(local_now_string())
    }

    /// The date view: the first 10 characters, `"YYYY-MM-DD"`.
    pub fn get_date(&self) -> (r: String)
        requires
            self.0@.len() >= 10,
        ensures
            r@ == self.0@.subrange(0, 10),
    {
        let s = self.0.as_str();
        String::from_str(s.substring_char(0, 10))
    }

    /// The date-and-minutes view: the first 16 characters,
    /// `"YYYY-MM-DD HH:MM"`.
    pub fn get_time(&self) -> (r: String)
        requires
            self.0@.len() >= 16,
        ensures
            r@ == self.0@.subrange(0, 16),
    {
        let s = self.0.as_str();
        String::from_str(s.substring_char(0, 16))
    }

    /// Orders two timestamps as `spec_compare` says: a scan of the
    /// common prefix answers `Greater` at the first character of `self`
    /// that exceeds the one of `other`; otherwise the lengths decide.
    pub fn compare(&self, other: &DateTime) -> (r: Ordering)
        ensures
            r == DateTime::spec_compare(self.0@, other.0@),
    {
        let a = self.0.as_str();
        let b = other.0.as_str();
        let a_len = a.unicode_len();
        let b_len = b.unicode_len();
        let shortest: usize = if a_len < b_len { a_len } else { b_len };
        let mut x: usize = 0;
        while x < shortest
            invariant
                shortest <= a@.len(),
                shortest <= b@.len(),
                shortest == if a@.len() < b@.len() { a@.len() } else { b@.len() },
                x <= shortest,
                a@ == self.0@,
                b@ == other.0@,
                forall|j: int| 0 <= j < x ==> !char_gt(a@[j], b@[j]),
            decreases shortest - x,
        {
            let c1 = a.get_char(x);
            let c2 = b.get_char(x);
            if c1 as u32 > c2 as u32 {
                return Ordering::Greater;
            }
            x += 1;
        }
        if a_len > b_len {
            Ordering::Greater
        } else if b_len > a_len {
            Ordering::Less
        } else {
            Ordering::Equal
        }
    }
}

} // verus!
