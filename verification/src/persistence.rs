//! User settings kept across sessions: saved locations and preferred units.
//!
//! Reading and writing the settings file is done by the front-ends; this
//! module holds the settings themselves and the rules for editing them.

use vstd::prelude::*;
use crate::text::{all_ascii, ascii_trim, eq_ignore_ascii_case, eq_ignore_ascii_case_spec, string_of, trim, trim_spec,
    trim_start_spec, trim_end_spec, white_space, ascii_lower_code};

verus! {

/// The units used when none are saved: "metric".
pub fn default_units() -> (r: String)
    ensures
        r@ == "metric"@,
{
    string_of("metric")
}

/// Whether `name` matches (ignoring ASCII case) one of `names`.
pub open spec fn has_location(names: Seq<Seq<char>>, name: Seq<char>) -> bool {
    exists|i: int| 0 <= i < names.len() && eq_ignore_ascii_case_spec(#[trigger] names[i], name)
}

/// Whether adding `name` to `names` adds it: its trimmed form is not empty
/// and not saved yet (ignoring ASCII case).
pub open spec fn adds_location(names: Seq<Seq<char>>, name: Seq<char>) -> bool {
    trim_spec(name).len() > 0 && !has_location(names, trim_spec(name))
}

/// The saved names after adding `name`.
pub open spec fn names_after_add(names: Seq<Seq<char>>, name: Seq<char>) -> Seq<Seq<char>> {
    if adds_location(names, name) { names.push(trim_spec(name)) } else { names }
}

/// The saved names after removing the one at `index` (none when out of range).
pub open spec fn names_after_remove(names: Seq<Seq<char>>, index: int) -> Seq<Seq<char>> {
    if 0 <= index < names.len() { names.remove(index) } else { names }
}

/// Whether a sequence has no white space at either end.
pub open spec fn is_trimmed(s: Seq<char>) -> bool {
    s.len() == 0 || (!white_space(s[0]) && !white_space(s.last()))
}

/// The saved names are all trimmed, non-empty and distinct ignoring ASCII case.
pub open spec fn names_well_formed(names: Seq<Seq<char>>) -> bool {
    &&& forall|i: int| 0 <= i < names.len() ==> (#[trigger] names[i]).len() > 0 && is_trimmed(names[i])
    &&& forall|i: int, j: int| 0 <= i < names.len() && 0 <= j < names.len() && i != j
        ==> !eq_ignore_ascii_case_spec(#[trigger] names[i], #[trigger] names[j])
}

/// User settings persisted across sessions.
#[derive(Debug, Clone)]
pub struct AppSettings {
    /// Preferred units: "metric", "imperial" or "standard".
    pub units: String,
    /// Saved location queries (city names), in user order.
    pub locations: Vec<String>,
}

impl AppSettings {
    /// The saved location names.
    pub open spec fn names(&self) -> Seq<Seq<char>> {
        self.locations@.map_values(|s: String| s@)
    }
}

impl Default for AppSettings {
    fn default() -> (r: Self)
        ensures
            r.units@ == "metric"@,
            r.locations@.len() == 0,
    {
        AppSettings { units: default_units(), locations: Vec::new() }
    }
}

/// A trimmed sequence has no white space at either end.
proof fn lemma_trim_start_front(s: Seq<char>)
    ensures
        trim_start_spec(s).len() == 0 || !white_space(trim_start_spec(s)[0]),
        trim_start_spec(s).len() <= s.len(),
    decreases s.len(),
{
    if s.len() > 0 && white_space(s[0]) {
        lemma_trim_start_front(s.drop_first());
    }
}

/// Dropping trailing white space keeps the front of a sequence.
proof fn lemma_trim_end_keeps_front(s: Seq<char>)
    ensures
        trim_end_spec(s).len() <= s.len(),
        trim_end_spec(s).len() > 0 ==> trim_end_spec(s)[0] == s[0],
        trim_end_spec(s).len() == 0 || !white_space(trim_end_spec(s).last()),
    decreases s.len(),
{
    if s.len() > 0 && white_space(s.last()) {
        lemma_trim_end_keeps_front(s.drop_last());
    }
}

/// The result of trimming is trimmed.
pub proof fn lemma_trim_is_trimmed(s: Seq<char>)
    ensures
        is_trimmed(trim_spec(s)),
{
    lemma_trim_start_front(s);
    lemma_trim_end_keeps_front(trim_start_spec(s));
}

/// Equality ignoring ASCII case is symmetric.
pub proof fn lemma_eq_ignore_case_symm(a: Seq<char>, b: Seq<char>)
    requires
        eq_ignore_ascii_case_spec(a, b),
    ensures
        eq_ignore_ascii_case_spec(b, a),
{
}

impl AppSettings {
    /// Adds a location, trimmed, unless it is empty or already saved
    /// (ignoring ASCII case). Returns `true` when it was newly added.
    pub fn add_location(&mut self, name: &str) -> (r: bool)
        ensures
            r == adds_location(old(self).names(), name@),
            final(self).names() == names_after_add(old(self).names(), name@),
            final(self).units == old(self).units,
            names_well_formed(old(self).names()) ==> names_well_formed(final(self).names()),
            all_ascii(name@) ==> trim_spec(name@) == ascii_trim(name@),
    {
        let t = trim(name);
        if t.unicode_len() == 0 {
            return false;
        }
        let n = self.locations.len();
        let mut i: usize = 0;
        while i < n
            invariant
                n == self.locations@.len(),
                i <= n,
                t@ == trim_spec(name@),
                all_ascii(name@) ==> trim_spec(name@) == ascii_trim(name@),
                forall|k: int| 0 <= k < i ==> !eq_ignore_ascii_case_spec(#[trigger] self.names()[k], t@),
            decreases n - i,
        {
            if eq_ignore_ascii_case(self.locations[i].as_str(), t) {
                assert(eq_ignore_ascii_case_spec(self.names()[i as int], t@));
                return false;
            }
            i = i + 1;
        }
        let ghost before = self.names();
        self.locations.push(string_of(t));
        proof {
            assert(self.names() =~= before.push(t@));
            lemma_trim_is_trimmed(name@);
            if names_well_formed(before) {
                let after = self.names();
                assert forall|a: int, b: int|
                    0 <= a < after.len() && 0 <= b < after.len() && a != b
                    implies !eq_ignore_ascii_case_spec(#[trigger] after[a], #[trigger] after[b]) by {
                    if b == before.len() {
                        assert(after[a] == before[a]);
                    } else if a == before.len() {
                        assert(after[b] == before[b]);
                        if eq_ignore_ascii_case_spec(after[a], after[b]) {
                            lemma_eq_ignore_case_symm(after[a], after[b]);
                        }
                    } else {
                        assert(after[a] == before[a]);
                        assert(after[b] == before[b]);
                    }
                }
                assert forall|a: int| 0 <= a < after.len()
                    implies (#[trigger] after[a]).len() > 0 && is_trimmed(after[a]) by {
                    if a < before.len() {
                        assert(after[a] == before[a]);
                    }
                }
            }
        }
        true
    }

    /// Removes the saved location at `index`, if present.
    pub fn remove_location(&mut self, index: usize)
        ensures
            final(self).names() == names_after_remove(old(self).names(), index as int),
            final(self).units == old(self).units,
            names_well_formed(old(self).names()) ==> names_well_formed(final(self).names()),
    {
        let ghost before = self.names();
        if index < self.locations.len() {
            self.locations.remove(index);
            proof {
                let after = self.names();
                assert(after =~= before.remove(index as int));
                if names_well_formed(before) {
                    assert forall|a: int, b: int|
                        0 <= a < after.len() && 0 <= b < after.len() && a != b
                        implies !eq_ignore_ascii_case_spec(#[trigger] after[a], #[trigger] after[b]) by {
                        let a0 = if a < index { a } else { a + 1 };
                        let b0 = if b < index { b } else { b + 1 };
                        assert(after[a] == before[a0]);
                        assert(after[b] == before[b0]);
                    }
                    assert forall|a: int| 0 <= a < after.len()
                        implies (#[trigger] after[a]).len() > 0 && is_trimmed(after[a]) by {
                        let a0 = if a < index { a } else { a + 1 };
                        assert(after[a] == before[a0]);
                    }
                }
            }
        }
    }
}

/// The settings read back from storage, or the defaults when nothing
/// could be read or parsed.
pub fn settings_or_default(parsed: Option<AppSettings>) -> (r: AppSettings)
    ensures
        parsed matches Some(p) ==> r == p,
        parsed is None ==> r.units@ == "metric"@ && r.locations@.len() == 0,
{
    match parsed {
        Some(p) => p,
        None => AppSettings::default(),
    }
}

} // verus!
