//! The timezone catalogue and resolver: enumerating candidate zone
//! identifiers from a walk of the system zone database, and loading a zone's
//! offset rules for a given identifier.

use vstd::prelude::*;

verus! {

/// `tzfile::Tz` holds a zone's parsed offset rules. The crate only carries
/// such a value around as an opaque handle; it never looks inside.
#[verifier::external_type_specification]
#[verifier::external_body]
pub struct ExTz(tzfile::Tz);

/// Relies on `String::push`: appends the given character to the end.
pub assume_specification[ String::push ](s: &mut String, ch: char)
    ensures
        final(s)@ == old(s)@.push(ch),
;

/// Relies on `tzfile::Tz::named`: reads and parses the zone-rule file for
/// `name` under the system zone database root. Whether it succeeds depends on
/// what is on disk, so nothing is promised of the outcome.
#[verifier::external_body]
fn named_zone(name: &str) -> Option<tzfile::Tz> {
    tzfile::Tz::named(name).ok()
}

/// Why an identifier could not be resolved to a zone.
#[derive(Debug, Clone)]
pub enum ResolutionError {
    /// No loadable zone data exists for this identifier, whether because it
    /// is malformed, absent from the database, or its data is corrupt.
    NotFound { identifier: String },
}

impl ResolutionError {
    /// The identifier whose resolution failed.
    pub open spec fn spec_identifier(&self) -> Seq<char> {
        match self {
            ResolutionError::NotFound { identifier } => identifier@,
        }
    }

    /// The human-readable diagnosis carried by this error.
    pub open spec fn spec_message(&self) -> Seq<char> {
        "Couldn't load timezone "@ + self.spec_identifier()
    }

    pub fn message(&self) -> (r: String)
        ensures
            r@ == self.spec_message(),
    {
        match self {
            ResolutionError::NotFound { identifier } => {
                String::from_str("Couldn't load timezone ").concat(identifier.as_str())
            },
        }
    }
}

/// A successfully resolved entry: the identifier and display name it was
/// validated from, and the loaded zone rules.
#[derive(Debug)]
pub struct ValidTz {
    pub name: String,
    pub display_name: String,
    pub tz: tzfile::Tz,
}

impl ValidTz {
    /// Resolves `name` against the system zone database. Both strings are
    /// preserved verbatim in the result, whichever way resolution goes;
    /// whether it succeeds depends on the database alone.
    pub fn from_names(name: &str, display_name: &str) -> (r: Result<ValidTz, ResolutionError>)
        ensures
            match r {
                Ok(v) => v.name@ == name@ && v.display_name@ == display_name@,
                Err(e) => e.spec_identifier() == name@,
            },
    {
        match named_zone(name) {
            Some(rules) => Ok(
                ValidTz { name: name.to_owned(), display_name: display_name.to_owned(), tz: rules },
            ),
            None => Err(ResolutionError::NotFound { identifier: name.to_owned() }),
        }
    }
}

/// `_` shown as a space; every other character kept.
pub open spec fn space_for_underscore(c: char) -> char {
    if c == '_' {
        ' '
    } else {
        c
    }
}

pub open spec fn underscores_to_spaces(s: Seq<char>) -> Seq<char> {
    s.map_values(|c: char| space_for_underscore(c))
}

/// Index where the last `/`-separated segment of `s` begins: just after the
/// last slash, or 0 when `s` holds no slash.
pub open spec fn segment_start(s: Seq<char>) -> int
    decreases s.len(),
{
    if s.len() == 0 {
        0
    } else if s[s.len() - 1] == '/' {
        s.len() as int
    } else {
        segment_start(s.drop_last())
    }
}

proof fn lemma_segment_start_unique(s: Seq<char>, k: int)
    requires
        0 <= k <= s.len(),
        forall|j: int| k <= j < s.len() ==> s[j] != '/',
        k == 0 || s[k - 1] == '/',
    ensures
        k == segment_start(s),
    decreases s.len(),
{
    if s.len() == 0 {
    } else if s[s.len() - 1] == '/' {
        assert(k == s.len());
    } else {
        assert(k < s.len());
        assert(forall|j: int| 0 <= j < s.len() - 1 ==> s[j] == s.drop_last()[j]);
        lemma_segment_start_unique(s.drop_last(), k);
    }
}

/// The display name derived from an identifier: its last path segment, with
/// underscores replaced by spaces.
pub open spec fn derived_display(name: Seq<char>) -> Seq<char> {
    underscores_to_spaces(name.subrange(segment_start(name), name.len() as int))
}

/// Derives the default display name for a freshly chosen identifier
/// (`America/New_York` becomes `New York`).
pub fn derived_display_name(name: &str) -> (r: String)
    ensures
        r@ == derived_display(name@),
{
    let n = name.unicode_len();
    let mut start: usize = n;
    while start > 0 && name.get_char(start - 1) != '/'
        invariant
            0 <= start <= n,
            n == name@.len(),
            forall|k: int| start <= k < n ==> name@[k] != '/',
        decreases start,
    {
        start = start - 1;
    }
    proof {
        lemma_segment_start_unique(name@, start as int);
    }
    let mut r = String::new();
    let mut i: usize = start;
    while i < n
        invariant
            start <= i <= n,
            n == name@.len(),
            start == segment_start(name@),
            r@ == underscores_to_spaces(name@.subrange(start as int, i as int)),
        decreases n - i,
    {
        let c = name.get_char(i);
        if c == '_' {
            r.push(' ');
        } else {
            r.push(c);
        }
        proof {
            assert(underscores_to_spaces(name@.subrange(start as int, i + 1 as int)) =~= r@);
        }
        i = i + 1;
    }
    proof {
        assert(name@.subrange(start as int, n as int) == name@.subrange(
            segment_start(name@),
            name@.len() as int,
        ));
    }
    r
}

/// One entry met while walking the zone database root: its path relative to
/// the root (`Europe/London`) and whether it is a regular file. The walk
/// itself is I/O and stays outside this crate; an unreadable root simply
/// yields no entries.
#[derive(Debug, Clone)]
pub struct WalkEntry {
    pub rel_path: String,
    pub is_file: bool,
}

pub open spec fn is_upper_ascii(c: char) -> bool {
    'A' <= c && c <= 'Z'
}

/// Every `/`-separated component of `s` is nonempty and begins with an
/// uppercase ASCII letter. Canonical zone names are capitalized; this
/// excludes convenience symlinks and the lowercase aggregate subtrees such as
/// `posix` and `right`, at every level of the walk.
pub open spec fn all_components_canonical(s: Seq<char>) -> bool {
    &&& s.len() > 0
    &&& is_upper_ascii(s[0])
    &&& forall|i: int|
        0 <= i < s.len() && #[trigger] s[i] == '/' ==> i + 1 < s.len() && is_upper_ascii(s[i + 1])
}

/// A walk entry that names a candidate timezone identifier.
pub open spec fn is_candidate(e: WalkEntry) -> bool {
    e.is_file && all_components_canonical(e.rel_path@)
}

/// The candidate identifiers a walk yields, in walk order.
pub open spec fn candidate_paths(s: Seq<WalkEntry>) -> Seq<Seq<char>>
    decreases s.len(),
{
    if s.len() == 0 {
        Seq::empty()
    } else if is_candidate(s.last()) {
        candidate_paths(s.drop_last()).push(s.last().rel_path@)
    } else {
        candidate_paths(s.drop_last())
    }
}

/// Decides whether a relative path is made of canonical components only.
pub fn is_canonical_path(s: &str) -> (r: bool)
    ensures
        r == all_components_canonical(s@),
{
    let n = s.unicode_len();
    if n == 0 {
        return false;
    }
    let c0 = s.get_char(0);
    if !('A' <= c0 && c0 <= 'Z') {
        return false;
    }
    let mut i: usize = 0;
    while i < n
        invariant
            0 <= i <= n,
            n == s@.len(),
            s@.len() > 0 && is_upper_ascii(s@[0]),
            forall|j: int|
                0 <= j < i && #[trigger] s@[j] == '/' ==> j + 1 < n && is_upper_ascii(s@[j + 1]),
        decreases n - i,
    {
        if s.get_char(i) == '/' {
            if i + 1 >= n {
                return false;
            }
            let c = s.get_char(i + 1);
            if !('A' <= c && c <= 'Z') {
                return false;
            }
        }
        i = i + 1;
    }
    true
}

/// Filters a walk of the zone database root down to the candidate timezone
/// identifiers, in walk order. Whether each candidate actually parses as zone
/// data is not checked here: that is the resolver's job.
pub fn list_candidates(entries: &Vec<WalkEntry>) -> (r: Vec<String>)
    ensures
        r@.map_values(|p: String| p@) == candidate_paths(entries@),
{
    let mut r: Vec<String> = Vec::new();
    let mut i: usize = 0;
    while i < entries.len()
        invariant
            0 <= i <= entries@.len(),
            r@.map_values(|p: String| p@) == candidate_paths(entries@.take(i as int)),
        decreases entries@.len() - i,
    {
        let e = &entries[i];
        if e.is_file && is_canonical_path(e.rel_path.as_str()) {
            r.push(e.rel_path.clone());
        }
        proof {
            let t = entries@.take(i + 1 as int);
            assert(t.drop_last() =~= entries@.take(i as int));
            assert(t.last() == entries@[i as int]);
            assert(r@.map_values(|p: String| p@) =~= candidate_paths(t));
        }
        i = i + 1;
    }
    proof {
        assert(entries@.take(entries@.len() as int) =~= entries@);
    }
    r
}

} // verus!
