use vstd::prelude::*;

verus! {

/// Why the executable behind the foreground window could not be named.
#[derive(Clone, Copy, Debug, PartialEq, Eq, Structural)]
pub enum WindowError {
    /// No window holds the input focus.
    NoForegroundWindow,
    /// The focused window reported no owning thread or process.
    ProcessIdUnavailable,
    /// The owning process could not be opened, or its image name not read.
    ProcessQueryFailed,
}

/// What `str::to_lowercase` returns for a string.
pub uninterp spec fn lower_of(s: Seq<char>) -> Seq<char>;

/// What `String::from_utf16_lossy` returns for a sequence of UTF-16 units.
pub uninterp spec fn utf16_lossy_of(units: Seq<u16>) -> Seq<char>;

/// Relies on `str::to_lowercase`: the lowercase form depends on the
/// characters alone.
#[verifier::external_body]
fn lowercase(s: &str) -> (r: String)
    ensures
        r@ == lower_of(s@),
{
    s.to_lowercase()
}

/// Relies on `String::from_utf16_lossy`: decodes the units, replacing each
/// invalid one by U+FFFD; the result depends on the units alone.
#[verifier::external_body]
fn decode_utf16_lossy(units: &[u16]) -> (r: String)
    ensures
        r@ == utf16_lossy_of(units@),
{
    String::from_utf16_lossy(units)
}

/// `name` is, case-insensitively, one of `targets`.
pub open spec fn folded_member(targets: Seq<String>, name: Seq<char>) -> bool {
    exists|i: int| 0 <= i < targets.len() && #[trigger] lower_of(targets[i]@) == lower_of(name)
}

/// Whether the inspector's answer `active` puts the foreground window in scope
/// for the allow-list `targets`: an empty list admits every window, and a
/// failed inspection admits none.
pub open spec fn selects(targets: Seq<String>, active: Result<String, WindowError>) -> bool {
    targets.len() == 0 || (active is Ok && folded_member(targets, active->Ok_0@))
}

/// `first` is the first NUL in `units`, or its length if there is none.
pub open spec fn is_nul_end(units: Seq<u16>, first: int) -> bool {
    &&& 0 <= first <= units.len()
    &&& forall|j: int| 0 <= j < first ==> units[j] != 0
    &&& first < units.len() ==> units[first] == 0
}

/// `name` is what follows the last backslash of `path` (all of it, if it
/// holds none).
pub open spec fn is_file_name_of(path: Seq<char>, name: Seq<char>) -> bool {
    &&& name.len() <= path.len()
    &&& name == path.subrange(path.len() - name.len(), path.len() as int)
    &&& !name.contains('\\')
    &&& name.len() < path.len() ==> path[path.len() - name.len() - 1] == '\\'
}

/// Number of units before the first NUL of a zero-terminated buffer.
pub fn nul_terminated_len(units: &[u16]) -> (r: usize)
    ensures
        is_nul_end(units@, r as int),
{
    let mut i: usize = 0;
    while i < units.len()
        invariant
            0 <= i <= units@.len(),
            forall|j: int| 0 <= j < i ==> units@[j] != 0,
        decreases units@.len() - i,
    {
        if units[i] == 0 {
            return i;
        }
        i = i + 1;
    }
    i
}

/// The last component of a backslash-separated path.
pub fn file_name(path: &str) -> (r: String)
    ensures
        is_file_name_of(path@, r@),
{
    let n = path.unicode_len();
    let mut start: usize = n;
    while start > 0 && path.get_char(start - 1) != '\\'
        invariant
            n == path@.len(),
            0 <= start <= n,
            forall|j: int| start <= j < n ==> path@[j] != '\\',
        decreases start,
    {
        start = start - 1;
    }
    let name = path.substring_char(start, n);
    proof {
        let s = name@;
        assert(s =~= path@.subrange(start as int, n as int));
        assert(!s.contains('\\')) by {
            if s.contains('\\') {
                let k = choose|k: int| 0 <= k < s.len() && s[k] == '\\';
                assert(path@[start + k] == '\\');
            }
        }
    }
    String::from_str(name)
}

/// The executable name held by a zero-terminated UTF-16 buffer that names a
/// module's full path.
pub fn exe_name_from_wide(buffer: &[u16]) -> (r: String)
    ensures
        exists|end: int|
            is_nul_end(buffer@, end) && is_file_name_of(
                utf16_lossy_of(buffer@.subrange(0, end)),
                r@,
            ),
{
    let end = nul_terminated_len(buffer);
    let mut prefix: Vec<u16> = Vec::new();
    let mut i: usize = 0;
    while i < end
        invariant
            is_nul_end(buffer@, end as int),
            0 <= i <= end,
            prefix@ =~= buffer@.subrange(0, i as int),
        decreases end - i,
    {
        prefix.push(buffer[i]);
        i = i + 1;
    }
    let path = decode_utf16_lossy(prefix.as_slice());
    let r = file_name(path.as_str());
    assert(is_nul_end(buffer@, end as int));
    r
}

/// Whether `name` matches one of `targets` once both sides are lowercased;
/// `folded_targets` and `folded_name` are those lowercase forms.
pub fn contains_folded(folded_targets: &Vec<String>, folded_name: &String) -> (r: bool)
    ensures
        r == exists|i: int|
            0 <= i < folded_targets@.len() && #[trigger] folded_targets@[i]@ == folded_name@,
{
    let mut i: usize = 0;
    while i < folded_targets.len()
        invariant
            0 <= i <= folded_targets@.len(),
            forall|j: int| 0 <= j < i ==> #[trigger] folded_targets@[j]@ != folded_name@,
        decreases folded_targets@.len() - i,
    {
        if folded_targets[i] == *folded_name {
            return true;
        }
        i = i + 1;
    }
    false
}

/// Decides whether the foreground window is in scope for saving.
pub struct WindowMonitor;

impl WindowMonitor {
    pub fn new() -> (r: WindowMonitor) {
        WindowMonitor
    }

    /// Whether the foreground window, as the inspector reported it in
    /// `active`, is one of `target_apps`, compared case-insensitively. An
    /// empty list matches every window; an inspection failure matches none.
    pub fn is_target_app(&self, target_apps: &[String], active: Result<String, WindowError>) -> (r: bool)
        ensures
            r == selects(target_apps@, active),
    {
        if target_apps.len() == 0 {
            return true;
        }
        match active {
            Ok(exe_name) => {
                let exe_lower = lowercase(exe_name.as_str());
                let mut folded: Vec<String> = Vec::new();
                let mut i: usize = 0;
                while i < target_apps.len()
                    invariant
                        0 <= i <= target_apps@.len(),
                        folded@.len() == i,
                        forall|j: int| 0 <= j < i ==> #[trigger] folded@[j]@ == lower_of(target_apps@[j]@),
                    decreases target_apps@.len() - i,
                {
                    folded.push(lowercase(target_apps[i].as_str()));
                    i = i + 1;
                }
                let r = contains_folded(&folded, &exe_lower);
                proof {
                    if r {
                        let k = choose|k: int| 0 <= k < folded@.len() && #[trigger] folded@[k]@ == exe_lower@;
                        assert(lower_of(target_apps@[k]@) == lower_of(exe_name@));
                    }
                    if folded_member(target_apps@, exe_name@) {
                        let k = choose|k: int| 0 <= k < target_apps@.len() && #[trigger] lower_of(target_apps@[k]@) == lower_of(exe_name@);
                        assert(folded@[k]@ == exe_lower@);
                    }
                }
                r
            },
            Err(_) => false,
        }
    }
}

/// Matching is case-insensitive: two allow-lists whose entries agree
/// pairwise once lowercased, and two inspector answers that agree in kind
/// and, when they name a window, once lowercased, get the same verdict.
pub proof fn lemma_selects_ignores_case(
    targets_a: Seq<String>,
    targets_b: Seq<String>,
    active_a: Result<String, WindowError>,
    active_b: Result<String, WindowError>,
)
    requires
        targets_a.len() == targets_b.len(),
        forall|i: int| 0 <= i < targets_a.len() ==> lower_of(#[trigger] targets_a[i]@) == lower_of(targets_b[i]@),
        active_a is Ok <==> active_b is Ok,
        active_a is Ok ==> lower_of(active_a->Ok_0@) == lower_of(active_b->Ok_0@),
    ensures
        selects(targets_a, active_a) == selects(targets_b, active_b),
{
    if active_a is Ok && folded_member(targets_a, active_a->Ok_0@) {
        let k = choose|k: int| 0 <= k < targets_a.len() && #[trigger] lower_of(targets_a[k]@) == lower_of(active_a->Ok_0@);
        assert(lower_of(targets_b[k]@) == lower_of(active_b->Ok_0@));
    }
    if active_b is Ok && folded_member(targets_b, active_b->Ok_0@) {
        let k = choose|k: int| 0 <= k < targets_b.len() && #[trigger] lower_of(targets_b[k]@) == lower_of(active_b->Ok_0@);
        assert(lower_of(targets_a[k]@) == lower_of(active_a->Ok_0@));
    }
}

/// An empty allow-list admits the foreground window whatever the inspector
/// reported.
pub proof fn lemma_empty_list_selects_all(targets: Seq<String>, active: Result<String, WindowError>)
    requires
        targets.len() == 0,
    ensures
        selects(targets, active),
{
}

} // verus!
