//! Translation of raw change notifications into root-relative actions.
use crate::action::{ActionView, CompressorAction};
use vstd::prelude::*;
use vstd::string::StrSliceExecFns;

verus! {

/// A raw change notification. Its paths are as the event source gave them.
#[derive(Debug, PartialEq, Eq)]
pub enum RawEvent {
    Created(String),
    Removed(String),
    Renamed(String, String),
    /// Any other kind of change (metadata, rescans, ...).
    Other,
}

/// Why a raw event could not be turned into an action.
#[derive(Debug, Clone, Copy, PartialEq, Eq, Structural)]
pub enum TranslateError {
    /// A path of the event has no form relative to the watched root that
    /// stays below the root.
    InvalidPath,
}

/// What `pathdiff::diff_paths(path, base)` returns for the two paths, each
/// taken as text, on the platform the library is built for.
pub uninterp spec fn diff_paths_result(path: Seq<char>, base: Seq<char>) -> Option<Seq<char>>;

/// Value of an optional string.
pub open spec fn text_of(s: Option<String>) -> Option<Seq<char>> {
    match s {
        Some(t) => Some(t@),
        None => None,
    }
}

/// Calls `pathdiff::diff_paths`. The contract only names the result: the
/// relative path that the outside function builds from the components of
/// `path` and `base`, or `None` where it gives none. Nothing else is claimed.
#[verifier::external_body]
fn diff_paths(path: &str, base: &str) -> (res: Option<String>)
    ensures
        text_of(res) == diff_paths_result(path@, base@),
{
    match pathdiff::diff_paths(path, base) {
        Some(p) => p.into_os_string().into_string().ok(),
        None => None,
    }
}

/// Index of the first separator `/` at or after `from`, or the end of `s`.
pub open spec fn component_end(s: Seq<char>, from: int) -> int
    decreases s.len() - from,
{
    if from < 0 || from >= s.len() || s[from] == '/' {
        from
    } else {
        component_end(s, from + 1)
    }
}

/// The component `s[from..end]` is `..`.
pub open spec fn is_parent_component(s: Seq<char>, from: int, end: int) -> bool {
    end - from == 2 && s[from] == '.' && s[from + 1] == '.'
}

/// The component `s[from..end]` is empty or `.`: it names no step.
pub open spec fn is_idle_component(s: Seq<char>, from: int, end: int) -> bool {
    end == from || (end - from == 1 && s[from] == '.')
}

/// Walking the components of `s` from index `from`, starting `depth` levels
/// below the root, some `..` steps above the root.
pub open spec fn climbs_out(s: Seq<char>, from: int, depth: nat) -> bool
    decreases s.len() - from,
{
    if from < 0 || from >= s.len() {
        false
    } else {
        let end = component_end(s, from);
        let next = if from <= end < s.len() {
            end + 1
        } else {
            s.len() as int
        };
        if is_parent_component(s, from, end) {
            depth == 0 || climbs_out(s, next, (depth - 1) as nat)
        } else if is_idle_component(s, from, end) {
            climbs_out(s, next, depth)
        } else {
            climbs_out(s, next, depth + 1)
        }
    }
}

/// A relative path stays inside the root: it is not absolute, and no prefix
/// of its components holds more `..` than names.
pub open spec fn stays_inside(rel: Seq<char>) -> bool {
    !(rel.len() > 0 && rel[0] == '/') && !climbs_out(rel, 0, 0)
}

proof fn lemma_component_end_bounds(s: Seq<char>, from: int)
    requires
        0 <= from <= s.len(),
    ensures
        from <= component_end(s, from) <= s.len(),
        component_end(s, from) < s.len() ==> s[component_end(s, from)] == '/',
        forall|k: int| from <= k < component_end(s, from) ==> s[k] != '/',
    decreases s.len() - from,
{
    if from < s.len() && s[from] != '/' {
        lemma_component_end_bounds(s, from + 1);
    }
}

/// Tells whether a relative path stays inside the root it is relative to.
pub fn is_inside(rel: &str) -> (inside: bool)
    ensures
        inside == stays_inside(rel@),
{
    let n: usize = rel.unicode_len();
    if n > 0 && rel.get_char(0) == '/' {
        return false;
    }
    let mut i: usize = 0;
    let mut depth: usize = 0;
    while i < n
        invariant
            n == rel@.len(),
            depth <= i <= n,
            climbs_out(rel@, 0, 0) == climbs_out(rel@, i as int, depth as nat),
        decreases n - i,
    {
        let mut j: usize = i;
        while j < n && rel.get_char(j) != '/'
            invariant
                n == rel@.len(),
                i <= j <= n,
                component_end(rel@, i as int) == component_end(rel@, j as int),
            decreases n - j,
        {
            j = j + 1;
        }
        proof {
            lemma_component_end_bounds(rel@, i as int);
        }
        let parent = j - i == 2 && rel.get_char(i) == '.' && rel.get_char(i + 1) == '.';
        let idle = j == i || (j - i == 1 && rel.get_char(i) == '.');
        let next: usize = if j < n {
            j + 1
        } else {
            n
        };
        if parent {
            if depth == 0 {
                return false;
            }
            depth = depth - 1;
        } else if !idle {
            depth = depth + 1;
        }
        i = next;
    }
    true
}

/// The root-relative form of `path`: what `diff_paths` gives, where it gives
/// a path that stays inside the root.
pub open spec fn accepted_relative(rel: Option<Seq<char>>) -> Result<Seq<char>, TranslateError> {
    match rel {
        Some(r) => if stays_inside(r) {
            Ok(r)
        } else {
            Err(TranslateError::InvalidPath)
        },
        None => Err(TranslateError::InvalidPath),
    }
}

/// Value of the outcome of [`accept_relative`] and [`relativize`].
pub open spec fn text_or_error(r: Result<String, TranslateError>) -> Result<
    Seq<char>,
    TranslateError,
> {
    match r {
        Ok(s) => Ok(s@),
        Err(e) => Err(e),
    }
}

/// Decides on a candidate relative path: it is kept exactly when there is one
/// and it stays inside the root; every other candidate is an invalid path.
pub fn accept_relative(rel: Option<String>) -> (res: Result<String, TranslateError>)
    ensures
        text_or_error(res) == accepted_relative(text_of(rel)),
{
    match rel {
        Some(r) => {
            if is_inside(r.as_str()) {
                Ok(r)
            } else {
                Err(TranslateError::InvalidPath)
            }
        },
        None => Err(TranslateError::InvalidPath),
    }
}

/// Makes `path` relative to the watched `root`.
pub fn relativize(path: &str, root: &str) -> (res: Result<String, TranslateError>)
    ensures
        text_or_error(res) == accepted_relative(diff_paths_result(path@, root@)),
{
    accept_relative(diff_paths(path, root))
}

/// The action that a raw event stands for under the watched root `root`:
/// none for an event of another kind, an error where one of its paths does
/// not stay inside the root. For a rename the origin is looked at first.
pub open spec fn translation(event: RawEvent, root: Seq<char>) -> Result<
    Option<ActionView>,
    TranslateError,
> {
    match event {
        RawEvent::Created(p) => match accepted_relative(diff_paths_result(p@, root)) {
            Ok(r) => Ok(Some(ActionView::Create(r))),
            Err(e) => Err(e),
        },
        RawEvent::Removed(p) => match accepted_relative(diff_paths_result(p@, root)) {
            Ok(r) => Ok(Some(ActionView::Remove(r))),
            Err(e) => Err(e),
        },
        RawEvent::Renamed(from, to) => match accepted_relative(diff_paths_result(from@, root)) {
            Ok(f) => match accepted_relative(diff_paths_result(to@, root)) {
                Ok(t) => Ok(Some(ActionView::Rename(f, t))),
                Err(e) => Err(e),
            },
            Err(e) => Err(e),
        },
        RawEvent::Other => Ok(None),
    }
}

/// Every path of the action stays inside the root it is relative to.
pub open spec fn root_relative(action: ActionView) -> bool {
    match action {
        ActionView::Create(p) => stays_inside(p),
        ActionView::Remove(p) => stays_inside(p),
        ActionView::Rename(from, to) => stays_inside(from) && stays_inside(to),
    }
}

/// No translation yields an action with a path that leaves the root: such
/// an event is an error, and an error carries no action.
pub proof fn lemma_translation_is_root_relative(event: RawEvent, root: Seq<char>)
    ensures
        translation(event, root) matches Ok(Some(action)) ==> root_relative(action),
{
}

/// Value of the outcome of [`translate`].
pub open spec fn action_or_error(r: Result<Option<CompressorAction>, TranslateError>) -> Result<
    Option<ActionView>,
    TranslateError,
> {
    match r {
        Ok(Some(a)) => Ok(Some(a@)),
        Ok(None) => Ok(None),
        Err(e) => Err(e),
    }
}

/// Turns one raw event into at most one action with root-relative paths.
pub fn translate(event: &RawEvent, root: &str) -> (res: Result<
    Option<CompressorAction>,
    TranslateError,
>)
    ensures
        action_or_error(res) == translation(*event, root@),
        res matches Ok(Some(action)) ==> root_relative(action@),
{
    match event {
        RawEvent::Created(p) => match relativize(p.as_str(), root) {
            Ok(r) => Ok(Some(CompressorAction::Create(r))),
            Err(e) => Err(e),
        },
        RawEvent::Removed(p) => match relativize(p.as_str(), root) {
            Ok(r) => Ok(Some(CompressorAction::Remove(r))),
            Err(e) => Err(e),
        },
        RawEvent::Renamed(from, to) => match relativize(from.as_str(), root) {
            Ok(f) => match relativize(to.as_str(), root) {
                Ok(t) => Ok(Some(CompressorAction::Rename(f, t))),
                Err(e) => Err(e),
            },
            Err(e) => Err(e),
        },
        RawEvent::Other => Ok(None),
    }
}

} // verus!
