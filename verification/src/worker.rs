//! What one target does with an action: the step on its own mirror tree.
//!
//! The worker decides; whoever runs it reads, encodes, writes, deletes and
//! moves. A step names full paths, so that carrying it out needs no further
//! knowledge of the target.
use crate::action::{ActionView, CompressorAction};
use crate::relative::text_of;
use vstd::prelude::*;

verus! {

/// What `std::path::Path::join` gives for `base` and `rel`, each taken as
/// text, on the platform the library is built for.
pub uninterp spec fn joined_path(base: Seq<char>, rel: Seq<char>) -> Seq<char>;

/// What `std::path::Path::parent` gives for `path`, taken as text, on the
/// platform the library is built for.
pub uninterp spec fn parent_path(path: Seq<char>) -> Option<Seq<char>>;

/// Calls `std::path::Path::join`. The contract only names the result.
#[verifier::external_body]
fn join_path(base: &str, rel: &str) -> (res: String)
    ensures
        res@ == joined_path(base@, rel@),
{
    std::path::Path::new(base).join(rel).to_string_lossy().into_owned()
}

/// Calls `std::path::Path::parent`. The contract only names the result:
/// the path without its last component, or `None` where the path ends in a
/// root or is empty.
#[verifier::external_body]
fn parent_of(path: &str) -> (res: Option<String>)
    ensures
        text_of(res) == parent_path(path@),
{
    match std::path::Path::new(path).parent() {
        Some(d) => Some(d.to_string_lossy().into_owned()),
        None => None,
    }
}

/// The compression profile of a target: the quality that its encoder is
/// called with.
#[derive(Debug, Clone, Copy, PartialEq, Eq, Structural)]
pub struct Compressor {
    quality: i32,
}

impl Compressor {
    /// The quality the profile was made with.
    pub closed spec fn spec_quality(&self) -> i32 {
        self.quality
    }

    /// A profile that encodes at `quality`.
    pub fn new(quality: i32) -> (c: Self)
        ensures
            c.spec_quality() == quality,
    {
        Compressor { quality }
    }

    /// The quality handed to the encoder.
    #[verifier::when_used_as_spec(spec_quality)]
    pub fn quality(&self) -> (q: i32)
        ensures
            q == self.spec_quality(),
    {
        self.quality
    }
}

/// One step on a mirror tree. All paths are complete.
#[derive(Debug, PartialEq, Eq)]
pub enum Step {
    /// Read `source`, encode it, create `directory` with everything above
    /// it, and write the result to `destination`, replacing what is there.
    Encode { source: String, directory: String, destination: String },
    /// Delete the entry at `path`, see [`removal`].
    Remove { path: String },
    /// Create `directory` with everything above it and move the entry at
    /// `from` to `to` as it is.
    Move { from: String, directory: String, to: String },
}

/// Mathematical value of a [`Step`].
pub enum StepView {
    Encode { source: Seq<char>, directory: Seq<char>, destination: Seq<char> },
    Remove { path: Seq<char> },
    Move { from: Seq<char>, directory: Seq<char>, to: Seq<char> },
}

impl View for Step {
    type V = StepView;

    open spec fn view(&self) -> StepView {
        match self {
            Step::Encode { source, directory, destination } => StepView::Encode {
                source: source@,
                directory: directory@,
                destination: destination@,
            },
            Step::Remove { path } => StepView::Remove { path: path@ },
            Step::Move { from, directory, to } => StepView::Move {
                from: from@,
                directory: directory@,
                to: to@,
            },
        }
    }
}

/// Why a target could not carry out one action. None of these stops it.
#[derive(Debug, Clone, Copy, PartialEq, Eq, Structural)]
pub enum Failure {
    /// The destination has no parent directory to write into.
    NoParent,
    /// The source could not be decoded or the result could not be encoded.
    Codec,
    /// Reading, writing, deleting or moving failed.
    Io,
}

/// What stands at a path of the mirror tree.
#[derive(Debug, Clone, Copy, PartialEq, Eq, Structural)]
pub enum EntryKind {
    Directory,
    File,
    Missing,
}

/// How an entry is deleted.
#[derive(Debug, Clone, Copy, PartialEq, Eq, Structural)]
pub enum Removal {
    /// The directory and everything below it.
    Tree,
    /// The one file.
    File,
    /// Nothing is there: deleting it again is no failure.
    Nothing,
}

/// What the consumer of a queue does once an action has been carried out.
/// There is no variant that stops it.
#[derive(Debug, Clone, Copy, PartialEq, Eq, Structural)]
pub enum Verdict {
    /// Go on with the next action.
    Proceed,
    /// Report the failure of this action, then go on with the next.
    ReportAndProceed(Failure),
}

/// Value of the outcome of planning a step.
pub open spec fn step_or_failure(r: Result<Step, Failure>) -> Result<StepView, Failure> {
    match r {
        Ok(s) => Ok(s@),
        Err(f) => Err(f),
    }
}

/// The encoding step for given paths: it exists exactly when the
/// destination has a parent directory.
pub open spec fn encode_planned(
    source: Seq<char>,
    destination: Seq<char>,
    parent: Option<Seq<char>>,
) -> Result<StepView, Failure> {
    match parent {
        Some(directory) => Ok(StepView::Encode { source, directory, destination }),
        None => Err(Failure::NoParent),
    }
}

/// The moving step for given paths: it exists exactly when the new place has
/// a parent directory.
pub open spec fn move_planned(from: Seq<char>, to: Seq<char>, parent: Option<Seq<char>>) -> Result<
    StepView,
    Failure,
> {
    match parent {
        Some(directory) => Ok(StepView::Move { from, directory, to }),
        None => Err(Failure::NoParent),
    }
}

/// The step of a target with the roots `source_root` and `dest_root` for
/// `action`: sources are read below the source root, and everything else
/// happens below the destination root, at the same relative path.
pub open spec fn planned(source_root: Seq<char>, dest_root: Seq<char>, action: ActionView) -> Result<
    StepView,
    Failure,
> {
    match action {
        ActionView::Create(p) => encode_planned(
            joined_path(source_root, p),
            joined_path(dest_root, p),
            parent_path(joined_path(dest_root, p)),
        ),
        ActionView::Remove(p) => Ok(StepView::Remove { path: joined_path(dest_root, p) }),
        ActionView::Rename(from, to) => move_planned(
            joined_path(dest_root, from),
            joined_path(dest_root, to),
            parent_path(joined_path(dest_root, to)),
        ),
    }
}

/// Builds the encoding step from its paths, where `parent` is the parent
/// directory of `destination`, if it has one.
pub fn encode_step(source: String, destination: String, parent: Option<String>) -> (res: Result<
    Step,
    Failure,
>)
    ensures
        step_or_failure(res) == encode_planned(source@, destination@, text_of(parent)),
{
    match parent {
        Some(directory) => Ok(Step::Encode { source, directory, destination }),
        None => Err(Failure::NoParent),
    }
}

/// Builds the moving step from its paths, where `parent` is the parent
/// directory of `to`, if it has one.
pub fn move_step(from: String, to: String, parent: Option<String>) -> (res: Result<Step, Failure>)
    ensures
        step_or_failure(res) == move_planned(from@, to@, text_of(parent)),
{
    match parent {
        Some(directory) => Ok(Step::Move { from, directory, to }),
        None => Err(Failure::NoParent),
    }
}

/// How to delete an entry of the given kind.
pub fn removal(kind: EntryKind) -> (r: Removal)
    ensures
        r == (match kind {
            EntryKind::Directory => Removal::Tree,
            EntryKind::File => Removal::File,
            EntryKind::Missing => Removal::Nothing,
        }),
{
    match kind {
        EntryKind::Directory => Removal::Tree,
        EntryKind::File => Removal::File,
        EntryKind::Missing => Removal::Nothing,
    }
}

/// The verdict on an outcome: a failure is reported, and the consumer goes
/// on in either case.
pub open spec fn settled(outcome: Result<(), Failure>) -> Verdict {
    match outcome {
        Ok(_) => Verdict::Proceed,
        Err(f) => Verdict::ReportAndProceed(f),
    }
}

/// What the consumer does with the outcome of one action: a failure is
/// reported and never ends the consumption of the queue.
pub fn settle(outcome: Result<(), Failure>) -> (v: Verdict)
    ensures
        v == settled(outcome),
{
    match outcome {
        Ok(_) => Verdict::Proceed,
        Err(f) => Verdict::ReportAndProceed(f),
    }
}

/// One target: the root of the watched tree, the root of its own mirror
/// tree, and its compression profile.
#[derive(Debug)]
pub struct Worker {
    source_root: String,
    dest_root: String,
    profile: Compressor,
}

impl Worker {
    /// Root of the tree that sources are read from.
    pub closed spec fn source_root(&self) -> Seq<char> {
        self.source_root@
    }

    /// Root of the mirror tree that this target alone writes to.
    pub closed spec fn dest_root(&self) -> Seq<char> {
        self.dest_root@
    }

    /// The compression profile bound at registration.
    pub closed spec fn spec_profile(&self) -> Compressor {
        self.profile
    }

    /// A target that mirrors `source_root` into `dest_root` with `profile`.
    pub fn new(source_root: String, dest_root: String, profile: Compressor) -> (w: Self)
        ensures
            w.source_root() == source_root@,
            w.dest_root() == dest_root@,
            w.spec_profile() == profile,
    {
        Worker { source_root, dest_root, profile }
    }

    /// The compression profile of this target.
    #[verifier::when_used_as_spec(spec_profile)]
    pub fn profile(&self) -> (p: Compressor)
        ensures
            p == self.spec_profile(),
    {
        self.profile
    }

    /// The step that `action` asks of this target. It depends on the action
    /// and the two roots alone: nothing that happened to an earlier action
    /// enters it.
    pub fn plan(&self, action: &CompressorAction) -> (res: Result<Step, Failure>)
        ensures
            step_or_failure(res) == planned(self.source_root(), self.dest_root(), action@),
    {
        match action {
            CompressorAction::Create(p) => {
                let source = join_path(self.source_root.as_str(), p.as_str());
                let destination = join_path(self.dest_root.as_str(), p.as_str());
                let parent = parent_of(destination.as_str());
                encode_step(source, destination, parent)
            },
            CompressorAction::Remove(p) => Ok(
                Step::Remove { path: join_path(self.dest_root.as_str(), p.as_str()) },
            ),
            CompressorAction::Rename(from, to) => {
                let origin = join_path(self.dest_root.as_str(), from.as_str());
                let target = join_path(self.dest_root.as_str(), to.as_str());
                let parent = parent_of(target.as_str());
                move_step(origin, target, parent)
            },
        }
    }
}

/// The place in the mirror that the steps for the relative path `p` act on.
pub open spec fn mirror_place(dest_root: Seq<char>, p: Seq<char>) -> Seq<char> {
    joined_path(dest_root, p)
}

/// Creating a path writes to its place in the mirror and nowhere else, reads
/// the source at the same relative path, and fails only for want of a parent
/// directory. The step is the same each time, so creating again replaces
/// what the first time wrote.
pub proof fn lemma_create_writes_to_its_place(
    source_root: Seq<char>,
    dest_root: Seq<char>,
    p: Seq<char>,
)
    ensures
        match planned(source_root, dest_root, ActionView::Create(p)) {
            Ok(StepView::Encode { source, directory, destination }) => {
                &&& source == joined_path(source_root, p)
                &&& destination == mirror_place(dest_root, p)
                &&& parent_path(destination) == Some(directory)
            },
            Ok(_) => false,
            Err(f) => f == Failure::NoParent && parent_path(mirror_place(dest_root, p)) is None,
        },
{
}

/// Removing a path always yields a step, and that step deletes exactly the
/// place that creating the same path writes to.
pub proof fn lemma_remove_deletes_what_create_wrote(
    source_root: Seq<char>,
    dest_root: Seq<char>,
    p: Seq<char>,
)
    ensures
        planned(source_root, dest_root, ActionView::Remove(p)) == Ok::<StepView, Failure>(
            StepView::Remove { path: mirror_place(dest_root, p) },
        ),
        planned(source_root, dest_root, ActionView::Create(p)) matches Ok(
            StepView::Encode { destination, .. },
        ) ==> destination == mirror_place(dest_root, p),
{
}

/// Renaming never encodes: its step moves the place that creating the old
/// path writes to, as it is, to the place that belongs to the new path.
pub proof fn lemma_rename_moves_what_create_wrote(
    source_root: Seq<char>,
    dest_root: Seq<char>,
    from: Seq<char>,
    to: Seq<char>,
)
    ensures
        match planned(source_root, dest_root, ActionView::Rename(from, to)) {
            Ok(StepView::Move { from: origin, directory, to: target }) => {
                &&& origin == mirror_place(dest_root, from)
                &&& target == mirror_place(dest_root, to)
                &&& parent_path(target) == Some(directory)
            },
            Ok(_) => false,
            Err(f) => f == Failure::NoParent && parent_path(mirror_place(dest_root, to)) is None,
        },
        planned(source_root, dest_root, ActionView::Create(from)) matches Ok(
            StepView::Encode { destination, .. },
        ) ==> destination == mirror_place(dest_root, from),
{
}

/// Whatever the outcome of an action, the verdict lets the consumer go on
/// with the next one; it reports exactly the failure that occurred, and
/// nothing where there was none.
pub proof fn lemma_every_verdict_proceeds(outcome: Result<(), Failure>)
    ensures
        settled(outcome) is Proceed || settled(outcome) is ReportAndProceed,
        outcome is Ok <==> settled(outcome) is Proceed,
        forall|f: Failure| outcome == Err::<(), Failure>(f) <==> settled(outcome)
            == Verdict::ReportAndProceed(f),
{
}

} // verus!
