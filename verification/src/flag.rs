//! The flag files: the durable, externally observable record of each mode.
//!
//! Silence is encoded by the *presence* of its file, maintenance by the
//! *content* of its file. The shell reads and writes the files; what a file
//! means and what has to be done to it is decided here, over a model of the
//! file: absent, or present with some text.

use vstd::prelude::*;
use vstd::string::*;
use crate::mode::ModeId;
use crate::text::{is_white_space, same_text, trim, trimmed};

verus! {

/// Where the silence flag lives.
pub const SILENCE_FLAG_PATH: &'static str = "C:\\Users\\nator\\clawd\\data\\silence.flag";

/// Where the maintenance flag lives.
pub const MAINTENANCE_FLAG_PATH: &'static str = "c:\\Users\\nator\\clawd\\data\\maintenance_mode.flag";

/// The payload of the silence flag. Only the file's presence carries meaning.
pub const SILENCE_MARKER: &'static str = "silence";

/// Content of the maintenance flag while the mode is on.
pub const ON: &'static str = "ON";

/// Content of the maintenance flag while the mode is off.
pub const OFF: &'static str = "OFF";

/// What the shell found at a flag's path. A file that cannot be read counts
/// as absent.
#[derive(Clone, Debug, PartialEq, Eq)]
pub enum FlagFile {
    Absent,
    Present(String),
}

impl View for FlagFile {
    type V = Option<Seq<char>>;

    open spec fn view(&self) -> Option<Seq<char>> {
        match self {
            FlagFile::Absent => None,
            FlagFile::Present(content) => Some(content@),
        }
    }
}

/// One change to a flag file.
#[derive(Clone, Debug, PartialEq, Eq)]
pub enum FileOp {
    /// Create the parent directory if it is missing (a failure to do so is
    /// not an error of its own), and replace the file's content by the payload.
    Write(String),
    /// Delete the file. That it was already absent is not an error.
    Remove,
}

impl FileOp {
    /// The state of the file once the operation has taken effect.
    pub open spec fn leaves(&self) -> Option<Seq<char>> {
        match self {
            FileOp::Write(payload) => Some(payload@),
            FileOp::Remove => None,
        }
    }
}

/// What has to happen on disk to persist a value.
#[derive(Clone, Debug, PartialEq, Eq)]
pub struct PersistPlan {
    pub path: String,
    pub op: FileOp,
}

/// A plan as a plain value: the path, and the state in which the operation
/// leaves the file.
pub struct PlanModel {
    pub path: Seq<char>,
    pub leaves: Option<Seq<char>>,
}

impl View for PersistPlan {
    type V = PlanModel;

    open spec fn view(&self) -> PlanModel {
        PlanModel { path: self.path@, leaves: self.op.leaves() }
    }
}

/// The path of a mode's flag file.
pub open spec fn flag_path_text(mode: ModeId) -> Seq<char> {
    match mode {
        ModeId::Silence => SILENCE_FLAG_PATH@,
        ModeId::Maintenance => MAINTENANCE_FLAG_PATH@,
    }
}

/// The value that a flag file stands for. An absent file is *off* for either
/// mode. A present silence file is *on* whatever it holds; a present
/// maintenance file is *on* exactly if its content, white space at both ends
/// set aside, is `ON`.
pub open spec fn effective(mode: ModeId, file: Option<Seq<char>>) -> bool {
    match file {
        None => false,
        Some(content) => match mode {
            ModeId::Silence => true,
            ModeId::Maintenance => trimmed(content) == ON@,
        },
    }
}

/// The state in which a flag file records `value`.
pub open spec fn persisted(mode: ModeId, value: bool) -> Option<Seq<char>> {
    match mode {
        ModeId::Silence => if value {
            Some(SILENCE_MARKER@)
        } else {
            None
        },
        ModeId::Maintenance => if value {
            Some(ON@)
        } else {
            Some(OFF@)
        },
    }
}

/// The plan that persists `value`: the mode's own file, left in the state
/// that records the value.
pub open spec fn plan_of(mode: ModeId, value: bool) -> PlanModel {
    PlanModel { path: flag_path_text(mode), leaves: persisted(mode, value) }
}

/// The path of a mode's flag file.
pub fn flag_path(mode: ModeId) -> (path: &'static str)
    ensures
        path@ == flag_path_text(mode),
{
    match mode {
        ModeId::Silence => SILENCE_FLAG_PATH,
        ModeId::Maintenance => MAINTENANCE_FLAG_PATH,
    }
}

/// Reads a mode's value off its flag file. The result depends on the observed
/// file alone, so two reads of an unchanged file agree.
pub fn effective_value(mode: ModeId, file: &FlagFile) -> (on: bool)
    ensures
        on == effective(mode, file@),
        file@ is None ==> !on,
{
    match file {
        FlagFile::Absent => false,
        FlagFile::Present(content) => match mode {
            ModeId::Silence => true,
            ModeId::Maintenance => same_text(trim(content.as_str()), ON),
        },
    }
}

/// Plans the persistence of `value`: where, and which operation.
///
/// Silence *on* writes the marker, silence *off* removes the file;
/// maintenance writes `ON` or `OFF`.
pub fn persist_plan(mode: ModeId, value: bool) -> (plan: PersistPlan)
    ensures
        plan@ == plan_of(mode, value),
{
    let op = match mode {
        ModeId::Silence => if value {
            FileOp::Write(SILENCE_MARKER.to_owned())
        } else {
            FileOp::Remove
        },
        ModeId::Maintenance => if value {
            FileOp::Write(ON.to_owned())
        } else {
            FileOp::Write(OFF.to_owned())
        },
    };
    PersistPlan { path: flag_path(mode).to_owned(), op }
}

/// What carrying out `op` amounts to, given what the file system answered.
pub open spec fn persist_verdict(op: FileOp, answer: Result<(), String>) -> Result<(), String> {
    match op {
        FileOp::Write(_) => answer,
        FileOp::Remove => Ok(()),
    }
}

/// Judges the outcome of an operation. A failed write is an error and is
/// handed on as it came. A removal counts as done whatever the file system
/// answered: the flag was to be gone, and nobody waits for it.
pub fn persist_result(op: &FileOp, answer: Result<(), String>) -> (verdict: Result<(), String>)
    ensures
        verdict == persist_verdict(*op, answer),
{
    match op {
        FileOp::Write(_) => answer,
        FileOp::Remove => Ok(()),
    }
}

/// `ON` and `OFF` are different texts, and neither is touched by trimming.
pub proof fn lemma_on_off_texts()
    ensures
        ON@ == seq!['O', 'N'],
        OFF@ == seq!['O', 'F', 'F'],
        ON@ != OFF@,
        trimmed(ON@) == ON@,
        trimmed(OFF@) == OFF@,
{
    reveal_strlit("ON");
    reveal_strlit("OFF");
    assert(ON@ =~= seq!['O', 'N']);
    assert(OFF@ =~= seq!['O', 'F', 'F']);
    assert(!is_white_space('O') && !is_white_space('N') && !is_white_space('F'));
}

/// A flag file that holds what was persisted for `value` reads back as
/// `value`: the silence file exists exactly if the mode is on, and the
/// maintenance file holds exactly `ON` if the mode is on and exactly `OFF`
/// if it is off.
pub proof fn lemma_persisted_reads_back(mode: ModeId, value: bool)
    ensures
        effective(mode, persisted(mode, value)) == value,
        mode is Silence ==> (persisted(mode, value) is Some <==> value),
        mode is Maintenance ==> (persisted(mode, value) == Some(ON@) <==> value),
        mode is Maintenance ==> (persisted(mode, value) == Some(OFF@) <==> !value),
{
    lemma_on_off_texts();
}

/// Whatever the file held before, once the planned operation has taken
/// effect the file stands for the value that the plan was made for.
pub proof fn lemma_plan_establishes_value(mode: ModeId, value: bool, op: FileOp)
    requires
        op.leaves() == persisted(mode, value),
    ensures
        effective(mode, op.leaves()) == value,
        mode is Silence ==> (op is Write <==> value),
        mode is Maintenance ==> op is Write,
{
    lemma_persisted_reads_back(mode, value);
}

/// An absent or unreadable flag file means *off*, for either mode.
pub proof fn lemma_absent_flag_is_off(mode: ModeId)
    ensures
        effective(mode, None) == false,
{
}

/// Reading is a function of the file's state: two observations of the same
/// state yield the same value.
pub proof fn lemma_read_is_repeatable(mode: ModeId, first: FlagFile, second: FlagFile)
    requires
        first@ == second@,
    ensures
        effective(mode, first@) == effective(mode, second@),
{
}

} // verus!
