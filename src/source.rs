//! Source kinds, and the messages reported when a source fails.

use vstd::prelude::*;
use vstd::string::StringExecFns;

verus! {

/// The two kinds of place a value can be read from.
#[derive(Clone, Copy, Debug, PartialEq, Eq, Structural)]
pub enum SourceKind {
    /// The identifier is a path; the value is the whole text of that file.
    File,
    /// The identifier is a variable name; the value is that variable's text.
    Env,
}

/// The kind that is tried second when `k` is tried first.
pub open spec fn other_kind(k: SourceKind) -> SourceKind {
    match k {
        SourceKind::File => SourceKind::Env,
        SourceKind::Env => SourceKind::File,
    }
}

/// Executable form of `other_kind`.
pub fn other(k: SourceKind) -> (r: SourceKind)
    ensures
        r == other_kind(k),
{
    match k {
        SourceKind::File => SourceKind::Env,
        SourceKind::Env => SourceKind::File,
    }
}

/// The kind of source consulted at `stage` (0 or 1) of a chain whose first
/// source is of kind `primary`.
pub open spec fn kind_at(primary: SourceKind, stage: nat) -> SourceKind {
    if stage == 0 {
        primary
    } else {
        other_kind(primary)
    }
}

/// Executable form of `kind_at`.
pub fn stage_kind(primary: SourceKind, stage: usize) -> (r: SourceKind)
    ensures
        r == kind_at(primary, stage as nat),
{
    if stage == 0 {
        primary
    } else {
        other(primary)
    }
}

/// What a chain falls back to once a source has failed.
#[derive(Clone, Copy, Debug, PartialEq, Eq, Structural)]
pub enum NextStage {
    /// Another source, of the given kind.
    Source(SourceKind),
    /// The literal default.
    Default,
}

/// The stage that follows a failure at `stage` of a chain led by `primary`.
pub open spec fn stage_after(primary: SourceKind, stage: nat) -> NextStage {
    if stage == 0 {
        NextStage::Source(other_kind(primary))
    } else {
        NextStage::Default
    }
}

/// Name of a directive, given the kind of its first source.
pub open spec fn directive_name(primary: SourceKind) -> Seq<char> {
    match primary {
        SourceKind::File => "file_env"@,
        SourceKind::Env => "env_file"@,
    }
}

/// How a source kind is named in a diagnostic's fallback clause.
pub open spec fn kind_label(k: SourceKind) -> Seq<char> {
    match k {
        SourceKind::File => "file"@,
        SourceKind::Env => "environment variable"@,
    }
}

/// How a stage is named in a diagnostic's fallback clause.
pub open spec fn stage_label(next: NextStage) -> Seq<char> {
    match next {
        NextStage::Source(k) => kind_label(k),
        NextStage::Default => "default"@,
    }
}

/// How a failed source of kind `k` is introduced in a diagnostic.
pub open spec fn failure_prefix(k: SourceKind) -> Seq<char> {
    match k {
        SourceKind::File => "No file found at "@,
        SourceKind::Env => "No environment variable found with name "@,
    }
}

/// Text of the diagnostic for a source of kind `k` and identifier `id` that
/// yielded nothing, after which `next` is tried.
pub open spec fn notice_text(k: SourceKind, id: Seq<char>, next: NextStage) -> Seq<char> {
    failure_prefix(k) + id + ", trying "@ + stage_label(next)
}

/// A non-fatal report: a source yielded nothing and the chain moves on.
#[derive(Clone, Debug, PartialEq, Eq)]
pub struct Notice {
    /// Kind of the source that failed.
    pub kind: SourceKind,
    /// Its identifier: the path or the variable name.
    pub id: String,
    /// What is tried next.
    pub next: NextStage,
}

impl Notice {
    /// The diagnostic line for this report.
    pub fn message(&self) -> (r: String)
        ensures
            r@ == notice_text(self.kind, self.id@, self.next),
    {
        let mut r = match self.kind {
            SourceKind::File => String::from_str("No file found at "),
            SourceKind::Env => String::from_str("No environment variable found with name "),
        };
        r.append(self.id.as_str());
        r.append(", trying ");
        match self.next {
            NextStage::Source(SourceKind::File) => r.append("file"),
            NextStage::Source(SourceKind::Env) => r.append("environment variable"),
            NextStage::Default => r.append("default"),
        }
        r
    }
}

/// A condition that ends resolution without a value.
#[derive(Clone, Copy, Debug, PartialEq, Eq, Structural)]
pub enum Fatal {
    /// The identifier of the source of this kind, needed at the stage reached,
    /// was not supplied.
    MissingSource(SourceKind),
    /// Both sources failed and no default was supplied.
    MissingDefault,
}

/// Text of the abort message for `f` in the directive led by `primary`.
pub open spec fn fatal_text(f: Fatal, primary: SourceKind) -> Seq<char> {
    match f {
        Fatal::MissingSource(SourceKind::File) => "No filename argument supplied"@,
        Fatal::MissingSource(SourceKind::Env) => "No env argument supplied"@,
        Fatal::MissingDefault => "No filename argument supplied, try "@ + directive_name(primary)
            + "!(\"filename\", \"ENV_NAME\", \"default_value\")"@,
    }
}

impl Fatal {
    /// The abort message for this condition in the directive led by `primary`.
    pub fn message(&self, primary: SourceKind) -> (r: String)
        ensures
            r@ == fatal_text(*self, primary),
    {
        match self {
            Fatal::MissingSource(SourceKind::File) => String::from_str("No filename argument supplied"),
            Fatal::MissingSource(SourceKind::Env) => String::from_str("No env argument supplied"),
            Fatal::MissingDefault => {
                let mut r = String::from_str("No filename argument supplied, try ");
                match primary {
                    SourceKind::File => r.append("file_env"),
                    SourceKind::Env => r.append("env_file"),
                }
                r.append("!(\"filename\", \"ENV_NAME\", \"default_value\")");
                r
            },
        }
    }
}

} // verus!
