//! The fallback chain: first source, second source, literal default.

use vstd::prelude::*;
use crate::source::{Fatal, NextStage, Notice, SourceKind, kind_at, other, stage_after, stage_kind};

verus! {

/// Abstract state of a chain.
pub struct ResolverModel {
    /// Kind of the source tried first.
    pub primary: SourceKind,
    /// The arguments: first identifier, second identifier, default.
    pub args: Seq<Seq<char>>,
    /// How many lookups have failed so far; also the index of the argument
    /// that the current stage reads.
    pub stage: nat,
    /// The content found by the last lookup, if it succeeded.
    pub found: Option<Seq<char>>,
}

/// What a chain asks of its driver next.
#[derive(Clone, Debug, PartialEq, Eq)]
pub enum Step {
    /// Look up the source of this kind named `id`, which is argument `arg`.
    Lookup { kind: SourceKind, id: String, arg: usize },
    /// Resolution is over: `value` is the result, taken from argument `arg`
    /// (the source it names, or the default itself).
    Emit { value: String, arg: usize },
    /// Resolution is over without a value.
    Abort(Fatal),
}

/// Abstract form of a `Step`.
pub enum StepModel {
    /// A lookup of the source of kind `kind` named `id`, argument `arg`.
    Lookup { kind: SourceKind, id: Seq<char>, arg: nat },
    /// The result `value`, taken from argument `arg`.
    Emit { value: Seq<char>, arg: nat },
    /// The end of resolution without a value.
    Abort(Fatal),
}

impl View for Step {
    type V = StepModel;

    open spec fn view(&self) -> StepModel {
        match self {
            Step::Lookup { kind, id, arg } => StepModel::Lookup { kind: *kind, id: id@, arg: *arg as nat },
            Step::Emit { value, arg } => StepModel::Emit { value: value@, arg: *arg as nat },
            Step::Abort(f) => StepModel::Abort(*f),
        }
    }
}

/// The state every chain starts in.
pub open spec fn start(primary: SourceKind, args: Seq<Seq<char>>) -> ResolverModel {
    ResolverModel { primary, args, stage: 0, found: None }
}

/// States that a chain can reach.
pub open spec fn wf(m: ResolverModel) -> bool {
    &&& m.stage <= 2
    &&& m.stage <= m.args.len()
    &&& m.found is Some ==> m.stage < 2 && m.stage < m.args.len()
}

/// What a chain in state `m` asks for.
///
/// A found value is emitted. Otherwise stages 0 and 1 look up the source named
/// by the argument of that index, and abort when it is missing; after two
/// failures the third argument is emitted as it stands, or the chain aborts
/// when there is none. Arguments past the third are never read.
pub open spec fn next_of(m: ResolverModel) -> StepModel {
    match m.found {
        Some(v) => StepModel::Emit { value: v, arg: m.stage },
        None => if m.stage < 2 {
            if m.stage < m.args.len() {
                StepModel::Lookup { kind: kind_at(m.primary, m.stage), id: m.args[m.stage as int], arg: m.stage }
            } else {
                StepModel::Abort(Fatal::MissingSource(kind_at(m.primary, m.stage)))
            }
        } else if 2 < m.args.len() {
            StepModel::Emit { value: m.args[2], arg: 2 }
        } else {
            StepModel::Abort(Fatal::MissingDefault)
        },
    }
}

/// The state after the pending lookup of `m` gave `outcome`.
pub open spec fn recorded(m: ResolverModel, outcome: Option<Seq<char>>) -> ResolverModel {
    match outcome {
        Some(v) => ResolverModel { found: Some(v), ..m },
        None => ResolverModel { stage: m.stage + 1, ..m },
    }
}

/// The report made when the pending lookup of `m` fails: kind and identifier
/// of the failed source, and the stage tried next.
pub open spec fn notice_of(m: ResolverModel) -> (SourceKind, Seq<char>, NextStage) {
    (kind_at(m.primary, m.stage), m.args[m.stage as int], stage_after(m.primary, m.stage))
}

/// A fallback chain in progress.
pub struct Resolver {
    primary: SourceKind,
    args: Vec<String>,
    stage: usize,
    found: Option<String>,
}

impl View for Resolver {
    type V = ResolverModel;

    closed spec fn view(&self) -> ResolverModel {
        ResolverModel {
            primary: self.primary,
            args: self.args.deep_view(),
            stage: self.stage as nat,
            found: self.found.deep_view(),
        }
    }
}

impl Resolver {
    /// A chain over `args` whose first source is of kind `primary`.
    pub fn new(primary: SourceKind, args: Vec<String>) -> (r: Resolver)
        ensures
            r@ == start(primary, args.deep_view()),
            wf(r@),
    {
        Resolver { primary, args, stage: 0, found: None }
    }

    /// Kind of the source tried first.
    pub fn primary(&self) -> (r: SourceKind)
        ensures
            r == self@.primary,
    {
        self.primary
    }

    /// What the driver has to do next.
    pub fn next_step(&self) -> (r: Step)
        requires
            wf(self@),
        ensures
            r@ == next_of(self@),
    {
        match &self.found {
            Some(v) => Step::Emit { value: v.clone(), arg: self.stage },
            None => {
                if self.stage < 2 {
                    let kind = stage_kind(self.primary, self.stage);
                    if self.stage < self.args.len() {
                        Step::Lookup { kind, id: self.args[self.stage].clone(), arg: self.stage }
                    } else {
                        Step::Abort(Fatal::MissingSource(kind))
                    }
                } else if 2 < self.args.len() {
                    Step::Emit { value: self.args[2].clone(), arg: 2 }
                } else {
                    Step::Abort(Fatal::MissingDefault)
                }
            },
        }
    }

    /// Hands the chain the outcome of the lookup it asked for: the content, or
    /// `None` when the source yielded nothing. A failure is reported back as a
    /// `Notice`.
    pub fn record(&mut self, outcome: Option<String>) -> (notice: Option<Notice>)
        requires
            wf(old(self)@),
            next_of(old(self)@) is Lookup,
        ensures
            wf(final(self)@),
            final(self)@ == recorded(old(self)@, outcome.deep_view()),
            notice is Some <==> outcome is None,
            notice matches Some(n) ==> (n.kind, n.id@, n.next) == notice_of(old(self)@),
    {
        match outcome {
            Some(v) => {
                self.found = Some(v);
                None
            },
            None => {
                let next = if self.stage == 0 {
                    NextStage::Source(other(self.primary))
                } else {
                    NextStage::Default
                };
                let n = Notice {
                    kind: stage_kind(self.primary, self.stage),
                    id: self.args[self.stage].clone(),
                    next,
                };
                self.stage = self.stage + 1;
                Some(n)
            },
        }
    }
}

/// The file-first chain: the file named by the first argument, then the
/// environment variable named by the second, then the third argument.
pub fn file_env(args: Vec<String>) -> (r: Resolver)
    ensures
        r@ == start(SourceKind::File, args.deep_view()),
        wf(r@),
{
    Resolver::new(SourceKind::File, args)
}

/// The env-first chain: the environment variable named by the first
/// argument, then the file named by the second, then the third argument.
pub fn env_file(args: Vec<String>) -> (r: Resolver)
    ensures
        r@ == start(SourceKind::Env, args.deep_view()),
        wf(r@),
{
    Resolver::new(SourceKind::Env, args)
}

} // verus!
