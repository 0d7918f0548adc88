//! What resolution yields against given contents of the file system and the
//! environment, and the laws that hold of it.

use vstd::prelude::*;
use crate::source::{Fatal, SourceKind, other_kind};
use crate::resolver::{ResolverModel, StepModel, next_of, recorded, start};

verus! {

/// Files and environment variables as a chain sees them: each map holds the
/// sources that yield text, with that text.
pub struct Ambient {
    /// Readable files, by path.
    pub files: Map<Seq<char>, Seq<char>>,
    /// Set environment variables, by name.
    pub vars: Map<Seq<char>, Seq<char>>,
}

/// What looking up the source of kind `k` named `id` gives in `a`.
pub open spec fn lookup(a: Ambient, k: SourceKind, id: Seq<char>) -> Option<Seq<char>> {
    let m = match k {
        SourceKind::File => a.files,
        SourceKind::Env => a.vars,
    };
    if m.contains_key(id) {
        Some(m[id])
    } else {
        None
    }
}

/// Drives a chain from `m` against `a`, answering at most `fuel` lookups.
pub open spec fn run(m: ResolverModel, a: Ambient, fuel: nat) -> StepModel
    decreases fuel,
{
    match next_of(m) {
        StepModel::Lookup { kind, id, arg } => if fuel > 0 {
            run(recorded(m, lookup(a, kind, id)), a, (fuel - 1) as nat)
        } else {
            next_of(m)
        },
        other => other,
    }
}

/// The final step of the chain led by `primary` over `args` against `a`.
/// Two lookups always suffice: a chain asks for no third.
pub open spec fn resolve(primary: SourceKind, args: Seq<Seq<char>>, a: Ambient) -> StepModel {
    run(start(primary, args), a, 2)
}

/// When the first source yields content, that content is the result, and the
/// chain asks for no other lookup once it has it: the second source is
/// never consulted.
pub proof fn lemma_primary_wins(primary: SourceKind, args: Seq<Seq<char>>, a: Ambient)
    requires
        args.len() >= 1,
        lookup(a, primary, args[0]) is Some,
    ensures
        next_of(start(primary, args)) == (StepModel::Lookup { kind: primary, id: args[0], arg: 0 }),
        next_of(recorded(start(primary, args), lookup(a, primary, args[0])))
            == (StepModel::Emit { value: lookup(a, primary, args[0])->0, arg: 0 }),
        resolve(primary, args, a) == (StepModel::Emit { value: lookup(a, primary, args[0])->0, arg: 0 }),
{
    reveal_with_fuel(run, 2);
}

/// When the first source fails and the second yields content, that content
/// is the result.
pub proof fn lemma_secondary_wins(primary: SourceKind, args: Seq<Seq<char>>, a: Ambient)
    requires
        args.len() >= 2,
        lookup(a, primary, args[0]) is None,
        lookup(a, other_kind(primary), args[1]) is Some,
    ensures
        resolve(primary, args, a)
            == (StepModel::Emit { value: lookup(a, other_kind(primary), args[1])->0, arg: 1 }),
{
    reveal_with_fuel(run, 3);
}

/// When both sources fail and a default is supplied, the default is the
/// result exactly as written.
pub proof fn lemma_default_wins(primary: SourceKind, args: Seq<Seq<char>>, a: Ambient)
    requires
        args.len() >= 3,
        lookup(a, primary, args[0]) is None,
        lookup(a, other_kind(primary), args[1]) is None,
    ensures
        resolve(primary, args, a) == (StepModel::Emit { value: args[2], arg: 2 }),
{
    reveal_with_fuel(run, 3);
}

/// When every source consulted fails and no default is supplied, resolution
/// aborts: it emits no value at all. With the second identifier missing it
/// names that source; with both present it asks for a default.
pub proof fn lemma_no_default_aborts(primary: SourceKind, args: Seq<Seq<char>>, a: Ambient)
    requires
        1 <= args.len() <= 2,
        lookup(a, primary, args[0]) is None,
        args.len() == 2 ==> lookup(a, other_kind(primary), args[1]) is None,
    ensures
        resolve(primary, args, a) is Abort,
        args.len() == 1 ==> resolve(primary, args, a) == StepModel::Abort(
            Fatal::MissingSource(other_kind(primary)),
        ),
        args.len() == 2 ==> resolve(primary, args, a) == StepModel::Abort(Fatal::MissingDefault),
{
    reveal_with_fuel(run, 3);
}

/// The two directives, given the same two working sources in swapped order,
/// each yield the content of their own first source; so they agree exactly
/// when the two sources hold the same text.
pub proof fn lemma_directive_symmetry(
    file_args: Seq<Seq<char>>,
    env_args: Seq<Seq<char>>,
    a: Ambient,
)
    requires
        file_args.len() >= 2,
        env_args.len() >= 2,
        env_args[0] == file_args[1],
        env_args[1] == file_args[0],
        a.files.contains_key(file_args[0]),
        a.vars.contains_key(file_args[1]),
    ensures
        resolve(SourceKind::File, file_args, a)
            == (StepModel::Emit { value: a.files[file_args[0]], arg: 0 }),
        resolve(SourceKind::Env, env_args, a)
            == (StepModel::Emit { value: a.vars[file_args[1]], arg: 0 }),
        (resolve(SourceKind::File, file_args, a) == resolve(SourceKind::Env, env_args, a))
            <==> a.files[file_args[0]] == a.vars[file_args[1]],
{
    lemma_primary_wins(SourceKind::File, file_args, a);
    lemma_primary_wins(SourceKind::Env, env_args, a);
}

} // verus!
