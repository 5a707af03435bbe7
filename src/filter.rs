//! What a filter run decides: which stage failed, and which nodes survive.
use vstd::prelude::*;
use vstd::string::StringExecFns;

use crate::proxy::Proxy;

verus! {

/// Why a filter run was not applied.
#[derive(Clone, Debug, PartialEq, Eq)]
pub enum FilterError {
    /// The scripting runtime or context could not be created.
    EngineInitFailure(String),
    /// The script threw while it ran at top level.
    ScriptException(String),
    /// The script could not be compiled or run, without a thrown value.
    EvalError(String),
    /// The script ran but left no callable global `filter`.
    MissingFilterFunction,
}

/// How the script's top-level run ended, as the engine reports it.
pub enum ScriptRun {
    /// The program ran to its end.
    Completed,
    /// The program threw: the `name` of the thrown error object where it has
    /// one, and the text of what was thrown.
    Thrown(Option<String>, String),
    /// The engine failed without a thrown value.
    Failed(String),
}

/// Whether a thrown error is the engine's report that the source does not
/// parse.
pub open spec fn names_syntax_error(name: Option<String>) -> bool {
    name matches Some(n) && n@ == "SyntaxError"@
}

/// How a top-level run is reported: a syntax error or an engine failure is
/// an evaluation error, any other thrown value a script exception.
pub open spec fn evaluation_of(run: ScriptRun) -> Result<(), FilterError> {
    match run {
        ScriptRun::Completed => Ok(()),
        ScriptRun::Thrown(name, text) => if names_syntax_error(name) {
            Err(FilterError::EvalError(text))
        } else {
            Err(FilterError::ScriptException(text))
        },
        ScriptRun::Failed(text) => Err(FilterError::EvalError(text)),
    }
}

/// Classifies how the script's top-level run ended.
pub fn evaluation_result(run: ScriptRun) -> (r: Result<(), FilterError>)
    ensures
        r == evaluation_of(run),
{
    match run {
        ScriptRun::Completed => Ok(()),
        ScriptRun::Thrown(name, text) => {
            let syntax = match &name {
                Some(n) => *n == String::from_str("SyntaxError"),
                None => false,
            };
            if syntax {
                Err(FilterError::EvalError(text))
            } else {
                Err(FilterError::ScriptException(text))
            }
        },
        ScriptRun::Failed(text) => Err(FilterError::EvalError(text)),
    }
}

/// What one call of `filter` on one node gave: its boolean result, or the
/// text of the failure (a thrown value, a result that is not a boolean).
pub type Verdict = Result<bool, String>;

/// Whether a verdict keeps its node: only a successful `true` does.
pub open spec fn keeps(v: Verdict) -> bool {
    v == Ok::<bool, String>(true)
}

/// The nodes that survive, in their original order, given one verdict per
/// node.
pub open spec fn kept(nodes: Seq<Proxy>, verdicts: Seq<Verdict>) -> Seq<Proxy>
    decreases nodes.len(),
{
    if nodes.len() == 0 || verdicts.len() == 0 {
        Seq::empty()
    } else {
        let rest = kept(nodes.drop_last(), verdicts.drop_last());
        if keeps(verdicts.last()) {
            rest.push(nodes.last())
        } else {
            rest
        }
    }
}

/// The texts of the failed calls, in node order.
pub open spec fn call_failures(verdicts: Seq<Verdict>) -> Seq<String>
    decreases verdicts.len(),
{
    if verdicts.len() == 0 {
        Seq::empty()
    } else {
        let rest = call_failures(verdicts.drop_last());
        match verdicts.last() {
            Err(m) => rest.push(m),
            Ok(_) => rest,
        }
    }
}

/// The texts of the calls that failed, in node order.
pub fn failures_of(verdicts: &Vec<Verdict>) -> (r: Vec<String>)
    ensures
        r@ == call_failures(verdicts@),
{
    let mut out: Vec<String> = Vec::new();
    let mut j: usize = 0;
    while j < verdicts.len()
        invariant
            j <= verdicts@.len(),
            out@ == call_failures(verdicts@.take(j as int)),
        decreases verdicts@.len() - j,
    {
        proof {
            assert(verdicts@.take(j + 1).drop_last() =~= verdicts@.take(j as int));
        }
        match &verdicts[j] {
            Err(m) => out.push(m.clone()),
            Ok(_) => {},
        }
        j = j + 1;
    }
    assert(verdicts@.take(j as int) =~= verdicts@);
    out
}

proof fn lemma_kept_len(nodes: Seq<Proxy>, verdicts: Seq<Verdict>)
    ensures
        kept(nodes, verdicts).len() <= nodes.len(),
    decreases nodes.len(),
{
    if nodes.len() > 0 && verdicts.len() > 0 {
        lemma_kept_len(nodes.drop_last(), verdicts.drop_last());
    }
}

/// Keeps exactly the nodes whose verdict is `Ok(true)`, in order; a failed
/// call drops its node.
pub fn apply_verdicts(nodes: &mut Vec<Proxy>, verdicts: &Vec<Verdict>)
    requires
        verdicts@.len() == old(nodes)@.len(),
    ensures
        final(nodes)@ == kept(old(nodes)@, verdicts@),
{
    let ghost orig = nodes@;
    let n = nodes.len();
    let mut i: usize = 0;
    let mut j: usize = 0;
    while j < n
        invariant
            n == orig.len(),
            verdicts@.len() == n,
            j <= n,
            i == kept(orig.take(j as int), verdicts@.take(j as int)).len(),
            nodes@ == kept(orig.take(j as int), verdicts@.take(j as int)) + orig.skip(j as int),
        decreases n - j,
    {
        proof {
            assert(orig.take(j + 1).drop_last() == orig.take(j as int));
            assert(verdicts@.take(j + 1).drop_last() == verdicts@.take(j as int));
            assert(orig.skip(j as int) == seq![orig[j as int]] + orig.skip(j + 1));
            lemma_kept_len(orig.take(j as int), verdicts@.take(j as int));
        }
        let keep = match &verdicts[j] {
            Ok(b) => *b,
            Err(_) => false,
        };
        if keep {
            i = i + 1;
        } else {
            nodes.remove(i);
        }
        j = j + 1;
        proof {
            let done = kept(orig.take(j - 1), verdicts@.take(j - 1));
            assert(keeps(verdicts@[j - 1]) == keep);
            if keep {
                assert(nodes@ == done.push(orig[j - 1]) + orig.skip(j as int));
            } else {
                assert(nodes@ == done + orig.skip(j as int));
            }
        }
    }
    proof {
        assert(orig.take(n as int) == orig);
        assert(verdicts@.take(n as int) == verdicts@);
        assert(nodes@ == kept(orig, verdicts@) + orig.skip(n as int));
    }
}

/// The outcome of a run from its two stage results: how the script's
/// top-level evaluation went, and whether a callable `filter` was found
/// after it. A failed evaluation is reported as it is; a missing `filter`
/// is a failure of its own; otherwise the filter applies.
pub fn stage_outcome(evaluated: Result<(), FilterError>, filter_found: bool) -> (r: Result<(), FilterError>)
    ensures
        r == (match evaluated {
            Err(e) => Err(e),
            Ok(()) => if filter_found {
                Ok(())
            } else {
                Err(FilterError::MissingFilterFunction)
            },
        }),
{
    match evaluated {
        Err(e) => Err(e),
        Ok(()) => if filter_found {
            Ok(())
        } else {
            Err(FilterError::MissingFilterFunction)
        },
    }
}

/// A run is determined by the script's answers: two runs over the same nodes
/// in which `filter` answered the same for every node keep the same nodes in
/// the same order.
pub proof fn lemma_same_answers_same_survivors(
    nodes: Seq<Proxy>,
    first: Seq<Verdict>,
    second: Seq<Verdict>,
)
    requires
        first.len() == nodes.len(),
        second.len() == nodes.len(),
        forall|i: int| 0 <= i < nodes.len() ==> first[i] == second[i],
    ensures
        kept(nodes, first) == kept(nodes, second),
{
    assert(first =~= second);
}

/// When `filter` returns `true` for every node, every node survives, in its
/// order.
pub proof fn lemma_all_true_keeps_all(nodes: Seq<Proxy>, verdicts: Seq<Verdict>)
    requires
        verdicts.len() == nodes.len(),
        forall|i: int| 0 <= i < verdicts.len() ==> verdicts[i] == Ok::<bool, String>(true),
    ensures
        kept(nodes, verdicts) == nodes,
    decreases nodes.len(),
{
    if nodes.len() > 0 {
        lemma_all_true_keeps_all(nodes.drop_last(), verdicts.drop_last());
        assert(nodes.drop_last().push(nodes.last()) =~= nodes);
    }
}

/// When `filter` returns `false` for every node, no node survives.
pub proof fn lemma_all_false_keeps_none(nodes: Seq<Proxy>, verdicts: Seq<Verdict>)
    requires
        verdicts.len() == nodes.len(),
        forall|i: int| 0 <= i < verdicts.len() ==> verdicts[i] == Ok::<bool, String>(false),
    ensures
        kept(nodes, verdicts).len() == 0,
    decreases nodes.len(),
{
    if nodes.len() > 0 {
        lemma_all_false_keeps_none(nodes.drop_last(), verdicts.drop_last());
    }
}

/// A node whose call of `filter` failed is dropped, and the other nodes are
/// kept or dropped by their own answers, as if that node had not been there.
pub proof fn lemma_failed_call_drops_only_its_node(
    nodes: Seq<Proxy>,
    verdicts: Seq<Verdict>,
    k: int,
)
    requires
        verdicts.len() == nodes.len(),
        0 <= k < nodes.len(),
        verdicts[k] is Err,
    ensures
        kept(nodes, verdicts) == kept(nodes.remove(k), verdicts.remove(k)),
    decreases nodes.len(),
{
    let last = nodes.len() - 1;
    if k == last {
        assert(nodes.remove(k) =~= nodes.drop_last());
        assert(verdicts.remove(k) =~= verdicts.drop_last());
    } else {
        lemma_failed_call_drops_only_its_node(nodes.drop_last(), verdicts.drop_last(), k);
        assert(nodes.remove(k).drop_last() =~= nodes.drop_last().remove(k));
        assert(verdicts.remove(k).drop_last() =~= verdicts.drop_last().remove(k));
        assert(nodes.remove(k).last() == nodes.last());
        assert(verdicts.remove(k).last() == verdicts.last());
    }
}

} // verus!
