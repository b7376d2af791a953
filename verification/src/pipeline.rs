//! The pipeline driver: thread a text through an ordered list of plugins,
//! short-circuiting on the first failure.
//!
//! The composition laws live here too, stated over an abstract chain of
//! transformations: composing two steps is applying the second to the
//! first's output, an identity step composed any number of times returns
//! the text unchanged, and the empty chain is the identity.

use crate::errors::PluginError;
use crate::host::{Plugin, apply_error};
use vstd::prelude::*;

verus! {

/// One abstract transformation step: the text it produces, or the error it
/// reports.
pub type Transform = spec_fn(Seq<char>) -> Result<Seq<char>, Seq<char>>;

/// The outcome of threading a text through the steps in order, stopping at
/// the first failure.
pub open spec fn chain_outcome(steps: Seq<Transform>, text: Seq<char>) -> Result<
    Seq<char>,
    Seq<char>,
>
    decreases steps.len(),
{
    if steps.len() == 0 {
        Ok(text)
    } else {
        match steps[0](text) {
            Ok(next) => chain_outcome(steps.drop_first(), next),
            Err(e) => Err(e),
        }
    }
}

/// Law: composing two steps in order is applying the second to the first's
/// output; the first failure wins.
pub proof fn lemma_chain_of_two(p: Transform, q: Transform, text: Seq<char>)
    ensures
        chain_outcome(seq![p, q], text) == (match p(text) {
            Ok(mid) => q(mid),
            Err(e) => Err(e),
        }),
{
    let steps = seq![p, q];
    assert(steps.drop_first() =~= seq![q]);
    let empty = Seq::<Transform>::empty();
    match p(text) {
        Ok(mid) => {
            assert(seq![q].drop_first() =~= empty);
            match q(mid) {
                Ok(out) => {
                    assert(chain_outcome(empty, out) == Ok::<Seq<char>, Seq<char>>(out));
                    assert(chain_outcome(seq![q], mid) == Ok::<Seq<char>, Seq<char>>(out));
                },
                Err(e) => {
                    assert(chain_outcome(seq![q], mid) == Err::<Seq<char>, Seq<char>>(e));
                },
            }
        },
        Err(_) => {},
    }
}

/// The step that returns its text unchanged.
pub open spec fn identity_transform() -> Transform {
    |text: Seq<char>| Ok(text)
}

/// Law: the identity step composed with itself any number of times yields
/// the original text.
pub proof fn lemma_identity_chain(n: nat, text: Seq<char>)
    ensures
        chain_outcome(Seq::new(n, |i: int| identity_transform()), text) == Ok::<
            Seq<char>,
            Seq<char>,
        >(text),
    decreases n,
{
    let steps = Seq::new(n, |i: int| identity_transform());
    if n > 0 {
        assert(steps[0](text) == Ok::<Seq<char>, Seq<char>>(text));
        assert(steps.drop_first() =~= Seq::new((n - 1) as nat, |i: int| identity_transform()));
        lemma_identity_chain((n - 1) as nat, text);
    }
}

/// Join the positional arguments with single spaces into the input text.
pub open spec fn space_joined(args: Seq<Seq<char>>) -> Seq<char>
    decreases args.len(),
{
    if args.len() == 0 {
        Seq::empty()
    } else if args.len() == 1 {
        args[0]
    } else {
        space_joined(args.drop_last()) + " "@ + args.last()
    }
}

/// The views of a list of strings.
pub open spec fn string_views(args: Seq<String>) -> Seq<Seq<char>> {
    Seq::new(args.len(), |i: int| args[i]@)
}

/// Join the arguments with single spaces.
pub fn join_args(args: &Vec<String>) -> (joined: String)
    ensures
        joined@ == space_joined(string_views(args@)),
{
    let mut joined = String::new();
    let mut i: usize = 0;
    while i < args.len()
        invariant
            i <= args@.len(),
            joined@ == space_joined(string_views(args@).subrange(0, i as int)),
        decreases args@.len() - i,
    {
        if i > 0 {
            joined.append(" ");
        }
        joined.append(args[i].as_str());
        proof {
            let views = string_views(args@);
            assert(views.subrange(0, i + 1).drop_last() =~= views.subrange(0, i as int));
            assert(views.subrange(0, i + 1).last() == args@[i as int]@);
        }
        i += 1;
    }
    proof {
        assert(string_views(args@).subrange(0, args@.len() as int) =~= string_views(args@));
    }
    joined
}

/// Thread the text through the plugins in order, stopping at the first
/// failure.  With no plugins the text comes back verbatim; with plugins, a
/// returned text is the payload of the last plugin's success-flagged
/// result; every reported error belongs to the apply phase of some plugin;
/// and the vector hands the same instances back in the caller's order, on
/// the failure path too, by cycling each one through the far end.
pub fn run_pipeline(plugins: &mut Vec<Plugin>, input: String) -> (r: Result<String, PluginError>)
    ensures
        old(plugins)@.len() == 0 ==> (r matches Ok(out) && out@ == input@),
        old(plugins)@.len() > 0 ==> (r matches Ok(out) ==> crate::host::parsed_from_layout(
            true,
            out@,
        )),
        final(plugins)@.len() == old(plugins)@.len(),
        r matches Err(e) ==> apply_error(e),
{
    let mut text = input;
    let total = plugins.len();
    let mut step: usize = 0;
    while step < total
        invariant
            plugins@.len() == total,
            total == old(plugins)@.len(),
            total == 0 ==> text@ == input@,
            step > 0 ==> crate::host::parsed_from_layout(true, text@),
        decreases total - step,
    {
        let mut plugin = plugins.remove(0);
        let outcome = plugin.apply(text.as_str());
        plugins.push(plugin);
        match outcome {
            Ok(next) => {
                text = next;
            },
            Err(e) => {
                // Cycle the remaining plugins through as well, so the
                // caller's order is restored before the error surfaces.
                let mut rest = step + 1;
                while rest < total
                    invariant
                        plugins@.len() == total,
                        rest <= total,
                    decreases total - rest,
                {
                    let untouched = plugins.remove(0);
                    plugins.push(untouched);
                    rest += 1;
                }
                return Err(e);
            },
        }
        step += 1;
    }
    Ok(text)
}

} // verus!
