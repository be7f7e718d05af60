use vstd::prelude::*;

use crate::command::{
    args_flag, escaped_args_of, head_of, process_args_of, rendered, run_word, with_arg, with_args,
    with_each_arg, CommandView, MO2Command,
};
use crate::quoting::{escaped, joined, quoted};

verus! {

/// With no arguments, the display string is exactly
/// `"<launcher>" run "<target>"` and the process arguments are exactly
/// `run` and the target.
pub proof fn lemma_no_arguments(v: CommandView)
    requires
        v.launcher.len() > 0,
        v.target.len() > 0,
        v.arguments.len() == 0,
    ensures
        rendered(v) == quoted(v.launcher) + seq![' ', 'r', 'u', 'n', ' '] + quoted(v.target),
        process_args_of(v) == seq![run_word(), v.target],
{
    assert(rendered(v) =~= quoted(v.launcher) + seq![' ', 'r', 'u', 'n', ' '] + quoted(v.target));
}

/// With arguments, the quoted text after `-a` is the arguments joined by
/// single spaces with every double quote escaped, and the last process
/// argument is the same join with nothing escaped.
pub proof fn lemma_with_arguments(v: CommandView)
    requires
        v.arguments.len() > 0,
    ensures
        rendered(v) == head_of(v) + seq![' ', '-', 'a', ' '] + quoted(escaped(joined(v.arguments))),
        process_args_of(v) == seq![run_word(), v.target, args_flag(), joined(v.arguments)],
{
    assert(rendered(v) =~= head_of(v) + seq![' ', '-', 'a', ' '] + quoted(escaped(joined(v.arguments))));
}

/// Rendering reads the state and nothing else: two renderings of one
/// builder that was not changed in between are equal.
pub proof fn lemma_render_idempotent(c: MO2Command, first: Seq<char>, second: Seq<char>)
    requires
        first == rendered(c@),
        second == rendered(c@),
    ensures
        first == second,
{
}

/// Two process argument lists of one builder that was not changed in
/// between are equal.
pub proof fn lemma_process_args_idempotent(
    c: MO2Command,
    first: Seq<Seq<char>>,
    second: Seq<Seq<char>>,
)
    requires
        first == process_args_of(c@),
        second == process_args_of(c@),
    ensures
        first == second,
{
}

/// Adding a batch of arguments gives the same state as adding them one at a
/// time, in their order.
pub proof fn lemma_batch_is_each_in_turn(v: CommandView, tokens: Seq<Seq<char>>)
    ensures
        with_args(v, tokens) == with_each_arg(v, tokens),
    decreases tokens.len(),
{
    if tokens.len() == 0 {
        assert(v.arguments + tokens =~= v.arguments);
    } else {
        lemma_batch_is_each_in_turn(v, tokens.drop_last());
        assert(v.arguments + tokens =~= (v.arguments + tokens.drop_last()).push(tokens.last()));
    }
}

/// Escaping goes character by character: escaping a concatenation is
/// concatenating the escaped parts.
pub proof fn lemma_escaped_concat(a: Seq<char>, b: Seq<char>)
    ensures
        escaped(a + b) == escaped(a) + escaped(b),
    decreases b.len(),
{
    if b.len() == 0 {
        assert(a + b =~= a);
        assert(escaped(a) + escaped(b) =~= escaped(a));
    } else {
        lemma_escaped_concat(a, b.drop_last());
        assert((a + b).drop_last() =~= a + b.drop_last());
        assert((a + b).last() == b.last());
        if b.last() == '"' {
            assert(escaped(a) + escaped(b) =~= escaped(a) + escaped(b.drop_last()) + seq!['\\', '"']);
        } else {
            assert(escaped(a) + escaped(b) =~= (escaped(a) + escaped(b.drop_last())).push(b.last()));
        }
    }
}

/// Joining two non-empty lists one after the other is joining each and
/// putting one space between them.
pub proof fn lemma_joined_concat(a: Seq<Seq<char>>, b: Seq<Seq<char>>)
    requires
        a.len() > 0,
        b.len() > 0,
    ensures
        joined(a + b) == joined(a) + seq![' '] + joined(b),
    decreases b.len(),
{
    assert((a + b).drop_last() =~= a + b.drop_last());
    assert((a + b).last() == b.last());
    if b.len() == 1 {
        assert(a + b.drop_last() =~= a);
    } else {
        lemma_joined_concat(a, b.drop_last());
        assert(joined(a) + seq![' '] + joined(b) =~= joined(a) + seq![' '] + joined(b.drop_last())
            + seq![' '] + b.last());
    }
}

/// Arguments keep the order in which they were added: after a batch is
/// added to a builder that already had arguments, the text after `-a` is
/// the earlier arguments' text, one space, then the batch's text, and so is
/// the last process argument.
pub proof fn lemma_order_kept(v: CommandView, tokens: Seq<Seq<char>>)
    requires
        v.arguments.len() > 0,
        tokens.len() > 0,
    ensures
        escaped_args_of(with_args(v, tokens)) == escaped(joined(v.arguments)) + seq![' ']
            + escaped(joined(tokens)),
        process_args_of(with_args(v, tokens))[3] == joined(v.arguments) + seq![' '] + joined(
            tokens,
        ),
{
    lemma_joined_concat(v.arguments, tokens);
    lemma_escaped_concat(joined(v.arguments) + seq![' '], joined(tokens));
    lemma_escaped_concat(joined(v.arguments), seq![' ']);
    assert(escaped(seq![' ']) =~= seq![' ']) by {
        let space = seq![' '];
        assert(space.drop_last() =~= Seq::<char>::empty());
        assert(space.last() == ' ');
        assert(escaped(space.drop_last()) =~= Seq::<char>::empty());
    }
}

/// Adding one argument puts it after all those already there.
pub proof fn lemma_arg_goes_last(v: CommandView, a: Seq<char>)
    requires
        v.arguments.len() > 0,
    ensures
        joined(with_arg(v, a).arguments) == joined(v.arguments) + seq![' '] + a,
{
    assert(v.arguments.push(a).drop_last() =~= v.arguments);
}

} // verus!
