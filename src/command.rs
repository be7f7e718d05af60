use vstd::prelude::*;
use vstd::string::*;

use crate::quoting::{escape_for_mo2_args, escaped, join_args, joined, quote_path, quoted, texts};

verus! {

/// What a builder holds: the launcher, the program it runs, and the
/// arguments for that program in the order they were added.
pub struct CommandView {
    pub launcher: Seq<char>,
    pub target: Seq<char>,
    pub arguments: Seq<Seq<char>>,
}

/// The word that selects MO2's `run` entry point.
pub open spec fn run_word() -> Seq<char> {
    seq!['r', 'u', 'n']
}

/// The option that carries the program's arguments.
pub open spec fn args_flag() -> Seq<char> {
    seq!['-', 'a']
}

/// `"<launcher>" run "<target>"`.
pub open spec fn head_of(v: CommandView) -> Seq<char> {
    quoted(v.launcher) + seq![' '] + run_word() + seq![' '] + quoted(v.target)
}

/// The text that stands, quoted, after `-a`.
pub open spec fn escaped_args_of(v: CommandView) -> Seq<char> {
    escaped(joined(v.arguments))
}

/// The display string: the head alone when there are no arguments, else the
/// head followed by ` -a "<escaped arguments>"`.
pub open spec fn rendered(v: CommandView) -> Seq<char> {
    if v.arguments.len() == 0 {
        head_of(v)
    } else {
        head_of(v) + seq![' '] + args_flag() + seq![' '] + quoted(escaped_args_of(v))
    }
}

/// The arguments handed to the launcher process: `run`, the target and,
/// when there are arguments, `-a` and the arguments joined without escaping.
pub open spec fn process_args_of(v: CommandView) -> Seq<Seq<char>> {
    if v.arguments.len() == 0 {
        seq![run_word(), v.target]
    } else {
        seq![run_word(), v.target, args_flag(), joined(v.arguments)]
    }
}

/// The state after one more argument.
pub open spec fn with_arg(v: CommandView, a: Seq<char>) -> CommandView {
    CommandView { arguments: v.arguments.push(a), ..v }
}

/// The state after a batch of arguments.
pub open spec fn with_args(v: CommandView, tokens: Seq<Seq<char>>) -> CommandView {
    CommandView { arguments: v.arguments + tokens, ..v }
}

/// The state after adding the tokens one at a time, first to last.
pub open spec fn with_each_arg(v: CommandView, tokens: Seq<Seq<char>>) -> CommandView
    decreases tokens.len(),
{
    if tokens.len() == 0 {
        v
    } else {
        with_arg(with_each_arg(v, tokens.drop_last()), tokens.last())
    }
}

/// Builder for the command line that runs a program through Mod Organizer 2's
/// `ModOrganizer.exe run`.
#[derive(Debug, Clone)]
pub struct MO2Command {
    mo2_path: String,
    program_path: String,
    arguments: Vec<String>,
}

impl View for MO2Command {
    type V = CommandView;

    closed spec fn view(&self) -> CommandView {
        CommandView {
            launcher: self.mo2_path@,
            target: self.program_path@,
            arguments: texts(self.arguments@),
        }
    }
}

impl MO2Command {
    /// A builder for running `program_path` through the launcher at
    /// `mo2_path`, with no arguments yet.
    pub fn new(mo2_path: &str, program_path: &str) -> (r: Self)
        ensures
            r@.launcher == mo2_path@,
            r@.target == program_path@,
            r@.arguments == Seq::<Seq<char>>::empty(),
    {
        let r = MO2Command {
            mo2_path: mo2_path.to_owned(),
            program_path: program_path.to_owned(),
            arguments: Vec::new(),
        };
        assert(texts(r.arguments@) =~= Seq::<Seq<char>>::empty());
        r
    }

    /// Adds one argument for the program, after those already there.
    pub fn arg(self, arg: &str) -> (r: Self)
        ensures
            r@ == with_arg(self@, arg@),
    {
        let mut r = self;
        r.arguments.push(arg.to_owned());
        assert(texts(r.arguments@) =~= texts(self.arguments@).push(arg@));
        r
    }

    /// Adds the arguments for the program in their order, after those
    /// already there.
    pub fn args(self, args: &[&str]) -> (r: Self)
        ensures
            r@ == with_args(self@, args@.map_values(|a: &str| a@)),
    {
        let ghost tokens = args@.map_values(|a: &str| a@);
        let mut r = self;
        for i in 0..args.len()
            invariant
                r.mo2_path == self.mo2_path,
                r.program_path == self.program_path,
                tokens == args@.map_values(|a: &str| a@),
                texts(r.arguments@) =~= texts(self.arguments@) + tokens.take(i as int),
        {
            let ghost prev = r.arguments@;
            r.arguments.push(args[i].to_owned());
            assert(texts(r.arguments@) =~= texts(prev).push(args@[i as int]@));
            assert(tokens.take(i + 1) =~= tokens.take(i as int).push(args@[i as int]@));
            assert(texts(r.arguments@) =~= texts(self.arguments@) + tokens.take(i + 1));
        }
        assert(tokens.take(args.len() as int) =~= tokens);
        r
    }

    /// The launcher's path, which is the executable of the process to start.
    pub fn launcher_path(&self) -> (r: &str)
        ensures
            r@ == self@.launcher,
    {
        self.mo2_path.as_str()
    }

    /// The command as one line:
    /// `"<mo2_path>" run "<program_path>" -a "<arguments>"`, where the
    /// arguments are joined by spaces and their double quotes escaped, and
    /// the `-a` part is left out when there are no arguments.
    pub fn build(&self) -> (r: String)
        ensures
            r@ == rendered(self@),
    {
        let mut r = quote_path(self.mo2_path.as_str());
        proof {
            reveal_strlit(" run ");
        }
        r.append(" run ");
        let target = quote_path(self.program_path.as_str());
        r.append(target.as_str());
        assert(" run "@ =~= seq![' '] + run_word() + seq![' ']);
        assert(r@ =~= head_of(self@));
        if self.arguments.len() > 0 {
            let joined_args = join_args(&self.arguments);
            let escaped_args = escape_for_mo2_args(joined_args.as_str());
            proof {
                reveal_strlit(" -a \"");
                reveal_strlit("\"");
            }
            r.append(" -a \"");
            r.append(escaped_args.as_str());
            r.append("\"");
            assert(" -a \""@ =~= seq![' '] + args_flag() + seq![' ', '"']);
            assert("\""@ =~= seq!['"']);
            assert(r@ =~= rendered(self@));
        }
        r
    }

    /// The arguments for the launcher process, as separate tokens:
    /// `run`, the program's path and, when there are arguments, `-a` and the
    /// arguments joined by spaces, with nothing escaped.
    pub fn process_args(&self) -> (r: Vec<String>)
        ensures
            texts(r@) == process_args_of(self@),
    {
        let mut r: Vec<String> = Vec::new();
        proof {
            reveal_strlit("run");
            reveal_strlit("-a");
        }
        r.push(String::from_str("run"));
        r.push(self.program_path.clone());
        assert("run"@ =~= run_word());
        if self.arguments.len() > 0 {
            r.push(String::from_str("-a"));
            r.push(join_args(&self.arguments));
            assert("-a"@ =~= args_flag());
        }
        assert(texts(r@) =~= process_args_of(self@));
        r
    }
}

} // verus!
