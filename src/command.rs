use vstd::prelude::*;

verus! {

/// Token that asks the external interpreter for diagnostic output.
pub const DEBUG_FLAG: &'static str = "-d";

/// The items joined with a comma between each pair.
pub open spec fn comma_joined(items: Seq<Seq<char>>) -> Seq<char>
    decreases items.len(),
{
    if items.len() == 0 {
        Seq::empty()
    } else if items.len() == 1 {
        items[0]
    } else {
        comma_joined(items.drop_last()) + seq![','] + items.last()
    }
}

/// The argument vector handed to the external interpreter: the debug flag when
/// asked for, the script path, then all script arguments as one comma-joined
/// token. That last token is present even when there are no script arguments,
/// in which case it is empty.
pub open spec fn interpreter_args(script_path: Seq<char>, debug: bool, extra_args: Seq<Seq<char>>) -> Seq<Seq<char>> {
    let head: Seq<Seq<char>> = if debug { seq![DEBUG_FLAG@] } else { Seq::empty() };
    head + seq![script_path, comma_joined(extra_args)]
}

/// A fully resolved command line: the program to start and its arguments.
pub struct Invocation {
    pub program: String,
    pub args: Vec<String>,
}

impl Invocation {
    pub open spec fn program_view(&self) -> Seq<char> {
        self.program@
    }

    pub open spec fn args_view(&self) -> Seq<Seq<char>> {
        self.args.deep_view()
    }
}

/// Joins the script arguments into the single comma-separated token that the
/// external interpreter splits again.
pub fn join_args(extra_args: &Vec<String>) -> (r: String)
    ensures
        r@ == comma_joined(extra_args.deep_view()),
{
    let mut r = String::new();
    let mut i: usize = 0;
    while i < extra_args.len()
        invariant
            0 <= i <= extra_args.len(),
            r@ == comma_joined(extra_args.deep_view().take(i as int)),
        decreases extra_args.len() - i,
    {
        let ghost before = extra_args.deep_view().take(i as int);
        let ghost after = extra_args.deep_view().take(i + 1);
        if i > 0 {
            r.append(",");
            proof {
                reveal_strlit(",");
            }
        }
        r.append(extra_args[i].as_str());
        proof {
            assert(after.drop_last() =~= before);
            assert(after.last() == extra_args[i as int]@);
            if i == 0 {
                assert(before.len() == 0);
                assert(r@ =~= after[0]);
            }
        }
        i += 1;
    }
    proof {
        assert(extra_args.deep_view().take(extra_args.len() as int) =~= extra_args.deep_view());
    }
    r
}

/// Builds the command line that starts the external interpreter at `location`
/// on `script_path`. Two calls with the same arguments give the same command.
pub fn build(location: &str, script_path: &str, debug: bool, extra_args: &Vec<String>) -> (r: Invocation)
    ensures
        r.program_view() == location@,
        r.args_view() == interpreter_args(script_path@, debug, extra_args.deep_view()),
{
    let mut args: Vec<String> = Vec::new();
    if debug {
        args.push(String::from_str(DEBUG_FLAG));
    }
    args.push(String::from_str(script_path));
    args.push(join_args(extra_args));
    let r = Invocation { program: String::from_str(location), args };
    proof {
        assert(r.args_view() =~= interpreter_args(script_path@, debug, extra_args.deep_view()));
    }
    r
}

/// Building twice from the same location, path, debug flag and script
/// arguments gives the same command line.
pub proof fn lemma_build_is_pure(
    first: Invocation,
    second: Invocation,
    location: Seq<char>,
    script_path: Seq<char>,
    debug: bool,
    extra_args: Seq<Seq<char>>,
)
    requires
        first.program_view() == location,
        first.args_view() == interpreter_args(script_path, debug, extra_args),
        second.program_view() == location,
        second.args_view() == interpreter_args(script_path, debug, extra_args),
    ensures
        first.program_view() == second.program_view(),
        first.args_view() == second.args_view(),
{
}

} // verus!
