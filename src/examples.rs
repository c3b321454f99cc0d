use vstd::prelude::*;

verus! {

/// Number of bundled example scripts.
pub const EXAMPLE_COUNT: usize = 4;

/// File name of the `n`-th example (counted from one, single digit):
/// `example<n>.brl`.
pub open spec fn example_file_name(n: nat) -> Seq<char> {
    "example"@ + seq![('0' as u8 + n) as char] + ".brl"@
}

/// One filesystem step of generating the examples.
pub enum ExampleStep {
    /// Create this directory and its parents, when absent.
    CreateDir(String),
    /// Write `contents` to the file `name` inside the target directory.
    WriteFile { name: String, contents: String },
}

impl ExampleStep {
    pub open spec fn is_create_dir_of(&self, dir: Seq<char>) -> bool {
        match self {
            ExampleStep::CreateDir(d) => d@ == dir,
            _ => false,
        }
    }

    pub open spec fn is_write_of(&self, file: Seq<char>) -> bool {
        match self {
            ExampleStep::WriteFile { name, contents } => name@ == file && contents@.len() > 0,
            _ => false,
        }
    }
}

/// The bundled example scripts with their file names, in order.
pub fn bundled_examples() -> (r: Vec<(String, String)>)
    ensures
        r.len() == EXAMPLE_COUNT,
        forall|i: int| 0 <= i < r.len() ==> #[trigger] r[i].0@ == example_file_name((i + 1) as nat) && r[i].1@.len() > 0,
{
    proof {
        reveal_strlit("example");
        reveal_strlit(".brl");
        reveal_strlit("example1.brl");
        reveal_strlit("example2.brl");
        reveal_strlit("example3.brl");
        reveal_strlit("example4.brl");
        reveal_strlit("print(\"Hello, world!\");\n");
        reveal_strlit("let x = 1;\nlet y = 2;\nprint(x + y);\n");
        reveal_strlit("let name = \"Beryl\";\nprint(\"Hello, \" + name + \"!\");\n");
        reveal_strlit("let count = 3;\nlet doubled = count * 2;\nprint(doubled);\n");
    }
    let mut r: Vec<(String, String)> = Vec::new();
    r.push((String::from_str("example1.brl"), String::from_str("print(\"Hello, world!\");\n")));
    r.push((String::from_str("example2.brl"), String::from_str("let x = 1;\nlet y = 2;\nprint(x + y);\n")));
    r.push(
        (
            String::from_str("example3.brl"),
            String::from_str("let name = \"Beryl\";\nprint(\"Hello, \" + name + \"!\");\n"),
        ),
    );
    r.push(
        (
            String::from_str("example4.brl"),
            String::from_str("let count = 3;\nlet doubled = count * 2;\nprint(doubled);\n"),
        ),
    );
    assert(r[0].0@ =~= example_file_name(1));
    assert(r[1].0@ =~= example_file_name(2));
    assert(r[2].0@ =~= example_file_name(3));
    assert(r[3].0@ =~= example_file_name(4));
    r
}

/// The steps that write the bundled examples into `target`: the directory is
/// created first, then each example file is written, in order.
pub fn example_steps(target: &str) -> (r: Vec<ExampleStep>)
    ensures
        r.len() == EXAMPLE_COUNT + 1,
        r[0].is_create_dir_of(target@),
        forall|i: int| 1 <= i < r.len() ==> #[trigger] r[i].is_write_of(example_file_name(i as nat)),
{
    let examples = bundled_examples();
    let mut r: Vec<ExampleStep> = Vec::new();
    r.push(ExampleStep::CreateDir(String::from_str(target)));
    let mut i: usize = 0;
    while i < examples.len()
        invariant
            0 <= i <= examples.len(),
            examples.len() == EXAMPLE_COUNT,
            forall|k: int| 0 <= k < examples.len() ==> #[trigger] examples[k].0@ == example_file_name((k + 1) as nat)
                && examples[k].1@.len() > 0,
            r.len() == i + 1,
            r[0].is_create_dir_of(target@),
            forall|j: int| 1 <= j < r.len() ==> #[trigger] r[j].is_write_of(example_file_name(j as nat)),
        decreases examples.len() - i,
    {
        let name = examples[i].0.clone();
        let contents = examples[i].1.clone();
        r.push(ExampleStep::WriteFile { name, contents });
        i += 1;
    }
    r
}

} // verus!
