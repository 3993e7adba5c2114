//! The prompt templates this server offers.
use vstd::prelude::*;

verus! {

/// A prompt as `prompts/list` announces it.
pub struct Prompt {
    pub name: &'static str,
    pub description: &'static str,
    pub arguments: Vec<PromptArgument>,
}

/// One argument of a prompt.
pub struct PromptArgument {
    pub name: &'static str,
    pub description: &'static str,
    pub required: bool,
}

pub open spec fn argument_view(a: PromptArgument) -> (Seq<char>, Seq<char>, bool) {
    (a.name@, a.description@, a.required)
}

pub open spec fn prompt_view(p: Prompt) -> (Seq<char>, Seq<char>, Seq<(Seq<char>, Seq<char>, bool)>) {
    (p.name@, p.description@, p.arguments@.map_values(|a: PromptArgument| argument_view(a)))
}

pub open spec fn prompt_views(ps: Seq<Prompt>) -> Seq<
    (Seq<char>, Seq<char>, Seq<(Seq<char>, Seq<char>, bool)>),
> {
    ps.map_values(|p: Prompt| prompt_view(p))
}

/// What `get_prompts` lists, in order: name, description and arguments.
pub open spec fn prompt_table() -> Seq<(Seq<char>, Seq<char>, Seq<(Seq<char>, Seq<char>, bool)>)> {
    seq![
        (
            "analyze_error"@,
            "Analyze a compiler error and suggest fixes"@,
            seq![
                ("file_path"@, "Path to the file with the error"@, true),
                ("error_message"@, "The error message from the compiler"@, true),
            ],
        ),
        (
            "explain_code"@,
            "Explain what a piece of Rust code does"@,
            seq![
                ("file_path"@, "Path to the file"@, true),
                ("line_start"@, "Starting line number"@, true),
                ("line_end"@, "Ending line number"@, false),
            ],
        ),
        (
            "find_similar"@,
            "Find similar code patterns in the codebase"@,
            seq![("symbol_name"@, "Name of the symbol to find similar patterns for"@, true)],
        ),
        (
            "analyze_code"@,
            "Analyze code at a location"@,
            seq![
                ("file_path"@, "Path to the file"@, true),
                ("line"@, "Line number"@, true),
                ("column"@, "Column number"@, false),
            ],
        ),
        (
            "explain_error"@,
            "Explain a compiler error"@,
            seq![
                ("error_message"@, "The error message from the compiler"@, true),
                ("file_path"@, "Path to the file with the error"@, false),
            ],
        ),
    ]
}

/// The prompts this server offers.
pub fn get_prompts() -> (r: Vec<Prompt>)
    ensures
        prompt_views(r@) == prompt_table(),
{
    let analyze = vec![
        PromptArgument {
            name: "file_path",
            description: "Path to the file with the error",
            required: true,
        },
        PromptArgument {
            name: "error_message",
            description: "The error message from the compiler",
            required: true,
        },
    ];
    let explain = vec![
        PromptArgument { name: "file_path", description: "Path to the file", required: true },
        PromptArgument { name: "line_start", description: "Starting line number", required: true },
        PromptArgument { name: "line_end", description: "Ending line number", required: false },
    ];
    let similar = vec![
        PromptArgument {
            name: "symbol_name",
            description: "Name of the symbol to find similar patterns for",
            required: true,
        },
    ];
    let at_location = vec![
        PromptArgument { name: "file_path", description: "Path to the file", required: true },
        PromptArgument { name: "line", description: "Line number", required: true },
        PromptArgument { name: "column", description: "Column number", required: false },
    ];
    let explain_err = vec![
        PromptArgument {
            name: "error_message",
            description: "The error message from the compiler",
            required: true,
        },
        PromptArgument {
            name: "file_path",
            description: "Path to the file with the error",
            required: false,
        },
    ];
    proof {
        assert(at_location@.map_values(|a: PromptArgument| argument_view(a)) =~= prompt_table()[3].2);
        assert(explain_err@.map_values(|a: PromptArgument| argument_view(a)) =~= prompt_table()[4].2);
        assert(analyze@.map_values(|a: PromptArgument| argument_view(a)) =~= prompt_table()[0].2);
        assert(explain@.map_values(|a: PromptArgument| argument_view(a)) =~= prompt_table()[1].2);
        assert(similar@.map_values(|a: PromptArgument| argument_view(a)) =~= prompt_table()[2].2);
    }
    let r = vec![
        Prompt {
            name: "analyze_error",
            description: "Analyze a compiler error and suggest fixes",
            arguments: analyze,
        },
        Prompt {
            name: "explain_code",
            description: "Explain what a piece of Rust code does",
            arguments: explain,
        },
        Prompt {
            name: "find_similar",
            description: "Find similar code patterns in the codebase",
            arguments: similar,
        },
        Prompt {
            name: "analyze_code",
            description: "Analyze code at a location",
            arguments: at_location,
        },
        Prompt {
            name: "explain_error",
            description: "Explain a compiler error",
            arguments: explain_err,
        },
    ];
    proof {
        assert(prompt_views(r@) =~= prompt_table());
    }
    r
}

} // verus!
