//! The prompts the proxy offers itself, and looking one up by name.
use vstd::prelude::*;
use crate::json::{Json, JsonView, items_view, kv, lemma_entries_view_ext, lemma_items_view_ext, lemma_key_index_at};
use crate::proxy::content::{find_named, first_named, lemma_first_named};

verus! {

/// Instructions of the prompt that debugs a backend server.
pub const DEBUG_SERVER_INSTRUCTIONS: &'static str = "This prompt helps you diagnose issues with an MCP server by:\n\
    1. Checking the server status with mcp__proxy__server__list\n\
    2. Reading recent server logs using the proxy://logs/{server_name} resource\n\
    3. Reviewing recent traced requests with mcp__proxy__tracing__get_trace\n\
    4. Suggesting fixes based on common error patterns\n\n\
    Example usage:\n\
    - First, list all servers to get the exact name\n\
    - Then use this prompt with the server name\n\
    - Follow the diagnostic steps in order";

/// Instructions of the prompt that analyses a codebase.
pub const ANALYZE_CODEBASE_INSTRUCTIONS: &'static str = "This prompt combines semantic code analysis with framework documentation:\n\
    1. Activate the project: mcp__proxy__serena__activate_project\n\
    2. Get high-level structure: mcp__proxy__serena__get_symbols_overview\n\
    3. If library_name provided, get docs: mcp__proxy__context7__resolve_library_id\n\
    4. Use mcp__proxy__serena__find_symbol for targeted code reading\n\
    5. Combine code + docs for comprehensive understanding\n\n\
    This approach is token-efficient and provides deep insight into unfamiliar codebases.";

/// Instructions of the prompt that reviews context quality.
pub const REVIEW_CONTEXT_INSTRUCTIONS: &'static str = "This prompt helps maintain high-quality context tracking:\n\
    1. Get quality report: mcp__proxy__tracing__quality_report\n\
    2. Identify contexts below threshold\n\
    3. Use mcp__proxy__tracing__query_context_impact to see which responses were affected\n\
    4. Submit feedback to improve scores: mcp__proxy__tracing__submit_feedback\n\
    5. Review evolution history: mcp__proxy__tracing__get_evolution_history\n\n\
    Regular quality review ensures the context tracing system improves over time.";

/// Instructions of the prompt that tunes the proxy's performance.
pub const OPTIMIZE_PERFORMANCE_INSTRUCTIONS: &'static str = "This prompt guides you through performance optimization:\n\
    1. Read proxy metrics: proxy://metrics resource\n\
    2. Identify slow servers from response times\n\
    3. Check server health: mcp__proxy__server__list\n\
    4. Review error logs for failed requests\n\
    5. Suggest configuration changes (pool size, timeouts, etc.)\n\n\
    Use this when you notice slow response times or want to tune the proxy.";

/// Instructions of the prompt that plans work across servers.
pub const CROSS_SERVER_INSTRUCTIONS: &'static str = "This meta-prompt helps you design and execute multi-server workflows:\n\
    1. Read proxy topology: proxy://topology resource\n\
    2. Identify which servers provide needed capabilities\n\
    3. Design workflow using available tools\n\
    4. Execute steps in logical order\n\
    5. Track progress with context tracing\n\n\
    Example workflows:\n\
    - 'Find all uses of a function across repos' (Serena + Git)\n\
    - 'Update code and validate with docs' (Serena + Context7)\n\
    - 'Test web app and analyze results' (Playwright + Memory)";

/// A prompt argument.
pub open spec fn argument_view(name: Seq<char>, description: Seq<char>, required: bool) -> JsonView {
    JsonView::Object(
        seq![
            ("name"@, JsonView::Str(name)),
            ("description"@, JsonView::Str(description)),
            ("required"@, JsonView::Bool(required)),
        ],
    )
}

/// A prompt definition.
pub open spec fn prompt_view(
    name: Seq<char>,
    description: Seq<char>,
    arguments: Seq<JsonView>,
    instructions: Seq<char>,
) -> JsonView {
    JsonView::Object(
        seq![
            ("name"@, JsonView::Str(name)),
            ("description"@, JsonView::Str(description)),
            ("arguments"@, JsonView::Array(arguments)),
            ("instructions"@, JsonView::Str(instructions)),
        ],
    )
}

/// The proxy's own prompts, in the order they are listed.
pub open spec fn proxy_prompts_view() -> Seq<JsonView> {
    seq![
        prompt_view(
            "debug-mcp-server"@,
            "Debug an MCP server that isn't responding or has errors"@,
            seq![argument_view("server_name"@, "Name of the MCP server to debug"@, true)],
            DEBUG_SERVER_INSTRUCTIONS@,
        ),
        prompt_view(
            "analyze-codebase-with-context"@,
            "Perform comprehensive codebase analysis using Serena + Context7"@,
            seq![
                argument_view("project_path"@, "Absolute path to the project root"@, true),
                argument_view("library_name"@, "Main framework/library used (optional)"@, false),
            ],
            ANALYZE_CODEBASE_INSTRUCTIONS@,
        ),
        prompt_view(
            "review-context-quality"@,
            "Review and improve AI context tracing quality scores"@,
            seq![argument_view("min_score_threshold"@, "Minimum acceptable quality score (0.0-1.0)"@, false)],
            REVIEW_CONTEXT_INSTRUCTIONS@,
        ),
        prompt_view(
            "optimize-server-performance"@,
            "Analyze and optimize proxy server performance"@,
            Seq::empty(),
            OPTIMIZE_PERFORMANCE_INSTRUCTIONS@,
        ),
        prompt_view(
            "cross-server-workflow"@,
            "Execute complex workflows spanning multiple MCP servers"@,
            seq![
                argument_view(
                    "workflow_description"@,
                    "Natural language description of desired workflow"@,
                    true,
                ),
            ],
            CROSS_SERVER_INSTRUCTIONS@,
        ),
    ]
}

/// A prompt argument.
pub fn create_argument(name: &str, description: &str, required: bool) -> (r: Json)
    ensures
        r@ == argument_view(name@, description@, required),
{
    let entries = vec![
        kv("name", Json::string(name)),
        kv("description", Json::string(description)),
        kv("required", Json::Bool(required)),
    ];
    proof {
        lemma_entries_view_ext(entries@, argument_view(name@, description@, required)->Object_0);
    }
    Json::Object(entries)
}

/// A prompt definition.
pub fn create_prompt(name: &str, description: &str, arguments: Vec<Json>, instructions: &str) -> (r: Json)
    ensures
        r@ == prompt_view(name@, description@, items_view(arguments@), instructions@),
{
    let ghost av = items_view(arguments@);
    let entries = vec![
        kv("name", Json::string(name)),
        kv("description", Json::string(description)),
        kv("arguments", Json::Array(arguments)),
        kv("instructions", Json::string(instructions)),
    ];
    proof {
        lemma_entries_view_ext(entries@, prompt_view(name@, description@, av, instructions@)->Object_0);
    }
    Json::Object(entries)
}

/// The proxy's own prompts.
pub fn get_proxy_prompts() -> (r: Vec<Json>)
    ensures
        items_view(r@) == proxy_prompts_view(),
{
    let ghost all = proxy_prompts_view();
    let a0 = vec![create_argument("server_name", "Name of the MCP server to debug", true)];
    proof {
        lemma_items_view_ext(a0@, all[0]->Object_0[2].1->Array_0);
    }
    let p0 = create_prompt(
        "debug-mcp-server",
        "Debug an MCP server that isn't responding or has errors",
        a0,
        DEBUG_SERVER_INSTRUCTIONS,
    );
    let a1 = vec![
        create_argument("project_path", "Absolute path to the project root", true),
        create_argument("library_name", "Main framework/library used (optional)", false),
    ];
    proof {
        lemma_items_view_ext(a1@, all[1]->Object_0[2].1->Array_0);
    }
    let p1 = create_prompt(
        "analyze-codebase-with-context",
        "Perform comprehensive codebase analysis using Serena + Context7",
        a1,
        ANALYZE_CODEBASE_INSTRUCTIONS,
    );
    let a2 = vec![
        create_argument("min_score_threshold", "Minimum acceptable quality score (0.0-1.0)", false),
    ];
    proof {
        lemma_items_view_ext(a2@, all[2]->Object_0[2].1->Array_0);
    }
    let p2 = create_prompt(
        "review-context-quality",
        "Review and improve AI context tracing quality scores",
        a2,
        REVIEW_CONTEXT_INSTRUCTIONS,
    );
    let a3: Vec<Json> = Vec::new();
    proof {
        lemma_items_view_ext(a3@, all[3]->Object_0[2].1->Array_0);
    }
    let p3 = create_prompt(
        "optimize-server-performance",
        "Analyze and optimize proxy server performance",
        a3,
        OPTIMIZE_PERFORMANCE_INSTRUCTIONS,
    );
    let a4 = vec![
        create_argument("workflow_description", "Natural language description of desired workflow", true),
    ];
    proof {
        lemma_items_view_ext(a4@, all[4]->Object_0[2].1->Array_0);
    }
    let p4 = create_prompt(
        "cross-server-workflow",
        "Execute complex workflows spanning multiple MCP servers",
        a4,
        CROSS_SERVER_INSTRUCTIONS,
    );
    let prompts = vec![p0, p1, p2, p3, p4];
    proof {
        lemma_items_view_ext(prompts@, all);
    }
    prompts
}

/// The prompt that `get_prompt` gives for `name`.
pub open spec fn prompt_for(name: Seq<char>) -> Option<JsonView> {
    let i = first_named(proxy_prompts_view(), name);
    if i >= 0 {
        Some(proxy_prompts_view()[i])
    } else {
        None
    }
}

/// The proxy's own prompt called `name`, if it has one. The prompt's
/// arguments are accepted and not used.
pub fn get_prompt(name: &str, arguments: Option<Json>) -> (r: Option<Json>)
    ensures
        match r {
            Some(p) => prompt_for(name@) == Some(p@),
            None => prompt_for(name@) is None,
        },
{
    let mut prompts = get_proxy_prompts();
    match find_named(&prompts, name) {
        Some(i) => {
            proof {
                lemma_first_named(items_view(prompts@), name@);
                crate::json::lemma_items_view(prompts@);
            }
            Some(prompts.remove(i))
        },
        None => None,
    }
}

/// The names of the proxy's own prompts, in the order they are listed.
pub open spec fn proxy_prompt_names() -> Seq<Seq<char>> {
    seq![
        "debug-mcp-server"@,
        "analyze-codebase-with-context"@,
        "review-context-quality"@,
        "optimize-server-performance"@,
        "cross-server-workflow"@,
    ]
}

/// Each listed prompt is found by its name, and a name that no listed
/// prompt has finds nothing.
pub proof fn lemma_prompts_found_by_name(name: Seq<char>)
    ensures
        forall|i: int|
            0 <= i < proxy_prompt_names().len() && name == #[trigger] proxy_prompt_names()[i]
                ==> prompt_for(name) == Some(proxy_prompts_view()[i]),
        !proxy_prompt_names().contains(name) ==> prompt_for(name) is None,
{
    reveal_strlit("debug-mcp-server");
    reveal_strlit("analyze-codebase-with-context");
    reveal_strlit("review-context-quality");
    reveal_strlit("optimize-server-performance");
    reveal_strlit("cross-server-workflow");
    let ps = proxy_prompts_view();
    let ns = proxy_prompt_names();
    assert forall|i: int| 0 <= i < 5 implies #[trigger] ps[i].get_str("name"@) == Some(ns[i]) by {
        lemma_key_index_at(ps[i]->Object_0, "name"@, 0);
    }
    lemma_first_named(ps, name);
    let f = first_named(ps, name);
    if f >= 0 {
        assert(ns[f] == name);
        assert(ns.contains(name));
    }
    assert forall|i: int| 0 <= i < ns.len() && name == #[trigger] ns[i] implies prompt_for(name) == Some(
        ps[i],
    ) by {
        assert(ps[i].get_str("name"@) == Some(ns[i]));
        assert(f >= 0);
        assert(ps[f].get_str("name"@) == Some(ns[f]));
        assert(ns[f] == ns[i]);
        assert(ns[0].len() == 16);
    }
}

} // verus!
