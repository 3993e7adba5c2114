//! What each tool reads from its arguments and the text it answers with,
//! given what rust-analyzer returned.
use vstd::prelude::*;
use crate::json::{Json, JsonValue};
use crate::paths::{absolute, joined, path_is_absolute, path_join};
use crate::mcp::protocol::{error_content, error_result, text_content, text_result};
use crate::text::{append_decimal, dec_digits, join, join_strings, lemma_views_push, str_eq, views};

verus! {

/// A place in a file: the file's URI and the start of the range, counted
/// from zero as LSP counts.
pub struct Location {
    pub uri: String,
    pub line: u32,
    pub character: u32,
}

/// A compiler message at a place in a file. `severity` is the LSP number
/// (1 error, 2 warning, 3 information, 4 hint), if any.
pub struct Diagnostic {
    pub line: u32,
    pub character: u32,
    pub severity: Option<i32>,
    pub message: String,
}

/// What a definition request found.
pub enum DefinitionResult {
    Scalar(Location),
    Array(Vec<Location>),
    Link,
}

/// A symbol found in the workspace.
pub struct SymbolInformation {
    pub name: String,
    pub uri: String,
    pub line: u32,
}

/// A symbol of a file's outline. `kind` is the kind's name.
pub struct DocumentSymbol {
    pub name: String,
    pub kind: String,
    pub line: u32,
    pub character: u32,
}

/// An inlay hint: where it stands and its label's parts.
pub struct InlayHint {
    pub line: u32,
    pub character: u32,
    pub label: Vec<String>,
}

/// The expansion of a macro.
pub struct ExpandedMacro {
    pub name: String,
    pub expansion: String,
}

/// A position argument as the tools read it: the 1-based number given (1
/// when absent) less one, truncated to 32 bits. `None` for a given 0, where
/// the subtraction overflows.
pub open spec fn position_arg(args: Json, key: Seq<char>) -> Option<u32> {
    match args.field_u64(key) {
        Some(n) => if n == 0 {
            None
        } else {
            Some((n - 1) as u32)
        },
        None => Some(0),
    }
}

/// Reads a 1-based line or column argument as a 0-based LSP position.
pub fn lsp_position(args: &JsonValue, key: &str) -> (r: Option<u32>)
    ensures
        r == position_arg(args.view(), key@),
{
    match args.get_u64(key) {
        Some(n) => {
            if n == 0 {
                None
            } else {
                Some(#[verifier::truncate] ((n - 1) as u32))
            }
        },
        None => Some(0),
    }
}

/// A text argument, `default` when absent or not text.
pub fn arg_text(args: &JsonValue, key: &str, default: &str) -> (r: String)
    ensures
        r@ == match args.view().field_str(key@) {
            Some(s) => s,
            None => default@,
        },
{
    match args.get_str(key) {
        Some(s) => String::from_str(s),
        None => String::from_str(default),
    }
}

/// An optional text argument.
pub fn arg_opt_text(args: &JsonValue, key: &str) -> (r: Option<String>)
    ensures
        match r {
            Some(s) => args.view().field_str(key@) == Some(s@),
            None => args.view().field_str(key@) is None,
        },
{
    match args.get_str(key) {
        Some(s) => Some(String::from_str(s)),
        None => None,
    }
}

/// A boolean argument, `default` when absent or not a boolean.
pub fn arg_flag(args: &JsonValue, key: &str, default: bool) -> (r: bool)
    ensures
        r == match args.view().field_bool(key@) {
            Some(b) => b,
            None => default,
        },
{
    match args.get_bool(key) {
        Some(b) => b,
        None => default,
    }
}

/// The `limit` of a symbol search: the number given, 50 when absent.
pub fn arg_limit(args: &JsonValue) -> (r: u64)
    ensures
        r == match args.view().field_u64("limit"@) {
            Some(n) => n,
            None => 50,
        },
{
    match args.get_u64("limit") {
        Some(n) => n,
        None => 50,
    }
}

/// Where a tool's file argument points: an absolute path as it is, else
/// under the open project's root. `None` when neither holds, where the
/// path is taken under the current directory instead.
pub open spec fn resolved_file(path: Seq<char>, project_root: Option<Seq<char>>) -> Option<Seq<char>> {
    if absolute(path) {
        Some(path)
    } else {
        match project_root {
            Some(root) => Some(joined(root, path)),
            None => None,
        }
    }
}

pub fn resolve_file(path: &str, project_root: Option<&str>) -> (r: Option<String>)
    ensures
        match r {
            Some(p) => resolved_file(path@, match project_root {
                Some(root) => Some(root@),
                None => None,
            }) == Some(p@),
            None => resolved_file(path@, match project_root {
                Some(root) => Some(root@),
                None => None,
            }) is None,
        },
{
    if path_is_absolute(path) {
        Some(String::from_str(path))
    } else {
        match project_root {
            Some(root) => Some(path_join(root, path)),
            None => None,
        }
    }
}

/// `n + 1`, written in decimal.
pub open spec fn one_based(n: u32) -> Seq<char> {
    dec_digits(n as nat + 1)
}

/// `uri:line:column`, 1-based.
pub open spec fn location_text(l: Location) -> Seq<char> {
    l.uri@ + ":"@ + one_based(l.line) + ":"@ + one_based(l.character)
}

/// Positions that can be shown 1-based without overflow.
pub open spec fn location_ok(l: Location) -> bool {
    l.line < u32::MAX && l.character < u32::MAX
}

fn append_one_based(s: &mut String, n: u32)
    requires
        n < u32::MAX,
    ensures
        final(s)@ == old(s)@ + one_based(n),
{
    append_decimal(s, (n + 1) as u64);
}

/// Writes a location as `uri:line:column`, 1-based.
pub fn format_location(loc: &Location) -> (r: String)
    requires
        location_ok(*loc),
    ensures
        r@ == location_text(*loc),
{
    let mut s = loc.uri.clone();
    s.append(":");
    append_one_based(&mut s, loc.line);
    s.append(":");
    append_one_based(&mut s, loc.character);
    s
}

/// The location texts of a list, in order.
pub open spec fn location_texts(locs: Seq<Location>) -> Seq<Seq<char>> {
    locs.map_values(|l: Location| location_text(l))
}

pub open spec fn all_locations_ok(locs: Seq<Location>) -> bool {
    forall|i: int| 0 <= i < locs.len() ==> location_ok(#[trigger] locs[i])
}

fn format_locations(locs: &[Location], sep: &str) -> (r: String)
    requires
        all_locations_ok(locs@),
    ensures
        r@ == join(location_texts(locs@), sep@),
{
    let mut lines: Vec<String> = Vec::new();
    let mut i: usize = 0;
    while i < locs.len()
        invariant
            i <= locs@.len(),
            all_locations_ok(locs@),
            lines@.len() == i,
            views(lines@) == location_texts(locs@.take(i as int)),
        decreases locs.len() - i,
    {
        let t = format_location(&locs[i]);
        let ghost prev = lines@;
        lines.push(t);
        i = i + 1;
        proof {
            lemma_views_push(prev, lines@[i - 1]);
            assert(lines@ =~= prev.push(lines@[i - 1]));
            assert(location_texts(locs@.take(i as int)) =~= location_texts(locs@.take(i - 1)).push(
                location_text(locs@[i - 1]),
            ));
        }
    }
    proof {
        assert(locs@.take(locs@.len() as int) =~= locs@);
    }
    join_strings(lines.as_slice(), sep)
}

/// The `goto_definition` text.
pub open spec fn definition_text(d: Option<DefinitionResult>) -> Seq<char> {
    match d {
        Some(DefinitionResult::Scalar(l)) => location_text(l),
        Some(DefinitionResult::Array(v)) => join(location_texts(v@), "\n\n"@),
        Some(DefinitionResult::Link) => "Definition found (link)"@,
        None => "No definition found"@,
    }
}

pub fn goto_definition_text(d: &Option<DefinitionResult>) -> (r: String)
    requires
        d matches Some(DefinitionResult::Scalar(l)) ==> location_ok(*l),
        d matches Some(DefinitionResult::Array(v)) ==> all_locations_ok(v@),
    ensures
        r@ == definition_text(*d),
{
    match d {
        Some(DefinitionResult::Scalar(l)) => format_location(l),
        Some(DefinitionResult::Array(v)) => format_locations(v.as_slice(), "\n\n"),
        Some(DefinitionResult::Link) => String::from_str("Definition found (link)"),
        None => String::from_str("No definition found"),
    }
}

/// The `find_references` text: one location per line.
pub fn references_text(locs: &[Location]) -> (r: String)
    requires
        all_locations_ok(locs@),
    ensures
        r@ == join(location_texts(locs@), "\n"@),
{
    format_locations(locs, "\n")
}

/// The `goto_implementation` text: locations separated by blank lines.
pub fn implementations_text(locs: &[Location]) -> (r: String)
    requires
        all_locations_ok(locs@),
    ensures
        r@ == join(location_texts(locs@), "\n\n"@),
{
    format_locations(locs, "\n\n")
}

/// The `goto_type_definition` text.
pub fn type_definition_text(loc: &Option<Location>) -> (r: String)
    requires
        loc matches Some(l) ==> location_ok(*l),
    ensures
        r@ == match loc {
            Some(l) => location_text(*l),
            None => "No type definition found"@,
        },
{
    match loc {
        Some(l) => format_location(l),
        None => String::from_str("No type definition found"),
    }
}

/// The `hover` text: the hover contents, or a note that there is none.
pub fn hover_text(contents: Option<String>) -> (r: String)
    ensures
        r@ == match contents {
            Some(t) => t@,
            None => "No hover information available"@,
        },
{
    match contents {
        Some(t) => t,
        None => String::from_str("No hover information available"),
    }
}

/// The `completions` and `code_action` texts: one label per line.
pub fn lines_text(labels: &[String]) -> (r: String)
    ensures
        r@ == join(views(labels@), "\n"@),
{
    join_strings(labels, "\n")
}

/// The name of an LSP severity number.
pub open spec fn severity_name(s: Option<i32>) -> Seq<char> {
    match s {
        Some(1) => "error"@,
        Some(2) => "warning"@,
        Some(3) => "info"@,
        Some(4) => "hint"@,
        _ => "unknown"@,
    }
}

/// `line:column: [severity] message`, 1-based.
pub open spec fn diagnostic_text(d: Diagnostic) -> Seq<char> {
    one_based(d.line) + ":"@ + one_based(d.character) + ": ["@ + severity_name(d.severity) + "] "@
        + d.message@
}

pub open spec fn diagnostic_ok(d: Diagnostic) -> bool {
    d.line < u32::MAX && d.character < u32::MAX
}

fn severity_str(s: Option<i32>) -> (r: &'static str)
    ensures
        r@ == severity_name(s),
{
    match s {
        Some(1) => "error",
        Some(2) => "warning",
        Some(3) => "info",
        Some(4) => "hint",
        _ => "unknown",
    }
}

/// The diagnostics of a file, one per line.
pub fn format_diagnostics(diagnostics: &[Diagnostic]) -> (r: String)
    requires
        forall|i: int| 0 <= i < diagnostics@.len() ==> diagnostic_ok(#[trigger] diagnostics@[i]),
    ensures
        r@ == join(diagnostics@.map_values(|d: Diagnostic| diagnostic_text(d)), "\n"@),
{
    let mut lines: Vec<String> = Vec::new();
    let mut i: usize = 0;
    while i < diagnostics.len()
        invariant
            i <= diagnostics@.len(),
            forall|k: int| 0 <= k < diagnostics@.len() ==> diagnostic_ok(#[trigger] diagnostics@[k]),
            lines@.len() == i,
            views(lines@) == diagnostics@.take(i as int).map_values(|d: Diagnostic| diagnostic_text(d)),
        decreases diagnostics.len() - i,
    {
        let d = &diagnostics[i];
        let mut s = String::new();
        append_one_based(&mut s, d.line);
        s.append(":");
        append_one_based(&mut s, d.character);
        s.append(": [");
        s.append(severity_str(d.severity));
        s.append("] ");
        s.append(d.message.as_str());
        proof {
            assert(s@ =~= diagnostic_text(*d));
        }
        let ghost prev = lines@;
        lines.push(s);
        i = i + 1;
        proof {
            lemma_views_push(prev, lines@[i - 1]);
            assert(lines@ =~= prev.push(lines@[i - 1]));
            assert(diagnostics@.take(i as int).map_values(|d: Diagnostic| diagnostic_text(d)) =~= diagnostics@.take(i - 1).map_values(
                |d: Diagnostic| diagnostic_text(d),
            ).push(lines@[i - 1]@));
        }
    }
    proof {
        assert(diagnostics@.take(diagnostics@.len() as int) =~= diagnostics@);
    }
    join_strings(lines.as_slice(), "\n")
}

/// The `get_diagnostics` text without a file.
pub fn workspace_diagnostics_text() -> (r: String)
    ensures
        r@ == "Use per-file diagnostics for now."@,
{
    String::from_str("Use per-file diagnostics for now.")
}

/// The `rename_symbol` text.
pub fn rename_text(new_name: &str) -> (r: String)
    ensures
        r@ == "Rename to "@ + new_name@ + " completed"@,
{
    let mut s = String::from_str("Rename to ");
    s.append(new_name);
    s.append(" completed");
    s
}

/// `uri:line - name`, 1-based.
pub open spec fn symbol_text(s: SymbolInformation) -> Seq<char> {
    s.uri@ + ":"@ + one_based(s.line) + " - "@ + s.name@
}

/// The `workspace_symbol` text: one symbol per line.
pub fn workspace_symbol_text(symbols: &[SymbolInformation]) -> (r: String)
    requires
        forall|i: int| 0 <= i < symbols@.len() ==> (#[trigger] symbols@[i]).line < u32::MAX,
    ensures
        r@ == join(symbols@.map_values(|s: SymbolInformation| symbol_text(s)), "\n"@),
{
    let mut lines: Vec<String> = Vec::new();
    let mut i: usize = 0;
    while i < symbols.len()
        invariant
            i <= symbols@.len(),
            forall|k: int| 0 <= k < symbols@.len() ==> (#[trigger] symbols@[k]).line < u32::MAX,
            lines@.len() == i,
            views(lines@) == symbols@.take(i as int).map_values(|s: SymbolInformation| symbol_text(s)),
        decreases symbols.len() - i,
    {
        let sym = &symbols[i];
        let mut s = sym.uri.clone();
        s.append(":");
        append_one_based(&mut s, sym.line);
        s.append(" - ");
        s.append(sym.name.as_str());
        let ghost prev = lines@;
        lines.push(s);
        i = i + 1;
        proof {
            lemma_views_push(prev, lines@[i - 1]);
            assert(lines@ =~= prev.push(lines@[i - 1]));
            assert(symbols@.take(i as int).map_values(|s: SymbolInformation| symbol_text(s)) =~= symbols@.take(i - 1).map_values(
                |s: SymbolInformation| symbol_text(s),
            ).push(lines@[i - 1]@));
        }
    }
    proof {
        assert(symbols@.take(symbols@.len() as int) =~= symbols@);
    }
    join_strings(lines.as_slice(), "\n")
}

/// The symbols a search keeps: the first `limit` of them.
pub fn take_limit<T>(symbols: Vec<T>, limit: usize) -> (r: Vec<T>)
    ensures
        r@ == if symbols@.len() <= limit {
            symbols@
        } else {
            symbols@.take(limit as int)
        },
{
    let mut symbols = symbols;
    if symbols.len() > limit {
        symbols.truncate(limit);
    }
    symbols
}

/// `line:column - name (kind)`, 1-based.
pub open spec fn outline_text(s: DocumentSymbol) -> Seq<char> {
    one_based(s.line) + ":"@ + one_based(s.character) + " - "@ + s.name@ + " ("@ + s.kind@ + ")"@
}

/// The `file_structure` text: one symbol per line.
pub fn file_structure_text(symbols: &[DocumentSymbol]) -> (r: String)
    requires
        forall|i: int|
            0 <= i < symbols@.len() ==> (#[trigger] symbols@[i]).line < u32::MAX && symbols@[i].character
                < u32::MAX,
    ensures
        r@ == join(symbols@.map_values(|s: DocumentSymbol| outline_text(s)), "\n"@),
{
    let mut lines: Vec<String> = Vec::new();
    let mut i: usize = 0;
    while i < symbols.len()
        invariant
            i <= symbols@.len(),
            forall|k: int|
                0 <= k < symbols@.len() ==> (#[trigger] symbols@[k]).line < u32::MAX
                    && symbols@[k].character < u32::MAX,
            lines@.len() == i,
            views(lines@) == symbols@.take(i as int).map_values(|s: DocumentSymbol| outline_text(s)),
        decreases symbols.len() - i,
    {
        let sym = &symbols[i];
        let mut s = String::new();
        append_one_based(&mut s, sym.line);
        s.append(":");
        append_one_based(&mut s, sym.character);
        s.append(" - ");
        s.append(sym.name.as_str());
        s.append(" (");
        s.append(sym.kind.as_str());
        s.append(")");
        proof {
            assert(s@ =~= outline_text(*sym));
        }
        let ghost prev = lines@;
        lines.push(s);
        i = i + 1;
        proof {
            lemma_views_push(prev, lines@[i - 1]);
            assert(lines@ =~= prev.push(lines@[i - 1]));
            assert(symbols@.take(i as int).map_values(|s: DocumentSymbol| outline_text(s)) =~= symbols@.take(i - 1).map_values(
                |s: DocumentSymbol| outline_text(s),
            ).push(lines@[i - 1]@));
        }
    }
    proof {
        assert(symbols@.take(symbols@.len() as int) =~= symbols@);
    }
    join_strings(lines.as_slice(), "\n")
}

/// `line:column: label`, 1-based; the label's parts joined together.
pub open spec fn hint_text(h: InlayHint) -> Seq<char> {
    one_based(h.line) + ":"@ + one_based(h.character) + ": "@ + join(views(h.label@), Seq::empty())
}

/// The `inlay_hints` text: one hint per line.
pub fn inlay_hints_text(hints: &[InlayHint]) -> (r: String)
    requires
        forall|i: int|
            0 <= i < hints@.len() ==> (#[trigger] hints@[i]).line < u32::MAX && hints@[i].character
                < u32::MAX,
    ensures
        r@ == join(hints@.map_values(|h: InlayHint| hint_text(h)), "\n"@),
{
    let mut lines: Vec<String> = Vec::new();
    let mut i: usize = 0;
    while i < hints.len()
        invariant
            i <= hints@.len(),
            forall|k: int|
                0 <= k < hints@.len() ==> (#[trigger] hints@[k]).line < u32::MAX && hints@[k].character
                    < u32::MAX,
            lines@.len() == i,
            views(lines@) == hints@.take(i as int).map_values(|h: InlayHint| hint_text(h)),
        decreases hints.len() - i,
    {
        let h = &hints[i];
        let mut s = String::new();
        append_one_based(&mut s, h.line);
        s.append(":");
        append_one_based(&mut s, h.character);
        s.append(": ");
        let label = join_strings(h.label.as_slice(), "");
        s.append(label.as_str());
        proof {
            reveal_strlit("");
            assert(""@ =~= Seq::<char>::empty());
            assert(s@ =~= hint_text(*h));
        }
        let ghost prev = lines@;
        lines.push(s);
        i = i + 1;
        proof {
            lemma_views_push(prev, lines@[i - 1]);
            assert(lines@ =~= prev.push(lines@[i - 1]));
            assert(hints@.take(i as int).map_values(|h: InlayHint| hint_text(h)) =~= hints@.take(i - 1).map_values(
                |h: InlayHint| hint_text(h),
            ).push(lines@[i - 1]@));
        }
    }
    proof {
        assert(hints@.take(hints@.len() as int) =~= hints@);
    }
    join_strings(lines.as_slice(), "\n")
}

/// The `expand_macro` text.
pub fn expand_macro_text(m: &Option<ExpandedMacro>) -> (r: String)
    ensures
        r@ == match m {
            Some(x) => x.name@ + "\n\n"@ + x.expansion@,
            None => "No macro at position"@,
        },
{
    match m {
        Some(x) => {
            let mut s = x.name.clone();
            s.append("\n\n");
            s.append(x.expansion.as_str());
            s
        },
        None => String::from_str("No macro at position"),
    }
}

/// `label: kind` for each runnable, one per line; the kind as its text.
pub fn runnables_text(runnables: &[(String, String)]) -> (r: String)
    ensures
        r@ == join(
            runnables@.map_values(|p: (String, String)| p.0@ + ": "@ + p.1@),
            "\n"@,
        ),
{
    let mut lines: Vec<String> = Vec::new();
    let mut i: usize = 0;
    while i < runnables.len()
        invariant
            i <= runnables@.len(),
            lines@.len() == i,
            views(lines@) == runnables@.take(i as int).map_values(
                |p: (String, String)| p.0@ + ": "@ + p.1@,
            ),
        decreases runnables.len() - i,
    {
        let mut s = runnables[i].0.clone();
        s.append(": ");
        s.append(runnables[i].1.as_str());
        let ghost prev = lines@;
        lines.push(s);
        i = i + 1;
        proof {
            lemma_views_push(prev, lines@[i - 1]);
            assert(lines@ =~= prev.push(lines@[i - 1]));
            assert(runnables@.take(i as int).map_values(|p: (String, String)| p.0@ + ": "@ + p.1@) =~= runnables@.take(i - 1).map_values(
                |p: (String, String)| p.0@ + ": "@ + p.1@,
            ).push(lines@[i - 1]@));
        }
    }
    proof {
        assert(runnables@.take(runnables@.len() as int) =~= runnables@);
    }
    join_strings(lines.as_slice(), "\n")
}

/// The `format_file` result: success, or the formatter's error output
/// marked as an error.
pub fn format_file_result(success: bool, stderr: &str) -> (r: JsonValue)
    ensures
        success ==> r.view() == text_content("File formatted successfully"@),
        !success ==> r.view() == error_content("Format failed: "@ + stderr@),
{
    if success {
        text_result(String::from_str("File formatted successfully"))
    } else {
        let mut s = String::from_str("Format failed: ");
        s.append(stderr);
        error_result(s)
    }
}

/// The `open_project` text.
pub fn open_project_text(root: &str) -> (r: String)
    ensures
        r@ == "Opened project at: "@ + root@,
{
    let mut s = String::from_str("Opened project at: ");
    s.append(root);
    s
}

/// The `switch_workspace` text.
pub fn switch_workspace_text(root: &str) -> (r: String)
    ensures
        r@ == "Switched to workspace: "@ + root@,
{
    let mut s = String::from_str("Switched to workspace: ");
    s.append(root);
    s
}

/// What the tools answer when no project is open.
pub open spec fn no_project_text() -> Seq<char> {
    "No project opened. Use 'open_project' first."@
}

pub fn no_project_message() -> (r: String)
    ensures
        r@ == no_project_text(),
{
    String::from_str("No project opened. Use 'open_project' first.")
}

/// The `status` text: the server version, rust-analyzer's own status and
/// the binary's version, or the note that no project is open.
pub fn status_text(server_version: &str, lsp_status: Option<String>, ra_version: &str) -> (r: String)
    ensures
        r@ == match lsp_status {
            Some(st) => "rust-analyzer MCP Server v"@ + server_version@ + "\n\nLSP Status:\n"@ + st@
                + "\nBinary version: "@ + ra_version@,
            None => no_project_text(),
        },
{
    match lsp_status {
        Some(st) => {
            let mut s = String::from_str("rust-analyzer MCP Server v");
            s.append(server_version);
            s.append("\n\nLSP Status:\n");
            s.append(st.as_str());
            s.append("\nBinary version: ");
            s.append(ra_version);
            s
        },
        None => no_project_message(),
    }
}

/// Whether a release other than the installed one is out.
pub open spec fn update_available(current: Seq<char>, latest: Seq<char>) -> bool {
    latest != current
}

/// The `check_update` text.
pub fn check_update_text(current: &str, latest: &str) -> (r: String)
    ensures
        update_available(current@, latest@) ==> r@ == "Update available! Current: "@ + current@
            + " → Latest: "@ + latest@,
        !update_available(current@, latest@) ==> r@ == "Up to date: "@ + current@,
{
    if !str_eq(latest, current) {
        let mut s = String::from_str("Update available! Current: ");
        s.append(current);
        s.append(" → Latest: ");
        s.append(latest);
        s
    } else {
        let mut s = String::from_str("Up to date: ");
        s.append(current);
        s
    }
}

/// Whether `update_rust_analyzer` installs: when forced, or when the
/// latest release is not the installed one.
pub fn update_needed(force: bool, current: &str, latest: &str) -> (r: bool)
    ensures
        r == (force || update_available(current@, latest@)),
{
    force || !str_eq(latest, current)
}

/// The `update_rust_analyzer` text when nothing was installed.
pub fn already_latest_text(current: &str) -> (r: String)
    ensures
        r@ == "Already on latest version: "@ + current@,
{
    let mut s = String::from_str("Already on latest version: ");
    s.append(current);
    s
}

/// The `update_rust_analyzer` text after installing.
pub fn updated_text(current: &str, latest: &str) -> (r: String)
    ensures
        r@ == "Updated rust-analyzer: "@ + current@ + " → "@ + latest@,
{
    let mut s = String::from_str("Updated rust-analyzer: ");
    s.append(current);
    s.append(" → ");
    s.append(latest);
    s
}

/// Law: `check_update` reports an update exactly when `update_rust_analyzer`
/// without `force` installs one.
pub proof fn law_check_and_update_agree(current: Seq<char>, latest: Seq<char>)
    ensures
        update_available(current, latest) <==> (latest != current),
        (false || update_available(current, latest)) <==> update_available(current, latest),
{
}

} // verus!
