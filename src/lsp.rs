//! The data exchanged with language servers: requests, results, locations,
//! edits and diagnostics.
use vstd::prelude::*;

verus! {

/// A language server known to the editor.
#[derive(Debug, Clone)]
pub struct LspServer {
    pub id: String,
    pub name: String,
    pub language_id: String,
    pub command: Vec<String>,
    pub workspace_root: String,
    pub capabilities: LspCapabilities,
    pub status: LspServerStatus,
}

/// Where a language server is in its life cycle.
#[derive(Debug, Clone, PartialEq, Eq)]
pub enum LspServerStatus {
    NotStarted,
    Starting,
    Running,
    Stopping,
    Failed(String),
}

/// The requests a language server answers.
#[derive(Debug, Clone, Default)]
pub struct LspCapabilities {
    pub completion_provider: bool,
    pub hover_provider: bool,
    pub definition_provider: bool,
    pub references_provider: bool,
    pub document_formatting_provider: bool,
    pub code_action_provider: bool,
    pub diagnostic_provider: bool,
    pub rename_provider: bool,
}

/// A request to a language server about a file, most at a line and column.
#[derive(Debug, Clone)]
pub enum LspRequest {
    Complete { file_path: String, line: u32, character: u32 },
    Hover { file_path: String, line: u32, character: u32 },
    GotoDefinition { file_path: String, line: u32, character: u32 },
    FindReferences { file_path: String, line: u32, character: u32 },
    FormatDocument { file_path: String },
    CodeActions { file_path: String, line: u32, character: u32, diagnostics: Vec<Diagnostic> },
    Rename { file_path: String, line: u32, character: u32, new_name: String },
}

/// The kind of a completion proposal.
#[derive(Debug, Clone, Copy, PartialEq, Eq, Structural)]
pub enum CompletionItemKind {
    Text,
    Method,
    Function,
    Constructor,
    Field,
    Variable,
    Class,
    Interface,
    Module,
    Property,
    Unit,
    Value,
    Enum,
    Keyword,
    Snippet,
    Color,
    File,
    Reference,
    Folder,
    EnumMember,
    Constant,
    Struct,
    Event,
    Operator,
    TypeParameter,
    Default,
}

/// The answer to a hover request.
#[derive(Debug, Clone, Default)]
pub struct HoverResult {
    pub contents: Vec<HoverContent>,
    pub range: Option<Range>,
}

/// One block of hover text, in a language where one is named.
#[derive(Debug, Clone)]
pub struct HoverContent {
    pub language: Option<String>,
    pub value: String,
}

/// The answer to a go-to-definition request.
#[derive(Debug, Clone, Default)]
pub struct DefinitionResult {
    pub locations: Vec<Location>,
}

/// The answer to a find-references request.
#[derive(Debug, Clone, Default)]
pub struct ReferencesResult {
    pub references: Vec<Location>,
}

/// The answer to a format-document request.
#[derive(Debug, Clone, Default)]
pub struct DocumentFormatResult {
    pub edits: Vec<TextEdit>,
}

/// The answer to a code-actions request.
#[derive(Debug, Clone, Default)]
pub struct CodeActionsResult {
    pub actions: Vec<CodeAction>,
}

/// The answer to a rename request.
#[derive(Debug, Clone, Default)]
pub struct RenameResult {
    pub changes: Vec<FileEdit>,
}

/// A range in a document.
#[derive(Debug, Clone)]
pub struct Location {
    pub uri: String,
    pub range: Range,
}

/// The text between two positions.
#[derive(Debug, Clone, Copy, Default, PartialEq, Eq, Structural)]
pub struct Range {
    pub start: Position,
    pub end: Position,
}

/// A zero-based line and column.
#[derive(Debug, Clone, Copy, Default, PartialEq, Eq, Structural)]
pub struct Position {
    pub line: u32,
    pub character: u32,
}

/// Replace the text of `range` with `new_text`.
#[derive(Debug, Clone)]
pub struct TextEdit {
    pub range: Range,
    pub new_text: String,
}

/// The edits to make to one document.
#[derive(Debug, Clone)]
pub struct FileEdit {
    pub uri: String,
    pub edits: Vec<TextEdit>,
}

/// A fix or refactoring that a server offers, with its edit or the command
/// that performs it.
#[derive(Debug, Clone)]
pub struct CodeAction {
    pub title: String,
    pub kind: CodeActionKind,
    pub edit: Option<TextEdit>,
    pub command: Option<String>,
}

/// The kind of a code action.
#[derive(Debug, Clone, Copy, PartialEq, Eq, Structural)]
pub enum CodeActionKind {
    QuickFix,
    Refactor,
    RefactorExtract,
    RefactorInline,
    RefactorRewrite,
    Source,
    SourceOrganizeImports,
    Default,
}

/// A problem that a server reports in a range of a document.
#[derive(Debug, Clone)]
pub struct Diagnostic {
    pub range: Range,
    pub severity: DiagnosticSeverity,
    pub message: String,
    pub code: Option<String>,
    pub source: Option<String>,
}

/// How serious a diagnostic is.
#[derive(Debug, Clone, Copy, PartialEq, Eq, Structural)]
pub enum DiagnosticSeverity {
    Error,
    Warning,
    Information,
    Hint,
    Default,
}

} // verus!
