//! Search parameters, results, symbols and the messages exchanged by the
//! search components.

use vstd::prelude::*;

verus! {

/// How a query is matched.
#[derive(Debug, Clone, Copy, PartialEq, Eq, Structural)]
pub enum SearchMode {
    /// Exact text.
    Literal,
    /// Regular expression.
    Regexp,
    /// Fuzzy match on file and directory paths.
    Filepath,
    /// Fuzzy match on function, type and similar symbol names.
    Symbol,
    /// Fuzzy match on variables, constants, fields and parameters.
    Variable,
}

/// A query together with the mode it is matched in.
#[derive(Debug, Clone)]
pub struct SearchParams {
    pub query: String,
    pub mode: SearchMode,
}

/// One hit of a content, path or symbol search.
#[derive(Debug, Clone, PartialEq)]
pub struct SearchResult {
    pub filename: String,
    pub line: u32,
    /// 1-based column of the hit (for path searches: the match score).
    pub column: u32,
    pub content: String,
}

impl SearchResult {
    /// A field-by-field copy.
    pub fn duplicate(&self) -> (r: SearchResult)
        ensures
            r == *self,
    {
        SearchResult {
            filename: self.filename.clone(),
            line: self.line,
            column: self.column,
            content: self.content.clone(),
        }
    }
}

/// Kinds of symbols that the indexer extracts.
#[derive(Debug, Clone, Copy, PartialEq, Eq, Structural)]
pub enum SymbolType {
    Function,
    Method,
    Class,
    Struct,
    Enum,
    Variable,
    Constant,
    Field,
    Parameter,
    Filename,
    Dirname,
}

/// The lower-case name of a symbol kind, as shown in search results.
pub open spec fn symbol_type_name(t: SymbolType) -> Seq<char> {
    match t {
        SymbolType::Function => "function"@,
        SymbolType::Method => "method"@,
        SymbolType::Class => "class"@,
        SymbolType::Struct => "struct"@,
        SymbolType::Enum => "enum"@,
        SymbolType::Variable => "variable"@,
        SymbolType::Constant => "constant"@,
        SymbolType::Field => "field"@,
        SymbolType::Parameter => "parameter"@,
        SymbolType::Filename => "filename"@,
        SymbolType::Dirname => "dirname"@,
    }
}

/// The icon shown in front of a symbol of this kind.
pub open spec fn symbol_type_icon(t: SymbolType) -> Seq<char> {
    match t {
        SymbolType::Function => "🔧"@,
        SymbolType::Method => "🔩"@,
        SymbolType::Class => "🏛"@,
        SymbolType::Struct => "📦"@,
        SymbolType::Enum => "🔢"@,
        SymbolType::Variable => "📝"@,
        SymbolType::Constant => "🔒"@,
        SymbolType::Field => "🏷"@,
        SymbolType::Parameter => "🎛"@,
        SymbolType::Filename => "📄"@,
        SymbolType::Dirname => "📁"@,
    }
}

/// Whether a symbol kind names a value (variable, constant, field or parameter).
pub open spec fn is_value_kind(t: SymbolType) -> bool {
    t == SymbolType::Variable || t == SymbolType::Constant || t == SymbolType::Field
        || t == SymbolType::Parameter
}

impl SymbolType {
    /// The lower-case name of this kind.
    pub fn display_name(&self) -> (r: &'static str)
        ensures
            r@ == symbol_type_name(*self),
    {
        match self {
            SymbolType::Function => "function",
            SymbolType::Method => "method",
            SymbolType::Class => "class",
            SymbolType::Struct => "struct",
            SymbolType::Enum => "enum",
            SymbolType::Variable => "variable",
            SymbolType::Constant => "constant",
            SymbolType::Field => "field",
            SymbolType::Parameter => "parameter",
            SymbolType::Filename => "filename",
            SymbolType::Dirname => "dirname",
        }
    }

    /// The icon shown in front of a symbol of this kind.
    pub fn icon(&self) -> (r: &'static str)
        ensures
            r@ == symbol_type_icon(*self),
    {
        match self {
            SymbolType::Function => "🔧",
            SymbolType::Method => "🔩",
            SymbolType::Class => "🏛",
            SymbolType::Struct => "📦",
            SymbolType::Enum => "🔢",
            SymbolType::Variable => "📝",
            SymbolType::Constant => "🔒",
            SymbolType::Field => "🏷",
            SymbolType::Parameter => "🎛",
            SymbolType::Filename => "📄",
            SymbolType::Dirname => "📁",
        }
    }

    /// Whether this kind names a value (variable, constant, field or parameter).
    pub fn is_value(&self) -> (r: bool)
        ensures
            r == is_value_kind(*self),
    {
        match self {
            SymbolType::Variable | SymbolType::Constant | SymbolType::Field
            | SymbolType::Parameter => true,
            _ => false,
        }
    }
}

/// A symbol found in a source file.
#[derive(Debug, Clone)]
pub struct Symbol {
    pub filepath: String,
    pub line: u32,
    pub column: u32,
    pub content: String,
    pub symbol_type: SymbolType,
}

impl Symbol {
    /// A symbol with the given location, text and kind.
    pub fn new(filepath: String, line: u32, column: u32, content: String, symbol_type: SymbolType) -> (s: Symbol)
        ensures
            s.filepath == filepath,
            s.line == line,
            s.column == column,
            s.content == content,
            s.symbol_type == symbol_type,
    {
        Symbol { filepath, line, column, content, symbol_type }
    }

    /// A field-by-field copy.
    pub fn duplicate(&self) -> (r: Symbol)
        ensures
            r == *self,
    {
        Symbol {
            filepath: self.filepath.clone(),
            line: self.line,
            column: self.column,
            content: self.content.clone(),
            symbol_type: self.symbol_type,
        }
    }
}

/// Messages exchanged between the search components.
#[derive(Debug, Clone)]
pub enum FaeMessage {
    UpdateSearchParams { params: SearchParams, request_id: String },
    /// Request to abort the current search.
    AbortSearch,
    ClearResults,
    PushSearchResult { result: SearchResult, request_id: String },
    /// A search component finished.
    CompleteSearch,
    /// Final report of a search with its number of results.
    NotifySearchReport { result_count: usize },
    /// Forget the symbols of a file.
    ClearSymbolIndex(String),
    PushSymbolIndex {
        filepath: String,
        line: u32,
        column: u32,
        name: String,
        content: String,
        symbol_type: SymbolType,
    },
    /// All symbols of a file were sent.
    CompleteSymbolIndex(String),
    /// The initial indexing of the whole tree is done.
    CompleteInitialIndexing,
    /// Progress of symbol indexing.
    ReportSymbolIndex { queued_files: usize, indexed_files: usize, symbols_found: usize },
    DetectFileCreate(String),
    DetectFileUpdate(String),
    DetectFileDelete(String),
    QuerySymbols { pattern: String, limit: Option<u32> },
}

/// A symbol with its kind and location, as produced by the indexer.
#[derive(Debug, Clone)]
pub struct CodeSymbol {
    pub name: String,
    pub symbol_type: SymbolType,
    pub file: String,
    pub line: u32,
    pub column: u32,
    pub context: Option<String>,
}

} // verus!

verus! {

/// What a search component asks its runner to do after handling an event.
#[derive(Debug, Clone)]
pub enum HandlerAction {
    /// Send a message to the other components.
    Send { method: String, payload: FaeMessage },
    /// Start the external search command for these parameters.
    Spawn(SearchParams),
}

/// Whether an action sends a message with this method and a payload that
/// satisfies `p`.
pub open spec fn is_send(a: HandlerAction, method: Seq<char>, p: spec_fn(FaeMessage) -> bool) -> bool {
    a matches HandlerAction::Send { method: m, payload } && m@ == method && p(payload)
}

/// A program and its arguments.
#[derive(Debug, Clone)]
pub struct CommandLine {
    pub program: String,
    pub args: Vec<String>,
}

/// The texts of a sequence of strings.
pub open spec fn texts(v: Seq<String>) -> Seq<Seq<char>> {
    v.map_values(|s: String| s@)
}

/// A vector of owned copies of the given string slices.
pub fn owned_strings(v: &Vec<&str>) -> (r: Vec<String>)
    ensures
        texts(r@) == v@.map_values(|s: &str| s@),
{
    let mut r: Vec<String> = Vec::new();
    let mut i: usize = 0;
    while i < v.len()
        invariant
            i <= v@.len(),
            r@.len() == i,
            forall|k: int| 0 <= k < i ==> #[trigger] r@[k]@ == v@[k]@,
        decreases v@.len() - i,
    {
        r.push(v[i].to_owned());
        i = i + 1;
    }
    assert(texts(r@) =~= v@.map_values(|s: &str| s@));
    r
}

} // verus!

verus! {

/// The plain values of a search result.
pub struct ResultView {
    pub filename: Seq<char>,
    pub line: u32,
    pub column: u32,
    pub content: Seq<char>,
}

impl View for SearchResult {
    type V = ResultView;

    open spec fn view(&self) -> ResultView {
        ResultView { filename: self.filename@, line: self.line, column: self.column, content: self.content@ }
    }
}

/// The plain values of search results.
pub open spec fn result_views(v: Seq<SearchResult>) -> Seq<ResultView> {
    v.map_values(|r: SearchResult| r@)
}

} // verus!
