//! Structured diagnostic records and the append-only sink that collects
//! them. A diagnostic is a stable error code, a human-readable message,
//! a primary source location plus optional secondary locations with
//! their own messages, and zero or more free-text notes; rendering them
//! for humans is a downstream layer's concern.

use vstd::prelude::*;
use vstd::string::StringExecFns;

use crate::symbol::SymbolKind;
use crate::Location;

verus! {

/// A source location a diagnostic points at, with its own message.
#[derive(Debug)]
pub struct Label {
    /// Primary labels carry the main location; secondary labels add
    /// context.
    pub primary: bool,
    pub location: Location,
    pub message: String,
}

/// Specification-level view of [`Label`].
#[verifier::ext_equal]
pub struct LabelView {
    pub primary: bool,
    pub location: Location,
    pub message: Seq<char>,
}

impl View for Label {
    type V = LabelView;

    open spec fn view(&self) -> LabelView {
        LabelView { primary: self.primary, location: self.location, message: self.message@ }
    }
}

impl Location {
    /// Wraps the location as a primary label with an empty message.
    pub fn to_primary_label(self) -> (r: Label)
        ensures
            r@ == (LabelView { primary: true, location: self, message: Seq::<char>::empty() }),
    {
        Label { primary: true, location: self, message: String::new() }
    }

    /// Wraps the location as a secondary label with an empty message.
    pub fn to_secondary_label(self) -> (r: Label)
        ensures
            r@ == (LabelView { primary: false, location: self, message: Seq::<char>::empty() }),
    {
        Label { primary: false, location: self, message: String::new() }
    }

    /// The one-byte location right after the given byte offset in the
    /// given file.
    pub fn next_byte_location_at(offset: usize, filepath: u64) -> (r: Location)
        requires
            offset < usize::MAX,
        ensures
            r == (Location { filepath, start: offset, end: (offset + 1) as usize }),
    {
        Location { filepath, start: offset, end: offset + 1 }
    }
}

impl Label {
    /// Replaces the label's message.
    pub fn with_message(self, message: String) -> (r: Label)
        ensures
            r@ == (LabelView { message: message@, ..self@ }),
    {
        Label { message, ..self }
    }
}

/// One structured diagnostic record.
#[derive(Debug)]
pub struct Diagnostic {
    /// Stable error code; empty where the producing stage assigns none.
    pub code: String,
    pub message: String,
    pub labels: Vec<Label>,
    pub notes: Vec<String>,
}

/// Specification-level view of [`Diagnostic`].
#[verifier::ext_equal]
pub struct DiagnosticView {
    pub code: Seq<char>,
    pub message: Seq<char>,
    pub labels: Seq<LabelView>,
    pub notes: Seq<Seq<char>>,
}

impl View for Diagnostic {
    type V = DiagnosticView;

    open spec fn view(&self) -> DiagnosticView {
        DiagnosticView {
            code: self.code@,
            message: self.message@,
            labels: Seq::new(self.labels@.len(), |i: int| self.labels@[i]@),
            notes: Seq::new(self.notes@.len(), |i: int| self.notes@[i]@),
        }
    }
}

/// The shared append-only diagnostics sink: every recoverable error any
/// phase reports lands here, tagged with the file it belongs to.
#[derive(Debug)]
pub struct Diagnostics {
    diagnostics: Vec<(u64, Diagnostic)>,
}

impl View for Diagnostics {
    type V = Seq<(u64, DiagnosticView)>;

    closed spec fn view(&self) -> Seq<(u64, DiagnosticView)> {
        Seq::new(self.diagnostics@.len(), |i: int| (self.diagnostics@[i].0, self.diagnostics@[i].1@))
    }
}

impl Diagnostics {
    /// Creates an empty sink.
    pub fn new() -> (r: Self)
        ensures
            r@ == Seq::<(u64, DiagnosticView)>::empty(),
    {
        let r = Diagnostics { diagnostics: Vec::new() };
        proof {
            assert(r@ =~= Seq::<(u64, DiagnosticView)>::empty());
        }
        r
    }

    /// Appends one diagnostic, tagged with the file it was found in.
    pub fn add_single_file_diagnostic(&mut self, filepath: u64, diagnostic: Diagnostic)
        ensures
            final(self)@ == old(self)@.push((filepath, diagnostic@)),
    {
        let ghost target = old(self)@.push((filepath, diagnostic@));
        self.diagnostics.push((filepath, diagnostic));
        proof {
            assert(self@ =~= target);
        }
    }

    /// The number of diagnostics recorded so far.
    pub fn len(&self) -> (r: usize)
        ensures
            r == self@.len(),
    {
        self.diagnostics.len()
    }

    /// `true` while no diagnostic has been recorded.
    pub fn is_ok(&self) -> (r: bool)
        ensures
            r == (self@.len() == 0),
    {
        self.diagnostics.len() == 0
    }

    /// Returns the recorded diagnostic at the given position, with the
    /// file it was tagged with.
    pub fn get(&self, i: usize) -> (r: &(u64, Diagnostic))
        requires
            i < self@.len(),
        ensures
            r.0 == self@[i as int].0,
            r.1@ == self@[i as int].1,
    {
        &self.diagnostics[i]
    }
}

/// Views of a sequence of strings.
pub open spec fn strings_deep(s: Seq<String>) -> Seq<Seq<char>> {
    Seq::new(s.len(), |i: int| s[i]@)
}

/// A comma-separated list: `a, b, c`.
pub open spec fn comma_list_spec(items: Seq<Seq<char>>) -> Seq<char>
    decreases items.len(),
{
    if items.len() == 0 {
        Seq::empty()
    } else if items.len() == 1 {
        items[0]
    } else {
        comma_list_spec(items.drop_last()) + ", "@ + items.last()
    }
}

/// An English enumeration of alternatives: `a, b or c`.
pub open spec fn one_of_spec(items: Seq<Seq<char>>) -> Seq<char> {
    if items.len() <= 1 {
        comma_list_spec(items)
    } else {
        comma_list_spec(items.drop_last()) + " or "@ + items.last()
    }
}

/// The list of token descriptions a parse stage expected at some point.
#[derive(Debug)]
pub struct Expected(pub Vec<String>);

impl Expected {
    /// Renders the list as an English enumeration: `a, b or c`.
    pub fn to_display_string(&self) -> (r: String)
        requires
            self.0@.len() > 0,
        ensures
            r@ == one_of_spec(strings_deep(self.0@)),
    {
        let n: usize = self.0.len();
        let mut s: String = self.0[0].clone();
        proof {
            assert(strings_deep(self.0@).take(1) =~= seq![self.0@[0]@]);
            assert(s@ == comma_list_spec(strings_deep(self.0@).take(1)));
        }
        let mut i: usize = 1;
        while i < n - 1
            invariant
                n == self.0@.len(),
                n > 0,
                1 <= i <= n,
                i < n || n == 1,
                s@ == comma_list_spec(strings_deep(self.0@).take(i as int)),
            decreases n - i,
        {
            s.append(", ");
            s.append(self.0[i].as_str());
            proof {
                let all = strings_deep(self.0@);
                assert(all.take(i + 1).drop_last() =~= all.take(i as int));
                assert(all.take(i + 1).last() == self.0@[i as int]@);
            }
            i += 1;
        }
        if n > 1 {
            s.append(" or ");
            s.append(self.0[n - 1].as_str());
            proof {
                let all = strings_deep(self.0@);
                assert(all.take(n - 1 as int) =~= all.drop_last());
                assert(all.last() == self.0@[n - 1 as int]@);
            }
        } else {
            proof {
                assert(strings_deep(self.0@).take(1) =~= strings_deep(self.0@));
            }
        }
        s
    }
}


/// A token as the upstream parser describes it: its location and its
/// rendered text.
#[derive(Debug)]
pub struct Token {
    pub location: Location,
    pub raw: String,
}

/// A lexing error as the upstream tokenizer describes it: its location
/// and its rendered text.
#[derive(Debug)]
pub struct LexError {
    pub location: Location,
    pub raw: String,
}

/// The kind of module item inside which a syntactic error occurred.
#[derive(Debug, Clone, Copy, PartialEq, Eq, Structural)]
pub enum ModuleItemKind {
    Enum,
    Function,
    Import,
    Interface,
    Struct,
    TupleLikeStruct,
    TypeAlias,
}

/// Display text of a module item kind.
pub open spec fn module_item_kind_display(k: ModuleItemKind) -> Seq<char> {
    match k {
        ModuleItemKind::Enum => "enum"@,
        ModuleItemKind::Function => "function"@,
        ModuleItemKind::Import => "import"@,
        ModuleItemKind::Interface => "interface"@,
        ModuleItemKind::Struct => "struct"@,
        ModuleItemKind::TupleLikeStruct => "tuple-like struct"@,
        ModuleItemKind::TypeAlias => "type alias"@,
    }
}

impl ModuleItemKind {
    /// Returns the display text of the kind.
    pub fn to_display_string(self) -> (r: String)
        ensures
            r@ == module_item_kind_display(self),
    {
        match self {
            ModuleItemKind::Enum => String::from_str("enum"),
            ModuleItemKind::Function => String::from_str("function"),
            ModuleItemKind::Import => String::from_str("import"),
            ModuleItemKind::Interface => String::from_str("interface"),
            ModuleItemKind::Struct => String::from_str("struct"),
            ModuleItemKind::TupleLikeStruct => String::from_str("tuple-like struct"),
            ModuleItemKind::TypeAlias => String::from_str("type alias"),
        }
    }
}

/// Display text of a symbol kind.
pub open spec fn symbol_kind_display(k: SymbolKind) -> Seq<char> {
    match k {
        SymbolKind::Module => "a module"@,
        SymbolKind::Enum => "an enum"@,
        SymbolKind::Struct => "a struct"@,
        SymbolKind::Function => "a function"@,
        SymbolKind::Interface => "an interface"@,
        SymbolKind::TupleLikeStruct => "a tuple-like struct"@,
        SymbolKind::TypeAlias => "a type alias"@,
        SymbolKind::EnumItem => "an enum item"@,
    }
}

/// Returns the display text of a symbol kind.
pub fn symbol_kind_display_string(k: SymbolKind) -> (r: String)
    ensures
        r@ == symbol_kind_display(k),
{
    match k {
        SymbolKind::Module => String::from_str("a module"),
        SymbolKind::Enum => String::from_str("an enum"),
        SymbolKind::Struct => String::from_str("a struct"),
        SymbolKind::Function => String::from_str("a function"),
        SymbolKind::Interface => String::from_str("an interface"),
        SymbolKind::TupleLikeStruct => String::from_str("a tuple-like struct"),
        SymbolKind::TypeAlias => String::from_str("a type alias"),
        SymbolKind::EnumItem => String::from_str("an enum item"),
    }
}

/// Record built for an error found while tokenizing.
pub open spec fn lex_error_diag_spec(raw: Seq<char>, location: Location) -> DiagnosticView {
    DiagnosticView {
        code: "E000"@,
        message: raw,
        labels: seq![LabelView { primary: true, location, message: Seq::<char>::empty() }],
        notes: Seq::<Seq<char>>::empty(),
    }
}

/// Diagnostic for an error that occurred while tokenizing.
#[derive(Debug)]
pub struct LexErrorDiagnostic(pub LexError);

impl LexErrorDiagnostic {
    /// Builds the structured record.
    pub fn build(self) -> (r: Diagnostic)
        ensures
            r@ == lex_error_diag_spec(self.0.raw@, self.0.location),
    {
        let mut labels: Vec<Label> = Vec::new();
        labels.push(self.0.location.to_primary_label());
        let r = Diagnostic {
            code: String::from_str("E000"),
            message: self.0.raw,
            labels,
            notes: Vec::new(),
        };
        proof {
            assert(r@ =~= lex_error_diag_spec(self.0.raw@, self.0.location));
        }
        r
    }
}

/// Record built for an unexpected token.
pub open spec fn unexpected_token_diag_spec(
    offset: Option<usize>,
    got_raw: Seq<char>,
    got_location: Location,
    expected: Seq<Seq<char>>,
    node: Seq<char>,
) -> DiagnosticView {
    DiagnosticView {
        code: "E001"@,
        message: "expected "@ + one_of_spec(expected) + ", found "@ + got_raw,
        labels: match offset {
            Some(o) => seq![
                LabelView {
                    primary: false,
                    location: Location {
                        filepath: got_location.filepath,
                        start: o,
                        end: (o + 1) as usize,
                    },
                    message: "expected "@ + one_of_spec(expected),
                },
                LabelView { primary: true, location: got_location, message: "found "@ + got_raw },
            ],
            None => seq![
                LabelView {
                    primary: true,
                    location: got_location,
                    message: "expected "@ + one_of_spec(expected) + " for "@ + node,
                },
            ],
        },
        notes: Seq::<Seq<char>>::empty(),
    }
}

/// Diagnostic for an unexpected token.
#[derive(Debug)]
pub struct UnexpectedTokenDiagnostic {
    /// End byte offset of the token before the unexpected one, if known.
    pub offset: Option<usize>,
    /// The token that was not expected.
    pub got: Token,
    /// Tokens that were expected instead.
    pub expected: Expected,
    /// The syntactic construct being parsed when the error occurred.
    pub node: String,
}

impl UnexpectedTokenDiagnostic {
    /// Creates a new unexpected-token diagnostic.
    pub fn new(offset: Option<usize>, got: Token, expected: Expected, node: String) -> (r: Self)
        ensures
            r.offset == offset,
            r.got.location == got.location,
            r.got.raw@ == got.raw@,
            r.expected.0@ == expected.0@,
            r.node@ == node@,
    {
        UnexpectedTokenDiagnostic { offset, got, expected, node }
    }

    /// Builds the structured record.
    pub fn build(self) -> (r: Diagnostic)
        requires
            self.expected.0@.len() > 0,
            self.offset is Some ==> self.offset->0 < usize::MAX,
        ensures
            r@ == unexpected_token_diag_spec(
                self.offset,
                self.got.raw@,
                self.got.location,
                strings_deep(self.expected.0@),
                self.node@,
            ),
    {
        let expected_text = self.expected.to_display_string();
        let mut message = String::from_str("expected ");
        message.append(expected_text.as_str());
        message.append(", found ");
        message.append(self.got.raw.as_str());
        let mut labels: Vec<Label> = Vec::new();
        if let Some(offset) = self.offset {
            let mut secondary_message = String::from_str("expected ");
            secondary_message.append(expected_text.as_str());
            labels.push(
                Location::next_byte_location_at(offset, self.got.location.filepath)
                    .to_secondary_label()
                    .with_message(secondary_message),
            );
            let mut primary_message = String::from_str("found ");
            primary_message.append(self.got.raw.as_str());
            labels.push(self.got.location.to_primary_label().with_message(primary_message));
        } else {
            let mut primary_message = String::from_str("expected ");
            primary_message.append(expected_text.as_str());
            primary_message.append(" for ");
            primary_message.append(self.node.as_str());
            labels.push(self.got.location.to_primary_label().with_message(primary_message));
        }
        let r = Diagnostic {
            code: String::from_str("E001"),
            message,
            labels,
            notes: Vec::new(),
        };
        proof {
            assert(r@ =~= unexpected_token_diag_spec(
                self.offset,
                self.got.raw@,
                self.got.location,
                strings_deep(self.expected.0@),
                self.node@,
            ));
        }
        r
    }
}

/// Record built for an integer literal that overflows.
pub open spec fn integer_overflow_diag_spec(location: Location) -> DiagnosticView {
    DiagnosticView {
        code: "E002"@,
        message: "unexpected integer overflow"@,
        labels: seq![
            LabelView {
                primary: true,
                location,
                message: "error appeared when parsing this integer"@,
            },
        ],
        notes: seq![
            "note: integer cannot exceed the maximum value of `u64` (u64.max() == 18_446_744_073_709_551_615)"@,
            "note: you can use exponent to do so, but be careful!"@,
        ],
    }
}

/// Diagnostic for an integer literal that overflows.
#[derive(Debug, Clone, Copy, PartialEq, Eq, Structural)]
pub struct IntegerOverflowDiagnostic {
    /// Location of the number whose parsing overflowed.
    pub location: Location,
}

impl IntegerOverflowDiagnostic {
    /// Builds the structured record.
    pub fn build(self) -> (r: Diagnostic)
        ensures
            r@ == integer_overflow_diag_spec(self.location),
    {
        let mut labels: Vec<Label> = Vec::new();
        labels.push(
            self.location.to_primary_label().with_message(
                String::from_str("error appeared when parsing this integer"),
            ),
        );
        let mut notes: Vec<String> = Vec::new();
        notes.push(
            String::from_str(
                "note: integer cannot exceed the maximum value of `u64` (u64.max() == 18_446_744_073_709_551_615)",
            ),
        );
        notes.push(String::from_str("note: you can use exponent to do so, but be careful!"));
        let r = Diagnostic {
            code: String::from_str("E002"),
            message: String::from_str("unexpected integer overflow"),
            labels,
            notes,
        };
        proof {
            assert(r@ =~= integer_overflow_diag_spec(self.location));
        }
        r
    }
}

/// Record built for a float literal that overflows.
pub open spec fn float_overflow_diag_spec(location: Location) -> DiagnosticView {
    DiagnosticView {
        code: "E003"@,
        message: "unexpected float overflow"@,
        labels: seq![
            LabelView {
                primary: true,
                location,
                message: "error appeared when parsing this float literal"@,
            },
        ],
        notes: seq![
            "note: float literal cannot exceed the maximum value of `f64`"@,
            "note: you can use exponent to do so, but be careful, especially when working with floats!"@,
        ],
    }
}

/// Diagnostic for a float literal that overflows.
#[derive(Debug, Clone, Copy, PartialEq, Eq, Structural)]
pub struct FloatOverflowDiagnostic {
    /// Location of the number whose parsing overflowed.
    pub location: Location,
}

impl FloatOverflowDiagnostic {
    /// Builds the structured record.
    pub fn build(self) -> (r: Diagnostic)
        ensures
            r@ == float_overflow_diag_spec(self.location),
    {
        let mut labels: Vec<Label> = Vec::new();
        labels.push(
            self.location.to_primary_label().with_message(
                String::from_str("error appeared when parsing this float literal"),
            ),
        );
        let mut notes: Vec<String> = Vec::new();
        notes.push(String::from_str("note: float literal cannot exceed the maximum value of `f64`"));
        notes.push(
            String::from_str(
                "note: you can use exponent to do so, but be careful, especially when working with floats!",
            ),
        );
        let r = Diagnostic {
            code: String::from_str("E003"),
            message: String::from_str("unexpected float overflow"),
            labels,
            notes,
        };
        proof {
            assert(r@ =~= float_overflow_diag_spec(self.location));
        }
        r
    }
}

/// Context in which an unnecessary visibility qualifier was found.
#[derive(Debug, Clone, Copy, PartialEq, Eq, Structural)]
pub enum UnnecessaryVisibilityQualifierContext {
    /// A `pub` on an interface method, which is public anyway.
    InterfaceMethod {
        /// Location of the method's name.
        name_location: Location,
    },
    /// A `pub` on an import.
    Import,
}

/// Record built for an unnecessary visibility qualifier.
pub open spec fn unnecessary_visibility_qualifier_diag_spec(
    location: Location,
    context: UnnecessaryVisibilityQualifierContext,
) -> DiagnosticView {
    DiagnosticView {
        code: "E004"@,
        message: "unnecessary visibility qualifier"@,
        labels: match context {
            UnnecessaryVisibilityQualifierContext::InterfaceMethod { name_location } => seq![
                LabelView { primary: true, location, message: "consider removing this `pub`"@ },
                LabelView {
                    primary: false,
                    location: name_location,
                    message: "happened when analyzing the interface method"@,
                },
            ],
            UnnecessaryVisibilityQualifierContext::Import => seq![
                LabelView { primary: true, location, message: "consider removing this `pub`"@ },
            ],
        },
        notes: match context {
            UnnecessaryVisibilityQualifierContext::InterfaceMethod { .. } => seq![
                "note: using `pub` for interface method will not make the method public"@,
                "note: all interface methods are public by default"@,
            ],
            UnnecessaryVisibilityQualifierContext::Import => seq![
                "note: using `pub` will not make the import public."@,
            ],
        },
    }
}

/// Diagnostic for an unnecessary visibility qualifier.
#[derive(Debug, Clone, Copy, PartialEq, Eq, Structural)]
pub struct UnnecessaryVisibilityQualifierDiagnostic {
    /// Location of the `pub`.
    pub location: Location,
    /// Context in which the qualifier was found.
    pub context: UnnecessaryVisibilityQualifierContext,
}

impl UnnecessaryVisibilityQualifierDiagnostic {
    /// Builds the structured record.
    pub fn build(self) -> (r: Diagnostic)
        ensures
            r@ == unnecessary_visibility_qualifier_diag_spec(self.location, self.context),
    {
        let mut labels: Vec<Label> = Vec::new();
        labels.push(
            self.location.to_primary_label().with_message(
                String::from_str("consider removing this `pub`"),
            ),
        );
        let mut notes: Vec<String> = Vec::new();
        match self.context {
            UnnecessaryVisibilityQualifierContext::InterfaceMethod { name_location } => {
                labels.push(
                    name_location.to_secondary_label().with_message(
                        String::from_str("happened when analyzing the interface method"),
                    ),
                );
                notes.push(
                    String::from_str(
                        "note: using `pub` for interface method will not make the method public",
                    ),
                );
                notes.push(String::from_str("note: all interface methods are public by default"));
            },
            UnnecessaryVisibilityQualifierContext::Import => {
                notes.push(String::from_str("note: using `pub` will not make the import public."));
            },
        }
        let r = Diagnostic {
            code: String::from_str("E004"),
            message: String::from_str("unnecessary visibility qualifier"),
            labels,
            notes,
        };
        proof {
            assert(r@ =~= unnecessary_visibility_qualifier_diag_spec(self.location, self.context));
        }
        r
    }
}

/// Record built for a file that ends where a closing brace was needed.
pub open spec fn eof_instead_of_close_brace_diag_spec(
    item_kind: ModuleItemKind,
    item_location: Location,
    location: Location,
) -> DiagnosticView {
    DiagnosticView {
        code: "E001"@,
        message: "unexpected end of file"@,
        labels: seq![
            LabelView {
                primary: true,
                location: item_location,
                message: "happened when parsing this "@ + module_item_kind_display(item_kind),
            },
            LabelView { primary: false, location, message: "consider adding `}`"@ },
        ],
        notes: Seq::<Seq<char>>::empty(),
    }
}

/// Diagnostic for a file that ends where a closing brace was needed.
#[derive(Debug, Clone, Copy, PartialEq, Eq, Structural)]
pub struct EOFInsteadOfCloseBrace {
    /// Kind of item being parsed when the file ended.
    pub item_kind: ModuleItemKind,
    /// Location of the item's name.
    pub item_location: Location,
    /// Location at which the file ended.
    pub location: Location,
}

impl EOFInsteadOfCloseBrace {
    /// Builds the structured record.
    pub fn build(self) -> (r: Diagnostic)
        ensures
            r@ == eof_instead_of_close_brace_diag_spec(
                self.item_kind,
                self.item_location,
                self.location,
            ),
    {
        let mut primary_message = String::from_str("happened when parsing this ");
        primary_message.append(self.item_kind.to_display_string().as_str());
        let mut labels: Vec<Label> = Vec::new();
        labels.push(self.item_location.to_primary_label().with_message(primary_message));
        labels.push(
            self.location.to_secondary_label().with_message(String::from_str("consider adding `}`")),
        );
        let r = Diagnostic {
            code: String::from_str("E001"),
            message: String::from_str("unexpected end of file"),
            labels,
            notes: Vec::new(),
        };
        proof {
            assert(r@ =~= eof_instead_of_close_brace_diag_spec(
                self.item_kind,
                self.item_location,
                self.location,
            ));
        }
        r
    }
}

/// Record built when a module binds one name twice.
pub open spec fn item_defined_multiple_times_diag_spec(
    first_definition_location: Location,
    second_definition_location: Location,
) -> DiagnosticView {
    DiagnosticView {
        code: "E005"@,
        message: "the name is defined multiple times in the module"@,
        labels: seq![
            LabelView {
                primary: true,
                location: second_definition_location,
                message: "the name is redefined here"@,
            },
            LabelView {
                primary: false,
                location: first_definition_location,
                message: "the name is first defined here"@,
            },
        ],
        notes: Seq::<Seq<char>>::empty(),
    }
}

/// Diagnostic for an item name bound twice in one module.
#[derive(Debug, Clone, Copy, PartialEq, Eq, Structural)]
pub struct ItemDefinedMultipleTimes {
    /// The name that was bound twice.
    pub name: u64,
    /// Location of the binding that already existed.
    pub first_definition_location: Location,
    /// Location of the new binding.
    pub second_definition_location: Location,
}

impl ItemDefinedMultipleTimes {
    /// Creates a new duplicate-definition diagnostic.
    pub fn new(
        name: u64,
        first_definition_location: Location,
        second_definition_location: Location,
    ) -> (r: Self)
        ensures
            r == (ItemDefinedMultipleTimes {
                name,
                first_definition_location,
                second_definition_location,
            }),
    {
        ItemDefinedMultipleTimes { name, first_definition_location, second_definition_location }
    }

    /// Builds the structured record, citing both definition sites.
    pub fn build(self) -> (r: Diagnostic)
        ensures
            r@ == item_defined_multiple_times_diag_spec(
                self.first_definition_location,
                self.second_definition_location,
            ),
    {
        let mut labels: Vec<Label> = Vec::new();
        labels.push(
            self.second_definition_location.to_primary_label().with_message(
                String::from_str("the name is redefined here"),
            ),
        );
        labels.push(
            self.first_definition_location.to_secondary_label().with_message(
                String::from_str("the name is first defined here"),
            ),
        );
        let r = Diagnostic {
            code: String::from_str("E005"),
            message: String::from_str("the name is defined multiple times in the module"),
            labels,
            notes: Vec::new(),
        };
        proof {
            assert(r@ =~= item_defined_multiple_times_diag_spec(
                self.first_definition_location,
                self.second_definition_location,
            ));
        }
        r
    }
}

/// Record built when an enum binds one item name twice.
pub open spec fn enum_item_defined_multiple_times_diag_spec(
    first_definition_location: Location,
    second_definition_location: Location,
) -> DiagnosticView {
    DiagnosticView {
        code: "E006"@,
        message: "the item name is defined multiple times in the enum"@,
        labels: seq![
            LabelView {
                primary: true,
                location: second_definition_location,
                message: "the item name is redefined here"@,
            },
            LabelView {
                primary: false,
                location: first_definition_location,
                message: "the item name is first defined here"@,
            },
        ],
        notes: Seq::<Seq<char>>::empty(),
    }
}

/// Diagnostic for an enum item name bound twice in one enum.
#[derive(Debug, Clone, Copy, PartialEq, Eq, Structural)]
pub struct EnumItemDefinedMultipleTimes {
    /// The enclosing enum's name.
    pub enum_name: u64,
    /// The item name that was bound twice.
    pub item_name: u64,
    /// Location of the binding that already existed.
    pub first_definition_location: Location,
    /// Location of the new binding.
    pub second_definition_location: Location,
}

impl EnumItemDefinedMultipleTimes {
    /// Creates a new duplicate-enum-item diagnostic.
    pub fn new(
        enum_name: u64,
        item_name: u64,
        first_definition_location: Location,
        second_definition_location: Location,
    ) -> (r: Self)
        ensures
            r == (EnumItemDefinedMultipleTimes {
                enum_name,
                item_name,
                first_definition_location,
                second_definition_location,
            }),
    {
        EnumItemDefinedMultipleTimes {
            enum_name,
            item_name,
            first_definition_location,
            second_definition_location,
        }
    }

    /// Builds the structured record, citing both definition sites.
    pub fn build(self) -> (r: Diagnostic)
        ensures
            r@ == enum_item_defined_multiple_times_diag_spec(
                self.first_definition_location,
                self.second_definition_location,
            ),
    {
        let mut labels: Vec<Label> = Vec::new();
        labels.push(
            self.second_definition_location.to_primary_label().with_message(
                String::from_str("the item name is redefined here"),
            ),
        );
        labels.push(
            self.first_definition_location.to_secondary_label().with_message(
                String::from_str("the item name is first defined here"),
            ),
        );
        let r = Diagnostic {
            code: String::from_str("E006"),
            message: String::from_str("the item name is defined multiple times in the enum"),
            labels,
            notes: Vec::new(),
        };
        proof {
            assert(r@ =~= enum_item_defined_multiple_times_diag_spec(
                self.first_definition_location,
                self.second_definition_location,
            ));
        }
        r
    }
}

/// Record built when a path segment fails to resolve.
pub open spec fn path_not_found_diag_spec(location: Location) -> DiagnosticView {
    DiagnosticView {
        code: "E007"@,
        message: "failed to resolve the path"@,
        labels: seq![
            LabelView { primary: true, location, message: "this name could not be resolved"@ },
        ],
        notes: Seq::<Seq<char>>::empty(),
    }
}

/// Diagnostic for a path segment that does not resolve.
#[derive(Debug, Clone, Copy, PartialEq, Eq, Structural)]
pub struct PathNotFound {
    /// The segment that failed to resolve.
    pub name: u64,
    /// Location of that segment.
    pub location: Location,
}

impl PathNotFound {
    /// Builds the structured record.
    pub fn build(self) -> (r: Diagnostic)
        ensures
            r@ == path_not_found_diag_spec(self.location),
    {
        let mut labels: Vec<Label> = Vec::new();
        labels.push(
            self.location.to_primary_label().with_message(
                String::from_str("this name could not be resolved"),
            ),
        );
        let r = Diagnostic {
            code: String::from_str("E007"),
            message: String::from_str("failed to resolve the path"),
            labels,
            notes: Vec::new(),
        };
        proof {
            assert(r@ =~= path_not_found_diag_spec(self.location));
        }
        r
    }
}

/// Record built when a path names something that is not a type.
pub open spec fn expected_type_diag_spec(location: Location, found_kind: SymbolKind) -> DiagnosticView {
    DiagnosticView {
        code: "E008"@,
        message: "expected a type"@,
        labels: seq![
            LabelView { primary: true, location, message: "found "@ + symbol_kind_display(found_kind) },
        ],
        notes: Seq::<Seq<char>>::empty(),
    }
}

/// Diagnostic for a path that resolves to a symbol that is not a type.
#[derive(Debug, Clone, Copy, PartialEq, Eq, Structural)]
pub struct ExpectedType {
    /// Location of the offending path.
    pub location: Location,
    /// Kind of symbol actually found.
    pub found_kind: SymbolKind,
}

impl ExpectedType {
    /// Builds the structured record.
    pub fn build(self) -> (r: Diagnostic)
        ensures
            r@ == expected_type_diag_spec(self.location, self.found_kind),
    {
        let mut message = String::from_str("found ");
        message.append(symbol_kind_display_string(self.found_kind).as_str());
        let mut labels: Vec<Label> = Vec::new();
        labels.push(self.location.to_primary_label().with_message(message));
        let r = Diagnostic {
            code: String::from_str("E008"),
            message: String::from_str("expected a type"),
            labels,
            notes: Vec::new(),
        };
        proof {
            assert(r@ =~= expected_type_diag_spec(self.location, self.found_kind));
        }
        r
    }
}

/// Record built when a bound or implements clause names something that
/// is not an interface.
pub open spec fn expected_interface_diag_spec(
    location: Location,
    found_kind: SymbolKind,
) -> DiagnosticView {
    DiagnosticView {
        code: "E009"@,
        message: "expected an interface"@,
        labels: seq![
            LabelView { primary: true, location, message: "found "@ + symbol_kind_display(found_kind) },
        ],
        notes: Seq::<Seq<char>>::empty(),
    }
}

/// Diagnostic for a path that should name an interface but does not.
#[derive(Debug, Clone, Copy, PartialEq, Eq, Structural)]
pub struct ExpectedInterface {
    /// Location of the offending path.
    pub location: Location,
    /// Kind of symbol actually found.
    pub found_kind: SymbolKind,
}

impl ExpectedInterface {
    /// Builds the structured record.
    pub fn build(self) -> (r: Diagnostic)
        ensures
            r@ == expected_interface_diag_spec(self.location, self.found_kind),
    {
        let mut message = String::from_str("found ");
        message.append(symbol_kind_display_string(self.found_kind).as_str());
        let mut labels: Vec<Label> = Vec::new();
        labels.push(self.location.to_primary_label().with_message(message));
        let r = Diagnostic {
            code: String::from_str("E009"),
            message: String::from_str("expected an interface"),
            labels,
            notes: Vec::new(),
        };
        proof {
            assert(r@ =~= expected_interface_diag_spec(self.location, self.found_kind));
        }
        r
    }
}


/// Record built for an unexpected token, as the older single-enum
/// diagnostics stage phrased it.
pub open spec fn parse_unexpected_token_diag_spec(
    got_raw: Seq<char>,
    got_location: Location,
    expected: Seq<Seq<char>>,
    node: Seq<char>,
) -> DiagnosticView {
    DiagnosticView {
        code: "E001"@,
        message: "unexpected "@ + got_raw,
        labels: seq![
            LabelView {
                primary: true,
                location: got_location,
                message: "expected "@ + one_of_spec(expected) + " for "@ + node,
            },
        ],
        notes: Seq::<Seq<char>>::empty(),
    }
}

/// Record built for a missing semicolon after an expression or a
/// statement.
pub open spec fn parse_no_semicolon_diag_spec(
    message: Seq<char>,
    happened_message: Seq<char>,
    happened_location: Location,
    at: Location,
) -> DiagnosticView {
    DiagnosticView {
        code: Seq::<char>::empty(),
        message,
        labels: seq![
            LabelView { primary: false, location: at, message: "add `;` here"@ },
            LabelView { primary: true, location: happened_location, message: happened_message },
        ],
        notes: Seq::<Seq<char>>::empty(),
    }
}

/// A diagnostic from the parsing stage, carried through the same sink
/// as the semantic diagnostics.
#[derive(Debug)]
pub enum ParseDiagnostic {
    /// A lexing error.
    LexError(LexError),
    /// A token that was not expected.
    UnexpectedTokenError {
        /// The token that was not expected.
        got: Token,
        /// Tokens that were expected.
        expected: Expected,
        /// The syntactic construct being parsed.
        node: String,
    },
    /// An integer literal that overflows.
    IntegerOverflowError {
        /// Location of the number whose parsing overflowed.
        at: Location,
    },
    /// A float literal that overflows.
    FloatOverflowError {
        /// Location of the number whose parsing overflowed.
        at: Location,
    },
    /// A missing `;` after an expression.
    NoSemicolonAfterExpressionError {
        /// Location of the expression lacking its `;`.
        expression_location: Location,
        /// Where the `;` would go.
        at: Location,
    },
    /// A missing `;` after a statement.
    NoSemicolonAfterStatementError {
        /// Location of the statement lacking its `;`.
        statement_location: Location,
        /// Where the `;` would go.
        at: Location,
    },
    /// End of file instead of the closing brace of a statements block.
    EOFInsteadOfCloseBraceForStatementsBlockError {
        /// Location of the block's `{`.
        statements_block_start_location: Location,
        /// Location at which the file ended.
        at: Location,
    },
    /// An empty statement: `;;`, or `;` right after `{`.
    EmptyStatementError {
        /// Location of the stray semicolon.
        at: Location,
    },
}

impl ParseDiagnostic {
    /// The structured record each variant builds.
    pub open spec fn diag_view_spec(&self) -> DiagnosticView {
        match self {
            ParseDiagnostic::LexError(e) => lex_error_diag_spec(e.raw@, e.location),
            ParseDiagnostic::UnexpectedTokenError { got, expected, node } => {
                parse_unexpected_token_diag_spec(
                    got.raw@,
                    got.location,
                    strings_deep(expected.0@),
                    node@,
                )
            },
            ParseDiagnostic::IntegerOverflowError { at } => DiagnosticView {
                code: Seq::<char>::empty(),
                ..integer_overflow_diag_spec(*at)
            },
            ParseDiagnostic::FloatOverflowError { at } => DiagnosticView {
                code: Seq::<char>::empty(),
                ..float_overflow_diag_spec(*at)
            },
            ParseDiagnostic::NoSemicolonAfterExpressionError { expression_location, at } => {
                parse_no_semicolon_diag_spec(
                    "it seems that you forgot to put `;` after the expression"@,
                    "happened after this expression"@,
                    *expression_location,
                    *at,
                )
            },
            ParseDiagnostic::NoSemicolonAfterStatementError { statement_location, at } => {
                parse_no_semicolon_diag_spec(
                    "it seems that you forgot to put `;` after the statement"@,
                    "happened after this statement"@,
                    *statement_location,
                    *at,
                )
            },
            ParseDiagnostic::EOFInsteadOfCloseBraceForStatementsBlockError {
                statements_block_start_location,
                at,
            } => DiagnosticView {
                code: Seq::<char>::empty(),
                message: "unexpected end of file"@,
                labels: seq![
                    LabelView {
                        primary: false,
                        location: *statements_block_start_location,
                        message: "happened when parsing this statements block"@,
                    },
                    LabelView { primary: true, location: *at, message: "consider adding `}`"@ },
                ],
                notes: Seq::<Seq<char>>::empty(),
            },
            ParseDiagnostic::EmptyStatementError { at } => DiagnosticView {
                code: Seq::<char>::empty(),
                message: "found empty statement"@,
                labels: seq![
                    LabelView { primary: true, location: *at, message: "consider removing this `;`"@ },
                ],
                notes: seq!["note: empty statements are not permitted."@],
            },
        }
    }

    /// Builds the structured record for the diagnostic.
    pub fn build(&self) -> (r: Diagnostic)
        requires
            (self matches ParseDiagnostic::UnexpectedTokenError { expected, .. } ==> expected.0@.len()
                > 0),
        ensures
            r@ == self.diag_view_spec(),
    {
        match self {
            ParseDiagnostic::LexError(e) => {
                let mut labels: Vec<Label> = Vec::new();
                labels.push(e.location.to_primary_label());
                let r = Diagnostic {
                    code: String::from_str("E000"),
                    message: e.raw.clone(),
                    labels,
                    notes: Vec::new(),
                };
                proof {
                    assert(r@ =~= lex_error_diag_spec(e.raw@, e.location));
                }
                r
            },
            ParseDiagnostic::UnexpectedTokenError { got, expected, node } => {
                let mut message = String::from_str("unexpected ");
                message.append(got.raw.as_str());
                let mut label_message = String::from_str("expected ");
                label_message.append(expected.to_display_string().as_str());
                label_message.append(" for ");
                label_message.append(node.as_str());
                let mut labels: Vec<Label> = Vec::new();
                labels.push(got.location.to_primary_label().with_message(label_message));
                let r = Diagnostic {
                    code: String::from_str("E001"),
                    message,
                    labels,
                    notes: Vec::new(),
                };
                proof {
                    assert(r@ =~= parse_unexpected_token_diag_spec(
                        got.raw@,
                        got.location,
                        strings_deep(expected.0@),
                        node@,
                    ));
                }
                r
            },
            ParseDiagnostic::IntegerOverflowError { at } => {
                let mut d = IntegerOverflowDiagnostic { location: *at }.build();
                d.code = String::new();
                proof {
                    assert(d@ =~= (DiagnosticView {
                        code: Seq::<char>::empty(),
                        ..integer_overflow_diag_spec(*at)
                    }));
                }
                d
            },
            ParseDiagnostic::FloatOverflowError { at } => {
                let mut d = FloatOverflowDiagnostic { location: *at }.build();
                d.code = String::new();
                proof {
                    assert(d@ =~= (DiagnosticView {
                        code: Seq::<char>::empty(),
                        ..float_overflow_diag_spec(*at)
                    }));
                }
                d
            },
            ParseDiagnostic::NoSemicolonAfterExpressionError { expression_location, at } => {
                let mut labels: Vec<Label> = Vec::new();
                labels.push(
                    at.to_secondary_label().with_message(String::from_str("add `;` here")),
                );
                labels.push(
                    expression_location.to_primary_label().with_message(
                        String::from_str("happened after this expression"),
                    ),
                );
                let r = Diagnostic {
                    code: String::new(),
                    message: String::from_str(
                        "it seems that you forgot to put `;` after the expression",
                    ),
                    labels,
                    notes: Vec::new(),
                };
                proof {
                    assert(r@ =~= self.diag_view_spec());
                }
                r
            },
            ParseDiagnostic::NoSemicolonAfterStatementError { statement_location, at } => {
                let mut labels: Vec<Label> = Vec::new();
                labels.push(
                    at.to_secondary_label().with_message(String::from_str("add `;` here")),
                );
                labels.push(
                    statement_location.to_primary_label().with_message(
                        String::from_str("happened after this statement"),
                    ),
                );
                let r = Diagnostic {
                    code: String::new(),
                    message: String::from_str(
                        "it seems that you forgot to put `;` after the statement",
                    ),
                    labels,
                    notes: Vec::new(),
                };
                proof {
                    assert(r@ =~= self.diag_view_spec());
                }
                r
            },
            ParseDiagnostic::EOFInsteadOfCloseBraceForStatementsBlockError {
                statements_block_start_location,
                at,
            } => {
                let mut labels: Vec<Label> = Vec::new();
                labels.push(
                    statements_block_start_location.to_secondary_label().with_message(
                        String::from_str("happened when parsing this statements block"),
                    ),
                );
                labels.push(
                    at.to_primary_label().with_message(String::from_str("consider adding `}`")),
                );
                let r = Diagnostic {
                    code: String::new(),
                    message: String::from_str("unexpected end of file"),
                    labels,
                    notes: Vec::new(),
                };
                proof {
                    assert(r@ =~= self.diag_view_spec());
                }
                r
            },
            ParseDiagnostic::EmptyStatementError { at } => {
                let mut labels: Vec<Label> = Vec::new();
                labels.push(
                    at.to_primary_label().with_message(
                        String::from_str("consider removing this `;`"),
                    ),
                );
                let mut notes: Vec<String> = Vec::new();
                notes.push(String::from_str("note: empty statements are not permitted."));
                let r = Diagnostic {
                    code: String::new(),
                    message: String::from_str("found empty statement"),
                    labels,
                    notes,
                };
                proof {
                    assert(r@ =~= self.diag_view_spec());
                }
                r
            },
        }
    }
}

} // verus!
