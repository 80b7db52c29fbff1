//! The parsed form of a schema's configuration blocks, as the parser hands
//! it over: blocks of named properties whose values carry their place in the
//! schema text.

use vstd::prelude::*;

verus! {

/// A byte-offset range into the schema text.
#[derive(Clone, Copy, Debug, PartialEq, Eq, Structural)]
pub struct Span {
    pub start: usize,
    pub end: usize,
}

impl Span {
    pub fn new(start: usize, end: usize) -> (span: Span)
        ensures
            span == (Span { start, end }),
    {
        Span { start, end }
    }

    /// The span of nothing: both offsets are zero.
    pub fn empty() -> (span: Span)
        ensures
            span == (Span { start: 0, end: 0 }),
    {
        Span { start: 0, end: 0 }
    }
}

/// A property value. Numbers, booleans, strings and constants keep their
/// text; a function call keeps its name and arguments, an array its items.
#[derive(Debug, PartialEq, Eq)]
pub enum Expression {
    NumericValue(String, Span),
    BooleanValue(String, Span),
    StringValue(String, Span),
    ConstantValue(String, Span),
    Function(String, Vec<Expression>, Span),
    Array(Vec<Expression>, Span),
}

/// The mathematical value of an [`Expression`]: the same variants, with
/// texts as sequences of characters and lists as sequences.
pub enum ExpressionView {
    NumericValue(Seq<char>, Span),
    BooleanValue(Seq<char>, Span),
    StringValue(Seq<char>, Span),
    ConstantValue(Seq<char>, Span),
    Function(Seq<char>, Seq<ExpressionView>, Span),
    Array(Seq<ExpressionView>, Span),
}

impl ExpressionView {
    /// Where the value stands in the schema text.
    pub open spec fn span(self) -> Span {
        match self {
            ExpressionView::NumericValue(_, span) => span,
            ExpressionView::BooleanValue(_, span) => span,
            ExpressionView::StringValue(_, span) => span,
            ExpressionView::ConstantValue(_, span) => span,
            ExpressionView::Function(_, _, span) => span,
            ExpressionView::Array(_, span) => span,
        }
    }

    /// The word that diagnostics use for the kind of the value.
    pub open spec fn kind_name(self) -> Seq<char> {
        match self {
            ExpressionView::NumericValue(_, _) => "numeric"@,
            ExpressionView::BooleanValue(_, _) => "boolean"@,
            ExpressionView::StringValue(_, _) => "string"@,
            ExpressionView::ConstantValue(_, _) => "literal"@,
            ExpressionView::Function(_, _, _) => "functional"@,
            ExpressionView::Array(_, _) => "array"@,
        }
    }

    /// The text that diagnostics quote for the value: the text of a scalar,
    /// the name of a function, and a fixed word for an array.
    pub open spec fn raw_text(self) -> Seq<char> {
        match self {
            ExpressionView::NumericValue(text, _) => text,
            ExpressionView::BooleanValue(text, _) => text,
            ExpressionView::StringValue(text, _) => text,
            ExpressionView::ConstantValue(text, _) => text,
            ExpressionView::Function(name, _, _) => name,
            ExpressionView::Array(_, _) => "(array)"@,
        }
    }
}

/// The value of an expression.
pub open spec fn expression_view(expression: Expression) -> ExpressionView
    decreases expression,
{
    match expression {
        Expression::NumericValue(text, span) => ExpressionView::NumericValue(text@, span),
        Expression::BooleanValue(text, span) => ExpressionView::BooleanValue(text@, span),
        Expression::StringValue(text, span) => ExpressionView::StringValue(text@, span),
        Expression::ConstantValue(text, span) => ExpressionView::ConstantValue(text@, span),
        Expression::Function(name, args, span) => ExpressionView::Function(
            name@,
            Seq::new(
                args@.len(),
                |i: int|
                    if 0 <= i < args@.len() {
                        expression_view(args@[i])
                    } else {
                        arbitrary()
                    },
            ),
            span,
        ),
        Expression::Array(items, span) => ExpressionView::Array(
            Seq::new(
                items@.len(),
                |i: int|
                    if 0 <= i < items@.len() {
                        expression_view(items@[i])
                    } else {
                        arbitrary()
                    },
            ),
            span,
        ),
    }
}

impl DeepView for Expression {
    type V = ExpressionView;

    open spec fn deep_view(&self) -> ExpressionView {
        expression_view(*self)
    }
}

impl View for Expression {
    type V = ExpressionView;

    open spec fn view(&self) -> ExpressionView {
        self.deep_view()
    }
}

impl Expression {
    /// The items of an array and the arguments of a function call have, as
    /// their values, the values of the items and of the arguments.
    pub proof fn view_of_items(&self)
        ensures
            match self {
                Expression::Function(_, args, _) => self@ matches ExpressionView::Function(_, views, _)
                    && views == args.deep_view(),
                Expression::Array(items, _) => self@ matches ExpressionView::Array(views, _)
                    && views == items.deep_view(),
                _ => true,
            },
    {
        match self {
            Expression::Function(_, args, _) => {
                assert(self@->Function_1 =~= args.deep_view());
            },
            Expression::Array(items, _) => {
                assert(self@->Array_0 =~= items.deep_view());
            },
            _ => {},
        }
    }

    pub fn span(&self) -> (span: Span)
        ensures
            span == self@.span(),
    {
        match self {
            Expression::NumericValue(_, span) => *span,
            Expression::BooleanValue(_, span) => *span,
            Expression::StringValue(_, span) => *span,
            Expression::ConstantValue(_, span) => *span,
            Expression::Function(_, _, span) => *span,
            Expression::Array(_, span) => *span,
        }
    }

    pub fn describe_value_type(&self) -> (word: &'static str)
        ensures
            word@ == self@.kind_name(),
    {
        match self {
            Expression::NumericValue(_, _) => "numeric",
            Expression::BooleanValue(_, _) => "boolean",
            Expression::StringValue(_, _) => "string",
            Expression::ConstantValue(_, _) => "literal",
            Expression::Function(_, _, _) => "functional",
            Expression::Array(_, _) => "array",
        }
    }

    pub fn raw(&self) -> (text: String)
        ensures
            text@ == self@.raw_text(),
    {
        match self {
            Expression::NumericValue(text, _) => text.clone(),
            Expression::BooleanValue(text, _) => text.clone(),
            Expression::StringValue(text, _) => text.clone(),
            Expression::ConstantValue(text, _) => text.clone(),
            Expression::Function(name, _, _) => name.clone(),
            Expression::Array(_, _) => "(array)".to_owned(),
        }
    }
}

/// One property of a block: its name, its value, and the place of the whole
/// property in the schema text.
#[derive(Debug, PartialEq, Eq)]
pub struct Argument {
    pub name: String,
    pub value: Expression,
    pub span: Span,
}

/// The mathematical value of an [`Argument`].
pub struct ArgumentView {
    pub name: Seq<char>,
    pub value: ExpressionView,
    pub span: Span,
}

impl DeepView for Argument {
    type V = ArgumentView;

    open spec fn deep_view(&self) -> ArgumentView {
        ArgumentView { name: self.name@, value: self.value@, span: self.span }
    }
}

impl View for Argument {
    type V = ArgumentView;

    open spec fn view(&self) -> ArgumentView {
        self.deep_view()
    }
}

/// An attribute of a model or a field: its name, without the `@`, and its
/// arguments.
#[derive(Debug, PartialEq, Eq)]
pub struct Attribute {
    pub name: String,
    pub arguments: Vec<Argument>,
    pub span: Span,
}

/// The mathematical value of an [`Attribute`].
pub struct AttributeView {
    pub name: Seq<char>,
    pub arguments: Seq<ArgumentView>,
    pub span: Span,
}

impl DeepView for Attribute {
    type V = AttributeView;

    open spec fn deep_view(&self) -> AttributeView {
        AttributeView {
            name: self.name@,
            arguments: self.arguments.deep_view(),
            span: self.span,
        }
    }
}

impl View for Attribute {
    type V = AttributeView;

    open spec fn view(&self) -> AttributeView {
        self.deep_view()
    }
}

impl Attribute {
    /// An attribute that stands nowhere in a schema text yet.
    pub fn new(name: &str, arguments: Vec<Argument>) -> (attribute: Attribute)
        ensures
            attribute@ == (AttributeView {
                name: name@,
                arguments: arguments.deep_view(),
                span: Span { start: 0, end: 0 },
            }),
    {
        Attribute { name: name.to_owned(), arguments, span: Span::empty() }
    }
}

/// A datasource block as parsed: its name, its properties in the order in
/// which they were written, its documentation comment if it has one, and its
/// place in the schema text.
#[derive(Debug, PartialEq, Eq)]
pub struct SourceConfig {
    pub name: String,
    pub properties: Vec<Argument>,
    pub documentation: Option<String>,
    pub span: Span,
}

/// The mathematical value of a [`SourceConfig`].
pub struct SourceConfigView {
    pub name: Seq<char>,
    pub properties: Seq<ArgumentView>,
    pub documentation: Option<Seq<char>>,
    pub span: Span,
}

impl DeepView for SourceConfig {
    type V = SourceConfigView;

    open spec fn deep_view(&self) -> SourceConfigView {
        SourceConfigView {
            name: self.name@,
            properties: self.properties.deep_view(),
            documentation: self.documentation.deep_view(),
            span: self.span,
        }
    }
}

impl View for SourceConfig {
    type V = SourceConfigView;

    open spec fn view(&self) -> SourceConfigView {
        self.deep_view()
    }
}

/// The datasource blocks of one schema, in the order in which they were
/// written.
#[derive(Debug, PartialEq, Eq)]
pub struct SchemaAst {
    pub sources: Vec<SourceConfig>,
}

impl View for SchemaAst {
    type V = Seq<SourceConfigView>;

    open spec fn view(&self) -> Seq<SourceConfigView> {
        self.sources.deep_view()
    }
}

impl SchemaAst {
    pub fn new(sources: Vec<SourceConfig>) -> (ast: SchemaAst)
        ensures
            ast.sources == sources,
    {
        SchemaAst { sources }
    }

    pub fn sources(&self) -> (blocks: &Vec<SourceConfig>)
        ensures
            blocks == &self.sources,
            blocks.deep_view() == self@,
    {
        &self.sources
    }
}

} // verus!
