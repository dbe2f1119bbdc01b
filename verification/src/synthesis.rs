//! The descriptors that option resolution hands to the code synthesizer: one
//! record per generated fragment, each a pure projection of resolved options.

use vstd::prelude::*;
use crate::lexical::{guard, guarded, lemma_guarded_safe, lemma_guarded_same, opens_wide_byte};
use crate::syntax::{Attribute, AttributeView, Generics, GenericsView, Visibility, VisibilityView};

verus! {

/// How a generated method takes and returns the builder.
#[derive(Debug, Clone, Copy, PartialEq, Eq, Structural)]
pub enum BuilderPattern {
    /// `fn bar(self, bar: Bar) -> Self`
    Owned,
    /// `fn bar(&mut self, bar: Bar) -> &mut Self`
    Mutable,
    /// `fn bar(&self, bar: Bar) -> Self`
    Immutable,
}

impl Default for BuilderPattern {
    fn default() -> (r: BuilderPattern)
        ensures
            r == BuilderPattern::Mutable,
    {
        BuilderPattern::Mutable
    }
}

impl View for BuilderPattern {
    type V = BuilderPattern;

    open spec fn view(&self) -> BuilderPattern {
        *self
    }
}

impl DeepView for BuilderPattern {
    type V = BuilderPattern;

    open spec fn deep_view(&self) -> BuilderPattern {
        *self
    }
}

/// Which runtime library the generated code refers to.
#[derive(Debug, Clone, Copy, PartialEq, Eq, Structural)]
pub enum Bindings {
    /// The standard library.
    Std,
    /// The core library only.
    NoStd,
}

impl Default for Bindings {
    fn default() -> (r: Bindings)
        ensures
            r == Bindings::Std,
    {
        Bindings::Std
    }
}

impl View for Bindings {
    type V = Bindings;

    open spec fn view(&self) -> Bindings {
        *self
    }
}

impl DeepView for Bindings {
    type V = Bindings;

    open spec fn deep_view(&self) -> Bindings {
        *self
    }
}

/// Notices for the user of the annotation; none of them ends the expansion.
pub type DeprecationNotes = Vec<String>;

/// Names what `derive_builder_core::Block::from_str` decides: whether a text
/// reads as a sequence of token trees.
pub uninterp spec fn parses_as_token_trees(text: Seq<char>) -> bool;

/// Calls `derive_builder_core::Block::from_str`, which reads the text as
/// token trees and fails on, for one, unbalanced delimiters. The contract
/// claims only that the outcome is the one that `parses_as_token_trees` names.
/// The call panics on a byte literal that opens on a character outside
/// ASCII: texts with `b`, an apostrophe and such a character in a row are
/// left out.
#[verifier::external_body]
pub(crate) fn block_parses(text: &str) -> (ok: bool)
    requires
        !opens_wide_byte(text@),
    ensures
        ok == parses_as_token_trees(text@),
{
    <derive_builder_core::Block as std::str::FromStr>::from_str(text).is_ok()
}

/// Whether a text is accepted as a block: whether what is handed to the
/// parser for it reads as token trees. That is the text itself, unless `b`,
/// an apostrophe and a character outside ASCII stand in a row in it; then
/// it is the stand-in of [`guarded`], which the parser rejects where those
/// three open a token and reads like the text where they do not.
pub open spec fn reads_as_block(text: Seq<char>) -> bool {
    parses_as_token_trees(guarded(text))
}

/// A text without `b`, an apostrophe and a character outside ASCII in a
/// row is accepted as a block exactly where it reads as token trees.
pub proof fn lemma_reads_as_block(text: Seq<char>)
    requires
        !opens_wide_byte(text),
    ensures
        reads_as_block(text) == parses_as_token_trees(text),
{
    lemma_guarded_same(text);
}

/// Whether a text is accepted as a block.
pub fn block_reads(text: &str) -> (ok: bool)
    ensures
        ok == reads_as_block(text@),
{
    let asked = guard(text);
    proof {
        lemma_guarded_safe(text@);
    }
    block_parses(asked.as_str())
}

/// An expression that was accepted as a default value, by its source text.
#[derive(Debug, Clone, PartialEq, Eq)]
pub struct Block {
    /// The expression as it was written.
    pub source: String,
}

/// Mathematical model of a [`Block`].
pub struct BlockView {
    pub source: Seq<char>,
}

impl BlockView {
    /// The source is accepted as a block.
    pub open spec fn valid(self) -> bool {
        reads_as_block(self.source)
    }
}

impl View for Block {
    type V = BlockView;

    open spec fn view(&self) -> BlockView {
        BlockView { source: self.source@ }
    }
}

impl DeepView for Block {
    type V = BlockView;

    open spec fn deep_view(&self) -> BlockView {
        self@
    }
}

/// A field of the builder struct.
#[derive(Debug, Clone, PartialEq, Eq)]
pub struct BuilderField {
    /// Name of the target field.
    pub field_ident: String,
    /// Type of the target field.
    pub field_type: String,
    /// Whether the builder has a setter for the field; without one the
    /// builder holds no value for it.
    pub setter_enabled: bool,
    /// Visibility of the builder field.
    pub field_visibility: Visibility,
    /// Attributes attached to the builder field.
    pub attrs: Vec<Attribute>,
    /// Bindings to the runtime library.
    pub bindings: Bindings,
}

/// Mathematical model of a [`BuilderField`].
pub struct BuilderFieldView {
    pub field_ident: Seq<char>,
    pub field_type: Seq<char>,
    pub setter_enabled: bool,
    pub field_visibility: VisibilityView,
    pub attrs: Seq<AttributeView>,
    pub bindings: Bindings,
}

impl View for BuilderField {
    type V = BuilderFieldView;

    open spec fn view(&self) -> BuilderFieldView {
        BuilderFieldView {
            field_ident: self.field_ident@,
            field_type: self.field_type@,
            setter_enabled: self.setter_enabled,
            field_visibility: self.field_visibility@,
            attrs: self.attrs.deep_view(),
            bindings: self.bindings,
        }
    }
}

impl DeepView for BuilderField {
    type V = BuilderFieldView;

    open spec fn deep_view(&self) -> BuilderFieldView {
        self@
    }
}

/// A setter method of the builder.
#[derive(Debug, Clone, PartialEq, Eq)]
pub struct Setter {
    /// Whether the setter is generated at all.
    pub enabled: bool,
    /// Whether the fallible variant is generated too.
    pub try_setter: bool,
    /// Visibility of the setter.
    pub visibility: Visibility,
    /// How the setter takes and returns the builder.
    pub pattern: BuilderPattern,
    /// Attributes attached to the setter.
    pub attrs: Vec<Attribute>,
    /// Name of the setter.
    pub ident: String,
    /// Name of the target field.
    pub field_ident: String,
    /// Type of the target field.
    pub field_type: String,
    /// Whether the setter takes anything that converts into the field type.
    pub generic_into: bool,
    /// Notices emitted with the setter.
    pub deprecation_notes: DeprecationNotes,
    /// Bindings to the runtime library.
    pub bindings: Bindings,
}

/// Mathematical model of a [`Setter`].
pub struct SetterView {
    pub enabled: bool,
    pub try_setter: bool,
    pub visibility: VisibilityView,
    pub pattern: BuilderPattern,
    pub attrs: Seq<AttributeView>,
    pub ident: Seq<char>,
    pub field_ident: Seq<char>,
    pub field_type: Seq<char>,
    pub generic_into: bool,
    pub deprecation_notes: Seq<Seq<char>>,
    pub bindings: Bindings,
}

impl View for Setter {
    type V = SetterView;

    open spec fn view(&self) -> SetterView {
        SetterView {
            enabled: self.enabled,
            try_setter: self.try_setter,
            visibility: self.visibility@,
            pattern: self.pattern,
            attrs: self.attrs.deep_view(),
            ident: self.ident@,
            field_ident: self.field_ident@,
            field_type: self.field_type@,
            generic_into: self.generic_into,
            deprecation_notes: self.deprecation_notes.deep_view(),
            bindings: self.bindings,
        }
    }
}

impl DeepView for Setter {
    type V = SetterView;

    open spec fn deep_view(&self) -> SetterView {
        self@
    }
}

/// The initializer of one target field inside the build method.
#[derive(Debug, Clone, PartialEq, Eq)]
pub struct Initializer {
    /// Name of the target field.
    pub field_ident: String,
    /// Whether the builder has a setter, and so a stored value, for the field.
    pub setter_enabled: bool,
    /// How the build method takes the builder.
    pub builder_pattern: BuilderPattern,
    /// The field's own default; it goes before the struct-level one.
    pub default_value: Option<Block>,
    /// Whether a missing value is read from the struct-level default.
    pub use_default_struct: bool,
    /// Bindings to the runtime library.
    pub bindings: Bindings,
}

/// Mathematical model of an [`Initializer`].
pub struct InitializerView {
    pub field_ident: Seq<char>,
    pub setter_enabled: bool,
    pub builder_pattern: BuilderPattern,
    pub default_value: Option<BlockView>,
    pub use_default_struct: bool,
    pub bindings: Bindings,
}

impl InitializerView {
    /// The field has a builder slot and nothing to fall back on: a build
    /// without a stored value has to report the field as missing.
    pub open spec fn required(self) -> bool {
        self.setter_enabled && self.default_value is None && !self.use_default_struct
    }

    /// The field has no builder slot and no default of its own, and is read
    /// from the struct-level default.
    pub open spec fn reads_struct_default(self) -> bool {
        !self.setter_enabled && self.default_value is None && self.use_default_struct
    }
}

impl View for Initializer {
    type V = InitializerView;

    open spec fn view(&self) -> InitializerView {
        InitializerView {
            field_ident: self.field_ident@,
            setter_enabled: self.setter_enabled,
            builder_pattern: self.builder_pattern,
            default_value: self.default_value.deep_view(),
            use_default_struct: self.use_default_struct,
            bindings: self.bindings,
        }
    }
}

impl DeepView for Initializer {
    type V = InitializerView;

    open spec fn deep_view(&self) -> InitializerView {
        self@
    }
}

/// The method that turns the builder into the target type.
#[derive(Debug, Clone, PartialEq, Eq)]
pub struct BuildMethod {
    /// Whether the method is generated at all.
    pub enabled: bool,
    /// Name of the method.
    pub ident: String,
    /// Visibility of the method.
    pub visibility: Visibility,
    /// How the method takes the builder.
    pub pattern: BuilderPattern,
    /// Name of the target type.
    pub target_ty: String,
    /// Generic parameters of the target type.
    pub target_ty_generics: Option<Generics>,
    /// One initializer per target field, in declaration order.
    pub initializers: Vec<Initializer>,
    /// Doc comment of the method.
    pub doc_comment: Option<String>,
    /// Bindings to the runtime library.
    pub bindings: Bindings,
    /// Default value for the whole struct, in scope of all initializers.
    pub default_struct: Option<Block>,
    /// Path of a function to call on the builder before the build.
    pub validate_fn: Option<String>,
}

/// Mathematical model of a [`BuildMethod`].
pub struct BuildMethodView {
    pub enabled: bool,
    pub ident: Seq<char>,
    pub visibility: VisibilityView,
    pub pattern: BuilderPattern,
    pub target_ty: Seq<char>,
    pub target_ty_generics: Option<GenericsView>,
    pub initializers: Seq<InitializerView>,
    pub doc_comment: Option<Seq<char>>,
    pub bindings: Bindings,
    pub default_struct: Option<BlockView>,
    pub validate_fn: Option<Seq<char>>,
}

impl View for BuildMethod {
    type V = BuildMethodView;

    open spec fn view(&self) -> BuildMethodView {
        BuildMethodView {
            enabled: self.enabled,
            ident: self.ident@,
            visibility: self.visibility@,
            pattern: self.pattern,
            target_ty: self.target_ty@,
            target_ty_generics: self.target_ty_generics.deep_view(),
            initializers: self.initializers.deep_view(),
            doc_comment: self.doc_comment.deep_view(),
            bindings: self.bindings,
            default_struct: self.default_struct.deep_view(),
            validate_fn: self.validate_fn.deep_view(),
        }
    }
}

impl DeepView for BuildMethod {
    type V = BuildMethodView;

    open spec fn deep_view(&self) -> BuildMethodView {
        self@
    }
}

/// A method of the builder.
#[derive(Debug, Clone, PartialEq, Eq)]
pub enum BuilderFunction {
    /// The setter of one field.
    Setter(Setter),
    /// The build method.
    Build(BuildMethod),
}

/// Mathematical model of a [`BuilderFunction`].
pub enum BuilderFunctionView {
    Setter(SetterView),
    Build(BuildMethodView),
}

impl View for BuilderFunction {
    type V = BuilderFunctionView;

    open spec fn view(&self) -> BuilderFunctionView {
        match self {
            BuilderFunction::Setter(s) => BuilderFunctionView::Setter(s@),
            BuilderFunction::Build(b) => BuilderFunctionView::Build(b@),
        }
    }
}

impl DeepView for BuilderFunction {
    type V = BuilderFunctionView;

    open spec fn deep_view(&self) -> BuilderFunctionView {
        self@
    }
}

/// The builder struct with its methods.
#[derive(Debug, Clone, PartialEq, Eq)]
pub struct Builder {
    /// Whether the builder is generated at all.
    pub enabled: bool,
    /// Name of the builder struct.
    pub ident: String,
    /// Pattern of the builder.
    pub pattern: BuilderPattern,
    /// Traits to derive on the builder struct.
    pub derives: Vec<String>,
    /// Generic parameters of the builder struct.
    pub generics: Option<Generics>,
    /// Visibility of the builder struct.
    pub visibility: Visibility,
    /// Fields of the builder struct, in declaration order.
    pub fields: Vec<BuilderField>,
    /// Methods of the builder struct, in the order they are emitted.
    pub functions: Vec<BuilderFunction>,
    /// Doc comment of the builder struct.
    pub doc_comment: Option<String>,
    /// Notices emitted with the builder.
    pub deprecation_notes: DeprecationNotes,
    /// Bindings to the runtime library.
    pub bindings: Bindings,
}

/// Mathematical model of a [`Builder`].
pub struct BuilderView {
    pub enabled: bool,
    pub ident: Seq<char>,
    pub pattern: BuilderPattern,
    pub derives: Seq<Seq<char>>,
    pub generics: Option<GenericsView>,
    pub visibility: VisibilityView,
    pub fields: Seq<BuilderFieldView>,
    pub functions: Seq<BuilderFunctionView>,
    pub doc_comment: Option<Seq<char>>,
    pub deprecation_notes: Seq<Seq<char>>,
    pub bindings: Bindings,
}

impl View for Builder {
    type V = BuilderView;

    open spec fn view(&self) -> BuilderView {
        BuilderView {
            enabled: self.enabled,
            ident: self.ident@,
            pattern: self.pattern,
            derives: self.derives.deep_view(),
            generics: self.generics.deep_view(),
            visibility: self.visibility@,
            fields: self.fields.deep_view(),
            functions: self.functions.deep_view(),
            doc_comment: self.doc_comment.deep_view(),
            deprecation_notes: self.deprecation_notes.deep_view(),
            bindings: self.bindings,
        }
    }
}

impl DeepView for Builder {
    type V = BuilderView;

    open spec fn deep_view(&self) -> BuilderView {
        self@
    }
}

} // verus!
