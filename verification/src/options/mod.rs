//! The settings that the annotation carries, at struct level and at field
//! level, and what both levels share.

use vstd::prelude::*;
use vstd::string::StringExecFns;
use crate::error::{result_view, ConfigError, ConfigErrorView};
use crate::lexical::{guarded, lemma_guarded_same, opens_wide_byte, wide_byte_at};
use crate::synthesis::{block_reads, parses_as_token_trees, reads_as_block, Block, BlockView};
use crate::syntax::{Attribute, AttributeView, MetaItem, MetaItemView, Visibility, VisibilityView};

pub mod field_options;
pub mod meta;
pub mod struct_options;

pub use self::field_options::FieldOptions;
pub use self::struct_options::StructOptions;

verus! {

/// What the two legacy markers `public` and `private` ask for together:
/// an explicit visibility, nothing, or a contradiction.
pub open spec fn legacy_visibility(public: bool, private: bool) -> Result<
    Option<VisibilityView>,
    ConfigErrorView,
> {
    if public && private {
        Err(ConfigErrorView::ConflictingVisibility)
    } else if public {
        Ok(Some(VisibilityView::Public))
    } else if private {
        Ok(Some(VisibilityView::Inherited))
    } else {
        Ok(None)
    }
}

/// The visibility of a generated item: an explicit legacy marker goes before
/// the `field(..)` override, which goes before the declared visibility.
pub open spec fn resolved_visibility(
    legacy: Option<VisibilityView>,
    field: Option<VisibilityView>,
    declared: VisibilityView,
) -> VisibilityView {
    match legacy {
        Some(v) => v,
        None => match field {
            Some(v) => v,
            None => declared,
        },
    }
}

/// The visibility of a generated item.
pub fn resolve_visibility(legacy: Option<Visibility>, field: &Option<Visibility>, declared: &Visibility) -> (r:
    Visibility)
    ensures
        r@ == resolved_visibility(legacy.deep_view(), field.deep_view(), declared@),
{
    match legacy {
        Some(v) => v,
        None => match field {
            Some(v) => v.clone(),
            None => declared.clone(),
        },
    }
}

/// Old-style visibility declarations through the words `public` and
/// `private`. Nothing in the annotation's grammar keeps both from
/// appearing, so the collision is handled here.
pub trait LegacyVis {
    /// Whether the word `public` appeared.
    spec fn public_marker(&self) -> bool;

    /// Whether the word `private` appeared.
    spec fn private_marker(&self) -> bool;

    /// Whether the word `public` appeared.
    fn declared_public(&self) -> (b: bool)
        ensures
            b == self.public_marker(),
    ;

    /// Whether the word `private` appeared.
    fn declared_private(&self) -> (b: bool)
        ensures
            b == self.private_marker(),
    ;

    /// The declared visibility, if any; an error where both words appeared.
    fn to_visibility(&self) -> (r: Result<Option<Visibility>, ConfigError>)
        ensures
            result_view(r) == legacy_visibility(self.public_marker(), self.private_marker()),
    {
        let public = self.declared_public();
        let private = self.declared_private();
        if public && private {
            Err(ConfigError::ConflictingVisibility)
        } else if public {
            Ok(Some(Visibility::Public))
        } else if private {
            Ok(Some(Visibility::Inherited))
        } else {
            Ok(None)
        }
    }
}

/// A setting that is either taken over from elsewhere or given outright.
#[derive(Debug, Clone, PartialEq, Eq)]
pub enum Override<T> {
    /// The bare word: the value comes from an outer source.
    Inherit,
    /// The value as given.
    Explicit(T),
}

/// The contents of `field(..)`: the visibility asked for the builder's fields.
#[derive(Debug, Default, Clone, Copy, PartialEq, Eq)]
pub struct FieldItem {
    pub public: Option<()>,
    pub private: Option<()>,
}

impl LegacyVis for FieldItem {
    open spec fn public_marker(&self) -> bool {
        self.public is Some
    }

    open spec fn private_marker(&self) -> bool {
        self.private is Some
    }

    fn declared_public(&self) -> (b: bool) {
        self.public.is_some()
    }

    fn declared_private(&self) -> (b: bool) {
        self.private.is_some()
    }
}

impl FieldItem {
    /// The visibility that was declared, if any; an error where both words
    /// appeared.
    pub fn take_vis(self) -> (r: Result<Option<Visibility>, ConfigError>)
        ensures
            result_view(r) == legacy_visibility(self.public is Some, self.private is Some),
    {
        self.to_visibility()
    }
}

impl View for FieldItem {
    type V = FieldItem;

    open spec fn view(&self) -> FieldItem {
        *self
    }
}

impl DeepView for FieldItem {
    type V = FieldItem;

    open spec fn deep_view(&self) -> FieldItem {
        *self
    }
}

impl meta::Settings for FieldItem {
    /// `public` and `private`, each a bare word.
    open spec fn set(acc: FieldItem, item: MetaItemView) -> Result<FieldItem, ConfigErrorView> {
        if item.name() == "public"@ {
            match meta::flag_of(item) {
                Ok(_) => Ok(FieldItem { public: Some(()), ..acc }),
                Err(e) => Err(e),
            }
        } else if item.name() == "private"@ {
            match meta::flag_of(item) {
                Ok(_) => Ok(FieldItem { private: Some(()), ..acc }),
                Err(e) => Err(e),
            }
        } else {
            Err(ConfigErrorView::UnknownField(item.name()))
        }
    }

    fn apply(&mut self, item: &MetaItem) -> (r: Result<(), ConfigError>) {
        let name = item.name();
        if meta::is_key(name, "public") {
            match meta::read_flag(item) {
                Ok(_) => {
                    self.public = Some(());
                    Ok(())
                },
                Err(e) => Err(e),
            }
        } else if meta::is_key(name, "private") {
            match meta::read_flag(item) {
                Ok(_) => {
                    self.private = Some(());
                    Ok(())
                },
                Err(e) => Err(e),
            }
        } else {
            Err(meta::unknown(item))
        }
    }
}

impl FieldItem {
    /// Nothing declared.
    pub open spec fn empty() -> FieldItem {
        FieldItem { public: None, private: None }
    }

    /// The visibility that `field(..)` asks for, if any.
    pub open spec fn visibility_of(item: MetaItemView) -> Result<Option<VisibilityView>, ConfigErrorView> {
        match meta::list_of(item) {
            Ok(items) => match meta::filled::<FieldItem>(FieldItem::empty(), items) {
                Ok(f) => legacy_visibility(f.public is Some, f.private is Some),
                Err(e) => Err(e),
            },
            Err(e) => Err(e),
        }
    }

    /// Reads `field(..)` and reconciles its two markers.
    pub fn read_visibility(item: &MetaItem) -> (r: Result<Option<Visibility>, ConfigError>)
        ensures
            result_view(r) == FieldItem::visibility_of(item@),
    {
        let items = match meta::read_list(item) {
            Ok(items) => items,
            Err(e) => {
                return Err(e);
            },
        };
        match meta::read_block(FieldItem { public: None, private: None }, items) {
            Ok(f) => f.take_vis(),
            Err(e) => Err(e),
        }
    }
}

/// A default value: an expression, or the type's own `Default`.
#[derive(Debug, PartialEq, Eq)]
pub enum DefaultExpression {
    /// The expression as it was written.
    Explicit(String),
    /// `Default::default()`.
    Trait,
}

/// Mathematical model of a [`DefaultExpression`].
pub enum DefaultExpressionView {
    Explicit(Seq<char>),
    Trait,
}

impl View for DefaultExpression {
    type V = DefaultExpressionView;

    open spec fn view(&self) -> DefaultExpressionView {
        match self {
            DefaultExpression::Explicit(s) => DefaultExpressionView::Explicit(s@),
            DefaultExpression::Trait => DefaultExpressionView::Trait,
        }
    }
}

impl DeepView for DefaultExpression {
    type V = DefaultExpressionView;

    open spec fn deep_view(&self) -> DefaultExpressionView {
        self@
    }
}

impl Clone for DefaultExpression {
    fn clone(&self) -> (r: Self)
        ensures
            r@ == self@,
    {
        match self {
            DefaultExpression::Explicit(s) => DefaultExpression::Explicit(s.clone()),
            DefaultExpression::Trait => DefaultExpression::Trait,
        }
    }
}

impl DefaultExpressionView {
    /// The expression that stands for the default in generated code.
    pub open spec fn text(self, no_std: bool) -> Seq<char> {
        match self {
            DefaultExpressionView::Explicit(s) => s,
            DefaultExpressionView::Trait => if no_std {
                "::core::default::Default::default()"@
            } else {
                "::std::default::Default::default()"@
            },
        }
    }

    /// The block for the default, given whether its text is accepted as a
    /// block: an empty explicit expression is refused before anything else.
    pub open spec fn block(self, no_std: bool, parses: bool) -> Result<BlockView, ConfigErrorView> {
        if self matches DefaultExpressionView::Explicit(s) && s.len() == 0 {
            Err(ConfigErrorView::EmptyDefault)
        } else if parses {
            Ok(BlockView { source: self.text(no_std) })
        } else {
            Err(ConfigErrorView::InvalidDefault(self.text(no_std)))
        }
    }

    /// The block for the default.
    pub open spec fn parse_block(self, no_std: bool) -> Result<BlockView, ConfigErrorView> {
        self.block(no_std, reads_as_block(self.text(no_std)))
    }
}

impl DefaultExpression {
    /// The default that the bare word `default` stands for.
    pub fn from_word() -> (r: Result<DefaultExpression, ConfigError>)
        ensures
            result_view(r) == Ok::<DefaultExpressionView, ConfigErrorView>(
                DefaultExpressionView::Trait,
            ),
    {
        Ok(DefaultExpression::Trait)
    }

    /// The default that `default = "s"` stands for.
    pub fn from_string(s: &str) -> (r: Result<DefaultExpression, ConfigError>)
        ensures
            result_view(r) == Ok::<DefaultExpressionView, ConfigErrorView>(
                DefaultExpressionView::Explicit(s@),
            ),
    {
        Ok(DefaultExpression::Explicit(String::from_str(s)))
    }

    /// The expression that stands for the default in generated code.
    pub fn text(&self, no_std: bool) -> (r: String)
        ensures
            r@ == self@.text(no_std),
    {
        match self {
            DefaultExpression::Explicit(s) => s.clone(),
            DefaultExpression::Trait => if no_std {
                String::from_str("::core::default::Default::default()")
            } else {
                String::from_str("::std::default::Default::default()")
            },
        }
    }

    /// The block for the default, given whether its text is accepted as a
    /// block.
    pub fn block(&self, no_std: bool, parses: bool) -> (r: Result<Block, ConfigError>)
        ensures
            result_view(r) == self@.block(no_std, parses),
    {
        let empty = match self {
            DefaultExpression::Explicit(s) => s.as_str().is_empty(),
            DefaultExpression::Trait => false,
        };
        if empty {
            Err(ConfigError::EmptyDefault)
        } else if parses {
            Ok(Block { source: self.text(no_std) })
        } else {
            Err(ConfigError::InvalidDefault(self.text(no_std)))
        }
    }

    /// Reads the default as a block of generated code. An empty explicit
    /// expression is refused, and so is one that is not accepted as a block.
    pub fn parse_block(&self, no_std: bool) -> (r: Result<Block, ConfigError>)
        ensures
            result_view(r) == self@.parse_block(no_std),
            r matches Ok(b) ==> b@.valid(),
    {
        let text = self.text(no_std);
        let parses = block_reads(text.as_str());
        self.block(no_std, parses)
    }
}

/// When a default is read as a block. It fails on an empty explicit
/// expression, and else where the parser rejects what it is asked about; no
/// other failure exists, and a block that comes out holds the expression
/// unchanged. What the parser is asked about is the expression itself unless
/// `b`, an apostrophe and a character outside ASCII stand in a row in it.
/// The two expressions for the type's own default hold no such row.
pub proof fn lemma_parse_block(expr: DefaultExpressionView, no_std: bool)
    ensures
        expr.parse_block(no_std) is Ok <==> !(expr matches DefaultExpressionView::Explicit(s) && s.len()
            == 0) && parses_as_token_trees(guarded(expr.text(no_std))),
        !opens_wide_byte(expr.text(no_std)) ==> (expr.parse_block(no_std) is Ok <==> !(
        expr matches DefaultExpressionView::Explicit(s) && s.len() == 0) && parses_as_token_trees(
            expr.text(no_std),
        )),
        expr.parse_block(no_std) matches Ok(b) ==> b.source == expr.text(no_std),
        expr.parse_block(no_std) matches Err(e) ==> e == ConfigErrorView::EmptyDefault || e
            == ConfigErrorView::InvalidDefault(expr.text(no_std)),
        expr is Trait ==> !opens_wide_byte(expr.text(no_std)),
{
    if !opens_wide_byte(expr.text(no_std)) {
        lemma_guarded_same(expr.text(no_std));
    }
    if expr is Trait {
        reveal_strlit("::core::default::Default::default()");
        reveal_strlit("::std::default::Default::default()");
        let text = expr.text(no_std);
        assert forall|i: int| !wide_byte_at(text, i) by {
            if 0 <= i && i + 2 < text.len() {
                assert(text[i + 1] != '\'');
            }
        }
    }
}

/// Whether an attribute is copied to generated code: lint settings,
/// conditional compilation and documentation are, nothing else is.
pub open spec fn forwarded(attr: AttributeView) -> bool {
    attr.name() == "allow"@ || attr.name() == "cfg"@ || attr.name() == "doc"@
}

/// Whether an attribute is copied to generated code.
pub fn should_forward_attr(attr: &Attribute) -> (b: bool)
    ensures
        b == forwarded(attr@),
{
    let name = attr.name();
    meta::is_key(name, "allow") || meta::is_key(name, "cfg") || meta::is_key(name, "doc")
}

/// The attributes that are copied to generated code, in their order.
pub open spec fn forwarded_attrs(attrs: Seq<AttributeView>) -> Seq<AttributeView> {
    attrs.filter(|a: AttributeView| forwarded(a))
}

/// The attributes that are copied to generated code, in their order.
pub fn forward_attrs(attrs: &Vec<Attribute>) -> (r: Vec<Attribute>)
    ensures
        r.deep_view() == forwarded_attrs(attrs.deep_view()),
{
    let mut r: Vec<Attribute> = Vec::new();
    let mut i: usize = 0;
    let ghost all = attrs.deep_view();
    let ghost keep = |a: AttributeView| forwarded(a);
    assert(all.take(0) =~= Seq::<AttributeView>::empty());
    assert(Seq::<AttributeView>::empty().filter(keep) =~= Seq::<AttributeView>::empty()) by {
        reveal(Seq::filter);
    }
    assert(r.deep_view() =~= Seq::<AttributeView>::empty());
    while i < attrs.len()
        invariant
            i <= attrs.len(),
            all == attrs.deep_view(),
            keep == (|a: AttributeView| forwarded(a)),
            r.deep_view() == all.take(i as int).filter(keep),
        decreases attrs.len() - i,
    {
        let ghost before = r.deep_view();
        proof {
            assert(all.take(i as int + 1).drop_last() =~= all.take(i as int));
            assert(all.take(i as int + 1).last() == attrs@[i as int]@);
            reveal(Seq::filter);
        }
        if should_forward_attr(&attrs[i]) {
            r.push(attrs[i].clone());
            assert(r.deep_view() =~= before.push(attrs@[i as int]@));
        }
        i += 1;
    }
    assert(all.take(i as int) =~= all);
    r
}

} // verus!
