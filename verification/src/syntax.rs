//! Plain-value model of the parsed declaration that option resolution reads.

use vstd::prelude::*;

verus! {

/// A literal in an attribute.
#[derive(Debug, PartialEq, Eq)]
pub enum Lit {
    /// A string literal, by its contents.
    Str(String),
    /// A boolean literal.
    Bool(bool),
    /// Any other literal, by its source text.
    Other(String),
}

/// Mathematical model of a [`Lit`].
pub enum LitView {
    Str(Seq<char>),
    Bool(bool),
    Other(Seq<char>),
}

impl View for Lit {
    type V = LitView;

    open spec fn view(&self) -> LitView {
        match self {
            Lit::Str(s) => LitView::Str(s@),
            Lit::Bool(b) => LitView::Bool(*b),
            Lit::Other(s) => LitView::Other(s@),
        }
    }
}

impl DeepView for Lit {
    type V = LitView;

    open spec fn deep_view(&self) -> LitView {
        self@
    }
}

impl Clone for Lit {
    fn clone(&self) -> (r: Self)
        ensures
            r@ == self@,
    {
        match self {
            Lit::Str(s) => Lit::Str(s.clone()),
            Lit::Bool(b) => Lit::Bool(*b),
            Lit::Other(s) => Lit::Other(s.clone()),
        }
    }
}

/// A meta item: a bare word, a named list, or a name with a literal value.
#[derive(Debug, PartialEq, Eq)]
pub enum MetaItem {
    /// `name`
    Word(String),
    /// `name(item, ..)`
    List(String, Vec<NestedMetaItem>),
    /// `name = literal`
    NameValue(String, Lit),
}

/// An entry of a meta item list.
#[derive(Debug, PartialEq, Eq)]
pub enum NestedMetaItem {
    /// A nested meta item.
    MetaItem(MetaItem),
    /// A bare literal.
    Literal(Lit),
}

/// Mathematical model of a [`MetaItem`].
pub enum MetaItemView {
    Word(Seq<char>),
    List(Seq<char>, Seq<NestedMetaItemView>),
    NameValue(Seq<char>, LitView),
}

/// Mathematical model of a [`NestedMetaItem`].
pub enum NestedMetaItemView {
    MetaItem(MetaItemView),
    Literal(LitView),
}

impl MetaItemView {
    /// The name that the item starts with.
    pub open spec fn name(self) -> Seq<char> {
        match self {
            MetaItemView::Word(n) => n,
            MetaItemView::List(n, _) => n,
            MetaItemView::NameValue(n, _) => n,
        }
    }
}

impl View for MetaItem {
    type V = MetaItemView;

    open spec fn view(&self) -> MetaItemView
        decreases self,
    {
        match self {
            MetaItem::Word(n) => MetaItemView::Word(n@),
            MetaItem::List(n, items) => MetaItemView::List(
                n@,
                Seq::new(
                    items@.len(),
                    |i: int|
                        if 0 <= i < items@.len() {
                            items@[i]@
                        } else {
                            arbitrary()
                        },
                ),
            ),
            MetaItem::NameValue(n, l) => MetaItemView::NameValue(n@, l@),
        }
    }
}

impl View for NestedMetaItem {
    type V = NestedMetaItemView;

    open spec fn view(&self) -> NestedMetaItemView
        decreases self,
    {
        match self {
            NestedMetaItem::MetaItem(m) => NestedMetaItemView::MetaItem(m@),
            NestedMetaItem::Literal(l) => NestedMetaItemView::Literal(l@),
        }
    }
}

impl DeepView for MetaItem {
    type V = MetaItemView;

    open spec fn deep_view(&self) -> MetaItemView {
        self@
    }
}

impl DeepView for NestedMetaItem {
    type V = NestedMetaItemView;

    open spec fn deep_view(&self) -> NestedMetaItemView {
        self@
    }
}

impl MetaItem {
    /// The name that the item starts with.
    pub fn name(&self) -> (n: &String)
        ensures
            n@ == self@.name(),
    {
        match self {
            MetaItem::Word(n) => n,
            MetaItem::List(n, _) => n,
            MetaItem::NameValue(n, _) => n,
        }
    }

    /// A copy of the item with the same model.
    pub fn duplicate(&self) -> (r: MetaItem)
        ensures
            r@ == self@,
        decreases self,
    {
        match self {
            MetaItem::Word(n) => MetaItem::Word(n.clone()),
            MetaItem::List(n, items) => {
                let mut copy: Vec<NestedMetaItem> = Vec::new();
                let mut i: usize = 0;
                while i < items.len()
                    invariant
                        i <= items.len(),
                        copy.len() == i,
                        forall|j: int| 0 <= j < i ==> copy@[j]@ == items@[j]@,
                        *self == MetaItem::List(*n, *items),
                    decreases items.len() - i,
                {
                    let c = match &items[i] {
                        NestedMetaItem::MetaItem(m) => {
                            proof {
                                assert(self->List_1 == *items);
                                assert(decreases_to!(self => self->List_1));
                                assert(decreases_to!(*items => items@));
                                assert(decreases_to!(items@ => items@[i as int]));
                                assert(items@[i as int]->MetaItem_0 == *m);
                                assert(decreases_to!(items@[i as int] => items@[i as int]->MetaItem_0));
                            }
                            NestedMetaItem::MetaItem(m.duplicate())
                        },
                        NestedMetaItem::Literal(l) => NestedMetaItem::Literal(l.clone()),
                    };
                    copy.push(c);
                    i += 1;
                }
                let r = MetaItem::List(n.clone(), copy);
                proof {
                    assert(r@->List_1 =~= self@->List_1);
                }
                r
            },
            MetaItem::NameValue(n, l) => MetaItem::NameValue(n.clone(), l.clone()),
        }
    }
}

impl Clone for MetaItem {
    fn clone(&self) -> (r: Self)
        ensures
            r@ == self@,
    {
        self.duplicate()
    }
}

impl Clone for NestedMetaItem {
    fn clone(&self) -> (r: Self)
        ensures
            r@ == self@,
    {
        match self {
            NestedMetaItem::MetaItem(m) => NestedMetaItem::MetaItem(m.duplicate()),
            NestedMetaItem::Literal(l) => NestedMetaItem::Literal(l.clone()),
        }
    }
}

/// An attribute on a declaration or on a field.
#[derive(Debug, PartialEq, Eq)]
pub struct Attribute {
    /// What stands between the brackets.
    pub value: MetaItem,
    /// Whether the attribute was written as a `///` comment.
    pub is_sugared_doc: bool,
}

/// Mathematical model of an [`Attribute`].
pub struct AttributeView {
    pub value: MetaItemView,
    pub is_sugared_doc: bool,
}

impl AttributeView {
    /// The name of the attribute: that of its meta item.
    pub open spec fn name(self) -> Seq<char> {
        self.value.name()
    }
}

impl View for Attribute {
    type V = AttributeView;

    open spec fn view(&self) -> AttributeView {
        AttributeView { value: self.value@, is_sugared_doc: self.is_sugared_doc }
    }
}

impl DeepView for Attribute {
    type V = AttributeView;

    open spec fn deep_view(&self) -> AttributeView {
        self@
    }
}

impl Attribute {
    /// The name of the attribute: that of its meta item.
    pub fn name(&self) -> (n: &String)
        ensures
            n@ == self@.name(),
    {
        self.value.name()
    }
}

impl Clone for Attribute {
    fn clone(&self) -> (r: Self)
        ensures
            r@ == self@,
    {
        Attribute { value: self.value.duplicate(), is_sugared_doc: self.is_sugared_doc }
    }
}

/// The visibility of an item.
#[derive(Debug, PartialEq, Eq)]
pub enum Visibility {
    /// `pub`
    Public,
    /// `pub(crate)`
    Crate,
    /// `pub(path)`, by the path's source text.
    Restricted(String),
    /// No qualifier: private to the enclosing module.
    Inherited,
}

/// Mathematical model of a [`Visibility`].
pub enum VisibilityView {
    Public,
    Crate,
    Restricted(Seq<char>),
    Inherited,
}

impl View for Visibility {
    type V = VisibilityView;

    open spec fn view(&self) -> VisibilityView {
        match self {
            Visibility::Public => VisibilityView::Public,
            Visibility::Crate => VisibilityView::Crate,
            Visibility::Restricted(p) => VisibilityView::Restricted(p@),
            Visibility::Inherited => VisibilityView::Inherited,
        }
    }
}

impl DeepView for Visibility {
    type V = VisibilityView;

    open spec fn deep_view(&self) -> VisibilityView {
        self@
    }
}

impl Clone for Visibility {
    fn clone(&self) -> (r: Self)
        ensures
            r@ == self@,
    {
        match self {
            Visibility::Public => Visibility::Public,
            Visibility::Crate => Visibility::Crate,
            Visibility::Restricted(p) => Visibility::Restricted(p.clone()),
            Visibility::Inherited => Visibility::Inherited,
        }
    }
}

/// The generic parameters of a declaration, each as its source text.
#[derive(Debug, PartialEq, Eq)]
pub struct Generics {
    /// Lifetime parameters, such as `'a`.
    pub lifetimes: Vec<String>,
    /// Type parameters, such as `T` or `T: Clone`.
    pub ty_params: Vec<String>,
    /// The predicates of the `where` clause.
    pub where_clause: Vec<String>,
}

/// Mathematical model of [`Generics`].
pub struct GenericsView {
    pub lifetimes: Seq<Seq<char>>,
    pub ty_params: Seq<Seq<char>>,
    pub where_clause: Seq<Seq<char>>,
}

impl GenericsView {
    /// No parameters and no `where` clause.
    pub open spec fn empty() -> GenericsView {
        GenericsView { lifetimes: seq![], ty_params: seq![], where_clause: seq![] }
    }
}

impl View for Generics {
    type V = GenericsView;

    open spec fn view(&self) -> GenericsView {
        GenericsView {
            lifetimes: self.lifetimes.deep_view(),
            ty_params: self.ty_params.deep_view(),
            where_clause: self.where_clause.deep_view(),
        }
    }
}

impl DeepView for Generics {
    type V = GenericsView;

    open spec fn deep_view(&self) -> GenericsView {
        self@
    }
}

/// A copy of a list of strings, with the same model.
pub fn clone_strings(v: &Vec<String>) -> (r: Vec<String>)
    ensures
        r.deep_view() == v.deep_view(),
{
    let mut r: Vec<String> = Vec::new();
    let mut i: usize = 0;
    while i < v.len()
        invariant
            i <= v.len(),
            r.len() == i,
            forall|j: int| 0 <= j < i ==> r@[j]@ == v@[j]@,
        decreases v.len() - i,
    {
        r.push(v[i].clone());
        i += 1;
    }
    assert(r.deep_view() =~= v.deep_view());
    r
}

/// A copy of a list of attributes, with the same model.
pub fn clone_attrs(v: &Vec<Attribute>) -> (r: Vec<Attribute>)
    ensures
        r.deep_view() == v.deep_view(),
{
    let mut r: Vec<Attribute> = Vec::new();
    let mut i: usize = 0;
    while i < v.len()
        invariant
            i <= v.len(),
            r.len() == i,
            forall|j: int| 0 <= j < i ==> r@[j]@ == v@[j]@,
        decreases v.len() - i,
    {
        r.push(v[i].clone());
        i += 1;
    }
    assert(r.deep_view() =~= v.deep_view());
    r
}

impl Generics {
    /// No parameters and no `where` clause.
    pub fn new() -> (r: Generics)
        ensures
            r@ == GenericsView::empty(),
    {
        let r = Generics { lifetimes: Vec::new(), ty_params: Vec::new(), where_clause: Vec::new() };
        assert(r.lifetimes.deep_view() =~= seq![]);
        assert(r.ty_params.deep_view() =~= seq![]);
        assert(r.where_clause.deep_view() =~= seq![]);
        r
    }
}

impl Clone for Generics {
    fn clone(&self) -> (r: Self)
        ensures
            r@ == self@,
    {
        Generics {
            lifetimes: clone_strings(&self.lifetimes),
            ty_params: clone_strings(&self.ty_params),
            where_clause: clone_strings(&self.where_clause),
        }
    }
}

/// A named field of a braced struct.
#[derive(Debug, Clone, PartialEq, Eq)]
pub struct Field {
    /// The field's name.
    pub ident: String,
    /// The field's visibility.
    pub vis: Visibility,
    /// The attributes on the field.
    pub attrs: Vec<Attribute>,
    /// The field's type, as its source text.
    pub ty: String,
}

/// Mathematical model of a [`Field`].
pub struct FieldView {
    pub ident: Seq<char>,
    pub vis: VisibilityView,
    pub attrs: Seq<AttributeView>,
    pub ty: Seq<char>,
}

impl View for Field {
    type V = FieldView;

    open spec fn view(&self) -> FieldView {
        FieldView {
            ident: self.ident@,
            vis: self.vis@,
            attrs: self.attrs.deep_view(),
            ty: self.ty@,
        }
    }
}

impl DeepView for Field {
    type V = FieldView;

    open spec fn deep_view(&self) -> FieldView {
        self@
    }
}

/// What a declaration declares.
#[derive(Debug, Clone, PartialEq, Eq)]
pub enum Body {
    /// A struct with named fields between braces.
    Struct(Vec<Field>),
    /// A tuple struct.
    Tuple,
    /// A unit struct.
    Unit,
    /// An enum.
    Enum,
}

/// Mathematical model of a [`Body`].
pub enum BodyView {
    Struct(Seq<FieldView>),
    Tuple,
    Unit,
    Enum,
}

impl View for Body {
    type V = BodyView;

    open spec fn view(&self) -> BodyView {
        match self {
            Body::Struct(fields) => BodyView::Struct(fields.deep_view()),
            Body::Tuple => BodyView::Tuple,
            Body::Unit => BodyView::Unit,
            Body::Enum => BodyView::Enum,
        }
    }
}

/// A parsed declaration that carries the annotation.
#[derive(Debug, Clone, PartialEq, Eq)]
pub struct DeriveInput {
    /// The declared name.
    pub ident: String,
    /// The declared visibility.
    pub vis: Visibility,
    /// The attributes on the declaration.
    pub attrs: Vec<Attribute>,
    /// The generic parameters.
    pub generics: Generics,
    /// The fields or variants.
    pub body: Body,
}

/// Mathematical model of a [`DeriveInput`].
pub struct DeriveInputView {
    pub ident: Seq<char>,
    pub vis: VisibilityView,
    pub attrs: Seq<AttributeView>,
    pub generics: GenericsView,
    pub body: BodyView,
}

impl View for DeriveInput {
    type V = DeriveInputView;

    open spec fn view(&self) -> DeriveInputView {
        DeriveInputView {
            ident: self.ident@,
            vis: self.vis@,
            attrs: self.attrs.deep_view(),
            generics: self.generics@,
            body: self.body@,
        }
    }
}

} // verus!
