//! Field-level settings: what `#[builder(..)]` on a field says, and what the
//! field takes over from the struct.

use vstd::prelude::*;
use vstd::string::StringExecFns;
use crate::error::{result_view, ConfigError, ConfigErrorView};
use crate::options::meta;
use crate::options::meta::Settings;
use crate::options::struct_options::{
    SetterOptions as StructSetterOptions, SetterOptionsView as StructSetterOptionsView, StructOptions,
    StructOptionsView,
};
use crate::options::{
    forward_attrs, forwarded, forwarded_attrs, legacy_visibility, resolve_visibility,
    resolved_visibility, DefaultExpression, DefaultExpressionView, FieldItem, LegacyVis, Override,
};
use crate::synthesis::{
    Bindings, Block, BlockView, BuilderField, BuilderFieldView, BuilderPattern, DeprecationNotes,
    Initializer, InitializerView, Setter, SetterView,
};
use crate::syntax::{
    clone_attrs, clone_strings, Attribute, AttributeView, Field, FieldView, MetaItem, MetaItemView,
    Visibility, VisibilityView,
};

verus! {

/// The contents of `setter(..)` on a field.
#[derive(Debug, Clone, PartialEq, Eq)]
pub struct SetterOptions {
    pub name: Option<String>,
    pub prefix: Option<String>,
    pub skip: Option<bool>,
    pub into: Option<bool>,
}

/// Mathematical model of a field-level [`SetterOptions`].
pub struct SetterOptionsView {
    pub name: Option<Seq<char>>,
    pub prefix: Option<Seq<char>>,
    pub skip: Option<bool>,
    pub into: Option<bool>,
}

/// The setter name that a prefix gives to a field.
pub open spec fn prefixed(prefix: Seq<char>, field_ident: Seq<char>) -> Seq<char> {
    prefix + "_"@ + field_ident
}

impl SetterOptionsView {
    /// Nothing declared.
    pub open spec fn empty() -> SetterOptionsView {
        SetterOptionsView { name: None, prefix: None, skip: None, into: None }
    }

    /// The block was written: unless it says `skip` itself, the setter is
    /// on, whatever an outer level says.
    pub open spec fn presence_enables(self) -> SetterOptionsView {
        SetterOptionsView {
            skip: match self.skip {
                Some(s) => Some(s),
                None => Some(false),
            },
            ..self
        }
    }

    /// The settings behind the `setter` key in either form.
    pub open spec fn from_override(v: Override<SetterOptionsView>) -> SetterOptionsView {
        match v {
            Override::Explicit(val) => val.presence_enables(),
            Override::Inherit => SetterOptionsView { skip: Some(false), ..SetterOptionsView::empty() },
        }
    }

    /// The name after the field's own prefix was applied: an explicit name
    /// stays, else the prefix makes one.
    pub open spec fn locally_named(self, field_ident: Seq<char>) -> Option<Seq<char>> {
        match self.name {
            Some(n) => Some(n),
            None => match self.prefix {
                Some(p) => Some(prefixed(p, field_ident)),
                None => None,
            },
        }
    }

    /// The settings after the struct level was taken into account. The
    /// field's own prefix is applied first; then, where there is a parent,
    /// `into` is taken over unless set, and the parent's prefix makes a
    /// name where there is still none.
    pub open spec fn with_defaults(
        self,
        parent: Option<StructSetterOptionsView>,
        field_ident: Seq<char>,
    ) -> SetterOptionsView {
        let named = self.locally_named(field_ident);
        match parent {
            None => SetterOptionsView { name: named, ..self },
            Some(p) => SetterOptionsView {
                name: match named {
                    Some(n) => Some(n),
                    None => match p.prefix {
                        Some(prefix) => Some(prefixed(prefix, field_ident)),
                        None => None,
                    },
                },
                into: match self.into {
                    Some(i) => Some(i),
                    None => Some(p.into),
                },
                ..self
            },
        }
    }
}

impl View for SetterOptions {
    type V = SetterOptionsView;

    open spec fn view(&self) -> SetterOptionsView {
        SetterOptionsView {
            name: self.name.deep_view(),
            prefix: self.prefix.deep_view(),
            skip: self.skip,
            into: self.into,
        }
    }
}

impl DeepView for SetterOptions {
    type V = SetterOptionsView;

    open spec fn deep_view(&self) -> SetterOptionsView {
        self@
    }
}

impl Default for SetterOptions {
    fn default() -> (r: SetterOptions)
        ensures
            r@ == SetterOptionsView::empty(),
    {
        SetterOptions { name: None, prefix: None, skip: None, into: None }
    }
}

/// The setter name that a prefix gives to a field.
pub fn prefixed_name(prefix: &String, field_ident: &String) -> (r: String)
    ensures
        r@ == prefixed(prefix@, field_ident@),
{
    let mut r = prefix.clone();
    r.append("_");
    r.append(field_ident.as_str());
    r
}

impl Settings for SetterOptions {
    /// `name = ".."`, `prefix = ".."` and the switches `skip` and `into`.
    open spec fn set(acc: SetterOptionsView, item: MetaItemView) -> Result<
        SetterOptionsView,
        ConfigErrorView,
    > {
        if item.name() == "name"@ {
            match meta::string_of(item) {
                Ok(v) => Ok(SetterOptionsView { name: Some(v), ..acc }),
                Err(e) => Err(e),
            }
        } else if item.name() == "prefix"@ {
            match meta::string_of(item) {
                Ok(v) => Ok(SetterOptionsView { prefix: Some(v), ..acc }),
                Err(e) => Err(e),
            }
        } else if item.name() == "skip"@ {
            match meta::bool_of(item) {
                Ok(v) => Ok(SetterOptionsView { skip: Some(v), ..acc }),
                Err(e) => Err(e),
            }
        } else if item.name() == "into"@ {
            match meta::bool_of(item) {
                Ok(v) => Ok(SetterOptionsView { into: Some(v), ..acc }),
                Err(e) => Err(e),
            }
        } else {
            Err(ConfigErrorView::UnknownField(item.name()))
        }
    }

    fn apply(&mut self, item: &MetaItem) -> (r: Result<(), ConfigError>) {
        let name = item.name();
        if meta::is_key(name, "name") {
            match meta::read_string(item) {
                Ok(v) => {
                    self.name = Some(v);
                    Ok(())
                },
                Err(e) => Err(e),
            }
        } else if meta::is_key(name, "prefix") {
            match meta::read_string(item) {
                Ok(v) => {
                    self.prefix = Some(v);
                    Ok(())
                },
                Err(e) => Err(e),
            }
        } else if meta::is_key(name, "skip") {
            match meta::read_bool(item) {
                Ok(v) => {
                    self.skip = Some(v);
                    Ok(())
                },
                Err(e) => Err(e),
            }
        } else if meta::is_key(name, "into") {
            match meta::read_bool(item) {
                Ok(v) => {
                    self.into = Some(v);
                    Ok(())
                },
                Err(e) => Err(e),
            }
        } else {
            Err(meta::unknown(item))
        }
    }
}

impl SetterOptions {
    /// What the `setter` key declares on a field: as a bare word it only
    /// turns the setter on, as a list it holds the settings.
    pub open spec fn of(item: MetaItemView) -> Result<SetterOptionsView, ConfigErrorView> {
        match item {
            MetaItemView::Word(_) => Ok(SetterOptionsView::from_override(Override::Inherit)),
            MetaItemView::List(_, items) => match meta::filled::<SetterOptions>(
                SetterOptionsView::empty(),
                items,
            ) {
                Ok(v) => Ok(SetterOptionsView::from_override(Override::Explicit(v))),
                Err(e) => Err(e),
            },
            MetaItemView::NameValue(_, _) => Err(meta::wrong_type(item)),
        }
    }

    /// Reads the `setter` key on a field.
    pub fn read(item: &MetaItem) -> (r: Result<SetterOptions, ConfigError>)
        ensures
            result_view(r) == SetterOptions::of(item@),
    {
        match item {
            MetaItem::Word(_) => Ok(SetterOptions::from_override(Override::Inherit)),
            MetaItem::List(_, items) => {
                assert(items.deep_view() =~= item@->List_1);
                match meta::read_block(SetterOptions::default(), items) {
                    Ok(v) => Ok(SetterOptions::from_override(Override::Explicit(v))),
                    Err(e) => Err(e),
                }
            },
            MetaItem::NameValue(_, _) => Err(meta::unexpected_type(item)),
        }
    }

    /// Applies what the struct level says to these setter options.
    ///
    /// 1. Makes the prefixed name from the field's own prefix, unless a name
    ///    was given.
    /// 2. Takes over `into` unless it was set here.
    /// 3. Makes the prefixed name from the parent's prefix, where there is
    ///    still no name.
    pub fn with_defaults(&mut self, parent: Option<&StructSetterOptions>, field_ident: &String)
        ensures
            final(self)@ == old(self)@.with_defaults(parent.deep_view(), field_ident@),
    {
        if self.name.is_none() {
            let made = match &self.prefix {
                Some(prefix) => Some(prefixed_name(prefix, field_ident)),
                None => None,
            };
            self.name = made;
        }
        if let Some(p) = parent {
            if self.into.is_none() {
                self.into = Some(p.into);
            }
            if self.name.is_none() {
                let made = match &p.prefix {
                    Some(prefix) => Some(prefixed_name(prefix, field_ident)),
                    None => None,
                };
                self.name = made;
            }
        }
    }

    /// The presence of the `setter` block turns the setter on, even if the
    /// struct level says to skip.
    pub fn presence_enables(self) -> (r: SetterOptions)
        ensures
            r@ == self@.presence_enables(),
    {
        let mut s = self;
        if s.skip.is_none() {
            s.skip = Some(false);
        }
        s
    }

    /// The settings behind the `setter` key in either form.
    pub fn from_override(v: Override<SetterOptions>) -> (r: SetterOptions)
        ensures
            r@ == SetterOptionsView::from_override(
                match v {
                    Override::Explicit(val) => Override::Explicit(val@),
                    Override::Inherit => Override::Inherit,
                },
            ),
    {
        match v {
            Override::Explicit(val) => val.presence_enables(),
            Override::Inherit => SetterOptions { name: None, prefix: None, skip: Some(false), into: None },
        }
    }
}

/// Options for one field of the builder.
///
/// A value is well formed when `public` and `private` are not both set:
/// [`FieldOptions::from_field`] yields only such values, and
/// [`FieldOptions::with_defaults`] keeps them so.
#[derive(Debug, Clone, PartialEq, Eq)]
pub struct FieldOptions {
    /// The name of the field.
    pub ident: String,
    /// The declared type of the field.
    pub ty: String,
    /// The declared visibility of the field.
    pub vis: Visibility,
    /// The attributes on the field that are kept.
    pub attrs: Vec<Attribute>,
    /// `setter` or `setter(..)`
    pub setter: SetterOptions,
    /// `try_setter`
    pub try_setter: Option<bool>,
    /// `default` or `default = ".."`
    pub default: Option<DefaultExpression>,
    /// `pattern = ".."`
    pub pattern: Option<BuilderPattern>,
    /// `field(..)`
    pub field: Option<Visibility>,
    /// `private`
    pub private: Option<()>,
    /// `public`
    pub public: Option<()>,
    /// The bindings in use; always those of the struct.
    pub bindings: Bindings,
    /// Notices emitted with the setter.
    pub deprecation_notes: DeprecationNotes,
    /// Whether the field gets its default from the struct-level default.
    /// No annotation sets this.
    pub use_default_struct: bool,
}

/// Mathematical model of [`FieldOptions`].
pub struct FieldOptionsView {
    pub ident: Seq<char>,
    pub ty: Seq<char>,
    pub vis: VisibilityView,
    pub attrs: Seq<AttributeView>,
    pub setter: SetterOptionsView,
    pub try_setter: Option<bool>,
    pub default: Option<DefaultExpressionView>,
    pub pattern: Option<BuilderPattern>,
    pub field: Option<VisibilityView>,
    pub private: Option<()>,
    pub public: Option<()>,
    pub bindings: Bindings,
    pub deprecation_notes: Seq<Seq<char>>,
    pub use_default_struct: bool,
}

impl View for FieldOptions {
    type V = FieldOptionsView;

    open spec fn view(&self) -> FieldOptionsView {
        FieldOptionsView {
            ident: self.ident@,
            ty: self.ty@,
            vis: self.vis@,
            attrs: self.attrs.deep_view(),
            setter: self.setter@,
            try_setter: self.try_setter,
            default: self.default.deep_view(),
            pattern: self.pattern,
            field: self.field.deep_view(),
            private: self.private,
            public: self.public,
            bindings: self.bindings,
            deprecation_notes: self.deprecation_notes.deep_view(),
            use_default_struct: self.use_default_struct,
        }
    }
}

impl DeepView for FieldOptions {
    type V = FieldOptionsView;

    open spec fn deep_view(&self) -> FieldOptionsView {
        self@
    }
}

impl FieldOptionsView {
    /// The options of a field without any annotation.
    pub open spec fn initial(ident: Seq<char>, ty: Seq<char>) -> FieldOptionsView {
        FieldOptionsView {
            ident,
            ty,
            vis: VisibilityView::Inherited,
            attrs: seq![],
            setter: SetterOptionsView::empty(),
            try_setter: None,
            default: None,
            pattern: None,
            field: None,
            private: None,
            public: None,
            bindings: Bindings::Std,
            deprecation_notes: seq![],
            use_default_struct: false,
        }
    }

    /// `public` and `private` are not both set.
    pub open spec fn wf(self) -> bool {
        !(self.public is Some && self.private is Some)
    }

    /// The options that a field carries: those of its `#[builder(..)]`
    /// attributes over the initial ones, with the field's own visibility and
    /// the attributes that are copied on. Both legacy markers together are
    /// an error.
    pub open spec fn from_field(field: FieldView) -> Result<FieldOptionsView, ConfigErrorView> {
        match meta::configured::<FieldOptions>(FieldOptionsView::initial(field.ident, field.ty), field.attrs) {
            Ok(o) => if o.public is Some && o.private is Some {
                Err(ConfigErrorView::ConflictingVisibility)
            } else {
                Ok(FieldOptionsView { vis: field.vis, attrs: forwarded_attrs(field.attrs), ..o })
            },
            Err(e) => Err(e),
        }
    }

    /// The options after the struct level was taken into account:
    ///
    /// 1. `try_setter` is taken over unless set here;
    /// 2. without a default of its own, the field reads the struct-level
    ///    default where there is one;
    /// 3. the pattern is taken over unless set here;
    /// 4. the setter options take over theirs;
    /// 5. the bindings are those of the struct.
    pub open spec fn with_defaults(self, parent: StructOptionsView) -> FieldOptionsView {
        FieldOptionsView {
            try_setter: if self.try_setter is None && parent.try_setter is Some {
                parent.try_setter
            } else {
                self.try_setter
            },
            use_default_struct: if self.default is None && parent.default is Some {
                true
            } else {
                self.use_default_struct
            },
            pattern: match self.pattern {
                Some(p) => Some(p),
                None => Some(parent.pattern),
            },
            setter: self.setter.with_defaults(parent.setter, self.ident),
            bindings: parent.bindings,
            ..self
        }
    }

    /// Whether a setter is generated for the field.
    pub open spec fn setter_enabled(self) -> bool {
        !(self.setter.skip == Some(true))
    }

    /// The name of the setter: the one in the setter options, else the
    /// field's name.
    pub open spec fn setter_name(self) -> Seq<char> {
        match self.setter.name {
            Some(n) => n,
            None => self.ident,
        }
    }

    /// The visibility of what is generated for the field; an error where
    /// both legacy markers are set.
    pub open spec fn visibility(self) -> Result<VisibilityView, ConfigErrorView> {
        match legacy_visibility(self.public is Some, self.private is Some) {
            Ok(legacy) => Ok(resolved_visibility(legacy, self.field, self.vis)),
            Err(e) => Err(e),
        }
    }

    /// The field of the builder struct. It carries every attribute that
    /// the options hold. Both legacy markers together are an error.
    pub open spec fn as_builder_field(self) -> Result<BuilderFieldView, ConfigErrorView> {
        match self.visibility() {
            Ok(visibility) => Ok(
                BuilderFieldView {
                    field_ident: self.ident,
                    field_type: self.ty,
                    setter_enabled: self.setter_enabled(),
                    field_visibility: visibility,
                    attrs: self.attrs,
                    bindings: self.bindings,
                },
            ),
            Err(e) => Err(e),
        }
    }

    /// The setter. Of the attributes that the options hold it carries
    /// those that are copied to generated code, in their order. Both legacy
    /// markers together are an error.
    pub open spec fn as_setter(self) -> Result<SetterView, ConfigErrorView> {
        match self.visibility() {
            Ok(visibility) => Ok(
                SetterView {
                    enabled: self.setter_enabled(),
                    try_setter: self.try_setter == Some(true),
                    visibility,
                    pattern: self.pattern->Some_0,
                    attrs: forwarded_attrs(self.attrs),
                    ident: self.setter_name(),
                    field_ident: self.ident,
                    field_type: self.ty,
                    generic_into: self.setter.into == Some(true),
                    deprecation_notes: self.deprecation_notes,
                    bindings: self.bindings,
                },
            ),
            Err(e) => Err(e),
        }
    }

    /// The block of the field's own default, if there is one.
    pub open spec fn default_value(self) -> Result<Option<BlockView>, ConfigErrorView> {
        match self.default {
            Some(d) => match d.parse_block(self.bindings == Bindings::NoStd) {
                Ok(b) => Ok(Some(b)),
                Err(e) => Err(e),
            },
            None => Ok(None),
        }
    }

    /// The initializer of the field in the build method.
    pub open spec fn as_initializer(self) -> Result<InitializerView, ConfigErrorView> {
        match self.default_value() {
            Ok(default_value) => Ok(
                InitializerView {
                    field_ident: self.ident,
                    setter_enabled: self.setter_enabled(),
                    builder_pattern: self.pattern->Some_0,
                    default_value,
                    use_default_struct: self.use_default_struct,
                    bindings: self.bindings,
                },
            ),
            Err(e) => Err(e),
        }
    }
}

impl Settings for FieldOptions {
    /// The field-level keys: `setter`, `try_setter`, `default`, `pattern`,
    /// `field`, `private` and `public`.
    open spec fn set(acc: FieldOptionsView, item: MetaItemView) -> Result<FieldOptionsView, ConfigErrorView> {
        if item.name() == "setter"@ {
            match SetterOptions::of(item) {
                Ok(v) => Ok(FieldOptionsView { setter: v, ..acc }),
                Err(e) => Err(e),
            }
        } else if item.name() == "try_setter"@ {
            match meta::bool_of(item) {
                Ok(v) => Ok(FieldOptionsView { try_setter: Some(v), ..acc }),
                Err(e) => Err(e),
            }
        } else if item.name() == "default"@ {
            match meta::default_of(item) {
                Ok(v) => Ok(FieldOptionsView { default: Some(v), ..acc }),
                Err(e) => Err(e),
            }
        } else if item.name() == "pattern"@ {
            match meta::pattern_of(item) {
                Ok(v) => Ok(FieldOptionsView { pattern: Some(v), ..acc }),
                Err(e) => Err(e),
            }
        } else if item.name() == "field"@ {
            match FieldItem::visibility_of(item) {
                Ok(v) => Ok(FieldOptionsView { field: v, ..acc }),
                Err(e) => Err(e),
            }
        } else if item.name() == "private"@ {
            match meta::flag_of(item) {
                Ok(_) => Ok(FieldOptionsView { private: Some(()), ..acc }),
                Err(e) => Err(e),
            }
        } else if item.name() == "public"@ {
            match meta::flag_of(item) {
                Ok(_) => Ok(FieldOptionsView { public: Some(()), ..acc }),
                Err(e) => Err(e),
            }
        } else {
            Err(ConfigErrorView::UnknownField(item.name()))
        }
    }

    fn apply(&mut self, item: &MetaItem) -> (r: Result<(), ConfigError>) {
        let name = item.name();
        if meta::is_key(name, "setter") {
            match SetterOptions::read(item) {
                Ok(v) => {
                    self.setter = v;
                    Ok(())
                },
                Err(e) => Err(e),
            }
        } else if meta::is_key(name, "try_setter") {
            match meta::read_bool(item) {
                Ok(v) => {
                    self.try_setter = Some(v);
                    Ok(())
                },
                Err(e) => Err(e),
            }
        } else if meta::is_key(name, "default") {
            match meta::read_default(item) {
                Ok(v) => {
                    self.default = Some(v);
                    Ok(())
                },
                Err(e) => Err(e),
            }
        } else if meta::is_key(name, "pattern") {
            match meta::read_pattern(item) {
                Ok(v) => {
                    self.pattern = Some(v);
                    Ok(())
                },
                Err(e) => Err(e),
            }
        } else if meta::is_key(name, "field") {
            match FieldItem::read_visibility(item) {
                Ok(v) => {
                    self.field = v;
                    Ok(())
                },
                Err(e) => Err(e),
            }
        } else if meta::is_key(name, "private") {
            match meta::read_flag(item) {
                Ok(_) => {
                    self.private = Some(());
                    Ok(())
                },
                Err(e) => Err(e),
            }
        } else if meta::is_key(name, "public") {
            match meta::read_flag(item) {
                Ok(_) => {
                    self.public = Some(());
                    Ok(())
                },
                Err(e) => Err(e),
            }
        } else {
            Err(meta::unknown(item))
        }
    }
}

impl LegacyVis for FieldOptions {
    open spec fn public_marker(&self) -> bool {
        self.public is Some
    }

    open spec fn private_marker(&self) -> bool {
        self.private is Some
    }

    fn declared_public(&self) -> (b: bool) {
        self.public.is_some()
    }

    fn declared_private(&self) -> (b: bool) {
        self.private.is_some()
    }
}

impl FieldOptions {
    /// The options of a field without any annotation.
    pub fn new(ident: String, ty: String) -> (r: FieldOptions)
        ensures
            r@ == FieldOptionsView::initial(ident@, ty@),
    {
        let r = FieldOptions {
            ident,
            ty,
            vis: Visibility::Inherited,
            attrs: Vec::new(),
            setter: SetterOptions::default(),
            try_setter: None,
            default: None,
            pattern: None,
            field: None,
            private: None,
            public: None,
            bindings: Bindings::Std,
            deprecation_notes: Vec::new(),
            use_default_struct: false,
        };
        assert(r.attrs.deep_view() =~= seq![]);
        assert(r.deprecation_notes.deep_view() =~= seq![]);
        r
    }

    /// Reads the options of a field.
    pub fn from_field(field: &Field) -> (r: Result<FieldOptions, ConfigError>)
        ensures
            result_view(r) == FieldOptionsView::from_field(field@),
            r matches Ok(o) ==> o@.wf(),
    {
        let start = FieldOptions::new(field.ident.clone(), field.ty.clone());
        match meta::read_attrs(start, &field.attrs) {
            Ok(o) => {
                if o.public.is_some() && o.private.is_some() {
                    return Err(ConfigError::ConflictingVisibility);
                }
                let mut o = o;
                o.vis = field.vis.clone();
                o.attrs = forward_attrs(&field.attrs);
                Ok(o)
            },
            Err(e) => Err(e),
        }
    }

    /// Applies struct-level defaults to the field-level options.
    pub fn with_defaults(&mut self, parent: &StructOptions)
        ensures
            final(self)@ == old(self)@.with_defaults(parent@),
            old(self)@.wf() ==> final(self)@.wf(),
            final(self)@.pattern is Some,
    {
        // `try_setter` at the struct level is taken over at the field level
        // barring explicit opt-out.
        if self.try_setter.is_none() && parent.try_setter.is_some() {
            self.try_setter = parent.try_setter;
        }
        // Without a local default, a default of the parent is read in the
        // initializer.

        if self.default.is_none() && parent.default.is_some() {
            self.use_default_struct = true;
        }
        if self.pattern.is_none() {
            self.pattern = Some(parent.pattern);
        }
        let ident = self.ident.clone();
        self.setter.with_defaults(parent.setter.as_ref(), &ident);
        // The bindings cannot be set at the field level and always have a
        // value at the struct level.
        self.bindings = parent.bindings;
    }

    /// Whether a setter is generated for the field.
    pub fn setter_enabled(&self) -> (b: bool)
        ensures
            b == self@.setter_enabled(),
    {
        match self.setter.skip {
            Some(skip) => !skip,
            None => true,
        }
    }

    /// The name to use for the setter; without an override it falls back
    /// to the field name.
    pub fn setter_name(&self) -> (r: &String)
        ensures
            r@ == self@.setter_name(),
    {
        match &self.setter.name {
            Some(n) => n,
            None => &self.ident,
        }
    }

    /// The visibility of what is generated for the field; an error where
    /// both legacy markers are set.
    pub fn visibility(&self) -> (r: Result<Visibility, ConfigError>)
        ensures
            result_view(r) == self@.visibility(),
    {
        match self.to_visibility() {
            Ok(legacy) => Ok(resolve_visibility(legacy, &self.field, &self.vis)),
            Err(e) => Err(e),
        }
    }

    /// The [`BuilderField`] according to the options. Both legacy markers
    /// together are an error.
    pub fn as_builder_field(&self) -> (r: Result<BuilderField, ConfigError>)
        ensures
            result_view(r) == self@.as_builder_field(),
    {
        let field_visibility = match self.visibility() {
            Ok(v) => v,
            Err(e) => {
                return Err(e);
            },
        };
        Ok(
            BuilderField {
                field_ident: self.ident.clone(),
                field_type: self.ty.clone(),
                setter_enabled: self.setter_enabled(),
                field_visibility,
                attrs: clone_attrs(&self.attrs),
                bindings: self.bindings,
            },
        )
    }

    /// The [`Setter`] according to the options. The pattern must have been
    /// set or taken over. Both legacy markers together are an error.
    pub fn as_setter(&self) -> (r: Result<Setter, ConfigError>)
        requires
            self@.pattern is Some,
        ensures
            result_view(r) == self@.as_setter(),
    {
        let visibility = match self.visibility() {
            Ok(v) => v,
            Err(e) => {
                return Err(e);
            },
        };
        Ok(
            Setter {
                enabled: self.setter_enabled(),
                try_setter: match self.try_setter {
                    Some(t) => t,
                    None => false,
                },
                visibility,
                pattern: match self.pattern {
                    Some(p) => p,
                    None => BuilderPattern::Mutable,
                },
                attrs: forward_attrs(&self.attrs),
                ident: self.setter_name().clone(),
                field_ident: self.ident.clone(),
                field_type: self.ty.clone(),
                generic_into: match self.setter.into {
                    Some(i) => i,
                    None => false,
                },
                deprecation_notes: clone_strings(&self.deprecation_notes),
                bindings: self.bindings,
            },
        )
    }

    /// The block of the field's own default, if there is one.
    pub fn default_value(&self) -> (r: Result<Option<Block>, ConfigError>)
        ensures
            result_view(r) == self@.default_value(),
    {
        match &self.default {
            Some(d) => match d.parse_block(matches!(self.bindings, Bindings::NoStd)) {
                Ok(b) => Ok(Some(b)),
                Err(e) => Err(e),
            },
            None => Ok(None),
        }
    }

    /// The [`Initializer`] according to the options. The pattern must have
    /// been set or taken over. It fails where the field's default cannot be
    /// read as a block.
    pub fn as_initializer(&self) -> (r: Result<Initializer, ConfigError>)
        requires
            self@.pattern is Some,
        ensures
            result_view(r) == self@.as_initializer(),
    {
        let default_value = match self.default_value() {
            Ok(d) => d,
            Err(e) => {
                return Err(e);
            },
        };
        Ok(
            Initializer {
                field_ident: self.ident.clone(),
                setter_enabled: self.setter_enabled(),
                builder_pattern: match self.pattern {
                    Some(p) => p,
                    None => BuilderPattern::Mutable,
                },
                default_value,
                use_default_struct: self.use_default_struct,
                bindings: self.bindings,
            },
        )
    }
}

impl vstd::std_specs::convert::FromSpecImpl<(String, String)> for FieldOptions {
    /// The conversion is stated over models, by the `ensures` of `from`.
    open spec fn obeys_from_spec() -> bool {
        false
    }

    open spec fn from_spec(named: (String, String)) -> FieldOptions {
        arbitrary()
    }
}

impl From<(String, String)> for FieldOptions {
    /// The options of a field, given by name and type, without any
    /// annotation.
    fn from(named: (String, String)) -> (r: FieldOptions)
        ensures
            r@ == FieldOptionsView::initial(named.0@, named.1@),
    {
        FieldOptions::new(named.0, named.1)
    }
}

/// What the annotation cannot say comes from the declaration alone: options
/// that were read have the field's name, type and visibility and the
/// attributes that are copied on; they have the standard bindings, no notice,
/// and do not read the struct-level default.
pub proof fn lemma_from_field_identity(field: FieldView)
    ensures
        FieldOptionsView::from_field(field) matches Ok(o) ==> {
            &&& o.ident == field.ident
            &&& o.ty == field.ty
            &&& o.vis == field.vis
            &&& o.attrs == forwarded_attrs(field.attrs)
            &&& o.bindings == Bindings::Std
            &&& o.deprecation_notes == Seq::<Seq<char>>::empty()
            &&& !o.use_default_struct
        },
{
    let part = |o: FieldOptionsView|
        (o.ident, o.ty, o.bindings, o.deprecation_notes, o.use_default_struct);
    let start = FieldOptionsView::initial(field.ident, field.ty);
    assert forall|a: FieldOptionsView, item: MetaItemView|
        (#[trigger] FieldOptions::set(a, item)) is Ok implies part(FieldOptions::set(a, item)->Ok_0)
        == part(a) by {}
    meta::lemma_fill_attrs_keeps::<FieldOptions, _>(
        meta::Filling { record: start, seen: Seq::empty() },
        field.attrs,
        part,
    );
}

/// An explicit setter name goes before every prefix: whatever the struct
/// level says, and whatever prefix the field has, the setter keeps the name
/// that the field gives it.
pub proof fn lemma_explicit_name_wins(field: FieldOptionsView, parent: StructOptionsView, name: Seq<char>)
    requires
        field.setter.name == Some(name),
    ensures
        field.with_defaults(parent).setter_name() == name,
        field.with_defaults(parent).as_setter() matches Ok(s) ==> s.ident == name,
{
}

/// The field's own prefix goes before the struct's: with both and no
/// explicit name, the setter is named after the field's prefix.
pub proof fn lemma_local_prefix_wins(
    field: FieldOptionsView,
    parent: StructOptionsView,
    local: Seq<char>,
    outer: Seq<char>,
)
    requires
        field.setter.name is None,
        field.setter.prefix == Some(local),
        parent.setter is Some,
        parent.setter->Some_0.prefix == Some(outer),
    ensures
        field.with_defaults(parent).setter_name() == prefixed(local, field.ident),
        field.with_defaults(parent).as_setter() matches Ok(s) ==> s.ident == prefixed(
            local,
            field.ident,
        ),
{
}

/// The struct's prefix names the setter where the field has neither a name
/// nor a prefix; without any of the three the setter has the field's name.
pub proof fn lemma_fallback_names(field: FieldOptionsView, parent: StructOptionsView)
    requires
        field.setter.name is None,
        field.setter.prefix is None,
    ensures
        field.with_defaults(parent).setter_name() == (if parent.setter is Some
            && parent.setter->Some_0.prefix is Some {
            prefixed(parent.setter->Some_0.prefix->Some_0, field.ident)
        } else {
            field.ident
        }),
{
}

/// Taking over from the struct a second time changes nothing.
pub proof fn lemma_with_defaults_idempotent(field: FieldOptionsView, parent: StructOptionsView)
    ensures
        field.with_defaults(parent).with_defaults(parent) == field.with_defaults(parent),
{
}

/// Reading is a function of what was written: two fields with the same
/// model give the same options or the same error, and so do two readings of
/// one field.
pub proof fn lemma_from_field_deterministic(a: FieldView, b: FieldView, parent: StructOptionsView)
    requires
        a == b,
    ensures
        FieldOptionsView::from_field(a) == FieldOptionsView::from_field(b),
        FieldOptionsView::from_field(a) matches Ok(o) ==> FieldOptionsView::from_field(b) matches Ok(p)
            && o.with_defaults(parent) == p.with_defaults(parent),
{
}

/// The two legacy markers exclude each other: options that were read hold
/// at most one of them, and so do the options after the struct level was
/// taken into account.
pub proof fn lemma_markers_exclusive(field: FieldView, parent: StructOptionsView)
    ensures
        FieldOptionsView::from_field(field) matches Ok(o) ==> o.wf() && o.with_defaults(parent).wf(),
{
}

/// The two legacy markers together are a contradiction: no builder field
/// and no setter is described for such options.
pub proof fn lemma_both_markers_fail(field: FieldOptionsView)
    requires
        field.public is Some,
        field.private is Some,
    ensures
        field.visibility() == Err::<VisibilityView, ConfigErrorView>(
            ConfigErrorView::ConflictingVisibility,
        ),
        field.as_setter() == Err::<SetterView, ConfigErrorView>(ConfigErrorView::ConflictingVisibility),
        field.as_builder_field() == Err::<BuilderFieldView, ConfigErrorView>(
            ConfigErrorView::ConflictingVisibility,
        ),
{
}

/// Without a legacy marker and without `field(..)`, what is generated for
/// the field has the visibility that the field was declared with; a single
/// marker decides alone. The setter and the builder field are described
/// exactly where the markers do not contradict each other.
pub proof fn lemma_visibility(field: FieldOptionsView)
    requires
        field.wf(),
    ensures
        field.visibility() is Ok,
        field.as_setter() is Ok,
        field.as_builder_field() is Ok,
        field.public is None && field.private is None && field.field is None ==> field.visibility()
            == Ok::<VisibilityView, ConfigErrorView>(field.vis),
        field.public is None && field.private is None && field.field is Some ==> field.visibility()
            == Ok::<VisibilityView, ConfigErrorView>(field.field->Some_0),
        field.public is Some ==> field.visibility() == Ok::<VisibilityView, ConfigErrorView>(
            VisibilityView::Public,
        ),
        field.private is Some ==> field.visibility() == Ok::<VisibilityView, ConfigErrorView>(
            VisibilityView::Inherited,
        ),
        Ok::<VisibilityView, ConfigErrorView>(field.as_setter()->Ok_0.visibility) == field.visibility(),
        Ok::<VisibilityView, ConfigErrorView>(field.as_builder_field()->Ok_0.field_visibility)
            == field.visibility(),
{
}

/// Whatever else the options hold, the setter that is described for them
/// carries exactly the attributes among theirs that are copied to generated
/// code, in their order: each one it carries is such an attribute, and each
/// such attribute of the options is among them. The builder field carries
/// all that the options hold.
pub proof fn lemma_setter_attrs(field: FieldOptionsView)
    ensures
        field.as_setter() matches Ok(s) ==> {
            &&& s.attrs == forwarded_attrs(field.attrs)
            &&& forall|i: int| 0 <= i < s.attrs.len() ==> forwarded(#[trigger] s.attrs[i])
            &&& forall|i: int|
                0 <= i < field.attrs.len() && forwarded(field.attrs[i]) ==> s.attrs.contains(
                    #[trigger] field.attrs[i],
                )
        },
        field.as_builder_field() matches Ok(f) ==> f.attrs == field.attrs,
{
    broadcast use vstd::seq_lib::group_filter_ensures;

    let keep = |a: AttributeView| forwarded(a);
    assert forall|i: int| 0 <= i < field.attrs.filter(keep).len() implies forwarded(
        #[trigger] field.attrs.filter(keep)[i],
    ) by {
        field.attrs.lemma_filter_pred(keep, i);
    }
    assert forall|i: int| 0 <= i < field.attrs.len() && forwarded(field.attrs[i]) implies field.attrs.filter(
        keep,
    ).contains(#[trigger] field.attrs[i]) by {
        field.attrs.lemma_filter_contains(keep, i);
    }
}

/// A field with a setter, without a default of its own and under a struct
/// without default has an initializer with nothing to fall back on: it is
/// required.
pub proof fn lemma_required_field(field: FieldOptionsView, parent: StructOptionsView)
    requires
        field.default is None,
        parent.default is None,
        !field.use_default_struct,
        field.setter_enabled(),
    ensures
        field.with_defaults(parent).as_initializer() matches Ok(i) && i.required() && i.field_ident
            == field.ident,
{
}

/// A field whose setter is skipped, without a default of its own and
/// under a struct with a default, has an initializer that reads the
/// struct-level default, and a builder field without a slot.
pub proof fn lemma_skipped_field_reads_struct_default(field: FieldOptionsView, parent: StructOptionsView)
    requires
        field.setter.skip == Some(true),
        field.default is None,
        parent.default is Some,
    ensures
        field.with_defaults(parent).as_initializer() matches Ok(i) && i.reads_struct_default(),
        field.with_defaults(parent).as_builder_field() matches Ok(f) ==> !f.setter_enabled,
        field.with_defaults(parent).as_setter() matches Ok(s) ==> !s.enabled,
{
}

/// `into` on the field makes the setter generic; without a word on the
/// field, the struct level decides.
pub proof fn lemma_generic_into(field: FieldOptionsView, parent: StructOptionsView)
    requires
        field.wf(),
    ensures
        field.with_defaults(parent).as_setter() matches Ok(s) && s.generic_into == (match field.setter.into {
            Some(i) => i,
            None => match parent.setter {
                Some(p) => p.into,
                None => false,
            },
        }),
{
}

} // verus!
