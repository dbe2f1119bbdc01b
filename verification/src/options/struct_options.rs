//! Struct-level settings: what `#[builder(..)]` on the declaration says.

use vstd::prelude::*;
use vstd::string::StringExecFns;
use crate::error::{result_view, ConfigError, ConfigErrorView};
use crate::options::meta;
use crate::options::meta::Settings;
use crate::options::{
    forward_attrs, forwarded_attrs, legacy_visibility, resolve_visibility, resolved_visibility,
    DefaultExpression, DefaultExpressionView, FieldItem, LegacyVis,
};
use crate::synthesis::{
    Bindings, Block, BlockView, BuildMethod, BuildMethodView, Builder, BuilderPattern, BuilderView,
    DeprecationNotes,
};
use crate::syntax::{
    clone_strings, Attribute, AttributeView, DeriveInput, DeriveInputView, Generics, GenericsView,
    MetaItem, MetaItemView, Visibility, VisibilityView,
};

verus! {

/// The contents of `setter(..)` at struct level. The field-level block of
/// the same name has settings of its own.
#[derive(Debug, Clone, PartialEq, Eq)]
pub struct SetterOptions {
    pub prefix: Option<String>,
    pub into: bool,
    pub skip: bool,
    pub private: Option<()>,
    pub public: Option<()>,
}

/// Mathematical model of a struct-level [`SetterOptions`].
pub struct SetterOptionsView {
    pub prefix: Option<Seq<char>>,
    pub into: bool,
    pub skip: bool,
    pub private: Option<()>,
    pub public: Option<()>,
}

impl SetterOptionsView {
    /// Nothing declared.
    pub open spec fn empty() -> SetterOptionsView {
        SetterOptionsView { prefix: None, into: false, skip: false, private: None, public: None }
    }
}

impl View for SetterOptions {
    type V = SetterOptionsView;

    open spec fn view(&self) -> SetterOptionsView {
        SetterOptionsView {
            prefix: self.prefix.deep_view(),
            into: self.into,
            skip: self.skip,
            private: self.private,
            public: self.public,
        }
    }
}

impl DeepView for SetterOptions {
    type V = SetterOptionsView;

    open spec fn deep_view(&self) -> SetterOptionsView {
        self@
    }
}

impl Default for SetterOptions {
    fn default() -> (r: SetterOptions)
        ensures
            r@ == SetterOptionsView::empty(),
    {
        SetterOptions { prefix: None, into: false, skip: false, private: None, public: None }
    }
}

impl LegacyVis for SetterOptions {
    open spec fn public_marker(&self) -> bool {
        self.public is Some
    }

    open spec fn private_marker(&self) -> bool {
        self.private is Some
    }

    fn declared_public(&self) -> (b: bool) {
        self.public.is_some()
    }

    fn declared_private(&self) -> (b: bool) {
        self.private.is_some()
    }
}

impl Settings for SetterOptions {
    /// `prefix = ".."`, the switches `into` and `skip`, and the markers
    /// `private` and `public`.
    open spec fn set(acc: SetterOptionsView, item: MetaItemView) -> Result<
        SetterOptionsView,
        ConfigErrorView,
    > {
        if item.name() == "prefix"@ {
            match meta::string_of(item) {
                Ok(v) => Ok(SetterOptionsView { prefix: Some(v), ..acc }),
                Err(e) => Err(e),
            }
        } else if item.name() == "into"@ {
            match meta::bool_of(item) {
                Ok(v) => Ok(SetterOptionsView { into: v, ..acc }),
                Err(e) => Err(e),
            }
        } else if item.name() == "skip"@ {
            match meta::bool_of(item) {
                Ok(v) => Ok(SetterOptionsView { skip: v, ..acc }),
                Err(e) => Err(e),
            }
        } else if item.name() == "private"@ {
            match meta::flag_of(item) {
                Ok(_) => Ok(SetterOptionsView { private: Some(()), ..acc }),
                Err(e) => Err(e),
            }
        } else if item.name() == "public"@ {
            match meta::flag_of(item) {
                Ok(_) => Ok(SetterOptionsView { public: Some(()), ..acc }),
                Err(e) => Err(e),
            }
        } else {
            Err(ConfigErrorView::UnknownField(item.name()))
        }
    }

    fn apply(&mut self, item: &MetaItem) -> (r: Result<(), ConfigError>) {
        let name = item.name();
        if meta::is_key(name, "prefix") {
            match meta::read_string(item) {
                Ok(v) => {
                    self.prefix = Some(v);
                    Ok(())
                },
                Err(e) => Err(e),
            }
        } else if meta::is_key(name, "into") {
            match meta::read_bool(item) {
                Ok(v) => {
                    self.into = v;
                    Ok(())
                },
                Err(e) => Err(e),
            }
        } else if meta::is_key(name, "skip") {
            match meta::read_bool(item) {
                Ok(v) => {
                    self.skip = v;
                    Ok(())
                },
                Err(e) => Err(e),
            }
        } else if meta::is_key(name, "private") {
            match meta::read_flag(item) {
                Ok(_) => {
                    self.private = Some(());
                    Ok(())
                },
                Err(e) => Err(e),
            }
        } else if meta::is_key(name, "public") {
            match meta::read_flag(item) {
                Ok(_) => {
                    self.public = Some(());
                    Ok(())
                },
                Err(e) => Err(e),
            }
        } else {
            Err(meta::unknown(item))
        }
    }
}

impl SetterOptions {
    /// What `setter(..)` declares at struct level. Both legacy markers
    /// together are an error.
    pub open spec fn of(item: MetaItemView) -> Result<SetterOptionsView, ConfigErrorView> {
        match meta::list_of(item) {
            Ok(items) => match meta::filled::<SetterOptions>(SetterOptionsView::empty(), items) {
                Ok(v) => if v.public is Some && v.private is Some {
                    Err(ConfigErrorView::ConflictingVisibility)
                } else {
                    Ok(v)
                },
                Err(e) => Err(e),
            },
            Err(e) => Err(e),
        }
    }

    /// Reads `setter(..)` at struct level.
    pub fn read(item: &MetaItem) -> (r: Result<SetterOptions, ConfigError>)
        ensures
            result_view(r) == SetterOptions::of(item@),
            r matches Ok(v) ==> !(v@.public is Some && v@.private is Some),
    {
        let items = match meta::read_list(item) {
            Ok(items) => items,
            Err(e) => {
                return Err(e);
            },
        };
        match meta::read_block(SetterOptions::default(), items) {
            Ok(v) => if v.public.is_some() && v.private.is_some() {
                Err(ConfigError::ConflictingVisibility)
            } else {
                Ok(v)
            },
            Err(e) => Err(e),
        }
    }
}

/// Struct-level control over the generated build function.
#[derive(Debug, Clone, PartialEq, Eq)]
pub struct BuildFnOptions {
    /// Whether the build function is left out.
    pub skip: bool,
    /// The name of the build function, if one is generated.
    pub name: String,
    /// The path of the function that validates the builder before the
    /// build, if any.
    pub validate: Option<String>,
}

/// Mathematical model of [`BuildFnOptions`].
pub struct BuildFnOptionsView {
    pub skip: bool,
    pub name: Seq<char>,
    pub validate: Option<Seq<char>>,
}

impl BuildFnOptionsView {
    /// A build function named `build`, with no validation.
    pub open spec fn initial() -> BuildFnOptionsView {
        BuildFnOptionsView { skip: false, name: "build"@, validate: None }
    }
}

impl View for BuildFnOptions {
    type V = BuildFnOptionsView;

    open spec fn view(&self) -> BuildFnOptionsView {
        BuildFnOptionsView {
            skip: self.skip,
            name: self.name@,
            validate: self.validate.deep_view(),
        }
    }
}

impl DeepView for BuildFnOptions {
    type V = BuildFnOptionsView;

    open spec fn deep_view(&self) -> BuildFnOptionsView {
        self@
    }
}

impl Default for BuildFnOptions {
    fn default() -> (r: BuildFnOptions)
        ensures
            r@ == BuildFnOptionsView::initial(),
    {
        BuildFnOptions { skip: false, name: String::from_str("build"), validate: None }
    }
}

impl Settings for BuildFnOptions {
    /// The switch `skip`, `name = ".."` and `validate = "path"`.
    open spec fn set(acc: BuildFnOptionsView, item: MetaItemView) -> Result<
        BuildFnOptionsView,
        ConfigErrorView,
    > {
        if item.name() == "skip"@ {
            match meta::bool_of(item) {
                Ok(v) => Ok(BuildFnOptionsView { skip: v, ..acc }),
                Err(e) => Err(e),
            }
        } else if item.name() == "name"@ {
            match meta::string_of(item) {
                Ok(v) => Ok(BuildFnOptionsView { name: v, ..acc }),
                Err(e) => Err(e),
            }
        } else if item.name() == "validate"@ {
            match meta::path_of(item) {
                Ok(v) => Ok(BuildFnOptionsView { validate: Some(v), ..acc }),
                Err(e) => Err(e),
            }
        } else {
            Err(ConfigErrorView::UnknownField(item.name()))
        }
    }

    fn apply(&mut self, item: &MetaItem) -> (r: Result<(), ConfigError>) {
        let name = item.name();
        if meta::is_key(name, "skip") {
            match meta::read_bool(item) {
                Ok(v) => {
                    self.skip = v;
                    Ok(())
                },
                Err(e) => Err(e),
            }
        } else if meta::is_key(name, "name") {
            match meta::read_string(item) {
                Ok(v) => {
                    self.name = v;
                    Ok(())
                },
                Err(e) => Err(e),
            }
        } else if meta::is_key(name, "validate") {
            match meta::read_path(item) {
                Ok(v) => {
                    self.validate = Some(v);
                    Ok(())
                },
                Err(e) => Err(e),
            }
        } else {
            Err(meta::unknown(item))
        }
    }
}

impl BuildFnOptions {
    /// What `build_fn(..)` declares.
    pub open spec fn of(item: MetaItemView) -> Result<BuildFnOptionsView, ConfigErrorView> {
        match meta::list_of(item) {
            Ok(items) => meta::filled::<BuildFnOptions>(BuildFnOptionsView::initial(), items),
            Err(e) => Err(e),
        }
    }

    /// Reads `build_fn(..)`.
    pub fn read(item: &MetaItem) -> (r: Result<BuildFnOptions, ConfigError>)
        ensures
            result_view(r) == BuildFnOptions::of(item@),
    {
        match meta::read_list(item) {
            Ok(items) => meta::read_block(BuildFnOptions::default(), items),
            Err(e) => Err(e),
        }
    }
}

/// The bindings that the presence of `no_std` asks for.
pub fn no_std_to_bindings(b: bool) -> (r: Bindings)
    ensures
        r == (if b {
            Bindings::NoStd
        } else {
            Bindings::Std
        }),
{
    if b {
        Bindings::NoStd
    } else {
        Bindings::Std
    }
}

/// Struct-level options read from the declaration and its annotation.
///
/// A value is well formed when `public` and `private` are not both set,
/// neither on the options nor in their `setter(..)` block:
/// [`StructOptions::from_derive_input`] yields only such values.
#[derive(Debug, Clone, PartialEq, Eq)]
pub struct StructOptions {
    /// The declared name.
    pub ident: String,
    /// The declared visibility.
    pub vis: Visibility,
    /// The declared generic parameters.
    pub generics: Generics,
    /// The attributes that are copied to the builder.
    pub attrs: Vec<Attribute>,
    /// `pattern = ".."`
    pub pattern: BuilderPattern,
    /// `derive(..)`
    pub derive: Vec<String>,
    /// `name = ".."`
    pub name: Option<String>,
    /// `build_fn(..)`
    pub build_fn: BuildFnOptions,
    /// `setter(..)`
    pub setter: Option<SetterOptions>,
    /// `try_setter`
    pub try_setter: Option<bool>,
    /// `default` or `default = ".."`
    pub default: Option<DefaultExpression>,
    /// `public`
    pub public: Option<()>,
    /// `private`
    pub private: Option<()>,
    /// `field(..)`
    pub field: Option<Visibility>,
    /// `no_std`
    pub bindings: Bindings,
    /// Notices found while finishing the options.
    pub deprecation_notes: DeprecationNotes,
}

/// Mathematical model of [`StructOptions`].
pub struct StructOptionsView {
    pub ident: Seq<char>,
    pub vis: VisibilityView,
    pub generics: GenericsView,
    pub attrs: Seq<AttributeView>,
    pub pattern: BuilderPattern,
    pub derive: Seq<Seq<char>>,
    pub name: Option<Seq<char>>,
    pub build_fn: BuildFnOptionsView,
    pub setter: Option<SetterOptionsView>,
    pub try_setter: Option<bool>,
    pub default: Option<DefaultExpressionView>,
    pub public: Option<()>,
    pub private: Option<()>,
    pub field: Option<VisibilityView>,
    pub bindings: Bindings,
    pub deprecation_notes: Seq<Seq<char>>,
}

impl View for StructOptions {
    type V = StructOptionsView;

    open spec fn view(&self) -> StructOptionsView {
        StructOptionsView {
            ident: self.ident@,
            vis: self.vis@,
            generics: self.generics@,
            attrs: self.attrs.deep_view(),
            pattern: self.pattern,
            derive: self.derive.deep_view(),
            name: self.name.deep_view(),
            build_fn: self.build_fn@,
            setter: self.setter.deep_view(),
            try_setter: self.try_setter,
            default: self.default.deep_view(),
            public: self.public,
            private: self.private,
            field: self.field.deep_view(),
            bindings: self.bindings,
            deprecation_notes: self.deprecation_notes.deep_view(),
        }
    }
}

impl DeepView for StructOptions {
    type V = StructOptionsView;

    open spec fn deep_view(&self) -> StructOptionsView {
        self@
    }
}

/// The notice on a struct-level default: its meaning is going to change.
pub open spec fn struct_default_note(location: Seq<char>) -> Seq<char> {
    "the meaning of `#[builder(default)]` on the struct level (found "@ + location
        + ") will change in the next version (see https://github.com/colin-kiegel/rust-derive-builder/issues/61 for more details). To squelch this message and adopt the new behavior now, compile `derive_builder` with `--features \"struct_default\"`."@
}

/// The notice on a struct without `field(..)`: builder fields are going to
/// be private by default.
pub open spec fn private_fields_note(location: Seq<char>) -> Seq<char> {
    "Builder fields will be private by default starting in the next version. (see https://github.com/colin-kiegel/rust-derive-builder/issues/86 for more details). To squelch this message and adopt the new behavior now, compile `derive_builder` with `--features \"private_fields\"` or add `field(<vis>)` to the builder attribute on the struct. (Found "@
        + location + ")"@
}

impl StructOptionsView {
    /// The options of a declaration without any annotation.
    pub open spec fn initial(ident: Seq<char>) -> StructOptionsView {
        StructOptionsView {
            ident,
            vis: VisibilityView::Inherited,
            generics: GenericsView::empty(),
            attrs: seq![],
            pattern: BuilderPattern::Mutable,
            derive: seq![],
            name: None,
            build_fn: BuildFnOptionsView::initial(),
            setter: None,
            try_setter: None,
            default: None,
            public: None,
            private: None,
            field: None,
            bindings: Bindings::Std,
            deprecation_notes: seq![],
        }
    }

    /// `public` and `private` are not both set, neither on the options nor
    /// in their `setter(..)` block.
    pub open spec fn wf(self) -> bool {
        &&& !(self.public is Some && self.private is Some)
        &&& self.setter matches Some(s) ==> !(s.public is Some && s.private is Some)
    }

    /// Where the options were found, for notices.
    pub open spec fn locate(self) -> Seq<char> {
        "on struct "@ + self.ident
    }

    /// The name of the builder type: the override, or the declared name
    /// followed by `Builder`.
    pub open spec fn builder_ident(self) -> Seq<char> {
        match self.name {
            Some(n) => n,
            None => self.ident + "Builder"@,
        }
    }

    /// The notices that finishing adds, in their order. Each of the two
    /// build switches silences one: with `struct_default` on, a struct-level
    /// default has its new meaning already; with `private_fields` on, the
    /// builder's fields are private by default already.
    pub open spec fn new_notes(self, struct_default: bool, private_fields: bool) -> Seq<Seq<char>> {
        (if !struct_default && self.default is Some {
            seq![struct_default_note(self.locate())]
        } else {
            seq![]
        }) + (if !private_fields && self.field is None {
            seq![private_fields_note(self.locate())]
        } else {
            seq![]
        })
    }

    /// The options with the notices that they give rise to under the two
    /// build switches.
    pub open spec fn finish_with(self, struct_default: bool, private_fields: bool) -> StructOptionsView {
        StructOptionsView {
            deprecation_notes: self.deprecation_notes + self.new_notes(struct_default, private_fields),
            ..self
        }
    }

    /// The options with the notices that they give rise to, with both build
    /// switches off.
    pub open spec fn finish(self) -> StructOptionsView {
        self.finish_with(false, false)
    }

    /// The visibility of the builder type; an error where both legacy
    /// markers are set.
    pub open spec fn builder_visibility(self) -> Result<VisibilityView, ConfigErrorView> {
        match legacy_visibility(self.public is Some, self.private is Some) {
            Ok(legacy) => Ok(resolved_visibility(legacy, self.field, self.vis)),
            Err(e) => Err(e),
        }
    }

    /// The builder without fields and methods. It has the standard
    /// bindings; those of the options go with the fields, the setters and
    /// the build method. Both legacy markers together are an error.
    pub open spec fn as_builder(self) -> Result<BuilderView, ConfigErrorView> {
        match self.builder_visibility() {
            Ok(visibility) => Ok(
                BuilderView {
                    enabled: true,
                    ident: self.builder_ident(),
                    pattern: self.pattern,
                    derives: self.derive,
                    generics: Some(self.generics),
                    visibility,
                    fields: seq![],
                    functions: seq![],
                    doc_comment: None,
                    deprecation_notes: self.deprecation_notes,
                    bindings: Bindings::Std,
                },
            ),
            Err(e) => Err(e),
        }
    }

    /// The block of the struct-level default, if there is one.
    pub open spec fn default_struct(self) -> Result<Option<BlockView>, ConfigErrorView> {
        match self.default {
            Some(d) => match d.parse_block(self.bindings == Bindings::NoStd) {
                Ok(b) => Ok(Some(b)),
                Err(e) => Err(e),
            },
            None => Ok(None),
        }
    }

    /// The build method without initializers. It has the visibility of
    /// the declaration.
    pub open spec fn as_build_method(self) -> Result<BuildMethodView, ConfigErrorView> {
        match self.default_struct() {
            Ok(default_struct) => Ok(
                BuildMethodView {
                    enabled: !self.build_fn.skip,
                    ident: self.build_fn.name,
                    visibility: self.vis,
                    pattern: self.pattern,
                    target_ty: self.ident,
                    target_ty_generics: Some(self.generics),
                    initializers: seq![],
                    doc_comment: None,
                    bindings: self.bindings,
                    default_struct,
                    validate_fn: self.build_fn.validate,
                },
            ),
            Err(e) => Err(e),
        }
    }

    /// The options that a declaration carries: those of its
    /// `#[builder(..)]` attributes over the initial ones, with the
    /// declaration's own name, visibility and generics and the attributes
    /// that are copied on; then finished under the two build switches. Both
    /// legacy markers together are an error.
    pub open spec fn from_derive_input_with(
        input: DeriveInputView,
        struct_default: bool,
        private_fields: bool,
    ) -> Result<StructOptionsView, ConfigErrorView> {
        match meta::configured::<StructOptions>(StructOptionsView::initial(input.ident), input.attrs) {
            Ok(o) => if o.public is Some && o.private is Some {
                Err(ConfigErrorView::ConflictingVisibility)
            } else {
                Ok(
                    (StructOptionsView {
                        vis: input.vis,
                        generics: input.generics,
                        attrs: forwarded_attrs(input.attrs),
                        ..o
                    }).finish_with(struct_default, private_fields),
                )
            },
            Err(e) => Err(e),
        }
    }

    /// The options that a declaration carries, with both build switches
    /// off.
    pub open spec fn from_derive_input(input: DeriveInputView) -> Result<StructOptionsView, ConfigErrorView> {
        StructOptionsView::from_derive_input_with(input, false, false)
    }
}

impl Settings for StructOptions {
    /// The struct-level keys: `pattern`, `derive`, `name`, `build_fn`,
    /// `setter`, `try_setter`, `default`, `public`, `private`, `field`
    /// and `no_std`.
    open spec fn set(acc: StructOptionsView, item: MetaItemView) -> Result<
        StructOptionsView,
        ConfigErrorView,
    > {
        if item.name() == "pattern"@ {
            match meta::pattern_of(item) {
                Ok(v) => Ok(StructOptionsView { pattern: v, ..acc }),
                Err(e) => Err(e),
            }
        } else if item.name() == "derive"@ {
            match meta::idents_of(item) {
                Ok(v) => Ok(StructOptionsView { derive: v, ..acc }),
                Err(e) => Err(e),
            }
        } else if item.name() == "name"@ {
            match meta::string_of(item) {
                Ok(v) => Ok(StructOptionsView { name: Some(v), ..acc }),
                Err(e) => Err(e),
            }
        } else if item.name() == "build_fn"@ {
            match BuildFnOptions::of(item) {
                Ok(v) => Ok(StructOptionsView { build_fn: v, ..acc }),
                Err(e) => Err(e),
            }
        } else if item.name() == "setter"@ {
            match SetterOptions::of(item) {
                Ok(v) => Ok(StructOptionsView { setter: Some(v), ..acc }),
                Err(e) => Err(e),
            }
        } else if item.name() == "try_setter"@ {
            match meta::bool_of(item) {
                Ok(v) => Ok(StructOptionsView { try_setter: Some(v), ..acc }),
                Err(e) => Err(e),
            }
        } else if item.name() == "default"@ {
            match meta::default_of(item) {
                Ok(v) => Ok(StructOptionsView { default: Some(v), ..acc }),
                Err(e) => Err(e),
            }
        } else if item.name() == "public"@ {
            match meta::flag_of(item) {
                Ok(_) => Ok(StructOptionsView { public: Some(()), ..acc }),
                Err(e) => Err(e),
            }
        } else if item.name() == "private"@ {
            match meta::flag_of(item) {
                Ok(_) => Ok(StructOptionsView { private: Some(()), ..acc }),
                Err(e) => Err(e),
            }
        } else if item.name() == "field"@ {
            match FieldItem::visibility_of(item) {
                Ok(v) => Ok(StructOptionsView { field: v, ..acc }),
                Err(e) => Err(e),
            }
        } else if item.name() == "no_std"@ {
            match meta::bool_of(item) {
                Ok(v) => Ok(
                    StructOptionsView {
                        bindings: if v {
                            Bindings::NoStd
                        } else {
                            Bindings::Std
                        },
                        ..acc
                    },
                ),
                Err(e) => Err(e),
            }
        } else {
            Err(ConfigErrorView::UnknownField(item.name()))
        }
    }

    fn apply(&mut self, item: &MetaItem) -> (r: Result<(), ConfigError>) {
        let name = item.name();
        if meta::is_key(name, "pattern") {
            match meta::read_pattern(item) {
                Ok(v) => {
                    self.pattern = v;
                    Ok(())
                },
                Err(e) => Err(e),
            }
        } else if meta::is_key(name, "derive") {
            match meta::read_idents(item) {
                Ok(v) => {
                    self.derive = v;
                    Ok(())
                },
                Err(e) => Err(e),
            }
        } else if meta::is_key(name, "name") {
            match meta::read_string(item) {
                Ok(v) => {
                    self.name = Some(v);
                    Ok(())
                },
                Err(e) => Err(e),
            }
        } else if meta::is_key(name, "build_fn") {
            match BuildFnOptions::read(item) {
                Ok(v) => {
                    self.build_fn = v;
                    Ok(())
                },
                Err(e) => Err(e),
            }
        } else if meta::is_key(name, "setter") {
            match SetterOptions::read(item) {
                Ok(v) => {
                    self.setter = Some(v);
                    Ok(())
                },
                Err(e) => Err(e),
            }
        } else if meta::is_key(name, "try_setter") {
            match meta::read_bool(item) {
                Ok(v) => {
                    self.try_setter = Some(v);
                    Ok(())
                },
                Err(e) => Err(e),
            }
        } else if meta::is_key(name, "default") {
            match meta::read_default(item) {
                Ok(v) => {
                    self.default = Some(v);
                    Ok(())
                },
                Err(e) => Err(e),
            }
        } else if meta::is_key(name, "public") {
            match meta::read_flag(item) {
                Ok(_) => {
                    self.public = Some(());
                    Ok(())
                },
                Err(e) => Err(e),
            }
        } else if meta::is_key(name, "private") {
            match meta::read_flag(item) {
                Ok(_) => {
                    self.private = Some(());
                    Ok(())
                },
                Err(e) => Err(e),
            }
        } else if meta::is_key(name, "field") {
            match FieldItem::read_visibility(item) {
                Ok(v) => {
                    self.field = v;
                    Ok(())
                },
                Err(e) => Err(e),
            }
        } else if meta::is_key(name, "no_std") {
            match meta::read_bool(item) {
                Ok(v) => {
                    self.bindings = no_std_to_bindings(v);
                    Ok(())
                },
                Err(e) => Err(e),
            }
        } else {
            Err(meta::unknown(item))
        }
    }
}

impl LegacyVis for StructOptions {
    open spec fn public_marker(&self) -> bool {
        self.public is Some
    }

    open spec fn private_marker(&self) -> bool {
        self.private is Some
    }

    fn declared_public(&self) -> (b: bool) {
        self.public.is_some()
    }

    fn declared_private(&self) -> (b: bool) {
        self.private.is_some()
    }
}

impl StructOptions {
    /// The options of a declaration without any annotation.
    pub fn new(ident: String) -> (r: StructOptions)
        ensures
            r@ == StructOptionsView::initial(ident@),
    {
        let r = StructOptions {
            ident,
            vis: Visibility::Inherited,
            generics: Generics::new(),
            attrs: Vec::new(),
            pattern: BuilderPattern::Mutable,
            derive: Vec::new(),
            name: None,
            build_fn: BuildFnOptions::default(),
            setter: None,
            try_setter: None,
            default: None,
            public: None,
            private: None,
            field: None,
            bindings: Bindings::Std,
            deprecation_notes: Vec::new(),
        };
        assert(r.attrs.deep_view() =~= seq![]);
        assert(r.derive.deep_view() =~= seq![]);
        assert(r.deprecation_notes.deep_view() =~= seq![]);
        r
    }

    /// Where the options were found, for notices.
    pub fn locate(&self) -> (r: String)
        ensures
            r@ == self@.locate(),
    {
        let mut r = String::from_str("on struct ");
        r.append(self.ident.as_str());
        r
    }

    /// The name of the builder type.
    pub fn builder_ident(&self) -> (r: String)
        ensures
            r@ == self@.builder_ident(),
    {
        match &self.name {
            Some(n) => n.clone(),
            None => {
                let mut r = self.ident.clone();
                r.append("Builder");
                r
            },
        }
    }

    /// Scans the options for what is about to change, and adds a notice
    /// for each change that the build switches have not made yet:
    /// `struct_default` gives a struct-level default its new meaning,
    /// `private_fields` makes the builder's fields private by default.
    pub fn finish_with(self, struct_default: bool, private_fields: bool) -> (r: StructOptions)
        ensures
            r@ == self@.finish_with(struct_default, private_fields),
    {
        let mut s = self;
        let ghost before = s.deprecation_notes.deep_view();
        if !struct_default && s.default.is_some() {
            let mut note = String::from_str(
                "the meaning of `#[builder(default)]` on the struct level (found ",
            );
            note.append(s.locate().as_str());
            note.append(
                ") will change in the next version (see https://github.com/colin-kiegel/rust-derive-builder/issues/61 for more details). To squelch this message and adopt the new behavior now, compile `derive_builder` with `--features \"struct_default\"`.",
            );
            s.deprecation_notes.push(note);
        }
        if !private_fields && s.field.is_none() {
            let mut note = String::from_str(
                "Builder fields will be private by default starting in the next version. (see https://github.com/colin-kiegel/rust-derive-builder/issues/86 for more details). To squelch this message and adopt the new behavior now, compile `derive_builder` with `--features \"private_fields\"` or add `field(<vis>)` to the builder attribute on the struct. (Found ",
            );
            note.append(s.locate().as_str());
            note.append(")");
            s.deprecation_notes.push(note);
        }
        assert(s.deprecation_notes.deep_view() =~= before + self@.new_notes(
            struct_default,
            private_fields,
        ));
        s
    }

    /// Scans the options for what is about to change, and adds a notice
    /// for each, with both build switches off.
    pub fn finish(self) -> (r: StructOptions)
        ensures
            r@ == self@.finish(),
    {
        self.finish_with(false, false)
    }

    /// Reads the options of a declaration and finishes them under the two
    /// build switches.
    pub fn from_derive_input_with(input: &DeriveInput, struct_default: bool, private_fields: bool) -> (r:
        Result<StructOptions, ConfigError>)
        ensures
            result_view(r) == StructOptionsView::from_derive_input_with(
                input@,
                struct_default,
                private_fields,
            ),
            r matches Ok(o) ==> o@.wf(),
    {
        let start = StructOptions::new(input.ident.clone());
        match meta::read_attrs(start, &input.attrs) {
            Ok(o) => {
                if o.public.is_some() && o.private.is_some() {
                    return Err(ConfigError::ConflictingVisibility);
                }
                let mut o = o;
                o.vis = input.vis.clone();
                o.generics = input.generics.clone();
                o.attrs = forward_attrs(&input.attrs);
                proof {
                    lemma_no_contradiction_is_read(input@, struct_default, private_fields);
                }
                Ok(o.finish_with(struct_default, private_fields))
            },
            Err(e) => Err(e),
        }
    }

    /// Reads the options of a declaration, with both build switches off.
    pub fn from_derive_input(input: &DeriveInput) -> (r: Result<StructOptions, ConfigError>)
        ensures
            result_view(r) == StructOptionsView::from_derive_input(input@),
            r matches Ok(o) ==> o@.wf(),
    {
        StructOptions::from_derive_input_with(input, false, false)
    }

    /// The builder without fields and methods. Both legacy markers
    /// together are an error.
    pub fn as_builder(&self) -> (r: Result<Builder, ConfigError>)
        ensures
            result_view(r) == self@.as_builder(),
    {
        let visibility = match self.to_visibility() {
            Ok(legacy) => resolve_visibility(legacy, &self.field, &self.vis),
            Err(e) => {
                return Err(e);
            },
        };
        let r = Builder {
            enabled: true,
            ident: self.builder_ident(),
            pattern: self.pattern,
            derives: clone_strings(&self.derive),
            generics: Some(self.generics.clone()),
            visibility,
            fields: Vec::new(),
            functions: Vec::new(),
            doc_comment: None,
            deprecation_notes: clone_strings(&self.deprecation_notes),
            bindings: Bindings::Std,
        };
        assert(r.fields.deep_view() =~= seq![]);
        assert(r.functions.deep_view() =~= seq![]);
        Ok(r)
    }

    /// The block of the struct-level default, if there is one.
    pub fn default_struct(&self) -> (r: Result<Option<Block>, ConfigError>)
        ensures
            result_view(r) == self@.default_struct(),
    {
        match &self.default {
            Some(d) => match d.parse_block(matches!(self.bindings, Bindings::NoStd)) {
                Ok(b) => Ok(Some(b)),
                Err(e) => Err(e),
            },
            None => Ok(None),
        }
    }

    /// The build method without initializers. It fails where the
    /// struct-level default cannot be read as a block.
    pub fn as_build_method(&self) -> (r: Result<BuildMethod, ConfigError>)
        ensures
            result_view(r) == self@.as_build_method(),
    {
        let default_struct = match self.default_struct() {
            Ok(d) => d,
            Err(e) => {
                return Err(e);
            },
        };
        let r = BuildMethod {
            enabled: !self.build_fn.skip,
            ident: self.build_fn.name.clone(),
            visibility: self.vis.clone(),
            pattern: self.pattern,
            target_ty: self.ident.clone(),
            target_ty_generics: Some(self.generics.clone()),
            initializers: Vec::new(),
            doc_comment: None,
            bindings: self.bindings,
            default_struct,
            validate_fn: match &self.build_fn.validate {
                Some(p) => Some(p.clone()),
                None => None,
            },
        };
        assert(r.initializers.deep_view() =~= seq![]);
        Ok(r)
    }
}

impl vstd::std_specs::convert::FromSpecImpl<String> for StructOptions {
    /// The conversion is stated over models, by the `ensures` of `from`.
    open spec fn obeys_from_spec() -> bool {
        false
    }

    open spec fn from_spec(ident: String) -> StructOptions {
        arbitrary()
    }
}

impl From<String> for StructOptions {
    /// The options of a declaration, given by name, without any annotation.
    fn from(ident: String) -> (r: StructOptions)
        ensures
            r@ == StructOptionsView::initial(ident@),
    {
        StructOptions::new(ident)
    }
}

/// What the annotation cannot say comes from the declaration alone: options
/// that were read have the declaration's name, visibility and generics and
/// the attributes that are copied on, and no notices but those of finishing.
pub proof fn lemma_from_derive_input_identity(
    input: DeriveInputView,
    struct_default: bool,
    private_fields: bool,
)
    ensures
        StructOptionsView::from_derive_input_with(input, struct_default, private_fields) matches Ok(
            o,
        ) ==> {
            &&& o.ident == input.ident
            &&& o.vis == input.vis
            &&& o.generics == input.generics
            &&& o.attrs == forwarded_attrs(input.attrs)
            &&& o.deprecation_notes == o.new_notes(struct_default, private_fields)
        },
{
    let part = |o: StructOptionsView| (o.ident, o.deprecation_notes);
    let start = StructOptionsView::initial(input.ident);
    assert forall|a: StructOptionsView, item: MetaItemView|
        (#[trigger] StructOptions::set(a, item)) is Ok implies part(
        StructOptions::set(a, item)->Ok_0,
    ) == part(a) by {}
    meta::lemma_fill_attrs_keeps::<StructOptions, _>(
        meta::Filling { record: start, seen: Seq::empty() },
        input.attrs,
        part,
    );
    if let Ok(o) = StructOptionsView::from_derive_input_with(input, struct_default, private_fields) {
        let read = meta::configured::<StructOptions>(start, input.attrs)->Ok_0;
        assert(read.deprecation_notes =~= Seq::<Seq<char>>::empty());
        assert(o.deprecation_notes =~= o.new_notes(struct_default, private_fields));
    }
}

/// The builder is named by the override where there is one, and after the
/// declaration otherwise.
pub proof fn lemma_builder_ident(options: StructOptionsView)
    requires
        !(options.public is Some && options.private is Some),
    ensures
        options.as_builder() matches Ok(b) && b.ident == (match options.name {
            Some(n) => n,
            None => options.ident + "Builder"@,
        }),
{
}

/// The two legacy markers together are a contradiction: no builder is
/// described for such options.
pub proof fn lemma_both_markers_fail(options: StructOptionsView)
    requires
        options.public is Some,
        options.private is Some,
    ensures
        options.as_builder() == Err::<BuilderView, ConfigErrorView>(
            ConfigErrorView::ConflictingVisibility,
        ),
{
}

/// Without a legacy marker and without `field(..)`, the builder has the
/// visibility that the declaration has; a single marker decides alone.
pub proof fn lemma_builder_visibility(options: StructOptionsView)
    requires
        !(options.public is Some && options.private is Some),
    ensures
        options.as_builder() matches Ok(b) && b.visibility == (if options.public is Some {
            VisibilityView::Public
        } else if options.private is Some {
            VisibilityView::Inherited
        } else if options.field is Some {
            options.field->Some_0
        } else {
            options.vis
        }),
{
}

/// A contradiction is never read: options that were read hold at most one
/// of the two legacy markers, on themselves and in their `setter(..)` block.
pub proof fn lemma_no_contradiction_is_read(
    input: DeriveInputView,
    struct_default: bool,
    private_fields: bool,
)
    ensures
        StructOptionsView::from_derive_input_with(input, struct_default, private_fields) matches Ok(o)
            ==> o.wf(),
{
    let holds = |o: StructOptionsView|
        o.setter matches Some(s) ==> !(s.public is Some && s.private is Some);
    let start = StructOptionsView::initial(input.ident);
    assert forall|a: StructOptionsView, item: MetaItemView|
        holds(a) && (#[trigger] StructOptions::set(a, item)) is Ok implies holds(
        StructOptions::set(a, item)->Ok_0,
    ) by {}
    meta::lemma_fill_attrs_holds::<StructOptions>(
        meta::Filling { record: start, seen: Seq::empty() },
        input.attrs,
        holds,
    );
}

/// Reading is a function of what was written and of the build switches, and
/// options that were read hold at most one of the two legacy markers.
pub proof fn lemma_from_derive_input(
    a: DeriveInputView,
    b: DeriveInputView,
    struct_default: bool,
    private_fields: bool,
)
    requires
        a == b,
    ensures
        StructOptionsView::from_derive_input_with(a, struct_default, private_fields)
            == StructOptionsView::from_derive_input_with(b, struct_default, private_fields),
        StructOptionsView::from_derive_input_with(a, struct_default, private_fields) matches Ok(o)
            ==> o.wf(),
{
    lemma_no_contradiction_is_read(a, struct_default, private_fields);
}

/// Whether a text holds another as a part.
pub open spec fn mentions(text: Seq<char>, part: Seq<char>) -> bool {
    exists|before: Seq<char>, after: Seq<char>| text == #[trigger] (before + part + after)
}

/// Finishing only adds notices, behind those that were there: one for a
/// struct-level default unless `struct_default` is on, one for a struct
/// without `field(..)` unless `private_fields` is on. Each says where the
/// options were found.
pub proof fn lemma_finish_notes(options: StructOptionsView, struct_default: bool, private_fields: bool)
    ensures
        ({
            let r = options.finish_with(struct_default, private_fields);
            let old = options.deprecation_notes.len();
            &&& r.deprecation_notes.len() == old + (if !struct_default && options.default is Some {
                1int
            } else {
                0int
            }) + (if !private_fields && options.field is None {
                1int
            } else {
                0int
            })
            &&& r.deprecation_notes.subrange(0, old as int) == options.deprecation_notes
            &&& forall|i: int|
                old <= i < r.deprecation_notes.len() ==> mentions(
                    #[trigger] r.deprecation_notes[i],
                    "on struct "@ + options.ident,
                )
            &&& r == (StructOptionsView { deprecation_notes: r.deprecation_notes, ..options })
        }),
{
    let r = options.finish_with(struct_default, private_fields);
    let old = options.deprecation_notes.len();
    let location = options.locate();
    assert(r.deprecation_notes.subrange(0, old as int) =~= options.deprecation_notes);
    let first = struct_default_note(location);
    let second = private_fields_note(location);
    assert(mentions(first, location)) by {
        let before = "the meaning of `#[builder(default)]` on the struct level (found "@;
        let after =
            ") will change in the next version (see https://github.com/colin-kiegel/rust-derive-builder/issues/61 for more details). To squelch this message and adopt the new behavior now, compile `derive_builder` with `--features \"struct_default\"`."@;
        assert(first == before + location + after);
    }
    assert(mentions(second, location)) by {
        let before =
            "Builder fields will be private by default starting in the next version. (see https://github.com/colin-kiegel/rust-derive-builder/issues/86 for more details). To squelch this message and adopt the new behavior now, compile `derive_builder` with `--features \"private_fields\"` or add `field(<vis>)` to the builder attribute on the struct. (Found "@;
        let after = ")"@;
        assert(second == before + location + after);
    }
    assert forall|i: int| old <= i < r.deprecation_notes.len() implies mentions(
        #[trigger] r.deprecation_notes[i],
        "on struct "@ + options.ident,
    ) by {
        let added = options.new_notes(struct_default, private_fields);
        assert(r.deprecation_notes[i] == added[i - old]);
    }
}

} // verus!
