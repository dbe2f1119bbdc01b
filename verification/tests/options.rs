//! Reading options from declarations as `syn` parses them.

use derive_builder::error::ConfigError;
use derive_builder::options::field_options::SetterOptions;
use derive_builder::options::struct_options::{BuildFnOptions, SetterOptions as StructSetterOptions};
use derive_builder::options::{DefaultExpression, FieldOptions, LegacyVis, StructOptions};
use derive_builder::syntax::{
    Attribute, Body, DeriveInput, Field, Generics, Lit, MetaItem, NestedMetaItem, Visibility,
};
use derive_builder::synthesis::{Bindings, BuilderPattern};
use quote::ToTokens;

fn text<T: ToTokens>(t: &T) -> String {
    let mut out = quote::Tokens::new();
    t.to_tokens(&mut out);
    out.to_string()
}

fn lit(l: &syn::Lit) -> Lit {
    match *l {
        syn::Lit::Str(ref s, _) => Lit::Str(s.clone()),
        syn::Lit::Bool(b) => Lit::Bool(b),
        ref other => Lit::Other(text(other)),
    }
}

fn meta(m: &syn::MetaItem) -> MetaItem {
    match *m {
        syn::MetaItem::Word(ref n) => MetaItem::Word(n.to_string()),
        syn::MetaItem::List(ref n, ref items) => {
            MetaItem::List(n.to_string(), items.iter().map(nested).collect())
        }
        syn::MetaItem::NameValue(ref n, ref l) => MetaItem::NameValue(n.to_string(), lit(l)),
    }
}

fn nested(n: &syn::NestedMetaItem) -> NestedMetaItem {
    match *n {
        syn::NestedMetaItem::MetaItem(ref m) => NestedMetaItem::MetaItem(meta(m)),
        syn::NestedMetaItem::Literal(ref l) => NestedMetaItem::Literal(lit(l)),
    }
}

fn attr(a: &syn::Attribute) -> Attribute {
    Attribute { value: meta(&a.value), is_sugared_doc: a.is_sugared_doc }
}

fn vis(v: &syn::Visibility) -> Visibility {
    match *v {
        syn::Visibility::Public => Visibility::Public,
        syn::Visibility::Crate => Visibility::Crate,
        syn::Visibility::Restricted(ref p) => Visibility::Restricted(text(p)),
        syn::Visibility::Inherited => Visibility::Inherited,
    }
}

fn field(f: &syn::Field) -> Field {
    Field {
        ident: f.ident.as_ref().expect("a named field").to_string(),
        vis: vis(&f.vis),
        attrs: f.attrs.iter().map(attr).collect(),
        ty: text(&f.ty),
    }
}

fn generics(g: &syn::Generics) -> Generics {
    Generics {
        lifetimes: g.lifetimes.iter().map(text).collect(),
        ty_params: g.ty_params.iter().map(text).collect(),
        where_clause: g.where_clause.predicates.iter().map(text).collect(),
    }
}

fn input(di: &syn::DeriveInput) -> DeriveInput {
    DeriveInput {
        ident: di.ident.to_string(),
        vis: vis(&di.vis),
        attrs: di.attrs.iter().map(attr).collect(),
        generics: generics(&di.generics),
        body: match di.body {
            syn::Body::Struct(syn::VariantData::Struct(ref fields)) => {
                Body::Struct(fields.iter().map(field).collect())
            }
            syn::Body::Struct(syn::VariantData::Tuple(_)) => Body::Tuple,
            syn::Body::Struct(syn::VariantData::Unit) => Body::Unit,
            syn::Body::Enum(_) => Body::Enum,
        },
    }
}

fn parse(source: &str) -> DeriveInput {
    input(&syn::parse_derive_input(source).unwrap())
}

fn fields(di: DeriveInput) -> Vec<Field> {
    match di.body {
        Body::Struct(fields) => fields,
        _ => panic!("Didn't read the struct correctly"),
    }
}

fn private_fields_note(name: &str) -> String {
    format!(
        "Builder fields will be private by default starting in the next version. \
         (see https://github.com/colin-kiegel/rust-derive-builder/issues/86 for \
         more details). To squelch this message and adopt the new behavior now, \
         compile `derive_builder` with `--features \"private_fields\"` or add \
         `field(<vis>)` to the builder attribute on the struct. (Found on struct {})",
        name
    )
}

fn struct_default_note(name: &str) -> String {
    format!(
        "the meaning of `#[builder(default)]` on the struct level (found on struct {}) will \
         change in the next version (see \
         https://github.com/colin-kiegel/rust-derive-builder/issues/61 for \
         more details). To squelch this message and adopt the new behavior now, \
         compile `derive_builder` with `--features \"struct_default\"`.",
        name
    )
}

#[test]
fn simple() {
    let di = parse(
        r#"
            pub struct Foo {
                #[builder(setter(into))]
                foo: String,
            }
        "#,
    );

    let fields = fields(di);
    assert_eq!(
        FieldOptions::from_field(&fields[0]).unwrap(),
        FieldOptions {
            setter: SetterOptions {
                into: Some(true),
                skip: Some(false),
                name: None,
                prefix: None,
            },
            ..FieldOptions::from(("foo".to_string(), "String".to_string()))
        }
    );
}

#[test]
fn rename() {
    let di = parse(
        r#"
            pub struct Foo {
                #[builder(setter(name = "baz"))]
                bar: String,
            }
        "#,
    );

    let fields = fields(di);
    assert_eq!(
        FieldOptions::from_field(&fields[0]).unwrap(),
        FieldOptions {
            setter: SetterOptions {
                name: Some("baz".into()),
                skip: Some(false),
                ..Default::default()
            },
            ..FieldOptions::from(("bar".into(), "String".to_string()))
        }
    );
}

#[test]
fn setter_into() {
    let di = parse(
        r#"
            #[derive(Builder)]
            #[builder(setter(into))]
            struct Bar {
                foo: u8,
                bar: String,
            }
        "#,
    );

    assert_eq!(
        StructOptions::from_derive_input_with(&di, true, true).unwrap(),
        StructOptions {
            setter: Some(StructSetterOptions {
                into: true,
                ..Default::default()
            }),
            .."Bar".to_string().into()
        }
    );

    // With the switches off the notice on the fields' visibility is there.
    assert_eq!(
        StructOptions::from_derive_input(&di).unwrap(),
        StructOptions {
            setter: Some(StructSetterOptions {
                into: true,
                ..Default::default()
            }),
            deprecation_notes: vec![private_fields_note("Bar")],
            .."Bar".to_string().into()
        }
    );
}

#[test]
fn full_struct() {
    let di = parse(
        r#"
            #[derive(Default, Builder)]
            #[builder(no_std, setter(into), default, name = "BarBaz", build_fn(skip))]
            pub struct Bar<T> {
                foo: u8,
                bar: T,
            }
        "#,
    );

    let expected = StructOptions {
        setter: Some(StructSetterOptions {
            into: true,
            ..Default::default()
        }),
        build_fn: BuildFnOptions {
            skip: true,
            ..Default::default()
        },
        generics: Generics {
            lifetimes: vec![],
            ty_params: vec!["T".to_string()],
            where_clause: vec![],
        },
        vis: Visibility::Public,
        name: Some("BarBaz".to_string()),
        default: Some(DefaultExpression::Trait),
        bindings: Bindings::NoStd,
        .."Bar".to_string().into()
    };
    assert_eq!(StructOptions::from_derive_input_with(&di, true, true).unwrap(), expected);

    // Each switch silences its own notice.
    assert_eq!(
        StructOptions::from_derive_input_with(&di, false, false).unwrap().deprecation_notes,
        vec![struct_default_note("Bar"), private_fields_note("Bar")]
    );
    assert_eq!(
        StructOptions::from_derive_input_with(&di, true, false).unwrap().deprecation_notes,
        vec![private_fields_note("Bar")]
    );
    assert_eq!(
        StructOptions::from_derive_input_with(&di, false, true).unwrap().deprecation_notes,
        vec![struct_default_note("Bar")]
    );
    assert_eq!(
        StructOptions::from_derive_input(&di).unwrap(),
        StructOptions {
            deprecation_notes: vec![struct_default_note("Bar"), private_fields_note("Bar")],
            ..expected
        }
    );
}

/// Attributes are filtered on their way from the options to the setter, and
/// are not on their way to the builder field.
#[test]
fn forwarding() {
    let allow_attr = attr(&syn::parse_outer_attr(r#"#[allow(non_snake_case)]"#).unwrap());
    let serde_attr = attr(&syn::parse_outer_attr(r#"#[serde(rename = "hi")]"#).unwrap());

    let opts = FieldOptions {
        setter: SetterOptions {
            name: Some("Foo".to_string()),
            prefix: None,
            skip: Some(false),
            into: Some(true),
        },
        pattern: Some(Default::default()),
        public: Some(()),
        default: None,
        use_default_struct: false,
        deprecation_notes: Default::default(),
        attrs: vec![allow_attr.clone(), serde_attr.clone()],
        bindings: Default::default(),
        try_setter: Some(false),
        ..FieldOptions::from(("bar".to_string(), "String".to_string()))
    };

    assert_eq!(vec![allow_attr.clone()], opts.as_setter().unwrap().attrs);
    assert_eq!(vec![allow_attr, serde_attr].as_slice(), opts.as_builder_field().unwrap().attrs.as_slice());

    let setter = opts.as_setter().unwrap();
    assert!(setter.enabled);
    assert_eq!(setter.ident, "Foo");
    assert_eq!(setter.field_ident, "bar");
    assert_eq!(setter.field_type, "String");
    assert_eq!(setter.visibility, Visibility::Public);
    assert_eq!(setter.pattern, BuilderPattern::Mutable);
    assert!(setter.generic_into);
    assert!(!setter.try_setter);
}

#[test]
fn forwarded_attributes_are_kept_in_order() {
    let di = parse(
        r#"
            /// A doc comment.
            #[derive(Builder)]
            #[cfg(feature = "x")]
            #[serde(deny_unknown_fields)]
            #[allow(dead_code)]
            struct Foo {
                /// The field.
                #[serde(rename = "hi")]
                #[allow(non_snake_case)]
                #[builder(default)]
                bar: String,
            }
        "#,
    );
    let s = StructOptions::from_derive_input(&di).unwrap();
    let names: Vec<&str> = s.attrs.iter().map(|a| a.name().as_str()).collect();
    assert_eq!(names, vec!["doc", "cfg", "allow"]);
    assert!(s.attrs[0].is_sugared_doc);

    let f = FieldOptions::from_field(&fields(di)[0]).unwrap();
    let names: Vec<&str> = f.attrs.iter().map(|a| a.name().as_str()).collect();
    assert_eq!(names, vec!["doc", "allow"]);
    assert_eq!(f.default, Some(DefaultExpression::Trait));
}

#[test]
fn field_keys_are_read() {
    let di = parse(
        r#"
            struct Foo {
                #[builder(setter(prefix = "with", skip = "true", into = false), try_setter,
                          default = "42", pattern = "owned", field(private), public)]
                pub bar: u8,
            }
        "#,
    );
    let f = FieldOptions::from_field(&fields(di)[0]).unwrap();
    assert_eq!(
        f,
        FieldOptions {
            vis: Visibility::Public,
            setter: SetterOptions {
                name: None,
                prefix: Some("with".to_string()),
                skip: Some(true),
                into: Some(false),
            },
            try_setter: Some(true),
            default: Some(DefaultExpression::Explicit("42".to_string())),
            pattern: Some(BuilderPattern::Owned),
            field: Some(Visibility::Inherited),
            public: Some(()),
            ..FieldOptions::from(("bar".to_string(), "u8".to_string()))
        }
    );
    assert_eq!(f.to_visibility(), Ok(Some(Visibility::Public)));
}

#[test]
fn bare_setter_word_enables_the_setter() {
    let di = parse("struct Foo { #[builder(setter)] bar: u8, baz: u8 }");
    let fields = fields(di);
    let bar = FieldOptions::from_field(&fields[0]).unwrap();
    assert_eq!(bar.setter, SetterOptions { skip: Some(false), ..Default::default() });
    let baz = FieldOptions::from_field(&fields[1]).unwrap();
    assert_eq!(baz.setter, SetterOptions::default());
    assert_eq!(baz.setter.skip, None);
}

#[test]
fn struct_keys_are_read() {
    let di = parse(
        r#"
            #[builder(pattern = "immutable", derive(Debug, PartialEq), try_setter = "false")]
            #[builder(build_fn(name = "finish", validate = "Self::check"), field(public), private)]
            #[builder(setter(prefix = "set", skip, public))]
            pub(crate) struct Foo<'a, T: Clone> where T: 'a { bar: &'a T }
        "#,
    );
    let s = StructOptions::from_derive_input(&di).unwrap();
    assert_eq!(s.ident, "Foo");
    assert_eq!(s.vis, Visibility::Crate);
    assert_eq!(s.pattern, BuilderPattern::Immutable);
    assert_eq!(s.derive, vec!["Debug".to_string(), "PartialEq".to_string()]);
    assert_eq!(s.try_setter, Some(false));
    assert_eq!(
        s.build_fn,
        BuildFnOptions {
            skip: false,
            name: "finish".to_string(),
            validate: Some("Self::check".to_string()),
        }
    );
    assert_eq!(s.field, Some(Visibility::Public));
    assert_eq!(s.private, Some(()));
    assert_eq!(s.public, None);
    assert_eq!(
        s.setter,
        Some(StructSetterOptions {
            prefix: Some("set".to_string()),
            into: false,
            skip: true,
            private: None,
            public: Some(()),
        })
    );
    assert_eq!(s.bindings, Bindings::Std);
    assert_eq!(s.generics.lifetimes.len(), 1);
    assert_eq!(s.generics.ty_params.len(), 1);
    assert_eq!(s.generics.where_clause.len(), 1);
    // `field(..)` was given and there is no struct-level default: no notice.
    assert!(s.deprecation_notes.is_empty());
}

#[test]
fn both_markers_are_a_contradiction() {
    let di = parse("#[builder(public, private)] struct Foo { bar: u8 }");
    assert_eq!(StructOptions::from_derive_input(&di), Err(ConfigError::ConflictingVisibility));

    let di = parse("#[builder(public)] #[builder(private)] struct Foo { bar: u8 }");
    assert_eq!(StructOptions::from_derive_input(&di), Err(ConfigError::ConflictingVisibility));

    let di = parse("struct Foo { #[builder(private, public)] bar: u8 }");
    assert_eq!(
        FieldOptions::from_field(&fields(di)[0]),
        Err(ConfigError::ConflictingVisibility)
    );

    let di = parse("struct Foo { #[builder(field(public, private))] bar: u8 }");
    assert_eq!(
        FieldOptions::from_field(&fields(di)[0]),
        Err(ConfigError::ConflictingVisibility)
    );

    let di = parse("#[builder(field(private, public))] struct Foo { bar: u8 }");
    assert_eq!(StructOptions::from_derive_input(&di), Err(ConfigError::ConflictingVisibility));
}

#[test]
fn both_markers_in_the_struct_level_setter_block_are_a_contradiction() {
    let di = parse("#[builder(setter(public, private))] struct Foo { bar: u8 }");
    assert_eq!(StructOptions::from_derive_input(&di), Err(ConfigError::ConflictingVisibility));
    let di = parse("#[builder(setter(private, into, public))] struct Foo { bar: u8 }");
    assert_eq!(StructOptions::from_derive_input(&di), Err(ConfigError::ConflictingVisibility));
    let di = parse("#[builder(setter(public))] struct Foo { bar: u8 }");
    assert!(StructOptions::from_derive_input(&di).is_ok());
}

#[test]
fn options_with_both_markers_are_not_projected() {
    let field = FieldOptions {
        public: Some(()),
        private: Some(()),
        pattern: Some(BuilderPattern::Owned),
        ..FieldOptions::from(("bar".to_string(), "u8".to_string()))
    };
    assert_eq!(field.visibility(), Err(ConfigError::ConflictingVisibility));
    assert_eq!(field.as_setter(), Err(ConfigError::ConflictingVisibility));
    assert_eq!(field.as_builder_field(), Err(ConfigError::ConflictingVisibility));

    let options = StructOptions {
        public: Some(()),
        private: Some(()),
        ..StructOptions::from("Foo".to_string())
    };
    assert_eq!(options.as_builder(), Err(ConfigError::ConflictingVisibility));
    // The build method has the visibility of the declaration and no say in this.
    assert!(options.as_build_method().is_ok());
}

#[test]
fn a_single_marker_is_no_contradiction() {
    let di = parse("#[builder(public)] struct Foo { #[builder(private)] bar: u8 }");
    let s = StructOptions::from_derive_input(&di).unwrap();
    assert_eq!(s.to_visibility(), Ok(Some(Visibility::Public)));
    assert_eq!(s.as_builder().unwrap().visibility, Visibility::Public);
    let f = FieldOptions::from_field(&fields(di)[0]).unwrap();
    assert_eq!(f.to_visibility(), Ok(Some(Visibility::Inherited)));

    let di = parse("pub struct Foo { pub bar: u8 }");
    let s = StructOptions::from_derive_input(&di).unwrap();
    assert_eq!(s.to_visibility(), Ok(None));
    assert_eq!(s.as_builder().unwrap().visibility, Visibility::Public);
    let mut f = FieldOptions::from_field(&fields(di)[0]).unwrap();
    f.with_defaults(&s);
    assert_eq!(f.as_setter().unwrap().visibility, Visibility::Public);
    assert_eq!(f.as_builder_field().unwrap().field_visibility, Visibility::Public);
}

#[test]
fn unknown_and_repeated_keys_are_errors() {
    let di = parse("#[builder(patern = \"owned\")] struct Foo { bar: u8 }");
    assert_eq!(
        StructOptions::from_derive_input(&di),
        Err(ConfigError::UnknownField("patern".to_string()))
    );

    let di = parse("#[builder(name = \"A\")] #[builder(name = \"B\")] struct Foo { bar: u8 }");
    assert_eq!(
        StructOptions::from_derive_input(&di),
        Err(ConfigError::DuplicateField("name".to_string()))
    );

    let di = parse("struct Foo { #[builder(setter(into, into))] bar: u8 }");
    assert_eq!(
        FieldOptions::from_field(&fields(di)[0]),
        Err(ConfigError::DuplicateField("into".to_string()))
    );

    let di = parse("struct Foo { #[builder(setter(rename = \"x\"))] bar: u8 }");
    assert_eq!(
        FieldOptions::from_field(&fields(di)[0]),
        Err(ConfigError::UnknownField("rename".to_string()))
    );

    // The first error in the order of writing is the one reported.
    let di = parse("#[builder(bogus, name = 1)] struct Foo { bar: u8 }");
    assert_eq!(
        StructOptions::from_derive_input(&di),
        Err(ConfigError::UnknownField("bogus".to_string()))
    );
}

#[test]
fn wrong_forms_and_values_are_errors() {
    let di = parse("#[builder(name)] struct Foo { bar: u8 }");
    assert_eq!(
        StructOptions::from_derive_input(&di),
        Err(ConfigError::UnexpectedFormat("name".to_string()))
    );

    let di = parse("#[builder(name = 1)] struct Foo { bar: u8 }");
    assert_eq!(
        StructOptions::from_derive_input(&di),
        Err(ConfigError::UnexpectedType("name".to_string()))
    );

    let di = parse("#[builder(pattern = \"borrowed\")] struct Foo { bar: u8 }");
    assert_eq!(
        StructOptions::from_derive_input(&di),
        Err(ConfigError::UnknownValue("borrowed".to_string()))
    );

    let di = parse("#[builder(try_setter = \"yes\")] struct Foo { bar: u8 }");
    assert_eq!(
        StructOptions::from_derive_input(&di),
        Err(ConfigError::UnknownValue("yes".to_string()))
    );

    let di = parse("#[builder(derive(Debug, x = \"y\"))] struct Foo { bar: u8 }");
    assert_eq!(
        StructOptions::from_derive_input(&di),
        Err(ConfigError::UnexpectedType("derive".to_string()))
    );

    let di = parse("#[builder(setter)] struct Foo { bar: u8 }");
    assert_eq!(
        StructOptions::from_derive_input(&di),
        Err(ConfigError::UnexpectedFormat("setter".to_string()))
    );

    let di = parse("struct Foo { #[builder(setter = \"x\")] bar: u8 }");
    assert_eq!(
        FieldOptions::from_field(&fields(di)[0]),
        Err(ConfigError::UnexpectedType("setter".to_string()))
    );

    let di = parse("struct Foo { #[builder(public = true)] bar: u8 }");
    assert_eq!(
        FieldOptions::from_field(&fields(di)[0]),
        Err(ConfigError::UnexpectedType("public".to_string()))
    );

    // `syn::parse_path` decides what a path is.
    let di = parse("#[builder(build_fn(validate = \"not a path\"))] struct Foo { bar: u8 }");
    assert_eq!(
        StructOptions::from_derive_input(&di),
        Err(ConfigError::UnknownValue("not a path".to_string()))
    );
}

#[test]
fn other_attributes_and_bare_literals_are_passed_over() {
    let di = parse("#[builder = \"x\"] #[other(name = \"A\")] #[builder(\"lit\", name = \"B\")] struct Foo { bar: u8 }");
    let s = StructOptions::from_derive_input(&di).unwrap();
    assert_eq!(s.name, Some("B".to_string()));
    assert_eq!(s.builder_ident(), "B");
}

#[test]
fn reading_twice_gives_the_same_options() {
    let source = r#"
        #[builder(setter(into, prefix = "with"), default, derive(Debug))]
        pub struct Foo {
            #[builder(setter(name = "baz"), default = "1")]
            bar: u8,
        }
    "#;
    let a = parse(source);
    let b = parse(source);
    assert_eq!(StructOptions::from_derive_input(&a), StructOptions::from_derive_input(&a));
    assert_eq!(StructOptions::from_derive_input(&a), StructOptions::from_derive_input(&b));
    let fa = fields(a);
    let fb = fields(b);
    assert_eq!(FieldOptions::from_field(&fa[0]), FieldOptions::from_field(&fb[0]));
}
